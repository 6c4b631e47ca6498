//! Working-directory plans: the skeleton of a campaign workdir, the
//! per-worker shared-memory directory, the symlinks that make the live
//! regions visible, orphan reaping, and safe removal.
//!
//! Everything here computes names and plans from plain values; the embedding
//! application probes the file system and carries the plans out, and
//! performs no deletion that a plan does not name.

use vstd::prelude::*;
use crate::decimal::{dec_of, u64_to_dec, usize_to_dec};
use crate::params::views;

verus! {

/// The campaign subfolders, relative to the workdir, in creation order.
pub open spec fn spec_subfolder_rels() -> Seq<Seq<char>> {
    seq![
        "corpus/normal"@,
        "corpus/crash"@,
        "corpus/kasan"@,
        "corpus/timeout"@,
        "imports"@,
        "seeds"@,
        "snapshot"@,
        "forced_imports"@,
    ]
}

/// The campaign subfolders, relative to the workdir.
pub fn workdir_subfolders() -> (r: Vec<&'static str>)
    ensures
        r@.len() == 8,
        r@.map_values(|s: &'static str| s@) == spec_subfolder_rels(),
{
    let mut v: Vec<&'static str> = Vec::new();
    v.push("corpus/normal");
    v.push("corpus/crash");
    v.push("corpus/kasan");
    v.push("corpus/timeout");
    v.push("imports");
    v.push("seeds");
    v.push("snapshot");
    v.push("forced_imports");
    proof {
        assert(v@.map_values(|s: &'static str| s@) =~= spec_subfolder_rels());
    }
    v
}

/// The marker files touched at the top of the workdir.
pub open spec fn spec_touch_rels() -> Seq<Seq<char>> {
    seq!["filter"@, "page_cache.lock"@, "page_cache.dump"@, "page_cache.addr"@, "program"@]
}

/// The marker files touched at the top of the workdir.
pub fn workdir_touch_files() -> (r: Vec<&'static str>)
    ensures
        r@.map_values(|s: &'static str| s@) == spec_touch_rels(),
{
    let mut v: Vec<&'static str> = Vec::new();
    v.push("filter");
    v.push("page_cache.lock");
    v.push("page_cache.dump");
    v.push("page_cache.addr");
    v.push("program");
    proof {
        assert(v@.map_values(|s: &'static str| s@) =~= spec_touch_rels());
    }
    v
}

/// A path under the workdir.
pub open spec fn spec_under(workdir: Seq<char>, rel: Seq<char>) -> Seq<char> {
    workdir + "/"@ + rel
}

/// Joins a relative name onto the workdir.
pub fn path_under(workdir: &str, rel: &str) -> (r: String)
    ensures
        r@ == spec_under(workdir@, rel@),
{
    let mut s = workdir.to_owned();
    s.append("/");
    s.append(rel);
    s
}

/// The absolute campaign subfolder paths, in order.
pub open spec fn spec_subfolder_paths(workdir: Seq<char>) -> Seq<Seq<char>> {
    spec_subfolder_rels().map_values(|rel: Seq<char>| spec_under(workdir, rel))
}

/// Where the i-th seed is copied to: `seeds/seed_<i>.bin` under the workdir.
pub open spec fn spec_seed_path(workdir: Seq<char>, i: nat) -> Seq<char> {
    workdir + "/seeds/seed_"@ + dec_of(i) + ".bin"@
}

/// The destination file for the i-th imported seed.
pub fn seed_file_path(workdir: &str, i: usize) -> (r: String)
    ensures
        r@ == spec_seed_path(workdir@, i as nat),
{
    let mut s = workdir.to_owned();
    s.append("/seeds/seed_");
    let d = usize_to_dec(i);
    s.append(d.as_str());
    s.append(".bin");
    s
}

/// The per-worker redqueen directory under the workdir.
pub open spec fn spec_redqueen_path(workdir: Seq<char>, qemu_id: nat) -> Seq<char> {
    workdir + "/redqueen_workdir_"@ + dec_of(qemu_id)
}

/// The per-worker redqueen directory under the workdir.
pub fn redqueen_workdir_path(workdir: &str, qemu_id: usize) -> (r: String)
    ensures
        r@ == spec_redqueen_path(workdir@, qemu_id as nat),
{
    let mut s = workdir.to_owned();
    s.append("/redqueen_workdir_");
    let d = usize_to_dec(qemu_id);
    s.append(d.as_str());
    s
}

/// The per-worker shared-memory directory: `/dev/shm/nyx_<pid>_<tid>/`.
pub open spec fn spec_shm_dir(pid: nat, tid: nat) -> Seq<char> {
    "/dev/shm/nyx_"@ + dec_of(pid) + "_"@ + dec_of(tid) + "/"@
}

/// The per-worker shared-memory directory for a process and thread.
pub fn shm_work_dir_path(pid: u64, tid: u64) -> (r: String)
    ensures
        r@ == spec_shm_dir(pid as nat, tid as nat),
{
    let mut s = "/dev/shm/nyx_".to_owned();
    let p = u64_to_dec(pid);
    s.append(p.as_str());
    s.append("_");
    let t = u64_to_dec(tid);
    s.append(t.as_str());
    s.append("/");
    s
}

/// The lock file inside a shared-memory directory ending in a slash.
pub fn shm_lock_path(shm_dir: &str) -> (r: String)
    ensures
        r@ == shm_dir@ + "lock"@,
{
    let mut s = shm_dir.to_owned();
    s.append("lock");
    s
}

/// The region files of one worker paired with their workdir symlinks:
/// `bitmap` with `bitmap_<id>`, `input` with `payload_<id>`, `ijon` with
/// `ijon_<id>`. At startup each pair is linked; at shutdown each shm file is
/// copied over to its workdir name for post-mortem inspection.
pub fn region_link_pairs(workdir: &str, shm_dir: &str, qemu_id: usize) -> (r: Vec<(String, String)>)
    ensures
        r@.len() == 3,
        r@[0].0@ == shm_dir@ + "bitmap"@,
        r@[0].1@ == workdir@ + "/bitmap_"@ + dec_of(qemu_id as nat),
        r@[1].0@ == shm_dir@ + "input"@,
        r@[1].1@ == workdir@ + "/payload_"@ + dec_of(qemu_id as nat),
        r@[2].0@ == shm_dir@ + "ijon"@,
        r@[2].1@ == workdir@ + "/ijon_"@ + dec_of(qemu_id as nat),
{
    let d = usize_to_dec(qemu_id);
    let mut v: Vec<(String, String)> = Vec::new();

    let mut src = shm_dir.to_owned();
    src.append("bitmap");
    let mut dst = workdir.to_owned();
    dst.append("/bitmap_");
    dst.append(d.as_str());
    v.push((src, dst));

    let mut src = shm_dir.to_owned();
    src.append("input");
    let mut dst = workdir.to_owned();
    dst.append("/payload_");
    dst.append(d.as_str());
    v.push((src, dst));

    let mut src = shm_dir.to_owned();
    src.append("ijon");
    let mut dst = workdir.to_owned();
    dst.append("/ijon_");
    dst.append(d.as_str());
    v.push((src, dst));

    v
}

/// The files a child polls for before mapping the parent's snapshot: the
/// page-cache markers and the serialized snapshot state.
pub fn workdir_wait_files(workdir: &str) -> (r: Vec<String>)
    ensures
        views(r@) == seq![
            spec_under(workdir@, "page_cache.lock"@),
            spec_under(workdir@, "page_cache.dump"@),
            spec_under(workdir@, "page_cache.addr"@),
            spec_under(workdir@, "snapshot/fast_snapshot.qemu_state"@),
        ],
{
    let mut v: Vec<String> = Vec::new();
    v.push(path_under(workdir, "page_cache.lock"));
    v.push(path_under(workdir, "page_cache.dump"));
    v.push(path_under(workdir, "page_cache.addr"));
    v.push(path_under(workdir, "snapshot/fast_snapshot.qemu_state"));
    proof {
        assert(views(v@) =~= seq![
            spec_under(workdir@, "page_cache.lock"@),
            spec_under(workdir@, "page_cache.dump"@),
            spec_under(workdir@, "page_cache.addr"@),
            spec_under(workdir@, "snapshot/fast_snapshot.qemu_state"@),
        ]);
    }
    v
}

/// An orphaned shared-memory directory may be deleted exactly when its lock
/// was acquired (its owner is gone) and it lies under `/dev/shm/`.
pub open spec fn spec_orphan_removable(path: Seq<char>, lock_acquired: bool) -> bool {
    lock_acquired && path.len() >= 9 && path.subrange(0, 9) == "/dev/shm/"@
}

/// Decides whether an orphan scan may delete a directory: only with its
/// lock held and only under `/dev/shm/`.
pub fn orphan_removable(path: &str, lock_acquired: bool) -> (r: bool)
    ensures
        r == spec_orphan_removable(path@, lock_acquired),
{
    proof {
        reveal_strlit("/dev/shm/");
    }
    if !lock_acquired {
        return false;
    }
    let n = path.unicode_len();
    if n < 9 {
        return false;
    }
    let ok = path.get_char(0) == '/' && path.get_char(1) == 'd' && path.get_char(2) == 'e'
        && path.get_char(3) == 'v' && path.get_char(4) == '/' && path.get_char(5) == 's'
        && path.get_char(6) == 'h' && path.get_char(7) == 'm' && path.get_char(8) == '/';
    proof {
        let sub = path@.subrange(0, 9);
        let lit = "/dev/shm/"@;
        if ok {
            assert(sub =~= lit);
        }
        if sub == lit {
            assert(path@[0] == lit[0] && path@[1] == lit[1] && path@[2] == lit[2] && path@[3]
                == lit[3] && path@[4] == lit[4] && path@[5] == lit[5] && path@[6] == lit[6]
                && path@[7] == lit[7] && path@[8] == lit[8]) by {
                assert(forall|j: int| 0 <= j < 9 ==> sub[j] == path@[j]);
            }
            assert(ok);
        }
    }
    ok
}

/// Safe removal refuses anything that does not look like a workdir: the
/// root and every expected subfolder must exist, else the error names the
/// first missing path and the plan is empty — nothing is deleted. On
/// success the plan lists every subfolder and then the root, in deletion
/// order.
pub fn remove_workdir_safe(workdir: &str, root_exists: bool, subfolder_exists: &Vec<bool>) -> (r:
    Result<Vec<String>, String>)
    requires
        subfolder_exists@.len() == 8,
    ensures
        r is Ok <==> root_exists && (forall|i: int| 0 <= i < 8 ==> subfolder_exists@[i]),
        r matches Ok(v) ==> views(v@) == spec_subfolder_paths(workdir@).push(workdir@),
        !root_exists ==> r is Err && r->Err_0@ == "\""@ + workdir@ + "/\" does not exist"@,
        root_exists ==> forall|m: int|
            0 <= m < 8 && !subfolder_exists@[m] && (forall|j: int| 0 <= j < m ==> subfolder_exists@[j])
                ==> r is Err && r->Err_0@ == "\""@ + spec_subfolder_paths(workdir@)[m]
                + "\" does not exist"@,
{
    if !root_exists {
        let mut e = "\"".to_owned();
        e.append(workdir);
        e.append("/\" does not exist");
        return Err(e);
    }
    let folders = workdir_subfolders();
    let mut i: usize = 0;
    while i < 8
        invariant
            root_exists,
            folders@.map_values(|s: &'static str| s@) == spec_subfolder_rels(),
            folders@.len() == 8,
            subfolder_exists@.len() == 8,
            i <= 8,
            forall|j: int| 0 <= j < i ==> subfolder_exists@[j],
        decreases 8 - i,
    {
        if !subfolder_exists[i] {
            let mut e = "\"".to_owned();
            let p = path_under(workdir, folders[i]);
            e.append(p.as_str());
            e.append("\" does not exist");
            proof {
                assert(spec_subfolder_paths(workdir@)[i as int] == spec_under(
                    workdir@,
                    spec_subfolder_rels()[i as int],
                ));
                assert(e@ =~= "\""@ + spec_subfolder_paths(workdir@)[i as int]
                    + "\" does not exist"@);
            }
            return Err(e);
        }
        i = i + 1;
    }
    let mut plan: Vec<String> = Vec::new();
    let mut k: usize = 0;
    while k < 8
        invariant
            folders@.map_values(|s: &'static str| s@) == spec_subfolder_rels(),
            folders@.len() == 8,
            k <= 8,
            plan@.len() == k,
            forall|t: int| 0 <= t < k ==> plan@[t]@ == spec_subfolder_paths(workdir@)[t],
        decreases 8 - k,
    {
        proof {
            assert(spec_subfolder_paths(workdir@)[k as int] == spec_under(
                workdir@,
                spec_subfolder_rels()[k as int],
            ));
        }
        plan.push(path_under(workdir, folders[k]));
        k = k + 1;
    }
    plan.push(workdir.to_owned());
    proof {
        assert(views(plan@) =~= spec_subfolder_paths(workdir@).push(workdir@));
    }
    Ok(plan)
}

} // verus!
