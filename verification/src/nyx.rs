//! The stable facade a harness programs against: the loaded configuration
//! with its setters, the misc-region text helpers, and safe workdir removal.

use vstd::prelude::*;
use crate::config::{Config, ConfigLoader, ConfigError, QemuNyxRole, TimeSpec,
    FuzzRunnerConfig};
use crate::aux::{spec_misc_len, spec_misc_payload, misc_payload};
use crate::params::views;
use crate::workdir;

verus! {

/// The cooperation role as a harness names it.
#[derive(Clone, Copy, Debug, PartialEq, Eq, Structural)]
pub enum NyxProcessRole {
    StandAlone,
    Parent,
    Child,
}

/// The harness-side role names map one to one onto the runner's roles.
pub open spec fn spec_role_of(role: NyxProcessRole) -> QemuNyxRole {
    match role {
        NyxProcessRole::StandAlone => QemuNyxRole::StandAlone,
        NyxProcessRole::Parent => QemuNyxRole::Parent,
        NyxProcessRole::Child => QemuNyxRole::Child,
    }
}

/// A loaded configuration together with the share directory it came from.
#[derive(Clone, Debug)]
pub struct NyxConfig {
    pub config: Config,
    pub sharedir_path: String,
}

impl NyxConfig {
    /// Builds the configuration from the two parsed records of a share
    /// directory: the primary record and the defaults record it names. The
    /// embedding application reads and parses the record files and resolves
    /// the defaults directory; the merge and every validation happen here.
    pub fn load(
        sharedir: &str,
        default_config_folder: &str,
        default: ConfigLoader,
        config: ConfigLoader,
    ) -> (r: Result<NyxConfig, ConfigError>)
        ensures
            r is Ok <==> crate::config::spec_runner_ok(default.runner, config.runner)
                && crate::config::spec_fuzzer_ok(default.fuzz, config.fuzz),
            r matches Ok(c) ==> {
                &&& c.sharedir_path@ == sharedir@
                &&& crate::config::spec_runner_merged(
                    default_config_folder@,
                    default.runner,
                    config.runner,
                    c.config.runner,
                )
                &&& crate::config::spec_fuzzer_merged(
                    sharedir@,
                    default.fuzz,
                    config.fuzz,
                    c.config.fuzz,
                )
                &&& c.config.runtime.hprintf_fd is None
                &&& c.config.runtime.worker_id == 0
                &&& c.config.runtime.process_role is StandAlone
                &&& c.config.runtime.aux_buffer_size == 4096
            },
    {
        match Config::new_from_loader(sharedir, default_config_folder, default, config) {
            Ok(x) => Ok(NyxConfig { config: x, sharedir_path: sharedir.to_owned() }),
            Err(e) => Err(e),
        }
    }

    /// The share directory this configuration was loaded from.
    pub fn sharedir_path(&self) -> (r: String)
        ensures
            r@ == self.sharedir_path@,
    {
        self.sharedir_path.clone()
    }

    /// The configured VM binary, for kernel boots.
    pub fn qemu_binary_path(&self) -> (r: Option<String>)
        ensures
            r is Some <==> self.config.runner is QemuKernel,
            self.config.runner matches FuzzRunnerConfig::QemuKernel(k) ==> (r matches Some(p) && p@
                == k.qemu_binary@),
    {
        match &self.config.runner {
            FuzzRunnerConfig::QemuKernel(cfg) => Some(cfg.qemu_binary.clone()),
            _ => None,
        }
    }

    /// The configured kernel image, for kernel boots.
    pub fn kernel_image_path(&self) -> (r: Option<String>)
        ensures
            r is Some <==> self.config.runner is QemuKernel,
            self.config.runner matches FuzzRunnerConfig::QemuKernel(k) ==> (r matches Some(p) && p@
                == k.kernel@),
    {
        match &self.config.runner {
            FuzzRunnerConfig::QemuKernel(cfg) => Some(cfg.kernel.clone()),
            _ => None,
        }
    }

    /// The configured initrd image, for kernel boots.
    pub fn ramfs_image_path(&self) -> (r: Option<String>)
        ensures
            r is Some <==> self.config.runner is QemuKernel,
            self.config.runner matches FuzzRunnerConfig::QemuKernel(k) ==> (r matches Some(p) && p@
                == k.ramfs@),
    {
        match &self.config.runner {
            FuzzRunnerConfig::QemuKernel(cfg) => Some(cfg.ramfs.clone()),
            _ => None,
        }
    }

    /// The configured per-iteration time limit.
    pub fn timeout(&self) -> (r: TimeSpec)
        ensures
            r == self.config.fuzz.time_limit,
    {
        self.config.fuzz.time_limit
    }

    /// The derived specification path under the share directory.
    pub fn spec_path(&self) -> (r: String)
        ensures
            r@ == self.config.fuzz.spec_path@,
    {
        self.config.fuzz.spec_path.clone()
    }

    /// The configured coverage bitmap size; the guest may later advertise a
    /// larger one.
    pub fn bitmap_size(&self) -> (r: usize)
        ensures
            r == self.config.fuzz.bitmap_size,
    {
        self.config.fuzz.bitmap_size
    }

    /// The configured workdir path.
    pub fn workdir_path(&self) -> (r: &str)
        ensures
            r@ == self.config.fuzz.workdir_path@,
    {
        self.config.fuzz.workdir_path.as_str()
    }

    /// The configured input region size.
    pub fn input_buffer_size(&self) -> (r: usize)
        ensures
            r == self.config.fuzz.input_buffer_size,
    {
        self.config.fuzz.input_buffer_size
    }

    /// Whether the input region is write-protected after handoff.
    pub fn input_buffer_write_protection(&self) -> (r: bool)
        ensures
            r == self.config.fuzz.write_protected_input_buffer,
    {
        self.config.fuzz.write_protected_input_buffer
    }

    /// Points the configuration at another workdir.
    pub fn set_workdir_path(&mut self, path: String)
        ensures
            final(self).config.fuzz.workdir_path == path,
            final(self).config.runner == old(self).config.runner,
            final(self).config.runtime == old(self).config.runtime,
            final(self).sharedir_path == old(self).sharedir_path,
    {
        self.config.fuzz.workdir_path = path;
    }

    /// Sets the input region size, which must be a whole number of
    /// 4096-byte pages.
    pub fn set_input_buffer_size(&mut self, size: usize)
        requires
            size >= 4096,
            size % 4096 == 0,
        ensures
            final(self).config.fuzz.input_buffer_size == size,
            final(self).config.runner == old(self).config.runner,
            final(self).config.runtime == old(self).config.runtime,
            final(self).sharedir_path == old(self).sharedir_path,
    {
        self.config.fuzz.input_buffer_size = size;
    }

    /// Switches input-region write protection.
    pub fn set_input_buffer_write_protection(&mut self, write_protected: bool)
        ensures
            final(self).config.fuzz.write_protected_input_buffer == write_protected,
            final(self).config.runner == old(self).config.runner,
            final(self).config.runtime == old(self).config.runtime,
            final(self).sharedir_path == old(self).sharedir_path,
    {
        self.config.fuzz.write_protected_input_buffer = write_protected;
    }

    /// The configured hprintf descriptor, with the conventional -1 standing
    /// for none.
    pub fn hprintf_fd(&self) -> (r: i32)
        ensures
            self.config.runtime.hprintf_fd matches Some(fd) ==> r == fd,
            self.config.runtime.hprintf_fd is None ==> r == -1,
    {
        match self.config.runtime.hprintf_fd {
            Some(fd) => fd,
            None => -1,
        }
    }

    /// Probes and records the descriptor hprintf output is redirected to; a
    /// descriptor that does not exist is refused and nothing changes.
    pub fn set_hprintf_fd(&mut self, fd: i32) -> (r: bool)
        ensures
            r ==> final(self).config.runtime.hprintf_fd == Some(fd),
            !r ==> *final(self) == *old(self),
            final(self).config.fuzz == old(self).config.fuzz,
            final(self).config.runner == old(self).config.runner,
            final(self).sharedir_path == old(self).sharedir_path,
    {
        self.config.runtime.set_hpintf_fd(fd)
    }

    /// Sets the cooperation role.
    pub fn set_process_role(&mut self, role: NyxProcessRole)
        ensures
            final(self).config.runtime.process_role == spec_role_of(role),
            final(self).config.fuzz == old(self).config.fuzz,
            final(self).config.runner == old(self).config.runner,
            final(self).sharedir_path == old(self).sharedir_path,
    {
        let converted = match role {
            NyxProcessRole::Parent => QemuNyxRole::Parent,
            NyxProcessRole::Child => QemuNyxRole::Child,
            NyxProcessRole::StandAlone => QemuNyxRole::StandAlone,
        };
        self.config.runtime.set_process_role(converted);
    }

    /// Pins a snapshot path for reuse; the caller resolves it against the
    /// file system first.
    pub fn set_reuse_snapshot_path(&mut self, path: String)
        ensures
            final(self).config.runtime.reuse_snapshot_path == Some(path),
            final(self).config.fuzz == old(self).config.fuzz,
            final(self).config.runner == old(self).config.runner,
            final(self).sharedir_path == old(self).sharedir_path,
    {
        self.config.runtime.set_reuse_snapshot_path(path);
    }

    /// The configured cooperation role.
    pub fn process_role(&self) -> (r: &QemuNyxRole)
        ensures
            r == self.config.runtime.process_role,
    {
        self.config.runtime.process_role()
    }

    /// The configured worker id.
    pub fn worker_id(&self) -> (r: usize)
        ensures
            r == self.config.runtime.worker_id,
    {
        self.config.runtime.worker_id()
    }

    /// Sets the worker id.
    pub fn set_worker_id(&mut self, worker_id: usize)
        ensures
            final(self).config.runtime.worker_id == worker_id,
            final(self).config.fuzz == old(self).config.fuzz,
            final(self).config.runner == old(self).config.runner,
            final(self).sharedir_path == old(self).sharedir_path,
    {
        self.config.runtime.set_worker_id(worker_id);
    }

    /// Sets the auxiliary page size: accepted exactly when it is at least
    /// 4096 and a multiple of 4096, else refused with nothing changed.
    pub fn set_aux_buffer_size(&mut self, size: usize) -> (r: bool)
        ensures
            r == (size >= 4096 && size % 4096 == 0),
            r ==> final(self).config.runtime.aux_buffer_size == size,
            !r ==> *final(self) == *old(self),
            final(self).config.fuzz == old(self).config.fuzz,
            final(self).config.runner == old(self).config.runner,
            final(self).sharedir_path == old(self).sharedir_path,
    {
        self.config.runtime.set_aux_buffer_size(size)
    }

    /// A copy of the configured dictionary.
    pub fn dict(&self) -> (r: Vec<Vec<u8>>)
        ensures
            r@.len() == self.config.fuzz.dict@.len(),
            forall|i: int| 0 <= i < r@.len() ==> r@[i]@ == self.config.fuzz.dict@[i]@,
    {
        let mut r: Vec<Vec<u8>> = Vec::new();
        let mut i: usize = 0;
        let n = self.config.fuzz.dict.len();
        while i < n
            invariant
                n == self.config.fuzz.dict@.len(),
                i <= n,
                r@.len() == i,
                forall|j: int| 0 <= j < i ==> r@[j]@ == self.config.fuzz.dict@[j]@,
            decreases n - i,
        {
            let entry = vstd::slice::slice_to_vec(self.config.fuzz.dict[i].as_slice());
            r.push(entry);
            i = i + 1;
        }
        r
    }
}

/// Checks a workdir before removal: the embedding application probes which
/// of the expected paths exist and deletes exactly what the returned plan
/// names — nothing on an error.
pub fn remove_work_dir(workdir: &str, root_exists: bool, subfolder_exists: &Vec<bool>) -> (r:
    Result<Vec<String>, String>)
    requires
        subfolder_exists@.len() == 8,
    ensures
        r is Ok <==> root_exists && (forall|i: int| 0 <= i < 8 ==> subfolder_exists@[i]),
        r matches Ok(v) ==> views(v@) == workdir::spec_subfolder_paths(workdir@).push(workdir@),
{
    workdir::remove_workdir_safe(workdir, root_exists, subfolder_exists)
}

/// What a lossy text decoding of some bytes yields. Relies on
/// String::from_utf8_lossy, whose result depends on the bytes alone.
pub uninterp spec fn utf8_lossy_of(b: Seq<u8>) -> Seq<char>;

/// Relies on String::from_utf8_lossy: a lossy decoding determined by the
/// bytes alone, empty exactly for empty input.
#[verifier::external_body]
fn utf8_lossy(b: &Vec<u8>) -> (r: String)
    ensures
        r@ == utf8_lossy_of(b@),
        b@.len() == 0 ==> r@.len() == 0,
{
    String::from_utf8_lossy(b.as_slice()).into_owned()
}

/// The misc payload of an auxiliary page, decoded as text: the clamped
/// number of payload bytes, decoded lossily.
pub fn aux_string(page: &[u8]) -> (r: String)
    requires
        page@.len() >= 4096,
    ensures
        r@ == utf8_lossy_of(spec_misc_payload(page@)),
{
    let data = misc_payload(page);
    utf8_lossy(&data)
}

/// The escape of one hex digit value as an ASCII byte: digits then lower
/// case letters.
pub open spec fn spec_hex_digit(d: u8) -> u8
    recommends
        d < 16,
{
    if d < 10 {
        (48 + d) as u8
    } else {
        (87 + d) as u8
    }
}

/// The printable escape of one byte, as ASCII bytes: tab, carriage return,
/// newline, backslash and both quotes get a backslash escape; other
/// printable ASCII stands as it is; everything else becomes a two-digit hex
/// escape.
pub open spec fn spec_escape_byte(b: u8) -> Seq<u8> {
    if b == 9 {
        seq![92u8, 116u8]
    } else if b == 13 {
        seq![92u8, 114u8]
    } else if b == 10 {
        seq![92u8, 110u8]
    } else if b == 92 {
        seq![92u8, 92u8]
    } else if b == 39 {
        seq![92u8, 39u8]
    } else if b == 34 {
        seq![92u8, 34u8]
    } else if 0x20 <= b && b <= 0x7e {
        seq![b]
    } else {
        seq![92u8, 120u8, spec_hex_digit(b / 16), spec_hex_digit(b % 16)]
    }
}

/// The printable escape of a byte string.
pub open spec fn spec_escape_bytes(s: Seq<u8>) -> Seq<u8>
    decreases s.len(),
{
    if s.len() == 0 {
        seq![]
    } else {
        spec_escape_byte(s[0]) + spec_escape_bytes(s.drop_first())
    }
}

/// Escaping one more byte at the end appends its escape.
proof fn lemma_escape_snoc(s: Seq<u8>, b: u8)
    ensures
        spec_escape_bytes(s.push(b)) == spec_escape_bytes(s) + spec_escape_byte(b),
    decreases s.len(),
{
    let t = s.push(b);
    if s.len() == 0 {
        assert(t[0] == b);
        assert(t.drop_first() =~= s);
        assert(spec_escape_bytes(t) == spec_escape_byte(b) + spec_escape_bytes(s));
        assert(spec_escape_byte(b) + spec_escape_bytes(s) =~= spec_escape_bytes(s)
            + spec_escape_byte(b));
    } else {
        assert(t[0] == s[0]);
        assert(t.drop_first() =~= s.drop_first().push(b));
        lemma_escape_snoc(s.drop_first(), b);
        assert(spec_escape_bytes(t) == spec_escape_byte(s[0]) + (spec_escape_bytes(s.drop_first())
            + spec_escape_byte(b)));
        assert(spec_escape_byte(s[0]) + (spec_escape_bytes(s.drop_first()) + spec_escape_byte(b))
            =~= (spec_escape_byte(s[0]) + spec_escape_bytes(s.drop_first()))
            + spec_escape_byte(b));
    }
}

/// The escape of one byte is ASCII throughout.
proof fn lemma_escape_byte_ascii(b: u8)
    ensures
        forall|i: int| 0 <= i < spec_escape_byte(b).len() ==> spec_escape_byte(b)[i] < 0x80,
{
}

/// Every escape byte is ASCII.
proof fn lemma_escape_ascii(s: Seq<u8>)
    ensures
        forall|i: int| 0 <= i < spec_escape_bytes(s).len() ==> spec_escape_bytes(s)[i] < 0x80,
    decreases s.len(),
{
    if s.len() > 0 {
        lemma_escape_byte_ascii(s[0]);
        lemma_escape_ascii(s.drop_first());
        let hd = spec_escape_byte(s[0]);
        let tl = spec_escape_bytes(s.drop_first());
        assert forall|i: int| 0 <= i < spec_escape_bytes(s).len() implies spec_escape_bytes(s)[i]
            < 0x80 by {
            assert(spec_escape_bytes(s) == hd + tl);
            if i < hd.len() {
                assert((hd + tl)[i] == hd[i]);
            } else {
                assert((hd + tl)[i] == tl[i - hd.len()]);
            }
        }
    }
}

fn escape_byte_into(out: &mut Vec<u8>, b: u8)
    ensures
        final(out)@ == old(out)@ + spec_escape_byte(b),
{
    if b == 9 {
        out.push(92);
        out.push(116);
    } else if b == 13 {
        out.push(92);
        out.push(114);
    } else if b == 10 {
        out.push(92);
        out.push(110);
    } else if b == 92 {
        out.push(92);
        out.push(92);
    } else if b == 39 {
        out.push(92);
        out.push(39);
    } else if b == 34 {
        out.push(92);
        out.push(34);
    } else if 0x20 <= b && b <= 0x7e {
        out.push(b);
    } else {
        out.push(92);
        out.push(120);
        let hi = b / 16;
        let lo = b % 16;
        out.push(if hi < 10 {
            48 + hi
        } else {
            87 + hi
        });
        out.push(if lo < 10 {
            48 + lo
        } else {
            87 + lo
        });
    }
    proof {
        assert(out@ =~= old(out)@ + spec_escape_byte(b));
    }
}

/// Relies on String::from_utf8: ASCII bytes decode to exactly their
/// characters.
#[verifier::external_body]
fn ascii_to_string(b: Vec<u8>) -> (r: String)
    requires
        forall|i: int| 0 <= i < b@.len() ==> b@[i] < 0x80,
    ensures
        r@ == b@.map_values(|x: u8| x as char),
{
    String::from_utf8(b).unwrap_or_default()
}

/// Renders bytes with every non-printable byte escaped, as the misc region
/// is shown to a human.
pub fn inspect_bytes(bs: &[u8]) -> (r: String)
    ensures
        r@ == spec_escape_bytes(bs@).map_values(|x: u8| x as char),
{
    let mut out: Vec<u8> = Vec::new();
    let n = bs.len();
    let mut i: usize = 0;
    while i < n
        invariant
            n == bs@.len(),
            i <= n,
            out@ == spec_escape_bytes(bs@.subrange(0, i as int)),
        decreases n - i,
    {
        proof {
            assert(bs@.subrange(0, i as int).push(bs@[i as int]) =~= bs@.subrange(0, i as int + 1));
            lemma_escape_snoc(bs@.subrange(0, i as int), bs@[i as int]);
        }
        escape_byte_into(&mut out, bs[i]);
        i = i + 1;
    }
    proof {
        assert(bs@.subrange(0, n as int) =~= bs@);
        lemma_escape_ascii(bs@);
    }
    ascii_to_string(out)
}

/// The misc payload rendered with escapes, for diagnostics.
pub fn misc_as_string(page: &[u8]) -> (r: String)
    requires
        page@.len() >= 4096,
    ensures
        r@ == spec_escape_bytes(spec_misc_payload(page@)).map_values(|x: u8| x as char),
{
    let data = misc_payload(page);
    inspect_bytes(data.as_slice())
}

} // verus!
