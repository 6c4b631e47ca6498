//! The auxiliary buffer: the fixed-layout shared page through which the host
//! and the VM talk.
//!
//! The page is at least 4096 bytes and a multiple of 4096. It carries five
//! regions at fixed offsets: a read-only header, a capability advertisement
//! written once by the VM, a host-written configuration region with a
//! `changed` doorbell byte, a VM-written result region, and a misc scratch
//! region holding a two-byte length prefix and a payload (log lines, abort
//! messages). The host works on a byte-for-byte shadow of the page; the
//! embedding application moves bytes between the shadow and the live mapping
//! around each rendezvous.

use vstd::prelude::*;
use crate::bytes::{le_u16, le_u32, le_u64, u32_le_bytes, u64_le_bytes, lemma_u32_le_roundtrip,
    lemma_u64_le_roundtrip, read_u16_le, read_u32_le, read_u64_le, write_u32_le, write_u64_le};

verus! {

/// Magic number expected in the first header field.
pub const AUX_MAGIC: u64 = 0x54502d554d4551;

/// Protocol version expected in the second header field.
pub const QEMU_PT_VERSION: u16 = 3;

/// Layout hash expected in the third header field.
pub const QEMU_PT_HASH: u16 = 84;

/// Smallest legal page size; every size is a multiple of it.
pub const AUX_BUFFER_MIN_SIZE: usize = 4096;

pub const HEADER_OFFSET: usize = 0;

pub const CAP_OFFSET: usize = 128;

pub const CONFIG_OFFSET: usize = 384;

pub const RESULT_OFFSET: usize = 896;

pub const MISC_OFFSET: usize = 1408;

/// Iteration ended normally.
pub const NYX_SUCCESS: u8 = 0;

/// The target crashed.
pub const NYX_CRASH: u8 = 1;

/// The guest emitted a log line into the misc region.
pub const NYX_HPRINTF: u8 = 2;

/// The host-declared timeout fired inside the VM.
pub const NYX_TIMEOUT: u8 = 3;

/// The guest wrote to the input region while it was protected.
pub const NYX_INPUT_WRITE: u8 = 4;

/// The guest aborted permanently.
pub const NYX_ABORT: u8 = 5;

/// The header triple at the head of the page.
#[derive(Clone, Copy, Debug, PartialEq, Eq, Structural)]
pub struct AuxHeader {
    pub magic: u64,
    pub version: u16,
    pub hash: u16,
}

/// The header a page holds.
pub open spec fn spec_header(s: Seq<u8>) -> AuxHeader {
    AuxHeader {
        magic: le_u64(s.subrange(0, 8)),
        version: le_u16(s.subrange(8, 10)),
        hash: le_u16(s.subrange(10, 12)),
    }
}

/// Reads the header triple.
pub fn read_header(page: &[u8]) -> (r: AuxHeader)
    requires
        page@.len() >= 4096,
    ensures
        r == spec_header(page@),
{
    AuxHeader {
        magic: read_u64_le(page, 0),
        version: read_u16_le(page, 8),
        hash: read_u16_le(page, 10),
    }
}

/// Why a header was rejected, with the value found on the page.
#[derive(Clone, Copy, Debug, PartialEq, Eq, Structural)]
pub enum HeaderError {
    Magic { found: u64 },
    Version { found: u16 },
    Hash { found: u16 },
}

/// The compiled constants match the header triple of the page.
pub open spec fn spec_header_ok(s: Seq<u8>) -> bool {
    &&& spec_header(s).magic == AUX_MAGIC
    &&& spec_header(s).version == QEMU_PT_VERSION
    &&& spec_header(s).hash == QEMU_PT_HASH
}

/// Compares the header triple with the compiled constants. The magic is
/// checked first, then the version, then the hash; the first mismatch is
/// reported together with the value found.
pub fn validate_header(page: &[u8]) -> (r: Result<(), HeaderError>)
    requires
        page@.len() >= 4096,
    ensures
        r is Ok <==> spec_header_ok(page@),
        spec_header(page@).magic != AUX_MAGIC ==> r == Err::<(), HeaderError>(
            HeaderError::Magic { found: spec_header(page@).magic },
        ),
        spec_header(page@).magic == AUX_MAGIC && spec_header(page@).version != QEMU_PT_VERSION
            ==> r == Err::<(), HeaderError>(
            HeaderError::Version { found: spec_header(page@).version },
        ),
        spec_header(page@).magic == AUX_MAGIC && spec_header(page@).version == QEMU_PT_VERSION
            && spec_header(page@).hash != QEMU_PT_HASH ==> r == Err::<(), HeaderError>(
            HeaderError::Hash { found: spec_header(page@).hash },
        ),
{
    let h = read_header(page);
    if h.magic != AUX_MAGIC {
        Err(HeaderError::Magic { found: h.magic })
    } else if h.version != QEMU_PT_VERSION {
        Err(HeaderError::Version { found: h.version })
    } else if h.hash != QEMU_PT_HASH {
        Err(HeaderError::Hash { found: h.hash })
    } else {
        Ok(())
    }
}

/// The capability advertisement the guest agent writes once.
#[derive(Clone, Copy, Debug, PartialEq, Eq, Structural)]
pub struct AuxCap {
    pub redqueen: u8,
    pub agent_timeout_detection: u8,
    pub agent_trace_bitmap: u8,
    pub agent_ijon_trace_bitmap: u8,
    pub agent_input_buffer_size: u32,
    pub agent_coverage_bitmap_size: u32,
}

/// The capability advertisement a page holds.
pub open spec fn spec_cap(s: Seq<u8>) -> AuxCap {
    AuxCap {
        redqueen: s[128],
        agent_timeout_detection: s[129],
        agent_trace_bitmap: s[130],
        agent_ijon_trace_bitmap: s[131],
        agent_input_buffer_size: le_u32(s.subrange(132, 136)),
        agent_coverage_bitmap_size: le_u32(s.subrange(136, 140)),
    }
}

/// Reads the capability advertisement.
pub fn read_cap(page: &[u8]) -> (r: AuxCap)
    requires
        page@.len() >= 4096,
    ensures
        r == spec_cap(page@),
{
    AuxCap {
        redqueen: page[128],
        agent_timeout_detection: page[129],
        agent_trace_bitmap: page[130],
        agent_ijon_trace_bitmap: page[131],
        agent_input_buffer_size: read_u32_le(page, 132),
        agent_coverage_bitmap_size: read_u32_le(page, 136),
    }
}

/// The host-writable configuration region.
#[derive(Clone, Copy, Debug, PartialEq, Eq, Structural)]
pub struct AuxConfigView {
    pub changed: u8,
    pub timeout_sec: u8,
    pub timeout_usec: u32,
    pub redqueen_mode: u8,
    pub trace_mode: u8,
    pub reload_mode: u8,
    pub verbose_level: u8,
    pub page_dump_mode: u8,
    pub page_addr: u64,
    pub protect_payload_buffer: u8,
    pub discard_tmp_snapshot: u8,
}

/// The configuration a page holds.
pub open spec fn spec_config(s: Seq<u8>) -> AuxConfigView {
    AuxConfigView {
        changed: s[384],
        timeout_sec: s[385],
        timeout_usec: le_u32(s.subrange(386, 390)),
        redqueen_mode: s[390],
        trace_mode: s[391],
        reload_mode: s[392],
        verbose_level: s[393],
        page_dump_mode: s[394],
        page_addr: le_u64(s.subrange(395, 403)),
        protect_payload_buffer: s[403],
        discard_tmp_snapshot: s[404],
    }
}

/// Reads the configuration region.
pub fn read_config(page: &[u8]) -> (r: AuxConfigView)
    requires
        page@.len() >= 4096,
    ensures
        r == spec_config(page@),
{
    AuxConfigView {
        changed: page[384],
        timeout_sec: page[385],
        timeout_usec: read_u32_le(page, 386),
        redqueen_mode: page[390],
        trace_mode: page[391],
        reload_mode: page[392],
        verbose_level: page[393],
        page_dump_mode: page[394],
        page_addr: read_u64_le(page, 395),
        protect_payload_buffer: page[403],
        discard_tmp_snapshot: page[404],
    }
}

/// Everything outside the configuration region is the same in both pages.
pub open spec fn only_config_changed(pre: Seq<u8>, post: Seq<u8>) -> bool {
    &&& post.len() == pre.len()
    &&& forall|i: int| 0 <= i < pre.len() && !(384 <= i < 896) ==> post[i] == pre[i]
}

/// The VM-written result region.
#[derive(Clone, Copy, Debug, PartialEq, Eq, Structural)]
pub struct AuxResultView {
    pub state: u8,
    pub exec_done: u8,
    pub exec_result_code: u8,
    pub reloaded: u8,
    pub pt_overflow: u8,
    pub page_not_found: u8,
    pub tmp_snapshot_created: u8,
    pub page_not_found_addr: u64,
    pub dirty_pages: u32,
    pub pt_trace_size: u32,
    pub bb_coverage: u32,
    pub runtime_usec: u32,
    pub runtime_sec: u32,
}

/// The result a page holds.
pub open spec fn spec_result(s: Seq<u8>) -> AuxResultView {
    AuxResultView {
        state: s[896],
        exec_done: s[897],
        exec_result_code: s[898],
        reloaded: s[899],
        pt_overflow: s[900],
        page_not_found: s[901],
        tmp_snapshot_created: s[902],
        page_not_found_addr: le_u64(s.subrange(904, 912)),
        dirty_pages: le_u32(s.subrange(912, 916)),
        pt_trace_size: le_u32(s.subrange(916, 920)),
        bb_coverage: le_u32(s.subrange(920, 924)),
        runtime_usec: le_u32(s.subrange(924, 928)),
        runtime_sec: le_u32(s.subrange(928, 932)),
    }
}

/// Reads the result region.
pub fn read_result(page: &[u8]) -> (r: AuxResultView)
    requires
        page@.len() >= 4096,
    ensures
        r == spec_result(page@),
{
    AuxResultView {
        state: page[896],
        exec_done: page[897],
        exec_result_code: page[898],
        reloaded: page[899],
        pt_overflow: page[900],
        page_not_found: page[901],
        tmp_snapshot_created: page[902],
        page_not_found_addr: read_u64_le(page, 904),
        dirty_pages: read_u32_le(page, 912),
        pt_trace_size: read_u32_le(page, 916),
        bb_coverage: read_u32_le(page, 920),
        runtime_usec: read_u32_le(page, 924),
        runtime_sec: read_u32_le(page, 928),
    }
}

/// How many payload bytes the misc region can hold: the region without its
/// two-byte length prefix.
pub open spec fn spec_misc_capacity(page_len: nat) -> nat
    recommends
        page_len >= 4096,
{
    (page_len - 1410) as nat
}

/// The misc length, clamped to the capacity of the region. Whatever the VM
/// wrote into the length prefix, the clamped length never exceeds the misc
/// region size minus its two-byte prefix.
pub open spec fn spec_misc_len(s: Seq<u8>) -> nat
    recommends
        s.len() >= 4096,
{
    let raw = le_u16(s.subrange(1408, 1410)) as nat;
    if raw <= spec_misc_capacity(s.len()) {
        raw
    } else {
        spec_misc_capacity(s.len())
    }
}

/// Reads the misc length, clamping it to the region.
pub fn misc_len(page: &[u8]) -> (r: usize)
    requires
        page@.len() >= 4096,
    ensures
        r == spec_misc_len(page@),
        r <= page@.len() - 1410,
{
    let n = page.len();
    let raw = read_u16_le(page, 1408) as usize;
    let cap = n - 1410;
    if raw <= cap {
        raw
    } else {
        cap
    }
}

/// The misc payload: the clamped number of bytes after the length prefix.
pub open spec fn spec_misc_payload(s: Seq<u8>) -> Seq<u8>
    recommends
        s.len() >= 4096,
{
    s.subrange(1410, 1410 + spec_misc_len(s) as int)
}

/// The misc clamp: whatever the VM wrote into the length prefix, the misc
/// length never exceeds the misc region size minus its two-byte prefix.
pub proof fn lemma_misc_clamp(s: Seq<u8>)
    requires
        s.len() >= 4096,
    ensures
        0 <= spec_misc_len(s) <= s.len() - 1410,
        spec_misc_payload(s).len() == spec_misc_len(s),
{
}

/// Copies the misc payload out of the page.
pub fn misc_payload(page: &[u8]) -> (r: Vec<u8>)
    requires
        page@.len() >= 4096,
    ensures
        r@ == spec_misc_payload(page@),
        r@.len() <= page@.len() - 1410,
{
    let len = misc_len(page);
    let mut out: Vec<u8> = Vec::new();
    let mut i: usize = 0;
    while i < len
        invariant
            page@.len() >= 4096,
            len == spec_misc_len(page@),
            len <= page@.len() - 1410,
            i <= len,
            out@ =~= page@.subrange(1410, 1410 + i as int),
        decreases len - i,
    {
        out.push(page[1410 + i]);
        i = i + 1;
    }
    proof {
        assert(out@ =~= spec_misc_payload(page@));
    }
    out
}

/// Sets one byte of the page, leaving the rest alone.
fn set_byte(page: &mut Vec<u8>, off: usize, v: u8)
    requires
        off < old(page)@.len(),
    ensures
        final(page)@ == old(page)@.update(off as int, v),
{
    page.set(off, v);
}

/// Stages the doorbell byte. The host sets it to one after staging config
/// changes; only the VM clears it.
pub fn config_set_changed(page: &mut Vec<u8>, v: u8)
    requires
        old(page)@.len() >= 4096,
    ensures
        spec_config(final(page)@) == (AuxConfigView { changed: v, ..spec_config(old(page)@) }),
        only_config_changed(old(page)@, final(page)@),
{
    set_byte(page, 384, v);
    proof {
        assert(page@.subrange(386, 390) =~= old(page)@.subrange(386, 390));
        assert(page@.subrange(395, 403) =~= old(page)@.subrange(395, 403));
    }
}

/// Stages the per-iteration timeout.
pub fn config_set_timeout(page: &mut Vec<u8>, sec: u8, usec: u32)
    requires
        old(page)@.len() >= 4096,
    ensures
        spec_config(final(page)@) == (AuxConfigView {
            timeout_sec: sec,
            timeout_usec: usec,
            ..spec_config(old(page)@)
        }),
        only_config_changed(old(page)@, final(page)@),
{
    set_byte(page, 385, sec);
    write_u32_le(page, 386, usec);
    proof {
        lemma_u32_le_roundtrip(usec);
        assert(page@.subrange(386, 390) =~= u32_le_bytes(usec));
        assert(page@.subrange(395, 403) =~= old(page)@.subrange(395, 403));
    }
}

/// Stages the redqueen mode flag.
pub fn config_set_redqueen_mode(page: &mut Vec<u8>, v: u8)
    requires
        old(page)@.len() >= 4096,
    ensures
        spec_config(final(page)@) == (AuxConfigView {
            redqueen_mode: v,
            ..spec_config(old(page)@)
        }),
        only_config_changed(old(page)@, final(page)@),
{
    set_byte(page, 390, v);
    proof {
        assert(page@.subrange(386, 390) =~= old(page)@.subrange(386, 390));
        assert(page@.subrange(395, 403) =~= old(page)@.subrange(395, 403));
    }
}

/// Stages the trace mode flag.
pub fn config_set_trace_mode(page: &mut Vec<u8>, v: u8)
    requires
        old(page)@.len() >= 4096,
    ensures
        spec_config(final(page)@) == (AuxConfigView { trace_mode: v, ..spec_config(old(page)@) }),
        only_config_changed(old(page)@, final(page)@),
{
    set_byte(page, 391, v);
    proof {
        assert(page@.subrange(386, 390) =~= old(page)@.subrange(386, 390));
        assert(page@.subrange(395, 403) =~= old(page)@.subrange(395, 403));
    }
}

/// Stages the reload mode flag.
pub fn config_set_reload_mode(page: &mut Vec<u8>, v: u8)
    requires
        old(page)@.len() >= 4096,
    ensures
        spec_config(final(page)@) == (AuxConfigView { reload_mode: v, ..spec_config(old(page)@) }),
        only_config_changed(old(page)@, final(page)@),
{
    set_byte(page, 392, v);
    proof {
        assert(page@.subrange(386, 390) =~= old(page)@.subrange(386, 390));
        assert(page@.subrange(395, 403) =~= old(page)@.subrange(395, 403));
    }
}

/// Stages the page dump mode flag.
pub fn config_set_page_dump_mode(page: &mut Vec<u8>, v: u8)
    requires
        old(page)@.len() >= 4096,
    ensures
        spec_config(final(page)@) == (AuxConfigView {
            page_dump_mode: v,
            ..spec_config(old(page)@)
        }),
        only_config_changed(old(page)@, final(page)@),
{
    set_byte(page, 394, v);
    proof {
        assert(page@.subrange(386, 390) =~= old(page)@.subrange(386, 390));
        assert(page@.subrange(395, 403) =~= old(page)@.subrange(395, 403));
    }
}

/// Stages the address of the page the VM should dump.
pub fn config_set_page_addr(page: &mut Vec<u8>, addr: u64)
    requires
        old(page)@.len() >= 4096,
    ensures
        spec_config(final(page)@) == (AuxConfigView { page_addr: addr, ..spec_config(old(page)@) }),
        only_config_changed(old(page)@, final(page)@),
{
    write_u64_le(page, 395, addr);
    proof {
        lemma_u64_le_roundtrip(addr);
        assert(page@.subrange(395, 403) =~= u64_le_bytes(addr));
        assert(page@.subrange(386, 390) =~= old(page)@.subrange(386, 390));
    }
}

/// Stages the input-region write-protection flag.
pub fn config_set_protect_payload_buffer(page: &mut Vec<u8>, v: u8)
    requires
        old(page)@.len() >= 4096,
    ensures
        spec_config(final(page)@) == (AuxConfigView {
            protect_payload_buffer: v,
            ..spec_config(old(page)@)
        }),
        only_config_changed(old(page)@, final(page)@),
{
    set_byte(page, 403, v);
    proof {
        assert(page@.subrange(386, 390) =~= old(page)@.subrange(386, 390));
        assert(page@.subrange(395, 403) =~= old(page)@.subrange(395, 403));
    }
}

/// Stages the discard-incremental-snapshot flag.
pub fn config_set_discard_tmp_snapshot(page: &mut Vec<u8>, v: u8)
    requires
        old(page)@.len() >= 4096,
    ensures
        spec_config(final(page)@) == (AuxConfigView {
            discard_tmp_snapshot: v,
            ..spec_config(old(page)@)
        }),
        only_config_changed(old(page)@, final(page)@),
{
    set_byte(page, 404, v);
    proof {
        assert(page@.subrange(386, 390) =~= old(page)@.subrange(386, 390));
        assert(page@.subrange(395, 403) =~= old(page)@.subrange(395, 403));
    }
}

} // verus!
