//! The shared regions beside the auxiliary page: the coverage bitmap, the
//! input region and the feedback page.
//!
//! The sizes here are decisions, not mappings: the embedding application
//! truncates and maps the backing files to whatever these functions decide.
//! A capability-driven resize never shrinks a region, and keeps the bitmap a
//! multiple of 64 bytes and the input region a multiple of 4096 bytes.

use vstd::prelude::*;
use crate::bytes::{u32_le_bytes, write_u32_le};

verus! {

/// The sentinel the input file is pre-filled with, so that a VM reading the
/// region before the first iteration aborts predictably.
pub fn input_sentinel() -> (r: &'static str)
    ensures
        r@ == "not_init"@,
{
    "not_init"
}

/// Rounds up to a multiple of the granularity.
pub fn round_up(v: usize, g: usize) -> (r: usize)
    requires
        0 < g,
        v + g <= usize::MAX,
    ensures
        r as int % g as int == 0,
        v <= r < v + g,
{
    let q = (v + (g - 1)) / g;
    proof {
        let vi = v as int;
        let gi = g as int;
        let qi = (vi + gi - 1) / gi;
        let m = (vi + gi - 1) % gi;
        vstd::arithmetic::div_mod::lemma_fundamental_div_mod(vi + gi - 1, gi);
        vstd::arithmetic::div_mod::lemma_mod_bound(vi + gi - 1, gi);
        vstd::arithmetic::div_mod::lemma_mod_multiples_basic(qi, gi);
        assert(q == qi);
        assert(qi * gi <= vi + gi - 1) by (nonlinear_arith)
            requires
                gi * qi + m == vi + gi - 1,
                0 <= m,
        ;
        assert(vi <= qi * gi) by (nonlinear_arith)
            requires
                gi * qi + m == vi + gi - 1,
                m < gi,
        ;
    }
    q * g
}

/// The bitmap size after the guest advertises a coverage bitmap size: no
/// advertisement (zero) or one not above the current size keeps the current
/// mapping; a larger one grows it to the advertised size rounded up to a
/// multiple of 64. The region never shrinks.
pub fn bitmap_effective_size(current: usize, advertised: u32) -> (r: usize)
    requires
        current + 64 <= usize::MAX,
        advertised as int + 64 <= usize::MAX,
    ensures
        r >= current,
        advertised as int <= current ==> r == current,
        advertised as int > current ==> r % 64 == 0 && advertised <= r < advertised + 64,
{
    if advertised as usize > current {
        round_up(advertised as usize, 64)
    } else {
        current
    }
}

/// The input-region size after the guest advertises an input buffer size:
/// as the bitmap, but kept a multiple of the 4096-byte page.
pub fn input_effective_size(current: usize, advertised: u32) -> (r: usize)
    requires
        current + 4096 <= usize::MAX,
        advertised as int + 4096 <= usize::MAX,
    ensures
        r >= current,
        advertised as int <= current ==> r == current,
        advertised as int > current ==> r % 4096 == 0 && advertised <= r < advertised + 4096,
{
    if advertised as usize > current {
        round_up(advertised as usize, 4096)
    } else {
        current
    }
}

/// How many payload bytes an input write copies: the whole input, unless the
/// region (minus its four-byte length prefix) is smaller.
pub open spec fn spec_input_copy_len(region_len: nat, size: nat) -> nat
    recommends
        region_len >= 4,
{
    if size <= region_len - 4 {
        size
    } else {
        (region_len - 4) as nat
    }
}

/// Writes an input into the input region: a four-byte little-endian length,
/// then the payload, clamped to the space after the prefix. Bytes past the
/// copied payload keep their old value.
pub fn set_input(region: &mut Vec<u8>, buffer: &[u8], size: u32)
    requires
        old(region)@.len() >= 4,
        size as int <= buffer@.len(),
    ensures
        final(region)@.len() == old(region)@.len(),
        final(region)@.subrange(0, 4) == u32_le_bytes(
            spec_input_copy_len(old(region)@.len(), size as nat) as u32,
        ),
        final(region)@.subrange(4, 4 + spec_input_copy_len(old(region)@.len(), size as nat) as int)
            == buffer@.subrange(0, spec_input_copy_len(old(region)@.len(), size as nat) as int),
        forall|i: int|
            4 + spec_input_copy_len(old(region)@.len(), size as nat) <= i < old(region)@.len()
                ==> final(region)@[i] == old(region)@[i],
{
    let n = region.len();
    let copy_len: usize = if (size as usize) <= n - 4 {
        size as usize
    } else {
        n - 4
    };
    write_u32_le(region, 0, copy_len as u32);
    let mut i: usize = 0;
    while i < copy_len
        invariant
            n == region@.len(),
            region@.len() == old(region)@.len(),
            copy_len == spec_input_copy_len(old(region)@.len(), size as nat),
            copy_len + 4 <= region@.len(),
            copy_len <= buffer@.len(),
            i <= copy_len,
            region@.subrange(0, 4) == u32_le_bytes(copy_len as u32),
            forall|j: int| 0 <= j < i ==> region@[4 + j] == buffer@[j],
            forall|j: int| 4 + copy_len <= j < region@.len() ==> region@[j] == old(region)@[j],
        decreases copy_len - i,
    {
        let ghost pre = region@;
        region.set(4 + i, buffer[i]);
        proof {
            assert(region@.subrange(0, 4) =~= pre.subrange(0, 4));
        }
        i = i + 1;
    }
    proof {
        assert(region@.subrange(4, 4 + copy_len as int) =~= buffer@.subrange(0, copy_len as int));
    }
}

} // verus!
