//! The fingerprint of a runtime: which version of the language runtime a
//! private cache was built for, so that caches of runtimes with different
//! binary interfaces never share a directory.

use vstd::prelude::*;
use vstd::string::*;
use crate::text::{join, join_path};

verus! {

/// The offset basis of 64-bit FNV-1a.
pub const FNV_OFFSET: u64 = 0xcbf29ce484222325;

/// The prime of 64-bit FNV-1a.
pub const FNV_PRIME: u64 = 0x100000001b3;

/// One byte folded into an FNV-1a hash.
pub open spec fn fnv_step(h: u64, b: u8) -> u64 {
    (((h ^ (b as u64)) as nat * FNV_PRIME as nat) % 0x1_0000_0000_0000_0000nat) as u64
}

/// The FNV-1a hash of the first `n` bytes.
pub open spec fn fnv_prefix(b: Seq<u8>, n: int) -> u64
    decreases n,
{
    if n <= 0 || n > b.len() {
        FNV_OFFSET
    } else {
        fnv_step(fnv_prefix(b, n - 1), b[n - 1])
    }
}

/// The 64-bit FNV-1a hash of a byte sequence.
pub open spec fn fnv1a(b: Seq<u8>) -> u64 {
    fnv_prefix(b, b.len() as int)
}

/// Computes [`fnv1a`].
pub fn fnv1a_hash(b: &[u8]) -> (r: u64)
    ensures
        r == fnv1a(b@),
{
    let mut h: u64 = FNV_OFFSET;
    let mut i: usize = 0;
    while i < b.len()
        invariant
            0 <= i <= b@.len(),
            h == fnv_prefix(b@, i as int),
        decreases b@.len() - i,
    {
        h = (h ^ (b[i] as u64)).wrapping_mul(FNV_PRIME);
        i = i + 1;
    }
    h
}

/// The lowercase hexadecimal digit for `d`.
pub open spec fn hex_char(d: u64) -> char {
    if d == 0 { '0' } else if d == 1 { '1' } else if d == 2 { '2' } else if d == 3 { '3' } else if d == 4 { '4' } else if d == 5 { '5' } else if d == 6 { '6' } else if d == 7 { '7' } else if d == 8 { '8' } else if d == 9 { '9' } else if d == 10 { 'a' } else if d == 11 { 'b' } else if d == 12 { 'c' } else if d == 13 { 'd' } else if d == 14 { 'e' } else { 'f' }
}

fn hex_str(d: u64) -> (r: &'static str)
    requires
        d < 16,
    ensures
        r@ == seq![hex_char(d)],
{
    if d == 0 {
        proof { reveal_strlit("0"); }
        "0"
    } else if d == 1 {
        proof { reveal_strlit("1"); }
        "1"
    } else if d == 2 {
        proof { reveal_strlit("2"); }
        "2"
    } else if d == 3 {
        proof { reveal_strlit("3"); }
        "3"
    } else if d == 4 {
        proof { reveal_strlit("4"); }
        "4"
    } else if d == 5 {
        proof { reveal_strlit("5"); }
        "5"
    } else if d == 6 {
        proof { reveal_strlit("6"); }
        "6"
    } else if d == 7 {
        proof { reveal_strlit("7"); }
        "7"
    } else if d == 8 {
        proof { reveal_strlit("8"); }
        "8"
    } else if d == 9 {
        proof { reveal_strlit("9"); }
        "9"
    } else if d == 10 {
        proof { reveal_strlit("a"); }
        "a"
    } else if d == 11 {
        proof { reveal_strlit("b"); }
        "b"
    } else if d == 12 {
        proof { reveal_strlit("c"); }
        "c"
    } else if d == 13 {
        proof { reveal_strlit("d"); }
        "d"
    } else if d == 14 {
        proof { reveal_strlit("e"); }
        "e"
    } else {
        proof { reveal_strlit("f"); }
        "f"
    }
}

/// The nibble of `h` that is written at position `i` of its 16 digits.
pub open spec fn nibble(h: u64, i: int) -> u64 {
    (h >> ((60 - 4 * i) as u64)) & 15u64
}

/// A 64-bit value as exactly 16 lowercase hexadecimal digits.
pub open spec fn hex16(h: u64) -> Seq<char> {
    Seq::new(16, |i: int| hex_char(nibble(h, i)))
}

/// Writes [`hex16`].
pub fn hex_text(h: u64) -> (r: String)
    ensures
        r@ == hex16(h),
{
    let mut out = String::new();
    let mut i: u64 = 0;
    while i < 16
        invariant
            0 <= i <= 16,
            out@ == hex16(h).subrange(0, i as int),
        decreases 16 - i,
    {
        let shift: u64 = 60 - 4 * i;
        let d = (h >> shift) & 15u64;
        assert(d < 16) by (bit_vector)
            requires
                d == (h >> shift) & 15u64,
        ;
        assert(d == nibble(h, i as int));
        out.append(hex_str(d));
        i = i + 1;
        assert(out@ =~= hex16(h).subrange(0, i as int));
    }
    assert(hex16(h).subrange(0, 16) =~= hex16(h));
    out
}

/// The root of the private cache for the runtime whose version probe
/// printed `probe`: a directory under `base` named by the probe's hash.
pub open spec fn runtime_cache_root(base: Seq<char>, probe: Seq<u8>) -> Seq<char> {
    join_path(base, hex16(fnv1a(probe)))
}

/// Computes [`runtime_cache_root`].
pub fn cache_root_for(base: &str, probe: &[u8]) -> (r: String)
    ensures
        r@ == runtime_cache_root(base@, probe@),
{
    let name = hex_text(fnv1a_hash(probe));
    join(base, name.as_str())
}

} // verus!
