//! Big-endian byte renderings of the integers that go into an identity
//! fingerprint.

use vstd::prelude::*;

verus! {

/// The 8 big-endian bytes of `x`.
pub open spec fn spec_u64_be_bytes(x: u64) -> Seq<u8> {
    seq![
        ((x / 0x100000000000000) % 0x100) as u8,
        ((x / 0x1000000000000) % 0x100) as u8,
        ((x / 0x10000000000) % 0x100) as u8,
        ((x / 0x100000000) % 0x100) as u8,
        ((x / 0x1000000) % 0x100) as u8,
        ((x / 0x10000) % 0x100) as u8,
        ((x / 0x100) % 0x100) as u8,
        (x % 0x100) as u8,
    ]
}

/// The 4 big-endian bytes of `x`.
pub open spec fn spec_u32_be_bytes(x: u32) -> Seq<u8> {
    seq![
        ((x / 0x1000000) % 0x100) as u8,
        ((x / 0x10000) % 0x100) as u8,
        ((x / 0x100) % 0x100) as u8,
        (x % 0x100) as u8,
    ]
}

/// The two's-complement image of `x` in an unsigned 64-bit word.
pub open spec fn spec_i64_twos_complement(x: i64) -> u64 {
    if x >= 0 {
        x as u64
    } else {
        (x as int + 0x10000000000000000) as u64
    }
}

/// The 8 big-endian bytes of `x`, negative values in two's complement.
pub open spec fn spec_i64_be_bytes(x: i64) -> Seq<u8> {
    spec_u64_be_bytes(spec_i64_twos_complement(x))
}

/// The 8 big-endian bytes of `x`.
pub fn u64_be_bytes(x: u64) -> (r: Vec<u8>)
    ensures
        r@ == spec_u64_be_bytes(x),
{
    let mut v: Vec<u8> = Vec::new();
    v.push(((x / 0x100000000000000) % 0x100) as u8);
    v.push(((x / 0x1000000000000) % 0x100) as u8);
    v.push(((x / 0x10000000000) % 0x100) as u8);
    v.push(((x / 0x100000000) % 0x100) as u8);
    v.push(((x / 0x1000000) % 0x100) as u8);
    v.push(((x / 0x10000) % 0x100) as u8);
    v.push(((x / 0x100) % 0x100) as u8);
    v.push((x % 0x100) as u8);
    proof {
        assert(v@ =~= spec_u64_be_bytes(x));
    }
    v
}

/// The 4 big-endian bytes of `x`.
pub fn u32_be_bytes(x: u32) -> (r: Vec<u8>)
    ensures
        r@ == spec_u32_be_bytes(x),
{
    let mut v: Vec<u8> = Vec::new();
    v.push(((x / 0x1000000) % 0x100) as u8);
    v.push(((x / 0x10000) % 0x100) as u8);
    v.push(((x / 0x100) % 0x100) as u8);
    v.push((x % 0x100) as u8);
    proof {
        assert(v@ =~= spec_u32_be_bytes(x));
    }
    v
}

/// The 8 big-endian bytes of `x`, negative values in two's complement.
pub fn i64_be_bytes(x: i64) -> (r: Vec<u8>)
    ensures
        r@ == spec_i64_be_bytes(x),
{
    let u: u64 = if x >= 0 {
        x as u64
    } else {
        let w: i128 = x as i128;
        let shifted: i128 = w + 0x10000000000000000;
        shifted as u64
    };
    proof {
        assert(u == spec_i64_twos_complement(x));
    }
    u64_be_bytes(u)
}

} // verus!
