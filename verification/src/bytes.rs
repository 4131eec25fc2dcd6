//! Fixed-width integers as big-endian bytes, and signed integers as the
//! unsigned integers with the same two's complement bits.

use vstd::prelude::*;

verus! {

/// The unsigned byte with the bits of `v`.
pub open spec fn u8_of_i8(v: i8) -> u8 {
    if v < 0 {
        (v + 0x100) as u8
    } else {
        v as u8
    }
}

/// The unsigned 16-bit integer with the bits of `v`.
pub open spec fn u16_of_i16(v: i16) -> u16 {
    if v < 0 {
        (v + 0x1_0000) as u16
    } else {
        v as u16
    }
}

/// The unsigned 32-bit integer with the bits of `v`.
pub open spec fn u32_of_i32(v: i32) -> u32 {
    if v < 0 {
        (v + 0x1_0000_0000) as u32
    } else {
        v as u32
    }
}

/// The unsigned 64-bit integer with the bits of `v`.
pub open spec fn u64_of_i64(v: i64) -> u64 {
    if v < 0 {
        (v + 0x1_0000_0000_0000_0000) as u64
    } else {
        v as u64
    }
}

/// The signed byte with the bits of `v`.
pub open spec fn i8_of_u8(v: u8) -> i8 {
    if v >= 0x80 {
        (v - 0x100) as i8
    } else {
        v as i8
    }
}

/// The signed 16-bit integer with the bits of `v`.
pub open spec fn i16_of_u16(v: u16) -> i16 {
    if v >= 0x8000 {
        (v - 0x1_0000) as i16
    } else {
        v as i16
    }
}

/// The signed 32-bit integer with the bits of `v`.
pub open spec fn i32_of_u32(v: u32) -> i32 {
    if v >= 0x8000_0000 {
        (v - 0x1_0000_0000) as i32
    } else {
        v as i32
    }
}

/// The signed 64-bit integer with the bits of `v`.
pub open spec fn i64_of_u64(v: u64) -> i64 {
    if v >= 0x8000_0000_0000_0000 {
        (v - 0x1_0000_0000_0000_0000) as i64
    } else {
        v as i64
    }
}

/// The two bytes of `v`, most significant first.
#[verifier::opaque]
pub open spec fn be_u16(v: u16) -> Seq<u8> {
    seq![(v / 0x100) as u8, (v % 0x100) as u8]
}

/// The four bytes of `v`, most significant first.
#[verifier::opaque]
pub open spec fn be_u32(v: u32) -> Seq<u8> {
    seq![
        (v / 0x100_0000) as u8,
        (v / 0x1_0000 % 0x100) as u8,
        (v / 0x100 % 0x100) as u8,
        (v % 0x100) as u8,
    ]
}

/// The eight bytes of `v`, most significant first.
#[verifier::opaque]
pub open spec fn be_u64(v: u64) -> Seq<u8> {
    be_u32((v / 0x1_0000_0000) as u32) + be_u32((v % 0x1_0000_0000) as u32)
}

/// The two bytes of `v` in two's complement, most significant first.
pub open spec fn be_i16(v: i16) -> Seq<u8> {
    be_u16(u16_of_i16(v))
}

/// The four bytes of `v` in two's complement, most significant first.
pub open spec fn be_i32(v: i32) -> Seq<u8> {
    be_u32(u32_of_i32(v))
}

/// The eight bytes of `v` in two's complement, most significant first.
pub open spec fn be_i64(v: i64) -> Seq<u8> {
    be_u64(u64_of_i64(v))
}

/// The integer whose big-endian bytes are the first two of `b`.
#[verifier::opaque]
pub open spec fn u16_of_be(b: Seq<u8>) -> u16 {
    (b[0] * 0x100 + b[1]) as u16
}

/// The integer whose big-endian bytes are the first four of `b`.
#[verifier::opaque]
pub open spec fn u32_of_be(b: Seq<u8>) -> u32 {
    (b[0] * 0x100_0000 + b[1] * 0x1_0000 + b[2] * 0x100 + b[3]) as u32
}

/// The integer whose big-endian bytes are the first eight of `b`.
#[verifier::opaque]
pub open spec fn u64_of_be(b: Seq<u8>) -> u64 {
    (u32_of_be(b) * 0x1_0000_0000 + u32_of_be(b.skip(4))) as u64
}

/// Reading back two bytes that were written gives the integer that was
/// written, whatever follows them.
pub proof fn lemma_be_u16(v: u16, rest: Seq<u8>)
    ensures
        be_u16(v).len() == 2,
        u16_of_be(be_u16(v) + rest) == v,
{
    reveal(be_u16);
    reveal(u16_of_be);
    let s = be_u16(v) + rest;
    assert(s[0] == (v / 0x100) as u8);
    assert(s[1] == (v % 0x100) as u8);
}

/// Reading back four bytes that were written gives the integer that was
/// written, whatever follows them.
pub proof fn lemma_be_u32(v: u32, rest: Seq<u8>)
    ensures
        be_u32(v).len() == 4,
        u32_of_be(be_u32(v) + rest) == v,
{
    reveal(be_u32);
    reveal(u32_of_be);
    let s = be_u32(v) + rest;
    let b0 = v / 0x100_0000;
    let b1 = v / 0x1_0000 % 0x100;
    let b2 = v / 0x100 % 0x100;
    let b3 = v % 0x100;
    assert(s[0] == b0 as u8);
    assert(s[1] == b1 as u8);
    assert(s[2] == b2 as u8);
    assert(s[3] == b3 as u8);
    assert(v / 0x100 == (v / 0x1_0000) * 0x100 + b2);
    assert(v / 0x1_0000 == b0 * 0x100 + b1);
    assert(v == (v / 0x100) * 0x100 + b3);
}

/// Reading back eight bytes that were written gives the integer that was
/// written, whatever follows them.
pub proof fn lemma_be_u64(v: u64, rest: Seq<u8>)
    ensures
        be_u64(v).len() == 8,
        u64_of_be(be_u64(v) + rest) == v,
{
    reveal(be_u64);
    reveal(u64_of_be);
    let hi = (v / 0x1_0000_0000) as u32;
    let lo = (v % 0x1_0000_0000) as u32;
    let s = be_u64(v) + rest;
    lemma_be_u32(hi, be_u32(lo) + rest);
    lemma_be_u32(lo, rest);
    assert(s =~= be_u32(hi) + (be_u32(lo) + rest));
    assert(s.skip(4) =~= be_u32(lo) + rest);
}

/// What is read depends on the bytes read only, not on what follows them.
pub proof fn lemma_of_be_front(a: Seq<u8>, b: Seq<u8>)
    ensures
        a.len() >= 2 && b.len() >= 2 && a.take(2) == b.take(2) ==> u16_of_be(a) == u16_of_be(b),
        a.len() >= 4 && b.len() >= 4 && a.take(4) == b.take(4) ==> u32_of_be(a) == u32_of_be(b),
        a.len() >= 8 && b.len() >= 8 && a.take(8) == b.take(8) ==> u64_of_be(a) == u64_of_be(b),
{
    reveal(u16_of_be);
    reveal(u32_of_be);
    reveal(u64_of_be);
    if a.len() >= 2 && b.len() >= 2 && a.take(2) == b.take(2) {
        assert(a[0] == a.take(2)[0] && a[1] == a.take(2)[1]);
        assert(b[0] == b.take(2)[0] && b[1] == b.take(2)[1]);
    }
    if a.len() >= 4 && b.len() >= 4 && a.take(4) == b.take(4) {
        assert(a[0] == a.take(4)[0] && a[1] == a.take(4)[1] && a[2] == a.take(4)[2] && a[3]
            == a.take(4)[3]);
        assert(b[0] == b.take(4)[0] && b[1] == b.take(4)[1] && b[2] == b.take(4)[2] && b[3]
            == b.take(4)[3]);
    }
    if a.len() >= 8 && b.len() >= 8 && a.take(8) == b.take(8) {
        assert forall|k: int| 0 <= k < 8 implies a[k] == b[k] by {
            assert(a[k] == a.take(8)[k]);
            assert(b[k] == b.take(8)[k]);
        }
        assert(a.skip(4)[0] == b.skip(4)[0]);
        assert(a.skip(4)[1] == b.skip(4)[1]);
        assert(a.skip(4)[2] == b.skip(4)[2]);
        assert(a.skip(4)[3] == b.skip(4)[3]);
    }
}

/// A signed integer and the unsigned integer with its bits determine each
/// other.
pub proof fn lemma_sign_roundtrip(a: i8, b: i16, c: i32, d: i64)
    ensures
        i8_of_u8(u8_of_i8(a)) == a,
        i16_of_u16(u16_of_i16(b)) == b,
        i32_of_u32(u32_of_i32(c)) == c,
        i64_of_u64(u64_of_i64(d)) == d,
{
}

/// An unsigned integer and the signed integer with its bits determine each
/// other.
pub proof fn lemma_unsigned_roundtrip(a: u8, b: u16, c: u32, d: u64)
    ensures
        u8_of_i8(i8_of_u8(a)) == a,
        u16_of_i16(i16_of_u16(b)) == b,
        u32_of_i32(i32_of_u32(c)) == c,
        u64_of_i64(i64_of_u64(d)) == d,
{
}

/// The bits of a signed byte as an unsigned byte.
pub fn i8_bits(v: i8) -> (r: u8)
    ensures
        r == u8_of_i8(v),
{
    if v < 0 {
        (v as i16 + 0x100) as u8
    } else {
        v as u8
    }
}

/// The bits of a signed 16-bit integer as an unsigned one.
pub fn i16_bits(v: i16) -> (r: u16)
    ensures
        r == u16_of_i16(v),
{
    if v < 0 {
        (v as i32 + 0x1_0000) as u16
    } else {
        v as u16
    }
}

/// The bits of a signed 32-bit integer as an unsigned one.
pub fn i32_bits(v: i32) -> (r: u32)
    ensures
        r == u32_of_i32(v),
{
    if v < 0 {
        (v as i64 + 0x1_0000_0000) as u32
    } else {
        v as u32
    }
}

/// The bits of a signed 64-bit integer as an unsigned one.
pub fn i64_bits(v: i64) -> (r: u64)
    ensures
        r == u64_of_i64(v),
{
    if v < 0 {
        (v as i128 + 0x1_0000_0000_0000_0000) as u64
    } else {
        v as u64
    }
}

/// The bits of an unsigned byte as a signed byte.
pub fn u8_bits(v: u8) -> (r: i8)
    ensures
        r == i8_of_u8(v),
{
    if v >= 0x80 {
        (v as i16 - 0x100) as i8
    } else {
        v as i8
    }
}

/// The bits of an unsigned 16-bit integer as a signed one.
pub fn u16_bits(v: u16) -> (r: i16)
    ensures
        r == i16_of_u16(v),
{
    if v >= 0x8000 {
        (v as i32 - 0x1_0000) as i16
    } else {
        v as i16
    }
}

/// The bits of an unsigned 32-bit integer as a signed one.
pub fn u32_bits(v: u32) -> (r: i32)
    ensures
        r == i32_of_u32(v),
{
    if v >= 0x8000_0000 {
        (v as i64 - 0x1_0000_0000) as i32
    } else {
        v as i32
    }
}

/// The bits of an unsigned 64-bit integer as a signed one.
pub fn u64_bits(v: u64) -> (r: i64)
    ensures
        r == i64_of_u64(v),
{
    if v >= 0x8000_0000_0000_0000 {
        (v as i128 - 0x1_0000_0000_0000_0000) as i64
    } else {
        v as i64
    }
}

/// Appends the big-endian bytes of `v`.
pub fn put_u16(out: &mut Vec<u8>, v: u16)
    ensures
        final(out)@ == old(out)@ + be_u16(v),
{
    out.push((v / 0x100) as u8);
    out.push((v % 0x100) as u8);
    proof {
        reveal(be_u16);
    }
    assert(out@ =~= old(out)@ + be_u16(v));
}

/// Appends the big-endian bytes of `v`.
pub fn put_u32(out: &mut Vec<u8>, v: u32)
    ensures
        final(out)@ == old(out)@ + be_u32(v),
{
    out.push((v / 0x100_0000) as u8);
    out.push((v / 0x1_0000 % 0x100) as u8);
    out.push((v / 0x100 % 0x100) as u8);
    out.push((v % 0x100) as u8);
    proof {
        reveal(be_u32);
    }
    assert(out@ =~= old(out)@ + be_u32(v));
}

/// Appends the big-endian bytes of `v`.
pub fn put_u64(out: &mut Vec<u8>, v: u64)
    ensures
        final(out)@ == old(out)@ + be_u64(v),
{
    put_u32(out, (v / 0x1_0000_0000) as u32);
    put_u32(out, (v % 0x1_0000_0000) as u32);
    proof {
        reveal(be_u64);
    }
    assert(out@ =~= old(out)@ + be_u64(v));
}

/// The integer whose big-endian bytes stand at `at` in `input`.
pub(crate) fn get_u16(input: &[u8], at: usize) -> (r: u16)
    requires
        at + 2 <= input.len(),
    ensures
        r == u16_of_be(input@.skip(at as int)),
{
    proof {
        reveal(u16_of_be);
    }
    input[at] as u16 * 0x100 + input[at + 1] as u16
}

/// The integer whose big-endian bytes stand at `at` in `input`.
pub(crate) fn get_u32(input: &[u8], at: usize) -> (r: u32)
    requires
        at + 4 <= input.len(),
    ensures
        r == u32_of_be(input@.skip(at as int)),
{
    proof {
        reveal(u32_of_be);
    }
    input[at] as u32 * 0x100_0000 + input[at + 1] as u32 * 0x1_0000 + input[at + 2] as u32 * 0x100
        + input[at + 3] as u32
}

/// The integer whose big-endian bytes stand at `at` in `input`.
pub(crate) fn get_u64(input: &[u8], at: usize) -> (r: u64)
    requires
        at + 8 <= input.len(),
    ensures
        r == u64_of_be(input@.skip(at as int)),
{
    let hi = get_u32(input, at);
    let lo = get_u32(input, at + 4);
    proof {
        reveal(u64_of_be);
    }
    assert(input@.skip(at as int).skip(4) =~= input@.skip(at + 4));
    hi as u64 * 0x1_0000_0000 + lo as u64
}

} // verus!
