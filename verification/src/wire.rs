//! Big-endian integers on the wire.
//!
//! The numbers themselves are read and written by the `byteorder` crate; this
//! module says, over plain bytes, what those calls give.

use byteorder::{BigEndian, ByteOrder};
use vstd::prelude::*;

verus! {

/// The 16-bit number whose big-endian bytes are `b0`, `b1`.
pub open spec fn be16(b0: u8, b1: u8) -> u16 {
    (b0 as int * 0x100 + b1 as int) as u16
}

/// The 32-bit number whose big-endian bytes are `b0` to `b3`.
pub open spec fn be32(b0: u8, b1: u8, b2: u8, b3: u8) -> u32 {
    (b0 as int * 0x100_0000 + b1 as int * 0x1_0000 + b2 as int * 0x100 + b3 as int) as u32
}

/// The two big-endian bytes of a 16-bit number.
pub open spec fn be16_bytes(n: u16) -> Seq<u8> {
    seq![(n as int / 0x100) as u8, (n as int % 0x100) as u8]
}

/// The four big-endian bytes of a 32-bit number.
pub open spec fn be32_bytes(n: u32) -> Seq<u8> {
    seq![
        (n as int / 0x100_0000) as u8,
        (n as int / 0x1_0000 % 0x100) as u8,
        (n as int / 0x100 % 0x100) as u8,
        (n as int % 0x100) as u8,
    ]
}

/// The 16-bit number that starts at `at` in `bytes`.
pub open spec fn be16_at(bytes: Seq<u8>, at: int) -> u16 {
    be16(bytes[at], bytes[at + 1])
}

/// The 32-bit number that starts at `at` in `bytes`.
pub open spec fn be32_at(bytes: Seq<u8>, at: int) -> u32 {
    be32(bytes[at], bytes[at + 1], bytes[at + 2], bytes[at + 3])
}

/// Reading back the bytes of a 16-bit number gives the number.
pub proof fn lemma_be16_round_trip(n: u16)
    ensures
        be16_bytes(n).len() == 2,
        be16_at(be16_bytes(n), 0) == n,
{
}

/// Reading back the bytes of a 32-bit number gives the number.
pub proof fn lemma_be32_round_trip(n: u32)
    ensures
        be32_bytes(n).len() == 4,
        be32_at(be32_bytes(n), 0) == n,
{
}

/// Writing a 16-bit number that was read from two bytes gives those bytes.
pub proof fn lemma_be16_bytes_of_read(b0: u8, b1: u8)
    ensures
        be16_bytes(be16(b0, b1)) == seq![b0, b1],
{
    assert(be16_bytes(be16(b0, b1)) =~= seq![b0, b1]);
}

/// Writing a 32-bit number that was read from four bytes gives those bytes.
pub proof fn lemma_be32_bytes_of_read(b0: u8, b1: u8, b2: u8, b3: u8)
    ensures
        be32_bytes(be32(b0, b1, b2, b3)) == seq![b0, b1, b2, b3],
{
    let low: int = b1 as int * 0x1_0000 + b2 as int * 0x100 + b3 as int;
    let n: int = b0 as int * 0x100_0000 + low;
    assert(0 <= low < 0x100_0000);
    assert(n / 0x100_0000 == b0 as int);
    let mid: int = b2 as int * 0x100 + b3 as int;
    let upper: int = b0 as int * 0x100 + b1 as int;
    assert(n == upper * 0x1_0000 + mid);
    assert(n / 0x1_0000 == upper);
    assert(upper % 0x100 == b1 as int);
    let top: int = upper * 0x100 + b2 as int;
    assert(n == top * 0x100 + b3 as int);
    assert(n / 0x100 == top);
    assert(top % 0x100 == b2 as int);
    assert(n % 0x100 == b3 as int);
    assert(be32(b0, b1, b2, b3) as int == n);
    assert(be32_bytes(be32(b0, b1, b2, b3)) =~= seq![b0, b1, b2, b3]);
}

/// `u16::from_be_bytes`: the number whose big-endian bytes are given.
#[verifier::external_body]
pub(crate) fn u16_from_be(bytes: [u8; 2]) -> (n: u16)
    ensures
        n == be16(bytes@[0], bytes@[1]),
{
    u16::from_be_bytes(bytes)
}

/// `byteorder::BigEndian::read_u16`: the big-endian number held in the first
/// two bytes of `buf`. The call panics on a shorter buffer, which `requires`
/// leaves out.
#[verifier::external_body]
pub(crate) fn read_u16_be(buf: &[u8]) -> (n: u16)
    requires
        buf@.len() >= 2,
    ensures
        n == be16_at(buf@, 0),
{
    BigEndian::read_u16(buf)
}

/// `byteorder::BigEndian::read_u32`: the big-endian number held in the first
/// four bytes of `buf`. The call panics on a shorter buffer, which `requires`
/// leaves out.
#[verifier::external_body]
pub(crate) fn read_u32_be(buf: &[u8]) -> (n: u32)
    requires
        buf@.len() >= 4,
    ensures
        n == be32_at(buf@, 0),
{
    BigEndian::read_u32(buf)
}

/// `byteorder::BigEndian::write_u16` into a buffer of two bytes: the number's
/// big-endian bytes, high byte first.
#[verifier::external_body]
pub(crate) fn u16_to_be(n: u16) -> (out: [u8; 2])
    ensures
        out@ == be16_bytes(n),
{
    let mut out = [0u8; 2];
    BigEndian::write_u16(&mut out, n);
    out
}

/// `byteorder::BigEndian::write_u32` into a buffer of four bytes: the number's
/// big-endian bytes, high byte first.
#[verifier::external_body]
pub(crate) fn u32_to_be(n: u32) -> (out: [u8; 4])
    ensures
        out@ == be32_bytes(n),
{
    let mut out = [0u8; 4];
    BigEndian::write_u32(&mut out, n);
    out
}

/// The `N` bytes of `bytes` that start at `at`.
pub fn read_array<const N: usize>(bytes: &[u8], at: usize) -> (out: [u8; N])
    requires
        at + N <= bytes.len(),
    ensures
        out@ == bytes@.subrange(at as int, at + N),
{
    let mut out = [0u8; N];
    let mut k: usize = 0;
    while k < N
        invariant
            k <= N,
            at + N <= bytes.len(),
            forall|j: int| 0 <= j < k ==> out@[j] == bytes@[at + j],
        decreases N - k,
    {
        out[k] = bytes[at + k];
        k += 1;
    }
    assert(out@ =~= bytes@.subrange(at as int, at + N));
    out
}

/// Appends `bytes` to `out`.
pub fn put_bytes(out: &mut Vec<u8>, bytes: &[u8])
    ensures
        final(out)@ == old(out)@ + bytes@,
{
    out.extend_from_slice(bytes);
    assert(out@ =~= old(out)@ + bytes@);
}

} // verus!
