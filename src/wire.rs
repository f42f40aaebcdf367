//! Little-endian integers on the wire, read and written through `byteorder`.

use byteorder::ByteOrder;
use byteorder::LittleEndian;
use vstd::prelude::*;

verus! {

/// The two bytes of `n`, least significant first.
pub open spec fn le16(n: u16) -> Seq<u8> {
    seq![(n % 256) as u8, (n / 256) as u8]
}

/// The four bytes of `n`, least significant first.
pub open spec fn le32(n: u32) -> Seq<u8> {
    seq![(n % 256) as u8, ((n / 256) % 256) as u8, ((n / 65536) % 256) as u8, (n / 16777216) as u8]
}

/// The `u16` whose little-endian bytes start at `at` in `b`.
pub open spec fn u16_at(b: Seq<u8>, at: int) -> u16 {
    (b[at] as int + 256 * b[at + 1] as int) as u16
}

/// The `u32` whose little-endian bytes start at `at` in `b`.
pub open spec fn u32_at(b: Seq<u8>, at: int) -> u32 {
    (b[at] as int + 256 * b[at + 1] as int + 65536 * b[at + 2] as int + 16777216 * b[at + 3] as int) as u32
}

/// Reading back the bytes of `le16(n)` gives `n`.
pub proof fn lemma_le16_round_trip(n: u16)
    ensures
        le16(n).len() == 2,
        u16_at(le16(n), 0) == n,
{
    assert((n % 256) + 256 * (n / 256) == n) by (nonlinear_arith);
}

/// Reading back the bytes of `le32(n)` gives `n`.
pub proof fn lemma_le32_round_trip(n: u32)
    ensures
        le32(n).len() == 4,
        u32_at(le32(n), 0) == n,
{
    let a = n % 256;
    let q = n / 256;
    let b = q % 256;
    let q2 = q / 256;
    assert(n / 65536 == q2) by (nonlinear_arith)
        requires q == n / 256, q2 == q / 256;
    let c = q2 % 256;
    let d = q2 / 256;
    assert(n / 16777216 == d) by (nonlinear_arith)
        requires q2 == n / 65536, d == q2 / 256;
    assert(a + 256 * (b + 256 * (c + 256 * d)) == n) by (nonlinear_arith)
        requires a == n % 256, q == n / 256, b == q % 256, q2 == q / 256, c == q2 % 256, d == q2 / 256;
}

/// Relies on `byteorder::LittleEndian::read_u16`: the first two bytes of `b`,
/// least significant first (it panics on fewer than two).
#[verifier::external_body]
pub(crate) fn read_u16_le(b: &[u8]) -> (r: u16)
    requires
        b@.len() >= 2,
    ensures
        r == u16_at(b@, 0),
{
    LittleEndian::read_u16(b)
}

/// Relies on `byteorder::LittleEndian::read_u32`: the first four bytes of `b`,
/// least significant first (it panics on fewer than four).
#[verifier::external_body]
pub(crate) fn read_u32_le(b: &[u8]) -> (r: u32)
    requires
        b@.len() >= 4,
    ensures
        r == u32_at(b@, 0),
{
    LittleEndian::read_u32(b)
}

/// Relies on `byteorder::LittleEndian::write_u16`: it stores `n` in the first
/// two bytes of the buffer, least significant first.
#[verifier::external_body]
pub(crate) fn u16_le_bytes(n: u16) -> (r: [u8; 2])
    ensures
        r@ == le16(n),
{
    let mut buf = [0u8; 2];
    LittleEndian::write_u16(&mut buf, n);
    buf
}

/// Relies on `byteorder::LittleEndian::write_i16`: it stores the two's
/// complement bits of `n` in the first two bytes, least significant first.
#[verifier::external_body]
pub(crate) fn i16_le_bytes(n: i16) -> (r: [u8; 2])
    ensures
        r@ == le16(n as u16),
{
    let mut buf = [0u8; 2];
    LittleEndian::write_i16(&mut buf, n);
    buf
}

/// Relies on `byteorder::LittleEndian::write_u32`: it stores `n` in the first
/// four bytes of the buffer, least significant first.
#[verifier::external_body]
pub(crate) fn u32_le_bytes(n: u32) -> (r: [u8; 4])
    ensures
        r@ == le32(n),
{
    let mut buf = [0u8; 4];
    LittleEndian::write_u32(&mut buf, n);
    buf
}

/// Appends the little-endian bytes of `n` to `v`.
pub fn push_u16(v: &mut Vec<u8>, n: u16)
    ensures
        final(v)@ == old(v)@ + le16(n),
{
    let b = u16_le_bytes(n);
    v.push(b[0]);
    v.push(b[1]);
    assert(v@ =~= old(v)@ + le16(n));
}

}
