//! Big-endian integer fields: their byte model, and the byteorder calls that
//! read and write them.

use byteorder::{BigEndian, ByteOrder};
use vstd::prelude::*;
use vstd::slice::slice_subrange;

verus! {

/// The two bytes of `n`, most significant first.
pub open spec fn be16(n: u16) -> Seq<u8> {
    seq![(n / 0x100) as u8, (n % 0x100) as u8]
}

/// The four bytes of `n`, most significant first.
pub open spec fn be32(n: u32) -> Seq<u8> {
    seq![
        (n / 0x100_0000) as u8,
        ((n / 0x1_0000) % 0x100) as u8,
        ((n / 0x100) % 0x100) as u8,
        (n % 0x100) as u8,
    ]
}

/// The number that the two bytes of `b` at `i` spell, most significant first.
pub open spec fn be16_value(b: Seq<u8>, i: int) -> int {
    b[i] * 0x100 + b[i + 1]
}

/// The number that the four bytes of `b` at `i` spell, most significant first.
pub open spec fn be32_value(b: Seq<u8>, i: int) -> int {
    b[i] * 0x100_0000 + b[i + 1] * 0x1_0000 + b[i + 2] * 0x100 + b[i + 3]
}

/// Reading back the bytes of a 16-bit field gives the field.
pub proof fn lemma_be16_inverse(n: u16)
    ensures
        be16_value(be16(n), 0) == n,
{
    assert((n / 0x100) * 0x100 + n % 0x100 == n) by (bit_vector);
}

/// Reading back the bytes of a 32-bit field gives the field.
pub proof fn lemma_be32_inverse(n: u32)
    ensures
        be32_value(be32(n), 0) == n,
{
    assert((n / 0x100_0000) * 0x100_0000 + ((n / 0x1_0000) % 0x100) * 0x1_0000 + ((n / 0x100)
        % 0x100) * 0x100 + n % 0x100 == n) by (bit_vector);
}

/// Relies on byteorder's `BigEndian::read_u16`: the first two bytes of the
/// slice as a big-endian number (it panics on a shorter slice).
#[verifier::external_body]
fn read_be_u16(buf: &[u8]) -> (r: u16)
    requires
        buf@.len() >= 2,
    ensures
        r == be16_value(buf@, 0),
{
    BigEndian::read_u16(buf)
}

/// Relies on byteorder's `BigEndian::read_u32`: the first four bytes of the
/// slice as a big-endian number (it panics on a shorter slice).
#[verifier::external_body]
fn read_be_u32(buf: &[u8]) -> (r: u32)
    requires
        buf@.len() >= 4,
    ensures
        r == be32_value(buf@, 0),
{
    BigEndian::read_u32(buf)
}

/// Relies on byteorder's `BigEndian::write_u16`: it stores `n` in the first
/// two bytes of the buffer, most significant first.
#[verifier::external_body]
fn be_u16_bytes(n: u16) -> (r: [u8; 2])
    ensures
        r@ == be16(n),
{
    let mut buf = [0u8; 2];
    BigEndian::write_u16(&mut buf, n);
    buf
}

/// Relies on byteorder's `BigEndian::write_u32`: it stores `n` in the first
/// four bytes of the buffer, most significant first.
#[verifier::external_body]
fn be_u32_bytes(n: u32) -> (r: [u8; 4])
    ensures
        r@ == be32(n),
{
    let mut buf = [0u8; 4];
    BigEndian::write_u32(&mut buf, n);
    buf
}

/// Reads the big-endian 16-bit field of `buf` that starts at `at`.
pub fn read_u16_at(buf: &[u8], at: usize) -> (r: u16)
    requires
        at + 2 <= buf@.len(),
    ensures
        r == be16_value(buf@, at as int),
{
    let len = buf.len();
    assert(at + 2 <= len);
    let field = slice_subrange(buf, at, at + 2);
    read_be_u16(field)
}

/// Reads the big-endian 32-bit field of `buf` that starts at `at`.
pub fn read_u32_at(buf: &[u8], at: usize) -> (r: u32)
    requires
        at + 4 <= buf@.len(),
    ensures
        r == be32_value(buf@, at as int),
{
    let len = buf.len();
    assert(at + 4 <= len);
    let field = slice_subrange(buf, at, at + 4);
    read_be_u32(field)
}

/// Appends `n` to `out` as a big-endian 16-bit field.
pub fn put_u16(out: &mut Vec<u8>, n: u16)
    ensures
        final(out)@ == old(out)@ + be16(n),
{
    let b = be_u16_bytes(n);
    out.push(b[0]);
    out.push(b[1]);
    assert(out@ =~= old(out)@ + be16(n));
}

/// Appends `n` to `out` as a big-endian 32-bit field.
pub fn put_u32(out: &mut Vec<u8>, n: u32)
    ensures
        final(out)@ == old(out)@ + be32(n),
{
    let b = be_u32_bytes(n);
    out.push(b[0]);
    out.push(b[1]);
    out.push(b[2]);
    out.push(b[3]);
    assert(out@ =~= old(out)@ + be32(n));
}

/// Appends the single byte `b` to `out`.
pub fn put_u8(out: &mut Vec<u8>, b: u8)
    ensures
        final(out)@ == old(out)@.push(b),
{
    out.push(b);
}

} // verus!
