//! Network byte order: what the bytes of an integer are, and the calls into
//! `byteorder` that read and write them.

use byteorder::ByteOrder;
use byteorder::NetworkEndian;
use vstd::prelude::*;

verus! {

/// The number whose big-endian encoding starts `bytes`.
pub open spec fn u16_from_be(bytes: Seq<u8>) -> u16 {
    (bytes[0] as int * 0x100 + bytes[1] as int) as u16
}

/// The number whose big-endian encoding starts `bytes`.
pub open spec fn u32_from_be(bytes: Seq<u8>) -> u32 {
    (bytes[0] as int * 0x100_0000 + bytes[1] as int * 0x1_0000 + bytes[2] as int * 0x100
        + bytes[3] as int) as u32
}

/// The two bytes of `v`, most significant first.
pub open spec fn u16_to_be(v: u16) -> Seq<u8> {
    seq![(v / 0x100) as u8, (v % 0x100) as u8]
}

/// The four bytes of `v`, most significant first.
pub open spec fn u32_to_be(v: u32) -> Seq<u8> {
    seq![
        (v / 0x100_0000) as u8,
        (v / 0x1_0000 % 0x100) as u8,
        (v / 0x100 % 0x100) as u8,
        (v % 0x100) as u8,
    ]
}

/// Reading back the bytes of a number gives the number.
pub proof fn lemma_u16_be_round_trip(v: u16)
    ensures
        u16_to_be(v).len() == 2,
        u16_from_be(u16_to_be(v)) == v,
{
}

/// Reading back the bytes of a number gives the number.
pub proof fn lemma_u32_be_round_trip(v: u32)
    ensures
        u32_to_be(v).len() == 4,
        u32_from_be(u32_to_be(v)) == v,
{
}

/// `byteorder::NetworkEndian::read_u16`: the first two bytes of `buf` read as
/// a big-endian number. It panics on a shorter slice, which is left out.
#[verifier::external_body]
pub(crate) fn read_u16(buf: &[u8]) -> (v: u16)
    requires
        buf@.len() >= 2,
    ensures
        v == u16_from_be(buf@),
{
    NetworkEndian::read_u16(buf)
}

/// `byteorder::NetworkEndian::read_u32`: the first four bytes of `buf` read as
/// a big-endian number. It panics on a shorter slice, which is left out.
#[verifier::external_body]
pub(crate) fn read_u32(buf: &[u8]) -> (v: u32)
    requires
        buf@.len() >= 4,
    ensures
        v == u32_from_be(buf@),
{
    NetworkEndian::read_u32(buf)
}

/// `byteorder::NetworkEndian::write_u16`: overwrites the first two bytes of
/// `buf` with `n`, most significant byte first, and leaves the rest alone. It
/// panics on a shorter slice, which is left out.
#[verifier::external_body]
pub(crate) fn write_u16(buf: &mut [u8], n: u16)
    requires
        old(buf)@.len() >= 2,
    ensures
        final(buf)@ == u16_to_be(n) + old(buf)@.subrange(2, old(buf)@.len() as int),
{
    NetworkEndian::write_u16(buf, n)
}

/// `byteorder::NetworkEndian::write_u32`: overwrites the first four bytes of
/// `buf` with `n`, most significant byte first, and leaves the rest alone. It
/// panics on a shorter slice, which is left out.
#[verifier::external_body]
pub(crate) fn write_u32(buf: &mut [u8], n: u32)
    requires
        old(buf)@.len() >= 4,
    ensures
        final(buf)@ == u32_to_be(n) + old(buf)@.subrange(4, old(buf)@.len() as int),
{
    NetworkEndian::write_u32(buf, n)
}

} // verus!
