//! The byte buffers of the `bytes` crate, as far as the codec uses them.
//!
//! Nothing in this module is proved: each function states what the `bytes`
//! crate (or, for [`push_char`], the standard library) documents of the call
//! in its body, and the codec is verified against these statements.

use bytes::{Buf, BufMut};
use vstd::prelude::*;

verus! {

#[verifier::external_type_specification]
#[verifier::external_body]
pub struct ExBytesMut(bytes::BytesMut);

#[verifier::external_type_specification]
#[verifier::external_body]
pub struct ExBytes(bytes::Bytes);

/// The bytes that a `BytesMut` holds, in order: what it shows as a slice.
pub uninterp spec fn written(b: bytes::BytesMut) -> Seq<u8>;

/// The bytes that a `Bytes` still holds, in order: what it shows as a slice,
/// and what its reads as a `Buf` have not handed out yet.
pub uninterp spec fn unread(b: bytes::Bytes) -> Seq<u8>;

/// The two bytes of `v`, most significant first.
pub open spec fn be_bytes_u16(v: u16) -> Seq<u8> {
    seq![(v / 0x100) as u8, (v % 0x100) as u8]
}

/// The four bytes of `v`, most significant first.
pub open spec fn be_bytes_u32(v: u32) -> Seq<u8> {
    seq![
        (v / 0x100_0000) as u8,
        (v / 0x1_0000 % 0x100) as u8,
        (v / 0x100 % 0x100) as u8,
        (v % 0x100) as u8,
    ]
}

/// The 16-bit number whose most significant byte is `hi`.
pub open spec fn u16_of_be(hi: u8, lo: u8) -> u16 {
    (hi * 0x100 + lo) as u16
}

/// The 32-bit number whose least significant byte is `b0`.
pub open spec fn u32_of_le(b0: u8, b1: u8, b2: u8, b3: u8) -> u32 {
    (b0 + b1 * 0x100 + b2 * 0x1_0000 + b3 * 0x100_0000) as u32
}

/// `BytesMut::with_capacity`: a buffer that holds no bytes yet. The capacity
/// is a hint for the first allocation, which cannot exceed `isize::MAX`
/// bytes.
#[verifier::external_body]
pub(crate) fn with_capacity(capacity: usize) -> (b: bytes::BytesMut)
    requires
        capacity <= isize::MAX,
    ensures
        written(b) == Seq::<u8>::empty(),
{
    bytes::BytesMut::with_capacity(capacity)
}

/// `BufMut::put_u8` on a `BytesMut`: appends the byte, growing the buffer
/// where needed.
#[verifier::external_body]
pub(crate) fn put_u8(b: &mut bytes::BytesMut, v: u8)
    requires
        written(*old(b)).len() + 1 <= isize::MAX,
    ensures
        written(*final(b)) == written(*old(b)).push(v),
{
    b.put_u8(v)
}

/// `BufMut::put_u16` on a `BytesMut`: appends the two bytes of `v` in
/// big-endian order.
#[verifier::external_body]
pub(crate) fn put_u16(b: &mut bytes::BytesMut, v: u16)
    requires
        written(*old(b)).len() + 2 <= isize::MAX,
    ensures
        written(*final(b)) == written(*old(b)) + be_bytes_u16(v),
{
    b.put_u16(v)
}

/// `BufMut::put_u32` on a `BytesMut`: appends the four bytes of `v` in
/// big-endian order.
#[verifier::external_body]
pub(crate) fn put_u32(b: &mut bytes::BytesMut, v: u32)
    requires
        written(*old(b)).len() + 4 <= isize::MAX,
    ensures
        written(*final(b)) == written(*old(b)) + be_bytes_u32(v),
{
    b.put_u32(v)
}

/// `BufMut::put_slice` on a `BytesMut`: appends the bytes of `src` in order.
#[verifier::external_body]
pub(crate) fn put_slice(b: &mut bytes::BytesMut, src: &[u8])
    requires
        written(*old(b)).len() + src@.len() <= isize::MAX,
    ensures
        written(*final(b)) == written(*old(b)) + src@,
{
    b.put_slice(src)
}

/// `Vec::<u8>::from` on a `BytesMut`: the bytes that it holds, as a vector.
#[verifier::external_body]
pub(crate) fn into_vec(b: bytes::BytesMut) -> (v: Vec<u8>)
    ensures
        v@ == written(b),
{
    Vec::from(b)
}

/// `Bytes::copy_from_slice`: a cursor over a copy of `data`, with all of it
/// still to read.
#[verifier::external_body]
pub(crate) fn copy_from_slice(data: &[u8]) -> (b: bytes::Bytes)
    ensures
        unread(b) == data@,
{
    bytes::Bytes::copy_from_slice(data)
}

/// `Buf::remaining` on a `Bytes`: how many bytes are still to read.
#[verifier::external_body]
pub(crate) fn remaining(b: &bytes::Bytes) -> (n: usize)
    ensures
        n == unread(*b).len(),
{
    b.remaining()
}

/// `Buf::get_u8` on a `Bytes`: hands out the next byte. The call panics on
/// an exhausted cursor, which `requires` leaves out.
#[verifier::external_body]
pub(crate) fn get_u8(b: &mut bytes::Bytes) -> (v: u8)
    requires
        unread(*old(b)).len() >= 1,
    ensures
        v == unread(*old(b))[0],
        unread(*final(b)) == unread(*old(b)).skip(1),
{
    b.get_u8()
}

/// `Buf::get_u16` on a `Bytes`: reads the next two bytes as a big-endian
/// number. The call panics where fewer than two bytes are left.
#[verifier::external_body]
pub(crate) fn get_u16(b: &mut bytes::Bytes) -> (v: u16)
    requires
        unread(*old(b)).len() >= 2,
    ensures
        v == u16_of_be(unread(*old(b))[0], unread(*old(b))[1]),
        unread(*final(b)) == unread(*old(b)).skip(2),
{
    b.get_u16()
}

/// `Buf::get_u32_le` on a `Bytes`: reads the next four bytes as a
/// little-endian number. The call panics where fewer than four bytes are
/// left.
#[verifier::external_body]
pub(crate) fn get_u32_le(b: &mut bytes::Bytes) -> (v: u32)
    requires
        unread(*old(b)).len() >= 4,
    ensures
        v == u32_of_le(
            unread(*old(b))[0],
            unread(*old(b))[1],
            unread(*old(b))[2],
            unread(*old(b))[3],
        ),
        unread(*final(b)) == unread(*old(b)).skip(4),
{
    b.get_u32_le()
}

/// `String::push`: appends one character.
#[verifier::external_body]
pub(crate) fn push_char(s: &mut String, c: char)
    ensures
        final(s)@ == old(s)@.push(c),
{
    s.push(c)
}

} // verus!
