//! Big-endian integers on the wire, and the byte buffers of the `bytes` crate
//! that the packet codecs write into and read from.

use bytes::Buf;
use bytes::BufMut;
use vstd::prelude::*;

verus! {

/// The four bytes of `x`, most significant first.
pub open spec fn be_u32(x: u32) -> Seq<u8> {
    seq![
        (x / 0x100 / 0x100 / 0x100) as u8,
        (x / 0x100 / 0x100 % 0x100) as u8,
        (x / 0x100 % 0x100) as u8,
        (x % 0x100) as u8,
    ]
}

/// The eight bytes of `x`, most significant first.
pub open spec fn be_u64(x: u64) -> Seq<u8> {
    be_u32((x / 0x1_0000_0000) as u32) + be_u32((x % 0x1_0000_0000) as u32)
}

/// The integer whose big-endian bytes are the first four of `s`.
pub open spec fn u32_from_be(s: Seq<u8>) -> u32
    recommends
        s.len() >= 4,
{
    (((s[0] * 0x100 + s[1]) * 0x100 + s[2]) * 0x100 + s[3]) as u32
}

/// The integer whose big-endian bytes are the first eight of `s`.
pub open spec fn u64_from_be(s: Seq<u8>) -> u64
    recommends
        s.len() >= 8,
{
    (u32_from_be(s.subrange(0, 4)) * 0x1_0000_0000 + u32_from_be(s.subrange(4, 8))) as u64
}

proof fn lemma_base_256(a: int, b: int)
    requires
        0 <= b < 0x100,
    ensures
        (a * 0x100 + b) / 0x100 == a,
        (a * 0x100 + b) % 0x100 == b,
{
}

/// Reading back the bytes of a 32-bit integer gives the integer.
pub proof fn lemma_be_u32_roundtrip(x: u32)
    ensures
        be_u32(x).len() == 4,
        u32_from_be(be_u32(x)) == x,
{
    let a: int = x as int / 0x100;
    let b: int = a / 0x100;
    let c: int = b / 0x100;
    assert(x == a * 0x100 + x % 0x100);
    assert(a == b * 0x100 + a % 0x100);
    assert(b == c * 0x100 + b % 0x100);
    assert(0 <= c < 0x100);
}

/// Writing the integer read from four bytes gives those bytes.
pub proof fn lemma_u32_from_be_roundtrip(s: Seq<u8>)
    requires
        s.len() == 4,
    ensures
        be_u32(u32_from_be(s)) == s,
{
    let c: int = s[0] as int;
    let b: int = c * 0x100 + s[1];
    let a: int = b * 0x100 + s[2];
    let x: int = a * 0x100 + s[3];
    lemma_base_256(c, s[1] as int);
    lemma_base_256(b, s[2] as int);
    lemma_base_256(a, s[3] as int);
    assert(0 <= x < 0x1_0000_0000);
    assert(u32_from_be(s) == x);
    assert(x / 0x100 == a);
    assert(a / 0x100 == b);
    assert(b / 0x100 == c);
    assert(be_u32(u32_from_be(s)) =~= s);
}

/// Reading back the bytes of a 64-bit integer gives the integer.
pub proof fn lemma_be_u64_roundtrip(x: u64)
    ensures
        be_u64(x).len() == 8,
        u64_from_be(be_u64(x)) == x,
{
    let hi = (x / 0x1_0000_0000) as u32;
    let lo = (x % 0x1_0000_0000) as u32;
    lemma_be_u32_roundtrip(hi);
    lemma_be_u32_roundtrip(lo);
    assert(be_u64(x).subrange(0, 4) =~= be_u32(hi));
    assert(be_u64(x).subrange(4, 8) =~= be_u32(lo));
}

/// Writing the integer read from eight bytes gives those bytes.
pub proof fn lemma_u64_from_be_roundtrip(s: Seq<u8>)
    requires
        s.len() == 8,
    ensures
        be_u64(u64_from_be(s)) == s,
{
    let hi = u32_from_be(s.subrange(0, 4));
    let lo = u32_from_be(s.subrange(4, 8));
    lemma_u32_from_be_roundtrip(s.subrange(0, 4));
    lemma_u32_from_be_roundtrip(s.subrange(4, 8));
    let x: int = hi * 0x1_0000_0000 + lo;
    assert(x / 0x1_0000_0000 == hi);
    assert(x % 0x1_0000_0000 == lo);
    assert(be_u64(u64_from_be(s)) =~= s);
}

/// The growable byte buffer of the `bytes` crate, used as it is.
#[verifier::external_type_specification]
#[verifier::external_body]
pub struct ExBytesMut(bytes::BytesMut);

/// The shared immutable byte buffer of the `bytes` crate, used as it is.
#[verifier::external_type_specification]
#[verifier::external_body]
pub struct ExBytes(bytes::Bytes);

/// The bytes that a growable buffer holds, first written first.
pub uninterp spec fn buffer_bytes(buf: bytes::BytesMut) -> Seq<u8>;

/// The bytes that a shared immutable buffer holds.
pub uninterp spec fn shared_bytes(data: bytes::Bytes) -> Seq<u8>;

/// `BytesMut::new`: a buffer that holds no bytes.
#[verifier::external_body]
pub(crate) fn buffer_new() -> (buf: bytes::BytesMut)
    ensures
        buffer_bytes(buf) == Seq::<u8>::empty(),
{
    bytes::BytesMut::new()
}

/// `BytesMut::len`: the number of bytes held.
#[verifier::external_body]
pub(crate) fn buffer_len(buf: &bytes::BytesMut) -> (n: usize)
    ensures
        n == buffer_bytes(*buf).len(),
{
    buf.len()
}

/// `BytesMut::reserve`: makes room and leaves the contents as they are. The
/// call panics where the new capacity overflows, which the bound rules out.
#[verifier::external_body]
pub(crate) fn buffer_reserve(buf: &mut bytes::BytesMut, additional: usize)
    requires
        buffer_bytes(*old(buf)).len() + additional <= isize::MAX,
    ensures
        buffer_bytes(*final(buf)) == buffer_bytes(*old(buf)),
{
    buf.reserve(additional)
}

/// `BufMut::put_u8` on a `BytesMut`: appends one byte.
#[verifier::external_body]
pub(crate) fn put_u8(buf: &mut bytes::BytesMut, n: u8)
    requires
        buffer_bytes(*old(buf)).len() + 1 <= isize::MAX,
    ensures
        buffer_bytes(*final(buf)) == buffer_bytes(*old(buf)).push(n),
{
    buf.put_u8(n)
}

/// `BufMut::put_u32` on a `BytesMut`: appends the four bytes of `n` in
/// big-endian order.
#[verifier::external_body]
pub(crate) fn put_u32(buf: &mut bytes::BytesMut, n: u32)
    requires
        buffer_bytes(*old(buf)).len() + 4 <= isize::MAX,
    ensures
        buffer_bytes(*final(buf)) == buffer_bytes(*old(buf)) + be_u32(n),
{
    buf.put_u32(n)
}

/// `BufMut::put_u64` on a `BytesMut`: appends the eight bytes of `n` in
/// big-endian order.
#[verifier::external_body]
pub(crate) fn put_u64(buf: &mut bytes::BytesMut, n: u64)
    requires
        buffer_bytes(*old(buf)).len() + 8 <= isize::MAX,
    ensures
        buffer_bytes(*final(buf)) == buffer_bytes(*old(buf)) + be_u64(n),
{
    buf.put_u64(n)
}

/// `BufMut::put_slice` on a `BytesMut`: appends the bytes of `src` in order.
#[verifier::external_body]
pub(crate) fn put_slice(buf: &mut bytes::BytesMut, src: &[u8])
    requires
        buffer_bytes(*old(buf)).len() + src@.len() <= isize::MAX,
    ensures
        buffer_bytes(*final(buf)) == buffer_bytes(*old(buf)) + src@,
{
    buf.put_slice(src)
}

/// `BytesMut::to_vec`, through its deref to a slice: a copy of the contents.
#[verifier::external_body]
pub(crate) fn buffer_to_vec(buf: &bytes::BytesMut) -> (v: Vec<u8>)
    ensures
        v@ == buffer_bytes(*buf),
{
    buf.to_vec()
}

/// `Buf::get_u8` on a slice that starts at `at`: the byte there. The call
/// panics on an empty slice, which the bound rules out.
#[verifier::external_body]
pub(crate) fn get_u8(buf: &[u8], at: usize) -> (n: u8)
    requires
        at + 1 <= buf@.len(),
    ensures
        n == buf@[at as int],
{
    let mut cursor = &buf[at..];
    cursor.get_u8()
}

/// `Buf::get_u32` on a slice that starts at `at`: the big-endian integer in
/// the four bytes there. The call panics on fewer than four bytes.
#[verifier::external_body]
pub(crate) fn get_u32(buf: &[u8], at: usize) -> (n: u32)
    requires
        at + 4 <= buf@.len(),
    ensures
        n == u32_from_be(buf@.subrange(at as int, at + 4)),
{
    let mut cursor = &buf[at..];
    cursor.get_u32()
}

/// `Buf::get_u64` on a slice that starts at `at`: the big-endian integer in
/// the eight bytes there. The call panics on fewer than eight bytes.
#[verifier::external_body]
pub(crate) fn get_u64(buf: &[u8], at: usize) -> (n: u64)
    requires
        at + 8 <= buf@.len(),
    ensures
        n == u64_from_be(buf@.subrange(at as int, at + 8)),
{
    let mut cursor = &buf[at..];
    cursor.get_u64()
}

/// `Bytes::from` on a `Vec<u8>`: a shared buffer with the vector's bytes.
#[verifier::external_body]
pub(crate) fn shared_from_vec(v: Vec<u8>) -> (data: bytes::Bytes)
    ensures
        shared_bytes(data) == v@,
{
    bytes::Bytes::from(v)
}

/// `Bytes::clone` gives a second handle to the same bytes.
pub assume_specification[ <bytes::Bytes as Clone>::clone ](data: &bytes::Bytes) -> (copy:
    bytes::Bytes)
    ensures
        shared_bytes(copy) == shared_bytes(*data),
;

/// `Bytes::to_vec`, through its deref to a slice: a copy of the contents.
#[verifier::external_body]
pub(crate) fn shared_to_vec(data: &bytes::Bytes) -> (v: Vec<u8>)
    ensures
        v@ == shared_bytes(*data),
{
    data.to_vec()
}

} // verus!
