//! Byte buffers shared with the HTTP/3 layer.
use vstd::prelude::*;
use bytes::Buf;

verus! {

#[verifier::external_type_specification]
#[verifier::external_body]
pub struct ExBytes(bytes::Bytes);

#[verifier::external_type_specification]
#[verifier::external_body]
#[verifier::reject_recursive_types(B)]
pub struct ExWriteBuf<B>(h3::quic::WriteBuf<B>);

/// The bytes a `bytes::Bytes` holds, in order.
pub uninterp spec fn bytes_contents(b: bytes::Bytes) -> Seq<u8>;

/// The bytes an `h3::quic::WriteBuf` still has to give out, in order: the
/// encoded header first, then the frame's payload.
pub uninterp spec fn write_buf_contents(b: h3::quic::WriteBuf<bytes::Bytes>) -> Seq<u8>;

/// `bytes::Bytes::from(Vec<u8>)`: the buffer takes over the vector and holds
/// exactly its bytes.
#[verifier::external_body]
pub fn bytes_from_vec(v: Vec<u8>) -> (b: bytes::Bytes)
    ensures
        bytes_contents(b) == v@,
{
    bytes::Bytes::from(v)
}

/// `bytes::Bytes::len`: the number of bytes the buffer holds.
#[verifier::external_body]
pub fn bytes_len(b: &bytes::Bytes) -> (n: usize)
    ensures
        n == bytes_contents(*b).len(),
{
    b.len()
}

/// `Buf::remaining` of an `h3::quic::WriteBuf`: how many bytes it still gives out.
#[verifier::external_body]
pub fn write_buf_remaining(b: &h3::quic::WriteBuf<bytes::Bytes>) -> (n: usize)
    ensures
        n == write_buf_contents(*b).len(),
{
    b.remaining()
}

/// `Buf::chunk` of an `h3::quic::WriteBuf`: the start of what it still gives
/// out, the rest of the encoded header while there is one and the payload
/// after it; not empty while anything remains.
#[verifier::external_body]
pub fn write_buf_chunk(b: &h3::quic::WriteBuf<bytes::Bytes>) -> (s: &[u8])
    ensures
        s@.len() <= write_buf_contents(*b).len(),
        s@ == write_buf_contents(*b).take(s@.len() as int),
        write_buf_contents(*b).len() > 0 ==> s@.len() > 0,
{
    b.chunk()
}

/// `Buf::advance` of an `h3::quic::WriteBuf`: the first `n` of the bytes it
/// still gives out are dropped, from the header first and then from the
/// payload. Asked for no more than remains.
#[verifier::external_body]
pub fn write_buf_advance(b: &mut h3::quic::WriteBuf<bytes::Bytes>, n: usize)
    requires
        n <= write_buf_contents(*old(b)).len(),
    ensures
        write_buf_contents(*final(b)) == write_buf_contents(*old(b)).skip(n as int),
{
    b.advance(n)
}

} // verus!
