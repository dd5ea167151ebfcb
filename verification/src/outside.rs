//! What the crate takes on trust from the crates it calls.

use vstd::prelude::*;

verus! {

/// `url::Url`, carried from the settings to the connection without being looked into.
#[verifier::external_type_specification]
#[verifier::external_body]
pub struct ExUrl(url::Url);

/// `url::ParseError`, carried from a failed parse to whoever reports it.
#[verifier::external_type_specification]
#[verifier::external_body]
pub struct ExUrlParseError(url::ParseError);

/// `bytes::Bytes`, known by the bytes it holds.
#[verifier::external_type_specification]
#[verifier::external_body]
pub struct ExBytes(bytes::Bytes);

/// `bytes::BytesMut`, known by the bytes it holds.
#[verifier::external_type_specification]
#[verifier::external_body]
pub struct ExBytesMut(bytes::BytesMut);

/// `hang::BufList`, known by the chunks it holds.
#[verifier::external_type_specification]
#[verifier::external_body]
pub struct ExBufList(hang::BufList);

/// What `url::Url::parse` returns for a text. Which texts are URLs takes a long standard to
/// say; parsing is without a base and depends on the text alone.
pub uninterp spec fn url_parsed(text: Seq<char>) -> Result<url::Url, url::ParseError>;

/// The bytes that a `bytes::Bytes` holds.
pub uninterp spec fn bytes_of(bytes: bytes::Bytes) -> Seq<u8>;

/// The bytes that a `bytes::BytesMut` holds and has not given away yet.
pub uninterp spec fn buffer_of(buffer: bytes::BytesMut) -> Seq<u8>;

/// The bytes of each chunk of a `hang::BufList`, first chunk first.
pub uninterp spec fn chunks_of(list: hang::BufList) -> Seq<Seq<u8>>;

/// The most bytes that a `bytes::BytesMut` is asked to hold here. Up to this size the
/// capacities that it computes while it grows, twice the old one among them, fit in an `isize`;
/// beyond it `extend_from_slice` may panic.
pub open spec fn buffer_limit() -> int {
    isize::MAX / 4
}

/// `url::Url::parse`: the result is the named function of the text.
pub assume_specification[ url::Url::parse ](input: &str) -> (parsed: Result<
    url::Url,
    url::ParseError,
>)
    ensures
        parsed == url_parsed(input@),
;

/// `bytes::Bytes::copy_from_slice`: the new value holds the bytes of the slice.
pub assume_specification[ bytes::Bytes::copy_from_slice ](data: &[u8]) -> (copy: bytes::Bytes)
    ensures
        bytes_of(copy) == data@,
;

/// A `bytes::Bytes` read as a slice: the slice is what it holds.
pub assume_specification[ <bytes::Bytes as std::ops::Deref>::deref ](
    bytes: &bytes::Bytes,
) -> (slice: &[u8])
    ensures
        slice@ == bytes_of(*bytes),
;

/// `bytes::BytesMut::new`: the buffer is empty.
pub assume_specification[ bytes::BytesMut::new ]() -> (buffer: bytes::BytesMut)
    ensures
        buffer_of(buffer) == Seq::<u8>::empty(),
;

/// `bytes::BytesMut::extend_from_slice`: the slice's bytes come after those already held. The
/// bound keeps the call away from the sizes at which growing the buffer panics.
pub assume_specification[ bytes::BytesMut::extend_from_slice ](
    buffer: &mut bytes::BytesMut,
    extend: &[u8],
)
    requires
        buffer_of(*old(buffer)).len() + extend@.len() <= buffer_limit(),
    ensures
        buffer_of(*final(buffer)) == buffer_of(*old(buffer)) + extend@,
;

/// `bytes::BytesMut::clear`: nothing is held afterwards.
pub assume_specification[ bytes::BytesMut::clear ](buffer: &mut bytes::BytesMut)
    ensures
        buffer_of(*final(buffer)) == Seq::<u8>::empty(),
;

/// `hang::BufList::num_chunks`: how many chunks there are.
pub assume_specification[ hang::BufList::num_chunks ](list: &hang::BufList) -> (count: usize)
    ensures
        count == chunks_of(*list).len(),
;

/// `hang::BufList::get_chunk`: the chunk at an index, or nothing past the last one.
pub assume_specification[ hang::BufList::get_chunk ](
    list: &hang::BufList,
    index: usize,
) -> (chunk: Option<&bytes::Bytes>)
    ensures
        chunk is Some <==> index < chunks_of(*list).len(),
        chunk is Some ==> bytes_of(*chunk->0) == chunks_of(*list)[index as int],
;

} // verus!
