//! Base64url text without padding, and the dot-separated segments of a token.

use crate::error::{EncodeFailure, Error};
use base64::prelude::{Engine, BASE64_URL_SAFE_NO_PAD};
use vstd::prelude::*;

verus! {

/// The text that the URL-safe base64 engine without padding writes for `data`.
pub uninterp spec fn base64url(data: Seq<u8>) -> Seq<char>;

/// A character of the URL-safe base64 alphabet.
pub open spec fn is_base64url_char(c: char) -> bool {
    ('A' <= c && c <= 'Z') || ('a' <= c && c <= 'z') || ('0' <= c && c <= '9') || c == '-' || c
        == '_'
}

/// The shape of unpadded base64url text: characters of the alphabet only, and
/// a length that four-character groups with a tail of two or three can give.
pub open spec fn is_base64url(text: Seq<char>) -> bool {
    &&& text.len() % 4 != 1
    &&& forall|i: int| 0 <= i < text.len() ==> is_base64url_char(#[trigger] text[i])
}

/// Whether `text` is the unpadded base64url encoding of `len` bytes, whatever
/// they are.
pub open spec fn is_encoding_of_len(text: Seq<char>, len: nat) -> bool {
    exists|data: Seq<u8>| data.len() == len && text == #[trigger] base64url(data)
}

/// Whether `text` is the unpadded base64url encoding of some bytes.
pub open spec fn is_encoding(text: Seq<char>) -> bool {
    exists|data: Seq<u8>| text == #[trigger] base64url(data)
}

/// The bytes of `text` in UTF-8.
pub open spec fn utf8(text: Seq<char>) -> Seq<u8> {
    vstd::utf8::encode_utf8(text)
}

/// The length of the unpadded encoding of `len` bytes: four characters for
/// every three bytes, and two or three for the one or two bytes left over.
pub open spec fn encoded_len(len: nat) -> nat {
    (4 * len + 2) / 3
}

/// Whether the encoding of `len` bytes has a length that fits in `usize`.
pub open spec fn encodable_len(len: nat) -> bool {
    (len / 3) * 4 + 3 <= usize::MAX
}

/// `Engine::encode` of `base64`, on `BASE64_URL_SAFE_NO_PAD`.
///
/// The result is the engine's encoding of `data`, which is a function of the
/// bytes alone. It has the shape of unpadded base64url text, and the length
/// that the engine computes for its buffer before it encodes. The engine
/// panics when that length overflows `usize`; such inputs are excluded.
#[verifier::external_body]
fn base64url_encode(data: &[u8]) -> (text: String)
    requires
        encodable_len(data@.len()),
    ensures
        text@ == base64url(data@),
        is_base64url(text@),
        text@.len() == encoded_len(data@.len()),
{
    BASE64_URL_SAFE_NO_PAD.encode(data)
}

/// Encodes a JSON document as one segment of a token.
///
/// Fails exactly when the document is too long for the length of its encoding
/// to fit in `usize`. The segment is as long as the document's bytes make it,
/// so only an empty document gives an empty segment.
pub fn encode_as_b64(json: &str) -> (res: Result<String, Error>)
    ensures
        match res {
            Ok(segment) => {
                &&& encodable_len(utf8(json@).len())
                &&& segment@ == base64url(utf8(json@))
                &&& is_base64url(segment@)
                &&& segment@.len() == encoded_len(utf8(json@).len())
            },
            Err(e) => {
                &&& !encodable_len(utf8(json@).len())
                &&& e == Error::SerdeJsonError(EncodeFailure::Oversized)
            },
        },
{
    let bytes = json.as_bytes();
    if bytes.len() / 3 <= (usize::MAX - 3) / 4 {
        Ok(base64url_encode(bytes))
    } else {
        Err(Error::SerdeJsonError(EncodeFailure::Oversized))
    }
}

/// A text has at least as many bytes in UTF-8 as it has characters.
pub proof fn lemma_utf8_len(text: Seq<char>)
    ensures
        utf8(text).len() >= text.len(),
    decreases text.len(),
{
    if text.len() > 0 {
        lemma_utf8_len(text.drop_first());
    }
}

/// Joins two texts with a dot.
pub fn join_with_dot(head: String, tail: &str) -> (text: String)
    ensures
        text@ == head@ + seq!['.'] + tail@,
{
    proof {
        reveal_strlit(".");
    }
    head.concat(".").concat(tail)
}

/// The pieces of `text` between its dots, in order. A text without a dot is
/// one piece; a dot at either end borders an empty piece.
pub open spec fn segments(text: Seq<char>) -> Seq<Seq<char>>
    decreases text.len(),
{
    if text.len() == 0 {
        seq![Seq::empty()]
    } else {
        let rest = segments(text.drop_first());
        if text[0] == '.' {
            seq![Seq::empty()] + rest
        } else {
            seq![seq![text[0]] + rest[0]] + rest.drop_first()
        }
    }
}

/// Whether no character of `text` is a dot.
pub open spec fn dotless(text: Seq<char>) -> bool {
    forall|i: int| 0 <= i < text.len() ==> #[trigger] text[i] != '.'
}

/// A text without a dot is its own single segment.
pub proof fn lemma_segments_of_dotless(text: Seq<char>)
    requires
        dotless(text),
    ensures
        segments(text) == seq![text],
    decreases text.len(),
{
    if text.len() == 0 {
        assert(text == Seq::<char>::empty());
    } else {
        let tail = text.drop_first();
        lemma_segments_of_dotless(tail);
        assert(seq![text[0]] + tail == text);
    }
}

/// The segments of a dotless text, a dot, and more text are the dotless text
/// followed by the segments of what comes after the dot.
pub proof fn lemma_segments_after_dot(head: Seq<char>, tail: Seq<char>)
    requires
        dotless(head),
    ensures
        segments(head + seq!['.'] + tail) == seq![head] + segments(tail),
    decreases head.len(),
{
    let text = head + seq!['.'] + tail;
    if head.len() == 0 {
        assert(text.drop_first() == tail);
        assert(head == Seq::<char>::empty());
    } else {
        let shorter = head.drop_first();
        lemma_segments_after_dot(shorter, tail);
        assert(text.drop_first() == shorter + seq!['.'] + tail);
        assert(seq![head[0]] + shorter == head);
    }
}

/// Three base64url texts joined by dots part again into exactly those three
/// segments.
pub proof fn lemma_three_segments(first: Seq<char>, second: Seq<char>, third: Seq<char>)
    requires
        is_base64url(first),
        is_base64url(second),
        is_base64url(third),
    ensures
        segments(first + seq!['.'] + second + seq!['.'] + third) == seq![first, second, third],
{
    lemma_segments_after_dot(first, second + seq!['.'] + third);
    lemma_segments_after_dot(second, third);
    lemma_segments_of_dotless(third);
    assert(first + seq!['.'] + second + seq!['.'] + third == first + seq!['.'] + (second
        + seq!['.'] + third));
}

} // verus!
