//! Base64 (standard alphabet, padded), as requests travel on the command line.

use vstd::prelude::*;

verus! {

/// What the standard padded base64 engine decodes a text to: the bytes, or
/// `None` when the text is not valid base64.
pub uninterp spec fn base64_standard_decode(text: Seq<char>) -> Option<Seq<u8>>;

/// Calls `base64::Engine::decode` of `base64::engine::general_purpose::STANDARD`
/// on the bytes of `text`. Claims only that the outcome is the named
/// function of the text.
#[verifier::external_body]
pub(crate) fn base64_decode(text: &str) -> (r: Option<Vec<u8>>)
    ensures
        match r {
            Some(b) => base64_standard_decode(text@) == Some(b@),
            None => base64_standard_decode(text@) is None,
        },
{
    base64::Engine::decode(&base64::engine::general_purpose::STANDARD, text).ok()
}

/// What the standard padded base64 engine encodes bytes to.
pub uninterp spec fn base64_standard_encode(bytes: Seq<u8>) -> Seq<char>;

/// Calls `base64::Engine::encode` of `base64::engine::general_purpose::STANDARD`
/// on the UTF-8 bytes of `text`. Claims that the result is the named
/// encoding of those bytes and that the same engine decodes it back to
/// them: the encoder writes the canonical padded form, with zero trailing
/// bits, which is what this engine's decoder requires. A text whose
/// encoding would not fit in `usize` is left out (the engine panics there).
#[verifier::external_body]
pub(crate) fn base64_encode_text(text: &str) -> (r: String)
    requires
        vstd::utf8::encode_utf8(text@).len() <= usize::MAX / 2,
    ensures
        r@ == base64_standard_encode(vstd::utf8::encode_utf8(text@)),
        base64_standard_decode(r@) == Some(vstd::utf8::encode_utf8(text@)),
{
    base64::Engine::encode(&base64::engine::general_purpose::STANDARD, text.as_bytes())
}

} // verus!
