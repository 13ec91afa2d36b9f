//! Byte encodings the library hands to outside code: base64 (RFC 4648,
//! standard alphabet, padded) and lossy UTF-8 decoding.

use base64::Engine;
use vstd::prelude::*;
use vstd::utf8::{decode_utf8, valid_utf8};

verus! {

/// The padded standard-alphabet base64 text of `bytes`, as computed by the
/// `base64` crate's `general_purpose::STANDARD` engine.
pub uninterp spec fn base64_standard(bytes: Seq<u8>) -> Seq<char>;

/// Base64-encodes `bytes` with `base64::engine::general_purpose::STANDARD`
/// (`Engine::encode`). Claimed: the result is `base64_standard(bytes)`.
/// The crate panics when the padded output length would overflow `usize`;
/// `requires` leaves those inputs out.
#[verifier::external_body]
pub(crate) fn base64_encode(bytes: &[u8]) -> (r: String)
    requires
        bytes@.len() / 3 * 4 + 4 <= usize::MAX,
    ensures
        r@ == base64_standard(bytes@),
{
    base64::engine::general_purpose::STANDARD.encode(bytes)
}

/// The text std's `String::from_utf8_lossy` makes of `bytes`: invalid
/// sequences become U+FFFD.
pub uninterp spec fn utf8_lossy_text(bytes: Seq<u8>) -> Seq<char>;

/// Decodes `bytes` as UTF-8, replacing invalid sequences (std
/// `String::from_utf8_lossy`). Claimed: the result is
/// `utf8_lossy_text(bytes)`, and on valid UTF-8 it is exactly the decoded
/// text, as std documents.
#[verifier::external_body]
pub(crate) fn utf8_lossy(bytes: &[u8]) -> (r: String)
    ensures
        r@ == utf8_lossy_text(bytes@),
        valid_utf8(bytes@) ==> r@ == decode_utf8(bytes@),
{
    String::from_utf8_lossy(bytes).into_owned()
}

} // verus!
