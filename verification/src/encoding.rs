//! Base64 in the URL-safe alphabet without padding, the encoding of the
//! segments of a compact token and of hash claims.

use base64::engine::general_purpose::URL_SAFE_NO_PAD;
use base64::Engine;
use vstd::prelude::*;

verus! {

/// The unpadded URL-safe base64 text of `bytes`.
pub uninterp spec fn base64url_text(bytes: Seq<u8>) -> Seq<char>;

/// The bytes that the unpadded URL-safe base64 text `text` stands for, where
/// it is such a text.
pub uninterp spec fn base64url_bytes(text: Seq<u8>) -> Option<Seq<u8>>;

/// Encodes with `base64::Engine::encode` on the engine
/// `URL_SAFE_NO_PAD`. The result depends on the bytes alone.
#[verifier::external_body]
pub(crate) fn base64url_encode(bytes: &[u8]) -> (r: String)
    ensures
        r@ == base64url_text(bytes@),
{
    URL_SAFE_NO_PAD.encode(bytes)
}

/// Decodes with `base64::Engine::decode` on the engine
/// `URL_SAFE_NO_PAD`, which fails on a character outside the alphabet, on
/// padding and on an impossible length. The result depends on the text alone.
#[verifier::external_body]
pub(crate) fn base64url_decode(text: &[u8]) -> (r: Option<Vec<u8>>)
    ensures
        match r {
            Some(bytes) => base64url_bytes(text@) == Some(bytes@),
            None => base64url_bytes(text@) is None,
        },
{
    URL_SAFE_NO_PAD.decode(text).ok()
}

} // verus!
