//! The compact form of a signed JSON Web Token: three base64 segments
//! separated by full stops. A token keeps the bytes that were signed exactly
//! as they arrived.

use vstd::prelude::*;

use crate::core_types::{CoreJweKeyManagementAlgorithm, CoreJwsSigningAlgorithm};
use crate::encoding::{base64url_bytes, base64url_decode};
use crate::json::{byte_views, json_member_names, json_text, member_names, text_member};
use crate::types::JsonWebKeyId;

verus! {

/// The byte of the ASCII full stop that separates the segments.
pub const DOT: u8 = 46;

/// Why a text was not accepted as a compact token.
#[derive(Clone, Copy, Debug, PartialEq, Eq, Structural)]
pub enum JsonWebTokenError {
    /// The text does not consist of three base64 segments, or its header is
    /// not a JSON object.
    Malformed,
    /// The header names no algorithm.
    MissingAlg,
    /// The header names an algorithm that is not known.
    UnsupportedAlg,
}

/// The algorithm named in a token header.
#[derive(Clone, Copy, Debug, PartialEq, Eq, Structural)]
pub enum JsonWebTokenAlgorithm {
    /// The token is encrypted, with this key management algorithm.
    Encryption(CoreJweKeyManagementAlgorithm),
    /// The token is signed with this algorithm, or unsigned.
    Signature(CoreJwsSigningAlgorithm),
}

/// The algorithm that an `alg` header value stands for.
pub open spec fn algorithm_named(text: Seq<char>) -> Option<JsonWebTokenAlgorithm> {
    match CoreJwsSigningAlgorithm::named(text) {
        Some(alg) => Some(JsonWebTokenAlgorithm::Signature(alg)),
        None => match CoreJweKeyManagementAlgorithm::named(text) {
            Some(alg) => Some(JsonWebTokenAlgorithm::Encryption(alg)),
            None => None,
        },
    }
}

/// What a token header holds, as plain values.
pub struct JsonWebTokenHeaderView {
    /// The algorithm (`alg`).
    pub alg: JsonWebTokenAlgorithm,
    /// The key identifier (`kid`), where there is one.
    pub kid: Option<Seq<char>>,
    /// The media type of the token (`typ`), where there is one.
    pub typ: Option<Seq<char>>,
    /// The media type of the payload (`cty`), where there is one.
    pub cty: Option<Seq<char>>,
}

/// The header that the JSON document `doc` describes.
pub open spec fn header_of_json(doc: Seq<u8>) -> Result<JsonWebTokenHeaderView, JsonWebTokenError> {
    if json_member_names(doc) is None {
        Err(JsonWebTokenError::Malformed)
    } else {
        match json_text(doc, "alg"@) {
            None => Err(JsonWebTokenError::MissingAlg),
            Some(text) => match algorithm_named(text) {
                None => Err(JsonWebTokenError::UnsupportedAlg),
                Some(alg) => Ok(
                    JsonWebTokenHeaderView {
                        alg,
                        kid: json_text(doc, "kid"@),
                        typ: json_text(doc, "typ"@),
                        cty: json_text(doc, "cty"@),
                    },
                ),
            },
        }
    }
}

/// The pieces of `text` between its full stops, in order. A text without a
/// full stop is one piece; an empty piece stands where two full stops meet
/// or one stands at an end.
pub open spec fn segments(text: Seq<u8>) -> Seq<Seq<u8>>
    decreases text.len(),
{
    if text.len() == 0 {
        seq![Seq::empty()]
    } else {
        let before = segments(text.drop_last());
        if text.last() == DOT {
            before.push(Seq::empty())
        } else {
            before.drop_last().push(before.last().push(text.last()))
        }
    }
}

/// `parts` written one after another with a full stop between neighbours.
pub open spec fn dot_joined(parts: Seq<Seq<u8>>) -> Seq<u8>
    decreases parts.len(),
{
    if parts.len() == 0 {
        Seq::empty()
    } else if parts.len() == 1 {
        parts[0]
    } else {
        dot_joined(parts.drop_last()) + seq![DOT] + parts.last()
    }
}

/// What a token holds, as plain values.
pub struct JsonWebTokenView {
    /// The header.
    pub header: JsonWebTokenHeaderView,
    /// The decoded payload: a JSON document.
    pub payload: Seq<u8>,
    /// The bytes that the signature covers: the first two segments and the
    /// full stop between them, as they arrived.
    pub signing_input: Seq<u8>,
    /// The decoded signature.
    pub signature: Seq<u8>,
    /// The compact form that the token was read from.
    pub compact: Seq<u8>,
}

/// The token that the compact form `compact` describes.
pub open spec fn token_of(compact: Seq<u8>) -> Result<JsonWebTokenView, JsonWebTokenError> {
    let parts = segments(compact);
    if parts.len() != 3 {
        Err(JsonWebTokenError::Malformed)
    } else {
        match (base64url_bytes(parts[0]), base64url_bytes(parts[1]), base64url_bytes(parts[2])) {
            (Some(header_doc), Some(payload), Some(signature)) => match header_of_json(
                header_doc,
            ) {
                Err(e) => Err(e),
                Ok(header) => Ok(
                    JsonWebTokenView {
                        header,
                        payload,
                        signing_input: parts[0] + seq![DOT] + parts[1],
                        signature,
                        compact,
                    },
                ),
            },
            _ => Err(JsonWebTokenError::Malformed),
        }
    }
}

/// A text has at least one segment.
pub proof fn lemma_segments_nonempty(text: Seq<u8>)
    ensures
        segments(text).len() >= 1,
    decreases text.len(),
{
    if text.len() > 0 {
        lemma_segments_nonempty(text.drop_last());
    }
}

/// Joining the segments of a text with full stops gives the text back.
pub proof fn lemma_segments_join(text: Seq<u8>)
    ensures
        dot_joined(segments(text)) == text,
    decreases text.len(),
{
    if text.len() == 0 {
        assert(dot_joined(segments(text)) =~= text);
    } else {
        let shorter = text.drop_last();
        let before = segments(shorter);
        lemma_segments_nonempty(shorter);
        lemma_segments_join(shorter);
        if text.last() == DOT {
            let parts = before.push(Seq::empty());
            assert(parts.drop_last() =~= before);
            assert(dot_joined(parts) =~= shorter + seq![DOT]);
            assert(shorter + seq![DOT] =~= text);
        } else {
            let grown = before.last().push(text.last());
            let parts = before.drop_last().push(grown);
            assert(parts.drop_last() =~= before.drop_last());
            if before.len() == 1 {
                assert(dot_joined(before) == before[0]);
                assert(dot_joined(parts) =~= shorter.push(text.last()));
            } else {
                assert(dot_joined(before) == dot_joined(before.drop_last()) + seq![DOT]
                    + before.last());
                assert(dot_joined(parts) =~= shorter.push(text.last()));
            }
            assert(shorter.push(text.last()) =~= text);
        }
    }
}

/// The bytes that the signature of a well-formed token covers are the part
/// of its compact form before the second full stop, unchanged.
pub proof fn lemma_signing_input_is_prefix(compact: Seq<u8>)
    requires
        token_of(compact) is Ok,
    ensures
        token_of(compact)->Ok_0.signing_input == segments(compact)[0] + seq![DOT] + segments(
            compact,
        )[1],
        compact == token_of(compact)->Ok_0.signing_input + seq![DOT] + segments(compact)[2],
        token_of(compact)->Ok_0.signing_input == compact.subrange(
            0,
            compact.len() - 1 - segments(compact)[2].len(),
        ),
{
    let parts = segments(compact);
    lemma_segments_join(compact);
    let two = parts.drop_last();
    let one = two.drop_last();
    assert(one.len() == 1 && one[0] == parts[0]);
    assert(dot_joined(one) == parts[0]);
    assert(two.last() == parts[1]);
    assert(dot_joined(two) == dot_joined(one) + seq![DOT] + two.last());
    assert(dot_joined(parts) == dot_joined(parts.drop_last()) + seq![DOT] + parts[2]);
    let input = parts[0] + seq![DOT] + parts[1];
    assert(compact =~= input + seq![DOT] + parts[2]);
    assert(input =~= compact.subrange(0, compact.len() - 1 - parts[2].len()));
}

/// Cuts `text` at its full stops.
pub fn split_segments(text: &[u8]) -> (r: Vec<Vec<u8>>)
    ensures
        byte_views(r@) == segments(text@),
{
    let mut done: Vec<Vec<u8>> = Vec::new();
    let mut current: Vec<u8> = Vec::new();
    let n = text.len();
    let mut i: usize = 0;
    proof {
        assert(text@.take(0) =~= Seq::empty());
        assert(byte_views(done@).push(current@) =~= segments(text@.take(0)));
    }
    while i < n
        invariant
            n == text@.len(),
            i <= n,
            byte_views(done@).push(current@) == segments(text@.take(i as int)),
        decreases n - i,
    {
        let b = text[i];
        let ghost before = byte_views(done@).push(current@);
        let ghost done_before = byte_views(done@);
        let ghost current_before = current@;
        proof {
            let next = text@.take(i as int + 1);
            assert(next.drop_last() =~= text@.take(i as int));
            assert(next.last() == b);
        }
        if b == DOT {
            done.push(current);
            current = Vec::new();
            proof {
                assert(byte_views(done@) =~= before);
                assert(current@ =~= Seq::empty());
            }
        } else {
            current.push(b);
            proof {
                assert(before.drop_last() =~= done_before);
                assert(before.last() == current_before);
            }
        }
        i = i + 1;
    }
    let ghost done_before = byte_views(done@);
    let ghost last = current@;
    done.push(current);
    proof {
        assert(text@.take(n as int) =~= text@);
        assert(byte_views(done@) =~= done_before.push(last));
    }
    done
}

/// The header of a token.
#[derive(Debug, PartialEq, Eq)]
pub struct JsonWebTokenHeader {
    alg: JsonWebTokenAlgorithm,
    kid: Option<JsonWebKeyId>,
    typ: Option<String>,
    cty: Option<String>,
}

/// The view of an optional string.
pub open spec fn optional_string(s: Option<String>) -> Option<Seq<char>> {
    match s {
        Some(t) => Some(t@),
        None => None,
    }
}

impl View for JsonWebTokenHeader {
    type V = JsonWebTokenHeaderView;

    closed spec fn view(&self) -> JsonWebTokenHeaderView {
        JsonWebTokenHeaderView {
            alg: self.alg,
            kid: match self.kid {
                Some(id) => Some(id@),
                None => None,
            },
            typ: optional_string(self.typ),
            cty: optional_string(self.cty),
        }
    }
}

/// Reads the algorithm that an `alg` header value stands for.
pub fn algorithm_from_text(text: &str) -> (r: Option<JsonWebTokenAlgorithm>)
    ensures
        r == algorithm_named(text@),
{
    match CoreJwsSigningAlgorithm::from_text(text) {
        Some(alg) => Some(JsonWebTokenAlgorithm::Signature(alg)),
        None => match CoreJweKeyManagementAlgorithm::from_text(text) {
            Some(alg) => Some(JsonWebTokenAlgorithm::Encryption(alg)),
            None => None,
        },
    }
}

impl JsonWebTokenHeader {
    /// Reads a header from its JSON document.
    pub fn from_json(doc: &[u8]) -> (r: Result<Self, JsonWebTokenError>)
        ensures
            match r {
                Ok(h) => header_of_json(doc@) == Ok::<JsonWebTokenHeaderView, JsonWebTokenError>(
                    h@,
                ),
                Err(e) => header_of_json(doc@) == Err::<JsonWebTokenHeaderView, JsonWebTokenError>(
                    e,
                ),
            },
    {
        if member_names(doc).is_none() {
            return Err(JsonWebTokenError::Malformed);
        }
        let alg_text = match text_member(doc, "alg") {
            Some(t) => t,
            None => return Err(JsonWebTokenError::MissingAlg),
        };
        let alg = match algorithm_from_text(alg_text.as_str()) {
            Some(a) => a,
            None => return Err(JsonWebTokenError::UnsupportedAlg),
        };
        let kid = match text_member(doc, "kid") {
            Some(t) => Some(JsonWebKeyId::new(t)),
            None => None,
        };
        Ok(
            JsonWebTokenHeader {
                alg,
                kid,
                typ: text_member(doc, "typ"),
                cty: text_member(doc, "cty"),
            },
        )
    }

    /// The algorithm.
    pub fn algorithm(&self) -> (r: JsonWebTokenAlgorithm)
        ensures
            r == self@.alg,
    {
        self.alg
    }

    /// The key identifier, where there is one.
    pub fn key_id(&self) -> (r: Option<&JsonWebKeyId>)
        ensures
            match r {
                Some(id) => self@.kid == Some(id@),
                None => self@.kid is None,
            },
    {
        self.kid.as_ref()
    }

    /// The media type of the token, where there is one.
    pub fn token_type(&self) -> (r: Option<&String>)
        ensures
            match r {
                Some(t) => self@.typ == Some(t@),
                None => self@.typ is None,
            },
    {
        self.typ.as_ref()
    }

    /// The media type of the payload, where there is one.
    pub fn content_type(&self) -> (r: Option<&String>)
        ensures
            match r {
                Some(t) => self@.cty == Some(t@),
                None => self@.cty is None,
            },
    {
        self.cty.as_ref()
    }
}

impl Clone for JsonWebTokenHeader {
    fn clone(&self) -> (r: Self)
        ensures
            r@ == self@,
    {
        JsonWebTokenHeader {
            alg: self.alg,
            kid: match &self.kid {
                Some(id) => Some(id.clone()),
                None => None,
            },
            typ: match &self.typ {
                Some(t) => Some(t.clone()),
                None => None,
            },
            cty: match &self.cty {
                Some(t) => Some(t.clone()),
                None => None,
            },
        }
    }
}

/// A token in compact form, taken apart. The payload is handed out only by
/// a verifier, after it has checked the signature.
#[derive(Debug, PartialEq, Eq)]
pub struct JsonWebToken {
    header: JsonWebTokenHeader,
    payload: Vec<u8>,
    signing_input: Vec<u8>,
    signature: Vec<u8>,
    compact: Vec<u8>,
}

impl View for JsonWebToken {
    type V = JsonWebTokenView;

    closed spec fn view(&self) -> JsonWebTokenView {
        JsonWebTokenView {
            header: self.header@,
            payload: self.payload@,
            signing_input: self.signing_input@,
            signature: self.signature@,
            compact: self.compact@,
        }
    }
}

/// Copies a byte slice.
pub fn copy_bytes(bytes: &[u8]) -> (r: Vec<u8>)
    ensures
        r@ == bytes@,
{
    let mut out: Vec<u8> = Vec::new();
    let n = bytes.len();
    let mut i: usize = 0;
    while i < n
        invariant
            n == bytes@.len(),
            i <= n,
            out@ == bytes@.take(i as int),
        decreases n - i,
    {
        out.push(bytes[i]);
        assert(out@ =~= bytes@.take(i as int + 1));
        i = i + 1;
    }
    assert(bytes@.take(n as int) =~= bytes@);
    out
}

/// Appends `more` to `out`.
fn extend(out: &mut Vec<u8>, more: &[u8])
    ensures
        final(out)@ == old(out)@ + more@,
{
    let ghost start = out@;
    let n = more.len();
    let mut i: usize = 0;
    assert(out@ =~= start + more@.take(0));
    while i < n
        invariant
            n == more@.len(),
            i <= n,
            out@ == start + more@.take(i as int),
        decreases n - i,
    {
        out.push(more[i]);
        assert(out@ =~= start + more@.take(i as int + 1));
        i = i + 1;
    }
    assert(more@.take(n as int) =~= more@);
}

impl JsonWebToken {
    /// A token is what its compact form says.
    #[verifier::type_invariant]
    spec fn matches_compact_form(&self) -> bool {
        token_of(self.compact@) == Ok::<JsonWebTokenView, JsonWebTokenError>(self@)
    }

    /// Takes a compact token apart: splits it at its full stops into three
    /// segments, decodes each from base64, and reads the header. The first
    /// two segments and the full stop between them are kept as they are, as
    /// the bytes that the signature covers.
    pub fn parse(compact: &[u8]) -> (r: Result<Self, JsonWebTokenError>)
        ensures
            match r {
                Ok(t) => token_of(compact@) == Ok::<JsonWebTokenView, JsonWebTokenError>(t@),
                Err(e) => token_of(compact@) == Err::<JsonWebTokenView, JsonWebTokenError>(e),
            },
    {
        let parts = split_segments(compact);
        if parts.len() != 3 {
            return Err(JsonWebTokenError::Malformed);
        }
        assert(byte_views(parts@)[0] == parts@[0]@);
        assert(byte_views(parts@)[1] == parts@[1]@);
        assert(byte_views(parts@)[2] == parts@[2]@);
        let header_doc = match base64url_decode(parts[0].as_slice()) {
            Some(b) => b,
            None => return Err(JsonWebTokenError::Malformed),
        };
        let payload = match base64url_decode(parts[1].as_slice()) {
            Some(b) => b,
            None => return Err(JsonWebTokenError::Malformed),
        };
        let signature = match base64url_decode(parts[2].as_slice()) {
            Some(b) => b,
            None => return Err(JsonWebTokenError::Malformed),
        };
        let header = match JsonWebTokenHeader::from_json(header_doc.as_slice()) {
            Ok(h) => h,
            Err(e) => return Err(e),
        };
        let mut signing_input = copy_bytes(parts[0].as_slice());
        signing_input.push(DOT);
        extend(&mut signing_input, parts[1].as_slice());
        assert(signing_input@ =~= parts@[0]@ + seq![DOT] + parts@[1]@);
        Ok(
            JsonWebToken {
                header,
                payload,
                signing_input,
                signature,
                compact: copy_bytes(compact),
            },
        )
    }

    /// A copy of the header.
    pub fn header(&self) -> (r: JsonWebTokenHeader)
        ensures
            r@ == self@.header,
    {
        self.header.clone()
    }

    /// The compact form that the token was read from, byte for byte.
    /// Reading it gives the same token back.
    pub fn serialize(&self) -> (r: Vec<u8>)
        ensures
            r@ == self@.compact,
            token_of(r@) == Ok::<JsonWebTokenView, JsonWebTokenError>(self@),
    {
        proof {
            use_type_invariant(self);
        }
        copy_bytes(self.compact.as_slice())
    }

    /// The bytes that the signature covers.
    pub fn signing_input(&self) -> (r: &[u8])
        ensures
            r@ == self@.signing_input,
    {
        self.signing_input.as_slice()
    }

    /// The decoded signature.
    pub fn signature(&self) -> (r: &[u8])
        ensures
            r@ == self@.signature,
    {
        self.signature.as_slice()
    }

    /// The payload, whatever the signature. Only verifiers call this.
    pub(crate) fn unverified_payload(&self) -> (r: &[u8])
        ensures
            r@ == self@.payload,
    {
        self.payload.as_slice()
    }

    /// The header, borrowed.
    pub(crate) fn header_ref(&self) -> (r: &JsonWebTokenHeader)
        ensures
            r@ == self@.header,
    {
        &self.header
    }
}

impl Clone for JsonWebToken {
    fn clone(&self) -> (r: Self)
        ensures
            r@ == self@,
    {
        proof {
            use_type_invariant(self);
        }
        JsonWebToken {
            header: self.header.clone(),
            payload: copy_bytes(self.payload.as_slice()),
            signing_input: copy_bytes(self.signing_input.as_slice()),
            signature: copy_bytes(self.signature.as_slice()),
            compact: copy_bytes(self.compact.as_slice()),
        }
    }
}

} // verus!
