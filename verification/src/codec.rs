//! Text-safe transport of binary payloads, and the text of scanned payloads.

use vstd::prelude::*;
use vstd::utf8::*;

verus! {

/// The text that the standard base64 alphabet with canonical padding gives
/// for `bytes`.
pub uninterp spec fn standard_encoding(bytes: Seq<u8>) -> Seq<char>;

/// The outcome of decoding a text: the bytes that it stands for, or the
/// words in which it is refused.
pub type Decoding = Result<Seq<u8>, Seq<char>>;

/// What the decoder of standard base64 with canonical padding makes of
/// `text`: the bytes that it stands for, or, where `text` is not such an
/// encoding, the words in which the decoder refuses it.
pub uninterp spec fn standard_decoding(text: Seq<char>) -> Result<Seq<u8>, Seq<char>>;

/// The text of `bytes` read as UTF-8, each invalid sequence replaced by
/// U+FFFD.
pub uninterp spec fn lossy_utf8(bytes: Seq<u8>) -> Seq<char>;

/// Number of characters in the padded base64 encoding of `len` bytes.
pub open spec fn encoded_len(len: nat) -> nat {
    4 * ((len + 2) / 3)
}

/// Whether a payload of `len` bytes has an encoding that fits in one
/// allocation.
pub open spec fn encodable(len: nat) -> bool {
    encoded_len(len) <= isize::MAX
}

/// `base64::Engine::encode` on the `STANDARD` engine.
///
/// Trusted: the result is the standard encoding of `bytes`, and the
/// `STANDARD` engine decodes it back to `bytes`. The call allocates
/// `base64::encoded_len` bytes for its result and panics where that is more
/// than one allocation can hold: those inputs are left out.
#[verifier::external_body]
fn encode_standard(bytes: &[u8]) -> (text: String)
    requires
        encodable(bytes@.len()),
    ensures
        text@ == standard_encoding(bytes@),
        standard_decoding(text@) == Decoding::Ok(bytes@),
{
    base64::Engine::encode(&base64::engine::general_purpose::STANDARD, bytes)
}

/// `base64::Engine::decode` on the `STANDARD` engine, with a refusal put in
/// the words that `base64::DecodeError` displays.
///
/// Trusted: the outcome is what the decoder makes of `text`, the same for
/// the same text: the decoded bytes, or the words of the refusal.
#[verifier::external_body]
fn decode_standard(text: &str) -> (decoded: Result<Vec<u8>, String>)
    ensures
        match decoded {
            Ok(bytes) => standard_decoding(text@) == Decoding::Ok(bytes@),
            Err(words) => standard_decoding(text@) == Decoding::Err(words@),
        },
{
    match base64::Engine::decode(&base64::engine::general_purpose::STANDARD, text) {
        Ok(bytes) => Ok(bytes),
        Err(refusal) => Err(refusal.to_string()),
    }
}

/// `String::from_utf8_lossy`, made an owned `String`.
///
/// Trusted: the result is the lossy reading of `bytes`; where `bytes` is
/// valid UTF-8 nothing is replaced and the result is the text it encodes.
#[verifier::external_body]
fn read_lossy(bytes: &[u8]) -> (text: String)
    ensures
        text@ == lossy_utf8(bytes@),
        valid_utf8(bytes@) ==> text@ == decode_utf8(bytes@),
{
    String::from_utf8_lossy(bytes).into_owned()
}

/// A payload that could not be decoded from its text-safe form.
#[derive(Debug, PartialEq, Eq)]
pub struct MalformedPayload {
    /// What the decoder said of the text.
    pub detail: String,
}

/// Largest payload length, in bytes, that `text_safe` encodes.
pub fn max_encodable_len() -> (len: usize)
    ensures
        forall|n: nat| encodable(n) <==> n <= len,
{
    let quads: usize = (isize::MAX as usize) / 4;
    assert(forall|n: nat| encodable(n) <==> n <= quads * 3) by (nonlinear_arith)
        requires
            quads == (isize::MAX as nat) / 4,
    ;
    quads * 3
}

/// Encodes `bytes` for transport over a text-only channel.
///
/// Returns `None` only for payloads too long to encode. The text decodes
/// back to exactly `bytes`.
pub fn text_safe(bytes: &[u8]) -> (encoded: Option<String>)
    ensures
        encoded.is_some() == encodable(bytes@.len()),
        encoded matches Some(text) ==> {
            &&& text@ == standard_encoding(bytes@)
            &&& standard_decoding(text@) == Decoding::Ok(bytes@)
        },
{
    if bytes.len() <= max_encodable_len() {
        Some(encode_standard(bytes))
    } else {
        None
    }
}

/// Decodes a payload from its text-safe form.
///
/// Fails exactly on the texts that the decoder refuses, with the words of
/// the refusal.
pub fn decode_payload(text: &str) -> (decoded: Result<Vec<u8>, MalformedPayload>)
    ensures
        match decoded {
            Ok(bytes) => standard_decoding(text@) == Decoding::Ok(bytes@),
            Err(refused) => standard_decoding(text@) == Decoding::Err(refused.detail@),
        },
{
    match decode_standard(text) {
        Ok(bytes) => Ok(bytes),
        Err(detail) => Err(MalformedPayload { detail }),
    }
}

/// The text of a scanned payload: UTF-8 where it is valid, with U+FFFD in
/// place of each sequence that is not.
pub fn payload_text(payload: &[u8]) -> (text: String)
    ensures
        text@ == lossy_utf8(payload@),
        valid_utf8(payload@) ==> text@ == decode_utf8(payload@),
{
    read_lossy(payload)
}

} // verus!
