//! Proxied bodies travel as base64 text (standard alphabet, padded); the
//! encoding and decoding are those of the `base64` crate.
use vstd::prelude::*;
use base64::prelude::{Engine, BASE64_STANDARD};

verus! {

/// What `BASE64_STANDARD.encode` produces for `data`.
pub uninterp spec fn base64_encoding(data: Seq<u8>) -> Seq<char>;

/// What `BASE64_STANDARD.decode` gives for the text `text`: the bytes, or
/// `None` where it reports an error.
pub uninterp spec fn base64_decoding(text: Seq<char>) -> Option<Seq<u8>>;

#[verifier::external_type_specification]
#[verifier::external_body]
pub struct ExDecodeError(base64::DecodeError);

/// `BASE64_STANDARD.encode(data)` (`base64` crate). Claims: the text is the
/// named encoding of `data`, and decoding that text gives `data` back.
/// The size bound keeps the crate's length computation from overflowing,
/// where it would panic.
#[verifier::external_body]
fn base64_encode(data: &[u8]) -> (r: String)
    requires
        data@.len() <= usize::MAX / 2,
    ensures
        r@ == base64_encoding(data@),
        base64_decoding(r@) == Some(data@),
{
    BASE64_STANDARD.encode(data)
}

/// `BASE64_STANDARD.decode(text)` (`base64` crate). Claims: it succeeds
/// exactly where the named decoding is defined, with those bytes; the empty
/// text decodes to no bytes.
#[verifier::external_body]
fn base64_decode(text: &str) -> (r: Result<Vec<u8>, base64::DecodeError>)
    ensures
        r is Ok <==> base64_decoding(text@) is Some,
        r matches Ok(v) ==> base64_decoding(text@) == Some(v@),
        r matches Ok(v) ==> (text@.len() == 0 ==> v@.len() == 0),
        r is Err ==> text@.len() != 0,
{
    BASE64_STANDARD.decode(text)
}

/// The body text for `data`.
pub fn encode_body(data: &[u8]) -> (r: String)
    requires
        data@.len() <= usize::MAX / 2,
    ensures
        r@ == base64_encoding(data@),
        base64_decoding(r@) == Some(data@),
{
    base64_encode(data)
}

/// A body text that is not valid base64.
#[derive(Debug, Clone, Copy, PartialEq, Eq, Structural)]
pub enum BodyError {
    InvalidBase64,
}

/// The bytes of a body text.
pub fn decode_body(text: &str) -> (r: Result<Vec<u8>, BodyError>)
    ensures
        match base64_decoding(text@) {
            Some(b) => r matches Ok(v) && v@ == b,
            None => r == Err::<Vec<u8>, BodyError>(BodyError::InvalidBase64),
        },
        text@.len() == 0 ==> (r matches Ok(v) && v@.len() == 0),
{
    match base64_decode(text) {
        Ok(v) => Ok(v),
        Err(_) => Err(BodyError::InvalidBase64),
    }
}


} // verus!
