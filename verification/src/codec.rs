//! The byte-level string codec used to exchange text with the foreign
//! runtime: an external collaborator, reached through trusted wrappers.
use vstd::prelude::*;

verus! {

/// Declares cesu8::Cesu8DecodingError — the codec's failure on malformed
/// bytes — so that it can travel through signatures and the error taxonomy.
#[verifier::external_type_specification]
#[verifier::external_body]
pub struct ExCesu8DecodingError(cesu8::Cesu8DecodingError);

/// The runtime's modified-UTF text form of a string. The encoding is a pure
/// function of the characters alone; its byte-level definition is the
/// codec's.
pub uninterp spec fn cesu8_of(s: Seq<char>) -> Seq<u8>;

/// What the codec makes of a byte sequence in the runtime's modified-UTF
/// form: the decoded text, or nothing when the bytes are malformed. A pure
/// function of the bytes alone.
pub uninterp spec fn cesu8_decoded(b: Seq<u8>) -> Option<Seq<char>>;

/// Relies on cesu8::to_java_cesu8: encodes a string into the runtime's
/// modified-UTF form. Encoding is total and depends on the characters alone.
#[verifier::external_body]
pub(crate) fn encode_cesu8(s: &str) -> (r: Vec<u8>)
    ensures
        r@ == cesu8_of(s@),
{
    cesu8::to_java_cesu8(s).into_owned()
}

/// Relies on cesu8::from_java_cesu8: decodes the runtime's modified-UTF form,
/// failing on malformed input. The outcome depends on the bytes alone.
#[verifier::external_body]
pub(crate) fn decode_cesu8(b: &[u8]) -> (r: Result<String, cesu8::Cesu8DecodingError>)
    ensures
        match r {
            Ok(s) => cesu8_decoded(b@) == Some(s@),
            Err(_) => cesu8_decoded(b@) is None,
        },
{
    match cesu8::from_java_cesu8(b) {
        Ok(s) => Ok(s.into_owned()),
        Err(e) => Err(e),
    }
}

} // verus!
