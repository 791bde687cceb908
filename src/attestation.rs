//! The printable form of the attestation document that key generation
//! returns.
use vstd::prelude::*;

verus! {

/// The padded standard Base64 text of some bytes.
pub uninterp spec fn base64_of(b: Seq<u8>) -> Seq<u8>;

/// Relies on `subtle_encoding::base64::encode`: the padded standard Base64
/// text of the bytes, four characters for every three bytes or part of three
/// (its buffer length is `((n * 4) / 3 + 3) & !3`, which must not overflow).
#[verifier::external_body]
fn base64_encode(b: &[u8]) -> (r: Vec<u8>)
    requires
        b@.len() <= usize::MAX / 4,
    ensures
        r@ == base64_of(b@),
        r@.len() == 4 * ((b@.len() + 2) / 3),
{
    subtle_encoding::base64::encode(b)
}

/// The attestation document as Base64 text, for the operator to pass on.
pub fn attestation_text(doc: &[u8]) -> (r: Vec<u8>)
    requires
        doc@.len() <= usize::MAX / 4,
    ensures
        r@ == base64_of(doc@),
        r@.len() == 4 * ((doc@.len() + 2) / 3),
        doc@.len() == 0 ==> r@.len() == 0,
{
    base64_encode(doc)
}

} // verus!
