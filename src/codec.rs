use base64::engine::general_purpose::STANDARD;
use base64::Engine;
use vstd::prelude::*;

verus! {

/// Standard base64 (RFC 4648 alphabet, with padding) of `data`.
pub uninterp spec fn base64_of(data: Seq<u8>) -> Seq<char>;

/// Relies on base64's `STANDARD.encode`: the padded standard encoding of the bytes.
#[verifier::external_body]
fn encode_standard(data: &[u8]) -> (r: String)
    ensures
        r@ == base64_of(data@),
{
    STANDARD.encode(data)
}

/// Relies on base64's `STANDARD.decode`: the text of an encoding decodes to the encoded
/// bytes; other text may be refused, with the decoder's message.
#[verifier::external_body]
fn decode_standard(input: &str) -> (r: Result<Vec<u8>, String>)
    ensures
        r is Ok || forall|b: Seq<u8>| #[trigger] base64_of(b) != input@,
        r matches Ok(v) ==> forall|b: Seq<u8>| #[trigger] base64_of(b) == input@ ==> v@ == b,
{
    STANDARD.decode(input).map_err(|e| format!("base64 decode error: {}", e))
}

/// Encode bytes to base64 string.
pub fn base64_encode(data: &[u8]) -> (r: String)
    ensures
        r@ == base64_of(data@),
{
    encode_standard(data)
}

/// Decode base64 string to bytes.
pub fn base64_decode(input: &str) -> (r: Result<Vec<u8>, String>)
    ensures
        forall|b: Seq<u8>| #[trigger] base64_of(b) == input@ ==> (r matches Ok(v) && v@ == b),
{
    decode_standard(input)
}

/// Base64 round trip: decoding the encoding of any bytes gives those bytes back.
pub proof fn lemma_base64_round_trip(data: Seq<u8>, text: Seq<char>, r: Result<Vec<u8>, String>)
    requires
        text == base64_of(data),
        forall|b: Seq<u8>| #[trigger] base64_of(b) == text ==> (r matches Ok(v) && v@ == b),
    ensures
        r matches Ok(v) && v@ == data,
{
}

} // verus!
