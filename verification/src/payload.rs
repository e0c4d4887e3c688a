//! Serialized values handed between the harness and the execution engine.
//!
//! A `Payload` is an opaque unit of serialized data; the harness moves
//! payloads around without interpreting them, except where a caller asks for
//! a JSON-encoded string to be produced or decoded.

use vstd::prelude::*;

verus! {

/// One unit of serialized data.
#[derive(Debug)]
pub struct Payload {
    /// The raw serialized bytes.
    pub data: Vec<u8>,
}

impl View for Payload {
    type V = Seq<u8>;

    open spec fn view(&self) -> Seq<u8> {
        self.data@
    }
}

impl Clone for Payload {
    fn clone(&self) -> (r: Self)
        ensures
            r@ == self@,
    {
        let data = self.data.clone();
        proof {
            assert(data@ =~= self.data@);
        }
        Payload { data }
    }
}

/// An ordered batch of payloads, as an engine passes them around.
#[derive(Debug)]
pub struct Payloads {
    /// The payloads, in order.
    pub payloads: Vec<Payload>,
}

impl View for Payloads {
    type V = Seq<Seq<u8>>;

    open spec fn view(&self) -> Seq<Seq<u8>> {
        self.payloads@.map_values(|p: Payload| p@)
    }
}

impl Clone for Payloads {
    fn clone(&self) -> (r: Self)
        ensures
            r@ == self@,
    {
        let payloads = self.payloads.clone();
        proof {
            assert forall|i: int| 0 <= i < payloads@.len() implies payloads@[i]@ == self.payloads@[i]@ by {
                assert(cloned::<Payload>(self.payloads@[i], payloads@[i]));
            }
            assert(payloads@.map_values(|p: Payload| p@) =~= self.payloads@.map_values(
                |p: Payload| p@,
            ));
        }
        Payloads { payloads }
    }
}

/// The JSON encoding of a string value.
pub uninterp spec fn json_string_bytes(s: Seq<char>) -> Seq<u8>;

/// The string value a byte sequence decodes to as JSON, if it is the JSON
/// encoding of a string.
pub uninterp spec fn json_parsed_string(b: Seq<u8>) -> Option<Seq<char>>;

/// Relies on serde_json::to_vec: the JSON encoding of a string depends on its
/// characters alone, never fails for valid UTF-8 input, and decodes back to
/// the same string.
#[verifier::external_body]
pub(crate) fn json_encode_string(s: &str) -> (r: Vec<u8>)
    ensures
        r@ == json_string_bytes(s@),
        json_parsed_string(r@) == Some(s@),
{
    serde_json::to_vec(s).expect("serializing a string cannot fail")
}

/// Relies on serde_json::from_slice::<String>: the result depends on the
/// input bytes alone.
#[verifier::external_body]
pub(crate) fn json_decode_string(b: &[u8]) -> (r: Result<String, String>)
    ensures
        match r {
            Ok(s) => json_parsed_string(b@) == Some(s@),
            Err(_) => json_parsed_string(b@) is None,
        },
{
    match serde_json::from_slice::<String>(b) {
        Ok(s) => Ok(s),
        Err(e) => Err(e.to_string()),
    }
}

impl Payload {
    /// Encode a string value as a JSON payload.
    pub fn from_json_string(s: &str) -> (r: Payload)
        ensures
            r@ == json_string_bytes(s@),
            json_parsed_string(r@) == Some(s@),
    {
        Payload { data: json_encode_string(s) }
    }
}

} // verus!
