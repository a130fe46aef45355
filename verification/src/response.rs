//! Response decoding: pure views over the raw bytes an engine exchange
//! returned.

use vstd::prelude::*;

use crate::error::Error;

verus! {

/// Declares `serde_json::Value`, the structured value a JSON document
/// decodes to. The value is opaque here; callers navigate it themselves.
#[verifier::external_type_specification]
#[verifier::external_body]
pub struct ExValue(serde_json::Value);

/// What `String::from_utf8_lossy` returns on the given bytes: a function of
/// the bytes alone, left unspecified here.
pub uninterp spec fn lossy_text(bytes: Seq<u8>) -> Seq<char>;

/// Whether `serde_json::from_slice` accepts the given bytes as a JSON
/// document: a function of the bytes alone, left unspecified here.
pub uninterp spec fn json_parses(bytes: Seq<u8>) -> bool;

/// Relies on `String::from_utf8_lossy`: the decoding depends on the bytes
/// alone, replacing invalid sequences rather than failing, and an empty
/// input decodes to the empty string.
#[verifier::external_body]
fn utf8_lossy(bytes: &Vec<u8>) -> (r: String)
    ensures
        r@ == lossy_text(bytes@),
        bytes@.len() == 0 ==> r@.len() == 0,
{
    String::from_utf8_lossy(bytes).into_owned()
}

/// Relies on `serde_json::from_slice`: whether bytes parse as a JSON
/// document depends on the bytes alone. A parse failure is carried out as
/// the parser's message.
#[verifier::external_body]
fn parse_json_value(bytes: &Vec<u8>) -> (r: Result<serde_json::Value, String>)
    ensures
        r is Ok <==> json_parses(bytes@),
{
    serde_json::from_slice::<serde_json::Value>(bytes).map_err(|e| e.to_string())
}

/// The raw byte payload an engine exchange returned on success.
///
/// Decoding is a pure, repeatable view over the bytes: no method consumes
/// or mutates them.
pub struct Response {
    body: Vec<u8>,
}

impl View for Response {
    type V = Seq<u8>;

    closed spec fn view(&self) -> Seq<u8> {
        self.body@
    }
}

impl Response {
    /// Wraps the raw bytes of one engine response.
    pub fn from_bytes(body: Vec<u8>) -> (r: Response)
        ensures
            r@ == body@,
    {
        Response { body }
    }

    /// The raw bytes themselves.
    pub fn body(&self) -> (r: &Vec<u8>)
        ensures
            r@ == self@,
    {
        &self.body
    }

    /// Lossily decode the bytes as UTF-8 text. Invalid sequences are
    /// replaced, never reported: this cannot fail, on any byte input.
    pub fn text(&self) -> (r: String)
        ensures
            r@ == lossy_text(self@),
    {
        utf8_lossy(&self.body)
    }

    /// Parse the bytes as a structured JSON value.
    ///
    /// Returns `Ok` exactly when the bytes form a JSON document; on
    /// anything else, the deserialization error — never a panic, and the
    /// bytes are left untouched either way. The error's text carries the
    /// parser's message followed by a best-effort lossy render of the
    /// offending body, for display.
    pub fn json(&self) -> (r: Result<serde_json::Value, Error>)
        ensures
            r is Ok <==> json_parses(self@),
            (match r {
                Ok(_) => true,
                Err(e) => e matches Error::Deserialization(detail) && detail@.len()
                    > lossy_text(self@).len() && detail@.subrange(
                    detail@.len() - lossy_text(self@).len(),
                    detail@.len() as int,
                ) == lossy_text(self@),
            }),
    {
        match parse_json_value(&self.body) {
            Ok(value) => Ok(value),
            Err(mut message) => {
                message.append("; body: ");
                let rendered = self.text();
                message.append(rendered.as_str());
                proof {
                    reveal_strlit("; body: ");
                    assert(message@.subrange(
                        message@.len() - lossy_text(self@).len(),
                        message@.len() as int,
                    ) =~= lossy_text(self@));
                }
                Err(Error::Deserialization(message))
            },
        }
    }
}

} // verus!
