//! The client for the external fact API: it builds the one request the
//! API takes, and validates and decodes what the transport brought back.
//!
//! The status check precedes the body decode on purpose: a non-success
//! response may carry a body of an unrelated shape, and decoding it first
//! would mask the real failure behind a confusing decode error.

use vstd::prelude::*;
use vstd::string::StringExecFns;
use vstd::utf8::{decode_utf8, valid_utf8};
use crate::error::Error;
use crate::json;

verus! {

/// The decoded payload of a successful fact response: its one required
/// member.  Additional members of the response are ignored.
pub struct CatFact {
    pub text: String,
}

/// The base of the external fact API's URL.
pub open spec fn spec_base_url() -> Seq<char> {
    "https://cat-fact.herokuapp.com"@
}

/// The fact client; it holds the base URL the requests are aimed at.  The
/// transport itself is an external collaborator that carries the built
/// request and hands back a [`FetchOutcome`].
pub struct Client {
    pub base_url: String,
}

/// The request the client issues, as plain values: method, target,
/// headers, body.
pub struct FactRequest {
    pub method: String,
    pub uri: String,
    pub headers: Vec<(String, String)>,
    pub body: Vec<u8>,
}

/// What a built fact request holds: method GET, the fact path under the
/// base URL, the JSON content-type and accept headers, an empty body.
pub open spec fn fact_request_wf(r: FactRequest, base: Seq<char>) -> bool {
    &&& r.method@ == "GET"@
    &&& r.uri@ == base + "/facts/random"@
    &&& r.headers@.len() == 2
    &&& r.headers@[0].0@ == "content-type"@
    &&& r.headers@[0].1@ == "application/json"@
    &&& r.headers@[1].0@ == "accept"@
    &&& r.headers@[1].1@ == "application/json"@
    &&& r.body@.len() == 0
}

/// What one attempt to carry the request over the transport produced: a
/// response with its status and full body, or a network-level failure
/// (DNS, connect, TLS, timeout).
pub enum FetchOutcome {
    Response { status: u16, body: Vec<u8> },
    TransportFailed,
}

/// The success range of HTTP statuses.
pub open spec fn is_success_status(status: u16) -> bool {
    200 <= status && status < 300
}

/// The decoded fact text of a response body: the `"text"` member of the
/// JSON document, decoded from UTF-8; `None` when the body is no fact
/// document or its text is not valid UTF-8.
pub open spec fn spec_decode_fact(body: Seq<u8>) -> Option<Seq<char>> {
    match json::spec_fact_text(body) {
        Some(b) => if valid_utf8(b) {
            Some(decode_utf8(b))
        } else {
            None
        },
        None => None,
    }
}

/// What a fact fetch returns for each transport outcome: a transport
/// failure is a `TransportError`; a non-success status is an
/// `UpstreamStatusError` carrying that status, whatever the body holds;
/// on a success status the body is decoded, and a body that is no fact
/// document is a `DecodeError`.
pub open spec fn spec_fact_result(o: FetchOutcome) -> Result<Seq<char>, Error> {
    match o {
        FetchOutcome::TransportFailed => Err(Error::TransportError),
        FetchOutcome::Response { status, body } => if !is_success_status(status) {
            Err(Error::UpstreamStatusError(status))
        } else {
            match spec_decode_fact(body@) {
                Some(t) => Ok(t),
                None => Err(Error::DecodeError),
            }
        },
    }
}

/// Relies on `String::from_utf8`: returns the string holding exactly the
/// given bytes when they are valid UTF-8, and fails exactly otherwise.
#[verifier::external_body]
fn string_from_utf8(bytes: Vec<u8>) -> (r: Option<String>)
    ensures
        match r {
            Some(s) => valid_utf8(bytes@) && s@ == decode_utf8(bytes@),
            None => !valid_utf8(bytes@),
        },
{
    match String::from_utf8(bytes) {
        Ok(s) => Some(s),
        Err(_) => None,
    }
}

/// Decode a response body as a fact record: the string `"text"` member of
/// the JSON object, decoded from UTF-8.
pub fn decode_fact(body: &Vec<u8>) -> (r: Option<CatFact>)
    ensures
        match r {
            Some(f) => spec_decode_fact(body@) == Some(f.text@),
            None => spec_decode_fact(body@) is None,
        },
{
    match json::fact_text(body) {
        None => None,
        Some(bytes) => match string_from_utf8(bytes) {
            Some(text) => Some(CatFact { text }),
            None => None,
        },
    }
}

impl Client {
    /// A client aimed at the fact API's base URL.
    pub fn new() -> (r: Self)
        ensures
            r.base_url@ == spec_base_url(),
    {
        Client { base_url: String::from_str("https://cat-fact.herokuapp.com") }
    }

    /// The base of the request target.
    pub fn get_url(&self) -> (r: String)
        ensures
            r@ == self.base_url@,
    {
        self.base_url.clone()
    }

    /// Build the fact request: method GET, target `base + "/facts/random"`,
    /// JSON content-type and accept headers, an empty body.
    pub fn fact_request(&self) -> (r: FactRequest)
        ensures
            fact_request_wf(r, self.base_url@),
    {
        let mut uri = self.get_url();
        uri.append("/facts/random");
        let mut headers: Vec<(String, String)> = Vec::new();
        headers.push((String::from_str("content-type"), String::from_str("application/json")));
        headers.push((String::from_str("accept"), String::from_str("application/json")));
        FactRequest { method: String::from_str("GET"), uri, headers, body: Vec::new() }
    }

    /// Validate and decode what the transport produced for a fact request:
    /// fail on a transport failure, then on a non-success status — before
    /// any decoding — and otherwise decode the body and return the fact's
    /// text.
    pub fn get_cat_fact(&self, outcome: FetchOutcome) -> (r: Result<String, Error>)
        ensures
            match (r, spec_fact_result(outcome)) {
                (Ok(s), Ok(t)) => s@ == t,
                (Err(e1), Err(e2)) => e1 == e2,
                _ => false,
            },
    {
        match outcome {
            FetchOutcome::TransportFailed => Err(Error::TransportError),
            FetchOutcome::Response { status, body } => {
                if !(200 <= status && status < 300) {
                    return Err(Error::UpstreamStatusError(status));
                }
                match decode_fact(&body) {
                    Some(f) => Ok(f.text),
                    None => Err(Error::DecodeError),
                }
            },
        }
    }
}

} // verus!
