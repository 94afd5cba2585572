//! The response record: what the handler hands back, and what the
//! bridge serializes to the wire verbatim.

use vstd::prelude::*;
use vstd::string::StrSliceExecFns;
use vstd::string::StringSliceAdditionalSpecFns;

verus! {

/// A response header: one name/value pair, order preserved by the
/// surrounding sequence.
#[derive(Debug, Clone)]
pub struct JsHeader {
    pub name: String,
    pub value: String,
}

/// A full response: status code, ordered headers, optional body bytes.
#[derive(Debug, Clone)]
pub struct JsResponse {
    pub status: u16,
    pub headers: Vec<JsHeader>,
    pub body: Option<Vec<u8>>,
}

impl JsResponse {
    /// Build a response from a status, a list of name/value pairs and
    /// an optional body, preserving the order of the pairs.
    pub fn new(status: u16, headers: Vec<(String, String)>, body: Option<Vec<u8>>) -> (r: JsResponse)
        ensures
            r.status == status,
            r.headers@.len() == headers@.len(),
            forall|i: int| 0 <= i < headers@.len() ==> {
                &&& #[trigger] r.headers@[i].name@ == headers@[i].0@
                &&& r.headers@[i].value@ == headers@[i].1@
            },
            r.body == body,
    {
        let mut out: Vec<JsHeader> = Vec::new();
        let mut i: usize = 0;
        while i < headers.len()
            invariant
                i <= headers@.len(),
                out@.len() == i,
                forall|j: int| 0 <= j < i ==> {
                    &&& #[trigger] out@[j].name@ == headers@[j].0@
                    &&& out@[j].value@ == headers@[j].1@
                },
            decreases headers@.len() - i,
        {
            let name = headers[i].0.clone();
            let value = headers[i].1.clone();
            out.push(JsHeader { name, value });
            i = i + 1;
        }
        JsResponse { status, headers: out, body }
    }

    /// A plain-text response: one `content-type: text/plain` header and
    /// the given text as body bytes.
    pub fn text(body: &str, status: u16) -> (r: JsResponse)
        ensures
            r.status == status,
            r.headers@.len() == 1,
            r.headers@[0].name@ == "content-type"@,
            r.headers@[0].value@ == "text/plain"@,
            r.body matches Some(b) && b@ == body.spec_bytes(),
    {
        let mut headers: Vec<JsHeader> = Vec::new();
        headers.push(JsHeader {
            name: "content-type".to_owned(),
            value: "text/plain".to_owned(),
        });
        JsResponse { status, headers, body: Some(body.as_bytes_vec()) }
    }

    /// A JSON response: one `content-type: application/json` header and
    /// the given text as body bytes.
    pub fn json(body: &str, status: u16) -> (r: JsResponse)
        ensures
            r.status == status,
            r.headers@.len() == 1,
            r.headers@[0].name@ == "content-type"@,
            r.headers@[0].value@ == "application/json"@,
            r.body matches Some(b) && b@ == body.spec_bytes(),
    {
        let mut headers: Vec<JsHeader> = Vec::new();
        headers.push(JsHeader {
            name: "content-type".to_owned(),
            value: "application/json".to_owned(),
        });
        JsResponse { status, headers, body: Some(body.as_bytes_vec()) }
    }

    /// An empty response: the given status, no headers, no body.
    pub fn empty(status: u16) -> (r: JsResponse)
        ensures
            r.status == status,
            r.headers@.len() == 0,
            r.body is None,
    {
        JsResponse { status, headers: Vec::new(), body: None }
    }
}

impl Default for JsResponse {
    /// The default response is empty with status 200.
    fn default() -> (r: JsResponse)
        ensures
            r.status == 200,
            r.headers@.len() == 0,
            r.body is None,
    {
        JsResponse::empty(200)
    }
}

} // verus!
