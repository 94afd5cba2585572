//! The request dispatcher: screens an inbound request (body size,
//! body-read failure, handler presence), builds the request record
//! with its single-use response channel, and turns the outcome of the
//! wait for the handler's answer into the wire response.

use vstd::prelude::*;
use vstd::string::StrSliceExecFns;
use vstd::string::StringExecFns;
use vstd::string::StringSliceAdditionalSpecFns;
use crate::request::RequestContext;
use crate::request::ResponseSlot;
use crate::request::HeaderPair;
use crate::request::channel_state;
use crate::request::spec_delivered;
use crate::response::JsResponse;

verus! {

/// The per-request failure classes, each mapped to one status code
/// and one plain-text message.
#[derive(Debug, Clone, Copy, PartialEq, Eq, Structural)]
pub enum DispatchError {
    /// The wire collaborator could not collect the body.
    BodyReadError,
    /// The collected body exceeds the configured cap.
    BodyTooLarge,
    /// No handler was installed when the request arrived.
    NoHandlerRegistered,
    /// The handler's side of the channel was dropped without sending.
    HandlerDidNotRespond,
    /// The handler did not answer within the configured timeout.
    HandlerTimeout,
}

/// The status code synthesized for each failure class.
pub open spec fn spec_status_of(e: DispatchError) -> u16 {
    match e {
        DispatchError::BodyReadError => 400,
        DispatchError::BodyTooLarge => 413,
        DispatchError::NoHandlerRegistered => 500,
        DispatchError::HandlerDidNotRespond => 500,
        DispatchError::HandlerTimeout => 504,
    }
}

/// The plain-text body synthesized for each failure class.
pub open spec fn spec_message_of(e: DispatchError) -> Seq<u8> {
    match e {
        DispatchError::BodyReadError => "Failed to read body".spec_bytes(),
        DispatchError::BodyTooLarge => "Request body too large".spec_bytes(),
        DispatchError::NoHandlerRegistered => "No handler registered".spec_bytes(),
        DispatchError::HandlerDidNotRespond => "Handler did not respond".spec_bytes(),
        DispatchError::HandlerTimeout => "Request timeout".spec_bytes(),
    }
}

/// Synthesize the error response for a failure class: its status code,
/// no headers, and its message as the body.
pub fn error_response(e: &DispatchError) -> (r: JsResponse)
    ensures
        r.status == spec_status_of(*e),
        r.headers@.len() == 0,
        r.body matches Some(m) && m@ == spec_message_of(*e),
{
    match e {
        DispatchError::BodyReadError => JsResponse {
            status: 400,
            headers: Vec::new(),
            body: Some("Failed to read body".as_bytes_vec()),
        },
        DispatchError::BodyTooLarge => JsResponse {
            status: 413,
            headers: Vec::new(),
            body: Some("Request body too large".as_bytes_vec()),
        },
        DispatchError::NoHandlerRegistered => JsResponse {
            status: 500,
            headers: Vec::new(),
            body: Some("No handler registered".as_bytes_vec()),
        },
        DispatchError::HandlerDidNotRespond => JsResponse {
            status: 500,
            headers: Vec::new(),
            body: Some("Handler did not respond".as_bytes_vec()),
        },
        DispatchError::HandlerTimeout => JsResponse {
            status: 504,
            headers: Vec::new(),
            body: Some("Request timeout".as_bytes_vec()),
        },
    }
}

/// The host part of the reconstructed URL: the Host header when the
/// request carried one, "localhost" otherwise.
pub open spec fn spec_host_part(host_header: Option<String>) -> Seq<char> {
    match host_header {
        Some(h) => h@,
        None => "localhost"@,
    }
}

/// The path-and-query part of the reconstructed URL: the request's
/// own, or "/" when it carried none.
pub open spec fn spec_path_part(path_and_query: Option<String>) -> Seq<char> {
    match path_and_query {
        Some(p) => p@,
        None => "/"@,
    }
}

/// The absolute URL reconstructed for a request: scheme fixed to
/// "http", then host, then path and query.
pub open spec fn spec_url(host_header: Option<String>, path_and_query: Option<String>) -> Seq<
    char,
> {
    "http://"@ + spec_host_part(host_header) + spec_path_part(path_and_query)
}

/// Reconstruct the absolute URL from the Host header and the
/// request's path and query.
pub fn build_url(host_header: &Option<String>, path_and_query: &Option<String>) -> (r: String)
    ensures
        r@ == spec_url(*host_header, *path_and_query),
{
    let mut url = String::from_str("http://");
    match host_header {
        Some(h) => url.append(h.as_str()),
        None => url.append("localhost"),
    }
    match path_and_query {
        Some(p) => url.append(p.as_str()),
        None => url.append("/"),
    }
    url
}

/// A header as it came off the wire: the name as text, and the value
/// only when it was representable as text.
#[derive(Debug, Clone)]
pub struct RawHeader {
    pub name: String,
    pub value: Option<String>,
}

/// The text a raw header value is coerced to: the value itself when
/// it was representable as text, the empty string otherwise.
pub open spec fn spec_coerced_value(v: Option<String>) -> Seq<char> {
    match v {
        Some(s) => s@,
        None => Seq::<char>::empty(),
    }
}

/// The pair sequence `out` is the raw header sequence `raw` with
/// every untextual value coerced to the empty string, order and
/// duplicates kept.
pub open spec fn spec_headers_coerced(out: Seq<HeaderPair>, raw: Seq<RawHeader>) -> bool {
    &&& out.len() == raw.len()
    &&& forall|i: int| 0 <= i < raw.len() ==> {
        &&& (#[trigger] out[i]).name@ == raw[i].name@
        &&& out[i].value@ == spec_coerced_value(raw[i].value)
    }
}

/// Convert raw wire headers into the ordered pair sequence, coercing
/// every value that was not representable as text to the empty
/// string, keeping order and duplicates.
pub fn coerce_headers(raw: &Vec<RawHeader>) -> (r: Vec<HeaderPair>)
    ensures
        spec_headers_coerced(r@, raw@),
{
    let mut out: Vec<HeaderPair> = Vec::new();
    let mut i: usize = 0;
    while i < raw.len()
        invariant
            i <= raw@.len(),
            out@.len() == i,
            forall|j: int| 0 <= j < i ==> {
                &&& (#[trigger] out@[j]).name@ == raw@[j].name@
                &&& out@[j].value@ == spec_coerced_value(raw@[j].value)
            },
        decreases raw@.len() - i,
    {
        let value: String = match &raw[i].value {
            Some(v) => v.clone(),
            None => String::new(),
        };
        let name = raw[i].name.clone();
        out.push(HeaderPair { name, value });
        i = i + 1;
    }
    out
}

/// What the wire collaborator produced for the request body.
pub enum BodyOutcome {
    /// The full body, collected up to completion.
    Collected(Vec<u8>),
    /// Collection failed (malformed transfer framing).
    ReadFailed,
}

/// Screen a request and build its record.
///
/// In order: a body that could not be collected is rejected with 400;
/// a body over the cap is rejected with 413 before any handler is
/// involved; with no handler installed the request is rejected with
/// 500.  Only a request that passes all three yields a record — so a
/// rejected request never reaches a handler and never owns a response
/// channel — and the record carries the reconstructed URL, the coerced
/// headers in wire order, the body (absent when empty), the client's
/// address, and a ready, empty response channel whose receiving half
/// is returned beside it.
pub fn prepare_request(
    method: String,
    host_header: Option<String>,
    path_and_query: Option<String>,
    raw_headers: Vec<RawHeader>,
    body: BodyOutcome,
    client_address: String,
    max_body_size: u32,
    handler_registered: bool,
) -> (r: Result<(RequestContext, tokio::sync::oneshot::Receiver<JsResponse>), JsResponse>)
    ensures
        r is Ok <==> (body matches BodyOutcome::Collected(b) && b@.len() <= max_body_size
            && handler_registered),
        body is ReadFailed ==> ({
            &&& r matches Err(resp)
            &&& resp.status == 400
            &&& resp.body matches Some(m) && m@ == spec_message_of(DispatchError::BodyReadError)
        }),
        (body matches BodyOutcome::Collected(b) && b@.len() > max_body_size) ==> ({
            &&& r matches Err(resp)
            &&& resp.status == 413
            &&& resp.body matches Some(m) && m@ == spec_message_of(DispatchError::BodyTooLarge)
        }),
        (body matches BodyOutcome::Collected(b) && b@.len() <= max_body_size
            && !handler_registered) ==> ({
            &&& r matches Err(resp)
            &&& resp.status == 500
            &&& resp.body matches Some(m) && m@ == spec_message_of(
                DispatchError::NoHandlerRegistered,
            )
        }),
        (body matches BodyOutcome::Collected(b) && b@.len() <= max_body_size
            && handler_registered) ==> ({
            &&& r matches Ok(pair)
            &&& {
                let ctx = r->Ok_0.0;
                let b = body->Collected_0;
                &&& ctx.method@ == method@
                &&& ctx.url@ == spec_url(host_header, path_and_query)
                &&& spec_headers_coerced(ctx.headers@, raw_headers@)
                &&& (b@.len() == 0 ==> ctx.body is None)
                &&& (b@.len() > 0 ==> (ctx.body matches Some(bv) && bv@ == b@))
                &&& ctx.client_address@ == client_address@
                &&& channel_state(ctx) is Ready
                &&& spec_delivered(ctx) is None
            }
        }),
{
    let collected: Vec<u8> = match body {
        BodyOutcome::ReadFailed => {
            return Err(error_response(&DispatchError::BodyReadError));
        },
        BodyOutcome::Collected(b) => b,
    };
    if collected.len() > max_body_size as usize {
        return Err(error_response(&DispatchError::BodyTooLarge));
    }
    if !handler_registered {
        return Err(error_response(&DispatchError::NoHandlerRegistered));
    }
    let url = build_url(&host_header, &path_and_query);
    let headers = coerce_headers(&raw_headers);
    let (tx, rx) = tokio::sync::oneshot::channel();
    let ctx = RequestContext {
        method,
        url,
        headers,
        body: if collected.len() == 0 {
            None
        } else {
            Some(collected)
        },
        client_address,
        response_sender: Some(ResponseSlot::new(tx)),
    };
    Ok((ctx, rx))
}

/// How the wait for the handler's answer ended.
pub enum WaitOutcome {
    /// The channel delivered a response in time.
    Responded(JsResponse),
    /// The sender was dropped without sending.
    Abandoned,
    /// The timer fired first.
    TimedOut,
}

/// Turn the outcome of the wait into the outgoing response: a
/// delivered response verbatim, 500 for an abandoned request, 504 for
/// a timeout.
pub fn resolve_outcome(w: WaitOutcome) -> (r: JsResponse)
    ensures
        w matches WaitOutcome::Responded(resp) ==> r == resp,
        w is Abandoned ==> ({
            &&& r.status == 500
            &&& r.headers@.len() == 0
            &&& r.body matches Some(m) && m@ == spec_message_of(DispatchError::HandlerDidNotRespond)
        }),
        w is TimedOut ==> ({
            &&& r.status == 504
            &&& r.headers@.len() == 0
            &&& r.body matches Some(m) && m@ == spec_message_of(DispatchError::HandlerTimeout)
        }),
{
    match w {
        WaitOutcome::Responded(resp) => resp,
        WaitOutcome::Abandoned => error_response(&DispatchError::HandlerDidNotRespond),
        WaitOutcome::TimedOut => error_response(&DispatchError::HandlerTimeout),
    }
}

} // verus!
