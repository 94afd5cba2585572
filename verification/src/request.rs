//! The request record handed to the external handler, with its
//! embedded single-use response channel.

use vstd::prelude::*;
use crate::response::JsResponse;

verus! {

/// A request header: one name/value pair, wire order preserved by the
/// surrounding sequence, duplicates kept.
#[derive(Debug, Clone)]
pub struct HeaderPair {
    pub name: String,
    pub value: String,
}

/// Why a respond attempt was rejected.
#[derive(Debug, Clone, Copy, PartialEq, Eq, Structural)]
pub enum RespondError {
    /// The record was built without a response channel.
    NoChannel,
    /// A previous attempt already consumed the channel.
    AlreadyResponded,
    /// The dispatcher stopped waiting before the attempt; the value
    /// was accepted nowhere.
    ChannelClosed,
}

/// The state of a record's response channel.
pub enum ChannelState {
    NoChannel,
    Ready,
    Consumed,
}

/// The channel state after one respond attempt: a ready channel is
/// consumed, every other state is left as it is.
pub open spec fn spec_state_after_respond(s: ChannelState) -> ChannelState {
    match s {
        ChannelState::Ready => ChannelState::Consumed,
        ChannelState::NoChannel => ChannelState::NoChannel,
        ChannelState::Consumed => ChannelState::Consumed,
    }
}

/// The single-use slot holding the sender half of the response
/// channel, together with the response it delivered, if any.
pub struct ResponseSlot {
    pub sender: Option<tokio::sync::oneshot::Sender<JsResponse>>,
    /// The response accepted by the channel so far, if any.
    pub delivered: Ghost<Option<JsResponse>>,
}

impl ResponseSlot {
    /// Wrap a fresh sender into a ready, empty slot.
    pub(crate) fn new(sender: tokio::sync::oneshot::Sender<JsResponse>) -> (r: ResponseSlot)
        ensures
            r.sender is Some,
            r.delivered@ is None,
    {
        ResponseSlot { sender: Some(sender), delivered: Ghost(None) }
    }
}

/// The request record: what the handler reads, plus the one mutating
/// operation `respond`.
pub struct RequestContext {
    pub method: String,
    pub url: String,
    pub headers: Vec<HeaderPair>,
    pub body: Option<Vec<u8>>,
    pub client_address: String,
    /// The embedded response slot; absent only on records built
    /// without a channel.
    pub response_sender: Option<ResponseSlot>,
}

/// The state of a record's response channel.
pub open spec fn channel_state(ctx: RequestContext) -> ChannelState {
    match ctx.response_sender {
        None => ChannelState::NoChannel,
        Some(slot) => if slot.sender is Some {
            ChannelState::Ready
        } else {
            ChannelState::Consumed
        },
    }
}

/// The response the record's channel has accepted so far, if any.
pub open spec fn spec_delivered(ctx: RequestContext) -> Option<JsResponse> {
    match ctx.response_sender {
        None => None,
        Some(slot) => slot.delivered@,
    }
}

/// The read-only part of two records agrees: everything but the
/// response slot.
pub open spec fn spec_same_request(a: RequestContext, b: RequestContext) -> bool {
    &&& a.method == b.method
    &&& a.url == b.url
    &&& a.headers == b.headers
    &&& a.body == b.body
    &&& a.client_address == b.client_address
}

impl RequestContext {
    /// The HTTP method.
    pub fn get_method(&self) -> (r: String)
        ensures
            r@ == self.method@,
    {
        self.method.clone()
    }

    /// The fully reconstructed absolute URL.
    pub fn get_url(&self) -> (r: String)
        ensures
            r@ == self.url@,
    {
        self.url.clone()
    }

    /// The headers, in wire order, duplicates preserved.
    pub fn get_headers(&self) -> (r: Vec<HeaderPair>)
        ensures
            r@.len() == self.headers@.len(),
            forall|i: int| 0 <= i < self.headers@.len() ==> {
                &&& #[trigger] r@[i].name@ == self.headers@[i].name@
                &&& r@[i].value@ == self.headers@[i].value@
            },
    {
        let mut out: Vec<HeaderPair> = Vec::new();
        let mut i: usize = 0;
        while i < self.headers.len()
            invariant
                i <= self.headers@.len(),
                out@.len() == i,
                forall|j: int| 0 <= j < i ==> {
                    &&& #[trigger] out@[j].name@ == self.headers@[j].name@
                    &&& out@[j].value@ == self.headers@[j].value@
                },
            decreases self.headers@.len() - i,
        {
            out.push(HeaderPair {
                name: self.headers[i].name.clone(),
                value: self.headers[i].value.clone(),
            });
            i = i + 1;
        }
        out
    }

    /// The body bytes, or nothing when the request carried none.
    pub fn get_body(&self) -> (r: Option<Vec<u8>>)
        ensures
            self.body is None ==> r is None,
            self.body matches Some(b) ==> r matches Some(rb) && rb@ == b@,
    {
        match &self.body {
            None => None,
            Some(b) => Some(b.clone()),
        }
    }

    /// The client's address, as text.
    pub fn get_client_address(&self) -> (r: String)
        ensures
            r@ == self.client_address@,
    {
        self.client_address.clone()
    }

    /// Deliver the one response of this request.  Exactly the first
    /// attempt consumes the channel; a second attempt is rejected, and
    /// a record without a channel rejects every attempt.  When the
    /// dispatcher has already stopped waiting, the channel is consumed
    /// but the value is accepted nowhere.
    pub fn respond(&mut self, response: JsResponse) -> (r: Result<(), RespondError>)
        ensures
            channel_state(*final(self)) == spec_state_after_respond(channel_state(*old(self))),
            channel_state(*old(self)) is NoChannel ==> r == Err::<(), RespondError>(
                RespondError::NoChannel,
            ) && *final(self) == *old(self),
            channel_state(*old(self)) is Consumed ==> r == Err::<(), RespondError>(
                RespondError::AlreadyResponded,
            ) && *final(self) == *old(self),
            channel_state(*old(self)) is Ready ==> {
                &&& r is Ok || r == Err::<(), RespondError>(RespondError::ChannelClosed)
                &&& r is Ok ==> spec_delivered(*final(self)) == Some(response)
                &&& r is Err ==> spec_delivered(*final(self)) == spec_delivered(*old(self))
                &&& spec_same_request(*old(self), *final(self))
            },
    {
        let ghost resp = response;
        match &mut self.response_sender {
            None => Err(RespondError::NoChannel),
            Some(slot) => match slot.sender.take() {
                None => Err(RespondError::AlreadyResponded),
                Some(s) => match s.send(response) {
                    Ok(()) => {
                        proof {
                            slot.delivered@ = Some(resp);
                        }
                        Ok(())
                    },
                    Err(_) => Err(RespondError::ChannelClosed),
                },
            },
        }
    }
}

/// Law: a request record answers at most once.  A respond attempt on a
/// ready channel consumes it; on a consumed channel every further
/// attempt leaves it consumed; attempts never revive a channel.
pub proof fn lemma_respond_at_most_once(s: ChannelState)
    ensures
        s is Ready ==> spec_state_after_respond(s) is Consumed,
        !(s is Ready) ==> spec_state_after_respond(s) == s,
        spec_state_after_respond(spec_state_after_respond(s)) == spec_state_after_respond(s),
{
}

} // verus!
