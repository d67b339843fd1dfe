//! Messages: an envelope of source and destination around a body, which
//! carries the two optional identifiers and a workload-defined payload.
use vstd::prelude::*;

verus! {

/// What a payload type must offer: the runtime copies payloads, prints them
/// in diagnostics and hands them between threads.
pub trait Payload: Clone + std::fmt::Debug + Send + 'static {

}

impl<P: Clone + std::fmt::Debug + Send + 'static> Payload for P {

}

/// The body of a message: its own id, the id of the message that it answers,
/// and the payload, whose fields sit beside the two ids on the wire.
#[derive(Debug, Clone, PartialEq, Eq)]
pub struct Body<P> {
    pub msg_id: Option<usize>,
    pub in_reply_to: Option<usize>,
    pub payload: P,
}

/// Builds a body step by step; both ids start out absent.
pub struct BodyBuilder<P> {
    msg_id: Option<usize>,
    in_reply_to: Option<usize>,
    payload: P,
}

impl<P> BodyBuilder<P> {
    /// The body that `build` would produce now.
    pub closed spec fn spec_body(&self) -> Body<P> {
        Body { msg_id: self.msg_id, in_reply_to: self.in_reply_to, payload: self.payload }
    }

    /// Starts a body around `payload`, with no ids.
    pub fn new(payload: P) -> (r: Self)
        ensures
            r.spec_body() == (Body { msg_id: None, in_reply_to: None, payload }),
    {
        BodyBuilder { msg_id: None, in_reply_to: None, payload }
    }

    /// Sets the body's own id.
    pub fn msg_id(self, msg_id: usize) -> (r: Self)
        ensures
            r.spec_body() == (Body { msg_id: Some(msg_id), ..self.spec_body() }),
    {
        BodyBuilder { msg_id: Some(msg_id), ..self }
    }

    /// Sets the id of the message that the body answers.
    pub fn in_reply_to(self, in_reply_to: usize) -> (r: Self)
        ensures
            r.spec_body() == (Body { in_reply_to: Some(in_reply_to), ..self.spec_body() }),
    {
        BodyBuilder { in_reply_to: Some(in_reply_to), ..self }
    }

    /// The finished body.
    pub fn build(self) -> (r: Body<P>)
        ensures
            r == self.spec_body(),
    {
        Body { msg_id: self.msg_id, in_reply_to: self.in_reply_to, payload: self.payload }
    }
}

/// A message: where it comes from, where it goes, and its body.
#[derive(Debug, Clone, PartialEq, Eq)]
pub struct Message<P> {
    pub src: String,
    pub dest: String,
    pub body: Body<P>,
}

/// The id that the convenience reply derives from a request's id: one more
/// than it, or none where the request has none.
pub open spec fn next_msg_id(id: Option<usize>) -> Option<usize> {
    match id {
        Some(n) => Some((n + 1) as usize),
        None => None,
    }
}

/// The reply to `request` that carries `payload` and the id `msg_id`: source
/// and destination swapped, and `in_reply_to` the request's own id.
pub open spec fn reply_with_id<P>(request: Message<P>, payload: P, msg_id: Option<usize>) -> Message<P> {
    Message {
        src: request.dest,
        dest: request.src,
        body: Body { msg_id, in_reply_to: request.body.msg_id, payload },
    }
}

/// Every reply goes back where its request came from and answers it: source
/// and destination are the request's, swapped, and `in_reply_to` is the
/// request's `msg_id`, whatever id and payload the reply carries.
pub proof fn law_reply_answers_request<P>(request: Message<P>, payload: P, msg_id: Option<usize>)
    ensures
        reply_with_id(request, payload, msg_id).src == request.dest,
        reply_with_id(request, payload, msg_id).dest == request.src,
        reply_with_id(request, payload, msg_id).body.in_reply_to == request.body.msg_id,
        reply_with_id(request, payload, msg_id).body.msg_id == msg_id,
        reply_with_id(request, payload, msg_id).body.payload == payload,
{
}

/// Whether the convenience reply to `request` can derive its id: a request id
/// of `usize::MAX` has no successor.
pub open spec fn can_derive_reply_id<P>(request: Message<P>) -> bool {
    request.body.msg_id matches Some(n) ==> n < usize::MAX
}

impl<P> Message<P> {
    /// Builds a message from its parts.
    pub fn new(src: &str, dest: &str, body: Body<P>) -> (r: Self)
        ensures
            r.src@ == src@,
            r.dest@ == dest@,
            r.body == body,
    {
        Message { src: src.to_owned(), dest: dest.to_owned(), body }
    }

    /// The reply to this message with `payload`, whose id is one more than
    /// this message's id (none where this message has none).
    pub fn into_reply(self, payload: P) -> (r: Self)
        requires
            can_derive_reply_id(self),
        ensures
            r == reply_with_id(self, payload, next_msg_id(self.body.msg_id)),
            r.src == self.dest,
            r.dest == self.src,
            r.body.in_reply_to == self.body.msg_id,
    {
        let next_id = match self.body.msg_id {
            Some(id) => Some(id + 1),
            None => None,
        };
        self.into_reply_with_id(payload, next_id)
    }

    /// The reply to this message with `payload` and the id `msg_id`.
    pub fn into_reply_with_id(self, payload: P, msg_id: Option<usize>) -> (r: Self)
        ensures
            r == reply_with_id(self, payload, msg_id),
            r.src == self.dest,
            r.dest == self.src,
            r.body.in_reply_to == self.body.msg_id,
    {
        Message {
            src: self.dest,
            dest: self.src,
            body: Body { msg_id, in_reply_to: self.body.msg_id, payload },
        }
    }
}

/// The runtime's own payload: the harness's `init` and the node's `init_ok`.
#[derive(Debug, Clone, PartialEq, Eq)]
pub enum Init {
    Init { node_id: String, node_ids: Vec<String> },
    InitOk,
}

} // verus!
