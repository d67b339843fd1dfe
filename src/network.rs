//! The network façade's state: the registry of RPCs that await their
//! replies, the receive halves of their one-shot channels, and the queue of
//! outbound messages in the order in which they were sent.
//!
//! All operations here are the atomic steps of the façade: a caller that
//! shares one `Network` between threads runs each under one lock.
use vstd::prelude::*;
use std::collections::HashMap;
use std::collections::VecDeque;
use crate::types::Message;

verus! {

broadcast use vstd::std_specs::hash::group_hash_axioms;

/// The receive half of an RPC's one-shot channel, as the façade names it.
pub type Handle = u64;

/// Why a send or an RPC failed.
#[derive(Clone, Copy, Debug, PartialEq, Eq, Structural)]
pub enum NetworkError {
    /// The outbound channel is closed.
    SendFailed,
    /// An RPC request carries no `msg_id`.
    MissingMsgId,
    /// An RPC with this `msg_id` is still registered: its reply has not come.
    DuplicateMsgId,
}

/// What a receiver finds when it looks for its reply.
#[derive(Debug, PartialEq, Eq)]
pub enum ReplyState<P> {
    /// The reply, which is handed out once.
    Ready(Message<P>),
    /// No reply yet: the receiver may wait.
    Pending,
    /// No reply will come: the channel was already drained or given up.
    Closed,
}

/// What the outbound side finds next.
#[derive(Debug, PartialEq, Eq)]
pub enum Outbound<P> {
    /// The oldest message not yet written.
    Write(Message<P>),
    /// Nothing queued; more may come.
    Idle,
    /// Nothing queued and the channel is closed: nothing more will come.
    Finished,
}

/// The abstract state of a network façade.
pub struct NetworkView<P> {
    /// The registry: each `msg_id` whose reply has not come, with the handle
    /// of the channel on which it goes.
    pub callbacks: Map<usize, Handle>,
    /// The receive halves still held: empty (`None`) or holding the reply.
    pub receivers: Map<Handle, Option<Message<P>>>,
    /// The handle that the next RPC gets.
    pub next_handle: Handle,
    /// Messages sent and not yet taken by the writer, oldest first.
    pub outbound: Seq<Message<P>>,
    /// Whether the outbound channel is closed.
    pub closed: bool,
}

impl<P> NetworkView<P> {
    /// Every handle held was issued already, so the next one is in no use.
    pub open spec fn wf(self) -> bool {
        forall|h: Handle| #[trigger] self.receivers.contains_key(h) ==> h < self.next_handle
    }

    /// Whether an RPC with `id` is registered and awaits its reply.
    pub open spec fn registered(self, id: usize) -> bool {
        self.callbacks.contains_key(id)
    }

    /// Whether another RPC can be issued: handles are not used up.
    pub open spec fn can_issue(self) -> bool {
        self.next_handle < u64::MAX
    }

    /// Sending `msg`: queued unless the channel is closed.
    pub open spec fn send(self, msg: Message<P>) -> (Self, Result<(), NetworkError>) {
        if self.closed {
            (self, Err(NetworkError::SendFailed))
        } else {
            (NetworkView { outbound: self.outbound.push(msg), ..self }, Ok(()))
        }
    }

    /// Issuing `msg` as an RPC: a fresh channel is made, its sending half is
    /// registered under the message's `msg_id`, then the message is sent.
    pub open spec fn rpc(self, msg: Message<P>) -> (Self, Result<Handle, NetworkError>) {
        match msg.body.msg_id {
            None => (self, Err(NetworkError::MissingMsgId)),
            Some(id) => if self.registered(id) {
                (self, Err(NetworkError::DuplicateMsgId))
            } else if self.closed {
                (self, Err(NetworkError::SendFailed))
            } else {
                (
                    NetworkView {
                        callbacks: self.callbacks.insert(id, self.next_handle),
                        receivers: self.receivers.insert(self.next_handle, None),
                        next_handle: (self.next_handle + 1) as Handle,
                        outbound: self.outbound.push(msg),
                        ..self
                    },
                    Ok(self.next_handle),
                )
            },
        }
    }

    /// Routing an inbound `msg`: a reply to a registered RPC ends that
    /// registration; if the RPC's receiver is still held and empty, the reply
    /// goes into it and is consumed (`None`). Any other message is handed
    /// back, as is a reply whose receiver was dropped.
    pub open spec fn check_callback(self, msg: Message<P>) -> (Self, Option<Message<P>>) {
        match msg.body.in_reply_to {
            None => (self, Some(msg)),
            Some(k) => if !self.registered(k) {
                (self, Some(msg))
            } else {
                let h = self.callbacks[k];
                let callbacks = self.callbacks.remove(k);
                if self.receivers.contains_key(h) && self.receivers[h] is None {
                    (
                        NetworkView { callbacks, receivers: self.receivers.insert(h, Some(msg)), ..self },
                        None,
                    )
                } else {
                    (NetworkView { callbacks, ..self }, Some(msg))
                }
            },
        }
    }

    /// Receiving on the channel `h`: a delivered reply is handed out and the
    /// receiver is used up.
    pub open spec fn recv(self, h: Handle) -> (Self, ReplyState<P>) {
        if !self.receivers.contains_key(h) {
            (self, ReplyState::Closed)
        } else {
            match self.receivers[h] {
                Some(m) => (NetworkView { receivers: self.receivers.remove(h), ..self }, ReplyState::Ready(m)),
                None => (self, ReplyState::Pending),
            }
        }
    }

    /// Dropping the receiver `h`. Its registration, if any, stays until the
    /// reply comes; a delivered reply that nobody received is dropped.
    pub open spec fn abandon(self, h: Handle) -> Self {
        NetworkView { receivers: self.receivers.remove(h), ..self }
    }

    /// Taking the next outbound message, oldest first.
    pub open spec fn next_outbound(self) -> (Self, Outbound<P>) {
        if self.outbound.len() > 0 {
            (
                NetworkView { outbound: self.outbound.subrange(1, self.outbound.len() as int), ..self },
                Outbound::Write(self.outbound[0]),
            )
        } else if self.closed {
            (self, Outbound::Finished)
        } else {
            (self, Outbound::Idle)
        }
    }

    /// Closing the outbound channel: later sends fail, queued messages stay.
    pub open spec fn close(self) -> Self {
        NetworkView { closed: true, ..self }
    }

    /// Sending each of `msgs` in turn, ignoring the results.
    pub open spec fn send_all(self, msgs: Seq<Message<P>>) -> Self
        decreases msgs.len(),
    {
        if msgs.len() == 0 {
            self
        } else {
            self.send(msgs[0]).0.send_all(msgs.subrange(1, msgs.len() as int))
        }
    }

    /// The messages that `n` successive takes of the outbound side write.
    pub open spec fn written(self, n: nat) -> Seq<Message<P>>
        decreases n,
    {
        if n == 0 {
            Seq::empty()
        } else {
            match self.next_outbound() {
                (next, Outbound::Write(m)) => seq![m] + next.written((n - 1) as nat),
                _ => Seq::empty(),
            }
        }
    }
}

/// A step that issues no handle and adds no receiver keeps every handle
/// held an issued one.
proof fn lemma_wf_kept<P>(a: NetworkView<P>, b: NetworkView<P>)
    requires
        a.wf(),
        b.next_handle == a.next_handle,
        b.receivers.dom().subset_of(a.receivers.dom()),
    ensures
        b.wf(),
{
    assert forall|h: Handle| #[trigger] b.receivers.contains_key(h) implies h < b.next_handle by {
        assert(a.receivers.dom().contains(h));
    }
}

/// The network façade: fire-and-forget sends, RPCs whose replies are routed
/// back through a registry keyed by `msg_id`, and the outbound queue.
pub struct Network<P> {
    callbacks: HashMap<usize, Handle>,
    receivers: HashMap<Handle, Option<Message<P>>>,
    next_handle: Handle,
    outbound: VecDeque<Message<P>>,
    closed: bool,
}

impl<P> View for Network<P> {
    type V = NetworkView<P>;

    closed spec fn view(&self) -> NetworkView<P> {
        NetworkView {
            callbacks: self.callbacks@,
            receivers: self.receivers@,
            next_handle: self.next_handle,
            outbound: self.outbound@,
            closed: self.closed,
        }
    }
}

impl<P> Network<P> {
    /// A façade with no RPC, nothing queued, and an open channel.
    pub fn new() -> (r: Self)
        ensures
            r@.callbacks == Map::<usize, Handle>::empty(),
            r@.receivers == Map::<Handle, Option<Message<P>>>::empty(),
            r@.next_handle == 0,
            r@.outbound == Seq::<Message<P>>::empty(),
            !r@.closed,
            r@.wf(),
    {
        Network {
            callbacks: HashMap::new(),
            receivers: HashMap::new(),
            next_handle: 0,
            outbound: VecDeque::new(),
            closed: false,
        }
    }

    /// Sends `msg`; fails with `SendFailed` if the channel is closed.
    pub fn send(&mut self, msg: Message<P>) -> (r: Result<(), NetworkError>)
        ensures
            (final(self)@, r) == old(self)@.send(msg),
            old(self)@.wf() ==> final(self)@.wf(),
    {
        proof {
            if old(self)@.wf() {
                lemma_wf_kept(old(self)@, old(self)@.send(msg).0);
            }
        }
        if self.closed {
            return Err(NetworkError::SendFailed);
        }
        self.outbound.push_back(msg);
        Ok(())
    }

    /// Whether another RPC can be issued; false only once `u64::MAX`
    /// handles have been handed out.
    pub fn can_issue_rpc(&self) -> (r: bool)
        ensures
            r == self@.can_issue(),
    {
        self.next_handle < u64::MAX
    }

    /// Issues `msg` as an RPC. In one step it makes a one-shot channel,
    /// registers its sending half under the message's `msg_id`, and sends the
    /// message, so that the reply cannot come before anyone waits for it. The
    /// result is the channel's receive half, a handle that no receiver held
    /// before. Fails, changing nothing, with `MissingMsgId` if the message has
    /// no id, `DuplicateMsgId` if an RPC with that id is registered, and
    /// `SendFailed` if the channel is closed.
    pub fn rpc(&mut self, msg: Message<P>) -> (r: Result<Handle, NetworkError>)
        requires
            old(self)@.can_issue(),
        ensures
            (final(self)@, r) == old(self)@.rpc(msg),
            old(self)@.wf() ==> final(self)@.wf(),
            old(self)@.wf() ==> (r matches Ok(h) ==> !old(self)@.receivers.contains_key(h)),
    {
        let id = match msg.body.msg_id {
            Some(id) => id,
            None => return Err(NetworkError::MissingMsgId),
        };
        if self.callbacks.contains_key(&id) {
            return Err(NetworkError::DuplicateMsgId);
        }
        if self.closed {
            return Err(NetworkError::SendFailed);
        }
        let h = self.next_handle;
        self.next_handle = h + 1;
        self.callbacks.insert(id, h);
        self.receivers.insert(h, None);
        self.outbound.push_back(msg);
        Ok(h)
    }

    /// Routes an inbound message. If it answers a registered RPC, that
    /// registration ends; if the RPC's receiver is held and empty, the reply
    /// goes into it and `None` comes back: it is consumed. Otherwise the
    /// message comes back for regular dispatch.
    pub fn check_callback(&mut self, msg: Message<P>) -> (r: Option<Message<P>>)
        ensures
            (final(self)@, r) == old(self)@.check_callback(msg),
            old(self)@.wf() ==> final(self)@.wf(),
    {
        let k = match msg.body.in_reply_to {
            Some(k) => k,
            None => return Some(msg),
        };
        let h = match self.callbacks.remove(&k) {
            Some(h) => h,
            None => {
                proof {
                    assert(self.callbacks@ =~= old(self).callbacks@);
                }
                return Some(msg);
            },
        };
        match self.receivers.remove(&h) {
            Some(None) => {
                self.receivers.insert(h, Some(msg));
                proof {
                    assert(self.receivers@ =~= old(self).receivers@.insert(h, Some(msg)));
                }
                None
            },
            Some(Some(earlier)) => {
                self.receivers.insert(h, Some(earlier));
                proof {
                    assert(self.receivers@ =~= old(self).receivers@);
                }
                Some(msg)
            },
            None => {
                proof {
                    assert(self.receivers@ =~= old(self).receivers@);
                }
                Some(msg)
            },
        }
    }

    /// Receives on the channel `h`: the reply if it has come, which uses the
    /// receiver up; `Pending` if it may still come; `Closed` if `h` is held
    /// by no receiver.
    pub fn recv(&mut self, h: Handle) -> (r: ReplyState<P>)
        ensures
            (final(self)@, r) == old(self)@.recv(h),
            old(self)@.wf() ==> final(self)@.wf(),
    {
        proof {
            if old(self)@.wf() {
                lemma_wf_kept(old(self)@, old(self)@.recv(h).0);
            }
        }
        match self.receivers.remove(&h) {
            None => {
                proof {
                    assert(self.receivers@ =~= old(self).receivers@);
                }
                ReplyState::Closed
            },
            Some(Some(m)) => ReplyState::Ready(m),
            Some(None) => {
                self.receivers.insert(h, None);
                proof {
                    assert(self.receivers@ =~= old(self).receivers@);
                }
                ReplyState::Pending
            },
        }
    }

    /// Drops the receiver `h`. A registration that still waits for its reply
    /// stays until the reply comes, which is then handed back as a regular
    /// message; a delivered reply that nobody received is dropped.
    pub fn abandon(&mut self, h: Handle)
        ensures
            final(self)@ == old(self)@.abandon(h),
            old(self)@.wf() ==> final(self)@.wf(),
    {
        proof {
            if old(self)@.wf() {
                lemma_wf_kept(old(self)@, old(self)@.abandon(h));
            }
        }
        self.receivers.remove(&h);
    }

    /// Whether an RPC with `id` is registered and awaits its reply.
    pub fn is_registered(&self, id: usize) -> (r: bool)
        ensures
            r == self@.registered(id),
    {
        self.callbacks.contains_key(&id)
    }

    /// Takes the oldest outbound message; says `Finished` only when nothing
    /// is queued and the channel is closed.
    pub fn next_outbound(&mut self) -> (r: Outbound<P>)
        ensures
            (final(self)@, r) == old(self)@.next_outbound(),
            old(self)@.wf() ==> final(self)@.wf(),
    {
        match self.outbound.pop_front() {
            Some(m) => Outbound::Write(m),
            None => if self.closed {
                Outbound::Finished
            } else {
                Outbound::Idle
            },
        }
    }

    /// Closes the outbound channel. Messages already queued stay, to be
    /// written; later sends and RPCs fail.
    pub fn close(&mut self)
        ensures
            final(self)@ == old(self)@.close(),
            old(self)@.wf() ==> final(self)@.wf(),
    {
        proof {
            if old(self)@.wf() {
                lemma_wf_kept(old(self)@, old(self)@.close());
            }
        }
        self.closed = true;
    }

    /// Whether the outbound channel is closed.
    pub fn is_closed(&self) -> (r: bool)
        ensures
            r == self@.closed,
    {
        self.closed
    }
}

/// Sending on an open channel appends to the outbound queue, in order.
proof fn lemma_send_all_appends<P>(v: NetworkView<P>, msgs: Seq<Message<P>>)
    requires
        !v.closed,
    ensures
        v.send_all(msgs).outbound == v.outbound + msgs,
        !v.send_all(msgs).closed,
    decreases msgs.len(),
{
    if msgs.len() > 0 {
        let next = v.send(msgs[0]).0;
        lemma_send_all_appends(next, msgs.subrange(1, msgs.len() as int));
        assert(next.outbound + msgs.subrange(1, msgs.len() as int) =~= v.outbound + msgs);
    } else {
        assert(v.outbound + msgs =~= v.outbound);
    }
}

/// Taking as many messages as are queued writes exactly the queue, in order.
proof fn lemma_written_is_queue<P>(v: NetworkView<P>)
    ensures
        v.written(v.outbound.len()) == v.outbound,
    decreases v.outbound.len(),
{
    if v.outbound.len() > 0 {
        let next = v.next_outbound().0;
        lemma_written_is_queue(next);
        assert(seq![v.outbound[0]] + next.outbound =~= v.outbound);
    } else {
        assert(v.written(0) =~= v.outbound);
    }
}

/// Outbound messages are written in the order in which they were sent: on
/// an open channel, sending `msgs` one after another and then taking from
/// the outbound side writes what was queued before, then `msgs`, in order.
pub proof fn law_outbound_order<P>(v: NetworkView<P>, msgs: Seq<Message<P>>)
    requires
        !v.closed,
    ensures
        v.send_all(msgs).written(v.outbound.len() + msgs.len()) == v.outbound + msgs,
{
    lemma_send_all_appends(v, msgs);
    lemma_written_is_queue(v.send_all(msgs));
}

/// The state after `n` successive takes of the outbound side.
pub open spec fn taken<P>(v: NetworkView<P>, n: nat) -> NetworkView<P>
    decreases n,
{
    if n == 0 {
        v
    } else {
        taken(v.next_outbound().0, (n - 1) as nat)
    }
}

/// Taking `n` messages, no more than are queued, leaves the rest queued.
proof fn lemma_taken<P>(v: NetworkView<P>, n: nat)
    requires
        n <= v.outbound.len(),
    ensures
        taken(v, n) == (NetworkView { outbound: v.outbound.subrange(n as int, v.outbound.len() as int), ..v }),
    decreases n,
{
    if n == 0 {
        assert(v.outbound.subrange(0, v.outbound.len() as int) =~= v.outbound);
    } else {
        let next = v.next_outbound().0;
        lemma_taken(next, (n - 1) as nat);
        assert(next.outbound.subrange((n - 1) as int, next.outbound.len() as int)
            =~= v.outbound.subrange(n as int, v.outbound.len() as int));
    }
}

/// Closing flushes: once the channel is closed nothing more can be sent,
/// every message already queued is still written, in order, and only after
/// the last of them does the outbound side finish.
pub proof fn law_close_flushes<P>(v: NetworkView<P>, m: Message<P>)
    ensures
        v.close().send(m).1 == Err::<(), NetworkError>(NetworkError::SendFailed),
        v.close().written(v.outbound.len()) == v.outbound,
        forall|n: nat| n < v.outbound.len() ==> (#[trigger] taken(v.close(), n)).next_outbound().1 is Write,
        taken(v.close(), v.outbound.len()).next_outbound().1 is Finished,
{
    lemma_written_is_queue(v.close());
    lemma_taken(v.close(), v.outbound.len());
    assert forall|n: nat| n < v.outbound.len() implies (#[trigger] taken(v.close(), n)).next_outbound().1 is Write by {
        lemma_taken(v.close(), n);
    }
}

/// A reply to a registered RPC whose receiver waits is delivered exactly
/// once: routing it consumes it and ends the registration, the receiver then
/// gets it, after which its channel is closed; a second reply to the same id
/// is not consumed, neither before the receive nor after it.
pub proof fn law_reply_delivered_once<P>(
    v: NetworkView<P>,
    k: usize,
    reply: Message<P>,
    later: Message<P>,
)
    requires
        v.registered(k),
        v.receivers.contains_key(v.callbacks[k]),
        v.receivers[v.callbacks[k]] is None,
        reply.body.in_reply_to == Some(k),
        later.body.in_reply_to == Some(k),
    ensures
        v.check_callback(reply).1 is None,
        !v.check_callback(reply).0.registered(k),
        v.check_callback(reply).0.check_callback(later) == (v.check_callback(reply).0, Some(later)),
        v.check_callback(reply).0.recv(v.callbacks[k]).1 == ReplyState::Ready(reply),
        v.check_callback(reply).0.recv(v.callbacks[k]).0.recv(v.callbacks[k]).1 is Closed,
        v.check_callback(reply).0.recv(v.callbacks[k]).0.check_callback(later).1 == Some(later),
{
}

/// Once the reply to `k` is routed, `k` may be used for a new RPC at once,
/// before the first reply is received; the new RPC gets a new channel and
/// the first reply stays in the first one.
pub proof fn law_id_reusable_after_reply<P>(
    v: NetworkView<P>,
    k: usize,
    reply: Message<P>,
    request: Message<P>,
)
    requires
        v.wf(),
        !v.closed,
        v.registered(k),
        v.receivers.contains_key(v.callbacks[k]),
        v.receivers[v.callbacks[k]] is None,
        reply.body.in_reply_to == Some(k),
        request.body.msg_id == Some(k),
    ensures
        v.check_callback(reply).0.rpc(request).1 == Ok::<Handle, NetworkError>(v.next_handle),
        v.next_handle != v.callbacks[k],
        v.check_callback(reply).0.rpc(request).0.registered(k),
        v.check_callback(reply).0.rpc(request).0.recv(v.callbacks[k]).1 == ReplyState::Ready(reply),
{
}

/// A reply that arrives before its receiver asks for it is kept: a receive
/// tried before the reply finds it pending and changes nothing, and one
/// tried after it gets the reply, whatever was sent in between.
pub proof fn law_early_reply_kept<P>(
    v: NetworkView<P>,
    k: usize,
    reply: Message<P>,
    sent: Seq<Message<P>>,
)
    requires
        v.registered(k),
        v.receivers.contains_key(v.callbacks[k]),
        v.receivers[v.callbacks[k]] is None,
        reply.body.in_reply_to == Some(k),
    ensures
        v.recv(v.callbacks[k]) == (v, ReplyState::<P>::Pending),
        v.check_callback(reply).0.send_all(sent).recv(v.callbacks[k]).1 == ReplyState::Ready(reply),
{
    lemma_send_all_keeps_receivers(v.check_callback(reply).0, sent);
}

/// Sends leave the registry and the receivers alone.
proof fn lemma_send_all_keeps_receivers<P>(v: NetworkView<P>, msgs: Seq<Message<P>>)
    ensures
        v.send_all(msgs).receivers == v.receivers,
        v.send_all(msgs).callbacks == v.callbacks,
    decreases msgs.len(),
{
    if msgs.len() > 0 {
        lemma_send_all_keeps_receivers(v.send(msgs[0]).0, msgs.subrange(1, msgs.len() as int));
    }
}

/// Routing a reply to one RPC neither needs nor touches any other RPC: a
/// reply to `k`, whose receiver waits, is delivered whatever state the other
/// RPCs are in (their receivers may be blocked); only `k`'s registration
/// and `k`'s receiver change.
pub proof fn law_routing_isolated<P>(v: NetworkView<P>, k: usize, reply: Message<P>)
    requires
        v.registered(k),
        v.receivers.contains_key(v.callbacks[k]),
        v.receivers[v.callbacks[k]] is None,
        reply.body.in_reply_to == Some(k),
    ensures
        v.check_callback(reply).1 is None,
        v.check_callback(reply).0.callbacks == v.callbacks.remove(k),
        v.check_callback(reply).0.receivers == v.receivers.insert(v.callbacks[k], Some(reply)),
        v.check_callback(reply).0.outbound == v.outbound,
{
}

} // verus!
