//! The decisions of the message pump: the init handshake, the end-of-input
//! sentinel, routing inbound messages between pending RPCs and the node's
//! handler, and the queue of messages that await the handler.
//!
//! The threads that read standard input, write standard output and run the
//! handler live outside this library; each of their steps is one call here.
use vstd::prelude::*;
use vstd::string::StrSliceExecFns;
use std::collections::VecDeque;
use crate::network::{Network, NetworkView, Outbound};
use crate::types::{Body, Init, Message, reply_with_id};

verus! {

/// The line that ends the input: `EOI`.
pub open spec fn sentinel() -> Seq<char> {
    seq!['E', 'O', 'I']
}

/// Whether `ids` holds `id`.
pub open spec fn roster_contains(ids: Seq<String>, id: Seq<char>) -> bool {
    exists|i: int| 0 <= i < ids.len() && #[trigger] ids[i]@ == id
}

/// Why the first message could not start the node.
#[derive(Clone, Copy, Debug, PartialEq, Eq, Structural)]
pub enum InitError {
    /// The first message is not an `init`.
    NotInit,
    /// The `init` names a node that its own roster lacks.
    NotInRoster,
}

/// What a successful handshake yields: the node's identity, the whole
/// roster, and the `init_ok` that must be written before anything else.
#[derive(Debug, PartialEq, Eq)]
pub struct Handshake {
    pub node_id: String,
    pub node_ids: Vec<String>,
    pub reply: Message<Init>,
}

/// What became of a dispatched message.
#[derive(Clone, Copy, Debug, PartialEq, Eq, Structural)]
pub enum Dispatched {
    /// An RPC awaiting it took it as its reply.
    Consumed,
    /// It joined the handler's queue.
    Queued,
    /// The input had ended: it was dropped unseen.
    Ignored,
}

/// Dispatching `msg` from the pump state `rt` against the network `net`.
/// Once the input has ended nothing is routed or queued any more; before,
/// the network routes the message and what it hands back joins the end of
/// the handler's queue.
pub open spec fn dispatch_step<P>(
    rt: RuntimeView<P>,
    net: NetworkView<P>,
    msg: Message<P>,
) -> (RuntimeView<P>, NetworkView<P>, Dispatched) {
    if rt.input_closed {
        (rt, net, Dispatched::Ignored)
    } else {
        let (next_net, routed) = net.check_callback(msg);
        match routed {
            Some(m) => (rt.enqueue(Some(m)), next_net, Dispatched::Queued),
            None => (rt, next_net, Dispatched::Consumed),
        }
    }
}

/// What the handler thread does next.
#[derive(Debug, PartialEq, Eq)]
pub enum HandlerStep<P> {
    /// Handle this message.
    Deliver(Message<P>),
    /// Nothing queued yet; wait for more input.
    Wait,
    /// Nothing queued and the input has ended: stop.
    Finished,
}

/// The abstract state of the pump.
pub struct RuntimeView<P> {
    /// Messages routed to the handler and not yet handed to it, oldest first.
    pub inbox: Seq<Message<P>>,
    /// Whether the input has ended.
    pub input_closed: bool,
}

impl<P> RuntimeView<P> {
    /// Queueing for the handler what `check_callback` handed back, if
    /// anything.
    pub open spec fn enqueue(self, routed: Option<Message<P>>) -> Self {
        match routed {
            Some(m) => RuntimeView { inbox: self.inbox.push(m), ..self },
            None => self,
        }
    }

    /// Taking the handler's next step: the oldest queued message first.
    pub open spec fn next_message(self) -> (Self, HandlerStep<P>) {
        if self.inbox.len() > 0 {
            (
                RuntimeView { inbox: self.inbox.subrange(1, self.inbox.len() as int), ..self },
                HandlerStep::Deliver(self.inbox[0]),
            )
        } else if self.input_closed {
            (self, HandlerStep::Finished)
        } else {
            (self, HandlerStep::Wait)
        }
    }
}

/// The pump's state between the dispatcher and the handler.
pub struct Runtime<P> {
    inbox: VecDeque<Message<P>>,
    input_closed: bool,
}

impl<P> View for Runtime<P> {
    type V = RuntimeView<P>;

    closed spec fn view(&self) -> RuntimeView<P> {
        RuntimeView { inbox: self.inbox@, input_closed: self.input_closed }
    }
}

/// Whether `ids` holds `id`.
fn roster_has(ids: &Vec<String>, id: &String) -> (r: bool)
    ensures
        r == roster_contains(ids@, id@),
{
    let mut i: usize = 0;
    while i < ids.len()
        invariant
            i <= ids@.len(),
            forall|j: int| 0 <= j < i ==> ids@[j]@ != id@,
        decreases ids@.len() - i,
    {
        if ids[i] == *id {
            return true;
        }
        i = i + 1;
    }
    false
}

impl<P> Runtime<P> {
    /// A pump with nothing queued and the input open.
    pub fn new() -> (r: Self)
        ensures
            r@.inbox == Seq::<Message<P>>::empty(),
            !r@.input_closed,
    {
        Runtime { inbox: VecDeque::new(), input_closed: false }
    }

    /// Starts the node from the first inbound message. It must be an `init`
    /// whose roster holds the node's own id; the `init_ok` reply goes back to
    /// its sender, answers its `msg_id`, and carries no id of its own.
    pub fn handshake(init: Message<Init>) -> (r: Result<Handshake, InitError>)
        ensures
            match init.body.payload {
                Init::Init { node_id, node_ids } => match r {
                    Ok(h) => {
                        &&& roster_contains(node_ids@, node_id@)
                        &&& h.node_id == node_id
                        &&& h.node_ids@ == node_ids@
                        &&& h.reply == reply_with_id(init, Init::InitOk, None)
                    },
                    Err(e) => e == InitError::NotInRoster && !roster_contains(node_ids@, node_id@),
                },
                Init::InitOk => r == Err::<Handshake, InitError>(InitError::NotInit),
            },
    {
        let Message { src, dest, body } = init;
        let Body { msg_id, in_reply_to: _, payload } = body;
        match payload {
            Init::Init { node_id, node_ids } => {
                if !roster_has(&node_ids, &node_id) {
                    return Err(InitError::NotInRoster);
                }
                let reply = Message {
                    src: dest,
                    dest: src,
                    body: Body { msg_id: None, in_reply_to: msg_id, payload: Init::InitOk },
                };
                Ok(Handshake { node_id, node_ids, reply })
            },
            Init::InitOk => Err(InitError::NotInit),
        }
    }

    /// Whether an input line is the sentinel that ends the input.
    pub fn is_sentinel(line: &str) -> (r: bool)
        ensures
            r == (line@ == sentinel()),
    {
        let n = line.unicode_len();
        if n != 3 {
            return false;
        }
        let a = line.get_char(0);
        let b = line.get_char(1);
        let c = line.get_char(2);
        let r = a == 'E' && b == 'O' && c == 'I';
        proof {
            if r {
                assert(line@ =~= sentinel());
            }
        }
        r
    }

    /// Dispatches an inbound message. While the input is open, the network
    /// routes it to the RPC that awaits it, if any, and otherwise it joins the
    /// end of the handler's queue. After the end of the input it is ignored:
    /// neither state changes.
    pub fn dispatch(&mut self, network: &mut Network<P>, msg: Message<P>) -> (r: Dispatched)
        ensures
            (final(self)@, final(network)@, r) == dispatch_step(old(self)@, old(network)@, msg),
    {
        if self.input_closed {
            return Dispatched::Ignored;
        }
        match network.check_callback(msg) {
            Some(m) => {
                self.inbox.push_back(m);
                Dispatched::Queued
            },
            None => Dispatched::Consumed,
        }
    }

    /// Marks the end of the input: the sentinel or the end of the stream.
    /// Messages already queued are still handed to the handler.
    pub fn end_input(&mut self)
        ensures
            final(self)@ == (RuntimeView { input_closed: true, ..old(self)@ }),
    {
        self.input_closed = true;
    }

    /// The handler's next step: the oldest queued message, else wait while
    /// the input is open, else finish.
    pub fn next_message(&mut self) -> (r: HandlerStep<P>)
        ensures
            (final(self)@, r) == old(self)@.next_message(),
    {
        match self.inbox.pop_front() {
            Some(m) => HandlerStep::Deliver(m),
            None => if self.input_closed {
                HandlerStep::Finished
            } else {
                HandlerStep::Wait
            },
        }
    }
}

/// What the writer does next.
#[derive(Debug, PartialEq, Eq)]
pub enum WriterStep<P> {
    /// Write the handshake's `init_ok`.
    InitOk(Message<Init>),
    /// Write this outbound message.
    Write(Message<P>),
    /// Nothing to write yet; wait.
    Idle,
    /// Nothing to write and the outbound channel is closed: stop.
    Finished,
}

/// The writer's step, given the `init_ok` not yet written (if any) and the
/// network's state: the `init_ok` before everything else, then the outbound
/// queue in order. Yields the `init_ok` still pending after the step and the
/// network's new state.
pub open spec fn writer_step<P>(
    init_ok: Option<Message<Init>>,
    net: NetworkView<P>,
) -> (Option<Message<Init>>, NetworkView<P>, WriterStep<P>) {
    match init_ok {
        Some(m) => (None, net, WriterStep::InitOk(m)),
        None => match net.next_outbound() {
            (next, Outbound::Write(m)) => (None, next, WriterStep::Write(m)),
            (next, Outbound::Idle) => (None, next, WriterStep::Idle),
            (next, Outbound::Finished) => (None, next, WriterStep::Finished),
        },
    }
}

/// The outbound side of the pump: it writes the handshake's `init_ok` first,
/// then every message sent on the network, in order.
pub struct Writer {
    init_ok: Option<Message<Init>>,
}

impl Writer {
    /// The `init_ok` not yet written, if any.
    pub closed spec fn pending_init_ok(&self) -> Option<Message<Init>> {
        self.init_ok
    }

    /// A writer whose first step writes `init_ok`.
    pub fn new(init_ok: Message<Init>) -> (r: Self)
        ensures
            r.pending_init_ok() == Some(init_ok),
    {
        Writer { init_ok: Some(init_ok) }
    }

    /// The writer's next step; it takes the message it writes off the queue.
    pub fn next_step<P>(&mut self, network: &mut Network<P>) -> (r: WriterStep<P>)
        ensures
            (final(self).pending_init_ok(), final(network)@, r)
                == writer_step(old(self).pending_init_ok(), old(network)@),
    {
        match self.init_ok.take() {
            Some(m) => WriterStep::InitOk(m),
            None => match network.next_outbound() {
                Outbound::Write(m) => WriterStep::Write(m),
                Outbound::Idle => WriterStep::Idle,
                Outbound::Finished => WriterStep::Finished,
            },
        }
    }
}

/// Dispatching each of `msgs` in turn: the pump's and the network's states
/// afterwards.
pub open spec fn dispatch_all<P>(
    rt: RuntimeView<P>,
    net: NetworkView<P>,
    msgs: Seq<Message<P>>,
) -> (RuntimeView<P>, NetworkView<P>)
    decreases msgs.len(),
{
    if msgs.len() == 0 {
        (rt, net)
    } else {
        let (next_rt, next_net, _) = dispatch_step(rt, net, msgs[0]);
        dispatch_all(next_rt, next_net, msgs.subrange(1, msgs.len() as int))
    }
}

/// Of `msgs`, dispatched in turn against `net`, those that no RPC consumed,
/// in their order.
pub open spec fn passed_on<P>(net: NetworkView<P>, msgs: Seq<Message<P>>) -> Seq<Message<P>>
    decreases msgs.len(),
{
    if msgs.len() == 0 {
        Seq::empty()
    } else {
        let (next_net, routed) = net.check_callback(msgs[0]);
        let rest = passed_on(next_net, msgs.subrange(1, msgs.len() as int));
        match routed {
            Some(m) => seq![m] + rest,
            None => rest,
        }
    }
}

/// The handler receives inbound messages in the order in which they came,
/// less those consumed as RPC replies: dispatching `msgs` appends exactly
/// the ones passed on, in order, to the handler's queue. In particular a
/// message that answers nothing is never dropped: when none of `msgs`
/// carries `in_reply_to`, all of them are queued, in order.
pub proof fn law_handler_order<P>(rt: RuntimeView<P>, net: NetworkView<P>, msgs: Seq<Message<P>>)
    requires
        !rt.input_closed,
    ensures
        dispatch_all(rt, net, msgs).0.inbox == rt.inbox + passed_on(net, msgs),
        dispatch_all(rt, net, msgs).0.input_closed == rt.input_closed,
        (forall|i: int| 0 <= i < msgs.len() ==> (#[trigger] msgs[i]).body.in_reply_to is None)
            ==> passed_on(net, msgs) == msgs,
    decreases msgs.len(),
{
    if msgs.len() > 0 {
        let (next_net, routed) = net.check_callback(msgs[0]);
        let tail = msgs.subrange(1, msgs.len() as int);
        law_handler_order(rt.enqueue(routed), next_net, tail);
        match routed {
            Some(m) => {
                assert(rt.inbox.push(m) + passed_on(next_net, tail) =~= rt.inbox + (seq![m] + passed_on(next_net, tail)));
            },
            None => {},
        }
        if forall|i: int| 0 <= i < msgs.len() ==> (#[trigger] msgs[i]).body.in_reply_to is None {
            assert forall|i: int| 0 <= i < tail.len() implies (#[trigger] tail[i]).body.in_reply_to is None by {
                assert(tail[i] == msgs[i + 1]);
            }
            assert(seq![msgs[0]] + tail =~= msgs);
        }
    } else {
        assert(rt.inbox + passed_on(net, msgs) =~= rt.inbox);
        assert(passed_on(net, msgs) =~= msgs);
    }
}

/// No line after the end of the input reaches routing or the handler: once
/// the input has ended, dispatching any messages changes neither the pump's
/// queue nor the network.
pub proof fn law_nothing_after_end<P>(rt: RuntimeView<P>, net: NetworkView<P>, msgs: Seq<Message<P>>)
    requires
        rt.input_closed,
    ensures
        dispatch_all(rt, net, msgs) == (rt, net),
    decreases msgs.len(),
{
    if msgs.len() > 0 {
        law_nothing_after_end(rt, net, msgs.subrange(1, msgs.len() as int));
    }
}

/// After the handshake the writer's first step writes the `init_ok`, which
/// answers the `init`'s `msg_id`, whatever the node has sent meanwhile; the
/// network's queue is left for the steps after it.
pub proof fn law_init_ok_first<P>(init: Message<Init>, net: NetworkView<P>)
    ensures
        writer_step(Some(reply_with_id(init, Init::InitOk, None)), net) == (
            None::<Message<Init>>,
            net,
            WriterStep::<P>::InitOk(reply_with_id(init, Init::InitOk, None)),
        ),
        reply_with_id(init, Init::InitOk, None).body.in_reply_to == init.body.msg_id,
        reply_with_id(init, Init::InitOk, None).body.payload == Init::InitOk,
        reply_with_id(init, Init::InitOk, None).src == init.dest,
        reply_with_id(init, Init::InitOk, None).dest == init.src,
{
}

} // verus!
