use maelbreaker::network::{Network, ReplyState};
use maelbreaker::runtime::{Dispatched, HandlerStep, InitError, Runtime, Writer, WriterStep};
use maelbreaker::types::{Body, BodyBuilder, Init, Message};

#[derive(Debug, Clone, PartialEq, Eq)]
enum EchoPayload {
    Echo { echo: String },
    EchoOk { echo: String },
}

fn init_message(src: &str, node_id: &str, node_ids: &[&str], msg_id: usize) -> Message<Init> {
    Message::new(
        src,
        node_id,
        BodyBuilder::new(Init::Init {
            node_id: node_id.into(),
            node_ids: node_ids.iter().map(|s| s.to_string()).collect(),
        })
        .msg_id(msg_id)
        .build(),
    )
}

fn echo_message(src: &str, msg_id: usize, echo: &str) -> Message<EchoPayload> {
    Message::new(
        src,
        "n1",
        BodyBuilder::new(EchoPayload::Echo { echo: echo.into() }).msg_id(msg_id).build(),
    )
}

/// The echo workload's handler: answers an echo with the same text.
fn handle_echo(network: &mut Network<EchoPayload>, msg: Message<EchoPayload>) {
    let EchoPayload::Echo { echo } = &msg.body.payload else {
        panic!("expected echo");
    };
    let echo = echo.clone();
    let reply = msg.into_reply(EchoPayload::EchoOk { echo });
    network.send(reply).unwrap();
}

/// Runs the handler over what the pump has queued, as the main thread does.
fn run_handler(runtime: &mut Runtime<EchoPayload>, network: &mut Network<EchoPayload>) -> HandlerStep<EchoPayload> {
    loop {
        match runtime.next_message() {
            HandlerStep::Deliver(m) => handle_echo(network, m),
            other => return other,
        }
    }
}

#[test]
fn test_basic_init() {
    let init = init_message("c2", "n1", &["n1"], 3);
    let handshake = Runtime::<EchoPayload>::handshake(init).unwrap();
    let mut network: Network<EchoPayload> = Network::new();
    let mut writer = Writer::new(handshake.reply);
    match writer.next_step(&mut network) {
        WriterStep::InitOk(m) => {
            assert_eq!(m.body.payload, Init::InitOk);
        }
        other => panic!("expected init_ok, found {:?}", other),
    }
}

#[test]
fn test_basic_echo() {
    let init = init_message("c2", "n1", &["n1"], 3);
    let handshake = Runtime::<EchoPayload>::handshake(init).unwrap();
    let mut network: Network<EchoPayload> = Network::new();
    let mut runtime: Runtime<EchoPayload> = Runtime::new();
    let mut writer = Writer::new(handshake.reply);
    assert!(matches!(writer.next_step(&mut network), WriterStep::InitOk(_)));

    let echo = echo_message("c2", 3, "ding-dong!");
    assert_eq!(runtime.dispatch(&mut network, echo), Dispatched::Queued);
    assert_eq!(run_handler(&mut runtime, &mut network), HandlerStep::Wait);

    match writer.next_step(&mut network) {
        WriterStep::Write(m) => {
            assert_eq!(m.body.payload, EchoPayload::EchoOk { echo: "ding-dong!".into() });
        }
        other => panic!("expected the echo reply, found {:?}", other),
    }
}

#[test]
fn init_only_answers_with_init_ok() {
    let init = Message {
        src: "c1".to_string(),
        dest: "n1".to_string(),
        body: Body {
            msg_id: Some(1),
            in_reply_to: None,
            payload: Init::Init { node_id: "n1".to_string(), node_ids: vec!["n1".to_string()] },
        },
    };
    let handshake = Runtime::<EchoPayload>::handshake(init).unwrap();
    assert_eq!(handshake.node_id, "n1");
    assert_eq!(handshake.node_ids, vec!["n1".to_string()]);
    assert_eq!(
        handshake.reply,
        Message {
            src: "n1".to_string(),
            dest: "c1".to_string(),
            body: Body { msg_id: None, in_reply_to: Some(1), payload: Init::InitOk },
        }
    );

    assert!(Runtime::<EchoPayload>::is_sentinel("EOI"));
    let mut network: Network<EchoPayload> = Network::new();
    let mut runtime: Runtime<EchoPayload> = Runtime::new();
    runtime.end_input();
    let mut writer = Writer::new(handshake.reply.clone());
    assert_eq!(writer.next_step(&mut network), WriterStep::InitOk(handshake.reply));
    assert_eq!(run_handler(&mut runtime, &mut network), HandlerStep::Finished);
    network.close();
    assert_eq!(writer.next_step(&mut network), WriterStep::Finished);
}

#[test]
fn echo_after_init_is_answered() {
    let handshake = Runtime::<EchoPayload>::handshake(init_message("c1", "n1", &["n1"], 1)).unwrap();
    let mut network: Network<EchoPayload> = Network::new();
    let mut runtime: Runtime<EchoPayload> = Runtime::new();
    let mut writer = Writer::new(handshake.reply);
    assert!(matches!(writer.next_step(&mut network), WriterStep::InitOk(_)));

    let echo = Message {
        src: "c2".to_string(),
        dest: "n1".to_string(),
        body: Body { msg_id: Some(3), in_reply_to: None, payload: EchoPayload::Echo { echo: "ding-dong!".into() } },
    };
    assert_eq!(runtime.dispatch(&mut network, echo), Dispatched::Queued);
    run_handler(&mut runtime, &mut network);
    assert_eq!(
        writer.next_step(&mut network),
        WriterStep::Write(Message {
            src: "n1".to_string(),
            dest: "c2".to_string(),
            body: Body {
                msg_id: Some(4),
                in_reply_to: Some(3),
                payload: EchoPayload::EchoOk { echo: "ding-dong!".into() },
            },
        })
    );
}

#[test]
fn init_ok_is_written_before_anything_sent_earlier() {
    let handshake = Runtime::<EchoPayload>::handshake(init_message("c4", "n2", &["n1", "n2"], 8)).unwrap();
    let mut network: Network<EchoPayload> = Network::new();
    network.send(echo_message("n2", 1, "early")).unwrap();
    let mut writer = Writer::new(handshake.reply);
    match writer.next_step(&mut network) {
        WriterStep::InitOk(m) => {
            assert_eq!(m.src, "n2");
            assert_eq!(m.dest, "c4");
            assert_eq!(m.body.in_reply_to, Some(8));
            assert_eq!(m.body.msg_id, None);
        }
        other => panic!("expected init_ok, found {:?}", other),
    }
    assert!(matches!(writer.next_step(&mut network), WriterStep::Write(_)));
    assert_eq!(writer.next_step(&mut network), WriterStep::Idle);
}

#[test]
fn first_message_other_than_init_is_refused() {
    let not_init = Message::new("c1", "n1", BodyBuilder::new(Init::InitOk).msg_id(1).build());
    assert_eq!(Runtime::<EchoPayload>::handshake(not_init).unwrap_err(), InitError::NotInit);
}

#[test]
fn init_whose_roster_lacks_the_node_is_refused() {
    let init = init_message("c1", "n4", &["n1", "n2", "n3"], 1);
    assert_eq!(Runtime::<EchoPayload>::handshake(init).unwrap_err(), InitError::NotInRoster);
    let empty = init_message("c1", "n1", &[], 1);
    assert_eq!(Runtime::<EchoPayload>::handshake(empty).unwrap_err(), InitError::NotInRoster);
}

#[test]
fn only_the_exact_sentinel_ends_input() {
    assert!(Runtime::<EchoPayload>::is_sentinel("EOI"));
    assert!(!Runtime::<EchoPayload>::is_sentinel("EOI "));
    assert!(!Runtime::<EchoPayload>::is_sentinel("eoi"));
    assert!(!Runtime::<EchoPayload>::is_sentinel("EO"));
    assert!(!Runtime::<EchoPayload>::is_sentinel(""));
    assert!(!Runtime::<EchoPayload>::is_sentinel("{\"src\":\"c1\"}"));
}

#[test]
fn unrelated_message_during_pending_rpc_is_queued() {
    let mut network: Network<EchoPayload> = Network::new();
    let mut runtime: Runtime<EchoPayload> = Runtime::new();
    let request = Message::new(
        "n1",
        "n2",
        BodyBuilder::new(EchoPayload::Echo { echo: "probe".into() }).msg_id(11).build(),
    );
    let receiver = network.rpc(request.clone()).unwrap();

    let unrelated = echo_message("c3", 5, "later");
    assert_eq!(runtime.dispatch(&mut network, unrelated.clone()), Dispatched::Queued);
    assert_eq!(network.recv(receiver), ReplyState::Pending);

    let reply = request.into_reply(EchoPayload::EchoOk { echo: "probe".into() });
    assert_eq!(runtime.dispatch(&mut network, reply.clone()), Dispatched::Consumed);
    assert_eq!(network.recv(receiver), ReplyState::Ready(reply));

    assert_eq!(runtime.next_message(), HandlerStep::Deliver(unrelated));
    assert_eq!(runtime.next_message(), HandlerStep::Wait);
}

#[test]
fn handler_sees_messages_in_arrival_order() {
    let mut network: Network<EchoPayload> = Network::new();
    let mut runtime: Runtime<EchoPayload> = Runtime::new();
    for (i, text) in ["a", "b", "c"].iter().enumerate() {
        assert_eq!(runtime.dispatch(&mut network, echo_message("c1", i, text)), Dispatched::Queued);
    }
    for (i, text) in ["a", "b", "c"].iter().enumerate() {
        assert_eq!(runtime.next_message(), HandlerStep::Deliver(echo_message("c1", i, text)));
    }
    assert_eq!(runtime.next_message(), HandlerStep::Wait);
}

#[test]
fn sentinel_shutdown_flushes_queued_output() {
    let handshake = Runtime::<EchoPayload>::handshake(init_message("c1", "n1", &["n1"], 1)).unwrap();
    let mut network: Network<EchoPayload> = Network::new();
    let mut runtime: Runtime<EchoPayload> = Runtime::new();
    let mut writer = Writer::new(handshake.reply);

    assert_eq!(runtime.dispatch(&mut network, echo_message("c2", 10, "one")), Dispatched::Queued);
    assert_eq!(runtime.dispatch(&mut network, echo_message("c3", 20, "two")), Dispatched::Queued);
    assert!(Runtime::<EchoPayload>::is_sentinel("EOI"));
    runtime.end_input();

    assert_eq!(run_handler(&mut runtime, &mut network), HandlerStep::Finished);
    network.close();

    assert!(matches!(writer.next_step(&mut network), WriterStep::InitOk(_)));
    let mut written = Vec::new();
    loop {
        match writer.next_step(&mut network) {
            WriterStep::Write(m) => written.push(m),
            WriterStep::Finished => break,
            other => panic!("unexpected step {:?}", other),
        }
    }
    assert_eq!(written.len(), 2);
    assert_eq!(written[0].dest, "c2");
    assert_eq!(written[0].body.in_reply_to, Some(10));
    assert_eq!(written[1].dest, "c3");
    assert_eq!(written[1].body.in_reply_to, Some(20));
}

#[test]
fn nothing_is_dispatched_after_the_end_of_input() {
    let mut network: Network<EchoPayload> = Network::new();
    let mut runtime: Runtime<EchoPayload> = Runtime::new();
    let request = Message::new(
        "n1",
        "n2",
        BodyBuilder::new(EchoPayload::Echo { echo: "probe".into() }).msg_id(2).build(),
    );
    let receiver = network.rpc(request.clone()).unwrap();
    assert_eq!(runtime.dispatch(&mut network, echo_message("c1", 1, "before")), Dispatched::Queued);
    runtime.end_input();

    assert_eq!(runtime.dispatch(&mut network, echo_message("c1", 2, "after")), Dispatched::Ignored);
    let reply = request.into_reply(EchoPayload::EchoOk { echo: "probe".into() });
    assert_eq!(runtime.dispatch(&mut network, reply), Dispatched::Ignored);
    assert!(network.is_registered(2));
    assert_eq!(network.recv(receiver), ReplyState::Pending);

    assert_eq!(runtime.next_message(), HandlerStep::Deliver(echo_message("c1", 1, "before")));
    assert_eq!(runtime.next_message(), HandlerStep::Finished);
}
