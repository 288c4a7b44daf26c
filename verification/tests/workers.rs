use lokai::delta::Delta;
use lokai::error::Error;
use lokai::gateway::{Gateway, GatewayAction, Phase, Worker, QUEUE_CAPACITY};
use lokai::models::{Message, PromptSubmission};
use lokai::receiver::{Inbound, ReceiverAction, ReceiverEvent, ReceiverState};
use lokai::role::Role;
use lokai::sender::{OutboundFrame, SenderAction, SenderEvent, SenderState};
use lokai::stamp::Stamp;

const CONVERSATION: u128 = 0xa310afea_981e_4054_924a_37090ac227e2;

fn hello() -> Inbound {
    Inbound::Prompt {
        content: "Hello".to_string(),
        conversation_id: "a310afea-981e-4054-924a-37090ac227e2".to_string(),
    }
}

fn reply(content: &str) -> Message {
    Message::stamped(Stamp { id: 11, at: 12 }, Role::Assistant, content.to_string(), CONVERSATION)
}

#[test]
fn receiver_forwards_a_submission_and_reads_on() {
    let (state, action) = ReceiverState::Reading.step(ReceiverEvent::Read(hello()));
    assert_eq!(state, ReceiverState::Forwarding);
    assert_eq!(
        action,
        ReceiverAction::Enqueue(PromptSubmission {
            content: "Hello".to_string(),
            conversation_id: CONVERSATION,
        })
    );
    let (state, action) = state.step(ReceiverEvent::Queued);
    assert_eq!(state, ReceiverState::Reading);
    assert_eq!(action, ReceiverAction::Read);
}

#[test]
fn receiver_ends_with_an_error_on_a_bad_frame() {
    let bad = vec![
        Inbound::Malformed,
        Inbound::Foreign,
        Inbound::Broken,
        Inbound::Prompt { content: "Hello".to_string(), conversation_id: "42".to_string() },
    ];
    for inbound in bad {
        let (state, action) = ReceiverState::Reading.step(ReceiverEvent::Read(inbound));
        assert_eq!(state, ReceiverState::Exited);
        assert_eq!(action, ReceiverAction::Exit(Some(Error::ConnectionProtocolError)));
    }
}

#[test]
fn receiver_ends_cleanly_when_the_client_leaves() {
    let (state, action) = ReceiverState::Reading.step(ReceiverEvent::Read(Inbound::Closed));
    assert_eq!(state, ReceiverState::Exited);
    assert_eq!(action, ReceiverAction::Exit(None));
}

#[test]
fn receiver_ends_when_nobody_takes_submissions() {
    let (state, action) = ReceiverState::Forwarding.step(ReceiverEvent::QueueClosed);
    assert_eq!(state, ReceiverState::Exited);
    assert_eq!(action, ReceiverAction::Exit(None));
}

#[test]
fn receiver_refuses_what_it_did_not_ask_for() {
    let (state, action) = ReceiverState::Reading.step(ReceiverEvent::Queued);
    assert_eq!((state, action), (ReceiverState::Exited, ReceiverAction::Exit(Some(Error::OutOfTurn))));
    let (state, action) = ReceiverState::Forwarding.step(ReceiverEvent::Read(hello()));
    assert_eq!((state, action), (ReceiverState::Exited, ReceiverAction::Exit(Some(Error::OutOfTurn))));
    let (state, action) = ReceiverState::Exited.step(ReceiverEvent::Read(hello()));
    assert_eq!((state, action), (ReceiverState::Exited, ReceiverAction::Exit(None)));
}

#[test]
fn inbound_receive_agrees_with_the_step() {
    let (state, action) = hello().receive();
    assert_eq!(state, ReceiverState::Forwarding);
    assert!(matches!(action, ReceiverAction::Enqueue(_)));
}

#[test]
fn delta_kinds_are_append_and_replace() {
    let append = Delta::Append { message: reply("") };
    let replace = Delta::Replace { message: reply("I ") };
    assert_eq!(append.kind(), "append");
    assert_eq!(replace.kind(), "replace");
    assert_eq!(append.message(), &reply(""));
    assert_eq!(replace.message(), &reply("I "));
    assert_eq!(replace.clone(), replace);
    assert_eq!(replace.into_frame(), ("replace", reply("I ")));
}

#[test]
fn sender_writes_one_frame_for_each_delta() {
    let (state, action) =
        SenderState::Waiting.step(SenderEvent::Took(Delta::Append { message: reply("a") }));
    assert_eq!(state, SenderState::Writing);
    assert_eq!(
        action,
        SenderAction::Write(OutboundFrame { kind: "append".to_string(), message: reply("a") })
    );
    let (state, action) = state.step(SenderEvent::Written);
    assert_eq!((state, action), (SenderState::Waiting, SenderAction::Take));
    let (state, action) =
        state.step(SenderEvent::Took(Delta::Replace { message: reply("ab") }));
    assert_eq!(state, SenderState::Writing);
    assert_eq!(
        action,
        SenderAction::Write(OutboundFrame { kind: "replace".to_string(), message: reply("ab") })
    );
}

#[test]
fn sender_ends_with_an_error_when_a_write_fails() {
    let (state, action) = SenderState::Writing.step(SenderEvent::WriteFailed);
    assert_eq!(state, SenderState::Exited);
    assert_eq!(action, SenderAction::Exit(Some(Error::OutboundWriteError)));
    let (state, action) = state.step(SenderEvent::Took(Delta::Replace { message: reply("x") }));
    assert_eq!((state, action), (SenderState::Exited, SenderAction::Exit(None)));
}

#[test]
fn sender_ends_cleanly_when_the_queue_closes() {
    let (state, action) = SenderState::Waiting.step(SenderEvent::QueueClosed);
    assert_eq!((state, action), (SenderState::Exited, SenderAction::Exit(None)));
}

#[test]
fn sender_refuses_what_it_did_not_ask_for() {
    let (state, action) = SenderState::Waiting.step(SenderEvent::Written);
    assert_eq!((state, action), (SenderState::Exited, SenderAction::Exit(Some(Error::OutOfTurn))));
    let (state, action) = SenderState::Writing.step(SenderEvent::QueueClosed);
    assert_eq!((state, action), (SenderState::Exited, SenderAction::Exit(Some(Error::OutOfTurn))));
}

#[test]
fn outbound_frame_of_a_delta() {
    let frame = OutboundFrame::new(Delta::Replace { message: reply("I am ") });
    assert_eq!(frame.kind, "replace");
    assert_eq!(frame.message, reply("I am "));
}

#[test]
fn queues_hold_a_hundred() {
    assert_eq!(QUEUE_CAPACITY, 100);
}

#[test]
fn gateway_starts_active() {
    let gateway = Gateway::new();
    assert_eq!(gateway.phase(), Phase::Active);
    assert!(gateway.runs(Worker::Receiver));
    assert!(gateway.runs(Worker::Inference));
    assert!(gateway.runs(Worker::Sender));
}

#[test]
fn gateway_cancels_the_others_when_one_returns() {
    let (gateway, action) = Gateway::new().returned(Worker::Sender);
    assert_eq!(gateway.phase(), Phase::ShuttingDown);
    assert_eq!(action, GatewayAction::Cancel(Worker::Inference, Worker::Receiver));
    assert!(!gateway.runs(Worker::Sender));

    let (gateway, action) = Gateway::new().returned(Worker::Inference);
    assert_eq!(gateway.phase(), Phase::ShuttingDown);
    assert_eq!(action, GatewayAction::Cancel(Worker::Sender, Worker::Receiver));

    let (gateway, action) = Gateway::new().returned(Worker::Receiver);
    assert_eq!(gateway.phase(), Phase::ShuttingDown);
    assert_eq!(action, GatewayAction::Cancel(Worker::Inference, Worker::Sender));
    assert_eq!(gateway, Gateway { receiver: false, inference: true, sender: true });
}

#[test]
fn gateway_terminates_when_all_have_ended() {
    let (gateway, _) = Gateway::new().returned(Worker::Inference);
    let (gateway, action) = gateway.returned(Worker::Sender);
    assert_eq!(gateway.phase(), Phase::ShuttingDown);
    assert_eq!(action, GatewayAction::Wait);
    let (gateway, action) = gateway.returned(Worker::Sender);
    assert_eq!(gateway.phase(), Phase::ShuttingDown);
    assert_eq!(action, GatewayAction::Wait);
    let (gateway, action) = gateway.returned(Worker::Receiver);
    assert_eq!(gateway.phase(), Phase::Terminated);
    assert_eq!(action, GatewayAction::Close);
    let (gateway, action) = gateway.returned(Worker::Receiver);
    assert_eq!(gateway.phase(), Phase::Terminated);
    assert_eq!(action, GatewayAction::Close);
}

#[test]
fn worker_others_are_the_two_others() {
    assert_eq!(Worker::Receiver.others(), (Worker::Inference, Worker::Sender));
    assert_eq!(Worker::Inference.others(), (Worker::Sender, Worker::Receiver));
    assert_eq!(Worker::Sender.others(), (Worker::Inference, Worker::Receiver));
}

#[test]
fn error_messages() {
    assert_eq!(Error::StorageError.message(), "db error");
    assert_eq!(Error::UpstreamError.message(), "reqwest error");
    assert_eq!(Error::OutboundWriteError.message(), "send error");
    assert_eq!(Error::ConversationNotFound.message(), "conversation not found");
    assert_eq!(Error::ConnectionProtocolError.message(), "protocol error");
    assert_eq!(Error::ChunkDecodeError.message(), "chunk decode error");
    assert_eq!(Error::OutOfTurn.message(), "out of turn");
}
