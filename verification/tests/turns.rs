use lokai::delta::Delta;
use lokai::error::Error;
use lokai::inference::{TurnAction, TurnEvent, TurnState};
use lokai::models::{Conversation, Message, PromptSubmission};
use lokai::ollama::{OllamaChatParams, OllamaChatResponseStream, OllamaMessage};
use lokai::role::Role;
use lokai::stamp::Stamp;

const C: u128 = 0xa310afea_981e_4054_924a_37090ac227e2;
const MODEL: &str = "phi3:3.8b";

fn hello() -> PromptSubmission {
    PromptSubmission { content: "Hello".to_string(), conversation_id: C }
}

fn conversation() -> Conversation {
    Conversation { id: C, name: "c".to_string(), created_at: 1 }
}

fn chunk(content: &str, done: bool) -> TurnEvent {
    TurnEvent::Chunk(OllamaChatResponseStream {
        message: OllamaMessage { role: Role::Assistant, content: content.to_string() },
        done,
    })
}

/// Feeds the events to a worker that starts idle, and gives back what it asked for
/// and where it stands.
fn drive(events: Vec<TurnEvent>) -> (Vec<TurnAction>, TurnState) {
    let mut state = TurnState::Idle;
    let mut actions = Vec::new();
    for event in events {
        let (next, action) = state.step(event, MODEL);
        state = next;
        actions.push(action);
    }
    (actions, state)
}

fn stored(actions: &[TurnAction]) -> Vec<(Role, String)> {
    let mut out = Vec::new();
    for action in actions {
        if let TurnAction::Store(message) = action {
            out.push((message.role, message.content.clone()));
        }
    }
    out
}

fn frames(actions: &[TurnAction]) -> Vec<(String, Role, String)> {
    let mut out = Vec::new();
    for action in actions {
        if let TurnAction::Push(delta) = action {
            out.push((
                delta.kind().to_string(),
                delta.message().role,
                delta.message().content.clone(),
            ));
        }
    }
    out
}

fn opening() -> Vec<TurnEvent> {
    vec![
        TurnEvent::Submitted(hello()),
        TurnEvent::Found(conversation()),
        TurnEvent::History(Vec::new()),
        TurnEvent::Stored,
        TurnEvent::Pushed,
        TurnEvent::ChatOpened,
    ]
}

#[test]
fn three_chunks_are_relayed_and_kept() {
    let mut events = opening();
    events.extend(vec![
        chunk("I ", false),
        TurnEvent::Pushed,
        chunk("am ", false),
        TurnEvent::Pushed,
        chunk("fine", true),
        TurnEvent::Pushed,
        TurnEvent::Stored,
    ]);
    let (actions, state) = drive(events);
    assert_eq!(
        stored(&actions),
        vec![(Role::User, "Hello".to_string()), (Role::Assistant, "I am fine".to_string())]
    );
    assert_eq!(
        frames(&actions),
        vec![
            ("append".to_string(), Role::User, "Hello".to_string()),
            ("replace".to_string(), Role::Assistant, "I ".to_string()),
            ("replace".to_string(), Role::Assistant, "I am ".to_string()),
            ("replace".to_string(), Role::Assistant, "I am fine".to_string()),
        ]
    );
    assert_eq!(state, TurnState::Idle);
    assert_eq!(actions.last(), Some(&TurnAction::Await));
}

#[test]
fn turn_asks_for_things_in_order() {
    let mut events = opening();
    events.extend(vec![chunk("I ", true), TurnEvent::Pushed, TurnEvent::Stored]);
    let (actions, _) = drive(events);
    assert_eq!(actions.len(), 9);
    assert_eq!(actions[0], TurnAction::Find(C));
    assert_eq!(actions[1], TurnAction::Load(C));
    let prompt = match &actions[2] {
        TurnAction::Store(message) => message.clone(),
        other => panic!("expected the prompt to be stored, got {:?}", other),
    };
    assert_eq!(prompt.role, Role::User);
    assert_eq!(prompt.content, "Hello");
    assert_eq!(prompt.conversation_id, C);
    assert_eq!(uuid::Uuid::from_u128(prompt.id).get_version_num(), 4);
    assert_eq!(actions[3], TurnAction::Push(Delta::Append { message: prompt.clone() }));
    assert_eq!(
        actions[4],
        TurnAction::Open(OllamaChatParams {
            model: MODEL.to_string(),
            messages: vec![OllamaMessage { role: Role::User, content: "Hello".to_string() }],
            stream: true,
        })
    );
    assert_eq!(actions[5], TurnAction::Pull);
    let reply = match &actions[6] {
        TurnAction::Push(Delta::Replace { message }) => message.clone(),
        other => panic!("expected the reply to be sent, got {:?}", other),
    };
    assert_eq!(reply.role, Role::Assistant);
    assert_eq!(reply.content, "I ");
    assert_eq!(reply.conversation_id, C);
    assert_ne!(reply.id, prompt.id);
    assert_eq!(actions[7], TurnAction::Store(reply));
    assert_eq!(actions[8], TurnAction::Await);
}

#[test]
fn unknown_conversation_keeps_and_sends_nothing() {
    let (actions, state) = drive(vec![TurnEvent::Submitted(hello()), TurnEvent::Missing]);
    assert_eq!(
        actions,
        vec![TurnAction::Find(C), TurnAction::Exit(Some(Error::ConversationNotFound))]
    );
    assert_eq!(stored(&actions), vec![]);
    assert_eq!(frames(&actions), vec![]);
    assert_eq!(state, TurnState::Exited);
}

#[test]
fn unreachable_server_keeps_the_prompt_only() {
    let (actions, state) = drive(vec![
        TurnEvent::Submitted(hello()),
        TurnEvent::Found(conversation()),
        TurnEvent::History(Vec::new()),
        TurnEvent::Stored,
        TurnEvent::Pushed,
        TurnEvent::ChatFailed,
    ]);
    assert_eq!(stored(&actions), vec![(Role::User, "Hello".to_string())]);
    assert_eq!(
        frames(&actions),
        vec![("append".to_string(), Role::User, "Hello".to_string())]
    );
    assert_eq!(actions.last(), Some(&TurnAction::Exit(Some(Error::UpstreamError))));
    assert_eq!(state, TurnState::Exited);
}

#[test]
fn refused_delta_keeps_what_had_arrived() {
    let mut events = opening();
    events.extend(vec![
        chunk("I ", false),
        TurnEvent::Pushed,
        chunk("am ", false),
        TurnEvent::PushRefused,
        TurnEvent::Stored,
    ]);
    let (actions, state) = drive(events);
    assert_eq!(
        stored(&actions),
        vec![(Role::User, "Hello".to_string()), (Role::Assistant, "I am ".to_string())]
    );
    assert_eq!(
        frames(&actions),
        vec![
            ("append".to_string(), Role::User, "Hello".to_string()),
            ("replace".to_string(), Role::Assistant, "I ".to_string()),
            ("replace".to_string(), Role::Assistant, "I am ".to_string()),
        ]
    );
    assert_eq!(state, TurnState::Idle);
}

#[test]
fn garbled_chunk_is_skipped() {
    let mut events = opening();
    events.extend(vec![
        chunk("I ", false),
        TurnEvent::Pushed,
        TurnEvent::Garbled,
        chunk("am ", false),
        TurnEvent::Pushed,
        chunk("fine", true),
        TurnEvent::Pushed,
    ]);
    let (actions, _) = drive(events);
    assert_eq!(
        stored(&actions),
        vec![(Role::User, "Hello".to_string()), (Role::Assistant, "I am fine".to_string())]
    );
    assert_eq!(actions[8], TurnAction::Pull);
    assert_eq!(frames(&actions).len(), 4);
}

#[test]
fn garbled_first_chunk_leaves_the_next_one_first() {
    let mut events = opening();
    events.extend(vec![
        TurnEvent::Garbled,
        chunk("  I ", false),
        TurnEvent::Pushed,
        chunk(" am", false),
        TurnEvent::Pushed,
        TurnEvent::StreamEnded,
    ]);
    let (actions, _) = drive(events);
    assert_eq!(
        stored(&actions),
        vec![(Role::User, "Hello".to_string()), (Role::Assistant, "I  am".to_string())]
    );
}

#[test]
fn first_chunk_loses_its_leading_whitespace_only() {
    let mut events = opening();
    events.extend(vec![
        chunk(" \n Hello ", false),
        TurnEvent::Pushed,
        chunk(" there ", false),
        TurnEvent::Pushed,
        TurnEvent::StreamEnded,
    ]);
    let (actions, state) = drive(events);
    assert_eq!(
        frames(&actions)[1..],
        [
            ("replace".to_string(), Role::Assistant, "Hello ".to_string()),
            ("replace".to_string(), Role::Assistant, "Hello  there ".to_string()),
        ]
    );
    assert_eq!(stored(&actions)[1], (Role::Assistant, "Hello  there ".to_string()));
    assert_eq!(state, TurnState::SavingReply);
}

#[test]
fn each_replace_extends_the_one_before() {
    let mut events = opening();
    for piece in ["  a", "", "b\n", " c", "ü", ""] {
        events.push(chunk(piece, false));
        events.push(TurnEvent::Pushed);
    }
    events.push(TurnEvent::StreamEnded);
    let (actions, _) = drive(events);
    let sent = frames(&actions);
    assert_eq!(sent.len(), 7);
    let mut earlier = String::new();
    for (kind, role, content) in &sent[1..] {
        assert_eq!(kind, "replace");
        assert_eq!(*role, Role::Assistant);
        assert!(content.starts_with(&earlier));
        earlier = content.clone();
    }
    assert_eq!(earlier, "ab\n cü");
    assert_eq!(stored(&actions)[1].1, "ab\n cü");
}

#[test]
fn replace_deltas_carry_one_message() {
    let mut events = opening();
    events.extend(vec![
        chunk("a", false),
        TurnEvent::Pushed,
        chunk("b", false),
        TurnEvent::Pushed,
        TurnEvent::StreamEnded,
    ]);
    let (actions, _) = drive(events);
    let mut ids = Vec::new();
    for action in &actions {
        match action {
            TurnAction::Push(Delta::Replace { message }) => ids.push((message.id, message.created_at)),
            TurnAction::Store(message) if message.role == Role::Assistant => {
                ids.push((message.id, message.created_at))
            }
            _ => {}
        }
    }
    assert_eq!(ids.len(), 3);
    assert_eq!(ids[0], ids[1]);
    assert_eq!(ids[1], ids[2]);
}

#[test]
fn empty_stream_keeps_an_empty_reply() {
    let mut events = opening();
    events.push(TurnEvent::StreamEnded);
    let (actions, _) = drive(events);
    assert_eq!(
        stored(&actions),
        vec![(Role::User, "Hello".to_string()), (Role::Assistant, String::new())]
    );
    assert_eq!(frames(&actions).len(), 1);
}

#[test]
fn history_goes_to_the_server_before_the_prompt() {
    let history = vec![
        Message::stamped(Stamp { id: 1, at: 1 }, Role::User, "Hi".to_string(), C),
        Message::stamped(Stamp { id: 2, at: 2 }, Role::Assistant, "Hi!".to_string(), C),
    ];
    let (actions, _) = drive(vec![
        TurnEvent::Submitted(hello()),
        TurnEvent::Found(conversation()),
        TurnEvent::History(history),
        TurnEvent::Stored,
        TurnEvent::Pushed,
    ]);
    assert_eq!(
        actions[4],
        TurnAction::Open(OllamaChatParams {
            model: MODEL.to_string(),
            messages: vec![
                OllamaMessage { role: Role::User, content: "Hi".to_string() },
                OllamaMessage { role: Role::Assistant, content: "Hi!".to_string() },
                OllamaMessage { role: Role::User, content: "Hello".to_string() },
            ],
            stream: true,
        })
    );
}

#[test]
fn failed_keeping_of_the_reply_is_swallowed() {
    let mut events = opening();
    events.extend(vec![chunk("ok", true), TurnEvent::Pushed, TurnEvent::StorageFailed]);
    let (actions, state) = drive(events);
    assert_eq!(actions.last(), Some(&TurnAction::Await));
    assert_eq!(state, TurnState::Idle);
}

#[test]
fn a_second_turn_follows_the_first() {
    let mut events = opening();
    events.extend(vec![chunk("one", true), TurnEvent::Pushed, TurnEvent::Stored]);
    events.extend(opening());
    events.extend(vec![chunk("two", true), TurnEvent::Pushed, TurnEvent::Stored]);
    let (actions, state) = drive(events);
    assert_eq!(
        stored(&actions),
        vec![
            (Role::User, "Hello".to_string()),
            (Role::Assistant, "one".to_string()),
            (Role::User, "Hello".to_string()),
            (Role::Assistant, "two".to_string()),
        ]
    );
    assert_eq!(state, TurnState::Idle);
}

#[test]
fn storage_failures_before_the_call_end_the_turn() {
    let (actions, state) =
        drive(vec![TurnEvent::Submitted(hello()), TurnEvent::StorageFailed]);
    assert_eq!(actions.last(), Some(&TurnAction::Exit(Some(Error::StorageError))));
    assert_eq!(state, TurnState::Exited);

    let (actions, _) = drive(vec![
        TurnEvent::Submitted(hello()),
        TurnEvent::Found(conversation()),
        TurnEvent::StorageFailed,
    ]);
    assert_eq!(actions.last(), Some(&TurnAction::Exit(Some(Error::StorageError))));
    assert_eq!(stored(&actions), vec![]);

    let (actions, _) = drive(vec![
        TurnEvent::Submitted(hello()),
        TurnEvent::Found(conversation()),
        TurnEvent::History(Vec::new()),
        TurnEvent::StorageFailed,
    ]);
    assert_eq!(actions.last(), Some(&TurnAction::Exit(Some(Error::StorageError))));
    assert_eq!(frames(&actions), vec![]);
}

#[test]
fn refused_echo_ends_the_turn_before_the_call() {
    let (actions, state) = drive(vec![
        TurnEvent::Submitted(hello()),
        TurnEvent::Found(conversation()),
        TurnEvent::History(Vec::new()),
        TurnEvent::Stored,
        TurnEvent::PushRefused,
    ]);
    assert_eq!(actions.last(), Some(&TurnAction::Exit(Some(Error::OutboundWriteError))));
    assert_eq!(stored(&actions), vec![(Role::User, "Hello".to_string())]);
    assert_eq!(state, TurnState::Exited);
}

#[test]
fn closed_submission_queue_ends_the_worker_cleanly() {
    let (actions, state) = drive(vec![TurnEvent::QueueClosed]);
    assert_eq!(actions, vec![TurnAction::Exit(None)]);
    assert_eq!(state, TurnState::Exited);
    let (state, action) = state.step(TurnEvent::Submitted(hello()), MODEL);
    assert_eq!((state, action), (TurnState::Exited, TurnAction::Exit(None)));
}

#[test]
fn out_of_turn_events_end_the_worker() {
    let (actions, state) = drive(vec![TurnEvent::Pushed]);
    assert_eq!(actions, vec![TurnAction::Exit(Some(Error::OutOfTurn))]);
    assert_eq!(state, TurnState::Exited);
    let (actions, _) = drive(vec![TurnEvent::Submitted(hello()), chunk("x", false)]);
    assert_eq!(actions.last(), Some(&TurnAction::Exit(Some(Error::OutOfTurn))));
    let mut events = opening();
    events.extend(vec![chunk("x", false), chunk("y", false)]);
    let (actions, _) = drive(events);
    assert_eq!(actions.last(), Some(&TurnAction::Exit(Some(Error::OutOfTurn))));
}

#[test]
fn step_with_uses_the_given_stamp() {
    let state = TurnState::Loading { submission: hello(), conversation_id: C };
    assert!(state.mints(&TurnEvent::History(Vec::new())));
    assert!(!state.mints(&TurnEvent::StorageFailed));
    let (state, action) =
        state.step_with(TurnEvent::History(Vec::new()), MODEL, Stamp { id: 77, at: 88 });
    let prompt = Message {
        id: 77,
        role: Role::User,
        content: "Hello".to_string(),
        conversation_id: C,
        created_at: 88,
    };
    assert_eq!(action, TurnAction::Store(prompt.clone()));
    assert_eq!(
        state,
        TurnState::SavingPrompt { prompt, history: Vec::new(), conversation_id: C }
    );

    let dialing = TurnState::Dialing { conversation_id: 5 };
    assert!(dialing.mints(&TurnEvent::ChatOpened));
    let (state, action) = dialing.step_with(TurnEvent::ChatOpened, MODEL, Stamp { id: 1, at: 2 });
    assert_eq!(action, TurnAction::Pull);
    assert_eq!(
        state,
        TurnState::Streaming {
            reply: Message {
                id: 1,
                role: Role::Assistant,
                content: String::new(),
                conversation_id: 5,
                created_at: 2,
            },
            first: true,
        }
    );
}

#[test]
fn reply_belongs_to_the_conversation_that_was_found() {
    let found = Conversation { id: 42, name: "other".to_string(), created_at: 1 };
    let (actions, _) = drive(vec![
        TurnEvent::Submitted(hello()),
        TurnEvent::Found(found),
        TurnEvent::History(Vec::new()),
        TurnEvent::Stored,
        TurnEvent::Pushed,
        TurnEvent::ChatOpened,
        TurnEvent::StreamEnded,
    ]);
    assert_eq!(actions[1], TurnAction::Load(42));
    match &actions[6] {
        TurnAction::Store(reply) => assert_eq!(reply.conversation_id, 42),
        other => panic!("expected the reply to be stored, got {:?}", other),
    }
}

#[test]
fn events_name_their_failures() {
    assert_eq!(TurnEvent::Missing.failure(), Some(Error::ConversationNotFound));
    assert_eq!(TurnEvent::StorageFailed.failure(), Some(Error::StorageError));
    assert_eq!(TurnEvent::PushRefused.failure(), Some(Error::OutboundWriteError));
    assert_eq!(TurnEvent::ChatFailed.failure(), Some(Error::UpstreamError));
    assert_eq!(TurnEvent::Garbled.failure(), Some(Error::ChunkDecodeError));
    assert_eq!(TurnEvent::Stored.failure(), None);
    assert_eq!(TurnEvent::Pushed.failure(), None);
    assert_eq!(TurnEvent::ChatOpened.failure(), None);
    assert_eq!(TurnEvent::StreamEnded.failure(), None);
    assert_eq!(TurnEvent::QueueClosed.failure(), None);
    assert_eq!(chunk("x", false).failure(), None);
    assert_eq!(TurnEvent::Submitted(hello()).failure(), None);
    assert_eq!(TurnEvent::Found(conversation()).failure(), None);
    assert_eq!(TurnEvent::History(Vec::new()).failure(), None);
}
