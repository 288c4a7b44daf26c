use lokai::error::Error;
use lokai::models::{Conversation, Message, PromptSubmission};
use lokai::ollama::{
    default_model, OllamaChatParams, OllamaChatResponse, OllamaChatResponseStream, OllamaMessage,
};
use lokai::role::Role;
use lokai::stamp::Stamp;
use lokai::text::{is_white_space, strip_leading};

const CONVERSATION: u128 = 0xa310afea_981e_4054_924a_37090ac227e2;

#[test]
fn stamped_message_holds_what_it_was_given() {
    let message = Message::stamped(
        Stamp { id: 5, at: 1_700_000_000_000 },
        Role::System,
        "be brief".to_string(),
        CONVERSATION,
    );
    assert_eq!(
        message,
        Message {
            id: 5,
            role: Role::System,
            content: "be brief".to_string(),
            conversation_id: CONVERSATION,
            created_at: 1_700_000_000_000,
        }
    );
}

#[test]
fn user_message_is_of_the_user() {
    let message = Message::user("content".to_string(), CONVERSATION);
    assert_eq!(message.role, Role::User);
    assert_eq!(message.role.to_string(), Role::User.to_string());
    assert_eq!(message.content, "content");
    assert_eq!(message.conversation_id, CONVERSATION);
}

#[test]
fn assistant_message_is_of_the_assistant() {
    let message = Message::assistant("".to_string(), CONVERSATION);
    assert_eq!(message.role, Role::Assistant);
    assert_eq!(message.content, "");
    assert_eq!(message.conversation_id, CONVERSATION);
}

#[test]
fn new_messages_get_random_uuids() {
    let first = Message::user("a".to_string(), CONVERSATION);
    let second = Message::user("a".to_string(), CONVERSATION);
    assert_ne!(first.id, second.id);
    let id = uuid::Uuid::from_u128(first.id);
    assert_eq!(id.get_version_num(), 4);
    assert_eq!(id.get_variant(), uuid::Variant::RFC4122);
    assert_eq!(
        first.id & 0x0000_0000_0000_F000_C000_0000_0000_0000,
        0x0000_0000_0000_4000_8000_0000_0000_0000
    );
}

#[test]
fn new_messages_are_created_now() {
    let before = chrono::Utc::now().timestamp_millis();
    let message = Message::assistant("".to_string(), CONVERSATION);
    let after = chrono::Utc::now().timestamp_millis();
    assert!(before <= message.created_at);
    assert!(message.created_at <= after);
    assert!(message.created_at > 1_600_000_000_000);
}

#[test]
fn fresh_stamps_differ() {
    let first = Stamp::fresh();
    let second = Stamp::fresh();
    assert_ne!(first.id, second.id);
    assert!(first.at <= second.at);
}

#[test]
fn update_content_appends() {
    let mut message = Message::stamped(
        Stamp { id: 1, at: 2 },
        Role::Assistant,
        "I ".to_string(),
        CONVERSATION,
    );
    message.update_content("am ");
    message.update_content("");
    message.update_content("fine");
    assert_eq!(message.content, "I am fine");
    assert_eq!(message.id, 1);
    assert_eq!(message.created_at, 2);
    assert_eq!(message.role, Role::Assistant);
    assert_eq!(message.conversation_id, CONVERSATION);
}

#[test]
fn message_clone_is_equal() {
    let message = Message::user("héllo".to_string(), CONVERSATION);
    assert_eq!(message.clone(), message);
}

#[test]
fn new_conversation_has_the_name() {
    let conversation = Conversation::new("name".to_string());
    assert_eq!(conversation.name, "name");
    assert_eq!(uuid::Uuid::from_u128(conversation.id).get_version_num(), 4);
    let other = Conversation::new("name".to_string());
    assert_ne!(conversation.id, other.id);
    assert_eq!(conversation.clone(), conversation);
}

#[test]
fn stamped_conversation_holds_what_it_was_given() {
    let conversation = Conversation::stamped(Stamp { id: 9, at: 10 }, "test".to_string());
    assert_eq!(
        conversation,
        Conversation { id: 9, name: "test".to_string(), created_at: 10 }
    );
}

#[test]
fn submission_parse_reads_the_uuid() {
    let submission = PromptSubmission::parse(
        "Hello".to_string(),
        "a310afea-981e-4054-924a-37090ac227e2",
    );
    assert_eq!(
        submission,
        Ok(PromptSubmission { content: "Hello".to_string(), conversation_id: CONVERSATION })
    );
    let simple = PromptSubmission::parse("x".to_string(), "a310afea981e4054924a37090ac227e2");
    assert_eq!(simple.map(|s| s.conversation_id), Ok(CONVERSATION));
    let other = PromptSubmission::parse(
        "x".to_string(),
        "00000000-0000-0000-0000-000000000001",
    );
    assert_eq!(other.map(|s| s.conversation_id), Ok(1));
}

#[test]
fn submission_parse_rejects_what_is_no_uuid() {
    assert_eq!(
        PromptSubmission::parse("Hello".to_string(), "not-a-uuid"),
        Err(Error::ConnectionProtocolError)
    );
    assert_eq!(
        PromptSubmission::parse("Hello".to_string(), ""),
        Err(Error::ConnectionProtocolError)
    );
    assert_eq!(
        PromptSubmission::parse("Hello".to_string(), "a310afea-981e-4054-924a-37090ac227e"),
        Err(Error::ConnectionProtocolError)
    );
}

#[test]
fn submission_addressed_needs_an_identifier() {
    assert_eq!(
        PromptSubmission::addressed("Hello".to_string(), Some(3)),
        Ok(PromptSubmission { content: "Hello".to_string(), conversation_id: 3 })
    );
    assert_eq!(
        PromptSubmission::addressed("Hello".to_string(), None),
        Err(Error::ConnectionProtocolError)
    );
}

#[test]
fn strip_leading_cuts_whitespace_at_the_front_only() {
    assert_eq!(strip_leading(" I "), "I ");
    assert_eq!(strip_leading("I "), "I ");
    assert_eq!(strip_leading(" \n\t\r hello world \n"), "hello world \n");
    assert_eq!(strip_leading(""), "");
    assert_eq!(strip_leading("   "), "");
    assert_eq!(strip_leading("\u{a0}\u{3000}x y"), "x y");
    assert_eq!(strip_leading("a b"), "a b");
    assert_eq!(strip_leading("\u{200b} x"), "\u{200b} x");
}

#[test]
fn default_model_is_mistral() {
    assert_eq!(default_model(), "mistral:7b");
}

#[test]
fn upstream_message_keeps_role_and_content() {
    let message = Message::stamped(
        Stamp { id: 1, at: 2 },
        Role::User,
        "Hello".to_string(),
        CONVERSATION,
    );
    assert_eq!(
        OllamaMessage::from(message),
        OllamaMessage { role: Role::User, content: "Hello".to_string() }
    );
}

#[test]
fn chat_request_lists_the_messages_in_order() {
    let messages = vec![
        Message::stamped(Stamp { id: 1, at: 1 }, Role::System, "s".to_string(), 7),
        Message::stamped(Stamp { id: 2, at: 2 }, Role::User, "u".to_string(), 7),
        Message::stamped(Stamp { id: 3, at: 3 }, Role::Assistant, "a".to_string(), 7),
    ];
    let params = OllamaChatParams::for_messages("phi3:3.8b".to_string(), &messages, true);
    assert_eq!(
        params,
        OllamaChatParams {
            model: "phi3:3.8b".to_string(),
            messages: vec![
                OllamaMessage { role: Role::System, content: "s".to_string() },
                OllamaMessage { role: Role::User, content: "u".to_string() },
                OllamaMessage { role: Role::Assistant, content: "a".to_string() },
            ],
            stream: true,
        }
    );
    let none = OllamaChatParams::for_messages(default_model(), &Vec::new(), false);
    assert_eq!(
        none,
        OllamaChatParams { model: "mistral:7b".to_string(), messages: vec![], stream: false }
    );
}

#[test]
fn upstream_shapes_clone_equal() {
    let message = OllamaMessage { role: Role::Assistant, content: "x".to_string() };
    assert_eq!(message.clone(), message);
    let response = OllamaChatResponse { message: message.clone() };
    assert_eq!(response.clone(), response);
    let chunk = OllamaChatResponseStream { message, done: true };
    assert_eq!(chunk.clone(), chunk);
}

#[test]
fn whitespace_is_what_trimming_cuts() {
    let mut count = 0;
    for n in 0..=0x10FFFFu32 {
        if let Some(c) = char::from_u32(n) {
            let mut text = String::new();
            text.push(c);
            text.push('x');
            let cut = strip_leading(&text) == "x";
            assert_eq!(cut, is_white_space(c), "U+{:04X}", n);
            if cut {
                count += 1;
            }
        }
    }
    assert_eq!(count, 25);
    assert!(is_white_space(' '));
    assert!(is_white_space('\n'));
    assert!(is_white_space('\u{b}'));
    assert!(is_white_space('\u{3000}'));
    assert!(!is_white_space('I'));
    assert!(!is_white_space('\u{200b}'));
    assert!(!is_white_space('\u{180e}'));
}
