use ai_web_assistant::json::{Json, JsonError};
use ai_web_assistant::model::{ChatMessage, ChatSession, ConversationMetadata, MessageData, UserConversations};
use ai_web_assistant::responses::{CommunicationResponse, ConversationSummary, Topic};
use ai_web_assistant::store::MessageManager;
use ai_web_assistant::time::Timestamp;
use ai_web_assistant::wire::{message_json, messages_json, optional_json, time_json};

fn message(id: &str, secs: i64) -> ChatMessage {
    ChatMessage {
        message_id: id.to_string(),
        parent_id: "root".to_string(),
        reply_id: None,
        role: "user".to_string(),
        content: "hi".to_string(),
        edited: false,
        timestamp: Timestamp::new(secs, 0),
        edit_timestamp: None,
    }
}

#[test]
fn instants_are_written_as_rfc_3339() {
    assert_eq!(Timestamp::new(0, 0).write(true).unwrap(), "1970-01-01T00:00:00Z");
    assert_eq!(Timestamp::new(0, 0).write(false).unwrap(), "1970-01-01T00:00:00+00:00");
    assert_eq!(Timestamp::new(1704067200, 0).write(true).unwrap(), "2024-01-01T00:00:00Z");
    assert_eq!(Timestamp::new(1704067200, 250_000_000).write(true).unwrap(), "2024-01-01T00:00:00.250Z");
    assert_eq!(Timestamp::new(1704067200, 1_000).write(true).unwrap(), "2024-01-01T00:00:00.000001Z");
    assert_eq!(Timestamp::new(1704067200, 1).write(false).unwrap(), "2024-01-01T00:00:00.000000001+00:00");
    assert_eq!(Timestamp::new(-1, 0).write(true).unwrap(), "1969-12-31T23:59:59Z");
    assert!(Timestamp::new(i64::MAX, 0).write(true).is_none());
    assert!(Timestamp::new(0, 2_000_000_000).write(true).is_none());
    assert_eq!(time_json(Timestamp::new(0, 0), true).write(), "\"1970-01-01T00:00:00Z\"");
    assert_eq!(time_json(Timestamp::new(i64::MAX, 0), true).write(), "null");
}

#[test]
fn instants_are_read_from_rfc_3339() {
    assert_eq!(Timestamp::parse("1970-01-01T00:00:00Z"), Some(Timestamp::new(0, 0)));
    assert_eq!(Timestamp::parse("2024-01-01T02:00:00.5+02:00"), Some(Timestamp::new(1704067200, 500_000_000)));
    assert_eq!(Timestamp::parse("1969-12-31T23:59:59-00:00"), Some(Timestamp::new(-1, 0)));
    assert_eq!(Timestamp::parse("2024-01-01"), None);
    assert_eq!(Timestamp::parse("yesterday"), None);
    assert_eq!(Timestamp::parse(""), None);
    for t in [Timestamp::new(0, 0), Timestamp::new(1704067200, 123_456_789), Timestamp::new(-86400, 7000)] {
        assert_eq!(Timestamp::parse(&t.write(true).unwrap()), Some(t));
        assert_eq!(Timestamp::parse(&t.write(false).unwrap()), Some(t));
    }
}

#[test]
fn instants_are_ordered_by_seconds_then_nanoseconds() {
    let a = Timestamp::new(1, 5);
    let b = Timestamp::new(1, 6);
    let c = Timestamp::new(2, 0);
    assert!(a.is_before(&b) && b.is_before(&c) && a.is_before(&c));
    assert!(!b.is_before(&a) && !a.is_before(&a));
    assert!(a.is_at_or_before(&a) && a.is_at_or_before(&b) && !c.is_at_or_before(&b));
    assert!(Timestamp::new(-5, 999).is_before(&Timestamp::new(-4, 0)));
}

#[test]
fn a_message_is_written_without_an_edit_time_it_does_not_have() {
    let m = message("m1", 0);
    assert_eq!(
        message_json(&m).write(),
        "{\"content\":\"hi\",\"edited\":false,\"message_id\":\"m1\",\"parent_id\":\"root\",\"reply_id\":null,\"role\":\"user\",\"timestamp\":\"1970-01-01T00:00:00Z\"}"
    );
    assert!(m.to_json().get("edit_timestamp").is_none());
    let mut edited = message("m2", 0);
    edited.edited = true;
    edited.reply_id = Some("m1".to_string());
    edited.edit_timestamp = Some(Timestamp::new(60, 0));
    let json = edited.to_json();
    assert_eq!(json.str_at("edit_timestamp"), Some("1970-01-01T00:01:00Z"));
    assert_eq!(json.str_at("reply_id"), Some("m1"));
    assert_eq!(json.bool_at("edited"), Some(true));
    assert_eq!(messages_json(&vec![m, edited]).as_array().unwrap().len(), 2);
    assert_eq!(messages_json(&Vec::new()).write(), "[]");
    assert_eq!(optional_json(&None).write(), "null");
    assert_eq!(optional_json(&Some("x".to_string())).write(), "\"x\"");
}

#[test]
fn a_message_is_read_as_it_was_written() {
    let mut m = message("m1", 1704067200);
    m.reply_id = Some("m0".to_string());
    m.edited = true;
    m.edit_timestamp = Some(Timestamp::new(1704067201, 5_000_000));
    let back = ChatMessage::from_json(&Json::parse(&m.to_json().write()).unwrap()).unwrap();
    assert_eq!(format!("{:?}", back), format!("{:?}", m));
    let plain = message("m2", 5);
    let back = ChatMessage::from_json(&plain.to_json()).unwrap();
    assert_eq!(format!("{:?}", back), format!("{:?}", plain));
}

#[test]
fn what_is_no_message_is_not_read() {
    let good = "{\"message_id\":\"m\",\"parent_id\":\"root\",\"role\":\"user\",\"content\":\"c\",\"edited\":false,\"timestamp\":\"2024-01-01T00:00:00Z\"}";
    let m = ChatMessage::from_json(&Json::parse(good).unwrap()).unwrap();
    assert_eq!(m.reply_id, None);
    assert_eq!(m.edit_timestamp, None);
    for broken in [
        "{\"parent_id\":\"root\",\"role\":\"user\",\"content\":\"c\",\"edited\":false,\"timestamp\":\"2024-01-01T00:00:00Z\"}",
        "{\"message_id\":\"m\",\"parent_id\":\"root\",\"role\":\"user\",\"content\":\"c\",\"edited\":\"no\",\"timestamp\":\"2024-01-01T00:00:00Z\"}",
        "{\"message_id\":\"m\",\"parent_id\":\"root\",\"role\":\"user\",\"content\":\"c\",\"edited\":false,\"timestamp\":\"soon\"}",
        "{\"message_id\":\"m\",\"parent_id\":\"root\",\"role\":\"user\",\"content\":\"c\",\"edited\":false}",
        "{\"message_id\":\"m\",\"parent_id\":\"root\",\"reply_id\":4,\"role\":\"user\",\"content\":\"c\",\"edited\":false,\"timestamp\":\"2024-01-01T00:00:00Z\"}",
        "{\"message_id\":\"m\",\"parent_id\":\"root\",\"role\":\"user\",\"content\":\"c\",\"edited\":false,\"timestamp\":\"2024-01-01T00:00:00Z\",\"edit_timestamp\":\"never\"}",
        "[]",
    ] {
        assert!(ChatMessage::from_json(&Json::parse(broken).unwrap()).is_none(), "{}", broken);
    }
}

#[test]
fn a_document_is_written_and_read_back() {
    let store = MessageManager::new("messages.json");
    let mut db = MessageData::new();
    let now = Timestamp::new(1704067200, 0);
    store.save_message_at(&mut db, &7, "c1", message("a", 1704067201), now);
    let mut reply = message("b", 1704067202);
    reply.role = "assistant".to_string();
    reply.reply_id = Some("a".to_string());
    store.save_message_at(&mut db, &7, "c1", reply, now);
    store.save_message_at(&mut db, &8, "c2", message("c", 1704067203), now);
    let text = db.save();
    assert!(text.starts_with("{\n  \"users\": {\n    \"7\": {\n      \"conversations\": {\n        \"c1\": {"));
    let back = MessageData::load(&text).unwrap();
    assert_eq!(format!("{:?}", back), format!("{:?}", db));
    assert_eq!(back.to_json().write(), db.to_json().write());
    assert_eq!(MessageData::from_json(&db.to_json()).unwrap().users.len(), 2);
    assert_eq!(MessageData::new().to_json().write(), "{\"users\":{}}");
    assert_eq!(UserConversations::new().to_json().write(), "{\"conversations\":{}}");
    assert_eq!(
        ChatSession::open(Timestamp::new(0, 0)).to_json().write(),
        "{\"created_at\":\"1970-01-01T00:00:00Z\",\"messages\":[],\"title\":\"New Chat\"}"
    );
}

#[test]
fn json_that_is_no_document_stands_for_the_empty_document() {
    for text in [
        "{}",
        "{\"users\": []}",
        "{\"users\": {\"7\": {}}}",
        "{\"users\": {\"7\": {\"conversations\": {\"c\": {\"title\": \"t\"}}}}}",
        "{\"users\": {\"7\": {\"conversations\": {\"c\": {\"title\": \"t\", \"created_at\": \"2024-01-01T00:00:00Z\", \"messages\": [1]}}}}}",
        "{\"sessions\": []}",
    ] {
        assert!(MessageData::load(text).unwrap().users.is_empty(), "{}", text);
    }
    assert!(ChatSession::from_json(&Json::parse("{}").unwrap()).is_none());
    assert!(UserConversations::from_json(&Json::parse("{\"conversations\": 1}").unwrap()).is_none());
    let ok = MessageData::load("{\"users\": {\"9\": {\"conversations\": {}}}, \"extra\": true}").unwrap();
    assert_eq!(ok.users.len(), 1);
    assert_eq!(ok.users[0].0, "9");
}

#[test]
fn a_text_that_is_no_json_stands_for_no_document() {
    assert_eq!(MessageData::load("").unwrap_err(), JsonError::UnexpectedEnd);
    assert_eq!(MessageData::load("{\"users\": {").unwrap_err(), JsonError::UnexpectedEnd);
    assert_eq!(MessageData::load("{]").unwrap_err(), JsonError::Malformed);
    assert_eq!(MessageData::load("not json").unwrap_err(), JsonError::Malformed);
    assert_eq!(MessageData::from_parsed(&Json::parse("{")).unwrap_err(), JsonError::UnexpectedEnd);
    assert!(MessageData::from_parsed(&Json::parse("{}")).unwrap().users.is_empty());
}

#[test]
fn envelopes_are_written_with_their_type() {
    let cases: Vec<(CommunicationResponse, &str)> = vec![
        (
            CommunicationResponse::StreamChunk { chunk: "a\"b".to_string() },
            "{\"chunk\":\"a\\\"b\",\"type\":\"stream_chunk\"}",
        ),
        (
            CommunicationResponse::StreamEnd { status: "success".to_string() },
            "{\"status\":\"success\",\"type\":\"stream_end\"}",
        ),
        (
            CommunicationResponse::SessionCreated {
                status: "session_created".to_string(),
                session_id: "s".to_string(),
                user_id: 7,
            },
            "{\"session_id\":\"s\",\"status\":\"session_created\",\"type\":\"session_created\",\"user_id\":7}",
        ),
        (
            CommunicationResponse::Disconnected { status: "disconnected".to_string() },
            "{\"status\":\"disconnected\",\"type\":\"disconnected\"}",
        ),
        (
            CommunicationResponse::error("invalid_request", "Unknown request type"),
            "{\"error\":\"Unknown request type\",\"status\":\"invalid_request\",\"type\":\"error\"}",
        ),
        (
            CommunicationResponse::AIResponse { status: "ok".to_string(), response: "r".to_string() },
            "{\"response\":\"r\",\"status\":\"ok\",\"type\":\"ai_response\"}",
        ),
        (
            CommunicationResponse::SidebarHistory {
                status: "ok".to_string(),
                conversations: vec![ConversationSummary {
                    conversation_id: "c".to_string(),
                    title: "T".to_string(),
                    created_at: Timestamp::new(0, 0),
                }],
            },
            "{\"conversations\":[{\"conversation_id\":\"c\",\"created_at\":\"1970-01-01T00:00:00Z\",\"title\":\"T\"}],\"status\":\"ok\",\"type\":\"sidebar_history\"}",
        ),
        (
            CommunicationResponse::SidebarTitles {
                status: "ok".to_string(),
                conversations: vec![ConversationMetadata {
                    id: "c".to_string(),
                    title: "T".to_string(),
                    created_at: Timestamp::new(0, 0),
                }],
            },
            "{\"conversations\":[{\"created_at\":\"1970-01-01T00:00:00+00:00\",\"id\":\"c\",\"title\":\"T\"}],\"status\":\"ok\",\"type\":\"sidebar_history\"}",
        ),
        (
            CommunicationResponse::ConversationHistory {
                status: "ok".to_string(),
                conversation_id: "c".to_string(),
                messages: Vec::new(),
            },
            "{\"conversation_id\":\"c\",\"messages\":[],\"status\":\"ok\",\"type\":\"conversation_history\"}",
        ),
        (
            CommunicationResponse::Refused {
                status: "authentication_failed".to_string(),
                error: "Token expired".to_string(),
                code: 401,
                reason: "token_expired".to_string(),
            },
            "{\"code\":401,\"error\":\"Token expired\",\"reason\":\"token_expired\",\"status\":\"authentication_failed\",\"type\":\"error\"}",
        ),
        (
            CommunicationResponse::MessageEdited {
                status: "ok".to_string(),
                content_id: "m".to_string(),
                content: "c".to_string(),
            },
            "{\"content\":\"c\",\"content_id\":\"m\",\"status\":\"ok\",\"type\":\"message_edited\"}",
        ),
        (
            CommunicationResponse::ContentTitleEdited {
                status: "ok".to_string(),
                message_id: "m".to_string(),
                content: "c".to_string(),
                conversation_title: "t".to_string(),
            },
            "{\"content\":\"c\",\"conversation_title\":\"t\",\"message_id\":\"m\",\"status\":\"ok\",\"type\":\"content_title_edited\"}",
        ),
        (
            CommunicationResponse::Deleted {
                status: "ok".to_string(),
                deleted_type: "message".to_string(),
                target_id: "m".to_string(),
                title: Some("T".to_string()),
                message: "Deleted message from conversation: T".to_string(),
            },
            "{\"deleted_type\":\"message\",\"message\":\"Deleted message from conversation: T\",\"status\":\"ok\",\"target_id\":\"m\",\"title\":\"T\",\"type\":\"deleted\"}",
        ),
        (
            CommunicationResponse::AllMessages { status: "ok".to_string(), messages: Vec::new(), total_count: 0 },
            "{\"messages\":[],\"status\":\"ok\",\"total_count\":0,\"type\":\"all_messages\"}",
        ),
        (
            CommunicationResponse::failed(Topic::Deleted, "Failed to delete: x".to_string()),
            "{\"error\":\"Failed to delete: x\",\"status\":\"error\",\"type\":\"deleted\"}",
        ),
    ];
    for (envelope, text) in cases {
        assert_eq!(envelope.to_text(), text);
        assert_eq!(envelope.to_json().write(), text);
    }
    let created = CommunicationResponse::MessageCreated {
        status: "message_created".to_string(),
        message_id: "m1".to_string(),
        message: message("m1", 0),
    };
    let json = created.to_json();
    assert_eq!(json.str_at("type"), Some("message_created"));
    assert_eq!(json.str_at("message_id"), Some("m1"));
    assert_eq!(json.get("message").unwrap().str_at("content"), Some("hi"));
}

#[test]
fn topics_name_the_type_of_their_failure() {
    assert_eq!(Topic::SidebarHistory.name(), "sidebar_history");
    assert_eq!(Topic::MessageEdited.name(), "message_edited");
    assert_eq!(Topic::ContentTitleEdited.name(), "content_title_edited");
    assert_eq!(Topic::Deleted.name(), "deleted");
    assert_eq!(Topic::AllMessages.name(), "all_messages");
}
