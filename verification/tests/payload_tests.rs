use ai_web_assistant::json::Json;
use ai_web_assistant::payloads::{CommunicationRequest, ConnectionRequest};

fn control(text: &str) -> Option<ConnectionRequest> {
    ConnectionRequest::from_json(&Json::parse(text).unwrap())
}

fn domain(text: &str) -> Option<CommunicationRequest> {
    CommunicationRequest::from_json(&Json::parse(text).unwrap())
}

#[test]
fn control_requests_are_read() {
    match control("{\"type\": \"start_connection\", \"token\": \"abc\"}") {
        Some(ConnectionRequest::StartConnection { token }) => assert_eq!(token, "abc"),
        other => panic!("unexpected: {:?}", other),
    }
    match control("{\"type\": \"disconnect\", \"session_id\": \"s1\", \"user_id\": 12}") {
        Some(ConnectionRequest::Disconnect { session_id, user_id }) => {
            assert_eq!(session_id, "s1");
            assert_eq!(user_id, 12);
        },
        other => panic!("unexpected: {:?}", other),
    }
}

#[test]
fn control_requests_with_missing_or_wrong_members_are_none() {
    assert!(control("{\"type\": \"start_connection\"}").is_none());
    assert!(control("{\"type\": \"start_connection\", \"token\": 5}").is_none());
    assert!(control("{\"type\": \"disconnect\", \"session_id\": \"s1\"}").is_none());
    assert!(control("{\"type\": \"disconnect\", \"session_id\": \"s1\", \"user_id\": -1}").is_none());
    assert!(control("{\"type\": \"disconnect\", \"session_id\": \"s1\", \"user_id\": \"12\"}").is_none());
    assert!(control("{\"type\": \"disconnect\", \"session_id\": \"s1\", \"user_id\": 1.5}").is_none());
    assert!(control("{\"type\": \"ai_request\", \"prompt\": \"p\", \"session_id\": \"s\"}").is_none());
    assert!(control("{\"token\": \"abc\"}").is_none());
    assert!(control("{\"type\": 3}").is_none());
    assert!(control("[1]").is_none());
    assert!(control("\"disconnect\"").is_none());
}

#[test]
fn domain_requests_are_read() {
    match domain("{\"type\": \"ai_request\", \"prompt\": \"hi\", \"session_id\": \"s1\"}") {
        Some(CommunicationRequest::AIRequest { prompt, session_id }) => {
            assert_eq!(prompt, "hi");
            assert_eq!(session_id, "s1");
        },
        other => panic!("unexpected: {:?}", other),
    }
    match domain("{\"type\": \"fetch_sidebar_history\", \"user_id\": 4}") {
        Some(CommunicationRequest::FetchSidebarHistory { user_id }) => assert_eq!(user_id, 4),
        other => panic!("unexpected: {:?}", other),
    }
    match domain("{\"type\": \"fetch_conversation\", \"conversation_id\": \"c\"}") {
        Some(CommunicationRequest::FetchConversation { conversation_id }) => {
            assert_eq!(conversation_id, "c")
        },
        other => panic!("unexpected: {:?}", other),
    }
    match domain("{\"type\": \"start_new_session\", \"user_id\": 18446744073709551615}") {
        Some(CommunicationRequest::StartNewSession { user_id }) => assert_eq!(user_id, u64::MAX),
        other => panic!("unexpected: {:?}", other),
    }
    match domain("{\"type\": \"edit_content_title\", \"content_id\": \"m\", \"content\": \"x\"}") {
        Some(CommunicationRequest::EditMessageContentById { content_id, content }) => {
            assert_eq!(content_id, "m");
            assert_eq!(content, "x");
        },
        other => panic!("unexpected: {:?}", other),
    }
    match domain("{\"type\": \"edit_content\", \"message_id\": \"m\", \"content\": \"t\"}") {
        Some(CommunicationRequest::EditContentTitleById { message_id, content }) => {
            assert_eq!(message_id, "m");
            assert_eq!(content, "t");
        },
        other => panic!("unexpected: {:?}", other),
    }
    match domain("{\"type\": \"delete_content\", \"target_id\": \"t\", \"extra\": [1, 2]}") {
        Some(CommunicationRequest::DeleteContentTById { target_id }) => assert_eq!(target_id, "t"),
        other => panic!("unexpected: {:?}", other),
    }
    match domain("{\"type\": \"fetch_all_messages\"}") {
        Some(CommunicationRequest::FetchAllMessages) => {},
        other => panic!("unexpected: {:?}", other),
    }
}

#[test]
fn domain_requests_with_missing_or_wrong_members_are_none() {
    assert!(domain("{\"type\": \"ai_request\", \"prompt\": \"hi\"}").is_none());
    assert!(domain("{\"type\": \"ai_request\", \"session_id\": \"s\"}").is_none());
    assert!(domain("{\"type\": \"ai_request\", \"prompt\": 1, \"session_id\": \"s\"}").is_none());
    assert!(domain("{\"type\": \"fetch_sidebar_history\"}").is_none());
    assert!(domain("{\"type\": \"fetch_sidebar_history\", \"user_id\": \"4\"}").is_none());
    assert!(domain("{\"type\": \"fetch_conversation\"}").is_none());
    assert!(domain("{\"type\": \"start_new_session\", \"user_id\": -4}").is_none());
    assert!(domain("{\"type\": \"edit_content_title\", \"content_id\": \"m\"}").is_none());
    assert!(domain("{\"type\": \"edit_content\", \"content\": \"m\"}").is_none());
    assert!(domain("{\"type\": \"delete_content\"}").is_none());
    assert!(domain("{\"type\": \"no_such_request\"}").is_none());
    assert!(domain("{\"type\": \"disconnect\", \"session_id\": \"s1\", \"user_id\": 12}").is_none());
    assert!(domain("{}").is_none());
    assert!(domain("null").is_none());
}
