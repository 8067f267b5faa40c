use ai_web_assistant::json::JsonError;
use ai_web_assistant::model::MessageData;
use ai_web_assistant::opening::{judge_reading, open_document, Access, LoadError, Opening};
use ai_web_assistant::operations::access_of;
use ai_web_assistant::payloads::CommunicationRequest;
use ai_web_assistant::store::MessageManager;
use ai_web_assistant::titles::{Look, RetryPolicy};

const DOC: &str = "{\"users\": {\"7\": {\"conversations\": {}}}}";

fn text(t: &str) -> Look {
    Look::Text(t.to_string())
}

#[test]
fn requests_read_or_write_the_document() {
    let s = |t: &str| t.to_string();
    assert_eq!(access_of(&CommunicationRequest::AIRequest { prompt: s("p"), session_id: s("c") }), Access::Write);
    assert_eq!(
        access_of(&CommunicationRequest::EditMessageContentById { content_id: s("m"), content: s("c") }),
        Access::Write
    );
    assert_eq!(
        access_of(&CommunicationRequest::EditContentTitleById { message_id: s("m"), content: s("c") }),
        Access::Write
    );
    assert_eq!(access_of(&CommunicationRequest::DeleteContentTById { target_id: s("t") }), Access::Write);
    assert_eq!(access_of(&CommunicationRequest::FetchConversation { conversation_id: s("c") }), Access::Read);
    assert_eq!(access_of(&CommunicationRequest::FetchAllMessages), Access::Read);
    assert_eq!(access_of(&CommunicationRequest::FetchSidebarHistory { user_id: 1 }), Access::Read);
}

#[test]
fn a_whole_file_is_opened_at_once() {
    let policy = RetryPolicy::standard();
    for access in [Access::Read, Access::Write] {
        match open_document(&policy, 0, &text(DOC), access) {
            Opening::Ready(db) => assert_eq!(db.users.len(), 1),
            other => panic!("unexpected: {:?}", other),
        }
        match open_document(&policy, 0, &Look::Missing, access) {
            Opening::Ready(db) => assert!(db.users.is_empty()),
            other => panic!("unexpected: {:?}", other),
        }
        // JSON that is no document stands for the document without users.
        match open_document(&policy, 0, &text("{\"sessions\": []}"), access) {
            Opening::Ready(db) => assert!(db.users.is_empty()),
            other => panic!("unexpected: {:?}", other),
        }
    }
}

#[test]
fn a_file_that_is_no_json_fails_every_operation_at_once() {
    let policy = RetryPolicy::standard();
    for access in [Access::Read, Access::Write] {
        for attempt in [0, 4] {
            assert!(matches!(
                open_document(&policy, attempt, &text("{]"), access),
                Opening::Failed(LoadError::Malformed)
            ));
        }
        match open_document(&policy, 0, &Look::Unreadable("denied".to_string()), access) {
            Opening::Failed(LoadError::Unreadable { reason }) => assert_eq!(reason, "denied"),
            other => panic!("unexpected: {:?}", other),
        }
    }
}

#[test]
fn an_incomplete_file_is_looked_at_again() {
    let policy = RetryPolicy::standard();
    for access in [Access::Read, Access::Write] {
        for look in [Look::Empty, text(""), text("  \n"), text("{\"users\": {\"7\"")] {
            for attempt in 0..4 {
                assert!(matches!(
                    open_document(&policy, attempt, &look, access),
                    Opening::Retry { after_ms: 100 }
                ));
            }
        }
    }
}

#[test]
fn after_the_last_look_reads_go_on_and_writes_fail() {
    let policy = RetryPolicy { max_attempts: 3, delay_ms: 10 };
    for look in [Look::Empty, text(" "), text("{\"users\": {")] {
        match open_document(&policy, 2, &look, Access::Read) {
            Opening::Ready(db) => assert!(db.users.is_empty()),
            other => panic!("unexpected: {:?}", other),
        }
        match open_document(&policy, 2, &look, Access::Write) {
            Opening::Failed(LoadError::Unfinished { attempts }) => assert_eq!(attempts, 3),
            other => panic!("unexpected: {:?}", other),
        }
    }
    let store = MessageManager::new("messages.json");
    assert!(matches!(
        store.open_document(&policy, 2, &text("{\"users\": {"), Access::Write),
        Opening::Failed(LoadError::Unfinished { attempts: 3 })
    ));
    assert!(matches!(
        store.open_document(&policy, 1, &text("{\"users\": {"), Access::Write),
        Opening::Retry { after_ms: 10 }
    ));
}

#[test]
fn what_was_read_is_judged() {
    let policy = RetryPolicy::standard();
    assert!(matches!(judge_reading(&policy, 0, Ok(MessageData::new()), Access::Write), Opening::Ready(_)));
    assert!(matches!(
        judge_reading(&policy, 0, Err(JsonError::Malformed), Access::Read),
        Opening::Failed(LoadError::Malformed)
    ));
    assert!(matches!(
        judge_reading(&policy, 0, Err(JsonError::UnexpectedEnd), Access::Write),
        Opening::Retry { .. }
    ));
    assert!(matches!(
        judge_reading(&policy, 4, Err(JsonError::UnexpectedEnd), Access::Read),
        Opening::Ready(_)
    ));
}

#[test]
fn load_errors_are_put_in_words() {
    assert_eq!(
        LoadError::Unfinished { attempts: 5 }.message(),
        "Document still incomplete after 5 attempts"
    );
    assert_eq!(LoadError::Malformed.message(), "Document is not valid JSON");
    assert_eq!(
        LoadError::Unreadable { reason: "denied".to_string() }.message(),
        "Document could not be read: denied"
    );
}
