use ai_web_assistant::model::{ChatMessage, ConversationMetadata, MessageData};
use ai_web_assistant::operations::{
    assistant_message, begin_prompt, begin_prompt_now, delete_content, edit_content, edit_title,
    fetch_all_messages, needs, on_document, on_document_failure, on_session_index, on_titles,
    session_not_recorded, user_message, Needs,
};
use ai_web_assistant::payloads::CommunicationRequest;
use ai_web_assistant::responses::{CommunicationResponse, Topic};
use ai_web_assistant::session_index::AuthSession;
use ai_web_assistant::store::MessageManager;
use ai_web_assistant::time::Timestamp;
use ai_web_assistant::titles::TitlesError;

fn seeded() -> (MessageManager, MessageData) {
    let store = MessageManager::new("messages.json");
    let mut db = MessageData::new();
    let now = Timestamp::new(0, 0);
    store.save_message_at(&mut db, &7, "c1", user_message("first question", "a", Timestamp::new(1, 0)), now);
    store.save_message_at(
        &mut db,
        &7,
        "c1",
        assistant_message("msg_a", "an answer".to_string(), "r".to_string(), Timestamp::new(2, 0)),
        now,
    );
    store.save_message_at(&mut db, &7, "c2", user_message("second", "b", Timestamp::new(3, 0)), now);
    (store, db)
}

fn failed(reply: CommunicationResponse) -> (Topic, String, String) {
    match reply {
        CommunicationResponse::Failed { topic, status, error } => (topic, status, error),
        other => panic!("unexpected: {:?}", other),
    }
}

#[test]
fn requests_say_what_they_need() {
    assert_eq!(needs(&CommunicationRequest::FetchSidebarHistory { user_id: 1 }), Needs::Titles);
    assert_eq!(needs(&CommunicationRequest::StartNewSession { user_id: 1 }), Needs::SessionIndex);
    assert_eq!(needs(&CommunicationRequest::FetchAllMessages), Needs::Document);
    assert_eq!(
        needs(&CommunicationRequest::AIRequest { prompt: "p".to_string(), session_id: "s".to_string() }),
        Needs::Document
    );
    assert_eq!(
        needs(&CommunicationRequest::FetchConversation { conversation_id: "c".to_string() }),
        Needs::Document
    );
    assert_eq!(
        needs(&CommunicationRequest::DeleteContentTById { target_id: "c".to_string() }),
        Needs::Document
    );
}

#[test]
fn messages_are_made_for_prompts_and_answers() {
    let m: ChatMessage = user_message("hello", "1234", Timestamp::new(5, 6));
    assert_eq!(m.message_id, "msg_1234");
    assert_eq!(m.parent_id, "root");
    assert_eq!(m.reply_id, None);
    assert_eq!(m.role, "user");
    assert_eq!(m.content, "hello");
    assert!(!m.edited);
    assert_eq!(m.timestamp, Timestamp::new(5, 6));
    assert_eq!(m.edit_timestamp, None);
    let a = assistant_message("msg_1234", "hi".to_string(), "id-9".to_string(), Timestamp::new(7, 0));
    assert_eq!(a.message_id, "id-9");
    assert_eq!(a.parent_id, "root");
    assert_eq!(a.reply_id.as_deref(), Some("msg_1234"));
    assert_eq!(a.role, "assistant");
    assert_eq!(a.content, "hi");
    assert!(!a.edited);
}

#[test]
fn a_prompt_is_begun() {
    let (message, reply, job) = begin_prompt("why?", "chat-1", "tail", Timestamp::new(1, 1));
    assert_eq!(message.message_id, "msg_tail");
    match reply {
        CommunicationResponse::MessageCreated { status, message_id, message: inner } => {
            assert_eq!(status, "message_created");
            assert_eq!(message_id, "msg_tail");
            assert_eq!(inner.content, "why?");
        },
        other => panic!("unexpected: {:?}", other),
    }
    assert_eq!((job.prompt.as_str(), job.chat_id.as_str(), job.user_message_id.as_str()), ("why?", "chat-1", "msg_tail"));
    let (m1, _, j1) = begin_prompt_now("p", "c");
    let (m2, _, _) = begin_prompt_now("p", "c");
    assert!(m1.message_id.starts_with("msg_"));
    assert_eq!(m1.message_id.len(), 4 + 36);
    assert_ne!(m1.message_id, m2.message_id);
    assert_eq!(j1.user_message_id, m1.message_id);
    assert_eq!(m1.content, "p");
}

#[test]
fn all_messages_are_fetched_with_their_number() {
    let (store, db) = seeded();
    match fetch_all_messages(&store, &db, 7) {
        CommunicationResponse::AllMessages { status, messages, total_count } => {
            assert_eq!(status, "ok");
            assert_eq!(total_count, 3);
            let ids: Vec<&str> = messages.iter().map(|m| m.message_id.as_str()).collect();
            assert_eq!(ids, vec!["msg_a", "r", "msg_b"]);
        },
        other => panic!("unexpected: {:?}", other),
    }
    match fetch_all_messages(&store, &db, 8) {
        CommunicationResponse::AllMessages { messages, total_count, .. } => {
            assert!(messages.is_empty());
            assert_eq!(total_count, 0);
        },
        other => panic!("unexpected: {:?}", other),
    }
}

#[test]
fn content_is_edited_or_the_failure_told() {
    let (store, mut db) = seeded();
    let (reply, changed) = edit_content(&store, &mut db, 7, "msg_b", "changed", Timestamp::new(9, 0));
    assert!(changed);
    match reply {
        CommunicationResponse::MessageEdited { status, content_id, content } => {
            assert_eq!((status.as_str(), content_id.as_str(), content.as_str()), ("ok", "msg_b", "changed"));
        },
        other => panic!("unexpected: {:?}", other),
    }
    assert_eq!(store.get_user_messages(&db, "7", Some("c2"))[0].content, "changed");
    let before = format!("{:?}", db);
    let (reply, changed) = edit_content(&store, &mut db, 7, "nope", "x", Timestamp::new(9, 0));
    assert!(!changed);
    assert_eq!(
        failed(reply),
        (Topic::MessageEdited, "error".to_string(), "Failed to edit message: Message not found: nope".to_string())
    );
    assert_eq!(format!("{:?}", db), before);
}

#[test]
fn a_title_is_edited_or_the_failure_told() {
    let (store, mut db) = seeded();
    let (reply, changed) = edit_title(&store, &mut db, 7, "msg_a", "A title that is longer than thirty characters");
    assert!(changed);
    match reply {
        CommunicationResponse::ContentTitleEdited { status, message_id, content, conversation_title } => {
            assert_eq!(status, "ok");
            assert_eq!(message_id, "msg_a");
            assert_eq!(content, "A title that is longer than thirty characters");
            assert_eq!(conversation_title, "A title that is longer than th...");
        },
        other => panic!("unexpected: {:?}", other),
    }
    let (reply, changed) = edit_title(&store, &mut db, 7, "zz", "t");
    assert!(!changed);
    assert_eq!(
        failed(reply),
        (
            Topic::ContentTitleEdited,
            "error".to_string(),
            "Failed to edit content and title: Target not found: zz".to_string()
        )
    );
}

#[test]
fn content_is_deleted_or_the_failure_told() {
    let (store, mut db) = seeded();
    let (reply, changed) = delete_content(&store, &mut db, 7, "msg_b");
    assert!(changed);
    match reply {
        CommunicationResponse::Deleted { status, deleted_type, target_id, title, message } => {
            assert_eq!(status, "ok");
            assert_eq!(deleted_type, "message_and_now_empty_conversation");
            assert_eq!(target_id, "msg_b");
            assert_eq!(title.as_deref(), Some("second"));
            assert_eq!(message, "Deleted message and empty conversation: second");
        },
        other => panic!("unexpected: {:?}", other),
    }
    let (reply, changed) = delete_content(&store, &mut db, 7, "msg_b");
    assert!(!changed);
    assert_eq!(
        failed(reply),
        (Topic::Deleted, "error".to_string(), "Failed to delete: Target not found: msg_b".to_string())
    );
}

#[test]
fn requests_are_answered_against_the_document() {
    let (store, mut db) = seeded();
    let now = Timestamp::new(50, 0);
    let o = on_document(&store, &mut db, 7, &CommunicationRequest::FetchAllMessages, "t", now);
    assert!(matches!(o.reply, Some(CommunicationResponse::AllMessages { total_count: 3, .. })));
    assert!(!o.changed && o.job.is_none());
    let edit = CommunicationRequest::EditMessageContentById {
        content_id: "msg_a".to_string(),
        content: "new".to_string(),
    };
    let o = on_document(&store, &mut db, 7, &edit, "t", now);
    assert!(matches!(o.reply, Some(CommunicationResponse::MessageEdited { .. })));
    assert!(o.changed && o.job.is_none());
    let listed = store.get_user_messages(&db, "7", Some("c1"));
    assert_eq!(listed[0].content, "new");
    assert_eq!(listed[0].edit_timestamp, Some(now));
    let rename = CommunicationRequest::EditContentTitleById {
        message_id: "c1".to_string(),
        content: "Renamed".to_string(),
    };
    let o = on_document(&store, &mut db, 7, &rename, "t", now);
    assert!(matches!(o.reply, Some(CommunicationResponse::ContentTitleEdited { .. })));
    assert!(o.changed);
    let delete = CommunicationRequest::DeleteContentTById { target_id: "c1".to_string() };
    let o = on_document(&store, &mut db, 7, &delete, "t", now);
    match o.reply {
        Some(CommunicationResponse::Deleted { deleted_type, title, .. }) => {
            assert_eq!(deleted_type, "conversation");
            assert_eq!(title.as_deref(), Some("Renamed"));
        },
        other => panic!("unexpected: {:?}", other),
    }
    assert!(o.changed);
    let o = on_document(&store, &mut db, 7, &delete, "t", now);
    assert!(matches!(o.reply, Some(CommunicationResponse::Failed { topic: Topic::Deleted, .. })));
    assert!(!o.changed);
    // Requests that need something else are not answered here.
    let before = format!("{:?}", db);
    for request in [
        CommunicationRequest::FetchSidebarHistory { user_id: 7 },
        CommunicationRequest::StartNewSession { user_id: 7 },
    ] {
        let o = on_document(&store, &mut db, 7, &request, "t", now);
        assert!(o.reply.is_none() && !o.changed && o.job.is_none());
    }
    assert_eq!(format!("{:?}", db), before);
}

#[test]
fn a_document_that_cannot_be_read_is_told() {
    let now = Timestamp::new(1, 0);
    let prompt = CommunicationRequest::AIRequest { prompt: "p".to_string(), session_id: "s".to_string() };
    let o = on_document_failure(&prompt, "disk full", "t1", now);
    match o.reply {
        Some(CommunicationResponse::MessageCreated { message_id, .. }) => assert_eq!(message_id, "msg_t1"),
        other => panic!("unexpected: {:?}", other),
    }
    assert!(!o.changed);
    assert_eq!(o.job.unwrap().user_message_id, "msg_t1");
    let fetch = CommunicationRequest::FetchConversation { conversation_id: "c".to_string() };
    match on_document_failure(&fetch, "disk full", "t", now).reply {
        Some(CommunicationResponse::Error { status, error }) => {
            assert_eq!((status.as_str(), error.as_str()), ("error", "Failed to fetch conversation"));
        },
        other => panic!("unexpected: {:?}", other),
    }
    for (request, topic, words) in [
        (CommunicationRequest::FetchAllMessages, Topic::AllMessages, "Failed to fetch all messages: disk full"),
        (
            CommunicationRequest::EditMessageContentById { content_id: "a".to_string(), content: "b".to_string() },
            Topic::MessageEdited,
            "Failed to edit message: disk full",
        ),
        (
            CommunicationRequest::EditContentTitleById { message_id: "a".to_string(), content: "b".to_string() },
            Topic::ContentTitleEdited,
            "Failed to edit content and title: disk full",
        ),
        (
            CommunicationRequest::DeleteContentTById { target_id: "a".to_string() },
            Topic::Deleted,
            "Failed to delete: disk full",
        ),
    ] {
        let o = on_document_failure(&request, "disk full", "t", now);
        assert_eq!(failed(o.reply.unwrap()), (topic, "error".to_string(), words.to_string()));
        assert!(!o.changed && o.job.is_none());
    }
    let o = on_document_failure(&CommunicationRequest::StartNewSession { user_id: 1 }, "x", "t", now);
    assert!(o.reply.is_none() && o.job.is_none());
}

#[test]
fn titles_are_answered() {
    let list = vec![ConversationMetadata {
        id: "c".to_string(),
        title: "T".to_string(),
        created_at: Timestamp::new(1, 0),
    }];
    match on_titles(Ok(list)) {
        CommunicationResponse::SidebarTitles { status, conversations } => {
            assert_eq!(status, "ok");
            assert_eq!(conversations.len(), 1);
            assert_eq!(conversations[0].title, "T");
        },
        other => panic!("unexpected: {:?}", other),
    }
    assert_eq!(
        failed(on_titles(Err(TitlesError::Malformed))),
        (
            Topic::SidebarHistory,
            "error".to_string(),
            "Failed to fetch conversations: Failed to parse messages.json".to_string()
        )
    );
}

#[test]
fn a_session_is_resumed_or_opened() {
    let mut index = AuthSession::empty();
    let (reply, opened) = on_session_index(&mut index, 4, "new-1".to_string(), Timestamp::new(1, 0));
    assert!(opened);
    match reply {
        CommunicationResponse::SessionCreated { status, session_id, user_id } => {
            assert_eq!((status.as_str(), session_id.as_str(), user_id), ("ok", "new-1", 4));
        },
        other => panic!("unexpected: {:?}", other),
    }
    let (reply, opened) = on_session_index(&mut index, 4, "new-2".to_string(), Timestamp::new(2, 0));
    assert!(!opened);
    assert!(matches!(reply, CommunicationResponse::SessionCreated { session_id, .. } if session_id == "new-1"));
    let (reply, opened) = on_session_index(&mut index, 5, "new-3".to_string(), Timestamp::new(3, 0));
    assert!(opened);
    assert!(matches!(reply, CommunicationResponse::SessionCreated { session_id, .. } if session_id == "new-3"));
    assert_eq!(index.existing_session(4).as_deref(), Some("new-1"));
    match session_not_recorded() {
        CommunicationResponse::Error { status, error } => {
            assert_eq!((status.as_str(), error.as_str()), ("error", "Failed to create session"));
        },
        other => panic!("unexpected: {:?}", other),
    }
}
