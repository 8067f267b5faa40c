use ai_web_assistant::documents::{
    save_with_retry, DocumentError, FileKind, FileState, JsonFileManager, Preparation, SaveNext,
};
use ai_web_assistant::json::Json;
use ai_web_assistant::time::Timestamp;

#[test]
fn files_are_told_apart_by_the_end_of_their_path() {
    let files = JsonFileManager::new();
    assert_eq!(files.kind("users.json"), FileKind::Users);
    assert_eq!(files.kind("data/sessions.json"), FileKind::Sessions);
    assert_eq!(files.kind("/var/lib/messages.json"), FileKind::Messages);
    assert_eq!(files.kind("notes.txt"), FileKind::Other);
    assert_eq!(files.kind("users.json.bak"), FileKind::Other);
    assert_eq!(files.kind(""), FileKind::Other);
}

#[test]
fn a_missing_or_empty_file_is_started_anew() {
    let files = JsonFileManager::new();
    assert_eq!(files.prepare(FileState::Missing), Preparation::Start);
    assert_eq!(files.prepare(FileState::Sized(0)), Preparation::Start);
    assert_eq!(files.prepare(FileState::Sized(1)), Preparation::Read);
    assert_eq!(files.get_file_status(FileState::Missing), "File does not exist");
    assert_eq!(files.get_file_status(FileState::Sized(0)), "File exists but is empty");
    assert_eq!(files.get_file_status(FileState::Sized(12)), "File exists and has content");
}

#[test]
fn a_new_file_holds_one_empty_list() {
    let files = JsonFileManager::new();
    assert_eq!(files.create_initial_file("users.json").unwrap().write(), "{\"users\":[]}");
    assert_eq!(files.create_initial_file("sessions.json").unwrap().write(), "{\"sessions\":[]}");
    assert_eq!(files.create_initial_file("messages.json").unwrap().write(), "{\"sessions\":[]}");
    assert_eq!(files.create_initial_file("other.json").unwrap_err(), DocumentError::UnknownFile);
    assert_eq!(DocumentError::UnknownFile.message(), "Unknown file type");
}

#[test]
fn records_are_appended_to_the_list_of_their_file() {
    let files = JsonFileManager::new();
    let mut users = files.create_initial_file("users.json").unwrap();
    files.append_to_file("users.json", &mut users, Json::parse("{\"id\": 1}").unwrap()).unwrap();
    files.append_to_users(&mut users, Json::parse("{\"id\": 2}").unwrap()).unwrap();
    assert_eq!(users.write(), "{\"users\":[{\"id\":1},{\"id\":2}]}");
    let mut sessions = Json::parse("{\"other\": 1, \"sessions\": [0]}").unwrap();
    files.append_to_file("x/sessions.json", &mut sessions, Json::text("s")).unwrap();
    assert_eq!(sessions.write(), "{\"other\":1,\"sessions\":[0,\"s\"]}");
}

#[test]
fn a_file_without_its_list_is_refused() {
    let files = JsonFileManager::new();
    for text in ["{}", "{\"users\": {}}", "[]", "{\"sessions\": []}"] {
        let mut doc = Json::parse(text).unwrap();
        let before = doc.write();
        assert_eq!(files.append_to_users(&mut doc, Json::Null).unwrap_err(), DocumentError::InvalidUsers);
        assert_eq!(doc.write(), before);
    }
    let mut doc = Json::parse("{\"users\": []}").unwrap();
    assert_eq!(
        files.append_to_file("sessions.json", &mut doc, Json::Null).unwrap_err(),
        DocumentError::InvalidSessions
    );
    assert_eq!(DocumentError::InvalidUsers.message(), "Invalid users.json structure");
    assert_eq!(DocumentError::InvalidSessions.message(), "Invalid sessions.json structure");
}

#[test]
fn a_record_for_the_file_of_messages_changes_nothing() {
    let files = JsonFileManager::new();
    let mut doc = Json::parse("{\"sessions\": [], \"users\": {}}").unwrap();
    let before = doc.write();
    files.append_to_file("messages.json", &mut doc, Json::text("ignored")).unwrap();
    files.append_to_file("whatever.txt", &mut doc, Json::text("ignored")).unwrap();
    assert_eq!(doc.write(), before);
}

#[test]
fn the_conversations_of_a_user_are_listed_with_defaults() {
    let files = JsonFileManager::new();
    let doc = Json::parse(
        "{\"users\": {\"3\": {\"conversations\": {
            \"a\": {\"title\": \"One\", \"created_at\": \"2024-01-01T00:00:00Z\"},
            \"b\": {\"created_at\": \"not a time\"},
            \"c\": {\"title\": 7}
        }}}}",
    )
    .unwrap();
    let now = Timestamp::new(99, 1);
    let list = files.get_user_chats_for_all_sessions(&doc, &3, now);
    let got: Vec<(&str, &str, Timestamp)> =
        list.iter().map(|s| (s.conversation_id.as_str(), s.title.as_str(), s.created_at)).collect();
    assert_eq!(
        got,
        vec![
            ("a", "One", Timestamp::new(1704067200, 0)),
            ("b", "Untitled", now),
            ("c", "Untitled", now),
        ]
    );
    assert!(files.get_user_chats_for_all_sessions(&doc, &4, now).is_empty());
    assert!(files.get_user_chats_for_all_sessions(&Json::parse("{}").unwrap(), &3, now).is_empty());
    assert!(files
        .get_user_chats_for_all_sessions(&Json::parse("{\"users\": []}").unwrap(), &3, now)
        .is_empty());
}

#[test]
fn the_title_comes_from_the_first_message_of_the_user() {
    let files = JsonFileManager::new();
    let messages = Json::parse(
        "[{\"role\": \"ai\", \"content\": \"hello\"},
          {\"role\": \"user\", \"content\": 5},
          {\"role\": \"user\", \"content\": \"What is the weather?\"},
          {\"role\": \"user\", \"content\": \"later\"}]",
    )
    .unwrap();
    assert_eq!(
        files.update_chat_title(messages.as_array().unwrap()).as_deref(),
        Some("What is the weather?")
    );
    let long = format!("[{{\"role\": \"user\", \"content\": \"{}\"}}]", "z".repeat(60));
    let long = Json::parse(&long).unwrap();
    assert_eq!(
        files.update_chat_title(long.as_array().unwrap()).unwrap(),
        format!("{}...", "z".repeat(50))
    );
    let none = Json::parse("[{\"role\": \"ai\", \"content\": \"x\"}, 3]").unwrap();
    assert!(files.update_chat_title(none.as_array().unwrap()).is_none());
    assert!(files.update_chat_title(&Vec::new()).is_none());
}

#[test]
fn saving_is_tried_again_until_the_last_attempt() {
    assert_eq!(save_with_retry(0, 3, true), SaveNext::Done);
    assert_eq!(save_with_retry(2, 3, true), SaveNext::Done);
    assert_eq!(save_with_retry(0, 3, false), SaveNext::RetryAfter { ms: 100 });
    assert_eq!(save_with_retry(1, 3, false), SaveNext::RetryAfter { ms: 100 });
    assert_eq!(save_with_retry(2, 3, false), SaveNext::GiveUpAfter { ms: 100 });
    assert_eq!(save_with_retry(0, 0, false), SaveNext::GiveUpAfter { ms: 100 });
    assert_eq!(save_with_retry(usize::MAX, 3, false), SaveNext::GiveUpAfter { ms: 100 });
}

#[test]
fn a_file_that_is_no_json_is_started_anew() {
    let files = JsonFileManager::new();
    let (doc, anew) = files.recover("users.json", Json::parse("{\"users\": [1]}")).unwrap();
    assert!(!anew);
    assert_eq!(doc.write(), "{\"users\":[1]}");
    let (doc, anew) = files.recover("users.json", Json::parse("{]")).unwrap();
    assert!(anew);
    assert_eq!(doc.write(), "{\"users\":[]}");
    let (doc, anew) = files.recover("sessions.json", Json::parse("")).unwrap();
    assert!(anew);
    assert_eq!(doc.write(), "{\"sessions\":[]}");
    assert_eq!(files.recover("other.txt", Json::parse("{]")).unwrap_err(), DocumentError::UnknownFile);
    assert!(files.recover("other.txt", Json::parse("{}")).is_ok());
}
