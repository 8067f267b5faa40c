use ai_web_assistant::session_index::{AuthSession, SessionInfo, UserSessions, UsersWrapper};
use ai_web_assistant::time::Timestamp;
use std::collections::HashMap;

#[test]
fn an_empty_index_names_no_session() {
    let index = AuthSession::empty();
    assert_eq!(index.auth_session.len(), 1);
    assert!(index.existing_session(1).is_none());
    let none = AuthSession { auth_session: Vec::new() };
    assert!(none.existing_session(1).is_none());
}

#[test]
fn recorded_sessions_are_found_and_the_first_one_counts() {
    let mut index = AuthSession { auth_session: Vec::new() };
    index.record(1, "a".to_string(), Timestamp::new(1, 0));
    assert_eq!(index.auth_session.len(), 1);
    index.record(2, "b".to_string(), Timestamp::new(2, 0));
    index.record(1, "c".to_string(), Timestamp::new(3, 0));
    assert_eq!(index.existing_session(1).as_deref(), Some("a"));
    assert_eq!(index.existing_session(2).as_deref(), Some("b"));
    assert!(index.existing_session(3).is_none());
    assert_eq!(index.auth_session[0].users.len(), 3);
}

#[test]
fn a_session_is_resumed_or_opened_once() {
    let mut index = AuthSession::empty();
    assert_eq!(index.resume_or_open(9, "s1".to_string(), Timestamp::new(1, 0)), ("s1".to_string(), true));
    assert_eq!(index.resume_or_open(9, "s2".to_string(), Timestamp::new(2, 0)), ("s1".to_string(), false));
    assert_eq!(index.auth_session[0].users.len(), 1);
    assert_eq!(index.auth_session[0].users[0].sessions[&9][0].timestamp, Timestamp::new(1, 0));
}

#[test]
fn only_the_first_list_of_records_is_read() {
    let record = UserSessions::single(5, "mine".to_string(), Timestamp::new(1, 0));
    assert_eq!(record.session_of(5).map(|s| s.as_str()), Some("mine"));
    assert!(record.session_of(6).is_none());
    let index = AuthSession {
        auth_session: vec![UsersWrapper { users: Vec::new() }, UsersWrapper { users: vec![record] }],
    };
    assert!(index.existing_session(5).is_none());
}

#[test]
fn an_entry_without_sessions_names_none() {
    let mut none = HashMap::new();
    none.insert(5, Vec::new());
    let empty_entry = UserSessions { sessions: none };
    assert!(empty_entry.session_of(5).is_none());
    let mut two = HashMap::new();
    two.insert(4, vec![SessionInfo { session_id: "four".to_string(), timestamp: Timestamp::new(0, 0) }]);
    two.insert(
        5,
        vec![
            SessionInfo { session_id: "first".to_string(), timestamp: Timestamp::new(0, 0) },
            SessionInfo { session_id: "second".to_string(), timestamp: Timestamp::new(0, 0) },
        ],
    );
    let later = UserSessions { sessions: two };
    let index = AuthSession { auth_session: vec![UsersWrapper { users: vec![empty_entry, later] }] };
    assert_eq!(index.existing_session(5).as_deref(), Some("first"));
    assert_eq!(index.existing_session(4).as_deref(), Some("four"));
}
