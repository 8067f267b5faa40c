use ai_web_assistant::auth::{AuthError, Claims, Rejection};
use ai_web_assistant::connection::{user_id_of, Connection, Handshake, Phase};
use ai_web_assistant::generation::Generation;
use ai_web_assistant::model::MessageData;
use ai_web_assistant::operations::{complete_prompt, fetch_conversation, on_document};
use ai_web_assistant::payloads::{CommunicationRequest, Frame};
use ai_web_assistant::registry::WsBroadcaster;
use ai_web_assistant::responses::CommunicationResponse;
use ai_web_assistant::session_index::AuthSession;
use ai_web_assistant::store::MessageManager;
use ai_web_assistant::time::Timestamp;
use jsonwebtoken::{encode, EncodingKey, Header};
use serde_json::Value;
use std::time::{SystemTime, UNIX_EPOCH};
use tokio::sync::mpsc::unbounded_channel;

const SECRET: &[u8] = b"connection-secret";

fn identity(sub: i64) -> Claims {
    Claims {
        sub,
        email: "u@example.com".to_string(),
        roles: vec!["USER".to_string()],
        is_admin: false,
        is_user: true,
        exp: 0,
    }
}

fn token(sub: i64) -> String {
    let exp = SystemTime::now().duration_since(UNIX_EPOCH).unwrap().as_secs() + 600;
    let mut claims = serde_json::Map::new();
    claims.insert("sub".to_string(), Value::from(sub));
    claims.insert("email".to_string(), Value::from("u@example.com"));
    claims.insert("roles".to_string(), Value::from(vec!["USER"]));
    claims.insert("is_admin".to_string(), Value::from(false));
    claims.insert("is_user".to_string(), Value::from(true));
    claims.insert("exp".to_string(), Value::from(exp));
    encode(&Header::default(), &Value::Object(claims), &EncodingKey::from_secret(SECRET)).unwrap()
}

fn active(id: u128, registry: &mut WsBroadcaster, index: &mut AuthSession, session: &str) -> Connection {
    let mut conn = Connection::accept(id);
    conn.upgraded(true);
    let (tx, _rx) = unbounded_channel::<String>();
    let replies = conn.conclude(
        Handshake::Accepted(identity(7)),
        index,
        registry,
        tx,
        session.to_string(),
        Timestamp::new(1, 0),
    );
    assert_eq!(replies.len(), 1);
    assert_eq!(conn.phase, Phase::Active);
    conn
}

fn text(t: &str) -> Frame {
    Frame::Text(t.to_string())
}

#[test]
fn a_connection_starts_connecting_and_is_upgraded() {
    let mut conn = Connection::accept(3);
    assert_eq!(conn.connection_id, 3);
    assert_eq!(conn.phase, Phase::Connecting);
    assert!(conn.identity.is_none());
    assert!(conn.session_id.is_none());
    conn.upgraded(true);
    assert_eq!(conn.phase, Phase::Authenticating);
    conn.upgraded(false);
    assert_eq!(conn.phase, Phase::Authenticating);
    let mut failed = Connection::accept(4);
    failed.upgraded(false);
    assert_eq!(failed.phase, Phase::Closed);
    failed.upgraded(true);
    assert_eq!(failed.phase, Phase::Closed);
}

#[test]
fn the_subject_becomes_the_user_id() {
    assert_eq!(user_id_of(0), 0);
    assert_eq!(user_id_of(42), 42);
    assert_eq!(user_id_of(i64::MAX), i64::MAX as u64);
    assert_eq!(user_id_of(-1), u64::MAX);
    assert_eq!(user_id_of(i64::MIN), 1u64 << 63);
    for sub in [-7i64, -1, 0, 5, i64::MIN, i64::MAX] {
        assert_eq!(user_id_of(sub), sub as u64);
    }
}

#[test]
fn the_handshake_judges_the_first_frame() {
    assert!(matches!(Connection::handshake(None, Some(SECRET)), Handshake::NoFrame));
    match Connection::handshake(Some(Err("reset".to_string())), Some(SECRET)) {
        Handshake::ReadFailed(reason) => assert_eq!(reason, "reset"),
        other => panic!("unexpected: {:?}", other),
    }
    match Connection::handshake(Some(Ok(Frame::Binary)), Some(SECRET)) {
        Handshake::Rejected(r) => assert_eq!((r.status, r.message.as_str()), (400, "Expected text message")),
        other => panic!("unexpected: {:?}", other),
    }
    let frame = text(&format!("{{\"token\": \"{}\"}}", token(21)));
    match Connection::handshake(Some(Ok(frame)), Some(SECRET)) {
        Handshake::Accepted(claims) => assert_eq!(claims.sub, 21),
        other => panic!("unexpected: {:?}", other),
    }
    match Connection::handshake(Some(Ok(text("{\"token\": \"bad\"}"))), Some(SECRET)) {
        Handshake::Rejected(r) => assert_eq!((r.status, r.message.as_str()), (401, "Invalid token")),
        other => panic!("unexpected: {:?}", other),
    }
}

#[test]
fn an_accepted_connection_becomes_active_in_a_new_session() {
    let mut registry = WsBroadcaster::new();
    let mut index = AuthSession::empty();
    let mut conn = Connection::accept(100);
    conn.upgraded(true);
    let (tx, mut rx) = unbounded_channel::<String>();
    let replies = conn.conclude(
        Handshake::Accepted(identity(7)),
        &mut index,
        &mut registry,
        tx,
        "fresh-session".to_string(),
        Timestamp::new(1, 0),
    );
    assert_eq!(conn.phase, Phase::Active);
    assert_eq!(conn.session_id.as_deref(), Some("fresh-session"));
    assert_eq!(conn.identity.as_ref().unwrap().sub, 7);
    match &replies[..] {
        [CommunicationResponse::SessionCreated { status, session_id, user_id }] => {
            assert_eq!(status, "session_created");
            assert_eq!(session_id, "fresh-session");
            assert_eq!(*user_id, 7);
        },
        other => panic!("unexpected: {:?}", other),
    }
    assert_eq!(sorted(registry.get_client_ids()), vec![100]);
    assert!(registry.send_to(&100, "x".to_string()));
    assert_eq!(rx.try_recv().unwrap(), "x");
    assert_eq!(index.existing_session(7).as_deref(), Some("fresh-session"));
}

#[test]
fn a_user_who_connects_again_resumes_their_session() {
    let mut registry = WsBroadcaster::new();
    let mut index = AuthSession::empty();
    let first = active(1, &mut registry, &mut index, "s-first");
    assert_eq!(first.session_id.as_deref(), Some("s-first"));
    let second = active(2, &mut registry, &mut index, "s-second");
    assert_eq!(second.session_id.as_deref(), Some("s-first"));
    assert_eq!(sorted(registry.get_client_ids()), vec![1, 2]);
}

#[test]
fn a_refused_handshake_closes_the_connection() {
    for (outcome, status, error, code, reason) in [
        (
            Handshake::Rejected(Rejection::for_error(AuthError::Expired)),
            "authentication_failed",
            "Token expired",
            401,
            "token_expired",
        ),
        (
            Handshake::ReadFailed("broken pipe".to_string()),
            "connection_error",
            "Failed to read message: broken pipe",
            400,
            "token_missing",
        ),
        (Handshake::NoFrame, "no_message", "No initial message received", 400, "token_missing"),
    ] {
        let mut registry = WsBroadcaster::new();
        let mut index = AuthSession::empty();
        let mut conn = Connection::accept(5);
        conn.upgraded(true);
        let (tx, _rx) = unbounded_channel::<String>();
        let replies =
            conn.conclude(outcome, &mut index, &mut registry, tx, "s".to_string(), Timestamp::new(1, 0));
        assert_eq!(conn.phase, Phase::Closed);
        assert!(conn.session_id.is_none());
        assert!(sorted(registry.get_client_ids()).is_empty());
        assert!(index.existing_session(7).is_none());
        match &replies[..] {
            [CommunicationResponse::Refused { status: s, error: e, code: c, reason: r }] => {
                assert_eq!((s.as_str(), e.as_str(), *c, r.as_str()), (status, error, code, reason));
            },
            other => panic!("unexpected: {:?}", other),
        }
    }
}

#[test]
fn a_handshake_is_concluded_only_while_authenticating() {
    let mut registry = WsBroadcaster::new();
    let mut index = AuthSession::empty();
    let mut conn = Connection::accept(5);
    let (tx, _rx) = unbounded_channel::<String>();
    let replies = conn.conclude(
        Handshake::Accepted(identity(7)),
        &mut index,
        &mut registry,
        tx,
        "s".to_string(),
        Timestamp::new(1, 0),
    );
    assert!(replies.is_empty());
    assert_eq!(conn.phase, Phase::Connecting);
    assert!(sorted(registry.get_client_ids()).is_empty());
}

#[test]
fn a_disconnect_for_another_session_is_ignored() {
    let mut registry = WsBroadcaster::new();
    let mut index = AuthSession::empty();
    let mut conn = active(9, &mut registry, &mut index, "right-id");
    let step = conn.on_frame(&text("{\"type\": \"disconnect\", \"session_id\": \"wrong-id\", \"user_id\": 7}"));
    assert!(step.replies.is_empty());
    assert!(step.run.is_none());
    assert_eq!(conn.phase, Phase::Active);
    assert_eq!(sorted(registry.get_client_ids()), vec![9]);
}

#[test]
fn a_disconnect_for_the_session_closes_the_connection() {
    let mut registry = WsBroadcaster::new();
    let mut index = AuthSession::empty();
    let mut conn = active(9, &mut registry, &mut index, "right-id");
    let mut other = active(10, &mut registry, &mut index, "unused");
    let step = conn.on_frame(&text("{\"type\": \"disconnect\", \"session_id\": \"right-id\", \"user_id\": 7}"));
    match &step.replies[..] {
        [CommunicationResponse::Disconnected { status }] => assert_eq!(status, "disconnected"),
        other => panic!("unexpected: {:?}", other),
    }
    assert!(step.run.is_none());
    assert_eq!(conn.phase, Phase::Closing);
    conn.close(&mut registry);
    assert_eq!(conn.phase, Phase::Closed);
    assert_eq!(sorted(registry.get_client_ids()), vec![10]);
    // Nothing leads out of Closed.
    let after = conn.on_frame(&text("{\"type\": \"fetch_all_messages\"}"));
    assert!(after.replies.is_empty() && after.run.is_none());
    assert_eq!(conn.phase, Phase::Closed);
    conn.on_silence();
    conn.upgraded(true);
    assert_eq!(conn.phase, Phase::Closed);
    other.close(&mut registry);
    assert!(sorted(registry.get_client_ids()).is_empty());
}

#[test]
fn a_second_handshake_on_an_active_connection_is_refused() {
    let mut registry = WsBroadcaster::new();
    let mut index = AuthSession::empty();
    let mut conn = active(9, &mut registry, &mut index, "s");
    let step = conn.on_frame(&text("{\"type\": \"start_connection\", \"token\": \"t\"}"));
    match &step.replies[..] {
        [CommunicationResponse::Error { status, error }] => {
            assert_eq!(status, "invalid_request");
            assert_eq!(error, "Already connected");
        },
        other => panic!("unexpected: {:?}", other),
    }
    assert_eq!(conn.phase, Phase::Active);
}

#[test]
fn what_is_no_request_is_answered_as_unknown() {
    let mut registry = WsBroadcaster::new();
    let mut index = AuthSession::empty();
    let mut conn = active(9, &mut registry, &mut index, "s");
    for frame in ["not json", "{\"type\": \"nope\"}", "{\"type\": \"ai_request\"}", "{}", "{\"type\""] {
        let step = conn.on_frame(&text(frame));
        match &step.replies[..] {
            [CommunicationResponse::Error { status, error }] => {
                assert_eq!(status, "invalid_request");
                assert_eq!(error, "Unknown request type");
            },
            other => panic!("unexpected for {}: {:?}", frame, other),
        }
        assert!(step.run.is_none());
        assert_eq!(conn.phase, Phase::Active);
    }
}

#[test]
fn frames_that_are_no_text_are_ignored_and_close_closes() {
    let mut registry = WsBroadcaster::new();
    let mut index = AuthSession::empty();
    let mut conn = active(9, &mut registry, &mut index, "s");
    for frame in [Frame::Binary, Frame::Ping, Frame::Pong] {
        let step = conn.on_frame(&frame);
        assert!(step.replies.is_empty() && step.run.is_none());
        assert_eq!(conn.phase, Phase::Active);
    }
    let step = conn.on_frame(&Frame::Close);
    assert!(step.replies.is_empty() && step.run.is_none());
    assert_eq!(conn.phase, Phase::Closing);
    // A closing connection takes no more requests.
    let late = conn.on_frame(&text("{\"type\": \"fetch_all_messages\"}"));
    assert!(late.replies.is_empty() && late.run.is_none());
}

#[test]
fn silence_closes_an_active_connection() {
    let mut registry = WsBroadcaster::new();
    let mut index = AuthSession::empty();
    let mut conn = active(9, &mut registry, &mut index, "s");
    conn.on_silence();
    assert_eq!(conn.phase, Phase::Closing);
    let mut waiting = Connection::accept(1);
    waiting.on_silence();
    assert_eq!(waiting.phase, Phase::Connecting);
}

#[test]
fn a_prompt_is_acknowledged_streamed_stored_and_fetched() {
    let store = MessageManager::new("messages.json");
    let mut db = MessageData::new();
    let mut registry = WsBroadcaster::new();
    let mut index = AuthSession::empty();

    // Handshake with a valid token.
    let mut conn = Connection::accept(77);
    conn.upgraded(true);
    let first = text(&format!("{{\"token\": \"{}\"}}", token(7)));
    let outcome = Connection::handshake(Some(Ok(first)), Some(SECRET));
    let (tx, _rx) = unbounded_channel::<String>();
    let replies =
        conn.conclude(outcome, &mut index, &mut registry, tx, "sess-1".to_string(), Timestamp::new(1, 0));
    let (session_id, user_id) = match &replies[..] {
        [CommunicationResponse::SessionCreated { session_id, user_id, .. }] => {
            (session_id.clone(), *user_id)
        },
        other => panic!("unexpected: {:?}", other),
    };
    assert_eq!((session_id.as_str(), user_id), ("sess-1", 7));

    // The prompt is acknowledged at once.
    let request = format!("{{\"type\": \"ai_request\", \"prompt\": \"hi\", \"session_id\": \"{}\"}}", session_id);
    let step = conn.on_frame(&text(&request));
    assert!(step.replies.is_empty());
    let run = step.run.unwrap();
    assert!(matches!(run, CommunicationRequest::AIRequest { .. }));
    let outcome = on_document(&store, &mut db, user_id, &run, "0001", Timestamp::new(10, 0));
    let user_message_id = match outcome.reply.unwrap() {
        CommunicationResponse::MessageCreated { status, message_id, message } => {
            assert_eq!(status, "message_created");
            assert_eq!(message_id, "msg_0001");
            assert_eq!(message.message_id, "msg_0001");
            assert_eq!(message.content, "hi");
            assert_eq!(message.role, "user");
            assert_eq!(message.parent_id, "root");
            assert_eq!(message.reply_id, None);
            assert!(!message.edited);
            assert_eq!(message.timestamp, Timestamp::new(10, 0));
            message_id
        },
        other => panic!("unexpected: {:?}", other),
    };
    assert!(outcome.changed);
    let job = outcome.job.unwrap();
    assert_eq!(job.prompt, "hi");
    assert_eq!(job.chat_id, "sess-1");
    assert_eq!(job.user_message_id, user_message_id);

    // The answer arrives in chunks and ends once.
    let mut generation = Generation::begin();
    let mut events = Vec::new();
    for line in [
        "{\"response\": \"Hello\", \"done\": false}",
        "{\"response\": \" there\", \"done\": false}",
        "{\"response\": \"\", \"done\": true}",
    ] {
        events.extend(generation.on_line(line));
    }
    let (answer, end) = generation.finish();
    events.push(end);
    let chunks = events.iter().filter(|e| matches!(e, CommunicationResponse::StreamChunk { .. })).count();
    assert!(chunks >= 1);
    let ends: Vec<&CommunicationResponse> =
        events.iter().filter(|e| matches!(e, CommunicationResponse::StreamEnd { .. })).collect();
    assert_eq!(ends.len(), 1);
    assert!(matches!(events.last(), Some(CommunicationResponse::StreamEnd { status }) if status == "success"));
    assert_eq!(answer, "Hello there");

    // The answer is stored as a reply to the prompt.
    let stored =
        complete_prompt(&store, &mut db, user_id, &job, answer, "answer-1".to_string(), Timestamp::new(20, 0));
    assert_eq!(stored.reply_id.as_deref(), Some("msg_0001"));

    // The conversation holds both messages.
    let fetch = format!("{{\"type\": \"fetch_conversation\", \"conversation_id\": \"{}\"}}", session_id);
    let run = conn.on_frame(&text(&fetch)).run.unwrap();
    let outcome = on_document(&store, &mut db, user_id, &run, "unused", Timestamp::new(30, 0));
    assert!(!outcome.changed);
    assert!(outcome.job.is_none());
    match outcome.reply.unwrap() {
        CommunicationResponse::ConversationHistory { status, conversation_id, messages } => {
            assert_eq!(status, "ok");
            assert_eq!(conversation_id, "sess-1");
            assert_eq!(messages.len(), 2);
            assert_eq!(messages[0].content, "hi");
            assert_eq!(messages[0].role, "user");
            assert_eq!(messages[1].role, "assistant");
            assert_eq!(messages[1].content, "Hello there");
            assert_eq!(messages[1].message_id, "answer-1");
            assert_eq!(messages[1].reply_id.as_deref(), Some(messages[0].message_id.as_str()));
        },
        other => panic!("unexpected: {:?}", other),
    }
    match fetch_conversation(&store, &db, user_id, "sess-1") {
        CommunicationResponse::ConversationHistory { messages, .. } => assert_eq!(messages.len(), 2),
        other => panic!("unexpected: {:?}", other),
    }
}

#[test]
fn a_parsed_text_is_taken_like_its_frame() {
    let mut registry = WsBroadcaster::new();
    let mut index = AuthSession::empty();
    let mut conn = active(9, &mut registry, &mut index, "s-1");
    assert!(conn.is_session("s-1"));
    assert!(!conn.is_session("s-2"));
    assert!(!Connection::accept(1).is_session(""));
    let parsed = ai_web_assistant::json::Json::parse("{\"type\": \"fetch_all_messages\"}");
    let step = conn.on_parsed(&parsed);
    assert!(step.replies.is_empty());
    assert!(matches!(step.run, Some(CommunicationRequest::FetchAllMessages)));
    let broken = ai_web_assistant::json::Json::parse("{\"type\":");
    let step = conn.on_parsed(&broken);
    assert_eq!(step.replies.len(), 1);
    assert!(step.run.is_none());
    let bye = ai_web_assistant::json::Json::parse(
        "{\"type\": \"disconnect\", \"session_id\": \"s-1\", \"user_id\": 0}",
    );
    let step = conn.on_parsed(&bye);
    assert!(matches!(&step.replies[..], [CommunicationResponse::Disconnected { .. }]));
    assert_eq!(conn.phase, Phase::Closing);
}

#[test]
fn the_handshake_is_judged_at_a_given_time() {
    let frame = text(&format!("{{\"token\": \"{}\"}}", token(21)));
    let soon = Timestamp::new(1, 0);
    match Connection::handshake_at(Some(Ok(frame)), Some(SECRET), soon) {
        Handshake::Accepted(claims) => assert_eq!(claims.sub, 21),
        other => panic!("unexpected: {:?}", other),
    }
    let frame = text(&format!("{{\"token\": \"{}\"}}", token(21)));
    match Connection::handshake_at(Some(Ok(frame)), Some(SECRET), Timestamp::new(i64::MAX, 0)) {
        Handshake::Rejected(r) => assert_eq!((r.status, r.message.as_str()), (401, "Token expired")),
        other => panic!("unexpected: {:?}", other),
    }
    let frame = text(&format!("{{\"token\": \"{}\"}}", token(21)));
    match Connection::handshake_at(Some(Ok(frame)), None, soon) {
        Handshake::Rejected(r) => assert_eq!((r.status, r.code.as_str()), (500, "internal_error")),
        other => panic!("unexpected: {:?}", other),
    }
    assert!(matches!(Connection::handshake_at(None, Some(SECRET), soon), Handshake::NoFrame));
}

#[test]
fn a_handshake_that_mints_its_session_names_one() {
    let mut registry = WsBroadcaster::new();
    let mut index = AuthSession::empty();
    let mut conn = Connection::accept(100);
    conn.upgraded(true);
    let (tx, _rx) = unbounded_channel::<String>();
    let replies = conn.conclude_now(Handshake::Accepted(identity(7)), &mut index, &mut registry, tx);
    assert_eq!(conn.phase, Phase::Active);
    let session = conn.session_id.clone().unwrap();
    assert_eq!(session.len(), 36);
    assert!(matches!(&replies[..], [CommunicationResponse::SessionCreated { session_id, user_id: 7, .. }] if *session_id == session));
    assert_eq!(index.existing_session(7), Some(session.clone()));
    assert_eq!(sorted(registry.get_client_ids()), vec![100]);
    let mut again = Connection::accept(101);
    again.upgraded(true);
    let (tx, _rx) = unbounded_channel::<String>();
    again.conclude_now(Handshake::Accepted(identity(7)), &mut index, &mut registry, tx);
    assert_eq!(again.session_id, Some(session));
}

fn sorted(mut ids: Vec<u128>) -> Vec<u128> {
    ids.sort();
    ids
}
