use ai_web_assistant::json::Json;
use ai_web_assistant::model::ConversationMetadata;
use ai_web_assistant::time::Timestamp;
use ai_web_assistant::titles::{
    judge_look, judge_parse, sort_newest_first, titles_of, Look, Next, RetryPolicy, TitlesError,
};

const DOC: &str = "{\"users\": {\"7\": {\"conversations\": {
    \"a\": {\"title\": \"First\", \"created_at\": \"2024-01-01T00:00:00Z\", \"messages\": []},
    \"b\": {\"title\": \"Second\", \"created_at\": \"2024-03-01T12:30:00+02:00\", \"messages\": []},
    \"c\": {\"title\": \"Third\", \"created_at\": \"2024-02-01T00:00:00.250Z\", \"messages\": []}
}}}}";

fn done(next: Next) -> Result<Vec<(String, String, Timestamp)>, TitlesError> {
    match next {
        Next::Done(result) => {
            result.map(|list| list.into_iter().map(|m| (m.id, m.title, m.created_at)).collect())
        },
        Next::Retry { after_ms } => panic!("retry after {}", after_ms),
    }
}

#[test]
fn the_standard_policy_looks_five_times() {
    let policy = RetryPolicy::standard();
    assert_eq!(policy.max_attempts, 5);
    assert_eq!(policy.delay_ms, 100);
    assert!(!policy.last(0));
    assert!(!policy.last(3));
    assert!(policy.last(4));
    assert!(policy.last(5));
    assert!(RetryPolicy { max_attempts: 0, delay_ms: 1 }.last(0));
    assert!(RetryPolicy { max_attempts: 1, delay_ms: 1 }.last(0));
    assert!(RetryPolicy { max_attempts: 1, delay_ms: 1 }.last(usize::MAX));
}

#[test]
fn titles_are_read_newest_first() {
    let doc = Json::parse(DOC).unwrap();
    let list = titles_of(&doc, 7).unwrap();
    let got: Vec<(&str, &str)> = list.iter().map(|m| (m.id.as_str(), m.title.as_str())).collect();
    assert_eq!(got, vec![("b", "Second"), ("c", "Third"), ("a", "First")]);
    // 2024-03-01T12:30:00+02:00 is 10:30:00 UTC.
    assert_eq!(list[0].created_at, Timestamp::new(1709289000, 0));
    assert_eq!(list[1].created_at, Timestamp::new(1706745600, 250_000_000));
    assert_eq!(list[2].created_at, Timestamp::new(1704067200, 0));
}

#[test]
fn a_user_without_conversations_has_no_titles() {
    let doc = Json::parse(DOC).unwrap();
    assert!(titles_of(&doc, 8).unwrap().is_empty());
    assert!(titles_of(&Json::parse("{}").unwrap(), 7).unwrap().is_empty());
    assert!(titles_of(&Json::parse("{\"users\": {\"7\": {}}}").unwrap(), 7).unwrap().is_empty());
    assert!(titles_of(&Json::parse("{\"users\": {\"7\": {\"conversations\": []}}}").unwrap(), 7)
        .unwrap()
        .is_empty());
    assert!(titles_of(&Json::parse("[1, 2]").unwrap(), 7).unwrap().is_empty());
}

#[test]
fn a_conversation_without_title_or_time_is_an_error() {
    let no_title = "{\"users\": {\"7\": {\"conversations\": {\"a\": {\"created_at\": \"2024-01-01T00:00:00Z\"}}}}}";
    match titles_of(&Json::parse(no_title).unwrap(), 7) {
        Err(TitlesError::MissingTitle { conversation_id }) => assert_eq!(conversation_id, "a"),
        other => panic!("unexpected: {:?}", other),
    }
    let no_time = "{\"users\": {\"7\": {\"conversations\": {\"a\": {\"title\": \"t\"}}}}}";
    match titles_of(&Json::parse(no_time).unwrap(), 7) {
        Err(TitlesError::MissingCreatedAt { conversation_id }) => assert_eq!(conversation_id, "a"),
        other => panic!("unexpected: {:?}", other),
    }
    let bad_time = "{\"users\": {\"7\": {\"conversations\": {\"a\": {\"title\": \"t\", \"created_at\": \"yesterday\"}}}}}";
    match titles_of(&Json::parse(bad_time).unwrap(), 7) {
        Err(TitlesError::BadTimestamp { conversation_id }) => assert_eq!(conversation_id, "a"),
        other => panic!("unexpected: {:?}", other),
    }
    let number_title = "{\"users\": {\"7\": {\"conversations\": {\"a\": {\"title\": 5, \"created_at\": \"2024-01-01T00:00:00Z\"}}}}}";
    assert!(matches!(
        titles_of(&Json::parse(number_title).unwrap(), 7),
        Err(TitlesError::MissingTitle { .. })
    ));
}

#[test]
fn a_missing_file_has_no_titles() {
    let policy = RetryPolicy::standard();
    assert!(done(judge_look(&policy, 0, &Look::Missing, 7)).unwrap().is_empty());
    assert!(done(judge_look(&policy, 4, &Look::Missing, 7)).unwrap().is_empty());
}

#[test]
fn an_empty_file_is_looked_at_again_until_the_last_look() {
    let policy = RetryPolicy::standard();
    for attempt in 0..4 {
        for look in [Look::Empty, Look::Text(String::new()), Look::Text("  \n ".to_string())] {
            match judge_look(&policy, attempt, &look, 7) {
                Next::Retry { after_ms } => assert_eq!(after_ms, 100),
                other => panic!("unexpected: {:?}", other),
            }
        }
    }
    assert!(done(judge_look(&policy, 4, &Look::Empty, 7)).unwrap().is_empty());
    assert!(done(judge_look(&policy, 4, &Look::Text(" ".to_string()), 7)).unwrap().is_empty());
}

#[test]
fn a_file_that_is_cut_off_is_looked_at_again_and_has_no_titles_at_the_last_look() {
    let policy = RetryPolicy { max_attempts: 3, delay_ms: 20 };
    let cut = Look::Text("{\"users\": {\"7\": {\"conversa".to_string());
    match judge_look(&policy, 0, &cut, 7) {
        Next::Retry { after_ms } => assert_eq!(after_ms, 20),
        other => panic!("unexpected: {:?}", other),
    }
    assert!(matches!(judge_look(&policy, 1, &cut, 7), Next::Retry { .. }));
    assert!(done(judge_look(&policy, 2, &cut, 7)).unwrap().is_empty());
    let parsed = Json::parse("{\"users\": {");
    assert!(matches!(judge_parse(&policy, 1, &parsed, 7), Next::Retry { after_ms: 20 }));
    assert!(done(judge_parse(&policy, 2, &parsed, 7)).unwrap().is_empty());
}

#[test]
fn a_file_that_is_no_json_fails_at_once() {
    let policy = RetryPolicy::standard();
    let wrong = Look::Text("{\"users\" = 3}".to_string());
    assert!(matches!(done(judge_look(&policy, 0, &wrong, 7)), Err(TitlesError::Malformed)));
    let parsed = Json::parse("{]");
    assert!(matches!(done(judge_parse(&policy, 0, &parsed, 7)), Err(TitlesError::Malformed)));
}

#[test]
fn a_file_that_cannot_be_read_fails_at_once() {
    let policy = RetryPolicy::standard();
    match done(judge_look(&policy, 0, &Look::Unreadable("permission denied".to_string()), 7)) {
        Err(TitlesError::Unreadable { reason }) => assert_eq!(reason, "permission denied"),
        other => panic!("unexpected: {:?}", other),
    }
}

#[test]
fn a_whole_file_gives_its_titles_at_any_look() {
    let policy = RetryPolicy::standard();
    let got = done(judge_look(&policy, 2, &Look::Text(DOC.to_string()), 7)).unwrap();
    assert_eq!(got.len(), 3);
    assert_eq!(got[0].0, "b");
    let parsed = Json::parse(DOC);
    assert_eq!(done(judge_parse(&policy, 0, &parsed, 7)).unwrap().len(), 3);
    assert!(done(judge_parse(&policy, 0, &parsed, 70)).unwrap().is_empty());
}

#[test]
fn errors_are_put_in_words() {
    assert_eq!(TitlesError::Malformed.message(), "Failed to parse messages.json");
    assert_eq!(
        TitlesError::Unreadable { reason: "denied".to_string() }.message(),
        "Failed to read messages.json: denied"
    );
    assert_eq!(
        TitlesError::MissingTitle { conversation_id: "c".to_string() }.message(),
        "Missing title for conversation c"
    );
    assert_eq!(
        TitlesError::MissingCreatedAt { conversation_id: "c".to_string() }.message(),
        "Missing created_at for conversation c"
    );
    assert_eq!(
        TitlesError::BadTimestamp { conversation_id: "c".to_string() }.message(),
        "Invalid created_at for conversation c"
    );
}

#[test]
fn sorting_keeps_the_order_of_equal_times() {
    let at = |id: &str, secs: i64| ConversationMetadata {
        id: id.to_string(),
        title: id.to_uppercase(),
        created_at: Timestamp::new(secs, 0),
    };
    let sorted = sort_newest_first(vec![at("a", 5), at("b", 9), at("c", 5), at("d", 7)]);
    let ids: Vec<&str> = sorted.iter().map(|m| m.id.as_str()).collect();
    assert_eq!(ids, vec!["b", "d", "a", "c"]);
    assert_eq!(sorted[0].title, "B");
    assert!(sort_newest_first(Vec::new()).is_empty());
}

#[test]
fn the_store_judges_a_look_at_its_file() {
    let store = ai_web_assistant::store::MessageManager::new("messages.json");
    let policy = RetryPolicy::standard();
    let next = store.get_all_conversation_titles(&policy, 0, &Look::Text(DOC.to_string()), 7);
    assert_eq!(done(next).unwrap().len(), 3);
    assert!(matches!(
        store.get_all_conversation_titles(&policy, 0, &Look::Empty, 7),
        Next::Retry { after_ms: 100 }
    ));
}
