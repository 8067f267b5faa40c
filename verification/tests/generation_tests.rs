use ai_web_assistant::generation::{refused, unanswered, Fragment, Generation};
use ai_web_assistant::json::Json;
use ai_web_assistant::responses::CommunicationResponse;

fn chunks(events: &[CommunicationResponse]) -> Vec<String> {
    events
        .iter()
        .map(|e| match e {
            CommunicationResponse::StreamChunk { chunk } => chunk.clone(),
            other => panic!("unexpected: {:?}", other),
        })
        .collect()
}

#[test]
fn fragments_are_read() {
    let f = Fragment::from_json(&Json::parse("{\"response\": \"Hel\", \"done\": false}").unwrap())
        .unwrap();
    assert_eq!(f.response.as_deref(), Some("Hel"));
    assert!(!f.done);
    assert_eq!(f.error, None);
    let last = Fragment::from_json(
        &Json::parse("{\"done\": true, \"response\": null, \"error\": \"e\", \"total\": 5}").unwrap(),
    )
    .unwrap();
    assert!(last.done);
    assert_eq!(last.response, None);
    assert_eq!(last.error.as_deref(), Some("e"));
}

#[test]
fn values_that_are_no_fragments_are_none() {
    for text in [
        "{\"response\": \"x\"}",
        "{\"response\": 1, \"done\": true}",
        "{\"done\": \"yes\"}",
        "{\"done\": true, \"error\": 4}",
        "[true]",
        "true",
    ] {
        assert!(Fragment::from_json(&Json::parse(text).unwrap()).is_none(), "{}", text);
    }
    assert!(Fragment::from_parsed(&Json::parse("{\"done\"")).is_none());
    assert!(Fragment::from_parsed(&Json::parse("{\"done\": false}")).is_some());
}

#[test]
fn lines_become_chunks_and_text() {
    let mut g = Generation::begin();
    assert_eq!(chunks(&g.on_line("{\"response\": \"Hel\", \"done\": false}")), vec!["Hel"]);
    assert!(g.on_line("").is_empty());
    assert!(g.on_line("   \t").is_empty());
    assert!(g.on_line("this is not json").is_empty());
    assert!(g.on_line("{\"response\": \"cut").is_empty());
    assert!(g.on_line("{\"done\": false}").is_empty());
    assert_eq!(chunks(&g.on_line("  {\"response\": \"lo\", \"done\": false}  ")), vec!["lo"]);
    assert!(!g.ended);
    assert_eq!(chunks(&g.on_line("{\"response\": \"!\", \"done\": true}")), vec!["!"]);
    assert!(g.ended);
    assert_eq!(g.text, "Hello!");
    // Nothing is taken after the last fragment.
    assert!(g.on_line("{\"response\": \"more\", \"done\": false}").is_empty());
    assert_eq!(g.text, "Hello!");
    assert!(g.ended);
    let (text, end) = g.finish();
    assert_eq!(text, "Hello!");
    match end {
        CommunicationResponse::StreamEnd { status } => assert_eq!(status, "success"),
        other => panic!("unexpected: {:?}", other),
    }
}

#[test]
fn a_stream_that_ends_without_a_last_fragment_still_ends() {
    let mut g = Generation::begin();
    assert_eq!(chunks(&g.on_line("{\"response\": \"part\", \"done\": false}")), vec!["part"]);
    let (text, end) = g.finish();
    assert_eq!(text, "part");
    assert!(matches!(end, CommunicationResponse::StreamEnd { .. }));
}

#[test]
fn a_fragment_can_be_taken_directly() {
    let mut g = Generation::begin();
    assert!(g.take(None).is_empty());
    let events = g.take(Some(Fragment { response: Some("a".to_string()), done: true, error: None }));
    assert_eq!(chunks(&events), vec!["a"]);
    assert!(g.ended);
    assert!(g.take(Some(Fragment { response: Some("b".to_string()), done: false, error: None }))
        .is_empty());
    assert_eq!(g.text, "a");
}

#[test]
fn a_refusal_of_the_backend_is_reported() {
    let (event, error) = refused("500 Internal Server Error", Some("boom"));
    match event {
        CommunicationResponse::Error { status, error } => {
            assert_eq!(status, "ai_error");
            assert_eq!(error, "Ollama API returned error 500 Internal Server Error: boom");
        },
        other => panic!("unexpected: {:?}", other),
    }
    assert_eq!(error.message, "Ollama API error: 500 Internal Server Error");
    let (event, _) = refused("404 Not Found", None);
    match event {
        CommunicationResponse::Error { error, .. } => {
            assert_eq!(error, "Ollama API returned error 404 Not Found: Failed to read error body.")
        },
        other => panic!("unexpected: {:?}", other),
    }
}

#[test]
fn a_backend_that_gives_no_answer_is_reported_once() {
    let (event, error) = unanswered("timed out");
    match event {
        CommunicationResponse::Error { status, error } => {
            assert_eq!(status, "ai_error");
            assert_eq!(error, "Ollama API request failed: timed out");
        },
        other => panic!("unexpected: {:?}", other),
    }
    assert_eq!(error.message, "Ollama API request failed: timed out");
}
