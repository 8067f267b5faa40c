//! The generation proxy: what each line of the backend's answer amounts to.
//!
//! The backend answers a prompt with lines of JSON. Each line is a
//! fragment: it may carry a piece of text, and it says whether it is the
//! last. The proxy hands each piece of text on as a `stream_chunk`, keeps
//! the text so far, and ends the stream with a `stream_end`.
use vstd::prelude::*;
use vstd::string::StringExecFns;
use crate::json::{json_reading, parse_json, Json, JsonError, JsonTree};
use crate::responses::{CommunicationResponse, ResponseView};
use crate::text::{trim, trimmed};

verus! {

/// One fragment of the backend's answer.
#[derive(Debug)]
pub struct Fragment {
    pub response: Option<String>,
    pub done: bool,
    pub error: Option<String>,
}

/// A fragment as plain values.
pub struct FragmentView {
    pub response: Option<Seq<char>>,
    pub done: bool,
    pub error: Option<Seq<char>>,
}

impl View for Fragment {
    type V = FragmentView;

    open spec fn view(&self) -> FragmentView {
        FragmentView {
            response: crate::model::text_of(self.response),
            done: self.done,
            error: crate::model::text_of(self.error),
        }
    }
}

/// The fragment that a JSON value is, if it is one: an object whose member
/// `done` is a boolean and whose members `response` and `error` are
/// strings, `null` or missing.
pub open spec fn fragment_in(value: JsonTree) -> Option<FragmentView> {
    match (
        value.optional_text_at("response"@),
        value.flag_at("done"@),
        value.optional_text_at("error"@),
    ) {
        (Some(response), Some(done), Some(error)) => Some(FragmentView { response, done, error }),
        _ => None,
    }
}

/// The fragment that a parsed line is, if it is one.
pub open spec fn fragment_of(parsed: Result<JsonTree, JsonError>) -> Option<FragmentView> {
    match parsed {
        Ok(value) => fragment_in(value),
        Err(_) => None,
    }
}

/// The view of an optional fragment.
pub open spec fn fragment_view(fragment: Option<Fragment>) -> Option<FragmentView> {
    match fragment {
        Some(f) => Some(f@),
        None => None,
    }
}

fn text_or_none(value: &Json, name: &str) -> (out: Option<Option<String>>)
    ensures
        match out {
            Some(inner) => value@.optional_text_at(name@) == Some(crate::model::text_of(inner)),
            None => value@.optional_text_at(name@) is None,
        },
{
    match value.optional_str_at(name) {
        Some(Some(text)) => Some(Some(text.to_owned())),
        Some(None) => Some(None),
        None => None,
    }
}

impl Fragment {
    /// Reads a fragment from a JSON value.
    pub fn from_json(value: &Json) -> (fragment: Option<Fragment>)
        ensures
            fragment_view(fragment) == fragment_in(value@),
    {
        let response = text_or_none(value, "response");
        let done = value.bool_at("done");
        let error = text_or_none(value, "error");
        match (response, done, error) {
            (Some(response), Some(done), Some(error)) => Some(Fragment { response, done, error }),
            _ => None,
        }
    }

    /// Reads a fragment from a parsed line.
    pub fn from_parsed(parsed: &Result<Json, JsonError>) -> (fragment: Option<Fragment>)
        ensures
            fragment_view(fragment) == fragment_of(
                match parsed {
                    Ok(value) => Ok(value@),
                    Err(e) => Err(*e),
                },
            ),
    {
        match parsed {
            Ok(value) => Fragment::from_json(value),
            Err(_) => None,
        }
    }
}

/// The state of one generation: the text received so far, and whether the
/// backend has sent its last fragment.
#[derive(Debug)]
pub struct Generation {
    pub text: String,
    pub ended: bool,
}

/// A generation as plain values.
pub struct GenerationView {
    pub text: Seq<char>,
    pub ended: bool,
}

impl View for Generation {
    type V = GenerationView;

    open spec fn view(&self) -> GenerationView {
        GenerationView { text: self.text@, ended: self.ended }
    }
}

/// The generation after a fragment arrived, and the events that the
/// fragment gives rise to: a chunk for a fragment that carries text.
/// Without a fragment, and after the last fragment, nothing changes.
pub open spec fn after_fragment(state: GenerationView, fragment: Option<FragmentView>) -> (
    GenerationView,
    Seq<ResponseView>,
) {
    match fragment {
        Some(f) if !state.ended => (
            GenerationView {
                text: match f.response {
                    Some(piece) => state.text + piece,
                    None => state.text,
                },
                ended: f.done,
            },
            match f.response {
                Some(piece) => seq![ResponseView::StreamChunk { chunk: piece }],
                None => Seq::empty(),
            },
        ),
        _ => (state, Seq::empty()),
    }
}

/// The generation after a line arrived, and the events that the line gives
/// rise to. A line of white space, and a line that is no fragment, change
/// nothing.
pub open spec fn after_line(state: GenerationView, line: Seq<char>) -> (
    GenerationView,
    Seq<ResponseView>,
) {
    if trimmed(line).len() == 0 {
        (state, Seq::empty())
    } else {
        after_fragment(state, fragment_of(json_reading(trimmed(line))))
    }
}

/// The generation after the lines of `lines` arrived one after the other,
/// and the events that they give rise to, in their order.
pub open spec fn after_lines(state: GenerationView, lines: Seq<Seq<char>>) -> (
    GenerationView,
    Seq<ResponseView>,
)
    decreases lines.len(),
{
    if lines.len() == 0 {
        (state, Seq::empty())
    } else {
        let before = after_lines(state, lines.drop_last());
        let last = after_line(before.0, lines.last());
        (last.0, before.1 + last.1)
    }
}

/// Why a generation failed.
#[derive(Debug)]
pub struct GenerationError {
    pub message: String,
}

impl Generation {
    /// A generation that has received nothing.
    pub fn begin() -> (state: Generation)
        ensures
            state@ == (GenerationView { text: Seq::empty(), ended: false }),
    {
        Generation { text: String::new(), ended: false }
    }

    /// Takes a fragment, or the absence of one.
    pub fn take(&mut self, fragment: Option<Fragment>) -> (events: Vec<CommunicationResponse>)
        ensures
            (final(self)@, crate::responses::responses_view(events@)) == after_fragment(
                old(self)@,
                fragment_view(fragment),
            ),
    {
        let mut events: Vec<CommunicationResponse> = Vec::new();
        assert(crate::responses::responses_view(events@) =~= Seq::<ResponseView>::empty());
        if self.ended {
            return events;
        }
        match fragment {
            Some(f) => {
                match f.response {
                    Some(piece) => {
                        self.text.append(piece.as_str());
                        events.push(CommunicationResponse::StreamChunk { chunk: piece });
                        assert(crate::responses::responses_view(events@) =~= seq![
                            ResponseView::StreamChunk { chunk: piece@ },
                        ]);
                    },
                    None => {},
                }
                self.ended = f.done;
            },
            None => {},
        }
        events
    }

    /// Takes one line of the backend's answer.
    pub fn on_line(&mut self, line: &str) -> (events: Vec<CommunicationResponse>)
        ensures
            (final(self)@, crate::responses::responses_view(events@)) == after_line(old(self)@, line@),
    {
        let text = trim(line);
        if text.unicode_len() == 0 {
            let events: Vec<CommunicationResponse> = Vec::new();
            assert(crate::responses::responses_view(events@) =~= Seq::<ResponseView>::empty());
            return events;
        }
        let parsed = parse_json(text);
        let fragment = Fragment::from_parsed(&parsed);
        self.take(fragment)
    }

    /// Ends the stream: the event that tells the client so, and the whole
    /// text for the caller to keep.
    pub fn finish(self) -> (end: (String, CommunicationResponse))
        ensures
            end.0@ == self@.text,
            end.1@ == (ResponseView::StreamEnd { status: "success"@ }),
    {
        (self.text, CommunicationResponse::StreamEnd { status: "success".to_owned() })
    }
}

/// What the backend answered to a prompt.
#[derive(Debug)]
pub enum BackendAnswer {
    /// An answer that is no success: its status, and its body if it could
    /// be read.
    Refused { status: String, body: Option<String> },
    /// The lines of a successful answer.
    Lines(Vec<String>),
    /// No answer: the request did not reach the backend, for this reason.
    Unreachable { reason: String },
}

/// The texts of a list of lines.
pub open spec fn lines_view(lines: Seq<String>) -> Seq<Seq<char>> {
    lines.map_values(|l: String| l@)
}

/// The generation proxy.
#[derive(Debug)]
pub struct LlmService {
    pub config: crate::config::Config,
}

impl LlmService {
    /// The proxy for the backend of the default configuration.
    pub fn new() -> (service: LlmService)
        ensures
            service.config.ollama_url@ == "http://localhost:11434"@,
            service.config.model_name@ == "finalend/hermes-3-llama-3.1:8b"@,
    {
        LlmService { config: crate::config::Config::default() }
    }

    /// Turns a whole answer of the backend into the events for the client
    /// and the text for the caller. A successful answer gives a chunk for
    /// each fragment that carries text, up to the last fragment, and then
    /// one `stream_end`; the text is that of the chunks, put together. An
    /// answer that is no success gives one error event and fails.
    pub fn run_prompt(&self, answer: &BackendAnswer) -> (out: (
        Vec<CommunicationResponse>,
        Result<String, GenerationError>,
    ))
        ensures
            match answer {
                BackendAnswer::Lines(lines) => {
                    let run = after_lines(
                        GenerationView { text: Seq::empty(), ended: false },
                        lines_view(lines@),
                    );
                    &&& crate::responses::responses_view(out.0@) == run.1.push(
                        ResponseView::StreamEnd { status: "success"@ },
                    )
                    &&& out.1 is Ok
                    &&& out.1->Ok_0@ == run.0.text
                },
                BackendAnswer::Refused { status, body } => {
                    &&& crate::responses::responses_view(out.0@) == seq![
                        ResponseView::Error {
                            status: "ai_error"@,
                            error: refusal_words(
                                status@,
                                match body {
                                    Some(b) => b@,
                                    None => "Failed to read error body."@,
                                },
                            ),
                        },
                    ]
                    &&& out.1 is Err
                    &&& out.1->Err_0.message@ == failure_words(status@)
                },
                BackendAnswer::Unreachable { reason } => {
                    &&& crate::responses::responses_view(out.0@) == seq![
                        ResponseView::Error {
                            status: "ai_error"@,
                            error: unanswered_words(reason@),
                        },
                    ]
                    &&& out.1 is Err
                    &&& out.1->Err_0.message@ == unanswered_words(reason@)
                },
            },
    {
        match answer {
            BackendAnswer::Refused { status, body } => {
                let body = match body {
                    Some(b) => Some(b.as_str()),
                    None => None,
                };
                let (event, error) = refused(status.as_str(), body);
                let mut events: Vec<CommunicationResponse> = Vec::new();
                events.push(event);
                assert(crate::responses::responses_view(events@) =~= seq![event@]);
                (events, Err(error))
            },
            BackendAnswer::Unreachable { reason } => {
                let (event, error) = unanswered(reason.as_str());
                let mut events: Vec<CommunicationResponse> = Vec::new();
                events.push(event);
                assert(crate::responses::responses_view(events@) =~= seq![event@]);
                (events, Err(error))
            },
            BackendAnswer::Lines(lines) => {
                let ghost texts = lines_view(lines@);
                let ghost start = GenerationView { text: Seq::empty(), ended: false };
                let mut state = Generation::begin();
                let mut events: Vec<CommunicationResponse> = Vec::new();
                assert(crate::responses::responses_view(events@) =~= Seq::<ResponseView>::empty());
                assert(texts.take(0) =~= Seq::<Seq<char>>::empty());
                let mut i: usize = 0;
                while i < lines.len()
                    invariant
                        0 <= i <= lines.len(),
                        texts == lines_view(lines@),
                        start == (GenerationView { text: Seq::empty(), ended: false }),
                        (state@, crate::responses::responses_view(events@)) == after_lines(
                            start,
                            texts.take(i as int),
                        ),
                    decreases lines.len() - i,
                {
                    let ghost before = crate::responses::responses_view(events@);
                    let mut more = state.on_line(lines[i].as_str());
                    let ghost added = crate::responses::responses_view(more@);
                    events.append(&mut more);
                    assert(crate::responses::responses_view(events@) =~= before + added);
                    assert(texts.take(i as int + 1).drop_last() =~= texts.take(i as int));
                    assert(texts.take(i as int + 1).last() == lines@[i as int]@);
                    i += 1;
                }
                assert(texts.take(i as int) =~= texts);
                let ghost before = crate::responses::responses_view(events@);
                let (text, end) = state.finish();
                events.push(end);
                assert(crate::responses::responses_view(events@) =~= before.push(end@));
                (events, Ok(text))
            },
        }
    }

    /// Whether the backend is in good health: it answered, and with a
    /// status of success.
    pub fn health_check(&self, status: Option<u16>) -> (healthy: bool)
        ensures
            healthy == match status {
                Some(code) => 200 <= code < 300,
                None => false,
            },
    {
        match status {
            Some(code) => 200 <= code && code < 300,
            None => false,
        }
    }
}

/// The words with which the client is told that the backend refused a
/// prompt.
pub open spec fn refusal_words(status: Seq<char>, body: Seq<char>) -> Seq<char> {
    "Ollama API returned error "@ + status + ": "@ + body
}

/// The words with which the caller is told that the backend refused a
/// prompt.
pub open spec fn failure_words(status: Seq<char>) -> Seq<char> {
    "Ollama API error: "@ + status
}

/// What follows from an answer of the backend that is no success: the
/// event for the client and the error for the caller. Where the body of
/// the answer could not be read, `body` is nothing.
pub fn refused(status: &str, body: Option<&str>) -> (out: (CommunicationResponse, GenerationError))
    ensures
        out.0@ == (ResponseView::Error {
            status: "ai_error"@,
            error: refusal_words(
                status@,
                match body {
                    Some(b) => b@,
                    None => "Failed to read error body."@,
                },
            ),
        }),
        out.1.message@ == failure_words(status@),
{
    let body = match body {
        Some(b) => b,
        None => "Failed to read error body.",
    };
    let mut words = "Ollama API returned error ".to_owned();
    words.append(status);
    words.append(": ");
    words.append(body);
    let mut message = "Ollama API error: ".to_owned();
    message.append(status);
    (
        CommunicationResponse::Error { status: "ai_error".to_owned(), error: words },
        GenerationError { message },
    )
}

/// The words with which the client and the caller are told that the
/// request did not reach the backend.
pub open spec fn unanswered_words(reason: Seq<char>) -> Seq<char> {
    "Ollama API request failed: "@ + reason
}

/// What follows from a request that got no answer from the backend: the
/// one event that tells the client so, and the error for the caller. The
/// request is not made again.
pub fn unanswered(reason: &str) -> (out: (CommunicationResponse, GenerationError))
    ensures
        out.0@ == (ResponseView::Error {
            status: "ai_error"@,
            error: unanswered_words(reason@),
        }),
        out.1.message@ == unanswered_words(reason@),
{
    let mut words = "Ollama API request failed: ".to_owned();
    words.append(reason);
    let message = words.clone();
    (
        CommunicationResponse::Error { status: "ai_error".to_owned(), error: words },
        GenerationError { message },
    )
}

} // verus!
