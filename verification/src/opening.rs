//! Opening the conversation document for an operation.
//!
//! The document file may be read while it is being written. An operation
//! that finds it empty, or cut off in the middle of a value, looks again
//! after a pause, as often as a policy allows. When the looks are used up,
//! an operation that only reads goes on with the document without users;
//! an operation that writes fails, and the file stays as it is. A file
//! that is no JSON, and one that cannot be read, fails every operation at
//! once.
use vstd::prelude::*;
use vstd::string::StringExecFns;
use crate::archive::{load_view, read_document};
use crate::json::{json_reading, JsonError, JsonTree};
use crate::model::{MessageData, UserList};
use crate::text::{blank, decimal, decimal_string, is_blank};
use crate::titles::{Look, LookView, RetryPolicy};

verus! {

/// What an operation does with the document.
#[derive(Clone, Copy, Debug, PartialEq, Eq, Structural)]
pub enum Access {
    /// It reads the document and leaves it as it is.
    Read,
    /// It changes the document, which is then written.
    Write,
}

/// Why the document could not be opened.
#[derive(Debug)]
pub enum LoadError {
    /// The file was still empty or cut off at the last look.
    Unfinished { attempts: usize },
    /// The file is not JSON.
    Malformed,
    /// The file could not be read.
    Unreadable { reason: String },
}

/// A load error as plain values.
pub enum LoadErrorView {
    Unfinished { attempts: usize },
    Malformed,
    Unreadable { reason: Seq<char> },
}

impl View for LoadError {
    type V = LoadErrorView;

    open spec fn view(&self) -> LoadErrorView {
        match self {
            LoadError::Unfinished { attempts } => LoadErrorView::Unfinished { attempts: *attempts },
            LoadError::Malformed => LoadErrorView::Malformed,
            LoadError::Unreadable { reason } => LoadErrorView::Unreadable { reason: reason@ },
        }
    }
}

impl LoadError {
    /// The error in words.
    pub open spec fn text(self) -> Seq<char> {
        match self {
            LoadError::Unfinished { attempts } => "Document still incomplete after "@ + decimal(
                attempts as nat,
            ) + " attempts"@,
            LoadError::Malformed => "Document is not valid JSON"@,
            LoadError::Unreadable { reason } => "Document could not be read: "@ + reason@,
        }
    }

    /// The error in words.
    pub fn message(&self) -> (text: String)
        ensures
            text@ == self.text(),
    {
        match self {
            LoadError::Unfinished { attempts } => {
                let mut text = "Document still incomplete after ".to_owned();
                text.append(decimal_string(*attempts as u64).as_str());
                text.append(" attempts");
                text
            },
            LoadError::Malformed => "Document is not valid JSON".to_owned(),
            LoadError::Unreadable { reason } => {
                let mut text = "Document could not be read: ".to_owned();
                text.append(reason.as_str());
                text
            },
        }
    }
}

/// What follows a look at the document file: another look after a pause,
/// the document, or a failure.
#[derive(Debug)]
pub enum Opening {
    Retry { after_ms: u64 },
    Ready(MessageData),
    Failed(LoadError),
}

/// What follows a look, as plain values.
pub enum OpeningView {
    Retry { after_ms: u64 },
    Ready(UserList),
    Failed(LoadErrorView),
}

impl View for Opening {
    type V = OpeningView;

    open spec fn view(&self) -> OpeningView {
        match self {
            Opening::Retry { after_ms } => OpeningView::Retry { after_ms: *after_ms },
            Opening::Ready(db) => OpeningView::Ready(db@),
            Opening::Failed(e) => OpeningView::Failed(e@),
        }
    }
}

/// What follows a look that found the file empty or cut off: another
/// look, while the policy allows one; after the last look, the document
/// without users for an operation that reads, and a failure for one that
/// writes.
pub open spec fn after_incomplete(policy: RetryPolicy, attempt: usize, access: Access)
    -> OpeningView {
    if !policy.is_last(attempt) {
        OpeningView::Retry { after_ms: policy.delay_ms }
    } else {
        match access {
            Access::Read => OpeningView::Ready(Seq::empty()),
            Access::Write => OpeningView::Failed(
                LoadErrorView::Unfinished { attempts: policy.max_attempts },
            ),
        }
    }
}

/// What follows the reading of the file's text at the look `attempt`.
pub open spec fn after_reading(
    policy: RetryPolicy,
    attempt: usize,
    read: Result<UserList, JsonError>,
    access: Access,
) -> OpeningView {
    match read {
        Ok(doc) => OpeningView::Ready(doc),
        Err(JsonError::UnexpectedEnd) => after_incomplete(policy, attempt, access),
        Err(JsonError::Malformed) => OpeningView::Failed(LoadErrorView::Malformed),
    }
}

/// What follows the look `attempt`, counted from 0, at the document file,
/// for an operation with the access `access`. A file that is missing
/// stands for the document without users.
pub open spec fn after_document_look(
    policy: RetryPolicy,
    attempt: usize,
    look: LookView,
    access: Access,
) -> OpeningView {
    match look {
        LookView::Missing => OpeningView::Ready(Seq::empty()),
        LookView::Unreadable(reason) => OpeningView::Failed(LoadErrorView::Unreadable { reason }),
        LookView::Empty => after_incomplete(policy, attempt, access),
        LookView::Text(text) => if is_blank(text) {
            after_incomplete(policy, attempt, access)
        } else {
            after_reading(policy, attempt, read_document(json_reading(text)), access)
        },
    }
}

/// An operation that writes is never handed a document that was made up
/// for a file that is cut off or wrong: it gets the document that the file
/// holds, or none.
pub proof fn law_writes_need_the_document(policy: RetryPolicy, attempt: usize, text: Seq<char>)
    requires
        !is_blank(text),
    ensures
        after_document_look(policy, attempt, LookView::Text(text), Access::Write) matches OpeningView::Ready(
            doc,
        ) ==> read_document(json_reading(text)) == Ok::<UserList, JsonError>(doc),
        json_reading(text) == Err::<JsonTree, JsonError>(JsonError::Malformed)
            ==> after_document_look(policy, attempt, LookView::Text(text), Access::Write)
            == OpeningView::Failed(LoadErrorView::Malformed),
{
}

fn incomplete(policy: &RetryPolicy, attempt: usize, access: Access) -> (next: Opening)
    ensures
        next@ == after_incomplete(*policy, attempt, access),
{
    if !policy.last(attempt) {
        Opening::Retry { after_ms: policy.delay_ms }
    } else {
        match access {
            Access::Read => Opening::Ready(MessageData::new()),
            Access::Write => Opening::Failed(LoadError::Unfinished { attempts: policy.max_attempts }),
        }
    }
}

/// Says what follows the reading of the file's text at the look
/// `attempt`.
pub fn judge_reading(policy: &RetryPolicy, attempt: usize, read: Result<MessageData, JsonError>, access: Access) -> (next:
    Opening)
    ensures
        next@ == after_reading(*policy, attempt, load_view(read), access),
{
    match read {
        Ok(db) => Opening::Ready(db),
        Err(JsonError::UnexpectedEnd) => incomplete(policy, attempt, access),
        Err(JsonError::Malformed) => Opening::Failed(LoadError::Malformed),
    }
}

/// Says what follows the look `attempt`, counted from 0, at the document
/// file, for an operation with the access `access`.
pub fn open_document(policy: &RetryPolicy, attempt: usize, look: &Look, access: Access) -> (next: Opening)
    ensures
        next@ == after_document_look(*policy, attempt, look@, access),
{
    match look {
        Look::Missing => Opening::Ready(MessageData::new()),
        Look::Unreadable(reason) => Opening::Failed(LoadError::Unreadable { reason: reason.clone() }),
        Look::Empty => incomplete(policy, attempt, access),
        Look::Text(text) => {
            if blank(text.as_str()) {
                incomplete(policy, attempt, access)
            } else {
                judge_reading(policy, attempt, MessageData::load(text.as_str()), access)
            }
        },
    }
}

} // verus!
