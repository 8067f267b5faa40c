//! The JSON files of the service, as far as they are read and written as
//! plain JSON: which file is which, what a new file holds, and how a record
//! is appended.
use vstd::prelude::*;
use crate::json::{lemma_array_view, lemma_object_view, names, Json, JsonError, JsonTree};
use crate::lookup::{first_match, first_true, first_true_from};
use crate::responses::{ConversationSummary, ConversationSummaryView};
use crate::text::{clip, clipped, decimal, decimal_string, ends_with, has_suffix, same_text};
use crate::time::{parse_rfc3339, rfc3339_instant, Timestamp};

verus! {

/// Which of the service's files a path names.
#[derive(Clone, Copy, Debug, PartialEq, Eq, Structural)]
pub enum FileKind {
    Users,
    Sessions,
    Messages,
    Other,
}

/// The kind of the file at `path`, by the end of the path.
pub open spec fn kind_of(path: Seq<char>) -> FileKind {
    if has_suffix(path, "users.json"@) {
        FileKind::Users
    } else if has_suffix(path, "sessions.json"@) {
        FileKind::Sessions
    } else if has_suffix(path, "messages.json"@) {
        FileKind::Messages
    } else {
        FileKind::Other
    }
}

/// The list that a file of a kind keeps its records in.
pub open spec fn list_name(kind: FileKind) -> Option<Seq<char>> {
    match kind {
        FileKind::Users => Some("users"@),
        FileKind::Sessions => Some("sessions"@),
        FileKind::Messages => Some("sessions"@),
        FileKind::Other => None,
    }
}

/// What a new file of a kind holds: an object with one empty list. A file
/// of no known kind cannot be started.
pub open spec fn initial_tree(kind: FileKind) -> Option<JsonTree> {
    match list_name(kind) {
        Some(name) => Some(JsonTree::Object(seq![(name, JsonTree::Array(Seq::empty()))])),
        None => None,
    }
}

/// Why a record could not be appended.
#[derive(Clone, Copy, Debug, PartialEq, Eq, Structural)]
pub enum DocumentError {
    /// The file of users has no list `users`.
    InvalidUsers,
    /// The file of sessions has no list `sessions`.
    InvalidSessions,
    /// The file is of no known kind.
    UnknownFile,
}

impl DocumentError {
    /// The error in words.
    pub open spec fn text(self) -> Seq<char> {
        match self {
            DocumentError::InvalidUsers => "Invalid users.json structure"@,
            DocumentError::InvalidSessions => "Invalid sessions.json structure"@,
            DocumentError::UnknownFile => "Unknown file type"@,
        }
    }

    pub fn message(&self) -> (text: &'static str)
        ensures
            text@ == self.text(),
    {
        match self {
            DocumentError::InvalidUsers => "Invalid users.json structure",
            DocumentError::InvalidSessions => "Invalid sessions.json structure",
            DocumentError::UnknownFile => "Unknown file type",
        }
    }
}

/// `doc` with `record` behind the items of its list `name`; nothing where
/// `doc` has no such list.
pub open spec fn with_record(doc: JsonTree, name: Seq<char>, record: JsonTree) -> Option<JsonTree> {
    match doc {
        JsonTree::Object(members) => match first_match(names(members), name) {
            Some(i) => match members[i].1 {
                JsonTree::Array(items) => Some(
                    JsonTree::Object(
                        members.update(i, (members[i].0, JsonTree::Array(items.push(record)))),
                    ),
                ),
                _ => None,
            },
            None => None,
        },
        _ => None,
    }
}

/// The document of a file of kind `kind` after `record` was appended. A
/// record for the file of messages changes nothing: messages are kept by
/// the conversation store.
pub open spec fn appended_to(kind: FileKind, doc: JsonTree, record: JsonTree) -> Result<
    JsonTree,
    DocumentError,
> {
    match kind {
        FileKind::Users => match with_record(doc, "users"@, record) {
            Some(after) => Ok(after),
            None => Err(DocumentError::InvalidUsers),
        },
        FileKind::Sessions => match with_record(doc, "sessions"@, record) {
            Some(after) => Ok(after),
            None => Err(DocumentError::InvalidSessions),
        },
        _ => Ok(doc),
    }
}

/// What is to be done with a file before a record is appended.
#[derive(Clone, Copy, Debug, PartialEq, Eq, Structural)]
pub enum Preparation {
    /// The file is missing or empty and is started anew.
    Start,
    /// The file is read as it is.
    Read,
}

/// What is known of a file at a glance.
#[derive(Clone, Copy, Debug, PartialEq, Eq, Structural)]
pub enum FileState {
    Missing,
    Sized(u64),
}

/// The state of a file in words.
pub open spec fn status_text(state: FileState) -> Seq<char> {
    match state {
        FileState::Missing => "File does not exist"@,
        FileState::Sized(size) => if size == 0 {
            "File exists but is empty"@
        } else {
            "File exists and has content"@
        },
    }
}

/// What follows an attempt to save a record.
#[derive(Clone, Copy, Debug, PartialEq, Eq, Structural)]
pub enum SaveNext {
    /// The record is saved.
    Done,
    /// The attempt failed; another follows after a pause.
    RetryAfter { ms: u64 },
    /// The attempt failed and was the last; the record is given up after
    /// a pause.
    GiveUpAfter { ms: u64 },
}

/// What follows the attempt with the number `attempt`, counted from 0, of
/// at most `max_retries` attempts to save a record.
pub open spec fn after_save(attempt: usize, max_retries: usize, saved: bool) -> SaveNext {
    if saved {
        SaveNext::Done
    } else if attempt + 1 >= max_retries {
        SaveNext::GiveUpAfter { ms: 100 }
    } else {
        SaveNext::RetryAfter { ms: 100 }
    }
}

/// Says what follows an attempt to save a record.
pub fn save_with_retry(attempt: usize, max_retries: usize, saved: bool) -> (next: SaveNext)
    ensures
        next == after_save(attempt, max_retries, saved),
{
    if saved {
        SaveNext::Done
    } else if attempt >= max_retries || attempt + 1 >= max_retries {
        SaveNext::GiveUpAfter { ms: 100 }
    } else {
        SaveNext::RetryAfter { ms: 100 }
    }
}

fn find_member(members: &Vec<(String, Json)>, name: &str) -> (found: Option<usize>)
    ensures
        match found {
            Some(i) => i < members.len() && first_match(
                crate::lookup::keys_of(members@),
                name@,
            ) == Some(i as int),
            None => first_match(crate::lookup::keys_of(members@), name@) is None,
        },
{
    crate::lookup::find_key(members, name)
}

fn push_record(doc: &mut Json, name: &str, record: Json) -> (done: bool)
    ensures
        match with_record(old(doc)@, name@, record@) {
            Some(after) => done && final(doc)@ == after,
            None => !done && *final(doc) == *old(doc),
        },
{
    proof {
        if *doc is Object {
            lemma_object_view(*doc);
            assert(names(doc@->Object_0) =~= crate::lookup::keys_of((*doc)->Object_0@));
        }
    }
    match doc {
        Json::Object(members) => {
            match find_member(members, name) {
                Some(i) => {
                    proof {
                        crate::json::lemma_same_kind(members@[i as int].1);
                        if members@[i as int].1 is Array {
                            lemma_array_view(members@[i as int].1);
                        }
                    }
                    let is_list = match &members[i].1 {
                        Json::Array(_) => true,
                        _ => false,
                    };
                    if !is_list {
                        return false;
                    }
                    match &mut members[i].1 {
                        Json::Array(items) => {
                            items.push(record);
                        },
                        _ => {},
                    }
                },
                None => {
                    return false;
                },
            }
        },
        _ => {
            return false;
        },
    }
    proof {
        lemma_object_view(*doc);
        let before = old(doc)@->Object_0;
        let i = first_match(names(before), name@).unwrap();
        lemma_array_view((*doc)->Object_0@[i].1);
        let items = before[i].1->Array_0;
        assert(doc@->Object_0[i].1->Array_0 =~= items.push(record@));
        assert(doc@->Object_0 =~= before.update(
            i,
            (before[i].0, JsonTree::Array(items.push(record@))),
        ));
    }
    true
}

/// The file manager for the service's JSON files.
pub struct JsonFileManager {}

impl JsonFileManager {
    pub fn new() -> JsonFileManager {
        JsonFileManager {  }
    }

    /// The kind of the file at `file_path`.
    pub fn kind(&self, file_path: &str) -> (kind: FileKind)
        ensures
            kind == kind_of(file_path@),
    {
        if ends_with(file_path, "users.json") {
            FileKind::Users
        } else if ends_with(file_path, "sessions.json") {
            FileKind::Sessions
        } else if ends_with(file_path, "messages.json") {
            FileKind::Messages
        } else {
            FileKind::Other
        }
    }

    /// Whether a file is started anew before a record is appended.
    pub fn prepare(&self, state: FileState) -> (p: Preparation)
        ensures
            p == match state {
                FileState::Missing => Preparation::Start,
                FileState::Sized(size) => if size == 0 {
                    Preparation::Start
                } else {
                    Preparation::Read
                },
            },
    {
        match state {
            FileState::Missing => Preparation::Start,
            FileState::Sized(size) => if size == 0 {
                Preparation::Start
            } else {
                Preparation::Read
            },
        }
    }

    /// What a new file at `file_path` holds.
    pub fn create_initial_file(&self, file_path: &str) -> (doc: Result<Json, DocumentError>)
        ensures
            match doc {
                Ok(value) => initial_tree(kind_of(file_path@)) == Some(value@),
                Err(e) => initial_tree(kind_of(file_path@)) is None && e
                    == DocumentError::UnknownFile,
            },
    {
        let name = match self.kind(file_path) {
            FileKind::Users => "users",
            FileKind::Sessions => "sessions",
            FileKind::Messages => "sessions",
            FileKind::Other => {
                return Err(DocumentError::UnknownFile);
            },
        };
        let mut members: Vec<(String, Json)> = Vec::new();
        members.push((name.to_owned(), Json::Array(Vec::new())));
        let doc = Json::Object(members);
        proof {
            lemma_object_view(doc);
            lemma_array_view(doc->Object_0@[0].1);
            assert(doc@->Object_0[0].1->Array_0 =~= Seq::<JsonTree>::empty());
            assert(doc@->Object_0 =~= seq![(name@, JsonTree::Array(Seq::empty()))]);
        }
        Ok(doc)
    }

    /// The document to go on with after the file at `file_path` was read:
    /// the document that was read; for a file that is no JSON, what a new
    /// file holds. Says also whether the file is started anew.
    pub fn recover(&self, file_path: &str, parsed: Result<Json, JsonError>) -> (recovered: Result<
        (Json, bool),
        DocumentError,
    >)
        ensures
            match parsed {
                Ok(doc) => recovered is Ok && recovered->Ok_0.0 == doc && !recovered->Ok_0.1,
                Err(_) => match initial_tree(kind_of(file_path@)) {
                    Some(tree) => recovered is Ok && recovered->Ok_0.0@ == tree && recovered->Ok_0.1,
                    None => recovered == Err::<(Json, bool), DocumentError>(
                        DocumentError::UnknownFile,
                    ),
                },
            },
    {
        match parsed {
            Ok(doc) => Ok((doc, false)),
            Err(_) => match self.create_initial_file(file_path) {
                Ok(doc) => Ok((doc, true)),
                Err(e) => Err(e),
            },
        }
    }

    /// Appends `data` to the document of the file at `file_path`.
    pub fn append_to_file(&self, file_path: &str, doc: &mut Json, data: Json) -> (done: Result<
        (),
        DocumentError,
    >)
        ensures
            match appended_to(kind_of(file_path@), old(doc)@, data@) {
                Ok(after) => done is Ok && final(doc)@ == after,
                Err(e) => done == Err::<(), DocumentError>(e) && *final(doc) == *old(doc),
            },
    {
        match self.kind(file_path) {
            FileKind::Users => self.append_to_users(doc, data),
            FileKind::Sessions => self.append_to_sessions(doc, data),
            _ => Ok(()),
        }
    }

    /// Appends `data` to the list `users`.
    pub fn append_to_users(&self, doc: &mut Json, data: Json) -> (done: Result<(), DocumentError>)
        ensures
            match appended_to(FileKind::Users, old(doc)@, data@) {
                Ok(after) => done is Ok && final(doc)@ == after,
                Err(e) => done == Err::<(), DocumentError>(e) && *final(doc) == *old(doc),
            },
    {
        if push_record(doc, "users", data) {
            Ok(())
        } else {
            Err(DocumentError::InvalidUsers)
        }
    }

    /// Appends `data` to the list `sessions`.
    pub fn append_to_sessions(&self, doc: &mut Json, data: Json) -> (done: Result<(), DocumentError>)
        ensures
            match appended_to(FileKind::Sessions, old(doc)@, data@) {
                Ok(after) => done is Ok && final(doc)@ == after,
                Err(e) => done == Err::<(), DocumentError>(e) && *final(doc) == *old(doc),
            },
    {
        if push_record(doc, "sessions", data) {
            Ok(())
        } else {
            Err(DocumentError::InvalidSessions)
        }
    }

    /// The state of a file in words.
    pub fn get_file_status(&self, state: FileState) -> (text: &'static str)
        ensures
            text@ == status_text(state),
    {
        match state {
            FileState::Missing => "File does not exist",
            FileState::Sized(size) => if size == 0 {
                "File exists but is empty"
            } else {
                "File exists and has content"
            },
        }
    }

    /// The conversations of the user `user_id` in the document of
    /// messages, in document order. A conversation without a title is
    /// listed as `Untitled`; one without an opening time that can be read,
    /// as opened at `now`.
    pub fn get_user_chats_for_all_sessions(&self, doc: &Json, user_id: &u64, now: Timestamp) -> (list:
        Vec<ConversationSummary>)
        ensures
            list@.map_values(|s: ConversationSummary| s@) == sessions_in(
                doc@,
                decimal(*user_id as nat),
                now,
            ),
    {
        let user = decimal_string(*user_id);
        let mut list: Vec<ConversationSummary> = Vec::new();
        let conversations = match doc.get("users") {
            Some(users) => match users.as_object() {
                Some(_) => match users.get(user.as_str()) {
                    Some(entry) => match entry.get("conversations") {
                        Some(conversations) => conversations.as_object(),
                        None => None,
                    },
                    None => None,
                },
                None => None,
            },
            None => None,
        };
        let members = match conversations {
            Some(members) => members,
            None => {
                assert(list@.map_values(|s: ConversationSummary| s@) =~= Seq::<
                    ConversationSummaryView,
                >::empty());
                return list;
            },
        };
        let ghost trees = crate::titles::conversations_in(doc@, user@).unwrap();
        let mut i: usize = 0;
        while i < members.len()
            invariant
                0 <= i <= members.len(),
                trees.len() == members@.len(),
                forall|j: int|
                    0 <= j < members@.len() ==> #[trigger] trees[j] == (members@[j].0@, members@[j].1@),
                list@.map_values(|s: ConversationSummary| s@) == trees.map_values(
                    |e: (Seq<char>, JsonTree)| session_summary(e, now),
                ).take(i as int),
            decreases members.len() - i,
        {
            let ghost before = list@.map_values(|s: ConversationSummary| s@);
            assert(trees[i as int] == (members@[i as int].0@, members@[i as int].1@));
            let title = match members[i].1.str_at("title") {
                Some(title) => title,
                None => "Untitled",
            };
            let created_at = match members[i].1.str_at("created_at") {
                Some(text) => match parse_rfc3339(text) {
                    Some(t) => t,
                    None => now,
                },
                None => now,
            };
            let summary = ConversationSummary {
                conversation_id: members[i].0.clone(),
                title: title.to_owned(),
                created_at,
            };
            list.push(summary);
            assert(list@.map_values(|s: ConversationSummary| s@) =~= before.push(summary@));
            assert(trees.map_values(|e: (Seq<char>, JsonTree)| session_summary(e, now)).take(
                i as int + 1,
            ) =~= trees.map_values(|e: (Seq<char>, JsonTree)| session_summary(e, now)).take(
                i as int,
            ).push(summary@));
            i += 1;
        }
        assert(trees.map_values(|e: (Seq<char>, JsonTree)| session_summary(e, now)).take(i as int)
            =~= trees.map_values(|e: (Seq<char>, JsonTree)| session_summary(e, now)));
        list
    }

    /// The title that a conversation takes from a list of messages: the
    /// content of the first message of the user, cut to 50 characters.
    pub fn update_chat_title(&self, messages: &Vec<Json>) -> (title: Option<String>)
        ensures
            crate::model::text_of(title) == title_from(messages@.map_values(|m: Json| m@)),
    {
        let ghost trees = messages@.map_values(|m: Json| m@);
        let ghost flags = trees.map_values(|m: JsonTree| gives_title(m));
        let mut i: usize = 0;
        while i < messages.len()
            invariant
                0 <= i <= messages.len(),
                trees == messages@.map_values(|m: Json| m@),
                flags == trees.map_values(|m: JsonTree| gives_title(m)),
                first_true(flags) == first_true_from(flags, i as int),
            decreases messages.len() - i,
        {
            let by_user = match messages[i].str_at("role") {
                Some(role) => same_text(role, "user"),
                None => false,
            };
            if by_user {
                match messages[i].str_at("content") {
                    Some(content) => {
                        return Some(clip(content, 50));
                    },
                    None => {},
                }
            }
            i += 1;
        }
        None
    }
}

/// Whether a message can give a conversation its title: it is the user's
/// and has content that is a string.
pub open spec fn gives_title(message: JsonTree) -> bool {
    message.text_at("role"@) == Some("user"@) && message.text_at("content"@) is Some
}

/// The title that the first message that can give one gives.
pub open spec fn title_from(messages: Seq<JsonTree>) -> Option<Seq<char>> {
    match first_true(messages.map_values(|m: JsonTree| gives_title(m))) {
        Some(i) => Some(clipped(messages[i].text_at("content"@).unwrap(), 50)),
        None => None,
    }
}

/// What is listed of one conversation of the document of messages.
pub open spec fn session_summary(entry: (Seq<char>, JsonTree), now: Timestamp)
    -> ConversationSummaryView {
    ConversationSummaryView {
        conversation_id: entry.0,
        title: match entry.1.text_at("title"@) {
            Some(title) => title,
            None => "Untitled"@,
        },
        created_at: match entry.1.text_at("created_at"@) {
            Some(text) => match rfc3339_instant(text) {
                Some(t) => t,
                None => now,
            },
            None => now,
        },
    }
}

/// The conversations of a user in the document of messages.
pub open spec fn sessions_in(doc: JsonTree, user: Seq<char>, now: Timestamp) -> Seq<
    ConversationSummaryView,
> {
    match crate::titles::conversations_in(doc, user) {
        Some(members) => members.map_values(|e: (Seq<char>, JsonTree)| session_summary(e, now)),
        None => Seq::empty(),
    }
}

} // verus!
