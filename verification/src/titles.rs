//! The titles of a user's conversations, read from the document as text.
//!
//! The document file may be read while it is being written. A reader that
//! finds it empty, or cut off in the middle of a value, looks again after a
//! pause, up to a number of times that a policy sets.
use vstd::prelude::*;
use crate::json::{json_reading, parse_json, Json, JsonError, JsonTree};
use crate::model::{ConversationMetadata, MetadataView};
use crate::order::{arranged, order_of, sorted_order};
use crate::text::{blank, decimal, decimal_string, is_blank};
use crate::time::{parse_rfc3339, rfc3339_instant};
use crate::user_ops::{rank_of, time_rank};

verus! {

/// How often the document is looked at, and how long the reader waits
/// between two looks.
#[derive(Clone, Copy, Debug, PartialEq, Eq, Structural)]
pub struct RetryPolicy {
    pub max_attempts: usize,
    pub delay_ms: u64,
}

impl RetryPolicy {
    /// Five looks, a tenth of a second apart.
    pub fn standard() -> (policy: RetryPolicy)
        ensures
            policy.max_attempts == 5,
            policy.delay_ms == 100,
    {
        RetryPolicy { max_attempts: 5, delay_ms: 100 }
    }

    /// Whether the look with the number `attempt`, counted from 0, is the
    /// last one.
    pub open spec fn is_last(self, attempt: usize) -> bool {
        attempt + 1 >= self.max_attempts
    }

    pub fn last(&self, attempt: usize) -> (last: bool)
        ensures
            last == self.is_last(attempt),
    {
        attempt >= self.max_attempts || attempt + 1 >= self.max_attempts
    }
}

/// Why the titles could not be read.
#[derive(Debug)]
pub enum TitlesError {
    /// The document is not JSON.
    Malformed,
    /// The document file could not be read.
    Unreadable { reason: String },
    /// A conversation has no title that is a string.
    MissingTitle { conversation_id: String },
    /// A conversation has no opening time that is a string.
    MissingCreatedAt { conversation_id: String },
    /// The opening time of a conversation is no RFC 3339 time.
    BadTimestamp { conversation_id: String },
}

/// A titles error as plain values.
pub enum TitlesErrorView {
    Malformed,
    Unreadable { reason: Seq<char> },
    MissingTitle { conversation_id: Seq<char> },
    MissingCreatedAt { conversation_id: Seq<char> },
    BadTimestamp { conversation_id: Seq<char> },
}

impl View for TitlesError {
    type V = TitlesErrorView;

    open spec fn view(&self) -> TitlesErrorView {
        match self {
            TitlesError::Malformed => TitlesErrorView::Malformed,
            TitlesError::Unreadable { reason } => TitlesErrorView::Unreadable { reason: reason@ },
            TitlesError::MissingTitle { conversation_id } => TitlesErrorView::MissingTitle {
                conversation_id: conversation_id@,
            },
            TitlesError::MissingCreatedAt { conversation_id } => TitlesErrorView::MissingCreatedAt {
                conversation_id: conversation_id@,
            },
            TitlesError::BadTimestamp { conversation_id } => TitlesErrorView::BadTimestamp {
                conversation_id: conversation_id@,
            },
        }
    }
}

/// The views of a list of metadata.
pub open spec fn metadata_view(list: Seq<ConversationMetadata>) -> Seq<MetadataView> {
    list.map_values(|m: ConversationMetadata| m@)
}

/// The view of a list of metadata or an error.
pub open spec fn titles_view(result: Result<Vec<ConversationMetadata>, TitlesError>) -> Result<
    Seq<MetadataView>,
    TitlesErrorView,
> {
    match result {
        Ok(list) => Ok(metadata_view(list@)),
        Err(e) => Err(e@),
    }
}

/// The metadata of the conversation `id`, read from its JSON object: the
/// members `title`, a string, and `created_at`, a string that is an RFC
/// 3339 time.
pub open spec fn entry_of(id: Seq<char>, conversation: JsonTree) -> Result<
    MetadataView,
    TitlesErrorView,
> {
    match conversation.text_at("title"@) {
        None => Err(TitlesErrorView::MissingTitle { conversation_id: id }),
        Some(title) => match conversation.text_at("created_at"@) {
            None => Err(TitlesErrorView::MissingCreatedAt { conversation_id: id }),
            Some(text) => match rfc3339_instant(text) {
                None => Err(TitlesErrorView::BadTimestamp { conversation_id: id }),
                Some(created_at) => Ok(MetadataView { id, title, created_at }),
            },
        },
    }
}

/// The metadata of the first `n` conversations, or the error of the first
/// among them that has one.
pub open spec fn entries_upto(members: Seq<(Seq<char>, JsonTree)>, n: int) -> Result<
    Seq<MetadataView>,
    TitlesErrorView,
>
    decreases n,
{
    if n <= 0 {
        Ok(Seq::empty())
    } else {
        match entries_upto(members, n - 1) {
            Err(e) => Err(e),
            Ok(list) => match entry_of(members[n - 1].0, members[n - 1].1) {
                Ok(entry) => Ok(list.push(entry)),
                Err(e) => Err(e),
            },
        }
    }
}

/// The conversations of a user in the document: the members of
/// `users.<user>.conversations`, where that is an object.
pub open spec fn conversations_in(doc: JsonTree, user: Seq<char>) -> Option<
    Seq<(Seq<char>, JsonTree)>,
> {
    match doc.member("users"@) {
        Some(users) => match users.member(user) {
            Some(entry) => match entry.member("conversations"@) {
                Some(conversations) => conversations.members(),
                None => None,
            },
            None => None,
        },
        None => None,
    }
}

/// `list` with the conversation that was opened last first; conversations
/// opened at one instant in the order in which they stood.
pub open spec fn newest_first(list: Seq<MetadataView>) -> Seq<MetadataView> {
    arranged(list, order_of(list.map_values(|m: MetadataView| -time_rank(m.created_at))))
}

/// The titles of a user's conversations in a document, newest first; none
/// where the document does not hold the user's conversations.
pub open spec fn titles_in(doc: JsonTree, user: Seq<char>) -> Result<
    Seq<MetadataView>,
    TitlesErrorView,
> {
    match conversations_in(doc, user) {
        None => Ok(Seq::empty()),
        Some(members) => match entries_upto(members, members.len() as int) {
            Ok(list) => Ok(newest_first(list)),
            Err(e) => Err(e),
        },
    }
}

/// What one look at the document file found.
#[derive(Debug)]
pub enum Look {
    /// There is no file.
    Missing,
    /// The file has no content.
    Empty,
    /// The content of the file.
    Text(String),
    /// The file is there and could not be read.
    Unreadable(String),
}

/// A look as plain values.
pub enum LookView {
    Missing,
    Empty,
    Text(Seq<char>),
    Unreadable(Seq<char>),
}

impl View for Look {
    type V = LookView;

    open spec fn view(&self) -> LookView {
        match self {
            Look::Missing => LookView::Missing,
            Look::Empty => LookView::Empty,
            Look::Text(text) => LookView::Text(text@),
            Look::Unreadable(reason) => LookView::Unreadable(reason@),
        }
    }
}

/// What follows a look: another look after a pause, or the result.
#[derive(Debug)]
pub enum Next {
    Retry { after_ms: u64 },
    Done(Result<Vec<ConversationMetadata>, TitlesError>),
}

/// What follows a look, as plain values.
pub enum NextView {
    Retry { after_ms: u64 },
    Done(Result<Seq<MetadataView>, TitlesErrorView>),
}

impl View for Next {
    type V = NextView;

    open spec fn view(&self) -> NextView {
        match self {
            Next::Retry { after_ms } => NextView::Retry { after_ms: *after_ms },
            Next::Done(result) => NextView::Done(titles_view(*result)),
        }
    }
}

/// What follows the parsing of the document's text at the look `attempt`.
pub open spec fn after_parse(
    policy: RetryPolicy,
    attempt: usize,
    parsed: Result<JsonTree, JsonError>,
    user: Seq<char>,
) -> NextView {
    match parsed {
        Ok(doc) => NextView::Done(titles_in(doc, user)),
        Err(JsonError::UnexpectedEnd) => after_empty(policy, attempt),
        Err(JsonError::Malformed) => NextView::Done(Err(TitlesErrorView::Malformed)),
    }
}

/// What follows a look that found the file empty.
pub open spec fn after_empty(policy: RetryPolicy, attempt: usize) -> NextView {
    if policy.is_last(attempt) {
        NextView::Done(Ok(Seq::empty()))
    } else {
        NextView::Retry { after_ms: policy.delay_ms }
    }
}

/// What follows the look `attempt`, counted from 0. A file that is missing
/// has no conversations. A file that is empty or blank, or cut off in the
/// middle of a value, is looked at again; at the last look such a file has
/// no conversations. A file that cannot be read, and one that is not JSON,
/// is an error at once.
pub open spec fn after_look(policy: RetryPolicy, attempt: usize, look: LookView, user: Seq<char>)
    -> NextView {
    match look {
        LookView::Missing => NextView::Done(Ok(Seq::empty())),
        LookView::Unreadable(reason) => NextView::Done(Err(TitlesErrorView::Unreadable { reason })),
        LookView::Empty => after_empty(policy, attempt),
        LookView::Text(text) => if is_blank(text) {
            after_empty(policy, attempt)
        } else {
            after_parse(policy, attempt, json_reading(text), user)
        },
    }
}

fn read_entry(id: &str, conversation: &Json) -> (entry: Result<ConversationMetadata, TitlesError>)
    ensures
        match entry {
            Ok(m) => entry_of(id@, conversation@) == Ok::<MetadataView, TitlesErrorView>(m@),
            Err(e) => entry_of(id@, conversation@) == Err::<MetadataView, TitlesErrorView>(e@),
        },
{
    let title = match conversation.str_at("title") {
        Some(title) => title,
        None => {
            return Err(TitlesError::MissingTitle { conversation_id: id.to_owned() });
        },
    };
    let text = match conversation.str_at("created_at") {
        Some(text) => text,
        None => {
            return Err(TitlesError::MissingCreatedAt { conversation_id: id.to_owned() });
        },
    };
    match parse_rfc3339(text) {
        Some(created_at) => Ok(
            ConversationMetadata { id: id.to_owned(), title: title.to_owned(), created_at },
        ),
        None => Err(TitlesError::BadTimestamp { conversation_id: id.to_owned() }),
    }
}

/// Orders metadata, newest first.
pub fn sort_newest_first(list: Vec<ConversationMetadata>) -> (sorted: Vec<ConversationMetadata>)
    ensures
        metadata_view(sorted@) == newest_first(metadata_view(list@)),
{
    let ghost views = metadata_view(list@);
    let ghost all_ranks = views.map_values(|m: MetadataView| -time_rank(m.created_at));
    let mut ranks: Vec<i128> = Vec::new();
    let mut i: usize = 0;
    while i < list.len()
        invariant
            0 <= i <= list.len(),
            views == metadata_view(list@),
            all_ranks == views.map_values(|m: MetadataView| -time_rank(m.created_at)),
            ranks@.map_values(|r: i128| r as int) == all_ranks.take(i as int),
        decreases list.len() - i,
    {
        let ghost before = ranks@.map_values(|r: i128| r as int);
        let rank = -rank_of(list[i].created_at);
        ranks.push(rank);
        assert(ranks@.map_values(|r: i128| r as int) =~= before.push(rank as int));
        assert(all_ranks.take(i as int + 1) =~= all_ranks.take(i as int).push(rank as int));
        i += 1;
    }
    assert(all_ranks.take(i as int) =~= all_ranks);
    let order = sorted_order(&ranks);
    let ghost places = order@.map_values(|i: usize| i as int);
    let mut sorted: Vec<ConversationMetadata> = Vec::new();
    let mut k: usize = 0;
    while k < order.len()
        invariant
            0 <= k <= order.len(),
            order.len() == list.len(),
            views == metadata_view(list@),
            places == order@.map_values(|i: usize| i as int),
            forall|j: int| 0 <= j < order.len() ==> order@[j] < list.len(),
            metadata_view(sorted@) == arranged(views, places).take(k as int),
        decreases order.len() - k,
    {
        let item = &list[order[k]];
        let ghost before = metadata_view(sorted@);
        let next = ConversationMetadata {
            id: item.id.clone(),
            title: item.title.clone(),
            created_at: item.created_at,
        };
        sorted.push(next);
        assert(metadata_view(sorted@) =~= before.push(next@));
        assert(arranged(views, places).take(k as int + 1) =~= arranged(views, places).take(
            k as int,
        ).push(next@));
        k += 1;
    }
    assert(arranged(views, places).take(k as int) =~= arranged(views, places));
    sorted
}

/// Reads the titles of the conversations of the user `user_id` from the
/// document.
pub fn titles_of(doc: &Json, user_id: u64) -> (result: Result<Vec<ConversationMetadata>, TitlesError>)
    ensures
        titles_view(result) == titles_in(doc@, decimal(user_id as nat)),
{
    let user = decimal_string(user_id);
    let conversations = match doc.get("users") {
        Some(users) => match users.get(user.as_str()) {
            Some(entry) => match entry.get("conversations") {
                Some(conversations) => conversations.as_object(),
                None => None,
            },
            None => None,
        },
        None => None,
    };
    let members = match conversations {
        Some(members) => members,
        None => {
            let none: Vec<ConversationMetadata> = Vec::new();
            assert(metadata_view(none@) =~= Seq::<MetadataView>::empty());
            return Ok(none);
        },
    };
    let ghost trees = conversations_in(doc@, user@).unwrap();
    let mut list: Vec<ConversationMetadata> = Vec::new();
    let mut i: usize = 0;
    assert(metadata_view(list@) =~= Seq::<MetadataView>::empty());
    while i < members.len()
        invariant
            0 <= i <= members.len(),
            conversations_in(doc@, decimal(user_id as nat)) == Some(trees),
            trees.len() == members@.len(),
            forall|j: int|
                0 <= j < members@.len() ==> #[trigger] trees[j] == (members@[j].0@, members@[j].1@),
            entries_upto(trees, i as int) == Ok::<Seq<MetadataView>, TitlesErrorView>(
                metadata_view(list@),
            ),
        decreases members.len() - i,
    {
        let ghost before = metadata_view(list@);
        assert(trees[i as int] == (members@[i as int].0@, members@[i as int].1@));
        match read_entry(members[i].0.as_str(), &members[i].1) {
            Ok(entry) => {
                list.push(entry);
                assert(metadata_view(list@) =~= before.push(entry@));
            },
            Err(e) => {
                proof {
                    assert(entries_upto(trees, i as int + 1) == Err::<
                        Seq<MetadataView>,
                        TitlesErrorView,
                    >(e@));
                    lemma_error_stays(trees, i as int + 1, members@.len() as int);
                }
                return Err(e);
            },
        }
        i += 1;
    }
    Ok(sort_newest_first(list))
}

/// An error among the first `n` conversations is the error of every
/// longer run.
pub proof fn lemma_error_stays(members: Seq<(Seq<char>, JsonTree)>, n: int, m: int)
    requires
        0 <= n <= m,
        entries_upto(members, n) is Err,
    ensures
        entries_upto(members, m) == entries_upto(members, n),
    decreases m - n,
{
    if n < m {
        lemma_error_stays(members, n, m - 1);
    }
}

/// Says what follows the parsing of the document's text at the look
/// `attempt`.
pub fn judge_parse(policy: &RetryPolicy, attempt: usize, parsed: &Result<Json, JsonError>, user_id: u64) -> (next:
    Next)
    ensures
        next@ == after_parse(
            *policy,
            attempt,
            match parsed {
                Ok(doc) => Ok(doc@),
                Err(e) => Err(*e),
            },
            decimal(user_id as nat),
        ),
{
    match parsed {
        Ok(doc) => Next::Done(titles_of(doc, user_id)),
        Err(JsonError::UnexpectedEnd) => empty_look(policy, attempt),
        Err(JsonError::Malformed) => Next::Done(Err(TitlesError::Malformed)),
    }
}

/// Says what follows the look `attempt`, counted from 0, at the document
/// file.
pub fn judge_look(policy: &RetryPolicy, attempt: usize, look: &Look, user_id: u64) -> (next: Next)
    ensures
        next@ == after_look(*policy, attempt, look@, decimal(user_id as nat)),
{
    match look {
        Look::Missing => {
            let none: Vec<ConversationMetadata> = Vec::new();
            assert(metadata_view(none@) =~= Seq::<MetadataView>::empty());
            Next::Done(Ok(none))
        },
        Look::Unreadable(reason) => Next::Done(Err(TitlesError::Unreadable { reason: reason.clone() })),
        Look::Empty => empty_look(policy, attempt),
        Look::Text(text) => {
            if blank(text.as_str()) {
                empty_look(policy, attempt)
            } else {
                let parsed = parse_json(text.as_str());
                judge_parse(policy, attempt, &parsed, user_id)
            }
        },
    }
}

fn empty_look(policy: &RetryPolicy, attempt: usize) -> (next: Next)
    ensures
        next@ == after_empty(*policy, attempt),
{
    if policy.last(attempt) {
        let none: Vec<ConversationMetadata> = Vec::new();
        assert(metadata_view(none@) =~= Seq::<MetadataView>::empty());
        Next::Done(Ok(none))
    } else {
        Next::Retry { after_ms: policy.delay_ms }
    }
}

} // verus!
