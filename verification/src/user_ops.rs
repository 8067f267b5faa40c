//! What can be done to the conversations of one user.
use vstd::prelude::*;
use crate::chat_ops::{
    appended, chat_edit, chat_edit_answer, chat_remove, chat_remove_thread, fresh_chat, message_of,
    with_messages, with_title,
};
use crate::lookup::{first_match, first_true, first_true_from, lemma_first_match};
use crate::model::{
    cut, get, ids, message_ids, messages_view, put, text_of, ChatList, ChatMessage, ChatSession,
    ChatView, MessageView, UserConversations,
};
use crate::order::{arranged, order_of, sorted_order};
use crate::select::{flagged, lemma_unflagged_map, retain_unflagged, unflagged};
use crate::text::{clip, clipped, same_text};
use crate::time::Timestamp;

verus! {

/// The number of characters that a title given by a rename keeps.
pub const RENAMED_TITLE_LIMIT: usize = 30;

/// Doing `op` to the conversation `chat_id`: the conversations after, and
/// what `op` gave; the conversations as they were, and `absent`, where there
/// is no such conversation.
pub open spec fn for_chat<R>(
    chats: ChatList,
    chat_id: Seq<char>,
    op: spec_fn(ChatView) -> (ChatView, R),
    absent: R,
) -> (ChatList, R) {
    match first_match(ids(chats), chat_id) {
        Some(c) => (chats.update(c, (chats[c].0, op(chats[c].1).0)), op(chats[c].1).1),
        None => (chats, absent),
    }
}

/// The conversations after `message` was appended to the conversation
/// `chat_id`, a conversation opened at `now` if it was not there.
pub open spec fn chats_appended(
    chats: ChatList,
    chat_id: Seq<char>,
    message: MessageView,
    now: Timestamp,
) -> ChatList {
    let chat = match get(chats, chat_id) {
        Some(chat) => chat,
        None => fresh_chat(now),
    };
    put(chats, chat_id, appended(chat, message))
}

/// Removing the conversation `chat_id`: the conversations after, and
/// whether it was there.
pub open spec fn chats_without(chats: ChatList, chat_id: Seq<char>) -> (ChatList, bool) {
    (cut(chats, chat_id), first_match(ids(chats), chat_id) is Some)
}

/// For each conversation, whether its id is among `names`.
pub open spec fn named_flags(chats: ChatList, names: Seq<Seq<char>>) -> Seq<bool> {
    chats.map_values(|e: (Seq<char>, ChatView)| names.contains(e.0))
}

/// Removing the conversations whose id is among `names`: the conversations
/// after, and how many went.
pub open spec fn chats_without_all(chats: ChatList, names: Seq<Seq<char>>) -> (ChatList, nat) {
    (unflagged(chats, named_flags(chats, names)), flagged(named_flags(chats, names)))
}

/// The messages of the first `n` conversations, one conversation after the
/// other; with `only`, of those with that id alone.
pub open spec fn gathered_upto(chats: ChatList, only: Option<Seq<char>>, n: int) -> Seq<MessageView>
    decreases n,
{
    if n <= 0 {
        Seq::empty()
    } else {
        let before = gathered_upto(chats, only, n - 1);
        if only is None || only == Some(chats[n - 1].0) {
            before + chats[n - 1].1.messages
        } else {
            before
        }
    }
}

/// The messages of all conversations; with `only`, of those with that id.
pub open spec fn gathered(chats: ChatList, only: Option<Seq<char>>) -> Seq<MessageView> {
    gathered_upto(chats, only, chats.len() as int)
}

/// The rank of an instant: a later instant has a greater rank.
pub open spec fn time_rank(t: Timestamp) -> int {
    t.secs * 0x1_0000_0000 + t.nanos
}

/// The ranks by which messages are listed.
pub open spec fn message_ranks(messages: Seq<MessageView>) -> Seq<int> {
    messages.map_values(|m: MessageView| time_rank(m.timestamp))
}

/// `messages` from the earliest to the latest; messages of one instant in
/// the order in which they stood.
pub open spec fn by_time(messages: Seq<MessageView>) -> Seq<MessageView> {
    arranged(messages, order_of(message_ranks(messages)))
}

/// The messages of a user by time; with `only`, of that conversation.
pub open spec fn listed(chats: ChatList, only: Option<Seq<char>>) -> Seq<MessageView> {
    by_time(gathered(chats, only))
}

/// The latest instant among the first `n` messages.
pub open spec fn latest_upto(messages: Seq<MessageView>, n: int) -> Option<Timestamp>
    decreases n,
{
    if n <= 0 {
        None
    } else {
        match latest_upto(messages, n - 1) {
            Some(t) => if t.at_or_before(messages[n - 1].timestamp) {
                Some(messages[n - 1].timestamp)
            } else {
                Some(t)
            },
            None => Some(messages[n - 1].timestamp),
        }
    }
}

/// The instant of the latest message, if there is a message.
pub open spec fn latest(messages: Seq<MessageView>) -> Option<Timestamp> {
    latest_upto(messages, messages.len() as int)
}

/// What a listing of conversations says of one conversation.
#[derive(Debug)]
pub struct ChatSummary {
    pub id: String,
    pub title: String,
    pub last_message: Option<Timestamp>,
    pub message_count: usize,
}

/// A summary as plain values.
pub struct SummaryView {
    pub id: Seq<char>,
    pub title: Seq<char>,
    pub last_message: Option<Timestamp>,
    pub message_count: nat,
}

impl View for ChatSummary {
    type V = SummaryView;

    open spec fn view(&self) -> SummaryView {
        SummaryView {
            id: self.id@,
            title: self.title@,
            last_message: self.last_message,
            message_count: self.message_count as nat,
        }
    }
}

/// The views of a list of summaries.
pub open spec fn summaries_view(summaries: Seq<ChatSummary>) -> Seq<SummaryView> {
    summaries.map_values(|s: ChatSummary| s@)
}

/// The summary of one conversation.
pub open spec fn summary_of(entry: (Seq<char>, ChatView)) -> SummaryView {
    SummaryView {
        id: entry.0,
        title: entry.1.title,
        last_message: latest(entry.1.messages),
        message_count: entry.1.messages.len(),
    }
}

/// The rank of a conversation in a listing by recency: the later its last
/// message, the smaller; one without messages ranks behind all others.
pub open spec fn recency_rank(last: Option<Timestamp>) -> int {
    match last {
        Some(t) => -time_rank(t),
        None => i128::MAX as int,
    }
}

/// The summaries of `chats`, the conversation with the latest message
/// first, those without messages last.
pub open spec fn summarized(chats: ChatList) -> Seq<SummaryView> {
    let all = chats.map_values(|e: (Seq<char>, ChatView)| summary_of(e));
    arranged(all, order_of(all.map_values(|s: SummaryView| recency_rank(s.last_message))))
}

/// Whether `chat` holds a message with the id `id`.
pub open spec fn holds(chat: ChatView, id: Seq<char>) -> bool {
    first_match(message_ids(chat.messages), id) is Some
}

/// For each conversation, whether it holds a message with the id `id`.
pub open spec fn holder_flags(chats: ChatList, id: Seq<char>) -> Seq<bool> {
    chats.map_values(|e: (Seq<char>, ChatView)| holds(e.1, id))
}

/// Editing the message `message_id` in the first conversation that holds it.
pub open spec fn chats_edit(chats: ChatList, message_id: Seq<char>, content: Seq<char>, now: Timestamp)
    -> (ChatList, Option<MessageView>) {
    match first_true(holder_flags(chats, message_id)) {
        Some(c) => (
            chats.update(c, (chats[c].0, chat_edit(chats[c].1, message_id, content, now).0)),
            chat_edit(chats[c].1, message_id, content, now).1,
        ),
        None => (chats, None),
    }
}

/// The conversation that `target` names: the one with that id, else the
/// first that holds a message with that id.
pub open spec fn target_of(chats: ChatList, target: Seq<char>) -> Option<int> {
    match first_match(ids(chats), target) {
        Some(c) => Some(c),
        None => first_true(holder_flags(chats, target)),
    }
}

/// Renaming the conversation that `target` names: the conversations after,
/// and the title as it was stored.
pub open spec fn chats_renamed(chats: ChatList, target: Seq<char>, title: Seq<char>) -> (
    ChatList,
    Option<Seq<char>>,
) {
    match target_of(chats, target) {
        Some(c) => (
            chats.update(
                c,
                (chats[c].0, with_title(chats[c].1, clipped(title, RENAMED_TITLE_LIMIT as nat))),
            ),
            Some(clipped(title, RENAMED_TITLE_LIMIT as nat)),
        ),
        None => (chats, None),
    }
}

/// What a deletion by id removed.
#[derive(Clone, Copy, Debug, PartialEq, Eq, Structural)]
pub enum DeleteKind {
    /// The conversation with that id.
    Conversation,
    /// The message with that id; its conversation keeps other messages.
    Message,
    /// The message with that id, and its conversation, which it left empty.
    MessageAndConversation,
}

/// Deleting what `target` names: the conversations after, and what kind of
/// thing went together with the title of the conversation concerned.
pub open spec fn chats_deleted(chats: ChatList, target: Seq<char>) -> (
    ChatList,
    Option<(DeleteKind, Seq<char>)>,
) {
    match first_match(ids(chats), target) {
        Some(c) => (chats.remove(c), Some((DeleteKind::Conversation, chats[c].1.title))),
        None => match first_true(holder_flags(chats, target)) {
            Some(c) => {
                let chat = chats[c].1;
                let rest = chat.messages.remove(
                    first_match(message_ids(chat.messages), target).unwrap(),
                );
                if rest.len() == 0 {
                    (chats.remove(c), Some((DeleteKind::MessageAndConversation, chat.title)))
                } else {
                    (
                        chats.update(c, (chats[c].0, with_messages(chat, rest))),
                        Some((DeleteKind::Message, chat.title)),
                    )
                }
            },
            None => (chats, None),
        },
    }
}

/// After a change to the conversation at `c` alone, the view is the view
/// before with that conversation's view replaced.
pub proof fn lemma_chat_replaced(before: UserConversations, after: UserConversations, c: int)
    requires
        0 <= c < before.conversations@.len(),
        after.conversations@.len() == before.conversations@.len(),
        after.conversations@[c].0 == before.conversations@[c].0,
        forall|j: int|
            0 <= j < before.conversations@.len() && j != c ==> after.conversations@[j]
                == before.conversations@[j],
    ensures
        after@ == before@.update(c, (before@[c].0, after.conversations@[c].1@)),
{
    assert(after@ =~= before@.update(c, (before@[c].0, after.conversations@[c].1@)));
}

/// The rank of an instant, computed.
pub fn rank_of(t: Timestamp) -> (rank: i128)
    ensures
        rank == time_rank(t),
        -0x8000_0000_0000_0000_0000_0000 <= rank < 0x8000_0000_0000_0000_0000_0000,
{
    (t.secs as i128) * 0x1_0000_0000 + (t.nanos as i128)
}

/// Orders messages by time.
pub fn messages_by_time(messages: &Vec<ChatMessage>) -> (sorted: Vec<ChatMessage>)
    ensures
        messages_view(sorted@) == by_time(messages_view(messages@)),
{
    let ghost views = messages_view(messages@);
    let mut ranks: Vec<i128> = Vec::new();
    let mut i: usize = 0;
    while i < messages.len()
        invariant
            0 <= i <= messages.len(),
            views == messages_view(messages@),
            ranks@.map_values(|r: i128| r as int) == message_ranks(views).take(i as int),
        decreases messages.len() - i,
    {
        let ghost before = ranks@.map_values(|r: i128| r as int);
        let rank = rank_of(messages[i].timestamp);
        ranks.push(rank);
        assert(ranks@.map_values(|r: i128| r as int) =~= before.push(rank as int));
        assert(message_ranks(views).take(i as int + 1) =~= message_ranks(views).take(i as int).push(
            rank as int,
        ));
        i += 1;
    }
    assert(message_ranks(views).take(i as int) =~= message_ranks(views));
    let order = sorted_order(&ranks);
    let ghost places = order@.map_values(|i: usize| i as int);
    let mut sorted: Vec<ChatMessage> = Vec::new();
    let mut k: usize = 0;
    while k < order.len()
        invariant
            0 <= k <= order.len(),
            order.len() == messages.len(),
            views == messages_view(messages@),
            places == order@.map_values(|i: usize| i as int),
            forall|j: int| 0 <= j < order.len() ==> order@[j] < messages.len(),
            messages_view(sorted@) == arranged(views, places).take(k as int),
        decreases order.len() - k,
    {
        let ghost before = messages_view(sorted@);
        let next = messages[order[k]].clone();
        sorted.push(next);
        assert(messages_view(sorted@) =~= before.push(next@));
        assert(arranged(views, places).take(k as int + 1) =~= arranged(views, places).take(
            k as int,
        ).push(next@));
        k += 1;
    }
    assert(arranged(views, places).take(k as int) =~= arranged(views, places));
    sorted
}

/// The rank of a conversation in a listing by recency, computed.
pub fn recency_of(last: Option<Timestamp>) -> (rank: i128)
    ensures
        rank == recency_rank(last),
{
    match last {
        Some(t) => -rank_of(t),
        None => i128::MAX,
    }
}

impl ChatSession {
    /// The instant of the latest message.
    pub fn last_message(&self) -> (last: Option<Timestamp>)
        ensures
            last == latest(self@.messages),
    {
        let mut last: Option<Timestamp> = None;
        let mut i: usize = 0;
        while i < self.messages.len()
            invariant
                0 <= i <= self.messages.len(),
                last == latest_upto(self@.messages, i as int),
            decreases self.messages.len() - i,
        {
            let t = self.messages[i].timestamp;
            last = match last {
                Some(seen) => if seen.is_at_or_before(&t) {
                    Some(t)
                } else {
                    Some(seen)
                },
                None => Some(t),
            };
            i += 1;
        }
        last
    }
}

impl UserConversations {
    /// No conversations.
    pub fn new() -> (chats: UserConversations)
        ensures
            chats@ == Seq::<(Seq<char>, ChatView)>::empty(),
            chats.wf(),
    {
        let chats = UserConversations { conversations: Vec::new() };
        assert(chats@ =~= Seq::<(Seq<char>, ChatView)>::empty());
        chats
    }

    /// Appends `message` to the conversation `chat_id`, opened at `now` if
    /// it was not there.
    pub fn append_to(&mut self, chat_id: &str, message: ChatMessage, now: Timestamp)
        ensures
            final(self)@ == chats_appended(old(self)@, chat_id@, message@, now),
    {
        match self.position(chat_id) {
            Some(c) => {
                self.conversations[c].1.append(message);
                proof {
                    lemma_first_match(ids(old(self)@), chat_id@);
                    lemma_chat_replaced(*old(self), *self, c as int);
                }
            },
            None => {
                let mut chat = ChatSession::open(now);
                chat.append(message);
                self.conversations.push((chat_id.to_owned(), chat));
                assert(self@ =~= old(self)@.push((chat_id@, appended(fresh_chat(now), message@))));
            },
        }
    }

    /// Edits the message `message_id` of the conversation `chat_id`.
    pub fn update_message(
        &mut self,
        chat_id: &str,
        message_id: &str,
        content: &str,
        now: Timestamp,
    ) -> (message: Option<ChatMessage>)
        ensures
            (final(self)@, message_of(message)) == for_chat(
                old(self)@,
                chat_id@,
                |chat: ChatView| chat_edit(chat, message_id@, content@, now),
                None,
            ),
    {
        match self.position(chat_id) {
            Some(c) => {
                let message = self.conversations[c].1.edit(message_id, content, now);
                proof {
                    lemma_chat_replaced(*old(self), *self, c as int);
                }
                message
            },
            None => None,
        }
    }

    /// Edits the first answer to the message `id` in the conversation
    /// `chat_id`.
    pub fn update_answer(&mut self, chat_id: &str, id: &str, content: &str, now: Timestamp) -> (message:
        Option<ChatMessage>)
        ensures
            (final(self)@, message_of(message)) == for_chat(
                old(self)@,
                chat_id@,
                |chat: ChatView| chat_edit_answer(chat, id@, content@, now),
                None,
            ),
    {
        match self.position(chat_id) {
            Some(c) => {
                let message = self.conversations[c].1.edit_answer(id, content, now);
                proof {
                    lemma_chat_replaced(*old(self), *self, c as int);
                }
                message
            },
            None => None,
        }
    }

    /// Removes every message `message_id` from the conversation `chat_id`.
    pub fn delete_message(&mut self, chat_id: &str, message_id: &str) -> (removed: bool)
        ensures
            (final(self)@, removed) == for_chat(
                old(self)@,
                chat_id@,
                |chat: ChatView| chat_remove(chat, message_id@),
                false,
            ),
    {
        match self.position(chat_id) {
            Some(c) => {
                let removed = self.conversations[c].1.remove(message_id);
                proof {
                    lemma_chat_replaced(*old(self), *self, c as int);
                }
                removed
            },
            None => false,
        }
    }

    /// Removes the message `message_id` and the answers to it from the
    /// conversation `chat_id`.
    pub fn delete_thread(&mut self, chat_id: &str, message_id: &str) -> (removed: usize)
        ensures
            (final(self)@, removed as nat) == for_chat(
                old(self)@,
                chat_id@,
                |chat: ChatView| chat_remove_thread(chat, message_id@),
                0nat,
            ),
    {
        match self.position(chat_id) {
            Some(c) => {
                let removed = self.conversations[c].1.remove_thread(message_id);
                proof {
                    lemma_chat_replaced(*old(self), *self, c as int);
                }
                removed
            },
            None => 0,
        }
    }

    /// Gives the conversation `chat_id` the title `title`, as it is.
    pub fn set_title(&mut self, chat_id: &str, title: &str) -> (found: bool)
        ensures
            (final(self)@, found) == for_chat(
                old(self)@,
                chat_id@,
                |chat: ChatView| (with_title(chat, title@), true),
                false,
            ),
    {
        match self.position(chat_id) {
            Some(c) => {
                self.conversations[c].1.title = title.to_owned();
                proof {
                    lemma_chat_replaced(*old(self), *self, c as int);
                }
                true
            },
            None => false,
        }
    }

    /// Removes the conversation `chat_id`.
    pub fn delete_chat(&mut self, chat_id: &str) -> (found: bool)
        ensures
            (final(self)@, found) == chats_without(old(self)@, chat_id@),
    {
        match self.position(chat_id) {
            Some(c) => {
                self.conversations.remove(c);
                assert(self@ =~= old(self)@.remove(c as int));
                true
            },
            None => false,
        }
    }

    /// Removes every conversation, and says how many there were.
    pub fn delete_all(&mut self) -> (count: usize)
        ensures
            final(self)@ == Seq::<(Seq<char>, ChatView)>::empty(),
            count == old(self)@.len(),
    {
        let count = self.conversations.len();
        self.conversations.clear();
        assert(self@ =~= Seq::<(Seq<char>, ChatView)>::empty());
        count
    }

    /// Removes the conversations whose id is among `chat_ids`, and says how
    /// many went.
    pub fn delete_named(&mut self, chat_ids: &[String]) -> (removed: usize)
        ensures
            (final(self)@, removed as nat) == chats_without_all(
                old(self)@,
                chat_ids@.map_values(|s: String| s@),
            ),
    {
        let ghost names = chat_ids@.map_values(|s: String| s@);
        let ghost flags = named_flags(self@, names);
        let mut marks: Vec<bool> = Vec::new();
        let mut i: usize = 0;
        while i < self.conversations.len()
            invariant
                0 <= i <= self.conversations.len(),
                names == chat_ids@.map_values(|s: String| s@),
                flags == named_flags(self@, names),
                marks@ == flags.take(i as int),
            decreases self.conversations.len() - i,
        {
            let mut named = false;
            let mut k: usize = 0;
            while k < chat_ids.len()
                invariant
                    0 <= k <= chat_ids.len(),
                    i < self.conversations.len(),
                    names == chat_ids@.map_values(|s: String| s@),
                    named == names.take(k as int).contains(self@[i as int].0),
                decreases chat_ids.len() - k,
            {
                let hit = same_text(chat_ids[k].as_str(), self.conversations[i].0.as_str());
                proof {
                    let id = self@[i as int].0;
                    let shorter = names.take(k as int);
                    let longer = names.take(k as int + 1);
                    assert(longer =~= shorter.push(names[k as int]));
                    if hit {
                        assert(longer[k as int] == id);
                    } else if named {
                        let w = choose|w: int| 0 <= w < shorter.len() && shorter[w] == id;
                        assert(longer[w] == id);
                    } else if longer.contains(id) {
                        let w = choose|w: int| 0 <= w < longer.len() && longer[w] == id;
                        assert(shorter[w] == id);
                    }
                }
                named = named || hit;
                k += 1;
            }
            assert(names.take(k as int) =~= names);
            marks.push(named);
            assert(marks@ =~= flags.take(i as int + 1));
            i += 1;
        }
        assert(marks@ =~= flags);
        let removed = retain_unflagged(&mut self.conversations, &marks);
        proof {
            lemma_unflagged_map(
                old(self).conversations@,
                |e: (String, ChatSession)| (e.0@, e.1@),
                flags,
                old(self).conversations@.len() as int,
            );
        }
        removed
    }

    /// The messages of all conversations by time; with `only`, of the
    /// conversations with that id.
    pub fn list_messages(&self, only: Option<&str>) -> (messages: Vec<ChatMessage>)
        ensures
            messages_view(messages@) == listed(
                self@,
                match only {
                    Some(id) => Some(id@),
                    None => None,
                },
            ),
    {
        let ghost wanted: Option<Seq<char>> = match only {
            Some(id) => Some(id@),
            None => None,
        };
        let mut all: Vec<ChatMessage> = Vec::new();
        let mut c: usize = 0;
        while c < self.conversations.len()
            invariant
                0 <= c <= self.conversations.len(),
                wanted == match only {
                    Some(id) => Some(id@),
                    None => None,
                },
                messages_view(all@) == gathered_upto(self@, wanted, c as int),
            decreases self.conversations.len() - c,
        {
            let take = match only {
                Some(id) => same_text(id, self.conversations[c].0.as_str()),
                None => true,
            };
            if take {
                let chat = &self.conversations[c].1;
                let ghost before = messages_view(all@);
                let mut m: usize = 0;
                while m < chat.messages.len()
                    invariant
                        0 <= m <= chat.messages.len(),
                        messages_view(all@) == before + chat@.messages.take(m as int),
                    decreases chat.messages.len() - m,
                {
                    let ghost so_far = messages_view(all@);
                    let next = chat.messages[m].clone();
                    all.push(next);
                    assert(messages_view(all@) =~= so_far.push(next@));
                    assert(chat@.messages.take(m as int + 1) =~= chat@.messages.take(m as int).push(
                        next@,
                    ));
                    m += 1;
                }
                assert(chat@.messages.take(m as int) =~= chat@.messages);
            }
            c += 1;
        }
        messages_by_time(&all)
    }
    /// Summarizes the conversations, the one with the latest message first.
    pub fn summaries(&self) -> (list: Vec<ChatSummary>)
        ensures
            summaries_view(list@) == summarized(self@),
    {
        let ghost all = self@.map_values(|e: (Seq<char>, ChatView)| summary_of(e));
        let ghost all_ranks = all.map_values(|s: SummaryView| recency_rank(s.last_message));
        let mut ranks: Vec<i128> = Vec::new();
        let mut i: usize = 0;
        while i < self.conversations.len()
            invariant
                0 <= i <= self.conversations.len(),
                all == self@.map_values(|e: (Seq<char>, ChatView)| summary_of(e)),
                all_ranks == all.map_values(|s: SummaryView| recency_rank(s.last_message)),
                ranks@.map_values(|r: i128| r as int) == all_ranks.take(i as int),
            decreases self.conversations.len() - i,
        {
            let ghost before = ranks@.map_values(|r: i128| r as int);
            let rank = recency_of(self.conversations[i].1.last_message());
            ranks.push(rank);
            assert(ranks@.map_values(|r: i128| r as int) =~= before.push(rank as int));
            assert(all_ranks.take(i as int + 1) =~= all_ranks.take(i as int).push(rank as int));
            i += 1;
        }
        assert(all_ranks.take(i as int) =~= all_ranks);
        let order = sorted_order(&ranks);
        let ghost places = order@.map_values(|i: usize| i as int);
        let mut list: Vec<ChatSummary> = Vec::new();
        let mut k: usize = 0;
        while k < order.len()
            invariant
                0 <= k <= order.len(),
                order.len() == self.conversations.len(),
                all == self@.map_values(|e: (Seq<char>, ChatView)| summary_of(e)),
                places == order@.map_values(|i: usize| i as int),
                forall|j: int| 0 <= j < order.len() ==> order@[j] < self.conversations.len(),
                summaries_view(list@) == arranged(all, places).take(k as int),
            decreases order.len() - k,
        {
            let entry = &self.conversations[order[k]];
            let ghost before = summaries_view(list@);
            let summary = ChatSummary {
                id: entry.0.clone(),
                title: entry.1.title.clone(),
                last_message: entry.1.last_message(),
                message_count: entry.1.messages.len(),
            };
            list.push(summary);
            assert(summaries_view(list@) =~= before.push(summary@));
            assert(arranged(all, places).take(k as int + 1) =~= arranged(all, places).take(
                k as int,
            ).push(summary@));
            k += 1;
        }
        assert(arranged(all, places).take(k as int) =~= arranged(all, places));
        list
    }

    /// Looks up the first conversation that holds a message `message_id`.
    pub fn holder_of(&self, message_id: &str) -> (found: Option<(usize, usize)>)
        ensures
            match found {
                Some((c, m)) => first_true(holder_flags(self@, message_id@)) == Some(c as int) && c
                    < self.conversations.len() && first_match(
                    message_ids(self@[c as int].1.messages),
                    message_id@,
                ) == Some(m as int) && m < self.conversations@[c as int].1.messages.len(),
                None => first_true(holder_flags(self@, message_id@)) is None,
            },
    {
        let ghost flags = holder_flags(self@, message_id@);
        let mut c: usize = 0;
        while c < self.conversations.len()
            invariant
                0 <= c <= self.conversations.len(),
                flags == holder_flags(self@, message_id@),
                first_true(flags) == first_true_from(flags, c as int),
            decreases self.conversations.len() - c,
        {
            match self.conversations[c].1.position_of(message_id) {
                Some(m) => {
                    return Some((c, m));
                },
                None => {},
            }
            c += 1;
        }
        None
    }

    /// The conversation that `target` names.
    pub fn target(&self, target: &str) -> (found: Option<usize>)
        ensures
            match found {
                Some(c) => target_of(self@, target@) == Some(c as int) && c
                    < self.conversations.len(),
                None => target_of(self@, target@) is None,
            },
    {
        match self.position(target) {
            Some(c) => Some(c),
            None => match self.holder_of(target) {
                Some((c, _)) => Some(c),
                None => None,
            },
        }
    }

    /// Edits the message `message_id` in the first conversation that holds
    /// it.
    pub fn edit_message(&mut self, message_id: &str, content: &str, now: Timestamp) -> (message:
        Option<ChatMessage>)
        ensures
            (final(self)@, message_of(message)) == chats_edit(old(self)@, message_id@, content@, now),
            message is None ==> final(self)@ == old(self)@,
    {
        match self.holder_of(message_id) {
            Some((c, m)) => {
                let message = self.conversations[c].1.revise(m, content, now);
                proof {
                    lemma_chat_replaced(*old(self), *self, c as int);
                }
                Some(message)
            },
            None => None,
        }
    }

    /// Renames the conversation that `target` names; the title is cut to
    /// `RENAMED_TITLE_LIMIT` characters.
    pub fn rename(&mut self, target: &str, title: &str) -> (stored: Option<String>)
        ensures
            (final(self)@, text_of(stored)) == chats_renamed(old(self)@, target@, title@),
    {
        match self.target(target) {
            Some(c) => {
                let stored = clip(title, RENAMED_TITLE_LIMIT);
                self.conversations[c].1.title = stored.clone();
                proof {
                    lemma_chat_replaced(*old(self), *self, c as int);
                }
                Some(stored)
            },
            None => None,
        }
    }

    /// Deletes what `target` names: the conversation with that id, else the
    /// first message with that id, together with its conversation where
    /// that message was its last.
    pub fn delete(&mut self, target: &str) -> (gone: Option<(DeleteKind, String)>)
        ensures
            (
                final(self)@,
                match gone {
                    Some((kind, title)) => Some((kind, title@)),
                    None => None,
                },
            ) == chats_deleted(old(self)@, target@),
    {
        match self.position(target) {
            Some(c) => {
                let entry = self.conversations.remove(c);
                assert(self@ =~= old(self)@.remove(c as int));
                Some((DeleteKind::Conversation, entry.1.title))
            },
            None => match self.holder_of(target) {
                Some((c, m)) => {
                    let title = self.conversations[c].1.title.clone();
                    self.conversations[c].1.messages.remove(m);
                    assert(self.conversations@[c as int].1@.messages =~= old(
                        self,
                    )@[c as int].1.messages.remove(m as int));
                    if self.conversations[c].1.messages.len() == 0 {
                        self.conversations.remove(c);
                        assert(self@ =~= old(self)@.remove(c as int));
                        Some((DeleteKind::MessageAndConversation, title))
                    } else {
                        proof {
                            lemma_chat_replaced(*old(self), *self, c as int);
                        }
                        Some((DeleteKind::Message, title))
                    }
                },
                None => None,
            },
        }
    }
}

} // verus!
