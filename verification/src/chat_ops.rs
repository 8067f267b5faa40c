//! What can be done to one conversation.
use vstd::prelude::*;
use crate::lookup::{first_match, first_true, first_true_from, hits};
use crate::model::{message_ids, ChatMessage, ChatSession, ChatView, MessageView};
use crate::select::{flagged, lemma_unflagged_map, retain_unflagged, unflagged};
use crate::text::{clip, clipped, same_text};
use crate::time::Timestamp;

verus! {

/// The number of characters that a title taken from a message keeps.
pub const DERIVED_TITLE_LIMIT: usize = 50;

/// A conversation that was just opened.
pub open spec fn fresh_chat(now: Timestamp) -> ChatView {
    ChatView { title: "New Chat"@, created_at: now, messages: Seq::empty() }
}

/// Whether appending `message` to `chat` gives the conversation its title:
/// the message is the user's, and the conversation is empty and still
/// carries the title it was opened with.
pub open spec fn takes_title(chat: ChatView, message: MessageView) -> bool {
    message.role == "user"@ && chat.messages.len() == 0 && chat.title == "New Chat"@
}

/// `chat` with `message` behind its other messages.
pub open spec fn appended(chat: ChatView, message: MessageView) -> ChatView {
    ChatView {
        title: if takes_title(chat, message) {
            clipped(message.content, DERIVED_TITLE_LIMIT as nat)
        } else {
            chat.title
        },
        created_at: chat.created_at,
        messages: chat.messages.push(message),
    }
}

/// `message` with new content, marked as edited at `now`.
pub open spec fn revised(message: MessageView, content: Seq<char>, now: Timestamp) -> MessageView {
    MessageView {
        message_id: message.message_id,
        parent_id: message.parent_id,
        reply_id: message.reply_id,
        role: message.role,
        content,
        edited: true,
        timestamp: message.timestamp,
        edit_timestamp: Some(now),
    }
}

/// `chat` with other messages.
pub open spec fn with_messages(chat: ChatView, messages: Seq<MessageView>) -> ChatView {
    ChatView { title: chat.title, created_at: chat.created_at, messages }
}

/// `chat` with another title.
pub open spec fn with_title(chat: ChatView, title: Seq<char>) -> ChatView {
    ChatView { title, created_at: chat.created_at, messages: chat.messages }
}

/// `chat` with the message at `at` revised.
pub open spec fn revised_at(chat: ChatView, at: int, content: Seq<char>, now: Timestamp)
    -> ChatView {
    with_messages(chat, chat.messages.update(at, revised(chat.messages[at], content, now)))
}

/// Editing the message `message_id` of `chat`: the conversation after, and
/// the message as revised; the conversation as it was, and nothing, where it
/// holds no such message.
pub open spec fn chat_edit(chat: ChatView, message_id: Seq<char>, content: Seq<char>, now: Timestamp)
    -> (ChatView, Option<MessageView>) {
    match first_match(message_ids(chat.messages), message_id) {
        Some(at) => (revised_at(chat, at, content, now), Some(revised(chat.messages[at], content, now))),
        None => (chat, None),
    }
}

/// Whether `message` is the assistant's answer to the message `id`.
pub open spec fn answers(message: MessageView, id: Seq<char>) -> bool {
    message.role == "assistant"@ && message.reply_id == Some(id)
}

/// For each message, whether it answers the message `id`.
pub open spec fn answer_flags(messages: Seq<MessageView>, id: Seq<char>) -> Seq<bool> {
    messages.map_values(|m: MessageView| answers(m, id))
}

/// For each message, whether it is the message `id` or answers it.
pub open spec fn thread_flags(messages: Seq<MessageView>, id: Seq<char>) -> Seq<bool> {
    messages.map_values(|m: MessageView| m.message_id == id || answers(m, id))
}

/// Editing the first answer to the message `id`.
pub open spec fn chat_edit_answer(chat: ChatView, id: Seq<char>, content: Seq<char>, now: Timestamp)
    -> (ChatView, Option<MessageView>) {
    match first_true(answer_flags(chat.messages, id)) {
        Some(at) => (revised_at(chat, at, content, now), Some(revised(chat.messages[at], content, now))),
        None => (chat, None),
    }
}

/// Removing every message with the id `message_id`: the conversation
/// after, and whether any message went.
pub open spec fn chat_remove(chat: ChatView, message_id: Seq<char>) -> (ChatView, bool) {
    let flags = hits(message_ids(chat.messages), message_id);
    (with_messages(chat, unflagged(chat.messages, flags)), flagged(flags) > 0)
}

/// Removing the message `message_id` and every answer to it: the
/// conversation after, and how many messages went.
pub open spec fn chat_remove_thread(chat: ChatView, message_id: Seq<char>) -> (ChatView, nat) {
    let flags = thread_flags(chat.messages, message_id);
    (with_messages(chat, unflagged(chat.messages, flags)), flagged(flags))
}

/// The view of an optional message.
pub open spec fn message_of(message: Option<ChatMessage>) -> Option<MessageView> {
    match message {
        Some(m) => Some(m@),
        None => None,
    }
}

impl ChatMessage {
    /// Tests whether this message is the assistant's answer to the message `id`.
    pub fn is_answer_to(&self, id: &str) -> (r: bool)
        ensures
            r == answers(self@, id@),
    {
        same_text(self.role.as_str(), "assistant") && match &self.reply_id {
            Some(reply) => same_text(reply.as_str(), id),
            None => false,
        }
    }
}

impl ChatSession {
    /// A conversation opened at `now`, with the title that every new
    /// conversation starts with.
    pub fn open(now: Timestamp) -> (chat: ChatSession)
        ensures
            chat@ == fresh_chat(now),
    {
        let chat = ChatSession { title: "New Chat".to_owned(), created_at: now, messages: Vec::new() };
        assert(chat@.messages =~= Seq::empty());
        chat
    }

    /// Appends `message`; the first message of the user gives a conversation
    /// that was never named its title.
    pub fn append(&mut self, message: ChatMessage)
        ensures
            final(self)@ == appended(old(self)@, message@),
    {
        if same_text(message.role.as_str(), "user") && self.messages.len() == 0 && same_text(
            self.title.as_str(),
            "New Chat",
        ) {
            self.title = clip(message.content.as_str(), DERIVED_TITLE_LIMIT);
        }
        self.messages.push(message);
        assert(final(self)@.messages =~= old(self)@.messages.push(message@));
    }

    /// Looks a message up by its id.
    pub fn position_of(&self, message_id: &str) -> (found: Option<usize>)
        ensures
            match found {
                Some(i) => first_match(message_ids(self@.messages), message_id@) == Some(i as int)
                    && i < self.messages.len(),
                None => first_match(message_ids(self@.messages), message_id@) is None,
            },
    {
        let ghost flags = hits(message_ids(self@.messages), message_id@);
        let mut i: usize = 0;
        while i < self.messages.len()
            invariant
                0 <= i <= self.messages.len(),
                flags == hits(message_ids(self@.messages), message_id@),
                first_true(flags) == first_true_from(flags, i as int),
            decreases self.messages.len() - i,
        {
            if same_text(self.messages[i].message_id.as_str(), message_id) {
                return Some(i);
            }
            i += 1;
        }
        None
    }

    /// Looks up the first answer to the message `id`.
    pub fn answer_to(&self, id: &str) -> (found: Option<usize>)
        ensures
            match found {
                Some(i) => first_true(answer_flags(self@.messages, id@)) == Some(i as int) && i
                    < self.messages.len(),
                None => first_true(answer_flags(self@.messages, id@)) is None,
            },
    {
        let ghost flags = answer_flags(self@.messages, id@);
        let mut i: usize = 0;
        while i < self.messages.len()
            invariant
                0 <= i <= self.messages.len(),
                flags == answer_flags(self@.messages, id@),
                first_true(flags) == first_true_from(flags, i as int),
            decreases self.messages.len() - i,
        {
            if self.messages[i].is_answer_to(id) {
                return Some(i);
            }
            i += 1;
        }
        None
    }

    /// Gives the message at `at` new content and marks it as edited at `now`.
    pub fn revise(&mut self, at: usize, content: &str, now: Timestamp) -> (message: ChatMessage)
        requires
            at < old(self).messages.len(),
        ensures
            final(self)@ == revised_at(old(self)@, at as int, content@, now),
            message@ == revised(old(self)@.messages[at as int], content@, now),
    {
        self.messages[at].content = content.to_owned();
        self.messages[at].edited = true;
        self.messages[at].edit_timestamp = Some(now);
        assert(final(self)@.messages =~= old(self)@.messages.update(
            at as int,
            revised(old(self)@.messages[at as int], content@, now),
        ));
        self.messages[at].clone()
    }

    /// Edits the message `message_id`.
    pub fn edit(&mut self, message_id: &str, content: &str, now: Timestamp) -> (message: Option<
        ChatMessage,
    >)
        ensures
            (final(self)@, message_of(message)) == chat_edit(old(self)@, message_id@, content@, now),
    {
        match self.position_of(message_id) {
            Some(at) => Some(self.revise(at, content, now)),
            None => None,
        }
    }

    /// Edits the first answer to the message `id`.
    pub fn edit_answer(&mut self, id: &str, content: &str, now: Timestamp) -> (message: Option<
        ChatMessage,
    >)
        ensures
            (final(self)@, message_of(message)) == chat_edit_answer(old(self)@, id@, content@, now),
    {
        match self.answer_to(id) {
            Some(at) => Some(self.revise(at, content, now)),
            None => None,
        }
    }

    /// Removes every message with the id `message_id`.
    pub fn remove(&mut self, message_id: &str) -> (removed: bool)
        ensures
            (final(self)@, removed) == chat_remove(old(self)@, message_id@),
    {
        let ghost flags = hits(message_ids(self@.messages), message_id@);
        let mut marks: Vec<bool> = Vec::new();
        let mut i: usize = 0;
        while i < self.messages.len()
            invariant
                0 <= i <= self.messages.len(),
                flags == hits(message_ids(self@.messages), message_id@),
                marks@ == flags.take(i as int),
            decreases self.messages.len() - i,
        {
            let mark = same_text(self.messages[i].message_id.as_str(), message_id);
            marks.push(mark);
            assert(marks@ =~= flags.take(i as int + 1));
            i += 1;
        }
        assert(marks@ =~= flags);
        let dropped = retain_unflagged(&mut self.messages, &marks);
        proof {
            lemma_unflagged_map(
                old(self).messages@,
                |m: ChatMessage| m@,
                flags,
                old(self).messages@.len() as int,
            );
        }
        dropped > 0
    }

    /// Removes the message `message_id` and every answer to it.
    pub fn remove_thread(&mut self, message_id: &str) -> (removed: usize)
        ensures
            (final(self)@, removed as nat) == chat_remove_thread(old(self)@, message_id@),
    {
        let ghost flags = thread_flags(self@.messages, message_id@);
        let mut marks: Vec<bool> = Vec::new();
        let mut i: usize = 0;
        while i < self.messages.len()
            invariant
                0 <= i <= self.messages.len(),
                flags == thread_flags(self@.messages, message_id@),
                marks@ == flags.take(i as int),
            decreases self.messages.len() - i,
        {
            let mark = same_text(self.messages[i].message_id.as_str(), message_id)
                || self.messages[i].is_answer_to(message_id);
            marks.push(mark);
            assert(marks@ =~= flags.take(i as int + 1));
            i += 1;
        }
        assert(marks@ =~= flags);
        let dropped = retain_unflagged(&mut self.messages, &marks);
        proof {
            lemma_unflagged_map(
                old(self).messages@,
                |m: ChatMessage| m@,
                flags,
                old(self).messages@.len() as int,
            );
        }
        dropped
    }
}

} // verus!
