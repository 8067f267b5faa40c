//! The conversation document: users, their conversations, and the messages
//! of each conversation, with the mathematical view that the store's
//! contracts are stated over.
use vstd::prelude::*;
use crate::lookup::{distinct, find_key, first_match, keys_of};
use crate::time::Timestamp;

verus! {

/// One message of a conversation.
#[derive(Debug)]
pub struct ChatMessage {
    pub message_id: String,
    pub parent_id: String,
    /// On an assistant message: the id of the user message it answers.
    pub reply_id: Option<String>,
    pub role: String,
    pub content: String,
    pub edited: bool,
    pub timestamp: Timestamp,
    pub edit_timestamp: Option<Timestamp>,
}

/// A message as plain values.
pub struct MessageView {
    pub message_id: Seq<char>,
    pub parent_id: Seq<char>,
    pub reply_id: Option<Seq<char>>,
    pub role: Seq<char>,
    pub content: Seq<char>,
    pub edited: bool,
    pub timestamp: Timestamp,
    pub edit_timestamp: Option<Timestamp>,
}

/// The characters of an optional string.
pub open spec fn text_of(s: Option<String>) -> Option<Seq<char>> {
    match s {
        Some(s) => Some(s@),
        None => None,
    }
}

impl View for ChatMessage {
    type V = MessageView;

    open spec fn view(&self) -> MessageView {
        MessageView {
            message_id: self.message_id@,
            parent_id: self.parent_id@,
            reply_id: text_of(self.reply_id),
            role: self.role@,
            content: self.content@,
            edited: self.edited,
            timestamp: self.timestamp,
            edit_timestamp: self.edit_timestamp,
        }
    }
}

impl Clone for ChatMessage {
    fn clone(&self) -> (copy: Self)
        ensures
            copy == *self,
    {
        ChatMessage {
            message_id: self.message_id.clone(),
            parent_id: self.parent_id.clone(),
            reply_id: self.reply_id.clone(),
            role: self.role.clone(),
            content: self.content.clone(),
            edited: self.edited,
            timestamp: self.timestamp,
            edit_timestamp: self.edit_timestamp,
        }
    }
}

/// A conversation: its title, when it was opened, and its messages in the
/// order in which they were appended.
#[derive(Debug)]
pub struct ChatSession {
    pub title: String,
    pub created_at: Timestamp,
    pub messages: Vec<ChatMessage>,
}

/// A conversation as plain values.
pub struct ChatView {
    pub title: Seq<char>,
    pub created_at: Timestamp,
    pub messages: Seq<MessageView>,
}

/// The views of a list of messages.
pub open spec fn messages_view(messages: Seq<ChatMessage>) -> Seq<MessageView> {
    messages.map_values(|m: ChatMessage| m@)
}

impl View for ChatSession {
    type V = ChatView;

    open spec fn view(&self) -> ChatView {
        ChatView {
            title: self.title@,
            created_at: self.created_at,
            messages: messages_view(self.messages@),
        }
    }
}

/// The conversations of one user under their ids, in document order.
pub type ChatList = Seq<(Seq<char>, ChatView)>;

/// The users of a document under their ids, in document order.
pub type UserList = Seq<(Seq<char>, ChatList)>;

/// The views of a list of conversations.
pub open spec fn chats_view(chats: Seq<(String, ChatSession)>) -> ChatList {
    chats.map_values(|e: (String, ChatSession)| (e.0@, e.1@))
}

/// The conversations of one user. A conversation id names the first entry
/// that carries it.
#[derive(Debug)]
pub struct UserConversations {
    pub conversations: Vec<(String, ChatSession)>,
}

impl View for UserConversations {
    type V = ChatList;

    open spec fn view(&self) -> ChatList {
        chats_view(self.conversations@)
    }
}

/// The views of a list of users.
pub open spec fn users_view(users: Seq<(String, UserConversations)>) -> UserList {
    users.map_values(|e: (String, UserConversations)| (e.0@, e.1@))
}

/// The whole document. A user id names the first entry that carries it.
#[derive(Debug)]
pub struct MessageData {
    pub users: Vec<(String, UserConversations)>,
}

impl View for MessageData {
    type V = UserList;

    open spec fn view(&self) -> UserList {
        users_view(self.users@)
    }
}

/// The id, title and opening time of a conversation.
#[derive(Debug)]
pub struct ConversationMetadata {
    pub id: String,
    pub title: String,
    pub created_at: Timestamp,
}

/// Conversation metadata as plain values.
pub struct MetadataView {
    pub id: Seq<char>,
    pub title: Seq<char>,
    pub created_at: Timestamp,
}

impl View for ConversationMetadata {
    type V = MetadataView;

    open spec fn view(&self) -> MetadataView {
        MetadataView { id: self.id@, title: self.title@, created_at: self.created_at }
    }
}

/// The keys of a list of keyed values.
pub open spec fn ids<V>(entries: Seq<(Seq<char>, V)>) -> Seq<Seq<char>> {
    entries.map_values(|e: (Seq<char>, V)| e.0)
}

/// The value under `key`: that of the first entry with that key.
pub open spec fn get<V>(entries: Seq<(Seq<char>, V)>, key: Seq<char>) -> Option<V> {
    match first_match(ids(entries), key) {
        Some(i) => Some(entries[i].1),
        None => None,
    }
}

/// `entries` with `value` under `key`: in the place of the first entry with
/// that key, or at the end where there is none.
pub open spec fn put<V>(entries: Seq<(Seq<char>, V)>, key: Seq<char>, value: V) -> Seq<
    (Seq<char>, V),
> {
    match first_match(ids(entries), key) {
        Some(i) => entries.update(i, (key, value)),
        None => entries.push((key, value)),
    }
}

/// `entries` without the first entry under `key`.
pub open spec fn cut<V>(entries: Seq<(Seq<char>, V)>, key: Seq<char>) -> Seq<(Seq<char>, V)> {
    match first_match(ids(entries), key) {
        Some(i) => entries.remove(i),
        None => entries,
    }
}

/// The ids of a list of messages.
pub open spec fn message_ids(messages: Seq<MessageView>) -> Seq<Seq<char>> {
    messages.map_values(|m: MessageView| m.message_id)
}

/// The ids of the users are distinct, and so are the ids of the
/// conversations of each user.
pub open spec fn well_keyed(doc: UserList) -> bool {
    &&& distinct(ids(doc))
    &&& forall|u: int| 0 <= u < doc.len() ==> distinct(ids(#[trigger] doc[u].1))
}

impl UserConversations {
    /// No conversation id occurs twice.
    pub open spec fn wf(&self) -> bool {
        distinct(ids(self@))
    }

    /// Looks a conversation up by its id.
    pub fn position(&self, chat_id: &str) -> (found: Option<usize>)
        ensures
            match found {
                Some(i) => first_match(ids(self@), chat_id@) == Some(i as int) && i
                    < self.conversations.len(),
                None => first_match(ids(self@), chat_id@) is None,
            },
    {
        assert(ids(self@) =~= keys_of(self.conversations@));
        find_key(&self.conversations, chat_id)
    }
}

impl MessageData {
    /// A document without users.
    pub fn new() -> (db: MessageData)
        ensures
            db@ == Seq::<(Seq<char>, ChatList)>::empty(),
            db.wf(),
    {
        let db = MessageData { users: Vec::new() };
        assert(db@ =~= Seq::<(Seq<char>, ChatList)>::empty());
        db
    }

    /// No user id occurs twice, and no conversation id among the
    /// conversations of one user. Every operation of the store keeps a
    /// document so.
    pub open spec fn wf(&self) -> bool {
        well_keyed(self@)
    }

    /// Looks a user up by their id.
    pub fn position(&self, user_id: &str) -> (found: Option<usize>)
        ensures
            match found {
                Some(i) => first_match(ids(self@), user_id@) == Some(i as int) && i
                    < self.users.len(),
                None => first_match(ids(self@), user_id@) is None,
            },
    {
        assert(ids(self@) =~= keys_of(self.users@));
        find_key(&self.users, user_id)
    }
}

} // verus!
