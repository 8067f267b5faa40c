//! The conversation document as a JSON file.
//!
//! The file holds one object: under `users`, for each user id, the user's
//! `conversations`; under each conversation id, the conversation with its
//! `title`, its opening time `created_at` as an RFC 3339 string, and its
//! `messages`. A message that was never edited has no `edit_timestamp`.
use vstd::prelude::*;
use crate::json::{
    items_view, json_pretty_text, json_reading, members_view, parse_json, Json, JsonError,
    JsonTree, Members,
};
use crate::model::{
    chats_view, messages_view, users_view, ChatList, ChatMessage, ChatSession, ChatView,
    MessageData, MessageView, UserConversations, UserList,
};
use crate::time::{rfc3339_instant, Timestamp};
use crate::wire::{message_json, message_tree, messages_json, messages_tree, time_json, time_tree};

verus! {

/// A conversation as JSON.
pub open spec fn chat_tree(chat: ChatView) -> JsonTree {
    JsonTree::Object(
        seq![
            ("title"@, JsonTree::Text(chat.title)),
            ("created_at"@, time_tree(chat.created_at, true)),
            ("messages"@, messages_tree(chat.messages)),
        ],
    )
}

/// The conversations of a user as JSON.
pub open spec fn user_tree(chats: ChatList) -> JsonTree {
    JsonTree::Object(
        seq![
            (
                "conversations"@,
                JsonTree::Object(chats.map_values(|e: (Seq<char>, ChatView)| (e.0, chat_tree(e.1)))),
            ),
        ],
    )
}

/// A document as JSON.
pub open spec fn document_tree(doc: UserList) -> JsonTree {
    JsonTree::Object(
        seq![
            (
                "users"@,
                JsonTree::Object(doc.map_values(|e: (Seq<char>, ChatList)| (e.0, user_tree(e.1)))),
            ),
        ],
    )
}

/// The instant in the member `name`, an RFC 3339 string.
pub open spec fn instant_at(value: JsonTree, name: Seq<char>) -> Option<Timestamp> {
    match value.text_at(name) {
        Some(text) => rfc3339_instant(text),
        None => None,
    }
}

/// The instant in a member that may be missing or `null`: the instant, if
/// any; nothing where the member is something else than an RFC 3339
/// string.
pub open spec fn optional_instant_at(value: JsonTree, name: Seq<char>) -> Option<Option<Timestamp>> {
    match value.optional_text_at(name) {
        Some(Some(text)) => match rfc3339_instant(text) {
            Some(t) => Some(Some(t)),
            None => None,
        },
        Some(None) => Some(None),
        None => None,
    }
}

/// The message that a JSON value is, if it is one.
pub open spec fn message_in(value: JsonTree) -> Option<MessageView> {
    match (
        value.text_at("message_id"@),
        value.text_at("parent_id"@),
        value.optional_text_at("reply_id"@),
        value.text_at("role"@),
        value.text_at("content"@),
        value.flag_at("edited"@),
        instant_at(value, "timestamp"@),
        optional_instant_at(value, "edit_timestamp"@),
    ) {
        (
            Some(message_id),
            Some(parent_id),
            Some(reply_id),
            Some(role),
            Some(content),
            Some(edited),
            Some(timestamp),
            Some(edit_timestamp),
        ) => Some(
            MessageView {
                message_id,
                parent_id,
                reply_id,
                role,
                content,
                edited,
                timestamp,
                edit_timestamp,
            },
        ),
        _ => None,
    }
}

/// The messages that a list of JSON values is, if each is one.
pub open spec fn messages_in(items: Seq<JsonTree>) -> Option<Seq<MessageView>> {
    if forall|i: int| 0 <= i < items.len() ==> message_in(#[trigger] items[i]) is Some {
        Some(items.map_values(|j: JsonTree| message_in(j).unwrap()))
    } else {
        None
    }
}

/// The conversation that a JSON value is, if it is one.
pub open spec fn chat_in(value: JsonTree) -> Option<ChatView> {
    match (
        value.text_at("title"@),
        instant_at(value, "created_at"@),
        match value.member("messages"@) {
            Some(JsonTree::Array(items)) => messages_in(items),
            _ => None,
        },
    ) {
        (Some(title), Some(created_at), Some(messages)) => Some(
            ChatView { title, created_at, messages },
        ),
        _ => None,
    }
}

/// The conversations that a list of members is, if each is one.
pub open spec fn chats_in(members: Seq<(Seq<char>, JsonTree)>) -> Option<ChatList> {
    if forall|i: int| 0 <= i < members.len() ==> chat_in((#[trigger] members[i]).1) is Some {
        Some(members.map_values(|m: (Seq<char>, JsonTree)| (m.0, chat_in(m.1).unwrap())))
    } else {
        None
    }
}

/// The conversations of the user that a JSON value is, if it is one.
pub open spec fn user_in(value: JsonTree) -> Option<ChatList> {
    match value.member("conversations"@) {
        Some(JsonTree::Object(members)) => chats_in(members),
        _ => None,
    }
}

/// The users that a list of members is, if each is one.
pub open spec fn users_in(members: Seq<(Seq<char>, JsonTree)>) -> Option<UserList> {
    if forall|i: int| 0 <= i < members.len() ==> user_in((#[trigger] members[i]).1) is Some {
        Some(members.map_values(|m: (Seq<char>, JsonTree)| (m.0, user_in(m.1).unwrap())))
    } else {
        None
    }
}

/// The document that a JSON value is, if it is one.
pub open spec fn document_in(value: JsonTree) -> Option<UserList> {
    match value.member("users"@) {
        Some(JsonTree::Object(members)) => users_in(members),
        _ => None,
    }
}

/// The document that the parsed text of the document file stands for: the
/// document that the value is, and the document without users for a value
/// that is none. A text that is no JSON stands for no document: the error
/// of parsing it stays.
pub open spec fn read_document(parsed: Result<JsonTree, JsonError>) -> Result<UserList, JsonError> {
    match parsed {
        Ok(value) => Ok(
            match document_in(value) {
                Some(doc) => doc,
                None => Seq::empty(),
            },
        ),
        Err(e) => Err(e),
    }
}

/// The view of a document that was read, or of the error of reading it.
pub open spec fn load_view(loaded: Result<MessageData, JsonError>) -> Result<UserList, JsonError> {
    match loaded {
        Ok(db) => Ok(db@),
        Err(e) => Err(e),
    }
}

fn instant_of(value: &Json, name: &str) -> (t: Option<Timestamp>)
    ensures
        t == instant_at(value@, name@),
{
    match value.str_at(name) {
        Some(text) => Timestamp::parse(text),
        None => None,
    }
}

fn optional_instant_of(value: &Json, name: &str) -> (t: Option<Option<Timestamp>>)
    ensures
        t == optional_instant_at(value@, name@),
{
    match value.optional_str_at(name) {
        Some(Some(text)) => match Timestamp::parse(text) {
            Some(t) => Some(Some(t)),
            None => None,
        },
        Some(None) => Some(None),
        None => None,
    }
}

/// The view of an optional message.
pub open spec fn message_view(m: Option<ChatMessage>) -> Option<MessageView> {
    match m {
        Some(m) => Some(m@),
        None => None,
    }
}

impl ChatMessage {
    /// The message as JSON.
    pub fn to_json(&self) -> (value: Json)
        ensures
            value@ == message_tree(self@),
    {
        message_json(self)
    }

    /// Reads a message from JSON.
    pub fn from_json(value: &Json) -> (m: Option<ChatMessage>)
        ensures
            message_view(m) == message_in(value@),
    {
        let message_id = value.str_at("message_id");
        let parent_id = value.str_at("parent_id");
        let reply_id = value.optional_str_at("reply_id");
        let role = value.str_at("role");
        let content = value.str_at("content");
        let edited = value.bool_at("edited");
        let timestamp = instant_of(value, "timestamp");
        let edit_timestamp = optional_instant_of(value, "edit_timestamp");
        match (message_id, parent_id, reply_id, role, content, edited, timestamp, edit_timestamp) {
            (
                Some(message_id),
                Some(parent_id),
                Some(reply_id),
                Some(role),
                Some(content),
                Some(edited),
                Some(timestamp),
                Some(edit_timestamp),
            ) => Some(
                ChatMessage {
                    message_id: message_id.to_owned(),
                    parent_id: parent_id.to_owned(),
                    reply_id: match reply_id {
                        Some(id) => Some(id.to_owned()),
                        None => None,
                    },
                    role: role.to_owned(),
                    content: content.to_owned(),
                    edited,
                    timestamp,
                    edit_timestamp,
                },
            ),
            _ => None,
        }
    }
}

fn read_messages(items: &Vec<Json>) -> (out: Option<Vec<ChatMessage>>)
    ensures
        match out {
            Some(list) => messages_in(items_view(items@)) == Some(messages_view(list@)),
            None => messages_in(items_view(items@)) is None,
        },
{
    let ghost trees = items_view(items@);
    let mut list: Vec<ChatMessage> = Vec::new();
    let mut i: usize = 0;
    while i < items.len()
        invariant
            0 <= i <= items.len(),
            trees == items_view(items@),
            list@.len() == i,
            forall|k: int|
                0 <= k < i ==> message_in(#[trigger] trees[k]) is Some && message_in(trees[k]).unwrap()
                    == list@[k]@,
        decreases items.len() - i,
    {
        match ChatMessage::from_json(&items[i]) {
            Some(m) => {
                list.push(m);
            },
            None => {
                assert(message_in(trees[i as int]) is None);
                return None;
            },
        }
        i += 1;
    }
    assert(messages_view(list@) =~= trees.map_values(|j: JsonTree| message_in(j).unwrap()));
    Some(list)
}

/// The view of an optional conversation.
pub open spec fn chat_view(c: Option<ChatSession>) -> Option<ChatView> {
    match c {
        Some(c) => Some(c@),
        None => None,
    }
}

impl ChatSession {
    /// The conversation as JSON.
    pub fn to_json(&self) -> (value: Json)
        ensures
            value@ == chat_tree(self@),
    {
        let mut members = Members::new();
        members.put_text("title", self.title.as_str());
        members.put("created_at", time_json(self.created_at, true));
        members.put("messages", messages_json(&self.messages));
        let value = members.finish();
        assert(value@->Object_0 =~= chat_tree(self@)->Object_0);
        value
    }

    /// Reads a conversation from JSON.
    pub fn from_json(value: &Json) -> (c: Option<ChatSession>)
        ensures
            chat_view(c) == chat_in(value@),
    {
        let title = value.str_at("title");
        let created_at = instant_of(value, "created_at");
        let messages = match value.get("messages") {
            Some(list) => match list.as_array() {
                Some(items) => {
                    assert(list@->Array_0 =~= items_view(items@));
                    read_messages(items)
                },
                None => None,
            },
            None => None,
        };
        match (title, created_at, messages) {
            (Some(title), Some(created_at), Some(messages)) => Some(
                ChatSession { title: title.to_owned(), created_at, messages },
            ),
            _ => None,
        }
    }
}

fn read_chats(members: &Vec<(String, Json)>) -> (out: Option<Vec<(String, ChatSession)>>)
    ensures
        match out {
            Some(list) => chats_in(members_view(members@)) == Some(chats_view(list@)),
            None => chats_in(members_view(members@)) is None,
        },
{
    let ghost trees = members_view(members@);
    let mut list: Vec<(String, ChatSession)> = Vec::new();
    let mut i: usize = 0;
    while i < members.len()
        invariant
            0 <= i <= members.len(),
            trees == members_view(members@),
            list@.len() == i,
            forall|k: int|
                0 <= k < i ==> chat_in((#[trigger] trees[k]).1) is Some && (
                trees[k].0,
                chat_in(trees[k].1).unwrap(),
            ) == (list@[k].0@, list@[k].1@),
        decreases members.len() - i,
    {
        match ChatSession::from_json(&members[i].1) {
            Some(chat) => {
                list.push((members[i].0.clone(), chat));
            },
            None => {
                assert(chat_in(trees[i as int].1) is None);
                return None;
            },
        }
        i += 1;
    }
    assert(chats_view(list@) =~= trees.map_values(
        |m: (Seq<char>, JsonTree)| (m.0, chat_in(m.1).unwrap()),
    ));
    Some(list)
}

/// The view of optional conversations of a user.
pub open spec fn user_view(u: Option<UserConversations>) -> Option<ChatList> {
    match u {
        Some(u) => Some(u@),
        None => None,
    }
}

impl UserConversations {
    /// The conversations as JSON.
    pub fn to_json(&self) -> (value: Json)
        ensures
            value@ == user_tree(self@),
    {
        let ghost trees = self@.map_values(|e: (Seq<char>, ChatView)| (e.0, chat_tree(e.1)));
        let mut chats = Members::new();
        let mut i: usize = 0;
        while i < self.conversations.len()
            invariant
                0 <= i <= self.conversations.len(),
                trees == self@.map_values(|e: (Seq<char>, ChatView)| (e.0, chat_tree(e.1))),
                chats@ == trees.take(i as int),
            decreases self.conversations.len() - i,
        {
            chats.put(self.conversations[i].0.as_str(), self.conversations[i].1.to_json());
            assert(chats@ =~= trees.take(i as int + 1));
            i += 1;
        }
        assert(trees.take(i as int) =~= trees);
        let mut members = Members::new();
        members.put("conversations", chats.finish());
        let value = members.finish();
        assert(value@->Object_0 =~= user_tree(self@)->Object_0);
        value
    }

    /// Reads the conversations of a user from JSON.
    pub fn from_json(value: &Json) -> (u: Option<UserConversations>)
        ensures
            user_view(u) == user_in(value@),
    {
        match value.get("conversations") {
            Some(chats) => match chats.as_object() {
                Some(members) => {
                    assert(chats@->Object_0 =~= members_view(members@));
                    match read_chats(members) {
                        Some(conversations) => Some(UserConversations { conversations }),
                        None => None,
                    }
                },
                None => None,
            },
            None => None,
        }
    }
}

fn read_users(members: &Vec<(String, Json)>) -> (out: Option<Vec<(String, UserConversations)>>)
    ensures
        match out {
            Some(list) => users_in(members_view(members@)) == Some(users_view(list@)),
            None => users_in(members_view(members@)) is None,
        },
{
    let ghost trees = members_view(members@);
    let mut list: Vec<(String, UserConversations)> = Vec::new();
    let mut i: usize = 0;
    while i < members.len()
        invariant
            0 <= i <= members.len(),
            trees == members_view(members@),
            list@.len() == i,
            forall|k: int|
                0 <= k < i ==> user_in((#[trigger] trees[k]).1) is Some && (
                trees[k].0,
                user_in(trees[k].1).unwrap(),
            ) == (list@[k].0@, list@[k].1@),
        decreases members.len() - i,
    {
        match UserConversations::from_json(&members[i].1) {
            Some(user) => {
                list.push((members[i].0.clone(), user));
            },
            None => {
                assert(user_in(trees[i as int].1) is None);
                return None;
            },
        }
        i += 1;
    }
    assert(users_view(list@) =~= trees.map_values(
        |m: (Seq<char>, JsonTree)| (m.0, user_in(m.1).unwrap()),
    ));
    Some(list)
}

/// The view of an optional document.
pub open spec fn document_view(d: Option<MessageData>) -> Option<UserList> {
    match d {
        Some(d) => Some(d@),
        None => None,
    }
}

impl MessageData {
    /// The document as JSON.
    pub fn to_json(&self) -> (value: Json)
        ensures
            value@ == document_tree(self@),
    {
        let ghost trees = self@.map_values(|e: (Seq<char>, ChatList)| (e.0, user_tree(e.1)));
        let mut users = Members::new();
        let mut i: usize = 0;
        while i < self.users.len()
            invariant
                0 <= i <= self.users.len(),
                trees == self@.map_values(|e: (Seq<char>, ChatList)| (e.0, user_tree(e.1))),
                users@ == trees.take(i as int),
            decreases self.users.len() - i,
        {
            users.put(self.users[i].0.as_str(), self.users[i].1.to_json());
            assert(users@ =~= trees.take(i as int + 1));
            i += 1;
        }
        assert(trees.take(i as int) =~= trees);
        let mut members = Members::new();
        members.put("users", users.finish());
        let value = members.finish();
        assert(value@->Object_0 =~= document_tree(self@)->Object_0);
        value
    }

    /// Reads a document from JSON.
    pub fn from_json(value: &Json) -> (d: Option<MessageData>)
        ensures
            document_view(d) == document_in(value@),
    {
        match value.get("users") {
            Some(users) => match users.as_object() {
                Some(members) => {
                    assert(users@->Object_0 =~= members_view(members@));
                    match read_users(members) {
                        Some(users) => Some(MessageData { users }),
                        None => None,
                    }
                },
                None => None,
            },
            None => None,
        }
    }

    /// The document that a parsed document file stands for.
    pub fn from_parsed(parsed: &Result<Json, JsonError>) -> (loaded: Result<MessageData, JsonError>)
        ensures
            load_view(loaded) == read_document(
                match parsed {
                    Ok(value) => Ok(value@),
                    Err(e) => Err(*e),
                },
            ),
    {
        match parsed {
            Ok(value) => match MessageData::from_json(value) {
                Some(db) => Ok(db),
                None => Ok(MessageData::new()),
            },
            Err(e) => Err(*e),
        }
    }

    /// The document that the text of the document file stands for. A text
    /// that is JSON and no document stands for the document without users;
    /// a text that is no JSON stands for none, and the error says whether
    /// the text is cut off or wrong.
    pub fn load(text: &str) -> (loaded: Result<MessageData, JsonError>)
        ensures
            load_view(loaded) == read_document(json_reading(text@)),
    {
        let parsed = parse_json(text);
        MessageData::from_parsed(&parsed)
    }

    /// The text of the document file for this document.
    pub fn save(&self) -> (text: String)
        ensures
            text@ == json_pretty_text(document_tree(self@)),
    {
        self.to_json().write_pretty()
    }
}

} // verus!
