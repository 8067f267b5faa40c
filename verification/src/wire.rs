//! How envelopes and messages are written as JSON.
use vstd::prelude::*;
use crate::json::{items_view, json_text, Json, JsonTree, Members, NumberView};
use crate::model::{
    messages_view, text_of, ChatMessage, ConversationMetadata, MessageView, MetadataView,
};
use crate::responses::{
    CommunicationResponse, ConversationSummary, ConversationSummaryView, ResponseView,
};
use crate::time::{rfc3339_text, Timestamp};

verus! {

/// An instant as JSON: its RFC 3339 string; `null` for an instant that has
/// none.
pub open spec fn time_tree(t: Timestamp, zulu: bool) -> JsonTree {
    match rfc3339_text(t, zulu) {
        Some(text) => JsonTree::Text(text),
        None => JsonTree::Null,
    }
}

/// An optional string as JSON: the string, or `null`.
pub open spec fn optional_tree(text: Option<Seq<char>>) -> JsonTree {
    match text {
        Some(t) => JsonTree::Text(t),
        None => JsonTree::Null,
    }
}

/// A message as JSON. The member `edit_timestamp` is there only for a
/// message that was edited.
pub open spec fn message_tree(m: MessageView) -> JsonTree {
    let members = seq![
        ("message_id"@, JsonTree::Text(m.message_id)),
        ("parent_id"@, JsonTree::Text(m.parent_id)),
        ("reply_id"@, optional_tree(m.reply_id)),
        ("role"@, JsonTree::Text(m.role)),
        ("content"@, JsonTree::Text(m.content)),
        ("edited"@, JsonTree::Bool(m.edited)),
        ("timestamp"@, time_tree(m.timestamp, true)),
    ];
    JsonTree::Object(
        match m.edit_timestamp {
            Some(t) => members.push(("edit_timestamp"@, time_tree(t, true))),
            None => members,
        },
    )
}

/// A list of messages as JSON.
pub open spec fn messages_tree(messages: Seq<MessageView>) -> JsonTree {
    JsonTree::Array(messages.map_values(|m: MessageView| message_tree(m)))
}

/// A sidebar entry as JSON.
pub open spec fn summary_tree(s: ConversationSummaryView) -> JsonTree {
    JsonTree::Object(
        seq![
            ("conversation_id"@, JsonTree::Text(s.conversation_id)),
            ("title"@, JsonTree::Text(s.title)),
            ("created_at"@, time_tree(s.created_at, true)),
        ],
    )
}

/// The title of a conversation as JSON.
pub open spec fn metadata_tree(m: MetadataView) -> JsonTree {
    JsonTree::Object(
        seq![
            ("id"@, JsonTree::Text(m.id)),
            ("title"@, JsonTree::Text(m.title)),
            ("created_at"@, time_tree(m.created_at, false)),
        ],
    )
}

/// The object of an envelope: its `type`, its `status`, and what else it
/// holds.
pub open spec fn envelope(kind: Seq<char>, status: Seq<char>, rest: Seq<(Seq<char>, JsonTree)>)
    -> JsonTree {
    JsonTree::Object(seq![("type"@, JsonTree::Text(kind)), ("status"@, JsonTree::Text(status))] + rest)
}

/// An envelope as JSON.
pub open spec fn wire(r: ResponseView) -> JsonTree {
    match r {
        ResponseView::StreamChunk { chunk } => JsonTree::Object(
            seq![("type"@, JsonTree::Text("stream_chunk"@)), ("chunk"@, JsonTree::Text(chunk))],
        ),
        ResponseView::StreamEnd { status } => envelope("stream_end"@, status, Seq::empty()),
        ResponseView::SessionCreated { status, session_id, user_id } => envelope(
            "session_created"@,
            status,
            seq![
                ("session_id"@, JsonTree::Text(session_id)),
                ("user_id"@, JsonTree::Number(NumberView::Unsigned(user_id))),
            ],
        ),
        ResponseView::Disconnected { status } => envelope("disconnected"@, status, Seq::empty()),
        ResponseView::Error { status, error } => envelope(
            "error"@,
            status,
            seq![("error"@, JsonTree::Text(error))],
        ),
        ResponseView::AIResponse { status, response } => envelope(
            "ai_response"@,
            status,
            seq![("response"@, JsonTree::Text(response))],
        ),
        ResponseView::SidebarHistory { status, conversations } => envelope(
            "sidebar_history"@,
            status,
            seq![
                (
                    "conversations"@,
                    JsonTree::Array(
                        conversations.map_values(|s: ConversationSummaryView| summary_tree(s)),
                    ),
                ),
            ],
        ),
        ResponseView::ConversationHistory { status, conversation_id, messages } => envelope(
            "conversation_history"@,
            status,
            seq![
                ("conversation_id"@, JsonTree::Text(conversation_id)),
                ("messages"@, messages_tree(messages)),
            ],
        ),
        ResponseView::MessageCreated { status, message_id, message } => envelope(
            "message_created"@,
            status,
            seq![("message_id"@, JsonTree::Text(message_id)), ("message"@, message_tree(message))],
        ),
        ResponseView::Refused { status, error, code, reason } => envelope(
            "error"@,
            status,
            seq![
                ("error"@, JsonTree::Text(error)),
                ("code"@, JsonTree::Number(NumberView::Unsigned(code as u64))),
                ("reason"@, JsonTree::Text(reason)),
            ],
        ),
        ResponseView::SidebarTitles { status, conversations } => envelope(
            "sidebar_history"@,
            status,
            seq![
                (
                    "conversations"@,
                    JsonTree::Array(conversations.map_values(|m: MetadataView| metadata_tree(m))),
                ),
            ],
        ),
        ResponseView::MessageEdited { status, content_id, content } => envelope(
            "message_edited"@,
            status,
            seq![("content_id"@, JsonTree::Text(content_id)), ("content"@, JsonTree::Text(content))],
        ),
        ResponseView::ContentTitleEdited {
            status,
            message_id,
            content,
            conversation_title,
        } => envelope(
            "content_title_edited"@,
            status,
            seq![
                ("message_id"@, JsonTree::Text(message_id)),
                ("content"@, JsonTree::Text(content)),
                ("conversation_title"@, JsonTree::Text(conversation_title)),
            ],
        ),
        ResponseView::Deleted { status, deleted_type, target_id, title, message } => envelope(
            "deleted"@,
            status,
            seq![
                ("deleted_type"@, JsonTree::Text(deleted_type)),
                ("target_id"@, JsonTree::Text(target_id)),
                ("title"@, optional_tree(title)),
                ("message"@, JsonTree::Text(message)),
            ],
        ),
        ResponseView::AllMessages { status, messages, total_count } => envelope(
            "all_messages"@,
            status,
            seq![
                ("messages"@, messages_tree(messages)),
                ("total_count"@, JsonTree::Number(NumberView::Unsigned(total_count as u64))),
            ],
        ),
        ResponseView::Failed { topic, status, error } => envelope(
            topic.tag(),
            status,
            seq![("error"@, JsonTree::Text(error))],
        ),
    }
}

/// Writes an instant as JSON.
pub fn time_json(t: Timestamp, zulu: bool) -> (value: Json)
    ensures
        value@ == time_tree(t, zulu),
{
    match t.write(zulu) {
        Some(text) => Json::Text(text),
        None => Json::Null,
    }
}

/// Writes an optional string as JSON.
pub fn optional_json(text: &Option<String>) -> (value: Json)
    ensures
        value@ == optional_tree(text_of(*text)),
{
    match text {
        Some(t) => Json::Text(t.clone()),
        None => Json::Null,
    }
}

/// Writes a message as JSON.
pub fn message_json(m: &ChatMessage) -> (value: Json)
    ensures
        value@ == message_tree(m@),
{
    let mut members = Members::new();
    members.put_text("message_id", m.message_id.as_str());
    members.put_text("parent_id", m.parent_id.as_str());
    members.put("reply_id", optional_json(&m.reply_id));
    members.put_text("role", m.role.as_str());
    members.put_text("content", m.content.as_str());
    members.put("edited", Json::Bool(m.edited));
    members.put("timestamp", time_json(m.timestamp, true));
    match m.edit_timestamp {
        Some(t) => {
            members.put("edit_timestamp", time_json(t, true));
        },
        None => {},
    }
    let value = members.finish();
    assert(value@->Object_0 =~= message_tree(m@)->Object_0);
    value
}

/// Writes a list of messages as JSON.
pub fn messages_json(messages: &Vec<ChatMessage>) -> (value: Json)
    ensures
        value@ == messages_tree(messages_view(messages@)),
{
    let ghost trees = messages_view(messages@).map_values(|m: MessageView| message_tree(m));
    let mut items: Vec<Json> = Vec::new();
    let mut i: usize = 0;
    while i < messages.len()
        invariant
            0 <= i <= messages.len(),
            trees == messages_view(messages@).map_values(|m: MessageView| message_tree(m)),
            items_view(items@) == trees.take(i as int),
        decreases messages.len() - i,
    {
        let ghost before = items_view(items@);
        let item = message_json(&messages[i]);
        items.push(item);
        assert(items_view(items@) =~= before.push(item@));
        assert(trees.take(i as int + 1) =~= trees.take(i as int).push(item@));
        i += 1;
    }
    assert(trees.take(i as int) =~= trees);
    Json::list(items)
}

fn summaries_json(list: &Vec<ConversationSummary>) -> (value: Json)
    ensures
        value@ == JsonTree::Array(
            list@.map_values(|c: ConversationSummary| c@).map_values(
                |s: ConversationSummaryView| summary_tree(s),
            ),
        ),
{
    let ghost trees = list@.map_values(|c: ConversationSummary| c@).map_values(
        |s: ConversationSummaryView| summary_tree(s),
    );
    let mut items: Vec<Json> = Vec::new();
    let mut i: usize = 0;
    while i < list.len()
        invariant
            0 <= i <= list.len(),
            trees == list@.map_values(|c: ConversationSummary| c@).map_values(
                |s: ConversationSummaryView| summary_tree(s),
            ),
            items_view(items@) == trees.take(i as int),
        decreases list.len() - i,
    {
        let ghost before = items_view(items@);
        let mut members = Members::new();
        members.put_text("conversation_id", list[i].conversation_id.as_str());
        members.put_text("title", list[i].title.as_str());
        members.put("created_at", time_json(list[i].created_at, true));
        let item = members.finish();
        assert(item@->Object_0 =~= summary_tree(list@[i as int]@)->Object_0);
        items.push(item);
        assert(items_view(items@) =~= before.push(item@));
        assert(trees.take(i as int + 1) =~= trees.take(i as int).push(item@));
        i += 1;
    }
    assert(trees.take(i as int) =~= trees);
    Json::list(items)
}

fn titles_json(list: &Vec<ConversationMetadata>) -> (value: Json)
    ensures
        value@ == JsonTree::Array(
            list@.map_values(|c: ConversationMetadata| c@).map_values(
                |m: MetadataView| metadata_tree(m),
            ),
        ),
{
    let ghost trees = list@.map_values(|c: ConversationMetadata| c@).map_values(
        |m: MetadataView| metadata_tree(m),
    );
    let mut items: Vec<Json> = Vec::new();
    let mut i: usize = 0;
    while i < list.len()
        invariant
            0 <= i <= list.len(),
            trees == list@.map_values(|c: ConversationMetadata| c@).map_values(
                |m: MetadataView| metadata_tree(m),
            ),
            items_view(items@) == trees.take(i as int),
        decreases list.len() - i,
    {
        let ghost before = items_view(items@);
        let mut members = Members::new();
        members.put_text("id", list[i].id.as_str());
        members.put_text("title", list[i].title.as_str());
        members.put("created_at", time_json(list[i].created_at, false));
        let item = members.finish();
        assert(item@->Object_0 =~= metadata_tree(list@[i as int]@)->Object_0);
        items.push(item);
        assert(items_view(items@) =~= before.push(item@));
        assert(trees.take(i as int + 1) =~= trees.take(i as int).push(item@));
        i += 1;
    }
    assert(trees.take(i as int) =~= trees);
    Json::list(items)
}

fn open_envelope(kind: &str, status: &str) -> (members: Members)
    ensures
        members@ == seq![("type"@, JsonTree::Text(kind@)), ("status"@, JsonTree::Text(status@))],
{
    let mut members = Members::new();
    members.put_text("type", kind);
    members.put_text("status", status);
    assert(members@ =~= seq![("type"@, JsonTree::Text(kind@)), ("status"@, JsonTree::Text(status@))]);
    members
}

impl CommunicationResponse {
    /// The envelope as JSON.
    pub fn to_json(&self) -> (value: Json)
        ensures
            value@ == wire(self@),
    {
        match self {
            CommunicationResponse::StreamChunk { chunk } => {
                let mut members = Members::new();
                members.put_text("type", "stream_chunk");
                members.put_text("chunk", chunk.as_str());
                let value = members.finish();
                assert(value@->Object_0 =~= wire(self@)->Object_0);
                value
            },
            CommunicationResponse::StreamEnd { status } => {
                let members = open_envelope("stream_end", status.as_str());
                let value = members.finish();
                assert(value@->Object_0 =~= wire(self@)->Object_0);
                value
            },
            CommunicationResponse::SessionCreated { status, session_id, user_id } => {
                let mut members = open_envelope("session_created", status.as_str());
                members.put_text("session_id", session_id.as_str());
                members.put("user_id", Json::unsigned(*user_id));
                let value = members.finish();
                assert(value@->Object_0 =~= wire(self@)->Object_0);
                value
            },
            CommunicationResponse::Disconnected { status } => {
                let members = open_envelope("disconnected", status.as_str());
                let value = members.finish();
                assert(value@->Object_0 =~= wire(self@)->Object_0);
                value
            },
            CommunicationResponse::Error { status, error } => {
                let mut members = open_envelope("error", status.as_str());
                members.put_text("error", error.as_str());
                let value = members.finish();
                assert(value@->Object_0 =~= wire(self@)->Object_0);
                value
            },
            CommunicationResponse::AIResponse { status, response } => {
                let mut members = open_envelope("ai_response", status.as_str());
                members.put_text("response", response.as_str());
                let value = members.finish();
                assert(value@->Object_0 =~= wire(self@)->Object_0);
                value
            },
            CommunicationResponse::SidebarHistory { status, conversations } => {
                let mut members = open_envelope("sidebar_history", status.as_str());
                members.put("conversations", summaries_json(conversations));
                let value = members.finish();
                assert(value@->Object_0 =~= wire(self@)->Object_0);
                value
            },
            CommunicationResponse::ConversationHistory { status, conversation_id, messages } => {
                let mut members = open_envelope("conversation_history", status.as_str());
                members.put_text("conversation_id", conversation_id.as_str());
                members.put("messages", messages_json(messages));
                let value = members.finish();
                assert(value@->Object_0 =~= wire(self@)->Object_0);
                value
            },
            CommunicationResponse::MessageCreated { status, message_id, message } => {
                let mut members = open_envelope("message_created", status.as_str());
                members.put_text("message_id", message_id.as_str());
                members.put("message", message_json(message));
                let value = members.finish();
                assert(value@->Object_0 =~= wire(self@)->Object_0);
                value
            },
            CommunicationResponse::Refused { status, error, code, reason } => {
                let mut members = open_envelope("error", status.as_str());
                members.put_text("error", error.as_str());
                members.put("code", Json::unsigned(*code as u64));
                members.put_text("reason", reason.as_str());
                let value = members.finish();
                assert(value@->Object_0 =~= wire(self@)->Object_0);
                value
            },
            CommunicationResponse::SidebarTitles { status, conversations } => {
                let mut members = open_envelope("sidebar_history", status.as_str());
                members.put("conversations", titles_json(conversations));
                let value = members.finish();
                assert(value@->Object_0 =~= wire(self@)->Object_0);
                value
            },
            CommunicationResponse::MessageEdited { status, content_id, content } => {
                let mut members = open_envelope("message_edited", status.as_str());
                members.put_text("content_id", content_id.as_str());
                members.put_text("content", content.as_str());
                let value = members.finish();
                assert(value@->Object_0 =~= wire(self@)->Object_0);
                value
            },
            CommunicationResponse::ContentTitleEdited {
                status,
                message_id,
                content,
                conversation_title,
            } => {
                let mut members = open_envelope("content_title_edited", status.as_str());
                members.put_text("message_id", message_id.as_str());
                members.put_text("content", content.as_str());
                members.put_text("conversation_title", conversation_title.as_str());
                let value = members.finish();
                assert(value@->Object_0 =~= wire(self@)->Object_0);
                value
            },
            CommunicationResponse::Deleted { status, deleted_type, target_id, title, message } => {
                let mut members = open_envelope("deleted", status.as_str());
                members.put_text("deleted_type", deleted_type.as_str());
                members.put_text("target_id", target_id.as_str());
                members.put("title", optional_json(title));
                members.put_text("message", message.as_str());
                let value = members.finish();
                assert(value@->Object_0 =~= wire(self@)->Object_0);
                value
            },
            CommunicationResponse::AllMessages { status, messages, total_count } => {
                let mut members = open_envelope("all_messages", status.as_str());
                members.put("messages", messages_json(messages));
                members.put("total_count", Json::unsigned(*total_count as u64));
                let value = members.finish();
                assert(value@->Object_0 =~= wire(self@)->Object_0);
                value
            },
            CommunicationResponse::Failed { topic, status, error } => {
                let mut members = open_envelope(topic.name(), status.as_str());
                members.put_text("error", error.as_str());
                let value = members.finish();
                assert(value@->Object_0 =~= wire(self@)->Object_0);
                value
            },
        }
    }

    /// The envelope as the text that is sent.
    pub fn to_text(&self) -> (text: String)
        ensures
            text@ == json_text(wire(self@)),
    {
        self.to_json().write()
    }
}

} // verus!
