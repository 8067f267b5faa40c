//! The envelopes that a client sends, and how they are read from JSON.
//!
//! An envelope is a JSON object whose member `type` says which request it
//! is. The two families, control requests and domain requests, share no
//! `type`, so an object is at most one request.
use vstd::prelude::*;
use crate::json::{Json, JsonTree};
use crate::text::same_text;

verus! {

/// What arrives on a connection: a text, or something that is not text.
#[derive(Debug)]
pub enum Frame {
    Text(String),
    Binary,
    Ping,
    Pong,
    Close,
}

/// A frame as plain values.
pub enum FrameView {
    Text(Seq<char>),
    Binary,
    Ping,
    Pong,
    Close,
}

impl View for Frame {
    type V = FrameView;

    open spec fn view(&self) -> FrameView {
        match self {
            Frame::Text(text) => FrameView::Text(text@),
            Frame::Binary => FrameView::Binary,
            Frame::Ping => FrameView::Ping,
            Frame::Pong => FrameView::Pong,
            Frame::Close => FrameView::Close,
        }
    }
}

/// A request about the connection itself.
#[derive(Debug)]
pub enum ConnectionRequest {
    StartConnection { token: String },
    Disconnect { session_id: String, user_id: u64 },
}

/// A control request as plain values.
pub enum ConnectionRequestView {
    StartConnection { token: Seq<char> },
    Disconnect { session_id: Seq<char>, user_id: u64 },
}

impl View for ConnectionRequest {
    type V = ConnectionRequestView;

    open spec fn view(&self) -> ConnectionRequestView {
        match self {
            ConnectionRequest::StartConnection { token } => ConnectionRequestView::StartConnection {
                token: token@,
            },
            ConnectionRequest::Disconnect { session_id, user_id } => ConnectionRequestView::Disconnect {
                session_id: session_id@,
                user_id: *user_id,
            },
        }
    }
}

/// A request about conversations.
#[derive(Debug)]
pub enum CommunicationRequest {
    /// `ai_request`: a prompt for the conversation `session_id`.
    AIRequest { prompt: String, session_id: String },
    /// `fetch_sidebar_history`: the conversations of a user.
    FetchSidebarHistory { user_id: u64 },
    /// `fetch_conversation`: the messages of one conversation.
    FetchConversation { conversation_id: String },
    /// `start_new_session`: the session of a user, opened if there is none.
    StartNewSession { user_id: u64 },
    /// `edit_content_title`: new content for the message `content_id`.
    EditMessageContentById { content_id: String, content: String },
    /// `edit_content`: a new title for the conversation that `message_id`
    /// names.
    EditContentTitleById { message_id: String, content: String },
    /// `delete_content`: the conversation or message `target_id`.
    DeleteContentTById { target_id: String },
    /// `fetch_all_messages`: the messages of all conversations.
    FetchAllMessages,
}

/// A domain request as plain values.
pub enum CommunicationRequestView {
    AIRequest { prompt: Seq<char>, session_id: Seq<char> },
    FetchSidebarHistory { user_id: u64 },
    FetchConversation { conversation_id: Seq<char> },
    StartNewSession { user_id: u64 },
    EditMessageContentById { content_id: Seq<char>, content: Seq<char> },
    EditContentTitleById { message_id: Seq<char>, content: Seq<char> },
    DeleteContentTById { target_id: Seq<char> },
    FetchAllMessages,
}

impl View for CommunicationRequest {
    type V = CommunicationRequestView;

    open spec fn view(&self) -> CommunicationRequestView {
        match self {
            CommunicationRequest::AIRequest { prompt, session_id } => CommunicationRequestView::AIRequest {
                prompt: prompt@,
                session_id: session_id@,
            },
            CommunicationRequest::FetchSidebarHistory {
                user_id,
            } => CommunicationRequestView::FetchSidebarHistory { user_id: *user_id },
            CommunicationRequest::FetchConversation {
                conversation_id,
            } => CommunicationRequestView::FetchConversation { conversation_id: conversation_id@ },
            CommunicationRequest::StartNewSession {
                user_id,
            } => CommunicationRequestView::StartNewSession { user_id: *user_id },
            CommunicationRequest::EditMessageContentById {
                content_id,
                content,
            } => CommunicationRequestView::EditMessageContentById {
                content_id: content_id@,
                content: content@,
            },
            CommunicationRequest::EditContentTitleById {
                message_id,
                content,
            } => CommunicationRequestView::EditContentTitleById {
                message_id: message_id@,
                content: content@,
            },
            CommunicationRequest::DeleteContentTById {
                target_id,
            } => CommunicationRequestView::DeleteContentTById { target_id: target_id@ },
            CommunicationRequest::FetchAllMessages => CommunicationRequestView::FetchAllMessages,
        }
    }
}

/// The control request that a JSON value is, if it is one: an object with
/// the `type` of a control request and each member of that request, a
/// string where the request holds a string, a whole number from 0 to
/// `u64::MAX` where it holds a number. Other members are not looked at.
pub open spec fn control_request(value: JsonTree) -> Option<ConnectionRequestView> {
    match value.text_at("type"@) {
        Some(kind) => if kind == "start_connection"@ {
            match value.text_at("token"@) {
                Some(token) => Some(ConnectionRequestView::StartConnection { token }),
                None => None,
            }
        } else if kind == "disconnect"@ {
            match (value.text_at("session_id"@), value.unsigned_at("user_id"@)) {
                (Some(session_id), Some(user_id)) => Some(
                    ConnectionRequestView::Disconnect { session_id, user_id },
                ),
                _ => None,
            }
        } else {
            None
        },
        None => None,
    }
}

/// The domain request that a JSON value is, if it is one; read as
/// `control_request` reads a control request.
pub open spec fn domain_request(value: JsonTree) -> Option<CommunicationRequestView> {
    match value.text_at("type"@) {
        Some(kind) => if kind == "ai_request"@ {
            match (value.text_at("prompt"@), value.text_at("session_id"@)) {
                (Some(prompt), Some(session_id)) => Some(
                    CommunicationRequestView::AIRequest { prompt, session_id },
                ),
                _ => None,
            }
        } else if kind == "fetch_sidebar_history"@ {
            match value.unsigned_at("user_id"@) {
                Some(user_id) => Some(CommunicationRequestView::FetchSidebarHistory { user_id }),
                None => None,
            }
        } else if kind == "fetch_conversation"@ {
            match value.text_at("conversation_id"@) {
                Some(conversation_id) => Some(
                    CommunicationRequestView::FetchConversation { conversation_id },
                ),
                None => None,
            }
        } else if kind == "start_new_session"@ {
            match value.unsigned_at("user_id"@) {
                Some(user_id) => Some(CommunicationRequestView::StartNewSession { user_id }),
                None => None,
            }
        } else if kind == "edit_content_title"@ {
            match (value.text_at("content_id"@), value.text_at("content"@)) {
                (Some(content_id), Some(content)) => Some(
                    CommunicationRequestView::EditMessageContentById { content_id, content },
                ),
                _ => None,
            }
        } else if kind == "edit_content"@ {
            match (value.text_at("message_id"@), value.text_at("content"@)) {
                (Some(message_id), Some(content)) => Some(
                    CommunicationRequestView::EditContentTitleById { message_id, content },
                ),
                _ => None,
            }
        } else if kind == "delete_content"@ {
            match value.text_at("target_id"@) {
                Some(target_id) => Some(CommunicationRequestView::DeleteContentTById { target_id }),
                None => None,
            }
        } else if kind == "fetch_all_messages"@ {
            Some(CommunicationRequestView::FetchAllMessages)
        } else {
            None
        },
        None => None,
    }
}

/// The view of an optional control request.
pub open spec fn control_view(request: Option<ConnectionRequest>) -> Option<ConnectionRequestView> {
    match request {
        Some(r) => Some(r@),
        None => None,
    }
}

/// The view of an optional domain request.
pub open spec fn domain_view(request: Option<CommunicationRequest>) -> Option<
    CommunicationRequestView,
> {
    match request {
        Some(r) => Some(r@),
        None => None,
    }
}

impl ConnectionRequest {
    /// Reads a control request from a JSON value.
    pub fn from_json(value: &Json) -> (request: Option<ConnectionRequest>)
        ensures
            control_view(request) == control_request(value@),
    {
        let kind = match value.str_at("type") {
            Some(kind) => kind,
            None => {
                return None;
            },
        };
        if same_text(kind, "start_connection") {
            match value.str_at("token") {
                Some(token) => Some(ConnectionRequest::StartConnection { token: token.to_owned() }),
                None => None,
            }
        } else if same_text(kind, "disconnect") {
            match (value.str_at("session_id"), value.u64_at("user_id")) {
                (Some(session_id), Some(user_id)) => Some(
                    ConnectionRequest::Disconnect { session_id: session_id.to_owned(), user_id },
                ),
                _ => None,
            }
        } else {
            None
        }
    }
}

impl CommunicationRequest {
    /// Reads a domain request from a JSON value.
    pub fn from_json(value: &Json) -> (request: Option<CommunicationRequest>)
        ensures
            domain_view(request) == domain_request(value@),
    {
        let kind = match value.str_at("type") {
            Some(kind) => kind,
            None => {
                return None;
            },
        };
        if same_text(kind, "ai_request") {
            match (value.str_at("prompt"), value.str_at("session_id")) {
                (Some(prompt), Some(session_id)) => Some(
                    CommunicationRequest::AIRequest {
                        prompt: prompt.to_owned(),
                        session_id: session_id.to_owned(),
                    },
                ),
                _ => None,
            }
        } else if same_text(kind, "fetch_sidebar_history") {
            match value.u64_at("user_id") {
                Some(user_id) => Some(CommunicationRequest::FetchSidebarHistory { user_id }),
                None => None,
            }
        } else if same_text(kind, "fetch_conversation") {
            match value.str_at("conversation_id") {
                Some(conversation_id) => Some(
                    CommunicationRequest::FetchConversation {
                        conversation_id: conversation_id.to_owned(),
                    },
                ),
                None => None,
            }
        } else if same_text(kind, "start_new_session") {
            match value.u64_at("user_id") {
                Some(user_id) => Some(CommunicationRequest::StartNewSession { user_id }),
                None => None,
            }
        } else if same_text(kind, "edit_content_title") {
            match (value.str_at("content_id"), value.str_at("content")) {
                (Some(content_id), Some(content)) => Some(
                    CommunicationRequest::EditMessageContentById {
                        content_id: content_id.to_owned(),
                        content: content.to_owned(),
                    },
                ),
                _ => None,
            }
        } else if same_text(kind, "edit_content") {
            match (value.str_at("message_id"), value.str_at("content")) {
                (Some(message_id), Some(content)) => Some(
                    CommunicationRequest::EditContentTitleById {
                        message_id: message_id.to_owned(),
                        content: content.to_owned(),
                    },
                ),
                _ => None,
            }
        } else if same_text(kind, "delete_content") {
            match value.str_at("target_id") {
                Some(target_id) => Some(
                    CommunicationRequest::DeleteContentTById { target_id: target_id.to_owned() },
                ),
                None => None,
            }
        } else if same_text(kind, "fetch_all_messages") {
            Some(CommunicationRequest::FetchAllMessages)
        } else {
            None
        }
    }
}

/// No JSON value is both a control request and a domain request.
pub proof fn law_families_disjoint(value: JsonTree)
    ensures
        !(control_request(value) is Some && domain_request(value) is Some),
{
    reveal_strlit("start_connection");
    reveal_strlit("disconnect");
    reveal_strlit("ai_request");
    reveal_strlit("fetch_sidebar_history");
    reveal_strlit("fetch_conversation");
    reveal_strlit("start_new_session");
    reveal_strlit("edit_content_title");
    reveal_strlit("edit_content");
    reveal_strlit("delete_content");
    reveal_strlit("fetch_all_messages");
    if control_request(value) is Some {
        let kind = value.text_at("type"@).unwrap();
        if kind == "start_connection"@ {
            assert(kind[0] == 's' && kind[1] == 't' && kind.len() == 16);
        } else {
            assert(kind[0] == 'd' && kind[1] == 'i' && kind.len() == 10);
        }
    }
}

} // verus!
