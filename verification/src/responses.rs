//! The envelopes that are sent to a client.
use vstd::prelude::*;
use crate::model::{
    messages_view, text_of, ChatMessage, ConversationMetadata, MessageView, MetadataView,
};
use crate::time::Timestamp;

verus! {

/// One conversation in a listing for the sidebar.
#[derive(Debug)]
pub struct ConversationSummary {
    pub conversation_id: String,
    pub title: String,
    pub created_at: Timestamp,
}

/// A sidebar entry as plain values.
pub struct ConversationSummaryView {
    pub conversation_id: Seq<char>,
    pub title: Seq<char>,
    pub created_at: Timestamp,
}

impl View for ConversationSummary {
    type V = ConversationSummaryView;

    open spec fn view(&self) -> ConversationSummaryView {
        ConversationSummaryView {
            conversation_id: self.conversation_id@,
            title: self.title@,
            created_at: self.created_at,
        }
    }
}

/// A message together with the conversation that holds it.
#[derive(Debug)]
pub struct MessageWithContext {
    pub message: ChatMessage,
    pub conversation_id: String,
    pub conversation_title: String,
    pub created_at: Timestamp,
}

/// The request that an answer of failure belongs to; it gives the answer
/// its `type`.
#[derive(Clone, Copy, Debug, PartialEq, Eq, Structural)]
pub enum Topic {
    SidebarHistory,
    MessageEdited,
    ContentTitleEdited,
    Deleted,
    AllMessages,
}

/// An envelope for the client.
#[derive(Debug)]
#[allow(inconsistent_fields)]
pub enum CommunicationResponse {
    StreamChunk { chunk: String },
    StreamEnd { status: String },
    SessionCreated { status: String, session_id: String, user_id: u64 },
    Disconnected { status: String },
    Error { status: String, error: String },
    AIResponse { status: String, response: String },
    SidebarHistory { status: String, conversations: Vec<ConversationSummary> },
    ConversationHistory { status: String, conversation_id: String, messages: Vec<ChatMessage> },
    MessageCreated { status: String, message_id: String, message: ChatMessage },
    /// The handshake was refused: `code` is the status of the refusal and
    /// `reason` the code of its cause.
    Refused { status: String, error: String, code: u16, reason: String },
    /// The titles of the user's conversations.
    SidebarTitles { status: String, conversations: Vec<ConversationMetadata> },
    MessageEdited { status: String, content_id: String, content: String },
    ContentTitleEdited {
        status: String,
        message_id: String,
        content: String,
        conversation_title: String,
    },
    Deleted {
        status: String,
        deleted_type: String,
        target_id: String,
        title: Option<String>,
        message: String,
    },
    AllMessages { status: String, messages: Vec<ChatMessage>, total_count: usize },
    /// A request about `topic` failed.
    Failed { topic: Topic, status: String, error: String },
}

/// An envelope as plain values.
#[allow(inconsistent_fields)]
pub enum ResponseView {
    StreamChunk { chunk: Seq<char> },
    StreamEnd { status: Seq<char> },
    SessionCreated { status: Seq<char>, session_id: Seq<char>, user_id: u64 },
    Disconnected { status: Seq<char> },
    Error { status: Seq<char>, error: Seq<char> },
    AIResponse { status: Seq<char>, response: Seq<char> },
    SidebarHistory { status: Seq<char>, conversations: Seq<ConversationSummaryView> },
    ConversationHistory { status: Seq<char>, conversation_id: Seq<char>, messages: Seq<MessageView> },
    MessageCreated { status: Seq<char>, message_id: Seq<char>, message: MessageView },
    Refused { status: Seq<char>, error: Seq<char>, code: u16, reason: Seq<char> },
    SidebarTitles { status: Seq<char>, conversations: Seq<MetadataView> },
    MessageEdited { status: Seq<char>, content_id: Seq<char>, content: Seq<char> },
    ContentTitleEdited {
        status: Seq<char>,
        message_id: Seq<char>,
        content: Seq<char>,
        conversation_title: Seq<char>,
    },
    Deleted {
        status: Seq<char>,
        deleted_type: Seq<char>,
        target_id: Seq<char>,
        title: Option<Seq<char>>,
        message: Seq<char>,
    },
    AllMessages { status: Seq<char>, messages: Seq<MessageView>, total_count: nat },
    Failed { topic: Topic, status: Seq<char>, error: Seq<char> },
}

impl View for CommunicationResponse {
    type V = ResponseView;

    open spec fn view(&self) -> ResponseView {
        match self {
            CommunicationResponse::StreamChunk { chunk } => ResponseView::StreamChunk {
                chunk: chunk@,
            },
            CommunicationResponse::StreamEnd { status } => ResponseView::StreamEnd {
                status: status@,
            },
            CommunicationResponse::SessionCreated {
                status,
                session_id,
                user_id,
            } => ResponseView::SessionCreated {
                status: status@,
                session_id: session_id@,
                user_id: *user_id,
            },
            CommunicationResponse::Disconnected { status } => ResponseView::Disconnected {
                status: status@,
            },
            CommunicationResponse::Error { status, error } => ResponseView::Error {
                status: status@,
                error: error@,
            },
            CommunicationResponse::AIResponse { status, response } => ResponseView::AIResponse {
                status: status@,
                response: response@,
            },
            CommunicationResponse::SidebarHistory {
                status,
                conversations,
            } => ResponseView::SidebarHistory {
                status: status@,
                conversations: conversations@.map_values(|c: ConversationSummary| c@),
            },
            CommunicationResponse::ConversationHistory {
                status,
                conversation_id,
                messages,
            } => ResponseView::ConversationHistory {
                status: status@,
                conversation_id: conversation_id@,
                messages: messages_view(messages@),
            },
            CommunicationResponse::MessageCreated {
                status,
                message_id,
                message,
            } => ResponseView::MessageCreated {
                status: status@,
                message_id: message_id@,
                message: message@,
            },
            CommunicationResponse::Refused { status, error, code, reason } => ResponseView::Refused {
                status: status@,
                error: error@,
                code: *code,
                reason: reason@,
            },
            CommunicationResponse::SidebarTitles {
                status,
                conversations,
            } => ResponseView::SidebarTitles {
                status: status@,
                conversations: conversations@.map_values(|c: ConversationMetadata| c@),
            },
            CommunicationResponse::MessageEdited {
                status,
                content_id,
                content,
            } => ResponseView::MessageEdited {
                status: status@,
                content_id: content_id@,
                content: content@,
            },
            CommunicationResponse::ContentTitleEdited {
                status,
                message_id,
                content,
                conversation_title,
            } => ResponseView::ContentTitleEdited {
                status: status@,
                message_id: message_id@,
                content: content@,
                conversation_title: conversation_title@,
            },
            CommunicationResponse::Deleted {
                status,
                deleted_type,
                target_id,
                title,
                message,
            } => ResponseView::Deleted {
                status: status@,
                deleted_type: deleted_type@,
                target_id: target_id@,
                title: text_of(*title),
                message: message@,
            },
            CommunicationResponse::AllMessages {
                status,
                messages,
                total_count,
            } => ResponseView::AllMessages {
                status: status@,
                messages: messages_view(messages@),
                total_count: *total_count as nat,
            },
            CommunicationResponse::Failed { topic, status, error } => ResponseView::Failed {
                topic: *topic,
                status: status@,
                error: error@,
            },
        }
    }
}

/// The views of a list of envelopes.
pub open spec fn responses_view(list: Seq<CommunicationResponse>) -> Seq<ResponseView> {
    list.map_values(|r: CommunicationResponse| r@)
}

impl Topic {
    /// The `type` of the envelope that answers a request about the topic.
    pub open spec fn tag(self) -> Seq<char> {
        match self {
            Topic::SidebarHistory => "sidebar_history"@,
            Topic::MessageEdited => "message_edited"@,
            Topic::ContentTitleEdited => "content_title_edited"@,
            Topic::Deleted => "deleted"@,
            Topic::AllMessages => "all_messages"@,
        }
    }

    pub fn name(&self) -> (tag: &'static str)
        ensures
            tag@ == self.tag(),
    {
        match self {
            Topic::SidebarHistory => "sidebar_history",
            Topic::MessageEdited => "message_edited",
            Topic::ContentTitleEdited => "content_title_edited",
            Topic::Deleted => "deleted",
            Topic::AllMessages => "all_messages",
        }
    }
}

impl CommunicationResponse {
    /// The envelope `error` with the given status and words.
    pub fn error(status: &str, error: &str) -> (r: CommunicationResponse)
        ensures
            r@ == (ResponseView::Error { status: status@, error: error@ }),
    {
        CommunicationResponse::Error { status: status.to_owned(), error: error.to_owned() }
    }

    /// The envelope that tells of a failed request about `topic`.
    pub fn failed(topic: Topic, error: String) -> (r: CommunicationResponse)
        ensures
            r@ == (ResponseView::Failed { topic, status: "error"@, error: error@ }),
    {
        CommunicationResponse::Failed { topic, status: "error".to_owned(), error }
    }
}

} // verus!
