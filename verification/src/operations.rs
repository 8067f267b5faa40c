//! How the domain requests of an active connection are answered.
//!
//! A request is answered against what it needs: most need the conversation
//! document, one the titles read from the document's text, one the session
//! index. The caller fetches what is needed, hands it to the function for
//! that request, sends the answer, and writes back what was changed.
use vstd::prelude::*;
use vstd::string::StringExecFns;
use crate::ids::fresh_uuid;
use crate::opening::Access;
use crate::model::{ChatMessage, ConversationMetadata, MessageData, MessageView};
use crate::payloads::{CommunicationRequest, CommunicationRequestView};
use crate::responses::{CommunicationResponse, ResponseView, Topic};
use crate::session_index::AuthSession;
use crate::store::{
    chats_of, content_edited, deleted, kind_name, kind_note, renamed, saved, MessageManager,
};
use crate::text::{decimal, decimal_string};
use crate::time::{now, Timestamp};
use crate::titles::{metadata_view, TitlesError};
use crate::user_ops::listed;

verus! {

/// What a request needs to be answered.
#[derive(Clone, Copy, Debug, PartialEq, Eq, Structural)]
pub enum Needs {
    /// The conversation document.
    Document,
    /// The titles of the user's conversations.
    Titles,
    /// The session index.
    SessionIndex,
}

/// What `request` needs.
pub open spec fn needs_of(request: CommunicationRequestView) -> Needs {
    match request {
        CommunicationRequestView::FetchSidebarHistory { .. } => Needs::Titles,
        CommunicationRequestView::StartNewSession { .. } => Needs::SessionIndex,
        _ => Needs::Document,
    }
}

/// Says what `request` needs.
pub fn needs(request: &CommunicationRequest) -> (n: Needs)
    ensures
        n == needs_of(request@),
{
    match request {
        CommunicationRequest::FetchSidebarHistory { .. } => Needs::Titles,
        CommunicationRequest::StartNewSession { .. } => Needs::SessionIndex,
        _ => Needs::Document,
    }
}

/// How `request` uses the document: a prompt, an edit, a rename and a
/// deletion change it; the others read it.
pub open spec fn access_for(request: CommunicationRequestView) -> Access {
    match request {
        CommunicationRequestView::AIRequest { .. } => Access::Write,
        CommunicationRequestView::EditMessageContentById { .. } => Access::Write,
        CommunicationRequestView::EditContentTitleById { .. } => Access::Write,
        CommunicationRequestView::DeleteContentTById { .. } => Access::Write,
        _ => Access::Read,
    }
}

/// Says how `request` uses the document.
pub fn access_of(request: &CommunicationRequest) -> (access: Access)
    ensures
        access == access_for(request@),
{
    match request {
        CommunicationRequest::AIRequest { .. } => Access::Write,
        CommunicationRequest::EditMessageContentById { .. } => Access::Write,
        CommunicationRequest::EditContentTitleById { .. } => Access::Write,
        CommunicationRequest::DeleteContentTById { .. } => Access::Write,
        _ => Access::Read,
    }
}

/// A prompt that waits for its answer: the conversation it belongs to and
/// the message of the user that the answer will reply to.
#[derive(Debug)]
pub struct PromptJob {
    pub prompt: String,
    pub chat_id: String,
    pub user_message_id: String,
}

/// A prompt job as plain values.
pub struct PromptJobView {
    pub prompt: Seq<char>,
    pub chat_id: Seq<char>,
    pub user_message_id: Seq<char>,
}

impl View for PromptJob {
    type V = PromptJobView;

    open spec fn view(&self) -> PromptJobView {
        PromptJobView {
            prompt: self.prompt@,
            chat_id: self.chat_id@,
            user_message_id: self.user_message_id@,
        }
    }
}

/// The message that a prompt of the user becomes; its id ends in `tail`.
pub open spec fn prompt_message(prompt: Seq<char>, tail: Seq<char>, now: Timestamp) -> MessageView {
    MessageView {
        message_id: "msg_"@ + tail,
        parent_id: "root"@,
        reply_id: None,
        role: "user"@,
        content: prompt,
        edited: false,
        timestamp: now,
        edit_timestamp: None,
    }
}

/// The message that the answer to the message `reply_to` becomes.
pub open spec fn answer_message(reply_to: Seq<char>, text: Seq<char>, id: Seq<char>, now: Timestamp)
    -> MessageView {
    MessageView {
        message_id: id,
        parent_id: "root"@,
        reply_id: Some(reply_to),
        role: "assistant"@,
        content: text,
        edited: false,
        timestamp: now,
        edit_timestamp: None,
    }
}

/// The envelope that acknowledges a prompt.
pub open spec fn prompt_received(message: MessageView) -> ResponseView {
    ResponseView::MessageCreated {
        status: "message_created"@,
        message_id: message.message_id,
        message,
    }
}

/// Makes the message of a prompt.
pub fn user_message(prompt: &str, tail: &str, now: Timestamp) -> (message: ChatMessage)
    ensures
        message@ == prompt_message(prompt@, tail@, now),
{
    let mut id = "msg_".to_owned();
    id.append(tail);
    ChatMessage {
        message_id: id,
        parent_id: "root".to_owned(),
        reply_id: None,
        role: "user".to_owned(),
        content: prompt.to_owned(),
        edited: false,
        timestamp: now,
        edit_timestamp: None,
    }
}

/// Makes the message of an answer.
pub fn assistant_message(reply_to: &str, text: String, id: String, now: Timestamp) -> (message:
    ChatMessage)
    ensures
        message@ == answer_message(reply_to@, text@, id@, now),
{
    ChatMessage {
        message_id: id,
        parent_id: "root".to_owned(),
        reply_id: Some(reply_to.to_owned()),
        role: "assistant".to_owned(),
        content: text,
        edited: false,
        timestamp: now,
        edit_timestamp: None,
    }
}

/// Takes a prompt: the message it becomes, the envelope that acknowledges
/// it, and the job of answering it. The message is stored by `store_prompt`.
pub fn begin_prompt(prompt: &str, chat_id: &str, tail: &str, now: Timestamp) -> (begun: (
    ChatMessage,
    CommunicationResponse,
    PromptJob,
))
    ensures
        begun.0@ == prompt_message(prompt@, tail@, now),
        begun.1@ == prompt_received(begun.0@),
        begun.2@ == (PromptJobView {
            prompt: prompt@,
            chat_id: chat_id@,
            user_message_id: begun.0@.message_id,
        }),
{
    let message = user_message(prompt, tail, now);
    let reply = CommunicationResponse::MessageCreated {
        status: "message_created".to_owned(),
        message_id: message.message_id.clone(),
        message: message.clone(),
    };
    let job = PromptJob {
        prompt: prompt.to_owned(),
        chat_id: chat_id.to_owned(),
        user_message_id: message.message_id.clone(),
    };
    (message, reply, job)
}

/// Takes a prompt at the time of the call, under a fresh random id.
pub fn begin_prompt_now(prompt: &str, chat_id: &str) -> (begun: (
    ChatMessage,
    CommunicationResponse,
    PromptJob,
))
    ensures
        exists|tail: Seq<char>, now: Timestamp|
            tail.len() == crate::ids::UUID_LENGTH && begun.0@ == #[trigger] prompt_message(
                prompt@,
                tail,
                now,
            ),
        begun.1@ == prompt_received(begun.0@),
        begun.2@ == (PromptJobView {
            prompt: prompt@,
            chat_id: chat_id@,
            user_message_id: begun.0@.message_id,
        }),
{
    let tail = fresh_uuid();
    let at = now();
    begin_prompt(prompt, chat_id, tail.as_str(), at)
}

/// Stores the answer to a prompt: a message of the assistant that replies
/// to the prompt's message, in the prompt's conversation.
pub fn complete_prompt(
    store: &MessageManager,
    db: &mut MessageData,
    user_id: u64,
    job: &PromptJob,
    text: String,
    id: String,
    now: Timestamp,
) -> (stored: ChatMessage)
    ensures
        stored@ == answer_message(job@.user_message_id, text@, id@, now),
        final(db)@ == saved(old(db)@, decimal(user_id as nat), job@.chat_id, stored@, now),
{
    let message = assistant_message(job.user_message_id.as_str(), text, id, now);
    store.save_message_at(db, &user_id, job.chat_id.as_str(), message, now)
}

/// The envelope that holds the messages of a conversation.
pub open spec fn history(conversation_id: Seq<char>, messages: Seq<MessageView>) -> ResponseView {
    ResponseView::ConversationHistory { status: "ok"@, conversation_id, messages }
}

/// The envelope that holds all messages of a user.
pub open spec fn all_messages(messages: Seq<MessageView>) -> ResponseView {
    ResponseView::AllMessages { status: "ok"@, messages, total_count: messages.len() }
}

/// The envelope that answers a request about `topic` that failed with
/// `error`: its words begin with `lead`.
pub open spec fn failure(topic: Topic, lead: Seq<char>, error: Seq<char>) -> ResponseView {
    ResponseView::Failed { topic, status: "error"@, error: lead + error }
}

fn fail(topic: Topic, lead: &str, error: &str) -> (reply: CommunicationResponse)
    ensures
        reply@ == failure(topic, lead@, error@),
{
    let mut words = lead.to_owned();
    words.append(error);
    CommunicationResponse::failed(topic, words)
}

/// Answers `fetch_conversation`: the messages of the conversation by time.
pub fn fetch_conversation(
    store: &MessageManager,
    db: &MessageData,
    user_id: u64,
    conversation_id: &str,
) -> (reply: CommunicationResponse)
    ensures
        reply@ == history(
            conversation_id@,
            listed(chats_of(db@, decimal(user_id as nat)), Some(conversation_id@)),
        ),
{
    let user = decimal_string(user_id);
    let messages = store.get_user_messages(db, user.as_str(), Some(conversation_id));
    CommunicationResponse::ConversationHistory {
        status: "ok".to_owned(),
        conversation_id: conversation_id.to_owned(),
        messages,
    }
}

/// Answers `fetch_all_messages`: the messages of all conversations by
/// time, and their number.
pub fn fetch_all_messages(store: &MessageManager, db: &MessageData, user_id: u64) -> (reply:
    CommunicationResponse)
    ensures
        reply@ == all_messages(listed(chats_of(db@, decimal(user_id as nat)), None)),
{
    let user = decimal_string(user_id);
    let messages = store.get_all_user_messages(db, user.as_str());
    let total_count = messages.len();
    CommunicationResponse::AllMessages { status: "ok".to_owned(), messages, total_count }
}

/// Answers `edit_content_title`: the message `content_id` gets the content
/// `content`. Says also whether the document was changed.
pub fn edit_content(
    store: &MessageManager,
    db: &mut MessageData,
    user_id: u64,
    content_id: &str,
    content: &str,
    now: Timestamp,
) -> (answer: (CommunicationResponse, bool))
    ensures
        final(db)@ == content_edited(old(db)@, decimal(user_id as nat), content_id@, content@, now).0,
        answer.1 == content_edited(old(db)@, decimal(user_id as nat), content_id@, content@, now).1
            is Some,
        answer.0@ == if answer.1 {
            ResponseView::MessageEdited { status: "ok"@, content_id: content_id@, content: content@ }
        } else {
            failure(
                Topic::MessageEdited,
                "Failed to edit message: "@,
                "Message not found: "@ + content_id@,
            )
        },
        !answer.1 ==> final(db)@ == old(db)@,
{
    let user = decimal_string(user_id);
    match store.edit_message_content_at(db, user.as_str(), content_id, content, now) {
        Ok(()) => (
            CommunicationResponse::MessageEdited {
                status: "ok".to_owned(),
                content_id: content_id.to_owned(),
                content: content.to_owned(),
            },
            true,
        ),
        Err(e) => (fail(Topic::MessageEdited, "Failed to edit message: ", e.message().as_str()), false),
    }
}

/// Answers `edit_content`: the conversation that `message_id` names gets
/// the title `content`. Says also whether the document was changed.
pub fn edit_title(
    store: &MessageManager,
    db: &mut MessageData,
    user_id: u64,
    message_id: &str,
    content: &str,
) -> (answer: (CommunicationResponse, bool))
    ensures
        final(db)@ == renamed(old(db)@, decimal(user_id as nat), message_id@, content@).0,
        answer.0@ == match renamed(old(db)@, decimal(user_id as nat), message_id@, content@).1 {
            Some(title) => ResponseView::ContentTitleEdited {
                status: "ok"@,
                message_id: message_id@,
                content: content@,
                conversation_title: title,
            },
            None => failure(
                Topic::ContentTitleEdited,
                "Failed to edit content and title: "@,
                "Target not found: "@ + message_id@,
            ),
        },
        answer.1 == renamed(old(db)@, decimal(user_id as nat), message_id@, content@).1 is Some,
        !answer.1 ==> final(db)@ == old(db)@,
{
    let user = decimal_string(user_id);
    match store.edit_title(db, user.as_str(), message_id, content) {
        Ok(title) => (
            CommunicationResponse::ContentTitleEdited {
                status: "ok".to_owned(),
                message_id: message_id.to_owned(),
                content: content.to_owned(),
                conversation_title: title,
            },
            true,
        ),
        Err(e) => (
            fail(Topic::ContentTitleEdited, "Failed to edit content and title: ", e.message().as_str()),
            false,
        ),
    }
}

/// Answers `delete_content`: what `target_id` names is deleted. Says also
/// whether the document was changed.
pub fn delete_content(store: &MessageManager, db: &mut MessageData, user_id: u64, target_id: &str) -> (answer:
    (CommunicationResponse, bool))
    ensures
        final(db)@ == deleted(old(db)@, decimal(user_id as nat), target_id@).0,
        answer.0@ == match deleted(old(db)@, decimal(user_id as nat), target_id@).1 {
            Some((kind, title)) => ResponseView::Deleted {
                status: "ok"@,
                deleted_type: kind_name(kind),
                target_id: target_id@,
                title: Some(title),
                message: kind_note(kind) + title,
            },
            None => failure(Topic::Deleted, "Failed to delete: "@, "Target not found: "@ + target_id@),
        },
        answer.1 == deleted(old(db)@, decimal(user_id as nat), target_id@).1 is Some,
        !answer.1 ==> final(db)@ == old(db)@,
{
    let user = decimal_string(user_id);
    match store.delete_by_id(db, user.as_str(), target_id) {
        Ok(result) => (
            CommunicationResponse::Deleted {
                status: "ok".to_owned(),
                deleted_type: result.deleted_type,
                target_id: result.target_id,
                title: result.title,
                message: result.message,
            },
            true,
        ),
        Err(e) => (fail(Topic::Deleted, "Failed to delete: ", e.message().as_str()), false),
    }
}

/// What is left of answering a request against the document.
#[derive(Debug)]
pub struct Outcome {
    /// The answer; none for a request that does not need the document.
    pub reply: Option<CommunicationResponse>,
    /// Whether the document was changed and is to be written.
    pub changed: bool,
    /// The prompt that is now to be answered by the backend.
    pub job: Option<PromptJob>,
}

/// Answers a request against the document, at the time `now`; the id of a
/// message that the request gives rise to ends in `tail`.
pub fn on_document(
    store: &MessageManager,
    db: &mut MessageData,
    user_id: u64,
    request: &CommunicationRequest,
    tail: &str,
    now: Timestamp,
) -> (outcome: Outcome)
    ensures
        needs_of(request@) != Needs::Document ==> outcome.reply is None && !outcome.changed
            && outcome.job is None && final(db)@ == old(db)@,
        needs_of(request@) == Needs::Document ==> outcome.reply is Some,
        !outcome.changed ==> final(db)@ == old(db)@,
        access_for(request@) == Access::Read ==> !outcome.changed,
        outcome.job is Some <==> request is AIRequest,
        match request@ {
            CommunicationRequestView::AIRequest { prompt, session_id } => {
                let message = prompt_message(prompt, tail@, now);
                &&& outcome.reply.unwrap()@ == prompt_received(message)
                &&& outcome.changed
                &&& outcome.job.unwrap()@ == (PromptJobView {
                    prompt,
                    chat_id: session_id,
                    user_message_id: message.message_id,
                })
                &&& final(db)@ == saved(old(db)@, decimal(user_id as nat), session_id, message, now)
            },
            CommunicationRequestView::FetchConversation { conversation_id } => outcome.reply.unwrap()@
                == history(
                conversation_id,
                listed(chats_of(old(db)@, decimal(user_id as nat)), Some(conversation_id)),
            ),
            CommunicationRequestView::FetchAllMessages => outcome.reply.unwrap()@ == all_messages(
                listed(chats_of(old(db)@, decimal(user_id as nat)), None),
            ),
            CommunicationRequestView::EditMessageContentById { content_id, content } => {
                let edited = content_edited(
                    old(db)@,
                    decimal(user_id as nat),
                    content_id,
                    content,
                    now,
                );
                &&& final(db)@ == edited.0
                &&& outcome.changed == edited.1 is Some
                &&& outcome.reply.unwrap()@ == if edited.1 is Some {
                    ResponseView::MessageEdited { status: "ok"@, content_id, content }
                } else {
                    failure(
                        Topic::MessageEdited,
                        "Failed to edit message: "@,
                        "Message not found: "@ + content_id,
                    )
                }
            },
            CommunicationRequestView::EditContentTitleById { message_id, content } => {
                let named = renamed(old(db)@, decimal(user_id as nat), message_id, content);
                &&& final(db)@ == named.0
                &&& outcome.changed == named.1 is Some
                &&& outcome.reply.unwrap()@ == match named.1 {
                    Some(title) => ResponseView::ContentTitleEdited {
                        status: "ok"@,
                        message_id,
                        content,
                        conversation_title: title,
                    },
                    None => failure(
                        Topic::ContentTitleEdited,
                        "Failed to edit content and title: "@,
                        "Target not found: "@ + message_id,
                    ),
                }
            },
            CommunicationRequestView::DeleteContentTById { target_id } => {
                let gone = deleted(old(db)@, decimal(user_id as nat), target_id);
                &&& final(db)@ == gone.0
                &&& outcome.changed == gone.1 is Some
                &&& outcome.reply.unwrap()@ == match gone.1 {
                    Some((kind, title)) => ResponseView::Deleted {
                        status: "ok"@,
                        deleted_type: kind_name(kind),
                        target_id,
                        title: Some(title),
                        message: kind_note(kind) + title,
                    },
                    None => failure(
                        Topic::Deleted,
                        "Failed to delete: "@,
                        "Target not found: "@ + target_id,
                    ),
                }
            },
            _ => true,
        },
{
    match request {
        CommunicationRequest::AIRequest { prompt, session_id } => {
            let (message, reply, job) = begin_prompt(prompt.as_str(), session_id.as_str(), tail, now);
            store.save_message_at(db, &user_id, session_id.as_str(), message, now);
            Outcome { reply: Some(reply), changed: true, job: Some(job) }
        },
        CommunicationRequest::FetchConversation { conversation_id } => Outcome {
            reply: Some(fetch_conversation(store, db, user_id, conversation_id.as_str())),
            changed: false,
            job: None,
        },
        CommunicationRequest::FetchAllMessages => Outcome {
            reply: Some(fetch_all_messages(store, db, user_id)),
            changed: false,
            job: None,
        },
        CommunicationRequest::EditMessageContentById { content_id, content } => {
            let (reply, changed) = edit_content(
                store,
                db,
                user_id,
                content_id.as_str(),
                content.as_str(),
                now,
            );
            Outcome { reply: Some(reply), changed, job: None }
        },
        CommunicationRequest::EditContentTitleById { message_id, content } => {
            let (reply, changed) = edit_title(store, db, user_id, message_id.as_str(), content.as_str());
            Outcome { reply: Some(reply), changed, job: None }
        },
        CommunicationRequest::DeleteContentTById { target_id } => {
            let (reply, changed) = delete_content(store, db, user_id, target_id.as_str());
            Outcome { reply: Some(reply), changed, job: None }
        },
        _ => Outcome { reply: None, changed: false, job: None },
    }
}

/// The answer to a request whose document could not be read or written,
/// for the reason `reason`: for a prompt, its acknowledgement all the same,
/// and the job of answering it; for the other requests that need the
/// document, the envelope that tells of the failure.
pub fn on_document_failure(request: &CommunicationRequest, reason: &str, tail: &str, now: Timestamp) -> (outcome:
    Outcome)
    ensures
        !outcome.changed,
        needs_of(request@) != Needs::Document ==> outcome.reply is None && outcome.job is None,
        match request@ {
            CommunicationRequestView::AIRequest { prompt, session_id } => {
                let message = prompt_message(prompt, tail@, now);
                &&& outcome.reply is Some && outcome.reply.unwrap()@ == prompt_received(message)
                &&& outcome.job is Some && outcome.job.unwrap()@ == (PromptJobView {
                    prompt,
                    chat_id: session_id,
                    user_message_id: message.message_id,
                })
            },
            CommunicationRequestView::FetchConversation { .. } => outcome.reply is Some
                && outcome.reply.unwrap()@ == (ResponseView::Error {
                status: "error"@,
                error: "Failed to fetch conversation"@,
            }) && outcome.job is None,
            CommunicationRequestView::FetchAllMessages => outcome.reply is Some
                && outcome.reply.unwrap()@ == failure(
                Topic::AllMessages,
                "Failed to fetch all messages: "@,
                reason@,
            ) && outcome.job is None,
            CommunicationRequestView::EditMessageContentById { .. } => outcome.reply is Some
                && outcome.reply.unwrap()@ == failure(
                Topic::MessageEdited,
                "Failed to edit message: "@,
                reason@,
            ) && outcome.job is None,
            CommunicationRequestView::EditContentTitleById { .. } => outcome.reply is Some
                && outcome.reply.unwrap()@ == failure(
                Topic::ContentTitleEdited,
                "Failed to edit content and title: "@,
                reason@,
            ) && outcome.job is None,
            CommunicationRequestView::DeleteContentTById { .. } => outcome.reply is Some
                && outcome.reply.unwrap()@ == failure(Topic::Deleted, "Failed to delete: "@, reason@)
                && outcome.job is None,
            _ => true,
        },
{
    match request {
        CommunicationRequest::AIRequest { prompt, session_id } => {
            let (_, reply, job) = begin_prompt(prompt.as_str(), session_id.as_str(), tail, now);
            Outcome { reply: Some(reply), changed: false, job: Some(job) }
        },
        CommunicationRequest::FetchConversation { .. } => Outcome {
            reply: Some(CommunicationResponse::error("error", "Failed to fetch conversation")),
            changed: false,
            job: None,
        },
        CommunicationRequest::FetchAllMessages => Outcome {
            reply: Some(fail(Topic::AllMessages, "Failed to fetch all messages: ", reason)),
            changed: false,
            job: None,
        },
        CommunicationRequest::EditMessageContentById { .. } => Outcome {
            reply: Some(fail(Topic::MessageEdited, "Failed to edit message: ", reason)),
            changed: false,
            job: None,
        },
        CommunicationRequest::EditContentTitleById { .. } => Outcome {
            reply: Some(fail(Topic::ContentTitleEdited, "Failed to edit content and title: ", reason)),
            changed: false,
            job: None,
        },
        CommunicationRequest::DeleteContentTById { .. } => Outcome {
            reply: Some(fail(Topic::Deleted, "Failed to delete: ", reason)),
            changed: false,
            job: None,
        },
        _ => Outcome { reply: None, changed: false, job: None },
    }
}

impl TitlesError {
    /// The error in words.
    pub open spec fn text(self) -> Seq<char> {
        match self {
            TitlesError::Malformed => "Failed to parse messages.json"@,
            TitlesError::Unreadable { reason } => "Failed to read messages.json: "@ + reason@,
            TitlesError::MissingTitle { conversation_id } => "Missing title for conversation "@
                + conversation_id@,
            TitlesError::MissingCreatedAt { conversation_id } => "Missing created_at for conversation "@
                + conversation_id@,
            TitlesError::BadTimestamp { conversation_id } => "Invalid created_at for conversation "@
                + conversation_id@,
        }
    }

    /// The error in words.
    pub fn message(&self) -> (text: String)
        ensures
            text@ == self.text(),
    {
        match self {
            TitlesError::Malformed => "Failed to parse messages.json".to_owned(),
            TitlesError::Unreadable { reason } => {
                let mut text = "Failed to read messages.json: ".to_owned();
                text.append(reason.as_str());
                text
            },
            TitlesError::MissingTitle { conversation_id } => {
                let mut text = "Missing title for conversation ".to_owned();
                text.append(conversation_id.as_str());
                text
            },
            TitlesError::MissingCreatedAt { conversation_id } => {
                let mut text = "Missing created_at for conversation ".to_owned();
                text.append(conversation_id.as_str());
                text
            },
            TitlesError::BadTimestamp { conversation_id } => {
                let mut text = "Invalid created_at for conversation ".to_owned();
                text.append(conversation_id.as_str());
                text
            },
        }
    }
}

/// Answers `fetch_sidebar_history` with the titles that were read, or
/// with the error of reading them.
pub fn on_titles(titles: Result<Vec<ConversationMetadata>, TitlesError>) -> (reply: CommunicationResponse)
    ensures
        reply@ == match titles {
            Ok(list) => ResponseView::SidebarTitles {
                status: "ok"@,
                conversations: metadata_view(list@),
            },
            Err(e) => failure(Topic::SidebarHistory, "Failed to fetch conversations: "@, e.text()),
        },
{
    match titles {
        Ok(list) => CommunicationResponse::SidebarTitles {
            status: "ok".to_owned(),
            conversations: list,
        },
        Err(e) => fail(Topic::SidebarHistory, "Failed to fetch conversations: ", e.message().as_str()),
    }
}

/// Answers `start_new_session`: the session that the index names for the
/// user, else the session `fresh`, which is then recorded as opened at
/// `now`. Says also whether the index was changed.
pub fn on_session_index(index: &mut AuthSession, user_id: u64, fresh: String, now: Timestamp) -> (answer:
    (CommunicationResponse, bool))
    ensures
        answer.0@ == (ResponseView::SessionCreated {
            status: "ok"@,
            session_id: match old(index).session_of(user_id) {
                Some(known) => known,
                None => fresh@,
            },
            user_id,
        }),
        answer.1 == old(index).session_of(user_id) is None,
        !answer.1 ==> *final(index) == *old(index),
        answer.1 ==> final(index).session_of(user_id) == Some(fresh@),
        forall|other: u64|
            other != user_id ==> final(index).session_of(other) == old(index).session_of(other),
{
    let (session_id, opened) = index.resume_or_open(user_id, fresh, now);
    (CommunicationResponse::SessionCreated { status: "ok".to_owned(), session_id, user_id }, opened)
}

/// The envelope for a session that could not be recorded; the connection
/// is closed after it.
pub fn session_not_recorded() -> (reply: CommunicationResponse)
    ensures
        reply@ == (ResponseView::Error { status: "error"@, error: "Failed to create session"@ }),
{
    CommunicationResponse::error("error", "Failed to create session")
}

} // verus!
