//! The conversation store: every operation on the conversation document,
//! as a function from the document before to the document after.
//!
//! The store does no input or output. Its caller reads the document, hands
//! it to one operation, and writes it back where the operation changed it.
use vstd::prelude::*;
use vstd::string::StringExecFns;
use crate::chat_ops::{
    chat_edit, chat_edit_answer, chat_remove, chat_remove_thread, message_of, with_title,
};
use crate::lookup::{first_match, lemma_first_match};
use crate::model::{
    get, ids, messages_view, put, text_of, ChatList, ChatMessage, ChatView, MessageData,
    MessageView, UserConversations, UserList,
};
use crate::text::{decimal, decimal_string};
use crate::opening::{after_document_look, open_document, Access, Opening};
use crate::time::{now, Timestamp};
use crate::titles::{after_look, judge_look, Look, Next, RetryPolicy};
use crate::user_ops::{
    chats_appended, chats_deleted, chats_edit, chats_renamed, chats_without, chats_without_all,
    for_chat, listed, summaries_view, summarized, ChatSummary, DeleteKind,
};

verus! {

/// The conversations of `user`; none for a user that the document lacks.
pub open spec fn chats_of(doc: UserList, user: Seq<char>) -> ChatList {
    match get(doc, user) {
        Some(chats) => chats,
        None => Seq::empty(),
    }
}

/// Doing `op` to the conversations of `user`: the document after, and what
/// `op` gave; the document as it was, and `absent`, for a user that the
/// document lacks.
pub open spec fn for_user<R>(
    doc: UserList,
    user: Seq<char>,
    op: spec_fn(ChatList) -> (ChatList, R),
    absent: R,
) -> (UserList, R) {
    match first_match(ids(doc), user) {
        Some(u) => (doc.update(u, (doc[u].0, op(doc[u].1).0)), op(doc[u].1).1),
        None => (doc, absent),
    }
}

/// `doc` after `message` was appended to the conversation `chat_id` of
/// `user`; the user is entered, and the conversation opened at `now`, where
/// the document lacks them.
pub open spec fn saved(
    doc: UserList,
    user: Seq<char>,
    chat_id: Seq<char>,
    message: MessageView,
    now: Timestamp,
) -> UserList {
    put(doc, user, chats_appended(chats_of(doc, user), chat_id, message, now))
}

/// Editing the message `message_id` of the conversation `chat_id` of `user`.
pub open spec fn updated(
    doc: UserList,
    user: Seq<char>,
    chat_id: Seq<char>,
    message_id: Seq<char>,
    content: Seq<char>,
    now: Timestamp,
) -> (UserList, Option<MessageView>) {
    for_user(
        doc,
        user,
        |chats: ChatList|
            for_chat(chats, chat_id, |chat: ChatView| chat_edit(chat, message_id, content, now), None),
        None,
    )
}

/// Editing the first answer to the message `id` in the conversation
/// `chat_id` of `user`.
pub open spec fn answer_updated(
    doc: UserList,
    user: Seq<char>,
    chat_id: Seq<char>,
    id: Seq<char>,
    content: Seq<char>,
    now: Timestamp,
) -> (UserList, Option<MessageView>) {
    for_user(
        doc,
        user,
        |chats: ChatList|
            for_chat(chats, chat_id, |chat: ChatView| chat_edit_answer(chat, id, content, now), None),
        None,
    )
}

/// Removing the message `message_id` from the conversation `chat_id` of
/// `user`: the document after, and whether a message went.
pub open spec fn message_deleted(
    doc: UserList,
    user: Seq<char>,
    chat_id: Seq<char>,
    message_id: Seq<char>,
) -> (UserList, bool) {
    for_user(
        doc,
        user,
        |chats: ChatList|
            for_chat(chats, chat_id, |chat: ChatView| chat_remove(chat, message_id), false),
        false,
    )
}

/// Removing the message `message_id` and the answers to it from the
/// conversation `chat_id` of `user`: the document after, and how many
/// messages went.
pub open spec fn thread_deleted(
    doc: UserList,
    user: Seq<char>,
    chat_id: Seq<char>,
    message_id: Seq<char>,
) -> (UserList, nat) {
    for_user(
        doc,
        user,
        |chats: ChatList|
            for_chat(chats, chat_id, |chat: ChatView| chat_remove_thread(chat, message_id), 0nat),
        0nat,
    )
}

/// Giving the conversation `chat_id` of `user` the title `title`.
pub open spec fn retitled(doc: UserList, user: Seq<char>, chat_id: Seq<char>, title: Seq<char>) -> (
    UserList,
    bool,
) {
    for_user(
        doc,
        user,
        |chats: ChatList|
            for_chat(chats, chat_id, |chat: ChatView| (with_title(chat, title), true), false),
        false,
    )
}

/// Removing the conversation `chat_id` of `user`.
pub open spec fn chat_deleted(doc: UserList, user: Seq<char>, chat_id: Seq<char>) -> (
    UserList,
    bool,
) {
    for_user(doc, user, |chats: ChatList| chats_without(chats, chat_id), false)
}

/// Removing every conversation of `user`: the document after, and how many
/// conversations went.
pub open spec fn all_deleted(doc: UserList, user: Seq<char>) -> (UserList, nat) {
    for_user(doc, user, |chats: ChatList| (Seq::<(Seq<char>, ChatView)>::empty(), chats.len()), 0nat)
}

/// Removing the conversations of `user` whose id is among `names`.
pub open spec fn named_deleted(doc: UserList, user: Seq<char>, names: Seq<Seq<char>>) -> (
    UserList,
    nat,
) {
    for_user(doc, user, |chats: ChatList| chats_without_all(chats, names), 0nat)
}

/// Editing the message `message_id` of `user`, in whichever conversation
/// holds it.
pub open spec fn content_edited(
    doc: UserList,
    user: Seq<char>,
    message_id: Seq<char>,
    content: Seq<char>,
    now: Timestamp,
) -> (UserList, Option<MessageView>) {
    for_user(doc, user, |chats: ChatList| chats_edit(chats, message_id, content, now), None)
}

/// Renaming the conversation of `user` that `target` names.
pub open spec fn renamed(doc: UserList, user: Seq<char>, target: Seq<char>, title: Seq<char>) -> (
    UserList,
    Option<Seq<char>>,
) {
    for_user(doc, user, |chats: ChatList| chats_renamed(chats, target, title), None)
}

/// Deleting what `target` names among the conversations of `user`.
pub open spec fn deleted(doc: UserList, user: Seq<char>, target: Seq<char>) -> (
    UserList,
    Option<(DeleteKind, Seq<char>)>,
) {
    for_user(doc, user, |chats: ChatList| chats_deleted(chats, target), None)
}

/// Why an operation of the store changed nothing.
#[derive(Debug)]
pub enum StoreError {
    /// No conversation of the user holds a message with this id.
    MessageNotFound { message_id: String },
    /// Neither a conversation nor a message of the user has this id.
    TargetNotFound { target_id: String },
}

/// A store error as plain values.
pub enum StoreErrorView {
    MessageNotFound { message_id: Seq<char> },
    TargetNotFound { target_id: Seq<char> },
}

impl View for StoreError {
    type V = StoreErrorView;

    open spec fn view(&self) -> StoreErrorView {
        match self {
            StoreError::MessageNotFound { message_id } => StoreErrorView::MessageNotFound {
                message_id: message_id@,
            },
            StoreError::TargetNotFound { target_id } => StoreErrorView::TargetNotFound {
                target_id: target_id@,
            },
        }
    }
}

impl StoreError {
    /// The error in words.
    pub open spec fn text(self) -> Seq<char> {
        match self {
            StoreError::MessageNotFound { message_id } => "Message not found: "@ + message_id@,
            StoreError::TargetNotFound { target_id } => "Target not found: "@ + target_id@,
        }
    }

    /// The error in words.
    pub fn message(&self) -> (text: String)
        ensures
            text@ == self.text(),
    {
        match self {
            StoreError::MessageNotFound { message_id } => {
                let mut text = "Message not found: ".to_owned();
                text.append(message_id.as_str());
                text
            },
            StoreError::TargetNotFound { target_id } => {
                let mut text = "Target not found: ".to_owned();
                text.append(target_id.as_str());
                text
            },
        }
    }
}

/// What a deletion by id reports.
#[derive(Debug)]
pub struct DeleteResult {
    pub deleted_type: String,
    pub target_id: String,
    pub title: Option<String>,
    pub message: String,
}

/// A deletion report as plain values.
pub struct DeleteResultView {
    pub deleted_type: Seq<char>,
    pub target_id: Seq<char>,
    pub title: Option<Seq<char>>,
    pub message: Seq<char>,
}

impl View for DeleteResult {
    type V = DeleteResultView;

    open spec fn view(&self) -> DeleteResultView {
        DeleteResultView {
            deleted_type: self.deleted_type@,
            target_id: self.target_id@,
            title: text_of(self.title),
            message: self.message@,
        }
    }
}

/// The name under which a kind of deletion is reported.
pub open spec fn kind_name(kind: DeleteKind) -> Seq<char> {
    match kind {
        DeleteKind::Conversation => "conversation"@,
        DeleteKind::Message => "message"@,
        DeleteKind::MessageAndConversation => "message_and_now_empty_conversation"@,
    }
}

/// The words with which the report of a kind of deletion begins.
pub open spec fn kind_note(kind: DeleteKind) -> Seq<char> {
    match kind {
        DeleteKind::Conversation => "Deleted conversation: "@,
        DeleteKind::Message => "Deleted message from conversation: "@,
        DeleteKind::MessageAndConversation => "Deleted message and empty conversation: "@,
    }
}

/// The report of a deletion of kind `kind`, asked for under `target`, in
/// the conversation titled `title`.
pub open spec fn report(kind: DeleteKind, target: Seq<char>, title: Seq<char>) -> DeleteResultView {
    DeleteResultView {
        deleted_type: kind_name(kind),
        target_id: target,
        title: Some(title),
        message: kind_note(kind) + title,
    }
}

impl DeleteResult {
    /// Writes the report of a deletion.
    pub fn of(kind: DeleteKind, target: &str, title: String) -> (result: DeleteResult)
        ensures
            result@ == report(kind, target@, title@),
    {
        let (name, note) = match kind {
            DeleteKind::Conversation => ("conversation", "Deleted conversation: "),
            DeleteKind::Message => ("message", "Deleted message from conversation: "),
            DeleteKind::MessageAndConversation => (
                "message_and_now_empty_conversation",
                "Deleted message and empty conversation: ",
            ),
        };
        let mut message = note.to_owned();
        message.append(title.as_str());
        DeleteResult {
            deleted_type: name.to_owned(),
            target_id: target.to_owned(),
            title: Some(title),
            message,
        }
    }

    /// The kind of deletion that the report names.
    pub open spec fn names(self, kind: DeleteKind) -> bool {
        self.deleted_type@ == kind_name(kind)
    }
}

/// After a change to the conversations of the user at `u` alone, the view
/// is the view before with that user's conversations replaced.
pub proof fn lemma_user_replaced(before: MessageData, after: MessageData, u: int)
    requires
        0 <= u < before.users@.len(),
        after.users@.len() == before.users@.len(),
        after.users@[u].0 == before.users@[u].0,
        forall|j: int| 0 <= j < before.users@.len() && j != u ==> after.users@[j] == before.users@[j],
    ensures
        after@ == before@.update(u, (before@[u].0, after.users@[u].1@)),
{
    assert(after@ =~= before@.update(u, (before@[u].0, after.users@[u].1@)));
}

/// The conversation store of one document file.
pub struct MessageManager {
    file_path: String,
}

impl MessageManager {
    /// The path of the document file.
    pub closed spec fn path(&self) -> Seq<char> {
        self.file_path@
    }

    pub fn new(file_path: &str) -> (manager: MessageManager)
        ensures
            manager.path() == file_path@,
    {
        MessageManager { file_path: file_path.to_owned() }
    }

    /// The path of the document file.
    pub fn file_path(&self) -> (path: &str)
        ensures
            path@ == self.path(),
    {
        self.file_path.as_str()
    }

    /// Appends `message_data` to the conversation `chat_id` of the user
    /// `user_id`; the user is entered, and the conversation opened at `now`,
    /// where the document lacks them. The first message of a user gives a
    /// conversation that was never named its title: the first 50 characters
    /// of the message, with an ellipsis behind them if it has more.
    pub fn save_message_at(
        &self,
        db: &mut MessageData,
        user_id: &u64,
        chat_id: &str,
        message_data: ChatMessage,
        now: Timestamp,
    ) -> (stored: ChatMessage)
        ensures
            old(db).wf() ==> final(db).wf(),
            final(db)@ == saved(old(db)@, decimal(*user_id as nat), chat_id@, message_data@, now),
            stored@ == message_data@,
    {
        proof {
            if db.wf() {
                crate::laws::law_ids_stay_distinct(
                    db@,
                    decimal(*user_id as nat),
                    chat_id@,
                    Seq::<char>::empty(),
                    Seq::<char>::empty(),
                    Seq::<Seq<char>>::empty(),
                    message_data@,
                    now,
                );
            }
        }
        let user_key = decimal_string(*user_id);
        let stored = message_data.clone();
        match db.position(user_key.as_str()) {
            Some(u) => {
                db.users[u].1.append_to(chat_id, message_data, now);
                proof {
                    lemma_first_match(ids(old(db)@), user_key@);
                    lemma_user_replaced(*old(db), *db, u as int);
                }
            },
            None => {
                let mut chats = UserConversations::new();
                chats.append_to(chat_id, message_data, now);
                db.users.push((user_key, chats));
                assert(db@ =~= old(db)@.push((user_key@, chats@)));
            },
        }
        stored
    }

    /// `save_message_at` at the time of the call.
    pub fn save_message(
        &self,
        db: &mut MessageData,
        user_id: &u64,
        chat_id: &str,
        message_data: ChatMessage,
    ) -> (stored: ChatMessage)
        ensures
            old(db).wf() ==> final(db).wf(),
            exists|now: Timestamp|
                final(db)@ == #[trigger] saved(
                    old(db)@,
                    decimal(*user_id as nat),
                    chat_id@,
                    message_data@,
                    now,
                ),
            stored@ == message_data@,
    {
        let at = now();
        self.save_message_at(db, user_id, chat_id, message_data, at)
    }

    /// Gives the message `message_id` of the conversation `chat_id` new
    /// content and marks it as edited at `now`. Returns the message as
    /// revised; where there is no such message, nothing, and the document
    /// stays as it was.
    pub fn update_message_at(
        &self,
        db: &mut MessageData,
        user_id: &str,
        chat_id: &str,
        message_id: &str,
        new_content: &str,
        now: Timestamp,
    ) -> (message: Option<ChatMessage>)
        ensures
            old(db).wf() ==> final(db).wf(),
            (final(db)@, message_of(message)) == updated(
                old(db)@,
                user_id@,
                chat_id@,
                message_id@,
                new_content@,
                now,
            ),
    {
        proof {
            if db.wf() {
                crate::laws::law_ids_stay_distinct(
                    db@,
                    user_id@,
                    chat_id@,
                    message_id@,
                    new_content@,
                    Seq::<Seq<char>>::empty(),
                    arbitrary::<MessageView>(),
                    now,
                );
            }
        }
        match db.position(user_id) {
            Some(u) => {
                let message = db.users[u].1.update_message(chat_id, message_id, new_content, now);
                proof {
                    lemma_user_replaced(*old(db), *db, u as int);
                }
                message
            },
            None => None,
        }
    }

    /// `update_message_at` at the time of the call.
    pub fn update_message(
        &self,
        db: &mut MessageData,
        user_id: &str,
        chat_id: &str,
        message_id: &str,
        new_content: &str,
    ) -> (message: Option<ChatMessage>)
        ensures
            old(db).wf() ==> final(db).wf(),
            exists|now: Timestamp|
                (final(db)@, message_of(message)) == #[trigger] updated(
                    old(db)@,
                    user_id@,
                    chat_id@,
                    message_id@,
                    new_content@,
                    now,
                ),
    {
        let at = now();
        self.update_message_at(db, user_id, chat_id, message_id, new_content, at)
    }

    /// Removes the message `message_id` from the conversation `chat_id`,
    /// and says whether a message went.
    pub fn delete_message(
        &self,
        db: &mut MessageData,
        user_id: &str,
        chat_id: &str,
        message_id: &str,
    ) -> (removed: bool)
        ensures
            old(db).wf() ==> final(db).wf(),
            (final(db)@, removed) == message_deleted(old(db)@, user_id@, chat_id@, message_id@),
    {
        proof {
            if db.wf() {
                crate::laws::law_ids_stay_distinct(
                    db@,
                    user_id@,
                    chat_id@,
                    message_id@,
                    Seq::<char>::empty(),
                    Seq::<Seq<char>>::empty(),
                    arbitrary::<MessageView>(),
                    arbitrary::<Timestamp>(),
                );
            }
        }
        match db.position(user_id) {
            Some(u) => {
                let removed = db.users[u].1.delete_message(chat_id, message_id);
                proof {
                    lemma_user_replaced(*old(db), *db, u as int);
                }
                removed
            },
            None => false,
        }
    }

    /// Removes the message `message_id` and every answer of the assistant
    /// to it from the conversation `chat_id`, and says how many messages
    /// went.
    pub fn delete_message_and_responses(
        &self,
        db: &mut MessageData,
        user_id: &str,
        chat_id: &str,
        message_id: &str,
    ) -> (removed: usize)
        ensures
            old(db).wf() ==> final(db).wf(),
            (final(db)@, removed as nat) == thread_deleted(
                old(db)@,
                user_id@,
                chat_id@,
                message_id@,
            ),
    {
        proof {
            if db.wf() {
                crate::laws::law_ids_stay_distinct(
                    db@,
                    user_id@,
                    chat_id@,
                    message_id@,
                    Seq::<char>::empty(),
                    Seq::<Seq<char>>::empty(),
                    arbitrary::<MessageView>(),
                    arbitrary::<Timestamp>(),
                );
            }
        }
        match db.position(user_id) {
            Some(u) => {
                let removed = db.users[u].1.delete_thread(chat_id, message_id);
                proof {
                    lemma_user_replaced(*old(db), *db, u as int);
                }
                removed
            },
            None => 0,
        }
    }

    /// The messages of the user from the earliest to the latest: with
    /// `chat_id`, those of that conversation; without, those of all.
    pub fn get_user_messages(&self, db: &MessageData, user_id: &str, chat_id: Option<&str>) -> (messages:
        Vec<ChatMessage>)
        ensures
            messages_view(messages@) == listed(
                chats_of(db@, user_id@),
                match chat_id {
                    Some(id) => Some(id@),
                    None => None,
                },
            ),
    {
        match db.position(user_id) {
            Some(u) => db.users[u].1.list_messages(chat_id),
            None => UserConversations::new().list_messages(chat_id),
        }
    }

    /// The conversations of the user, the one with the latest message first.
    pub fn get_user_chats(&self, db: &MessageData, user_id: &str) -> (chats: Vec<ChatSummary>)
        ensures
            summaries_view(chats@) == summarized(chats_of(db@, user_id@)),
    {
        match db.position(user_id) {
            Some(u) => db.users[u].1.summaries(),
            None => UserConversations::new().summaries(),
        }
    }

    /// Gives the first answer of the assistant to the message
    /// `user_message_id` new content and marks it as edited at `now`.
    pub fn update_ai_response_at(
        &self,
        db: &mut MessageData,
        user_id: &str,
        chat_id: &str,
        user_message_id: &str,
        new_ai_content: &str,
        now: Timestamp,
    ) -> (message: Option<ChatMessage>)
        ensures
            old(db).wf() ==> final(db).wf(),
            (final(db)@, message_of(message)) == answer_updated(
                old(db)@,
                user_id@,
                chat_id@,
                user_message_id@,
                new_ai_content@,
                now,
            ),
    {
        proof {
            if db.wf() {
                crate::laws::law_ids_stay_distinct(
                    db@,
                    user_id@,
                    chat_id@,
                    user_message_id@,
                    new_ai_content@,
                    Seq::<Seq<char>>::empty(),
                    arbitrary::<MessageView>(),
                    now,
                );
            }
        }
        match db.position(user_id) {
            Some(u) => {
                let message = db.users[u].1.update_answer(
                    chat_id,
                    user_message_id,
                    new_ai_content,
                    now,
                );
                proof {
                    lemma_user_replaced(*old(db), *db, u as int);
                }
                message
            },
            None => None,
        }
    }

    /// `update_ai_response_at` at the time of the call.
    pub fn update_ai_response(
        &self,
        db: &mut MessageData,
        user_id: &str,
        chat_id: &str,
        user_message_id: &str,
        new_ai_content: &str,
    ) -> (message: Option<ChatMessage>)
        ensures
            old(db).wf() ==> final(db).wf(),
            exists|now: Timestamp|
                (final(db)@, message_of(message)) == #[trigger] answer_updated(
                    old(db)@,
                    user_id@,
                    chat_id@,
                    user_message_id@,
                    new_ai_content@,
                    now,
                ),
    {
        let at = now();
        self.update_ai_response_at(db, user_id, chat_id, user_message_id, new_ai_content, at)
    }

    /// Removes the conversation `chat_id`, and says whether it was there.
    pub fn delete_chat(&self, db: &mut MessageData, user_id: &str, chat_id: &str) -> (found: bool)
        ensures
            old(db).wf() ==> final(db).wf(),
            (final(db)@, found) == chat_deleted(old(db)@, user_id@, chat_id@),
    {
        proof {
            if db.wf() {
                crate::laws::law_ids_stay_distinct(
                    db@,
                    user_id@,
                    chat_id@,
                    Seq::<char>::empty(),
                    Seq::<char>::empty(),
                    Seq::<Seq<char>>::empty(),
                    arbitrary::<MessageView>(),
                    arbitrary::<Timestamp>(),
                );
            }
        }
        match db.position(user_id) {
            Some(u) => {
                let found = db.users[u].1.delete_chat(chat_id);
                proof {
                    lemma_user_replaced(*old(db), *db, u as int);
                }
                found
            },
            None => false,
        }
    }

    /// Gives the conversation `chat_id` the title `new_title`, as it is,
    /// and says whether the conversation was there.
    pub fn update_chat_title(
        &self,
        db: &mut MessageData,
        user_id: &str,
        chat_id: &str,
        new_title: &str,
    ) -> (found: bool)
        ensures
            old(db).wf() ==> final(db).wf(),
            (final(db)@, found) == retitled(old(db)@, user_id@, chat_id@, new_title@),
    {
        proof {
            if db.wf() {
                crate::laws::law_ids_stay_distinct(
                    db@,
                    user_id@,
                    chat_id@,
                    Seq::<char>::empty(),
                    new_title@,
                    Seq::<Seq<char>>::empty(),
                    arbitrary::<MessageView>(),
                    arbitrary::<Timestamp>(),
                );
            }
        }
        match db.position(user_id) {
            Some(u) => {
                let found = db.users[u].1.set_title(chat_id, new_title);
                proof {
                    lemma_user_replaced(*old(db), *db, u as int);
                }
                found
            },
            None => false,
        }
    }

    /// Removes every conversation of the user, and says how many went.
    pub fn delete_all_chats(&self, db: &mut MessageData, user_id: &str) -> (removed: usize)
        ensures
            old(db).wf() ==> final(db).wf(),
            (final(db)@, removed as nat) == all_deleted(old(db)@, user_id@),
    {
        proof {
            if db.wf() {
                crate::laws::law_ids_stay_distinct(
                    db@,
                    user_id@,
                    Seq::<char>::empty(),
                    Seq::<char>::empty(),
                    Seq::<char>::empty(),
                    Seq::<Seq<char>>::empty(),
                    arbitrary::<MessageView>(),
                    arbitrary::<Timestamp>(),
                );
            }
        }
        match db.position(user_id) {
            Some(u) => {
                let removed = db.users[u].1.delete_all();
                proof {
                    lemma_user_replaced(*old(db), *db, u as int);
                }
                removed
            },
            None => 0,
        }
    }

    /// Removes the conversations whose id is among `chat_ids`, and says how
    /// many went.
    pub fn delete_multiple_chats(&self, db: &mut MessageData, user_id: &str, chat_ids: &[String]) -> (removed:
        usize)
        ensures
            old(db).wf() ==> final(db).wf(),
            (final(db)@, removed as nat) == named_deleted(
                old(db)@,
                user_id@,
                chat_ids@.map_values(|s: String| s@),
            ),
    {
        proof {
            if db.wf() {
                crate::laws::law_ids_stay_distinct(
                    db@,
                    user_id@,
                    Seq::<char>::empty(),
                    Seq::<char>::empty(),
                    Seq::<char>::empty(),
                    chat_ids@.map_values(|s: String| s@),
                    arbitrary::<MessageView>(),
                    arbitrary::<Timestamp>(),
                );
            }
        }
        match db.position(user_id) {
            Some(u) => {
                let removed = db.users[u].1.delete_named(chat_ids);
                proof {
                    lemma_user_replaced(*old(db), *db, u as int);
                }
                removed
            },
            None => 0,
        }
    }

    /// Removes the conversation of the session `session_id`.
    pub fn delete_session(&self, db: &mut MessageData, user_id: &str, session_id: &str) -> (found: bool)
        ensures
            old(db).wf() ==> final(db).wf(),
            (final(db)@, found) == chat_deleted(old(db)@, user_id@, session_id@),
    {
        self.delete_chat(db, user_id, session_id)
    }

    /// Gives the message `message_id` new content and marks it as edited at
    /// `now`, in whichever conversation of the user holds it. Fails, and
    /// leaves the document as it was, where none does.
    pub fn edit_message_content_at(
        &self,
        db: &mut MessageData,
        user_id: &str,
        message_id: &str,
        new_content: &str,
        now: Timestamp,
    ) -> (done: Result<(), StoreError>)
        ensures
            old(db).wf() ==> final(db).wf(),
            final(db)@ == content_edited(old(db)@, user_id@, message_id@, new_content@, now).0,
            done is Ok <==> content_edited(old(db)@, user_id@, message_id@, new_content@, now).1
                is Some,
            done matches Err(e) ==> e@ == (StoreErrorView::MessageNotFound {
                message_id: message_id@,
            }),
            done is Err ==> final(db)@ == old(db)@,
    {
        proof {
            if db.wf() {
                crate::laws::law_ids_stay_distinct(
                    db@,
                    user_id@,
                    Seq::<char>::empty(),
                    message_id@,
                    new_content@,
                    Seq::<Seq<char>>::empty(),
                    arbitrary::<MessageView>(),
                    now,
                );
            }
        }
        let edited = match db.position(user_id) {
            Some(u) => {
                let message = db.users[u].1.edit_message(message_id, new_content, now);
                proof {
                    lemma_user_replaced(*old(db), *db, u as int);
                    if message is None {
                        assert(db@ =~= old(db)@);
                    }
                }
                message
            },
            None => None,
        };
        match edited {
            Some(_) => Ok(()),
            None => Err(StoreError::MessageNotFound { message_id: message_id.to_owned() }),
        }
    }

    /// `edit_message_content_at` at the time of the call.
    pub fn edit_message_content(
        &self,
        db: &mut MessageData,
        user_id: &str,
        message_id: &str,
        new_content: &str,
    ) -> (done: Result<(), StoreError>)
        ensures
            old(db).wf() ==> final(db).wf(),
            exists|now: Timestamp|
                {
                    let outcome = #[trigger] content_edited(
                        old(db)@,
                        user_id@,
                        message_id@,
                        new_content@,
                        now,
                    );
                    final(db)@ == outcome.0 && (done is Ok <==> outcome.1 is Some)
                },
            done matches Err(e) ==> e@ == (StoreErrorView::MessageNotFound {
                message_id: message_id@,
            }),
            done is Err ==> final(db)@ == old(db)@,
    {
        let at = now();
        self.edit_message_content_at(db, user_id, message_id, new_content, at)
    }

    /// Renames the conversation that `target_id` names: the conversation
    /// with that id, else the first conversation that holds a message with
    /// that id. The title is cut to 30 characters, with an ellipsis behind
    /// them if it had more. Returns the title as stored; fails, and leaves
    /// the document as it was, where `target_id` names nothing.
    pub fn edit_title(&self, db: &mut MessageData, user_id: &str, target_id: &str, new_title: &str) -> (stored:
        Result<String, StoreError>)
        ensures
            old(db).wf() ==> final(db).wf(),
            final(db)@ == renamed(old(db)@, user_id@, target_id@, new_title@).0,
            match stored {
                Ok(title) => renamed(old(db)@, user_id@, target_id@, new_title@).1 == Some(title@),
                Err(e) => renamed(old(db)@, user_id@, target_id@, new_title@).1 is None && e@ == (
                StoreErrorView::TargetNotFound { target_id: target_id@ }) && final(db)@ == old(db)@,
            },
    {
        proof {
            if db.wf() {
                crate::laws::law_ids_stay_distinct(
                    db@,
                    user_id@,
                    Seq::<char>::empty(),
                    target_id@,
                    new_title@,
                    Seq::<Seq<char>>::empty(),
                    arbitrary::<MessageView>(),
                    arbitrary::<Timestamp>(),
                );
            }
        }
        let stored = match db.position(user_id) {
            Some(u) => {
                let stored = db.users[u].1.rename(target_id, new_title);
                proof {
                    lemma_user_replaced(*old(db), *db, u as int);
                }
                stored
            },
            None => None,
        };
        match stored {
            Some(title) => Ok(title),
            None => Err(StoreError::TargetNotFound { target_id: target_id.to_owned() }),
        }
    }

    /// Deletes what `target_id` names: the conversation with that id; else
    /// the first message with that id, and with it its conversation where
    /// the message was the last one in it. Fails, and leaves the document
    /// as it was, where `target_id` names nothing.
    pub fn delete_by_id(&self, db: &mut MessageData, user_id: &str, target_id: &str) -> (result: Result<
        DeleteResult,
        StoreError,
    >)
        ensures
            old(db).wf() ==> final(db).wf(),
            final(db)@ == deleted(old(db)@, user_id@, target_id@).0,
            match result {
                Ok(r) => match deleted(old(db)@, user_id@, target_id@).1 {
                    Some((kind, title)) => r@ == report(kind, target_id@, title),
                    None => false,
                },
                Err(e) => deleted(old(db)@, user_id@, target_id@).1 is None && e@ == (
                StoreErrorView::TargetNotFound { target_id: target_id@ }) && final(db)@ == old(db)@,
            },
    {
        proof {
            if db.wf() {
                crate::laws::law_ids_stay_distinct(
                    db@,
                    user_id@,
                    Seq::<char>::empty(),
                    target_id@,
                    Seq::<char>::empty(),
                    Seq::<Seq<char>>::empty(),
                    arbitrary::<MessageView>(),
                    arbitrary::<Timestamp>(),
                );
            }
        }
        let gone = match db.position(user_id) {
            Some(u) => {
                let gone = db.users[u].1.delete(target_id);
                proof {
                    lemma_user_replaced(*old(db), *db, u as int);
                }
                gone
            },
            None => None,
        };
        match gone {
            Some((kind, title)) => Ok(DeleteResult::of(kind, target_id, title)),
            None => Err(StoreError::TargetNotFound { target_id: target_id.to_owned() }),
        }
    }

    /// Says what follows the look `attempt`, counted from 0, at the text of
    /// the document file, for a reader that wants the titles of the
    /// conversations of the user `user_id`: another look after a pause, or
    /// the titles, the conversation that was opened last first.
    pub fn get_all_conversation_titles(
        &self,
        policy: &RetryPolicy,
        attempt: usize,
        look: &Look,
        user_id: u64,
    ) -> (next: Next)
        ensures
            next@ == after_look(*policy, attempt, look@, decimal(user_id as nat)),
    {
        judge_look(policy, attempt, look, user_id)
    }

    /// Says what follows the look `attempt`, counted from 0, at the
    /// document file, for an operation with the access `access`: another
    /// look after a pause, the document to work on, or the failure of the
    /// operation.
    pub fn open_document(&self, policy: &RetryPolicy, attempt: usize, look: &Look, access: Access) -> (next:
        Opening)
        ensures
            next@ == after_document_look(*policy, attempt, look@, access),
    {
        open_document(policy, attempt, look, access)
    }

    /// The messages of all conversations of the user from the earliest to
    /// the latest.
    pub fn get_all_user_messages(&self, db: &MessageData, user_id: &str) -> (messages: Vec<ChatMessage>)
        ensures
            messages_view(messages@) == listed(chats_of(db@, user_id@), None),
    {
        self.get_user_messages(db, user_id, None)
    }
}

} // verus!
