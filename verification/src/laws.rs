//! What holds of the conversation store as a whole.
use vstd::prelude::*;
use crate::chat_ops::{answers, appended, chat_edit, chat_remove_thread, fresh_chat, thread_flags};
use crate::lookup::{
    distinct, first_match, first_true, lemma_first_match, lemma_first_match_is,
    lemma_first_match_none, lemma_first_true,
};
use crate::model::{
    get, ids, message_ids, put, well_keyed, ChatList, ChatView, MessageView, UserList,
};
use crate::order::{arranged, is_arrangement, lemma_order_of, order_of};
use crate::select::{flagged_upto, lemma_unflagged_members, lemma_unflagged_none, unflagged_upto};
use crate::store::{
    all_deleted, answer_updated, chat_deleted, chats_of, content_edited, deleted, for_user,
    message_deleted, named_deleted, renamed, retitled, saved, thread_deleted, updated,
};
use crate::text::clipped;
use crate::time::Timestamp;
use crate::user_ops::{
    by_time, chats_appended, chats_deleted, chats_edit, chats_renamed, chats_without,
    chats_without_all, for_chat, gathered, gathered_upto, holder_flags, holds, listed,
    message_ranks, named_flags, recency_rank, summarized, summary_of, time_rank, DeleteKind,
    SummaryView,
};

verus! {

/// The conversation `chat_id` of `user`.
pub open spec fn chat_at(doc: UserList, user: Seq<char>, chat_id: Seq<char>) -> Option<ChatView> {
    get(chats_of(doc, user), chat_id)
}

/// The messages of the conversation `chat_id` of `user`; none where there
/// is no such conversation.
pub open spec fn messages_at(doc: UserList, user: Seq<char>, chat_id: Seq<char>) -> Seq<MessageView> {
    match chat_at(doc, user, chat_id) {
        Some(chat) => chat.messages,
        None => Seq::empty(),
    }
}

/// `doc` after the messages of `batch` were appended, one call after the
/// other, to the conversation `chat_id` of `user`; the call for the message
/// at `i` was made at `times[i]`.
pub open spec fn saved_all(
    doc: UserList,
    user: Seq<char>,
    chat_id: Seq<char>,
    batch: Seq<MessageView>,
    times: Seq<Timestamp>,
) -> UserList
    decreases batch.len(),
{
    if batch.len() == 0 {
        doc
    } else {
        saved(
            saved_all(doc, user, chat_id, batch.drop_last(), times),
            user,
            chat_id,
            batch.last(),
            times[batch.len() - 1],
        )
    }
}

/// What was put under a key is what is found under it.
pub proof fn lemma_get_put<V>(entries: Seq<(Seq<char>, V)>, key: Seq<char>, value: V)
    ensures
        get(put(entries, key, value), key) == Some(value),
        distinct(ids(entries)) ==> distinct(ids(put(entries, key, value))),
{
    lemma_first_match(ids(entries), key);
    let after = put(entries, key, value);
    match first_match(ids(entries), key) {
        Some(i) => {
            assert(ids(after) =~= ids(entries));
            lemma_first_match_is(ids(after), key, i);
        },
        None => {
            assert(ids(after) =~= ids(entries).push(key));
            lemma_first_match_is(ids(after), key, entries.len() as int);
        },
    }
}

/// Saving a message appends it to its conversation and keeps ids distinct.
pub proof fn lemma_saved(
    doc: UserList,
    user: Seq<char>,
    chat_id: Seq<char>,
    message: MessageView,
    now: Timestamp,
)
    ensures
        chat_at(saved(doc, user, chat_id, message, now), user, chat_id) == Some(
            appended(
                match chat_at(doc, user, chat_id) {
                    Some(chat) => chat,
                    None => fresh_chat(now),
                },
                message,
            ),
        ),
        messages_at(saved(doc, user, chat_id, message, now), user, chat_id) == messages_at(
            doc,
            user,
            chat_id,
        ).push(message),
        well_keyed(doc) ==> well_keyed(saved(doc, user, chat_id, message, now)),
{
    let chats = chats_of(doc, user);
    let chat = match get(chats, chat_id) {
        Some(chat) => chat,
        None => fresh_chat(now),
    };
    let new_chats = chats_appended(chats, chat_id, message, now);
    lemma_get_put(chats, chat_id, appended(chat, message));
    lemma_get_put(doc, user, new_chats);
    let after = saved(doc, user, chat_id, message, now);
    assert(chats_of(after, user) == new_chats);
    if well_keyed(doc) {
        lemma_first_match(ids(doc), user);
        assert forall|u: int| 0 <= u < after.len() implies distinct(ids(#[trigger] after[u].1)) by {
            match first_match(ids(doc), user) {
                Some(i) => {
                    if u != i {
                        assert(after[u] == doc[u]);
                    }
                },
                None => {
                    if u < doc.len() {
                        assert(after[u] == doc[u]);
                    } else {
                        assert(chats =~= Seq::<(Seq<char>, ChatView)>::empty());
                    }
                },
            }
        }
    }
}

/// Messages appended one after the other stand behind those that were
/// there, in the order of the calls.
pub proof fn lemma_saved_all(
    doc: UserList,
    user: Seq<char>,
    chat_id: Seq<char>,
    batch: Seq<MessageView>,
    times: Seq<Timestamp>,
)
    ensures
        messages_at(saved_all(doc, user, chat_id, batch, times), user, chat_id) == messages_at(
            doc,
            user,
            chat_id,
        ) + batch,
        well_keyed(doc) ==> well_keyed(saved_all(doc, user, chat_id, batch, times)),
    decreases batch.len(),
{
    if batch.len() == 0 {
        assert(messages_at(doc, user, chat_id) + batch =~= messages_at(doc, user, chat_id));
    } else {
        let before = saved_all(doc, user, chat_id, batch.drop_last(), times);
        lemma_saved_all(doc, user, chat_id, batch.drop_last(), times);
        lemma_saved(before, user, chat_id, batch.last(), times[batch.len() - 1]);
        assert((messages_at(doc, user, chat_id) + batch.drop_last()).push(batch.last())
            =~= messages_at(doc, user, chat_id) + batch);
    }
}

/// Among conversations with distinct ids, gathering the conversation at `c`
/// alone gives its messages.
pub proof fn lemma_gathered_one(chats: ChatList, c: int, n: int)
    requires
        distinct(ids(chats)),
        0 <= c < chats.len(),
        0 <= n <= chats.len(),
    ensures
        gathered_upto(chats, Some(chats[c].0), n) == if c < n {
            chats[c].1.messages
        } else {
            Seq::empty()
        },
    decreases n,
{
    if n > 0 {
        lemma_gathered_one(chats, c, n - 1);
        if n - 1 != c {
            assert(ids(chats)[n - 1] != ids(chats)[c]);
        } else {
            assert(Seq::<MessageView>::empty() + chats[c].1.messages =~= chats[c].1.messages);
        }
    }
}

/// Where no conversation has the id, gathering by it gives nothing.
pub proof fn lemma_gathered_none(chats: ChatList, id: Seq<char>, n: int)
    requires
        0 <= n <= chats.len(),
        forall|j: int| 0 <= j < chats.len() ==> ids(chats)[j] != id,
    ensures
        gathered_upto(chats, Some(id), n) == Seq::<MessageView>::empty(),
    decreases n,
{
    if n > 0 {
        lemma_gathered_none(chats, id, n - 1);
        assert(ids(chats)[n - 1] != id);
    }
}

/// A later instant has a greater rank, and the same instant the same rank.
pub proof fn lemma_time_rank(a: Timestamp, b: Timestamp)
    ensures
        a.at_or_before(b) <==> time_rank(a) <= time_rank(b),
        a == b <==> time_rank(a) == time_rank(b),
{
}

/// A listing by time holds every message exactly once: it is the messages
/// read in an order that names each position once. Along it the instants
/// never fall, and messages of one instant keep their order.
pub proof fn law_listing_by_time(messages: Seq<MessageView>)
    ensures
        by_time(messages) == arranged(messages, order_of(message_ranks(messages))),
        is_arrangement(order_of(message_ranks(messages)), messages.len()),
        by_time(messages).len() == messages.len(),
        forall|a: int, b: int|
            0 <= a < b < messages.len() ==> (#[trigger] by_time(messages)[a]).timestamp.at_or_before(
                (#[trigger] by_time(messages)[b]).timestamp,
            ),
        forall|i: int| 0 <= i < messages.len() ==> by_time(messages).contains(#[trigger] messages[i]),
{
    let ranks = message_ranks(messages);
    let order = order_of(ranks);
    lemma_order_of(ranks);
    let listing = by_time(messages);
    assert forall|a: int, b: int| 0 <= a < b < messages.len() implies (#[trigger] listing[a]).timestamp.at_or_before(
        (#[trigger] listing[b]).timestamp,
    ) by {
        assert(ranks[order[a]] <= ranks[order[b]]);
        lemma_time_rank(messages[order[a]].timestamp, messages[order[b]].timestamp);
    }
    assert forall|i: int| 0 <= i < messages.len() implies listing.contains(#[trigger] messages[i]) by {
        assert(order.contains(i));
        let k = choose|k: int| 0 <= k < order.len() && order[k] == i;
        assert(listing[k] == messages[i]);
    }
}

/// After any number of messages were appended to a conversation, one call
/// after the other, the listing of that conversation holds each message
/// that the conversation held before and each appended message exactly
/// once, from the earliest to the latest.
pub proof fn law_appended_messages_are_listed(
    doc: UserList,
    user: Seq<char>,
    chat_id: Seq<char>,
    batch: Seq<MessageView>,
    times: Seq<Timestamp>,
)
    requires
        well_keyed(doc),
    ensures
        ({
            let after = saved_all(doc, user, chat_id, batch, times);
            let all = messages_at(doc, user, chat_id) + batch;
            let listing = listed(chats_of(after, user), Some(chat_id));
            &&& listing == by_time(all)
            &&& listing.len() == all.len()
            &&& is_arrangement(order_of(message_ranks(all)), all.len())
            &&& listing == arranged(all, order_of(message_ranks(all)))
            &&& forall|i: int| 0 <= i < batch.len() ==> listing.contains(#[trigger] batch[i])
            &&& forall|a: int, b: int|
                0 <= a < b < listing.len() ==> (#[trigger] listing[a]).timestamp.at_or_before(
                    (#[trigger] listing[b]).timestamp,
                )
        }),
{
    let after = saved_all(doc, user, chat_id, batch, times);
    let all = messages_at(doc, user, chat_id) + batch;
    lemma_saved_all(doc, user, chat_id, batch, times);
    let chats = chats_of(after, user);
    lemma_first_match(ids(after), user);
    lemma_first_match(ids(chats), chat_id);
    assert(distinct(ids(chats))) by {
        match first_match(ids(after), user) {
            Some(u) => {
                assert(chats == after[u].1);
            },
            None => {},
        }
    }
    match first_match(ids(chats), chat_id) {
        Some(c) => {
            lemma_gathered_one(chats, c, chats.len() as int);
        },
        None => {
            lemma_gathered_none(chats, chat_id, chats.len() as int);
        },
    }
    assert(gathered(chats, Some(chat_id)) == all);
    law_listing_by_time(all);
    let listing = by_time(all);
    assert forall|i: int| 0 <= i < batch.len() implies listing.contains(#[trigger] batch[i]) by {
        assert(all[messages_at(doc, user, chat_id).len() + i] == batch[i]);
    }
}

/// The first message of a user, appended to a conversation that is opened
/// by that very call, gives the conversation its title: the first 50
/// characters of the message, with an ellipsis where it has more.
pub proof fn law_first_user_message_titles(
    doc: UserList,
    user: Seq<char>,
    chat_id: Seq<char>,
    message: MessageView,
    now: Timestamp,
)
    requires
        chat_at(doc, user, chat_id) is None,
        message.role == "user"@,
    ensures
        chat_at(saved(doc, user, chat_id, message, now), user, chat_id).unwrap().title == clipped(
            message.content,
            50,
        ),
{
    lemma_saved(doc, user, chat_id, message, now);
}

/// A message appended to a conversation that holds a message already
/// leaves the title as it is.
pub proof fn law_later_message_keeps_title(
    doc: UserList,
    user: Seq<char>,
    chat_id: Seq<char>,
    message: MessageView,
    now: Timestamp,
)
    requires
        chat_at(doc, user, chat_id) is Some,
        chat_at(doc, user, chat_id).unwrap().messages.len() > 0,
    ensures
        chat_at(saved(doc, user, chat_id, message, now), user, chat_id).unwrap().title == chat_at(
            doc,
            user,
            chat_id,
        ).unwrap().title,
{
    lemma_saved(doc, user, chat_id, message, now);
}

/// Editing a message that the conversation does not hold, or in a
/// conversation that is not there, returns nothing and leaves the document
/// as it is.
pub proof fn law_edit_of_missing_message(
    doc: UserList,
    user: Seq<char>,
    chat_id: Seq<char>,
    message_id: Seq<char>,
    content: Seq<char>,
    now: Timestamp,
)
    requires
        first_match(message_ids(messages_at(doc, user, chat_id)), message_id) is None,
    ensures
        updated(doc, user, chat_id, message_id, content, now) == (doc, None::<MessageView>),
{
    let outcome = updated(doc, user, chat_id, message_id, content, now);
    lemma_first_match(ids(doc), user);
    match first_match(ids(doc), user) {
        Some(u) => {
            let chats = doc[u].1;
            lemma_first_match(ids(chats), chat_id);
            match first_match(ids(chats), chat_id) {
                Some(c) => {
                    assert(chat_edit(chats[c].1, message_id, content, now) == (chats[c].1, None::<MessageView>));
                    assert(chats.update(c, (chats[c].0, chats[c].1)) =~= chats);
                },
                None => {},
            }
            assert(doc.update(u, (doc[u].0, chats)) =~= doc);
        },
        None => {},
    }
}

/// Editing, by its id alone, a message that no conversation of the user
/// holds returns nothing and leaves the document as it is.
pub proof fn law_edit_of_unknown_message(
    doc: UserList,
    user: Seq<char>,
    message_id: Seq<char>,
    content: Seq<char>,
    now: Timestamp,
)
    requires
        forall|c: int|
            0 <= c < chats_of(doc, user).len() ==> !holds(
                (#[trigger] chats_of(doc, user)[c]).1,
                message_id,
            ),
    ensures
        content_edited(doc, user, message_id, content, now) == (doc, None::<MessageView>),
{
    lemma_first_match(ids(doc), user);
    match first_match(ids(doc), user) {
        Some(u) => {
            let chats = doc[u].1;
            lemma_first_true(holder_flags(chats, message_id));
            assert(first_true(holder_flags(chats, message_id)) is None) by {
                if first_true(holder_flags(chats, message_id)) is Some {
                    let c = first_true(holder_flags(chats, message_id)).unwrap();
                    assert(holder_flags(chats, message_id)[c]);
                    assert(chats_of(doc, user) == chats);
                    assert(!holds(chats_of(doc, user)[c].1, message_id));
                }
            }
            assert(doc.update(u, (doc[u].0, chats)) =~= doc);
        },
        None => {},
    }
}

/// With exactly the flags at `a` and `b` set among the first `n`, two
/// flags are set.
pub proof fn lemma_flagged_two(flags: Seq<bool>, n: int, a: int, b: int)
    requires
        0 <= a < b < n <= flags.len(),
        forall|i: int| 0 <= i < n ==> flags[i] == (i == a || i == b),
    ensures
        flagged_upto(flags, n) == 2,
    decreases n,
{
    if n - 1 == b {
        lemma_flagged_one(flags, n - 1, a);
    } else {
        lemma_flagged_two(flags, n - 1, a, b);
    }
}

/// With exactly the flags at `a` and `b` set among the first `n`, exactly
/// those two items go.
pub proof fn lemma_unflagged_two<A>(items: Seq<A>, flags: Seq<bool>, n: int, a: int, b: int)
    requires
        0 <= a < b < n <= items.len(),
        forall|i: int| 0 <= i < n ==> flags[i] == (i == a || i == b),
    ensures
        unflagged_upto(items, flags, n) == items.take(n).remove(b).remove(a),
    decreases n,
{
    if n - 1 == b {
        crate::select::lemma_unflagged_one(items, flags, n - 1, a);
        assert(items.take(n).remove(b) =~= items.take(n - 1));
    } else {
        lemma_unflagged_two(items, flags, n - 1, a, b);
        assert(items.take(n).remove(b).remove(a) =~= items.take(n - 1).remove(b).remove(a).push(
            items[n - 1],
        ));
    }
}

/// With exactly the flag at `a` set among the first `n`, one flag is set.
pub proof fn lemma_flagged_one(flags: Seq<bool>, n: int, a: int)
    requires
        0 <= a < n <= flags.len(),
        forall|i: int| 0 <= i < n ==> flags[i] == (i == a),
    ensures
        flagged_upto(flags, n) == 1,
    decreases n,
{
    if n - 1 == a {
        lemma_unflagged_none(flags, flags, n - 1);
    } else {
        lemma_flagged_one(flags, n - 1, a);
    }
}

/// Removing a message together with its answers removes exactly two
/// messages where exactly one other message answers it.
pub proof fn law_message_and_its_answer_go(chat: ChatView, id: Seq<char>, at: int, answer: int)
    requires
        distinct(message_ids(chat.messages)),
        0 <= at < chat.messages.len(),
        0 <= answer < chat.messages.len(),
        at != answer,
        chat.messages[at].message_id == id,
        forall|j: int|
            0 <= j < chat.messages.len() ==> answers(#[trigger] chat.messages[j], id) == (j
                == answer),
    ensures
        chat_remove_thread(chat, id).1 == 2,
        chat_remove_thread(chat, id).0.messages.len() == chat.messages.len() - 2,
        chat_remove_thread(chat, id).0.messages == if at < answer {
            chat.messages.remove(answer).remove(at)
        } else {
            chat.messages.remove(at).remove(answer)
        },
        chat_remove_thread(chat, id).0.title == chat.title,
{
    let flags = thread_flags(chat.messages, id);
    assert forall|i: int| 0 <= i < flags.len() implies flags[i] == (i == at || i == answer) by {
        if i != at {
            assert(message_ids(chat.messages)[i] != message_ids(chat.messages)[at]);
        }
        assert(answers(chat.messages[i], id) == (i == answer));
    }
    assert(chat.messages.take(chat.messages.len() as int) =~= chat.messages);
    if at < answer {
        lemma_flagged_two(flags, flags.len() as int, at, answer);
        lemma_unflagged_two(chat.messages, flags, flags.len() as int, at, answer);
    } else {
        lemma_flagged_two(flags, flags.len() as int, answer, at);
        lemma_unflagged_two(chat.messages, flags, flags.len() as int, answer, at);
    }
    crate::select::lemma_unflagged_len(chat.messages, flags, chat.messages.len() as int);
}

/// Removing a message together with its answers removes exactly one
/// message where no message answers it.
pub proof fn law_message_without_answer_goes_alone(chat: ChatView, id: Seq<char>, at: int)
    requires
        distinct(message_ids(chat.messages)),
        0 <= at < chat.messages.len(),
        chat.messages[at].message_id == id,
        forall|j: int| 0 <= j < chat.messages.len() ==> !answers(#[trigger] chat.messages[j], id),
    ensures
        chat_remove_thread(chat, id).1 == 1,
        chat_remove_thread(chat, id).0.messages == chat.messages.remove(at),
{
    let flags = thread_flags(chat.messages, id);
    assert forall|i: int| 0 <= i < flags.len() implies flags[i] == (i == at) by {
        if i != at {
            assert(message_ids(chat.messages)[i] != message_ids(chat.messages)[at]);
        }
        assert(!answers(chat.messages[i], id));
    }
    crate::select::lemma_unflagged_one(chat.messages, flags, flags.len() as int, at);
    assert(chat.messages.take(chat.messages.len() as int) =~= chat.messages);
}

/// Deleting, by its id, the only message of a conversation deletes the
/// conversation with it and reports so, and no listing of conversations
/// names the conversation afterwards.
pub proof fn law_last_message_takes_conversation(chats: ChatList, c: int, target: Seq<char>)
    requires
        distinct(ids(chats)),
        0 <= c < chats.len(),
        chats[c].1.messages.len() == 1,
        chats[c].1.messages[0].message_id == target,
        forall|j: int| 0 <= j < chats.len() ==> (#[trigger] chats[j]).0 != target,
        forall|j: int| 0 <= j < chats.len() && j != c ==> !holds((#[trigger] chats[j]).1, target),
    ensures
        chats_deleted(chats, target).1 == Some(
            (DeleteKind::MessageAndConversation, chats[c].1.title),
        ),
        chats_deleted(chats, target).0 == chats.remove(c),
        forall|k: int|
            0 <= k < summarized(chats_deleted(chats, target).0).len() ==> (#[trigger] summarized(
                chats_deleted(chats, target).0,
            )[k]).id != chats[c].0,
{
    assert forall|j: int| 0 <= j < chats.len() implies ids(chats)[j] != target by {
        assert(chats[j].0 != target);
    }
    lemma_first_match_none(ids(chats), target);
    let ids_c = message_ids(chats[c].1.messages);
    lemma_first_match_is(ids_c, target, 0);
    let flags = holder_flags(chats, target);
    lemma_first_true(flags);
    assert(flags[c]);
    assert(first_true(flags) == Some(c)) by {
        let f = first_true(flags).unwrap();
        if f != c {
            assert(holds(chats[f].1, target));
        }
    }
    assert(chats[c].1.messages.remove(0).len() == 0);
    let after = chats.remove(c);
    let all = after.map_values(|e: (Seq<char>, ChatView)| summary_of(e));
    let ranks = all.map_values(|s: SummaryView| recency_rank(s.last_message));
    lemma_order_of(ranks);
    let order = order_of(ranks);
    assert forall|k: int| 0 <= k < summarized(after).len() implies (#[trigger] summarized(after)[k]).id
        != chats[c].0 by {
        let i = order[k];
        assert(0 <= i < after.len());
        assert(summarized(after)[k] == all[i]);
        if i < c {
            assert(after[i] == chats[i]);
            assert(ids(chats)[i] != ids(chats)[c]);
        } else {
            assert(after[i] == chats[i + 1]);
            assert(ids(chats)[i + 1] != ids(chats)[c]);
        }
    }
}

/// Replacing the value of an entry keeps the keys as they are.
pub proof fn lemma_update_keeps_ids<V>(entries: Seq<(Seq<char>, V)>, i: int, value: V)
    requires
        0 <= i < entries.len(),
    ensures
        ids(entries.update(i, (entries[i].0, value))) == ids(entries),
{
    assert(ids(entries.update(i, (entries[i].0, value))) =~= ids(entries));
}

/// Removing an entry keeps distinct keys distinct.
pub proof fn lemma_remove_keeps_distinct<V>(entries: Seq<(Seq<char>, V)>, i: int)
    requires
        0 <= i < entries.len(),
        distinct(ids(entries)),
    ensures
        distinct(ids(entries.remove(i))),
{
    let after = entries.remove(i);
    assert forall|a: int, b: int| 0 <= a < b < after.len() implies ids(after)[a] != ids(after)[b] by {
        let x = if a < i {
            a
        } else {
            a + 1
        };
        let y = if b < i {
            b
        } else {
            b + 1
        };
        assert(ids(entries)[x] != ids(entries)[y]);
    }
}

/// Dropping flagged entries keeps distinct keys distinct.
pub proof fn lemma_unflagged_keeps_distinct<V>(entries: Seq<(Seq<char>, V)>, flags: Seq<bool>, n: int)
    requires
        0 <= n <= entries.len(),
        distinct(ids(entries)),
    ensures
        distinct(ids(unflagged_upto(entries, flags, n))),
    decreases n,
{
    if n > 0 {
        lemma_unflagged_keeps_distinct(entries, flags, n - 1);
        lemma_unflagged_members(entries, flags, n - 1);
        let before = unflagged_upto(entries, flags, n - 1);
        let after = unflagged_upto(entries, flags, n);
        if !flags[n - 1] {
            assert forall|a: int, b: int| 0 <= a < b < after.len() implies ids(after)[a] != ids(
                after,
            )[b] by {
                if b < before.len() {
                    assert(ids(before)[a] != ids(before)[b]);
                } else {
                    let i = choose|i: int| 0 <= i < n - 1 && !flags[i] && entries[i] == before[a];
                    assert(ids(entries)[i] != ids(entries)[n - 1]);
                }
            }
        }
    }
}

/// An operation on one conversation keeps the ids of the conversations.
pub proof fn lemma_for_chat_keeps_ids<R>(
    chats: ChatList,
    chat_id: Seq<char>,
    op: spec_fn(ChatView) -> (ChatView, R),
    absent: R,
)
    ensures
        ids(for_chat(chats, chat_id, op, absent).0) == ids(chats),
{
    lemma_first_match(ids(chats), chat_id);
    match first_match(ids(chats), chat_id) {
        Some(c) => {
            lemma_update_keeps_ids(chats, c, op(chats[c].1).0);
        },
        None => {},
    }
}

/// An operation on the conversations of one user that keeps their ids
/// distinct keeps the document well keyed.
pub proof fn lemma_for_user_keeps<R>(
    doc: UserList,
    user: Seq<char>,
    op: spec_fn(ChatList) -> (ChatList, R),
    absent: R,
)
    requires
        well_keyed(doc),
        forall|u: int| 0 <= u < doc.len() ==> distinct(ids(op(#[trigger] doc[u].1).0)),
    ensures
        well_keyed(for_user(doc, user, op, absent).0),
{
    lemma_first_match(ids(doc), user);
    match first_match(ids(doc), user) {
        Some(u) => {
            let after = for_user(doc, user, op, absent).0;
            lemma_update_keeps_ids(doc, u, op(doc[u].1).0);
            assert forall|k: int| 0 <= k < after.len() implies distinct(ids(#[trigger] after[k].1)) by {
                if k != u {
                    assert(after[k] == doc[k]);
                } else {
                    assert(distinct(ids(op(doc[u].1).0)));
                }
            }
        },
        None => {},
    }
}

/// The operations on the conversations of one user keep their ids
/// distinct.
pub proof fn lemma_chats_stay_distinct(
    chats: ChatList,
    id: Seq<char>,
    content: Seq<char>,
    names: Seq<Seq<char>>,
    now: Timestamp,
)
    requires
        distinct(ids(chats)),
    ensures
        distinct(ids(chats_without(chats, id).0)),
        distinct(ids(chats_without_all(chats, names).0)),
        distinct(ids(chats_edit(chats, id, content, now).0)),
        distinct(ids(chats_renamed(chats, id, content).0)),
        distinct(ids(chats_deleted(chats, id).0)),
{
    lemma_first_match(ids(chats), id);
    lemma_first_true(holder_flags(chats, id));
    match first_match(ids(chats), id) {
        Some(c) => {
            lemma_remove_keeps_distinct(chats, c);
            lemma_update_keeps_ids(
                chats,
                c,
                crate::chat_ops::with_title(chats[c].1, clipped(content, 30)),
            );
        },
        None => {},
    }
    match first_true(holder_flags(chats, id)) {
        Some(c) => {
            lemma_remove_keeps_distinct(chats, c);
            lemma_update_keeps_ids(chats, c, chat_edit(chats[c].1, id, content, now).0);
            lemma_update_keeps_ids(
                chats,
                c,
                crate::chat_ops::with_title(chats[c].1, clipped(content, 30)),
            );
            let rest = chats[c].1.messages.remove(
                first_match(message_ids(chats[c].1.messages), id).unwrap(),
            );
            lemma_update_keeps_ids(chats, c, crate::chat_ops::with_messages(chats[c].1, rest));
        },
        None => {},
    }
    lemma_unflagged_keeps_distinct(chats, named_flags(chats, names), chats.len() as int);
}

/// Every operation of the store keeps a document well keyed: no user id
/// occurs twice in it afterwards, and no conversation id among the
/// conversations of one user.
pub proof fn law_ids_stay_distinct(
    doc: UserList,
    user: Seq<char>,
    chat_id: Seq<char>,
    id: Seq<char>,
    content: Seq<char>,
    names: Seq<Seq<char>>,
    message: MessageView,
    now: Timestamp,
)
    requires
        well_keyed(doc),
    ensures
        well_keyed(saved(doc, user, chat_id, message, now)),
        well_keyed(updated(doc, user, chat_id, id, content, now).0),
        well_keyed(answer_updated(doc, user, chat_id, id, content, now).0),
        well_keyed(message_deleted(doc, user, chat_id, id).0),
        well_keyed(thread_deleted(doc, user, chat_id, id).0),
        well_keyed(retitled(doc, user, chat_id, content).0),
        well_keyed(chat_deleted(doc, user, chat_id).0),
        well_keyed(all_deleted(doc, user).0),
        well_keyed(named_deleted(doc, user, names).0),
        well_keyed(content_edited(doc, user, id, content, now).0),
        well_keyed(renamed(doc, user, id, content).0),
        well_keyed(deleted(doc, user, id).0),
{
    lemma_saved(doc, user, chat_id, message, now);
    let edit = |chats: ChatList|
        for_chat(chats, chat_id, |chat: ChatView| chat_edit(chat, id, content, now), None);
    let answer = |chats: ChatList|
        for_chat(
            chats,
            chat_id,
            |chat: ChatView| crate::chat_ops::chat_edit_answer(chat, id, content, now),
            None,
        );
    let remove = |chats: ChatList|
        for_chat(chats, chat_id, |chat: ChatView| crate::chat_ops::chat_remove(chat, id), false);
    let thread = |chats: ChatList|
        for_chat(chats, chat_id, |chat: ChatView| chat_remove_thread(chat, id), 0nat);
    let title = |chats: ChatList|
        for_chat(
            chats,
            chat_id,
            |chat: ChatView| (crate::chat_ops::with_title(chat, content), true),
            false,
        );
    assert forall|u: int| 0 <= u < doc.len() implies distinct(ids(edit(#[trigger] doc[u].1).0))
        && distinct(ids(answer(doc[u].1).0)) && distinct(ids(remove(doc[u].1).0)) && distinct(
        ids(thread(doc[u].1).0),
    ) && distinct(ids(title(doc[u].1).0)) by {
        let chats = doc[u].1;
        lemma_for_chat_keeps_ids(
            chats,
            chat_id,
            |chat: ChatView| chat_edit(chat, id, content, now),
            None,
        );
        lemma_for_chat_keeps_ids(
            chats,
            chat_id,
            |chat: ChatView| crate::chat_ops::chat_edit_answer(chat, id, content, now),
            None,
        );
        lemma_for_chat_keeps_ids(
            chats,
            chat_id,
            |chat: ChatView| crate::chat_ops::chat_remove(chat, id),
            false,
        );
        lemma_for_chat_keeps_ids(
            chats,
            chat_id,
            |chat: ChatView| chat_remove_thread(chat, id),
            0nat,
        );
        lemma_for_chat_keeps_ids(
            chats,
            chat_id,
            |chat: ChatView| (crate::chat_ops::with_title(chat, content), true),
            false,
        );
    }
    lemma_for_user_keeps(doc, user, edit, None);
    lemma_for_user_keeps(doc, user, answer, None);
    lemma_for_user_keeps(doc, user, remove, false);
    lemma_for_user_keeps(doc, user, thread, 0nat);
    lemma_for_user_keeps(doc, user, title, false);
    assert forall|u: int| 0 <= u < doc.len() implies distinct(
        ids(chats_without(#[trigger] doc[u].1, chat_id).0),
    ) && distinct(ids(chats_without_all(doc[u].1, names).0)) && distinct(
        ids(chats_edit(doc[u].1, id, content, now).0),
    ) && distinct(ids(chats_renamed(doc[u].1, id, content).0)) && distinct(
        ids(chats_deleted(doc[u].1, id).0),
    ) by {
        lemma_chats_stay_distinct(doc[u].1, chat_id, content, names, now);
        lemma_chats_stay_distinct(doc[u].1, id, content, names, now);
    }
    lemma_for_user_keeps(doc, user, |chats: ChatList| chats_without(chats, chat_id), false);
    lemma_for_user_keeps(
        doc,
        user,
        |chats: ChatList| (Seq::<(Seq<char>, ChatView)>::empty(), chats.len()),
        0nat,
    );
    lemma_for_user_keeps(doc, user, |chats: ChatList| chats_without_all(chats, names), 0nat);
    lemma_for_user_keeps(doc, user, |chats: ChatList| chats_edit(chats, id, content, now), None);
    lemma_for_user_keeps(doc, user, |chats: ChatList| chats_renamed(chats, id, content), None);
    lemma_for_user_keeps(doc, user, |chats: ChatList| chats_deleted(chats, id), None);
}

/// After a prompt was taken and its answer stored, the history of the
/// conversation holds the message of the user with the prompt as its
/// content, and the message of the assistant that replies to it.
pub proof fn law_answered_prompt_is_in_the_history(
    doc: UserList,
    user: Seq<char>,
    chat_id: Seq<char>,
    prompt: Seq<char>,
    tail: Seq<char>,
    asked: Timestamp,
    answer: Seq<char>,
    answer_id: Seq<char>,
    answered: Timestamp,
)
    requires
        well_keyed(doc),
    ensures
        ({
            let question = crate::operations::prompt_message(prompt, tail, asked);
            let reply = crate::operations::answer_message(
                question.message_id,
                answer,
                answer_id,
                answered,
            );
            let after = saved(
                saved(doc, user, chat_id, question, asked),
                user,
                chat_id,
                reply,
                answered,
            );
            let history = listed(chats_of(after, user), Some(chat_id));
            &&& history.contains(question)
            &&& history.contains(reply)
            &&& question.role == "user"@ && question.content == prompt
            &&& reply.role == "assistant"@ && reply.content == answer
            &&& reply.reply_id == Some(question.message_id)
            &&& history.len() == messages_at(doc, user, chat_id).len() + 2
        }),
{
    let question = crate::operations::prompt_message(prompt, tail, asked);
    let reply = crate::operations::answer_message(question.message_id, answer, answer_id, answered);
    let batch = seq![question, reply];
    let times = seq![asked, answered];
    assert(batch.drop_last() =~= seq![question]);
    assert(batch.drop_last().drop_last() =~= Seq::<MessageView>::empty());
    assert(saved_all(doc, user, chat_id, Seq::<MessageView>::empty(), times) == doc);
    assert(saved_all(doc, user, chat_id, seq![question], times) == saved(
        doc,
        user,
        chat_id,
        question,
        asked,
    )) by {
        assert(seq![question].drop_last() =~= Seq::<MessageView>::empty());
    }
    assert(saved_all(doc, user, chat_id, batch, times) == saved(
        saved(doc, user, chat_id, question, asked),
        user,
        chat_id,
        reply,
        answered,
    ));
    law_appended_messages_are_listed(doc, user, chat_id, batch, times);
    assert(batch[0] == question && batch[1] == reply);
}

} // verus!
