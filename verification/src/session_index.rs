//! The session index: which session a user resumes when they connect again.
//!
//! A user has at most one session that counts: the first one recorded for
//! them. A user without a session gets a new one, which is recorded.
use std::collections::HashMap;
use vstd::prelude::*;
use crate::lookup::{first_true, first_true_from, lemma_first_true};
use crate::time::Timestamp;

verus! {

broadcast use vstd::std_specs::hash::group_hash_axioms;

/// A session and when it was opened.
#[derive(Debug)]
pub struct SessionInfo {
    pub session_id: String,
    pub timestamp: Timestamp,
}

/// The sessions of users, under the users' ids.
#[derive(Debug)]
pub struct UserSessions {
    pub sessions: HashMap<u64, Vec<SessionInfo>>,
}

/// A list of session records.
#[derive(Debug)]
pub struct UsersWrapper {
    pub users: Vec<UserSessions>,
}

/// The session index. Only its first list of records is read and written.
#[derive(Debug)]
pub struct AuthSession {
    pub auth_session: Vec<UsersWrapper>,
}

/// A file of session indexes.
#[derive(Debug)]
pub struct SessionFile {
    pub sessions: Vec<AuthSession>,
}

/// The session that a record names for the user `user_id`: the first
/// session under that id.
pub open spec fn session_in(record: UserSessions, user_id: u64) -> Option<Seq<char>> {
    if record.sessions@.dom().contains(user_id) && record.sessions@[user_id]@.len() > 0 {
        Some(record.sessions@[user_id]@[0].session_id@)
    } else {
        None
    }
}

/// For each record, whether it names a session for the user `user_id`.
pub open spec fn naming_flags(records: Seq<UserSessions>, user_id: u64) -> Seq<bool> {
    records.map_values(|r: UserSessions| session_in(r, user_id) is Some)
}

/// The session that a list of records names for the user `user_id`: that
/// of the first record that names one.
pub open spec fn session_among(records: Seq<UserSessions>, user_id: u64) -> Option<Seq<char>> {
    match first_true(naming_flags(records, user_id)) {
        Some(i) => session_in(records[i], user_id),
        None => None,
    }
}

/// A list of flags with one more flag that is not set has the same first
/// set flag.
pub proof fn lemma_first_true_push_false(flags: Seq<bool>)
    ensures
        first_true(flags.push(false)) == first_true(flags),
{
    lemma_first_true(flags);
    lemma_first_true(flags.push(false));
    let longer = flags.push(false);
    match first_true(flags) {
        Some(i) => {
            assert(longer[i]);
            let j = first_true(longer).unwrap();
            if j < i {
                assert(flags[j] == longer[j]);
            } else if j > i {
                assert(longer[i] == flags[i]);
            }
        },
        None => {
            if first_true(longer) is Some {
                let j = first_true(longer).unwrap();
                if j < flags.len() {
                    assert(flags[j] == longer[j]);
                }
            }
        },
    }
}

/// A list of flags none of which is set, with one more flag that is set,
/// has that flag as its first set flag.
pub proof fn lemma_first_true_push_true(flags: Seq<bool>)
    requires
        first_true(flags) is None,
    ensures
        first_true(flags.push(true)) == Some(flags.len() as int),
{
    lemma_first_true(flags);
    lemma_first_true(flags.push(true));
    let longer = flags.push(true);
    assert(longer[flags.len() as int]);
    let j = first_true(longer).unwrap();
    if j < flags.len() {
        assert(flags[j] == longer[j]);
    }
}

impl UserSessions {
    /// The record of one session of one user.
    pub fn single(user_id: u64, session_id: String, now: Timestamp) -> (record: UserSessions)
        ensures
            session_in(record, user_id) == Some(session_id@),
            forall|other: u64| other != user_id ==> session_in(record, other) is None,
    {
        let mut list: Vec<SessionInfo> = Vec::new();
        list.push(SessionInfo { session_id, timestamp: now });
        let mut sessions: HashMap<u64, Vec<SessionInfo>> = HashMap::new();
        sessions.insert(user_id, list);
        UserSessions { sessions }
    }

    /// The session that the record names for the user `user_id`.
    pub fn session_of(&self, user_id: u64) -> (session: Option<&String>)
        ensures
            match session {
                Some(id) => session_in(*self, user_id) == Some(id@),
                None => session_in(*self, user_id) is None,
            },
    {
        match self.sessions.get(&user_id) {
            Some(list) => if list.len() > 0 {
                Some(&list[0].session_id)
            } else {
                None
            },
            None => None,
        }
    }
}

impl AuthSession {
    /// The index that a missing or unreadable index file stands for: one
    /// list of records, without records.
    pub fn empty() -> (index: AuthSession)
        ensures
            forall|user_id: u64| index.session_of(user_id) is None,
            index.auth_session@.len() == 1,
    {
        let mut lists: Vec<UsersWrapper> = Vec::new();
        lists.push(UsersWrapper { users: Vec::new() });
        let index = AuthSession { auth_session: lists };
        proof {
            assert forall|user_id: u64| index.session_of(user_id) is None by {
                lemma_first_true(naming_flags(index.auth_session@[0].users@, user_id));
            }
        }
        index
    }

    /// The session that the index names for the user `user_id`.
    pub open spec fn session_of(self, user_id: u64) -> Option<Seq<char>> {
        if self.auth_session@.len() == 0 {
            None
        } else {
            session_among(self.auth_session@[0].users@, user_id)
        }
    }

    /// Looks up the session of the user `user_id`.
    pub fn existing_session(&self, user_id: u64) -> (session: Option<String>)
        ensures
            crate::model::text_of(session) == self.session_of(user_id),
    {
        if self.auth_session.len() == 0 {
            return None;
        }
        let records = &self.auth_session[0].users;
        let ghost flags = naming_flags(records@, user_id);
        let mut i: usize = 0;
        while i < records.len()
            invariant
                0 <= i <= records.len(),
                self.auth_session@.len() > 0,
                records@ == self.auth_session@[0].users@,
                flags == naming_flags(records@, user_id),
                first_true(flags) == first_true_from(flags, i as int),
            decreases records.len() - i,
        {
            match records[i].session_of(user_id) {
                Some(id) => {
                    return Some(id.clone());
                },
                None => {},
            }
            i += 1;
        }
        None
    }

    /// Records `session_id` as a session of the user `user_id`, opened at
    /// `now`, behind the records that are there.
    pub fn record(&mut self, user_id: u64, session_id: String, now: Timestamp)
        ensures
            final(self).session_of(user_id) == match old(self).session_of(user_id) {
                Some(known) => Some(known),
                None => Some(session_id@),
            },
            forall|other: u64|
                other != user_id ==> final(self).session_of(other) == old(self).session_of(other),
            final(self).auth_session@.len() >= 1,
    {
        let record = UserSessions::single(user_id, session_id, now);
        if self.auth_session.len() == 0 {
            let mut users: Vec<UserSessions> = Vec::new();
            users.push(record);
            self.auth_session.push(UsersWrapper { users });
            proof {
                let records = self.auth_session@[0].users@;
                assert(records.len() == 1 && records[0] == record);
                assert forall|other: u64| true implies self.session_of(other) == session_in(
                    record,
                    other,
                ) by {
                    let flags = naming_flags(records, other);
                    lemma_first_true(flags);
                    assert(flags.len() == 1);
                }
            }
        } else {
            self.auth_session[0].users.push(record);
            proof {
                let before = old(self).auth_session@[0].users@;
                let after = self.auth_session@[0].users@;
                assert(after == before.push(record));
                assert forall|other: u64| true implies self.session_of(other) == (match old(
                    self,
                ).session_of(other) {
                    Some(known) => Some(known),
                    None => session_in(record, other),
                }) by {
                    let old_flags = naming_flags(before, other);
                    let new_flags = naming_flags(after, other);
                    assert(new_flags =~= old_flags.push(session_in(record, other) is Some));
                    lemma_first_true(old_flags);
                    if session_in(record, other) is Some {
                        if first_true(old_flags) is None {
                            lemma_first_true_push_true(old_flags);
                        } else {
                            lemma_first_true(new_flags);
                            let i = first_true(old_flags).unwrap();
                            let j = first_true(new_flags).unwrap();
                            assert(new_flags[i]);
                            if j < i {
                                assert(old_flags[j] == new_flags[j]);
                            }
                            assert(after[i] == before[i]);
                        }
                    } else {
                        lemma_first_true_push_false(old_flags);
                        if first_true(old_flags) is Some {
                            assert(after[first_true(old_flags).unwrap()] == before[first_true(
                                old_flags,
                            ).unwrap()]);
                        }
                    }
                }
            }
        }
    }

    /// The session of the user `user_id`: the one that the index names,
    /// else `fresh`, which is then recorded as opened at `now`. Says also
    /// whether the session was opened by this call.
    pub fn resume_or_open(&mut self, user_id: u64, fresh: String, now: Timestamp) -> (session: (
        String,
        bool,
    ))
        ensures
            match old(self).session_of(user_id) {
                Some(known) => session.0@ == known && !session.1 && *final(self) == *old(self),
                None => session.0@ == fresh@ && session.1 && final(self).session_of(user_id) == Some(
                    fresh@,
                ),
            },
            forall|other: u64|
                other != user_id ==> final(self).session_of(other) == old(self).session_of(other),
    {
        match self.existing_session(user_id) {
            Some(known) => (known, false),
            None => {
                self.record(user_id, fresh.clone(), now);
                (fresh, true)
            },
        }
    }
}

} // verus!
