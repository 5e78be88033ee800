//! The sessions table: every open LFG session, keyed by its forum post, in
//! the order the sessions were created.

use vstd::prelude::*;
use crate::clock::now_timestamp;
use crate::session::Session;

verus! {

/// No two sessions share a forum post.
pub open spec fn unique_posts(s: Seq<Session>) -> bool {
    forall|i: int, j: int| 0 <= i < j < s.len() ==> s[i].post_id != s[j].post_id
}

/// Some session belongs to the forum post `post_id`.
pub open spec fn has_post(s: Seq<Session>, post_id: u64) -> bool {
    exists|i: int| 0 <= i < s.len() && s[i].post_id == post_id
}

/// The first session of the forum post `post_id`, if any.
pub open spec fn lookup(s: Seq<Session>, post_id: u64) -> Option<Session>
    decreases s.len(),
{
    if s.len() == 0 {
        None
    } else if s[0].post_id == post_id {
        Some(s[0])
    } else {
        lookup(s.drop_first(), post_id)
    }
}

/// The sessions that stay when the session of `post_id` is removed.
pub open spec fn without_post(s: Seq<Session>, post_id: u64) -> Seq<Session> {
    s.filter(|x: Session| x.post_id != post_id)
}

/// The sessions that stay when the sessions of `forum_id` are removed.
pub open spec fn without_forum(s: Seq<Session>, forum_id: u64) -> Seq<Session> {
    s.filter(|x: Session| x.forum_id != forum_id)
}

/// The sessions whose posts are in the forum `forum_id`.
pub open spec fn in_forum(s: Seq<Session>, forum_id: u64) -> Seq<Session> {
    s.filter(|x: Session| x.forum_id == forum_id)
}

/// The sessions to warn about inactivity as of `now`.
pub open spec fn to_warn(s: Seq<Session>, now: i64) -> Seq<Session> {
    s.filter(|x: Session| x.due_for_warning(now))
}

/// The sessions to delete as of `now`.
pub open spec fn to_delete(s: Seq<Session>, now: i64) -> Seq<Session> {
    s.filter(|x: Session| x.due_for_deletion(now))
}

/// Every session of the post `post_id` changed by `f`, the others kept.
pub open spec fn update_post(s: Seq<Session>, post_id: u64, f: spec_fn(Session) -> Session) -> Seq<
    Session,
> {
    s.map_values(|x: Session| if x.post_id == post_id { f(x) } else { x })
}

/// The table after activity at `now` in the session of `post_id`.
pub open spec fn touch_post(s: Seq<Session>, post_id: u64, now: i64) -> Seq<Session> {
    update_post(s, post_id, |x: Session| x.touched(now))
}

/// Why a session could not be added.
#[derive(Clone, Copy, Debug, PartialEq, Eq, Structural)]
pub enum SessionError {
    /// A session of the same forum post is already stored.
    DuplicatePost,
}

enum Keep {
    OtherPost(u64),
    OtherForum(u64),
    InForum(u64),
    DueForWarning(i64),
    DueForDeletion(i64),
}

spec fn keeps(k: Keep, x: Session) -> bool {
    match k {
        Keep::OtherPost(p) => x.post_id != p,
        Keep::OtherForum(f) => x.forum_id != f,
        Keep::InForum(f) => x.forum_id == f,
        Keep::DueForWarning(now) => x.due_for_warning(now),
        Keep::DueForDeletion(now) => x.due_for_deletion(now),
    }
}

spec fn keep_pred(k: Keep) -> spec_fn(Session) -> bool {
    |x: Session| keeps(k, x)
}

fn keeps_exec(k: &Keep, x: &Session) -> (b: bool)
    ensures
        b == keeps(*k, *x),
{
    match k {
        Keep::OtherPost(p) => x.post_id != *p,
        Keep::OtherForum(f) => x.forum_id != *f,
        Keep::InForum(f) => x.forum_id == *f,
        Keep::DueForWarning(now) => x.is_due_for_warning(*now),
        Keep::DueForDeletion(now) => x.is_due_for_deletion(*now),
    }
}

fn select(v: &Vec<Session>, k: Keep) -> (r: Vec<Session>)
    ensures
        r@ == v@.filter(keep_pred(k)),
{
    let mut r: Vec<Session> = Vec::new();
    let n = v.len();
    for i in 0..n
        invariant
            n == v@.len(),
            r@ == v@.take(i as int).filter(keep_pred(k)),
    {
        let x = v[i];
        assert(v@.take(i + 1).drop_last() == v@.take(i as int));
        reveal_with_fuel(Seq::filter, 1);
        if keeps_exec(&k, &x) {
            r.push(x);
        }
    }
    assert(v@.take(n as int) == v@);
    r
}

enum Change {
    Complete,
    Warn(u64),
    PermissionWarn,
    Touch(i64),
}

spec fn changed(c: Change, x: Session) -> Session {
    match c {
        Change::Complete => x.completed(),
        Change::Warn(m) => x.warned(m),
        Change::PermissionWarn => x.permission_warned(),
        Change::Touch(now) => x.touched(now),
    }
}

spec fn change_fn(c: Change) -> spec_fn(Session) -> Session {
    |x: Session| changed(c, x)
}

fn change_exec(c: &Change, x: Session) -> (y: Session)
    ensures
        y == changed(*c, x),
{
    match c {
        Change::Complete => Session { is_done: true, ..x },
        Change::Warn(m) => Session { warning_sent: true, warning_message_id: Some(*m), ..x },
        Change::PermissionWarn => Session { permission_warning_sent: true, ..x },
        Change::Touch(now) => Session {
            last_activity_timestamp: *now,
            warning_sent: false,
            warning_message_id: None,
            ..x
        },
    }
}

/// Keeping some of the sessions keeps their posts unique.
pub proof fn lemma_filter_unique(s: Seq<Session>, pred: spec_fn(Session) -> bool)
    requires
        unique_posts(s),
    ensures
        unique_posts(s.filter(pred)),
    decreases s.len(),
{
    reveal(Seq::filter);
    if s.len() > 0 {
        let rest = s.drop_last();
        lemma_filter_unique(rest, pred);
        broadcast use Seq::lemma_filter_len;
        if pred(s.last()) {
            let f = rest.filter(pred);
            assert forall|i: int| 0 <= i < f.len() implies f[i].post_id != s.last().post_id by {
                #[allow(deprecated)]
                rest.filter_lemma(pred);
                assert(f.contains(f[i]));
                lemma_filter_from(rest, pred, i);
            }
        }
    }
}

/// Every kept session is one of the sessions it was kept from.
pub proof fn lemma_filter_from(s: Seq<Session>, pred: spec_fn(Session) -> bool, i: int)
    requires
        0 <= i < s.filter(pred).len(),
    ensures
        exists|j: int| 0 <= j < s.len() && s[j] == s.filter(pred)[i],
    decreases s.len(),
{
    reveal(Seq::filter);
    let rest = s.drop_last();
    let f = rest.filter(pred);
    if pred(s.last()) && i == f.len() {
        assert(s[s.len() - 1] == s.filter(pred)[i]);
    } else {
        lemma_filter_from(rest, pred, i);
        let j = choose|j: int| 0 <= j < rest.len() && rest[j] == f[i];
        assert(s[j] == s.filter(pred)[i]);
    }
}

proof fn lemma_lookup_first(s: Seq<Session>, post_id: u64, i: int)
    requires
        0 <= i < s.len(),
        s[i].post_id == post_id,
        forall|j: int| 0 <= j < i ==> s[j].post_id != post_id,
    ensures
        lookup(s, post_id) == Some(s[i]),
    decreases i,
{
    if i > 0 {
        lemma_lookup_first(s.drop_first(), post_id, i - 1);
    }
}

/// A post that no session has is found nowhere.
pub proof fn lemma_lookup_none(s: Seq<Session>, post_id: u64)
    requires
        !has_post(s, post_id),
    ensures
        lookup(s, post_id) == None::<Session>,
    decreases s.len(),
{
    if s.len() > 0 {
        assert(s[0].post_id != post_id);
        assert forall|i: int| 0 <= i < s.drop_first().len() implies s.drop_first()[i].post_id
            != post_id by {
            assert(s.drop_first()[i] == s[i + 1]);
        }
        lemma_lookup_none(s.drop_first(), post_id);
    }
}

/// In a table with unique posts, the session found for a post is the one at
/// the post's index.
pub proof fn lemma_lookup_unique(s: Seq<Session>, post_id: u64, i: int)
    requires
        unique_posts(s),
        0 <= i < s.len(),
        s[i].post_id == post_id,
    ensures
        lookup(s, post_id) == Some(s[i]),
{
    lemma_lookup_first(s, post_id, i);
}

/// The LFG sessions Gather is tracking.
#[derive(Debug)]
pub struct SessionManager {
    sessions: Vec<Session>,
}

impl View for SessionManager {
    type V = Seq<Session>;

    closed spec fn view(&self) -> Seq<Session> {
        self.sessions@
    }
}

impl Clone for SessionManager {
    /// A copy of the table, holding the same sessions in the same order.
    fn clone(&self) -> (r: Self)
        ensures
            r@ == self@,
    {
        proof {
            use_type_invariant(self);
        }
        let sessions = self.sessions.clone();
        assert(sessions@ =~= self.sessions@);
        SessionManager { sessions }
    }
}

impl SessionManager {
    #[verifier::type_invariant]
    spec fn posts_are_unique(self) -> bool {
        unique_posts(self.sessions@)
    }

    /// An empty table.
    pub fn new() -> (m: SessionManager)
        ensures
            m@ == Seq::<Session>::empty(),
            unique_posts(m@),
    {
        SessionManager { sessions: Vec::new() }
    }

    fn find_index(&self, post_id: u64) -> (r: Option<usize>)
        ensures
            match r {
                Some(i) => i < self@.len() && self@[i as int].post_id == post_id && forall|j: int|
                    0 <= j < i ==> self@[j].post_id != post_id,
                None => !has_post(self@, post_id),
            },
    {
        let n = self.sessions.len();
        for i in 0..n
            invariant
                n == self.sessions@.len(),
                forall|j: int| 0 <= j < i ==> self.sessions@[j].post_id != post_id,
        {
            if self.sessions[i].post_id == post_id {
                return Some(i);
            }
        }
        None
    }

    fn change_post(&mut self, post_id: u64, c: Change)
        ensures
            final(self)@.len() == old(self)@.len(),
            forall|i: int|
                0 <= i < old(self)@.len() ==> final(self)@[i] == (if old(self)@[i].post_id
                    == post_id {
                    changed(c, old(self)@[i])
                } else {
                    old(self)@[i]
                }),
    {
        proof {
            use_type_invariant(&*self);
        }
        let mut next: Vec<Session> = Vec::new();
        let n = self.sessions.len();
        for i in 0..n
            invariant
                n == self.sessions@.len(),
                next@.len() == i,
                forall|j: int|
                    0 <= j < i ==> next@[j] == (if self.sessions@[j].post_id == post_id {
                        changed(c, self.sessions@[j])
                    } else {
                        self.sessions@[j]
                    }),
        {
            let x = self.sessions[i];
            if x.post_id == post_id {
                next.push(change_exec(&c, x));
            } else {
                next.push(x);
            }
        }
        assert forall|i: int, j: int| 0 <= i < j < next@.len() implies next@[i].post_id
            != next@[j].post_id by {
            assert(next@[i].post_id == self.sessions@[i].post_id);
            assert(next@[j].post_id == self.sessions@[j].post_id);
        }
        self.sessions = next;
    }

    fn keep_only(&mut self, k: Keep)
        ensures
            final(self)@ == old(self)@.filter(keep_pred(k)),
    {
        proof {
            use_type_invariant(&*self);
            lemma_filter_unique(self.sessions@, keep_pred(k));
        }
        let next = select(&self.sessions, k);
        self.sessions = next;
    }

    /// Stores a new session. Refused, with the table unchanged, when a session
    /// of the same forum post is already stored.
    pub fn add_channel(&mut self, session: Session) -> (r: Result<(), SessionError>)
        ensures
            r == Err::<(), SessionError>(SessionError::DuplicatePost) <==> has_post(
                old(self)@,
                session.post_id,
            ),
            r is Ok ==> final(self)@ == old(self)@.push(session),
            r is Err ==> final(self)@ == old(self)@,
    {
        proof {
            use_type_invariant(&*self);
        }
        match self.find_index(session.post_id) {
            Some(_) => Err(SessionError::DuplicatePost),
            None => {
                let ghost before = self.sessions@;
                let mut next = self.sessions.clone();
                assert(next@ =~= before);
                next.push(session);
                assert forall|i: int, j: int|
                    0 <= i < j < next@.len() implies next@[i].post_id != next@[j].post_id by {
                    if j == before.len() {
                        assert(before[i] == next@[i]);
                    }
                }
                self.sessions = next;
                Ok(())
            },
        }
    }

    /// Removes the session of `post_id`; true when there was one.
    pub fn remove_channel(&mut self, post_id: u64) -> (removed: bool)
        ensures
            removed == has_post(old(self)@, post_id),
            final(self)@ == without_post(old(self)@, post_id),
    {
        let removed = self.find_index(post_id).is_some();
        self.keep_only(Keep::OtherPost(post_id));
        assert(keep_pred(Keep::OtherPost(post_id)) =~= (|x: Session| x.post_id != post_id));
        removed
    }

    /// Removes every session of the forum `forum_id`; returns how many were
    /// removed.
    pub fn remove_channels_by_forum(&mut self, forum_id: u64) -> (removed: usize)
        ensures
            final(self)@ == without_forum(old(self)@, forum_id),
            removed == old(self)@.len() - final(self)@.len(),
    {
        let before = self.sessions.len();
        self.keep_only(Keep::OtherForum(forum_id));
        assert(keep_pred(Keep::OtherForum(forum_id)) =~= (|x: Session| x.forum_id != forum_id));
        proof {
            broadcast use Seq::lemma_filter_len;
        }
        before - self.sessions.len()
    }

    /// Marks the session of `post_id` as completed; true when there was one.
    pub fn mark_completed(&mut self, post_id: u64) -> (found: bool)
        ensures
            found == has_post(old(self)@, post_id),
            final(self)@ == update_post(old(self)@, post_id, |x: Session| x.completed()),
    {
        let found = self.find_index(post_id).is_some();
        self.change_post(post_id, Change::Complete);
        assert(self@ =~= update_post(old(self)@, post_id, |x: Session| x.completed()));
        found
    }

    /// Records that the inactivity warning `warning_message_id` was posted in
    /// the session of `post_id`.
    pub fn mark_warning_sent(&mut self, post_id: u64, warning_message_id: u64)
        ensures
            final(self)@ == update_post(
                old(self)@,
                post_id,
                |x: Session| x.warned(warning_message_id),
            ),
    {
        self.change_post(post_id, Change::Warn(warning_message_id));
        assert(self@ =~= update_post(
            old(self)@,
            post_id,
            |x: Session| x.warned(warning_message_id),
        ));
    }

    /// Records that the missing-permission notice was posted in the session
    /// of `post_id`.
    pub fn mark_permission_warning_sent(&mut self, post_id: u64)
        ensures
            final(self)@ == update_post(old(self)@, post_id, |x: Session| x.permission_warned()),
    {
        self.change_post(post_id, Change::PermissionWarn);
        assert(self@ =~= update_post(old(self)@, post_id, |x: Session| x.permission_warned()));
    }

    /// Records activity in the session of `post_id` at the current time and
    /// returns the pending warning message, if any, so that it can be deleted.
    pub fn update_activity(&mut self, post_id: u64) -> (warning: Option<u64>)
        ensures
            warning == match lookup(old(self)@, post_id) {
                Some(x) => x.warning_message_id,
                None => None,
            },
            exists|now: i64| final(self)@ == #[trigger] touch_post(old(self)@, post_id, now),
    {
        let now = now_timestamp();
        self.update_activity_at(post_id, now)
    }

    /// Records activity in the session of `post_id` at `now` and returns the
    /// pending warning message, if any.
    pub fn update_activity_at(&mut self, post_id: u64, now: i64) -> (warning: Option<u64>)
        ensures
            warning == match lookup(old(self)@, post_id) {
                Some(x) => x.warning_message_id,
                None => None,
            },
            final(self)@ == touch_post(old(self)@, post_id, now),
    {
        let warning = match self.get_session(post_id) {
            Some(x) => x.warning_message_id,
            None => None,
        };
        self.change_post(post_id, Change::Touch(now));
        assert(self@ =~= update_post(old(self)@, post_id, |x: Session| x.touched(now)));
        warning
    }

    /// The sessions to warn about inactivity now.
    pub fn get_sessions_to_warn(&self) -> (r: Vec<Session>)
        ensures
            exists|now: i64| r@ == #[trigger] to_warn(self@, now),
    {
        let now = now_timestamp();
        self.sessions_to_warn_at(now)
    }

    /// The sessions to warn about inactivity as of `now`.
    pub fn sessions_to_warn_at(&self, now: i64) -> (r: Vec<Session>)
        ensures
            r@ == to_warn(self@, now),
    {
        let r = select(&self.sessions, Keep::DueForWarning(now));
        assert(keep_pred(Keep::DueForWarning(now)) =~= (|x: Session| x.due_for_warning(now)));
        r
    }

    /// The sessions to delete now.
    pub fn get_sessions_to_delete(&self) -> (r: Vec<Session>)
        ensures
            exists|now: i64| r@ == #[trigger] to_delete(self@, now),
    {
        let now = now_timestamp();
        self.sessions_to_delete_at(now)
    }

    /// The sessions to delete as of `now`.
    pub fn sessions_to_delete_at(&self, now: i64) -> (r: Vec<Session>)
        ensures
            r@ == to_delete(self@, now),
    {
        let r = select(&self.sessions, Keep::DueForDeletion(now));
        assert(keep_pred(Keep::DueForDeletion(now)) =~= (|x: Session| x.due_for_deletion(now)));
        r
    }

    /// Every stored session.
    pub fn get_all_sessions(&self) -> (r: Vec<Session>)
        ensures
            r@ == self@,
    {
        self.sessions.clone()
    }

    /// The session of `post_id`, if any.
    pub fn get_session(&self, post_id: u64) -> (r: Option<Session>)
        ensures
            r == lookup(self@, post_id),
    {
        match self.find_index(post_id) {
            Some(i) => {
                proof {
                    lemma_lookup_first(self@, post_id, i as int);
                }
                Some(self.sessions[i])
            },
            None => {
                proof {
                    lemma_lookup_none(self@, post_id);
                }
                None
            },
        }
    }

    /// The sessions whose posts are in the forum `forum_id`.
    pub fn get_sessions_by_forum(&self, forum_id: u64) -> (r: Vec<Session>)
        ensures
            r@ == in_forum(self@, forum_id),
    {
        let r = select(&self.sessions, Keep::InForum(forum_id));
        assert(keep_pred(Keep::InForum(forum_id)) =~= (|x: Session| x.forum_id == forum_id));
        r
    }
}

/// A write that brings one stored row in line with the table.
#[derive(Clone, Copy, Debug, PartialEq, Eq, Structural)]
pub enum RowChange {
    /// Store this session, inserting or replacing the row of its post.
    Save(Session),
    /// Delete the row of this post.
    Delete(u64),
}

/// The post whose row the write touches.
pub open spec fn change_key(c: RowChange) -> u64 {
    match c {
        RowChange::Save(s) => s.post_id,
        RowChange::Delete(p) => p,
    }
}

/// The writes `r` turn the rows of the table `before` into those of `after`:
/// each write saves a post's new session or deletes a post that left, every
/// post whose session changed gets a write, and no post gets two.
pub open spec fn brings_rows_in_line(before: Seq<Session>, after: Seq<Session>, r: Seq<RowChange>) -> bool {
    &&& forall|i: int|
        #![trigger r[i]]
        0 <= i < r.len() ==> match r[i] {
            RowChange::Save(s) => lookup(after, s.post_id) == Some(s) && lookup(before, s.post_id)
                != Some(s),
            RowChange::Delete(p) => has_post(before, p) && !has_post(after, p),
        }
    &&& forall|p: u64|
        #![trigger lookup(before, p)]
        #![trigger lookup(after, p)]
        lookup(before, p) != lookup(after, p) ==> exists|i: int|
            0 <= i < r.len() && change_key(#[trigger] r[i]) == p
    &&& forall|i: int, j: int|
        0 <= i < j < r.len() ==> change_key(#[trigger] r[i]) != change_key(#[trigger] r[j])
}

impl SessionManager {
    /// The writes that bring the stored rows of `before` in line with
    /// `after`: deletions of the posts that left, in `before`'s order, then
    /// the sessions that are new or changed, in `after`'s order.
    pub fn row_changes(before: &SessionManager, after: &SessionManager) -> (r: Vec<RowChange>)
        ensures
            brings_rows_in_line(before@, after@, r@),
    {
        proof {
            use_type_invariant(before);
            use_type_invariant(after);
        }
        let b = &before.sessions;
        let a = &after.sessions;
        let mut r: Vec<RowChange> = Vec::new();
        let ghost mut idx: Seq<int> = Seq::empty();
        let nb = b.len();
        for i in 0..nb
            invariant
                nb == b@.len(),
                b@ == before@,
                a@ == after@,
                unique_posts(b@),
                idx.len() == r@.len(),
                forall|k: int| 0 <= k < r@.len() ==> 0 <= #[trigger] idx[k] < i,
                forall|k1: int, k2: int| 0 <= k1 < k2 < r@.len() ==> idx[k1] < idx[k2],
                forall|k: int|
                    0 <= k < r@.len() ==> #[trigger] r@[k] == RowChange::Delete(b@[idx[k]].post_id)
                        && !has_post(a@, b@[idx[k]].post_id),
                forall|m: int|
                    0 <= m < i && !has_post(a@, #[trigger] b@[m].post_id) ==> exists|k: int|
                        0 <= k < r@.len() && idx[k] == m,
        {
            let p = b[i].post_id;
            let ghost idx_before = idx;
            if after.find_index(p).is_none() {
                r.push(RowChange::Delete(p));
                proof {
                    idx = idx.push(i as int);
                }
            }
            proof {
                assert forall|m: int|
                    0 <= m < i + 1 && !has_post(a@, #[trigger] b@[m].post_id) implies exists|k: int|
                    0 <= k < r@.len() && idx[k] == m by {
                    if m < i {
                        let k = choose|k: int| 0 <= k < idx_before.len() && idx_before[k] == m;
                        assert(idx[k] == m);
                    } else {
                        assert(idx[idx.len() - 1] == i);
                    }
                }
            }
        }
        let ghost n_del = r@.len();
        let ghost deletes = r@;
        let ghost del_idx = idx;
        let ghost mut idx2: Seq<int> = Seq::empty();
        let na = a.len();
        for j in 0..na
            invariant
                na == a@.len(),
                b@ == before@,
                a@ == after@,
                unique_posts(b@),
                unique_posts(a@),
                n_del == deletes.len(),
                r@.len() == n_del + idx2.len(),
                r@.subrange(0, n_del as int) == deletes,
                forall|k: int|
                    0 <= k < n_del ==> #[trigger] deletes[k] == RowChange::Delete(
                        b@[del_idx[k]].post_id,
                    ) && !has_post(a@, b@[del_idx[k]].post_id) && 0 <= del_idx[k] < b@.len(),
                forall|k: int| 0 <= k < idx2.len() ==> 0 <= #[trigger] idx2[k] < j,
                forall|k1: int, k2: int| 0 <= k1 < k2 < idx2.len() ==> idx2[k1] < idx2[k2],
                forall|k: int|
                    0 <= k < idx2.len() ==> #[trigger] r@[n_del + k] == RowChange::Save(a@[idx2[k]])
                        && lookup(b@, a@[idx2[k]].post_id) != Some(a@[idx2[k]]),
                forall|m: int|
                    0 <= m < j && lookup(b@, #[trigger] a@[m].post_id) != Some(a@[m]) ==> exists|
                        k: int,
                    | 0 <= k < idx2.len() && idx2[k] == m,
        {
            let s = a[j];
            let ghost idx2_before = idx2;
            let same = match before.get_session(s.post_id) {
                Some(x) => x == s,
                None => false,
            };
            if !same {
                let ghost before_push = r@;
                r.push(RowChange::Save(s));
                proof {
                    idx2 = idx2.push(j as int);
                    assert(r@.subrange(0, n_del as int) =~= before_push.subrange(0, n_del as int));
                    assert forall|k: int| 0 <= k < idx2.len() implies #[trigger] r@[n_del + k]
                        == RowChange::Save(a@[idx2[k]]) && lookup(b@, a@[idx2[k]].post_id) != Some(
                        a@[idx2[k]],
                    ) by {
                        if k < idx2.len() - 1 {
                            assert(r@[n_del + k] == before_push[n_del + k]);
                        }
                    }
                }
            }
            proof {
                assert forall|m: int|
                    0 <= m < j + 1 && lookup(b@, #[trigger] a@[m].post_id) != Some(a@[m]) implies exists|
                    k: int,
                | 0 <= k < idx2.len() && idx2[k] == m by {
                    if m < j {
                        let k = choose|k: int| 0 <= k < idx2_before.len() && idx2_before[k] == m;
                        assert(idx2[k] == m);
                    } else {
                        assert(idx2[idx2.len() - 1] == j);
                    }
                }
            }
        }
        proof {
            let rv = r@;
            assert forall|k: int| 0 <= k < n_del implies #[trigger] rv[k] == deletes[k] by {
                assert(rv.subrange(0, n_del as int)[k] == rv[k]);
            }
            assert forall|i: int| #![trigger rv[i]] 0 <= i < rv.len() implies match rv[i] {
                RowChange::Save(s) => lookup(after@, s.post_id) == Some(s) && lookup(
                    before@,
                    s.post_id,
                ) != Some(s),
                RowChange::Delete(p) => has_post(before@, p) && !has_post(after@, p),
            } by {
                if i < n_del {
                    assert(rv[i] == deletes[i]);
                    let m = del_idx[i];
                    assert(b@[m].post_id == b@[m].post_id);
                } else {
                    let k = i - n_del;
                    assert(rv[n_del + k] == RowChange::Save(a@[idx2[k]]));
                    lemma_lookup_unique(a@, a@[idx2[k]].post_id, idx2[k]);
                }
            }
            assert forall|p: u64|
                #![trigger lookup(before@, p)]
                #![trigger lookup(after@, p)]
                lookup(before@, p) != lookup(after@, p) implies exists|i: int|
                0 <= i < rv.len() && change_key(#[trigger] rv[i]) == p by {
                if has_post(a@, p) {
                    let m = choose|m: int| 0 <= m < a@.len() && a@[m].post_id == p;
                    lemma_lookup_unique(a@, p, m);
                    let k = choose|k: int| 0 <= k < idx2.len() && idx2[k] == m;
                    assert(change_key(rv[n_del + k]) == p);
                } else {
                    lemma_lookup_none(a@, p);
                    if !has_post(b@, p) {
                        lemma_lookup_none(b@, p);
                    }
                    let m = choose|m: int| 0 <= m < b@.len() && b@[m].post_id == p;
                    let k = choose|k: int| 0 <= k < n_del && del_idx[k] == m;
                    assert(rv[k] == deletes[k]);
                    assert(change_key(rv[k]) == p);
                }
            }
            assert forall|i: int, j: int|
                0 <= i < j < rv.len() implies change_key(#[trigger] rv[i]) != change_key(
                #[trigger] rv[j],
            ) by {
                if j < n_del {
                    assert(rv[i] == deletes[i] && rv[j] == deletes[j]);
                } else if i < n_del {
                    assert(rv[i] == deletes[i]);
                    let kj = j - n_del;
                    assert(rv[n_del + kj] == RowChange::Save(a@[idx2[kj]]));
                    assert(has_post(a@, a@[idx2[kj]].post_id));
                } else {
                    let ki = i - n_del;
                    let kj = j - n_del;
                    assert(rv[n_del + ki] == RowChange::Save(a@[idx2[ki]]));
                    assert(rv[n_del + kj] == RowChange::Save(a@[idx2[kj]]));
                }
            }
        }
        r
    }
}

} // verus!
