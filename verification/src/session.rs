//! One LFG session: the forum post a member opened, the announcement that
//! pinged the role, and the activity state that decides when the post is
//! warned about and when it is deleted.

use vstd::prelude::*;
use crate::clock::now_timestamp;

verus! {

/// Minutes without activity after which a session's author is warned.
pub const MINUTES_TILL_WARN: i64 = 60;

/// Minutes without activity after which a session is deleted (thirty minutes
/// after the warning).
pub const MINUTES_TILL_DELETE: i64 = 90;

/// A session, with every Discord identifier held as its `u64` value.
#[derive(Clone, Copy, Debug, PartialEq, Eq, Structural)]
pub struct Session {
    pub post_id: u64,
    pub guild_id: u64,
    pub forum_id: u64,
    pub author_id: u64,
    pub announcement_channel_id: u64,
    pub announcement_message_id: u64,
    pub complete_message_id: u64,
    pub last_activity_timestamp: i64,
    pub warning_sent: bool,
    pub permission_warning_sent: bool,
    pub warning_message_id: Option<u64>,
    pub is_done: bool,
}

/// A session as the `sessions` table stores it: identifiers are bound as
/// `i64` (`id as i64`), flags as booleans.
#[derive(Clone, Copy, Debug, PartialEq, Eq, Structural)]
pub struct SessionRow {
    pub post_id: i64,
    pub guild_id: i64,
    pub forum_id: i64,
    pub author_id: i64,
    pub announcement_channel_id: i64,
    pub announcement_message_id: i64,
    pub complete_message_id: i64,
    pub last_activity_timestamp: i64,
    pub warning_sent: bool,
    pub warning_message_id: Option<i64>,
    pub permission_warning_sent: bool,
    pub is_done: bool,
}

/// `value - minutes` in seconds, as `(now - Duration::minutes(m)).timestamp()`
/// computes it.
pub open spec fn minutes_before(now: i64, minutes: i64) -> int {
    now - minutes * 60
}

impl SessionRow {
    /// The row can be read back into a session: every identifier column
    /// decodes as a `u64` (it is not negative) and is a valid Discord id (not
    /// zero); a stored warning message id is not zero.
    pub open spec fn readable(self) -> bool {
        &&& self.post_id > 0
        &&& self.guild_id > 0
        &&& self.forum_id > 0
        &&& self.author_id > 0
        &&& self.announcement_channel_id > 0
        &&& self.announcement_message_id > 0
        &&& self.complete_message_id > 0
        &&& (self.warning_message_id matches Some(m) ==> m != 0)
    }

    /// Whether `Session::from_row` accepts this row.
    pub fn is_readable(&self) -> (b: bool)
        ensures
            b == self.readable(),
    {
        self.post_id > 0 && self.guild_id > 0 && self.forum_id > 0 && self.author_id > 0
            && self.announcement_channel_id > 0 && self.announcement_message_id > 0
            && self.complete_message_id > 0 && match self.warning_message_id {
            Some(m) => m != 0,
            None => true,
        }
    }

    /// The session that a readable row holds.
    pub open spec fn session(self) -> Session {
        Session {
            post_id: self.post_id as u64,
            guild_id: self.guild_id as u64,
            forum_id: self.forum_id as u64,
            author_id: self.author_id as u64,
            announcement_channel_id: self.announcement_channel_id as u64,
            announcement_message_id: self.announcement_message_id as u64,
            complete_message_id: self.complete_message_id as u64,
            last_activity_timestamp: self.last_activity_timestamp,
            warning_sent: self.warning_sent,
            warning_message_id: match self.warning_message_id {
                Some(m) => Some(#[verifier::truncate] (m as u64)),
                None => None,
            },
            permission_warning_sent: self.permission_warning_sent,
            is_done: self.is_done,
        }
    }
}

impl Session {
    /// Every identifier is a valid Discord id (not zero).
    pub open spec fn valid(self) -> bool {
        &&& self.post_id != 0
        &&& self.guild_id != 0
        &&& self.forum_id != 0
        &&& self.author_id != 0
        &&& self.announcement_channel_id != 0
        &&& self.announcement_message_id != 0
        &&& self.complete_message_id != 0
        &&& (self.warning_message_id matches Some(m) ==> m != 0)
    }

    /// The row that stores this session.
    pub open spec fn row(self) -> SessionRow {
        SessionRow {
            post_id: #[verifier::truncate] (self.post_id as i64),
            guild_id: #[verifier::truncate] (self.guild_id as i64),
            forum_id: #[verifier::truncate] (self.forum_id as i64),
            author_id: #[verifier::truncate] (self.author_id as i64),
            announcement_channel_id: #[verifier::truncate] (self.announcement_channel_id as i64),
            announcement_message_id: #[verifier::truncate] (self.announcement_message_id as i64),
            complete_message_id: #[verifier::truncate] (self.complete_message_id as i64),
            last_activity_timestamp: self.last_activity_timestamp,
            warning_sent: self.warning_sent,
            warning_message_id: match self.warning_message_id {
                Some(m) => Some(#[verifier::truncate] (m as i64)),
                None => None,
            },
            permission_warning_sent: self.permission_warning_sent,
            is_done: self.is_done,
        }
    }

    /// A fresh session: active as of `now`, not warned, not completed.
    pub open spec fn opened(
        post_id: u64,
        guild_id: u64,
        forum_id: u64,
        author_id: u64,
        announcement_channel_id: u64,
        announcement_message_id: u64,
        complete_message_id: u64,
        now: i64,
    ) -> Session {
        Session {
            post_id,
            guild_id,
            forum_id,
            author_id,
            announcement_channel_id,
            announcement_message_id,
            complete_message_id,
            last_activity_timestamp: now,
            warning_sent: false,
            warning_message_id: None,
            permission_warning_sent: false,
            is_done: false,
        }
    }

    /// A new session whose last activity is the current time.
    pub fn new(
        post_id: u64,
        guild_id: u64,
        forum_id: u64,
        author_id: u64,
        announcement_channel_id: u64,
        announcement_message_id: u64,
        complete_message_id: u64,
    ) -> (s: Session)
        ensures
            s == Session::opened(
                post_id,
                guild_id,
                forum_id,
                author_id,
                announcement_channel_id,
                announcement_message_id,
                complete_message_id,
                s.last_activity_timestamp,
            ),
    {
        let now = now_timestamp();
        Session::new_at(
            post_id,
            guild_id,
            forum_id,
            author_id,
            announcement_channel_id,
            announcement_message_id,
            complete_message_id,
            now,
        )
    }

    /// A new session whose last activity is `now`.
    pub fn new_at(
        post_id: u64,
        guild_id: u64,
        forum_id: u64,
        author_id: u64,
        announcement_channel_id: u64,
        announcement_message_id: u64,
        complete_message_id: u64,
        now: i64,
    ) -> (s: Session)
        ensures
            s == Session::opened(
                post_id,
                guild_id,
                forum_id,
                author_id,
                announcement_channel_id,
                announcement_message_id,
                complete_message_id,
                now,
            ),
    {
        Session {
            post_id,
            guild_id,
            forum_id,
            author_id,
            announcement_channel_id,
            announcement_message_id,
            complete_message_id,
            last_activity_timestamp: now,
            warning_sent: false,
            warning_message_id: None,
            permission_warning_sent: false,
            is_done: false,
        }
    }

    /// The values that storing this session binds to the `sessions` columns.
    pub fn to_row(&self) -> (r: SessionRow)
        ensures
            r == self.row(),
    {
        SessionRow {
            post_id: #[verifier::truncate] (self.post_id as i64),
            guild_id: #[verifier::truncate] (self.guild_id as i64),
            forum_id: #[verifier::truncate] (self.forum_id as i64),
            author_id: #[verifier::truncate] (self.author_id as i64),
            announcement_channel_id: #[verifier::truncate] (self.announcement_channel_id as i64),
            announcement_message_id: #[verifier::truncate] (self.announcement_message_id as i64),
            complete_message_id: #[verifier::truncate] (self.complete_message_id as i64),
            last_activity_timestamp: self.last_activity_timestamp,
            warning_sent: self.warning_sent,
            warning_message_id: match self.warning_message_id {
                Some(m) => Some(#[verifier::truncate] (m as i64)),
                None => None,
            },
            permission_warning_sent: self.permission_warning_sent,
            is_done: self.is_done,
        }
    }

    /// The session that a stored row holds.
    pub fn from_row(row: &SessionRow) -> (s: Session)
        requires
            row.readable(),
        ensures
            s == row.session(),
            s.valid(),
    {
        Session {
            post_id: row.post_id as u64,
            guild_id: row.guild_id as u64,
            forum_id: row.forum_id as u64,
            author_id: row.author_id as u64,
            announcement_channel_id: row.announcement_channel_id as u64,
            announcement_message_id: row.announcement_message_id as u64,
            complete_message_id: row.complete_message_id as u64,
            last_activity_timestamp: row.last_activity_timestamp,
            warning_sent: row.warning_sent,
            warning_message_id: match row.warning_message_id {
                Some(m) => {
                    assert(m != 0 ==> (#[verifier::truncate] (m as u64)) != 0) by (bit_vector);
                    Some(#[verifier::truncate] (m as u64))
                },
                None => None,
            },
            permission_warning_sent: row.permission_warning_sent,
            is_done: row.is_done,
        }
    }
}


impl Session {
    /// Every identifier can be stored in its `i64` column and read back as
    /// the same `u64` (Discord ids always can).
    pub open spec fn fits_row(self) -> bool {
        &&& self.post_id <= i64::MAX
        &&& self.guild_id <= i64::MAX
        &&& self.forum_id <= i64::MAX
        &&& self.author_id <= i64::MAX
        &&& self.announcement_channel_id <= i64::MAX
        &&& self.announcement_message_id <= i64::MAX
        &&& self.complete_message_id <= i64::MAX
    }

    /// The session has been inactive for at least `MINUTES_TILL_WARN` minutes
    /// as of `now`, is not completed and has not been warned yet.
    pub open spec fn due_for_warning(self, now: i64) -> bool {
        &&& !self.warning_sent
        &&& !self.is_done
        &&& self.last_activity_timestamp <= minutes_before(now, MINUTES_TILL_WARN)
    }

    /// The session is completed, or it was warned and has been inactive for
    /// at least `MINUTES_TILL_DELETE` minutes as of `now` (thirty minutes
    /// past the warning threshold).
    pub open spec fn due_for_deletion(self, now: i64) -> bool {
        ||| self.is_done
        ||| (self.warning_sent && self.last_activity_timestamp <= minutes_before(
            now,
            MINUTES_TILL_DELETE,
        ))
    }

    /// Whether the session is to be warned as of `now`.
    pub fn is_due_for_warning(&self, now: i64) -> (b: bool)
        ensures
            b == self.due_for_warning(now),
    {
        !self.warning_sent && !self.is_done && (self.last_activity_timestamp as i128) <= (now
            as i128) - (MINUTES_TILL_WARN as i128) * 60
    }

    /// Whether the session is to be deleted as of `now`.
    pub fn is_due_for_deletion(&self, now: i64) -> (b: bool)
        ensures
            b == self.due_for_deletion(now),
    {
        self.is_done || (self.warning_sent && (self.last_activity_timestamp as i128) <= (now
            as i128) - (MINUTES_TILL_DELETE as i128) * 60)
    }

    /// The session after it is marked as completed.
    pub open spec fn completed(self) -> Session {
        Session { is_done: true, ..self }
    }

    /// The session after the inactivity warning `message_id` was posted.
    pub open spec fn warned(self, message_id: u64) -> Session {
        Session { warning_sent: true, warning_message_id: Some(message_id), ..self }
    }

    /// The session after the missing-permission notice was posted.
    pub open spec fn permission_warned(self) -> Session {
        Session { permission_warning_sent: true, ..self }
    }

    /// The session after activity at `now`: the warning state is cleared.
    pub open spec fn touched(self, now: i64) -> Session {
        Session {
            last_activity_timestamp: now,
            warning_sent: false,
            warning_message_id: None,
            ..self
        }
    }
}

proof fn lemma_id_round_trip(x: u64)
    requires
        x <= i64::MAX,
    ensures
        (#[verifier::truncate] (x as i64)) as u64 == x,
        x != 0 ==> (#[verifier::truncate] (x as i64)) > 0,
{
    assert((x <= 0x7fff_ffff_ffff_ffffu64) ==> ((#[verifier::truncate] (x as i64)) as u64 == x))
        by (bit_vector);
    assert((x <= 0x7fff_ffff_ffff_ffffu64 && x != 0) ==> (#[verifier::truncate] (x as i64)) > 0)
        by (bit_vector);
}

proof fn lemma_message_id_round_trip(m: u64)
    ensures
        (#[verifier::truncate] ((#[verifier::truncate] (m as i64)) as u64)) == m,
        m != 0 ==> (#[verifier::truncate] (m as i64)) != 0,
{
    assert((#[verifier::truncate] ((#[verifier::truncate] (m as i64)) as u64)) == m) by (bit_vector);
    assert(m != 0 ==> (#[verifier::truncate] (m as i64)) != 0) by (bit_vector);
}

proof fn lemma_stored_message_id_round_trip(v: i64)
    ensures
        (#[verifier::truncate] ((#[verifier::truncate] (v as u64)) as i64)) == v,
{
    assert((#[verifier::truncate] ((#[verifier::truncate] (v as u64)) as i64)) == v) by (bit_vector);
}

/// Reading back what was stored: a valid session whose identifiers fit the
/// table is stored as a readable row, and reading that row gives the session
/// back unchanged.
pub proof fn lemma_session_row_round_trip(s: Session)
    requires
        s.valid(),
        s.fits_row(),
    ensures
        s.row().readable(),
        s.row().session() == s,
{
    lemma_id_round_trip(s.post_id);
    lemma_id_round_trip(s.guild_id);
    lemma_id_round_trip(s.forum_id);
    lemma_id_round_trip(s.author_id);
    lemma_id_round_trip(s.announcement_channel_id);
    lemma_id_round_trip(s.announcement_message_id);
    lemma_id_round_trip(s.complete_message_id);
    if let Some(m) = s.warning_message_id {
        lemma_message_id_round_trip(m);
    }
}

/// Storing what was read: a readable row, read as a session and stored
/// again, gives the same row.
pub proof fn lemma_row_session_round_trip(r: SessionRow)
    requires
        r.readable(),
    ensures
        r.session().row() == r,
        r.session().valid(),
        r.session().fits_row(),
{
    if let Some(v) = r.warning_message_id {
        lemma_stored_message_id_round_trip(v);
        assert(v != 0 ==> (#[verifier::truncate] (v as u64)) != 0) by (bit_vector);
    }
}

} // verus!
