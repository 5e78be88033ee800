//! What the session operations promise together: reading back what was
//! written, what completion and warnings do to the housekeeping queries, and
//! the thirty-minute gap between the inactivity warning and the deletion.

use vstd::prelude::*;
use crate::session::{Session, minutes_before, MINUTES_TILL_WARN};
use crate::session_manager::{
    unique_posts, has_post, lookup, without_post, without_forum, in_forum, to_warn, to_delete,
    update_post, touch_post, lemma_lookup_unique, lemma_lookup_none,
};

verus! {

broadcast use vstd::seq_lib::group_filter_ensures;

proof fn lemma_update_keeps_posts(
    t: Seq<Session>,
    post_id: u64,
    f: spec_fn(Session) -> Session,
)
    requires
        forall|x: Session| #[trigger] f(x).post_id == x.post_id,
    ensures
        update_post(t, post_id, f).len() == t.len(),
        forall|i: int|
            0 <= i < t.len() ==> (#[trigger] update_post(t, post_id, f)[i]).post_id == t[i].post_id,
        unique_posts(t) ==> unique_posts(update_post(t, post_id, f)),
        has_post(update_post(t, post_id, f), post_id) == has_post(t, post_id),
{
    let u = update_post(t, post_id, f);
    assert forall|i: int| 0 <= i < t.len() implies (#[trigger] u[i]).post_id == t[i].post_id by {
        let _ = f(t[i]);
    }
    if has_post(t, post_id) {
        let i = choose|i: int| 0 <= i < t.len() && t[i].post_id == post_id;
        assert(u[i].post_id == post_id);
    }
    if has_post(u, post_id) {
        let i = choose|i: int| 0 <= i < u.len() && u[i].post_id == post_id;
        assert(t[i].post_id == post_id);
    }
}

/// The session found for a post after `f` changed that post's session: `f`
/// applied to the session found before.
proof fn lemma_update_lookup(t: Seq<Session>, post_id: u64, f: spec_fn(Session) -> Session)
    requires
        unique_posts(t),
        has_post(t, post_id),
        forall|x: Session| #[trigger] f(x).post_id == x.post_id,
    ensures
        lookup(t, post_id) is Some,
        lookup(update_post(t, post_id, f), post_id) == Some(f(lookup(t, post_id)->0)),
{
    lemma_update_keeps_posts(t, post_id, f);
    let u = update_post(t, post_id, f);
    let i = choose|i: int| 0 <= i < t.len() && t[i].post_id == post_id;
    lemma_lookup_unique(t, post_id, i);
    assert(u[i] == f(t[i]));
    lemma_lookup_unique(u, post_id, i);
}

/// Read after write: once a session is added to a table that had no
/// session of its post, the table finds exactly that session for the post.
pub proof fn law_added_session_is_found(t: Seq<Session>, s: Session)
    requires
        unique_posts(t),
        !has_post(t, s.post_id),
    ensures
        lookup(t.push(s), s.post_id) == Some(s),
        unique_posts(t.push(s)),
{
    let u = t.push(s);
    assert forall|i: int, j: int| 0 <= i < j < u.len() implies u[i].post_id != u[j].post_id by {
        if j == t.len() {
            assert(u[i] == t[i]);
        } else {
            assert(u[i] == t[i] && u[j] == t[j]);
        }
    }
    lemma_lookup_unique(u, s.post_id, t.len() as int);
}

/// A removed session is gone, and the other posts find what they found
/// before.
pub proof fn law_removed_session_is_gone(t: Seq<Session>, post_id: u64, other: u64)
    requires
        unique_posts(t),
        other != post_id,
    ensures
        lookup(without_post(t, post_id), post_id) == None::<Session>,
        lookup(without_post(t, post_id), other) == lookup(t, other),
{
    let pred = |x: Session| x.post_id != post_id;
    let u = without_post(t, post_id);
    assert(!has_post(u, post_id)) by {
        if has_post(u, post_id) {
            let i = choose|i: int| 0 <= i < u.len() && u[i].post_id == post_id;
            assert(pred(u[i]));
        }
    }
    lemma_lookup_none(u, post_id);
    #[allow(deprecated)]
    t.filter_lemma(pred);
    crate::session_manager::lemma_filter_unique(t, pred);
    if has_post(t, other) {
        let i = choose|i: int| 0 <= i < t.len() && t[i].post_id == other;
        assert(pred(t[i]));
        assert(u.contains(t[i]));
        let j = choose|j: int| 0 <= j < u.len() && u[j] == t[i];
        lemma_lookup_unique(t, other, i);
        lemma_lookup_unique(u, other, j);
    } else {
        lemma_lookup_none(t, other);
        assert(!has_post(u, other)) by {
            if has_post(u, other) {
                let j = choose|j: int| 0 <= j < u.len() && u[j].post_id == other;
                assert(u.contains(u[j]));
                crate::session_manager::lemma_filter_from(t, pred, j);
            }
        }
        lemma_lookup_none(u, other);
    }
}

/// After the sessions of a forum are removed, the forum has no session left.
pub proof fn law_removed_forum_is_empty(t: Seq<Session>, forum_id: u64)
    ensures
        in_forum(without_forum(t, forum_id), forum_id).len() == 0,
{
    let u = without_forum(t, forum_id);
    let v = in_forum(u, forum_id);
    if v.len() > 0 {
        assert(v[0].forum_id == forum_id);
        crate::session_manager::lemma_filter_from(u, |x: Session| x.forum_id == forum_id, 0);
        let j = choose|j: int| 0 <= j < u.len() && u[j] == v[0];
        crate::session_manager::lemma_filter_from(t, |x: Session| x.forum_id != forum_id, j);
        assert(u[j].forum_id != forum_id);
    }
}

/// A completed session is deleted at the next housekeeping cycle, whatever
/// the time, and it is never warned about.
pub proof fn law_completed_session_is_deleted_not_warned(t: Seq<Session>, post_id: u64, now: i64)
    requires
        unique_posts(t),
        has_post(t, post_id),
    ensures
        ({
            let u = update_post(t, post_id, |x: Session| x.completed());
            &&& lookup(u, post_id) is Some
            &&& to_delete(u, now).contains(lookup(u, post_id)->0)
            &&& forall|i: int|
                0 <= i < to_warn(u, now).len() ==> (#[trigger] to_warn(u, now)[i]).post_id
                    != post_id
        }),
{
    let f = |x: Session| x.completed();
    let u = update_post(t, post_id, f);
    lemma_update_lookup(t, post_id, f);
    lemma_update_keeps_posts(t, post_id, f);
    let x = lookup(u, post_id)->0;
    let i = choose|i: int| 0 <= i < t.len() && t[i].post_id == post_id;
    lemma_lookup_unique(u, post_id, i);
    assert(u[i] == x);
    assert(x.due_for_deletion(now));
    assert forall|k: int| 0 <= k < to_warn(u, now).len() implies (#[trigger] to_warn(
        u,
        now,
    )[k]).post_id != post_id by {
        let w = to_warn(u, now)[k];
        assert(w.due_for_warning(now));
        if w.post_id == post_id {
            assert(u.filter(|y: Session| y.due_for_warning(now)).contains(w));
            crate::session_manager::lemma_filter_from(u, |y: Session| y.due_for_warning(now), k);
            let j = choose|j: int| 0 <= j < u.len() && u[j] == w;
            if j != i {
                assert(u[j].post_id != u[i].post_id);
            }
        }
    }
}

/// Once the warning for a post is recorded, the post is not warned again,
/// and reading its activity gives that warning message back.
pub proof fn law_warning_is_sent_once(t: Seq<Session>, post_id: u64, message_id: u64, now: i64)
    requires
        unique_posts(t),
        has_post(t, post_id),
    ensures
        ({
            let u = update_post(t, post_id, |x: Session| x.warned(message_id));
            &&& lookup(u, post_id) matches Some(x) && x.warning_message_id == Some(message_id)
            &&& forall|i: int|
                0 <= i < to_warn(u, now).len() ==> (#[trigger] to_warn(u, now)[i]).post_id
                    != post_id
        }),
{
    let f = |x: Session| x.warned(message_id);
    let u = update_post(t, post_id, f);
    lemma_update_lookup(t, post_id, f);
    lemma_update_keeps_posts(t, post_id, f);
    let i = choose|i: int| 0 <= i < t.len() && t[i].post_id == post_id;
    assert forall|k: int| 0 <= k < to_warn(u, now).len() implies (#[trigger] to_warn(
        u,
        now,
    )[k]).post_id != post_id by {
        let w = to_warn(u, now)[k];
        assert(w.due_for_warning(now));
        if w.post_id == post_id {
            crate::session_manager::lemma_filter_from(u, |y: Session| y.due_for_warning(now), k);
            let j = choose|j: int| 0 <= j < u.len() && u[j] == w;
            if j != i {
                assert(u[j].post_id != u[i].post_id);
            }
        }
    }
}

/// Activity resets the inactivity clock: right after it, the post is neither
/// warned nor, unless completed, deleted; its pending warning is dropped.
pub proof fn law_activity_resets_inactivity(t: Seq<Session>, post_id: u64, now: i64)
    requires
        unique_posts(t),
        has_post(t, post_id),
    ensures
        ({
            let u = touch_post(t, post_id, now);
            &&& lookup(u, post_id) matches Some(x) && x.warning_message_id is None
                && !x.warning_sent
            &&& forall|i: int|
                0 <= i < to_warn(u, now).len() ==> (#[trigger] to_warn(u, now)[i]).post_id
                    != post_id
            &&& forall|i: int|
                0 <= i < to_delete(u, now).len() && (#[trigger] to_delete(u, now)[i]).post_id
                    == post_id ==> to_delete(u, now)[i].is_done
        }),
{
    let f = |x: Session| x.touched(now);
    let u = touch_post(t, post_id, now);
    assert(u == update_post(t, post_id, f));
    lemma_update_lookup(t, post_id, f);
    lemma_update_keeps_posts(t, post_id, f);
    let i = choose|i: int| 0 <= i < t.len() && t[i].post_id == post_id;
    assert(u[i] == f(t[i]));
    assert forall|k: int| 0 <= k < to_warn(u, now).len() implies (#[trigger] to_warn(
        u,
        now,
    )[k]).post_id != post_id by {
        let w = to_warn(u, now)[k];
        assert(w.due_for_warning(now));
        if w.post_id == post_id {
            crate::session_manager::lemma_filter_from(u, |y: Session| y.due_for_warning(now), k);
            let j = choose|j: int| 0 <= j < u.len() && u[j] == w;
            if j != i {
                assert(u[j].post_id != u[i].post_id);
            }
        }
    }
    assert forall|k: int|
        0 <= k < to_delete(u, now).len() && (#[trigger] to_delete(u, now)[k]).post_id
            == post_id implies to_delete(u, now)[k].is_done by {
        let w = to_delete(u, now)[k];
        assert(w.due_for_deletion(now));
        crate::session_manager::lemma_filter_from(u, |y: Session| y.due_for_deletion(now), k);
        let j = choose|j: int| 0 <= j < u.len() && u[j] == w;
        if j != i {
            assert(u[j].post_id != u[i].post_id);
        }
    }
}

/// Warning before deletion: a session that is not completed is deleted only
/// after it was warned, and only once it has been past the warning threshold
/// for thirty minutes: at every moment of the thirty minutes before, it was
/// already inactive for an hour.
pub proof fn law_deletion_follows_warning_window(s: Session, now: i64, t: i64)
    requires
        !s.is_done,
        s.due_for_deletion(now),
        now - 30 * 60 <= t <= now,
    ensures
        s.warning_sent,
        s.last_activity_timestamp <= minutes_before(t, MINUTES_TILL_WARN),
{
}

/// A session that is neither completed nor warned is never deleted, however
/// long it has been inactive.
pub proof fn law_unwarned_session_is_kept(s: Session, now: i64)
    requires
        !s.is_done,
        !s.warning_sent,
    ensures
        !s.due_for_deletion(now),
{
}

proof fn lemma_lookup_update(t: Seq<Session>, q: u64, f: spec_fn(Session) -> Session, p: u64)
    requires
        forall|x: Session| #[trigger] f(x).post_id == x.post_id,
    ensures
        lookup(update_post(t, q, f), p) == (if p == q {
            match lookup(t, p) {
                Some(x) => Some(f(x)),
                None => None,
            }
        } else {
            lookup(t, p)
        }),
    decreases t.len(),
{
    let u = update_post(t, q, f);
    if t.len() > 0 {
        let _ = f(t[0]);
        assert(u.drop_first() =~= update_post(t.drop_first(), q, f));
        lemma_lookup_update(t.drop_first(), q, f, p);
    }
}

proof fn lemma_lookup_push(t: Seq<Session>, s: Session, p: u64)
    requires
        s.post_id != p,
    ensures
        lookup(t.push(s), p) == lookup(t, p),
    decreases t.len(),
{
    if t.len() > 0 {
        assert(t.push(s)[0] == t[0]);
        assert(t.push(s).drop_first() =~= t.drop_first().push(s));
        lemma_lookup_push(t.drop_first(), s, p);
    } else {
        assert(t.push(s)[0] == s);
        assert(t.push(s).drop_first() =~= Seq::<Session>::empty());
        assert(lookup(Seq::<Session>::empty(), p) == None::<Session>);
    }
}

proof fn lemma_lookup_found(t: Seq<Session>, p: u64)
    requires
        lookup(t, p) is Some,
    ensures
        exists|i: int| 0 <= i < t.len() && t[i].post_id == p && t[i] == lookup(t, p)->0,
    decreases t.len(),
{
    if t[0].post_id != p {
        lemma_lookup_found(t.drop_first(), p);
        let i = choose|i: int|
            0 <= i < t.drop_first().len() && t.drop_first()[i].post_id == p && t.drop_first()[i]
                == lookup(t.drop_first(), p)->0;
        assert(t[i + 1] == t.drop_first()[i]);
    }
}

/// Writes to other posts leave a post's session as it was: adding a session
/// of another post, removing another post, completing, warning, noting a
/// permission problem in or recording activity in another post, and removing
/// a forum the session is not in.
pub proof fn law_other_writes_keep_session(
    t: Seq<Session>,
    post_id: u64,
    other: u64,
    added: Session,
    message_id: u64,
    now: i64,
    forum_id: u64,
)
    requires
        unique_posts(t),
        other != post_id,
    ensures
        added.post_id != post_id ==> lookup(t.push(added), post_id) == lookup(t, post_id),
        lookup(without_post(t, other), post_id) == lookup(t, post_id),
        lookup(update_post(t, other, |x: Session| x.completed()), post_id) == lookup(t, post_id),
        lookup(update_post(t, other, |x: Session| x.warned(message_id)), post_id) == lookup(
            t,
            post_id,
        ),
        lookup(update_post(t, other, |x: Session| x.permission_warned()), post_id) == lookup(
            t,
            post_id,
        ),
        lookup(touch_post(t, other, now), post_id) == lookup(t, post_id),
        (lookup(t, post_id) matches Some(x) && x.forum_id != forum_id) ==> lookup(
            without_forum(t, forum_id),
            post_id,
        ) == lookup(t, post_id),
{
    if added.post_id != post_id {
        lemma_lookup_push(t, added, post_id);
    }
    law_removed_session_is_gone(t, other, post_id);
    lemma_lookup_update(t, other, |x: Session| x.completed(), post_id);
    lemma_lookup_update(t, other, |x: Session| x.warned(message_id), post_id);
    lemma_lookup_update(t, other, |x: Session| x.permission_warned(), post_id);
    lemma_lookup_update(t, other, |x: Session| x.touched(now), post_id);
    if lookup(t, post_id) is Some && lookup(t, post_id)->0.forum_id != forum_id {
        let x = lookup(t, post_id)->0;
        let pred = |y: Session| y.forum_id != forum_id;
        let u = without_forum(t, forum_id);
        lemma_lookup_found(t, post_id);
        let i = choose|i: int| 0 <= i < t.len() && t[i].post_id == post_id && t[i] == x;
        lemma_lookup_unique(t, post_id, i);
        #[allow(deprecated)]
        t.filter_lemma(pred);
        assert(pred(t[i]));
        assert(u.contains(t[i]));
        let j = choose|j: int| 0 <= j < u.len() && u[j] == t[i];
        crate::session_manager::lemma_filter_unique(t, pred);
        lemma_lookup_unique(u, post_id, j);
    }
}

/// A second activity right after the first finds no pending warning, and
/// leaves the post as the first left it but for the later time.
pub proof fn law_second_activity_finds_no_warning(
    t: Seq<Session>,
    post_id: u64,
    first: i64,
    second: i64,
)
    ensures
        (match lookup(touch_post(t, post_id, first), post_id) {
            Some(x) => x.warning_message_id,
            None => None,
        }) == None::<u64>,
        touch_post(touch_post(t, post_id, first), post_id, second) == touch_post(
            t,
            post_id,
            second,
        ),
{
    lemma_lookup_update(t, post_id, |x: Session| x.touched(first), post_id);
    assert(touch_post(touch_post(t, post_id, first), post_id, second) =~= touch_post(
        t,
        post_id,
        second,
    ));
}

/// The sessions to warn at `now` are exactly the stored sessions that are
/// neither completed nor warned and whose last activity is at least an hour
/// (3600 seconds) before `now`, in table order.
pub proof fn law_warn_selection(t: Seq<Session>, now: i64, s: Session)
    ensures
        to_warn(t, now).contains(s) <==> (t.contains(s) && !s.is_done && !s.warning_sent
            && s.last_activity_timestamp <= now - 3600),
        forall|i: int|
            0 <= i < to_warn(t, now).len() ==> t.contains(#[trigger] to_warn(t, now)[i]),
{
    let pred = |x: Session| x.due_for_warning(now);
    let f = to_warn(t, now);
    assert(f == t.filter(pred));
    #[allow(deprecated)]
    t.filter_lemma(pred);
    if f.contains(s) {
        t.lemma_filter_contains_rev(pred, s);
        let i = choose|i: int| 0 <= i < f.len() && f[i] == s;
        assert(pred(f[i]));
    }
    if t.contains(s) && pred(s) {
        let i = choose|i: int| 0 <= i < t.len() && t[i] == s;
        t.lemma_filter_contains(pred, i);
    }
    assert forall|i: int| 0 <= i < f.len() implies t.contains(#[trigger] f[i]) by {
        assert(f.contains(f[i]));
        t.lemma_filter_contains_rev(pred, f[i]);
    }
}

/// The sessions to delete at `now` are exactly the stored sessions that are
/// completed, or that were warned and whose last activity is at least ninety
/// minutes (5400 seconds) before `now`, in table order.
pub proof fn law_delete_selection(t: Seq<Session>, now: i64, s: Session)
    ensures
        to_delete(t, now).contains(s) <==> (t.contains(s) && (s.is_done || (s.warning_sent
            && s.last_activity_timestamp <= now - 5400))),
        forall|i: int|
            0 <= i < to_delete(t, now).len() ==> t.contains(#[trigger] to_delete(t, now)[i]),
{
    let pred = |x: Session| x.due_for_deletion(now);
    let f = to_delete(t, now);
    assert(f == t.filter(pred));
    #[allow(deprecated)]
    t.filter_lemma(pred);
    if f.contains(s) {
        t.lemma_filter_contains_rev(pred, s);
        let i = choose|i: int| 0 <= i < f.len() && f[i] == s;
        assert(pred(f[i]));
    }
    if t.contains(s) && pred(s) {
        let i = choose|i: int| 0 <= i < t.len() && t[i] == s;
        t.lemma_filter_contains(pred, i);
    }
    assert forall|i: int| 0 <= i < f.len() implies t.contains(#[trigger] f[i]) by {
        assert(f.contains(f[i]));
        t.lemma_filter_contains_rev(pred, f[i]);
    }
}

/// Recording activity at `now` in a stored post sets that post's last
/// activity to `now` itself and clears its warning, keeps every other field,
/// and hands back the warning message the post had pending.
pub proof fn law_activity_is_stamped_now(t: Seq<Session>, post_id: u64, now: i64)
    requires
        unique_posts(t),
        has_post(t, post_id),
    ensures
        ({
            let before = lookup(t, post_id)->0;
            let after = lookup(touch_post(t, post_id, now), post_id)->0;
            &&& lookup(t, post_id) is Some
            &&& lookup(touch_post(t, post_id, now), post_id) is Some
            &&& after.last_activity_timestamp == now
            &&& !after.warning_sent
            &&& after.warning_message_id is None
            &&& after.post_id == before.post_id
            &&& after.guild_id == before.guild_id
            &&& after.forum_id == before.forum_id
            &&& after.author_id == before.author_id
            &&& after.announcement_channel_id == before.announcement_channel_id
            &&& after.announcement_message_id == before.announcement_message_id
            &&& after.complete_message_id == before.complete_message_id
            &&& after.permission_warning_sent == before.permission_warning_sent
            &&& after.is_done == before.is_done
        }),
{
    lemma_update_lookup(t, post_id, |x: Session| x.touched(now));
}

} // verus!
