use gather::session::Session;
use gather::session_manager::{RowChange, SessionError, SessionManager};

fn session(post_id: u64, forum_id: u64, last_activity: i64) -> Session {
    Session::new_at(post_id, 10, forum_id, 20, 30, 40 + post_id, 50, last_activity)
}

fn posts(v: &[Session]) -> Vec<u64> {
    v.iter().map(|s| s.post_id).collect()
}

fn table(sessions: &[Session]) -> SessionManager {
    let mut m = SessionManager::new();
    for s in sessions {
        m.add_channel(*s).unwrap();
    }
    m
}

#[test]
fn added_session_is_found() {
    let mut m = SessionManager::new();
    assert_eq!(m.get_session(1), None);
    let s = session(1, 100, 0);
    assert_eq!(m.add_channel(s), Ok(()));
    assert_eq!(m.get_session(1), Some(s));
    assert_eq!(m.get_all_sessions(), vec![s]);
}

#[test]
fn duplicate_post_is_refused() {
    let mut m = table(&[session(1, 100, 0)]);
    let other = session(1, 200, 5);
    assert_eq!(m.add_channel(other), Err(SessionError::DuplicatePost));
    assert_eq!(m.get_session(1), Some(session(1, 100, 0)));
    assert_eq!(m.get_all_sessions().len(), 1);
}

#[test]
fn removed_session_is_gone() {
    let mut m = table(&[session(1, 100, 0), session(2, 100, 0), session(3, 200, 0)]);
    assert!(m.remove_channel(2));
    assert_eq!(m.get_session(2), None);
    assert_eq!(m.get_session(1), Some(session(1, 100, 0)));
    assert_eq!(posts(&m.get_all_sessions()), vec![1, 3]);
    assert!(!m.remove_channel(2));
    assert_eq!(posts(&m.get_all_sessions()), vec![1, 3]);
}

#[test]
fn removed_forum_is_empty() {
    let mut m = table(&[session(1, 100, 0), session(2, 200, 0), session(3, 100, 0)]);
    assert_eq!(posts(&m.get_sessions_by_forum(100)), vec![1, 3]);
    assert_eq!(m.remove_channels_by_forum(100), 2);
    assert!(m.get_sessions_by_forum(100).is_empty());
    assert_eq!(posts(&m.get_all_sessions()), vec![2]);
    assert_eq!(m.remove_channels_by_forum(100), 0);
}

#[test]
fn completed_session_is_deleted_not_warned() {
    let mut m = table(&[session(1, 100, 1_000_000), session(2, 100, 1_000_000)]);
    assert!(m.mark_completed(1));
    assert!(!m.mark_completed(9));
    assert!(m.get_session(1).unwrap().is_done);
    assert_eq!(posts(&m.sessions_to_delete_at(1_000_000)), vec![1]);
    assert_eq!(posts(&m.sessions_to_warn_at(1_000_000 + 3600)), vec![2]);
}

#[test]
fn warning_is_sent_once() {
    let mut m = table(&[session(1, 100, 0), session(2, 100, 0)]);
    assert_eq!(posts(&m.sessions_to_warn_at(3600)), vec![1, 2]);
    m.mark_warning_sent(1, 777);
    let s = m.get_session(1).unwrap();
    assert!(s.warning_sent);
    assert_eq!(s.warning_message_id, Some(777));
    assert_eq!(posts(&m.sessions_to_warn_at(3600)), vec![2]);
    assert_eq!(posts(&m.sessions_to_warn_at(1_000_000)), vec![2]);
}

#[test]
fn activity_resets_inactivity() {
    let mut m = table(&[session(1, 100, 0)]);
    m.mark_warning_sent(1, 777);
    assert_eq!(m.update_activity_at(1, 50_000), Some(777));
    let s = m.get_session(1).unwrap();
    assert_eq!(s.last_activity_timestamp, 50_000);
    assert!(!s.warning_sent);
    assert_eq!(s.warning_message_id, None);
    assert!(m.sessions_to_warn_at(50_000).is_empty());
    assert!(m.sessions_to_delete_at(50_000).is_empty());
    assert_eq!(m.update_activity_at(1, 50_001), None);
    assert_eq!(m.update_activity_at(9, 50_001), None);
}

#[test]
fn update_activity_uses_the_clock() {
    let mut m = table(&[session(1, 100, 0)]);
    assert_eq!(m.update_activity(1), None);
    assert!(m.get_session(1).unwrap().last_activity_timestamp > 1_600_000_000);
    assert!(m.get_sessions_to_warn().is_empty());
    assert!(m.get_sessions_to_delete().is_empty());
}

#[test]
fn old_sessions_are_due_at_the_current_time() {
    let mut m = table(&[session(1, 100, 0)]);
    assert_eq!(posts(&m.get_sessions_to_warn()), vec![1]);
    assert!(m.get_sessions_to_delete().is_empty());
    m.mark_warning_sent(1, 900);
    assert!(m.get_sessions_to_warn().is_empty());
    assert_eq!(posts(&m.get_sessions_to_delete()), vec![1]);
}

#[test]
fn deletion_follows_the_warning_window() {
    let mut m = table(&[session(1, 100, 0), session(2, 100, 1800)]);
    // nothing is deleted before it was warned
    assert!(m.sessions_to_delete_at(5400).is_empty());
    assert!(m.sessions_to_delete_at(1_000_000).is_empty());
    assert_eq!(posts(&m.sessions_to_warn_at(3600)), vec![1]);
    m.mark_warning_sent(1, 901);
    // thirty minutes after the warning threshold the warned post goes
    assert!(m.sessions_to_delete_at(5399).is_empty());
    assert_eq!(posts(&m.sessions_to_delete_at(5400)), vec![1]);
    assert_eq!(posts(&m.sessions_to_warn_at(5400)), vec![2]);
}

#[test]
fn unwarned_session_is_kept_after_downtime() {
    let m = table(&[session(1, 100, 0)]);
    assert!(m.sessions_to_delete_at(5400).is_empty());
    assert!(m.sessions_to_delete_at(i64::MAX).is_empty());
    assert_eq!(posts(&m.sessions_to_warn_at(i64::MAX)), vec![1]);
}

#[test]
fn other_writes_keep_a_session() {
    let mut m = table(&[session(1, 100, 0), session(2, 200, 0)]);
    let before = m.get_session(1);
    m.add_channel(session(3, 100, 7)).unwrap();
    m.mark_completed(2);
    m.mark_warning_sent(3, 5);
    m.mark_permission_warning_sent(2);
    m.update_activity_at(3, 99);
    m.remove_channel(2);
    m.remove_channels_by_forum(200);
    assert_eq!(m.get_session(1), before);
}

#[test]
fn second_activity_finds_no_warning() {
    let mut m = table(&[session(1, 100, 0)]);
    m.mark_warning_sent(1, 700);
    assert_eq!(m.update_activity_at(1, 10), Some(700));
    let after_first = m.get_session(1).unwrap();
    assert_eq!(m.update_activity_at(1, 20), None);
    assert_eq!(m.get_session(1), Some(Session { last_activity_timestamp: 20, ..after_first }));
    assert_eq!(m.update_activity_at(9, 30), None);
}

#[test]
fn permission_warning_flag() {
    let mut m = table(&[session(1, 100, 0)]);
    m.mark_permission_warning_sent(1);
    assert!(m.get_session(1).unwrap().permission_warning_sent);
    m.mark_permission_warning_sent(5);
    assert_eq!(m.get_all_sessions().len(), 1);
}

#[test]
fn clone_keeps_the_sessions() {
    let m = table(&[session(1, 100, 0), session(2, 100, 0)]);
    let c = m.clone();
    assert_eq!(c.get_all_sessions(), m.get_all_sessions());
}

#[test]
fn row_changes_bring_the_rows_in_line() {
    let before = table(&[session(1, 100, 0), session(2, 100, 0), session(3, 200, 0)]);
    let mut after = before.clone();
    assert!(SessionManager::row_changes(&before, &after).is_empty());
    after.remove_channel(2);
    after.mark_completed(3);
    after.add_channel(session(4, 100, 9)).unwrap();
    let mut completed = session(3, 200, 0);
    completed.is_done = true;
    assert_eq!(
        SessionManager::row_changes(&before, &after),
        vec![
            RowChange::Delete(2),
            RowChange::Save(completed),
            RowChange::Save(session(4, 100, 9)),
        ]
    );
    // a change to a post that has no session writes nothing
    let mut same = before.clone();
    same.update_activity_at(9, 5);
    assert!(SessionManager::row_changes(&before, &same).is_empty());
}
