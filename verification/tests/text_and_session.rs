use gather::session::{Session, SessionRow, MINUTES_TILL_DELETE, MINUTES_TILL_WARN};
use gather::text::{channel_mention, decimal_string, message_link, role_mention, user_mention};

fn sample(post_id: u64, forum_id: u64, last_activity: i64) -> Session {
    Session::new_at(post_id, 10, forum_id, 20, 30, 40, 50, last_activity)
}

#[test]
fn decimal_of_zero_and_large_values() {
    assert_eq!(decimal_string(0), "0");
    assert_eq!(decimal_string(7), "7");
    assert_eq!(decimal_string(1234567890), "1234567890");
    assert_eq!(decimal_string(u64::MAX), "18446744073709551615");
}

#[test]
fn mentions_and_links() {
    assert_eq!(user_mention(42), "<@42>");
    assert_eq!(channel_mention(1130000000000000000), "<#1130000000000000000>");
    assert_eq!(role_mention(9), "<@&9>");
    assert_eq!(
        message_link(1, 22, 333),
        "https://discord.com/channels/1/22/333"
    );
}

#[test]
fn new_session_is_fresh() {
    let s = Session::new_at(1, 2, 3, 4, 5, 6, 7, 1000);
    assert_eq!(s.post_id, 1);
    assert_eq!(s.guild_id, 2);
    assert_eq!(s.forum_id, 3);
    assert_eq!(s.author_id, 4);
    assert_eq!(s.announcement_channel_id, 5);
    assert_eq!(s.announcement_message_id, 6);
    assert_eq!(s.complete_message_id, 7);
    assert_eq!(s.last_activity_timestamp, 1000);
    assert!(!s.warning_sent);
    assert!(!s.permission_warning_sent);
    assert_eq!(s.warning_message_id, None);
    assert!(!s.is_done);
}

#[test]
fn new_session_uses_the_clock() {
    let s = Session::new(1, 2, 3, 4, 5, 6, 7);
    assert!(s.last_activity_timestamp > 1_600_000_000);
    assert!(!s.is_done && !s.warning_sent);
}

#[test]
fn row_round_trip_keeps_every_field() {
    let mut s = sample(1_130_000_000_000_000_001, 1_130_000_000_000_000_002, -5);
    s.warning_sent = true;
    s.warning_message_id = Some(u64::MAX);
    s.permission_warning_sent = true;
    s.is_done = true;
    let row = s.to_row();
    assert_eq!(row.post_id, 1_130_000_000_000_000_001i64);
    assert_eq!(row.warning_message_id, Some(-1));
    assert!(row.is_readable());
    assert_eq!(Session::from_row(&row), s);
    assert_eq!(Session::from_row(&row).to_row(), row);
}

#[test]
fn unreadable_rows() {
    let good = sample(1, 2, 0).to_row();
    assert!(good.is_readable());
    let zero = SessionRow { post_id: 0, ..good };
    assert!(!zero.is_readable());
    let negative = SessionRow { forum_id: -3, ..good };
    assert!(!negative.is_readable());
    let zero_warning = SessionRow { warning_message_id: Some(0), ..good };
    assert!(!zero_warning.is_readable());
    let big_id = sample(u64::MAX, 2, 0).to_row();
    assert_eq!(big_id.post_id, -1);
    assert!(!big_id.is_readable());
}

#[test]
fn warning_and_deletion_thresholds() {
    assert_eq!(MINUTES_TILL_WARN, 60);
    assert_eq!(MINUTES_TILL_DELETE, 90);
    let s = sample(1, 2, 10_000);
    assert!(!s.is_due_for_warning(10_000 + 3599));
    assert!(s.is_due_for_warning(10_000 + 3600));
    // never warned: kept however long it is inactive
    assert!(!s.is_due_for_deletion(10_000 + 5400));
    assert!(!s.is_due_for_deletion(i64::MAX));
    let warned = Session { warning_sent: true, ..s };
    assert!(!warned.is_due_for_deletion(10_000 + 5399));
    assert!(warned.is_due_for_deletion(10_000 + 5400));
    assert!(!warned.is_due_for_warning(10_000 + 9000));
    let done = Session { is_done: true, ..s };
    assert!(!done.is_due_for_warning(10_000 + 9000));
    assert!(done.is_due_for_deletion(10_000));
}

#[test]
fn thresholds_at_the_ends_of_the_clock() {
    let s = sample(1, 2, i64::MIN);
    assert!(s.is_due_for_warning(i64::MAX));
    assert!(!s.is_due_for_warning(i64::MIN));
    let t = sample(1, 2, i64::MAX);
    assert!(!t.is_due_for_deletion(i64::MAX));
    let w = Session { warning_sent: true, ..sample(1, 2, i64::MIN) };
    assert!(w.is_due_for_deletion(i64::MAX));
    assert!(!w.is_due_for_deletion(i64::MIN));
}
