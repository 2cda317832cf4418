use levels::message_create::{count_message, count_message_at, xp_cooldown_active, MessageXp};
use levels::rows::{FullLevelRow, MESSAGE_XP_END, MESSAGE_XP_MIN};
use levels::time::Timestamp;

fn ts(secs: i64, nanos: u32) -> Timestamp {
    Timestamp { secs, nanos }
}

fn row_at(last_xp: Timestamp) -> FullLevelRow {
    FullLevelRow { id: 3, xp: 5, level: 0, total_xp: 5, message_count: 1, last_xp }
}

#[test]
fn cooldown_runs_for_one_minute() {
    let last = ts(1_000_000, 500);
    assert!(xp_cooldown_active(last, ts(1_000_000, 500)));
    assert!(xp_cooldown_active(last, ts(1_000_059, 999_999_999)));
    assert!(xp_cooldown_active(last, ts(1_000_060, 499)));
    assert!(!xp_cooldown_active(last, ts(1_000_060, 500)));
    assert!(!xp_cooldown_active(last, ts(1_000_061, 0)));
}

#[test]
fn cooldown_after_a_leap_second_ends_a_second_early() {
    // 23:59:59.5 during a leap second, one minute later is 00:00:59.5.
    let last = ts(86_399, 1_500_000_000);
    assert!(xp_cooldown_active(last, ts(86_459, 499_999_999)));
    assert!(!xp_cooldown_active(last, ts(86_459, 500_000_000)));
}

#[test]
fn message_on_cooldown_changes_nothing() {
    let mut row = row_at(ts(1_000_000, 0));
    let outcome = count_message_at(&mut row, ts(1_000_030, 0));
    assert_eq!(outcome, MessageXp::OnCooldown);
    assert_eq!((row.xp, row.total_xp, row.message_count), (5, 5, 1));
}

#[test]
fn message_after_cooldown_is_counted() {
    let mut row = row_at(ts(1_000_000, 0));
    let outcome = count_message_at(&mut row, ts(1_000_060, 0));
    assert_eq!(outcome, MessageXp::Counted(None));
    assert_eq!(row.message_count, 2);
    let gain = row.total_xp - 5;
    assert!(MESSAGE_XP_MIN as i64 <= gain && gain < MESSAGE_XP_END as i64);
    assert_eq!(row.xp as i64, 5 + gain);
    assert_eq!(row.last_xp, ts(1_000_000, 0));
}

#[test]
fn counted_message_can_level_up() {
    let mut row = FullLevelRow { id: 3, xp: 99, level: 0, total_xp: 99, message_count: 9, last_xp: ts(0, 0) };
    let outcome = count_message_at(&mut row, ts(120, 0));
    assert_eq!(outcome, MessageXp::Counted(Some(1)));
    assert_eq!(row.level, 1);
    assert!(row.xp >= MESSAGE_XP_MIN - 1 && row.xp < MESSAGE_XP_END - 1);
}

#[test]
fn message_of_a_fresh_row_is_counted_now() {
    let mut row = FullLevelRow::default();
    let outcome = count_message(&mut row);
    assert_eq!(outcome, MessageXp::Counted(None));
    assert_eq!(row.message_count, 1);
}
