use levels::progress::level_up_xp;
use levels::rows::{FullLevelRow, LeaderboardRow, LevelsRow, RankRow, XpRow, MESSAGE_XP_END, MESSAGE_XP_MIN};
use levels::time::Timestamp;

fn xp_to_reach(level: i32) -> i64 {
    (0..level).map(|l| level_up_xp(l) as i64).sum()
}

fn row(xp: i32, level: i32, total_xp: i64, message_count: i64) -> FullLevelRow {
    FullLevelRow { id: 7, xp, level, total_xp, message_count, last_xp: Timestamp { secs: 0, nanos: 0 } }
}

#[test]
fn new_row_starts_at_level_zero() {
    let r = FullLevelRow::new(42);
    assert_eq!(r.id, 42);
    assert_eq!(r.xp, 0);
    assert_eq!(r.level, 0);
    assert_eq!(r.total_xp, 0);
    assert_eq!(r.message_count, 0);
    assert_eq!(r.last_xp, Timestamp { secs: 0, nanos: 0 });
}

#[test]
fn new_row_keeps_the_id_bits() {
    let r = FullLevelRow::new(u64::MAX);
    assert_eq!(r.id, -1);
    assert_eq!(r.user_id(), u64::MAX);
}

#[test]
fn record_message_without_level_up() {
    let mut r = row(10, 0, 10, 3);
    assert_eq!(r.record_message(20), None);
    assert_eq!((r.xp, r.level, r.total_xp, r.message_count), (30, 0, 30, 4));
}

#[test]
fn record_message_with_level_up_spends_the_level_up_xp() {
    let mut r = row(90, 0, 90, 3);
    assert_eq!(r.record_message(20), Some(1));
    assert_eq!((r.xp, r.level, r.total_xp, r.message_count), (10, 1, 110, 4));
}

#[test]
fn record_message_reaching_exactly_the_level_up_xp_levels_up() {
    let mut r = row(80, 0, 80, 0);
    assert_eq!(r.record_message(20), Some(1));
    assert_eq!((r.xp, r.level), (0, 1));
}

#[test]
fn record_message_one_short_of_the_level_up_xp_stays() {
    let mut r = row(79, 0, 79, 0);
    assert_eq!(r.record_message(20), None);
    assert_eq!((r.xp, r.level), (99, 0));
}

#[test]
fn new_message_earns_xp_in_the_message_range() {
    let mut r = FullLevelRow::new(1);
    let level = r.new_message();
    assert_eq!(level, None);
    assert!(MESSAGE_XP_MIN <= r.xp && r.xp < MESSAGE_XP_END);
    assert_eq!(r.total_xp, r.xp as i64);
    assert_eq!(r.message_count, 1);
}

#[test]
fn many_messages_keep_the_level_data_consistent() {
    let mut r = FullLevelRow::new(5);
    let mut level_ups = 0;
    for n in 1..=3000 {
        let before = r.level;
        let reached = r.new_message();
        if let Some(level) = reached {
            level_ups += 1;
            assert_eq!(level, before + 1);
            assert_eq!(r.level, level);
        } else {
            assert_eq!(r.level, before);
        }
        assert!(r.xp >= 0 && r.xp < level_up_xp(r.level));
        assert_eq!(r.total_xp, xp_to_reach(r.level) + r.xp as i64);
        assert_eq!(r.message_count, n);
    }
    assert!(level_ups > 0);
}

#[test]
fn default_rows() {
    let rank = RankRow::default();
    assert_eq!((rank.xp, rank.level), (0, 1));
    let xp = XpRow::default();
    assert_eq!((xp.xp, xp.level, xp.total_xp), (0, 1, 0));
    let full = FullLevelRow::default();
    assert_eq!((full.id, full.xp, full.level, full.total_xp, full.message_count), (0, 0, 0, 0, 0));
    assert_eq!(full.last_xp, Timestamp { secs: 0, nanos: 0 });
}

#[test]
fn rows_answer_what_they_hold() {
    let leaderboard = LeaderboardRow { id: 12, xp: 3, level: 4, message_count: 5 };
    assert_eq!(leaderboard.user_id(), 12);
    assert_eq!(leaderboard.xp(), 3);
    assert_eq!(leaderboard.level(), 4);
    assert_eq!(leaderboard.message_count(), 5);

    let rank = RankRow { xp: 8, level: 9 };
    assert_eq!((rank.xp(), rank.level()), (8, 9));

    let xp = XpRow { xp: 1, level: 2, total_xp: 300 };
    assert_eq!((xp.xp(), xp.level(), xp.total_xp()), (1, 2, 300));

    let full = FullLevelRow {
        id: 77,
        xp: 6,
        level: 2,
        total_xp: 259,
        message_count: 14,
        last_xp: Timestamp { secs: 1_700_000_000, nanos: 5 },
    };
    assert_eq!(full.user_id(), 77);
    assert_eq!((full.xp(), full.level(), full.total_xp(), full.message_count()), (6, 2, 259, 14));
    assert_eq!(full.last_xp(), Timestamp { secs: 1_700_000_000, nanos: 5 });
}
