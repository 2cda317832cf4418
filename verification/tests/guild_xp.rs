use levels::guild_xp::{
    channel_is_blocked, earned_xp_recently, guild_message_update, guild_message_update_with,
    highest_role, level_for_total_xp, xp_for_next_level, GuildXpUpdate, LevelRole,
    GUILD_MESSAGE_XP_END, GUILD_MESSAGE_XP_MIN, GUILD_TOTAL_XP_LIMIT,
};
use levels::time::Timestamp;

fn ts(secs: i64, nanos: u32) -> Timestamp {
    Timestamp { secs, nanos }
}

#[test]
fn xp_for_next_level_formula() {
    assert_eq!(xp_for_next_level(0), 100);
    assert_eq!(xp_for_next_level(1), 155);
    assert_eq!(xp_for_next_level(10), 1100);
    assert_eq!(xp_for_next_level(20719), 5 * 20719 * 20719 + 50 * 20719 + 100);
}

#[test]
fn level_for_total_xp_splits_the_total() {
    assert_eq!(level_for_total_xp(0), (0, 0));
    assert_eq!(level_for_total_xp(99), (0, 99));
    assert_eq!(level_for_total_xp(100), (1, 0));
    assert_eq!(level_for_total_xp(254), (1, 154));
    assert_eq!(level_for_total_xp(255), (2, 0));
    assert_eq!(level_for_total_xp(1000), (4, 230));
    assert_eq!(level_for_total_xp(5000), (10, 325));
}

#[test]
fn level_for_negative_total_is_zero() {
    assert_eq!(level_for_total_xp(-5), (0, -5));
    assert_eq!(level_for_total_xp(i32::MIN), (0, i32::MIN));
}

#[test]
fn level_for_the_largest_served_total() {
    assert_eq!(level_for_total_xp(GUILD_TOTAL_XP_LIMIT - 1), (1082, 5907819));
}

#[test]
fn blocked_channels() {
    let blocked = vec![5u64, 9, 11];
    assert!(channel_is_blocked(&blocked, 9));
    assert!(!channel_is_blocked(&blocked, 10));
    assert!(!channel_is_blocked(&Vec::new(), 10));
}

#[test]
fn recent_xp_is_within_the_last_minute() {
    let now = ts(10_000, 0);
    assert!(earned_xp_recently(ts(9_940, 0), now));
    assert!(earned_xp_recently(ts(9_990, 0), now));
    assert!(!earned_xp_recently(ts(9_939, 999_999_999), now));
}

#[test]
fn recent_xp_around_a_leap_second() {
    // During the leap second 23:59:60.5, one minute earlier counts from 00:00:00 of the next day
    // back, which is 23:59:00.5.
    let now = ts(86_399, 1_500_000_000);
    assert!(earned_xp_recently(ts(86_340, 500_000_000), now));
    assert!(!earned_xp_recently(ts(86_340, 499_999_999), now));
}

#[test]
fn guild_message_in_blocked_channel_is_skipped() {
    let blocked = vec![4u64];
    assert_eq!(guild_message_update_with(&blocked, 4, ts(0, 0), ts(10_000, 0), 50, 20), None);
}

#[test]
fn guild_message_soon_after_xp_is_skipped() {
    assert_eq!(guild_message_update_with(&Vec::new(), 4, ts(9_950, 0), ts(10_000, 0), 50, 20), None);
}

#[test]
fn guild_message_moves_the_total_and_the_level() {
    assert_eq!(
        guild_message_update_with(&Vec::new(), 4, ts(0, 0), ts(10_000, 0), 90, 20),
        Some(GuildXpUpdate { xp: 10, total_xp: 110, level: 1 })
    );
    assert_eq!(
        guild_message_update_with(&vec![1u64], 4, ts(0, 0), ts(10_000, 0), 240, 15),
        Some(GuildXpUpdate { xp: 0, total_xp: 255, level: 2 })
    );
}

#[test]
fn guild_message_earns_xp_in_the_range() {
    let update = guild_message_update(&Vec::new(), 4, ts(0, 0), 1000).unwrap();
    let gain = update.total_xp - 1000;
    assert!(GUILD_MESSAGE_XP_MIN <= gain && gain < GUILD_MESSAGE_XP_END);
    assert_eq!((update.level, update.xp), level_for_total_xp(update.total_xp));
}

#[test]
fn guild_message_in_blocked_channel_is_skipped_now() {
    assert_eq!(guild_message_update(&vec![4u64], 4, ts(0, 0), GUILD_TOTAL_XP_LIMIT), None);
}

#[test]
fn guild_message_right_after_xp_is_skipped_now() {
    assert_eq!(guild_message_update(&Vec::new(), 4, ts(i64::MAX / 2_000_000, 0), 1000), None);
}

#[test]
fn highest_role_takes_the_highest_unlocked_level() {
    let roles = vec![
        LevelRole { role_id: 1, level: 5 },
        LevelRole { role_id: 2, level: 10 },
        LevelRole { role_id: 3, level: 20 },
        LevelRole { role_id: 4, level: 1 },
    ];
    assert_eq!(highest_role(&roles, 12), 2);
    assert_eq!(highest_role(&roles, 20), 3);
    assert_eq!(highest_role(&roles, 3), 4);
}

#[test]
fn highest_role_takes_the_last_of_equal_levels() {
    let roles = vec![
        LevelRole { role_id: 7, level: 5 },
        LevelRole { role_id: 8, level: 5 },
        LevelRole { role_id: 9, level: 50 },
    ];
    assert_eq!(highest_role(&roles, 6), 8);
}
