use vstd::prelude::*;

use crate::random::thread_rng_random_range;
use crate::time::{is_after, sub_minutes, utc_now, Timestamp, MIN_TIMESTAMP_SECS};

verus! {

/// Smallest XP a counted guild message can earn.
pub const GUILD_MESSAGE_XP_MIN: i32 = 15i32;

/// One more than the largest XP a counted guild message can earn.
pub const GUILD_MESSAGE_XP_END: i32 = 25i32;

/// Total XP from which the level computation would step past the `i32` range: the XP needed to
/// reach level 1083. Every total below it is served.
pub const GUILD_TOTAL_XP_LIMIT: i32 = 2143536775i32;

/// XP it takes to go from `level` to `level + 1` in a guild's ranking.
pub open spec fn next_level_xp(level: int) -> int {
    5 * (level * level) + 50 * level + 100
}

/// The levels whose next-level XP, and every step of computing it, fits in an `i32`.
pub open spec fn next_level_xp_fits(level: int) -> bool {
    -20724 <= level <= 20719
}

/// Total XP it takes to reach `level` from level 0 in a guild's ranking.
pub open spec fn total_xp_for_level(level: nat) -> int
    decreases level,
{
    if level == 0 {
        0
    } else {
        total_xp_for_level((level - 1) as nat) + next_level_xp(level - 1)
    }
}

/// `level` and `xp` split the total XP `total`: `level` is the highest level (level 0 at
/// least) whose total XP has been reached, and `xp` is what is left over above it.
pub open spec fn is_level_split(total: int, level: int, xp: int) -> bool {
    &&& level >= 0
    &&& (level == 0 || total_xp_for_level(level as nat) <= total)
    &&& total < total_xp_for_level((level + 1) as nat)
    &&& xp == total - total_xp_for_level(level as nat)
}

/// XP it takes to go from `level` to `level + 1`, as the rank card shows it.
pub fn xp_for_next_level(level: i32) -> (r: i32)
    requires
        next_level_xp_fits(level as int),
    ensures
        r == next_level_xp(level as int),
{
    proof {
        lemma_next_level_xp_bounds(level as int);
    }
    5 * (level * level) + 50 * level + 100
}

proof fn lemma_next_level_xp_bounds(level: int)
    requires
        next_level_xp_fits(level),
    ensures
        0 <= level * level <= i32::MAX,
        0 <= 5 * (level * level) <= i32::MAX,
        i32::MIN <= 5 * (level * level) + 50 * level <= i32::MAX,
        i32::MIN <= next_level_xp(level) <= i32::MAX,
{
    assert(0 <= 5 * (level * level) <= i32::MAX) by (nonlinear_arith)
        requires -20724 <= level <= 20724;
    if level >= 0 {
        assert(5 * (level * level) + 50 * level + 100 <= i32::MAX) by (nonlinear_arith)
            requires 0 <= level <= 20719;
    } else {
        assert(5 * (level * level) + 50 * level + 100 <= i32::MAX) by (nonlinear_arith)
            requires -20724 <= level < 0;
    }
    assert(5 * (level * level) + 50 * level + 100 >= -200) by (nonlinear_arith);
}

/// Six times the total XP to reach `level`, in closed form.
spec fn six_total_xp_closed(n: int) -> int {
    5 * (n - 1) * n * (2 * n - 1) + 150 * n * (n - 1) + 600 * n
}

proof fn lemma_six_total_xp_closed_step(k: int, t: int)
    by (nonlinear_arith)
    requires
        k >= 1,
        6 * t == six_total_xp_closed(k - 1),
    ensures
        6 * (t + next_level_xp(k - 1)) == six_total_xp_closed(k),
{
}

proof fn lemma_total_xp_for_level_closed(n: nat)
    ensures
        6 * total_xp_for_level(n) == six_total_xp_closed(n as int),
    decreases n,
{
    if n > 0 {
        lemma_total_xp_for_level_closed((n - 1) as nat);
        lemma_six_total_xp_closed_step(n as int, total_xp_for_level((n - 1) as nat));
    }
}

/// From level 0 on, each level takes more total XP to reach than the one before.
proof fn lemma_total_xp_for_level_increasing(a: nat, b: nat)
    requires
        a < b,
    ensures
        total_xp_for_level(a) + next_level_xp(a as int) <= total_xp_for_level(b),
    decreases b,
{
    if b > a + 1 {
        lemma_total_xp_for_level_increasing(a, (b - 1) as nat);
        assert(next_level_xp(b - 1) >= 0) by (nonlinear_arith)
            requires b - 1 >= 0;
    }
}

proof fn lemma_total_xp_for_level_nonnegative(n: nat)
    ensures
        0 <= total_xp_for_level(n),
{
    if n > 0 {
        lemma_total_xp_for_level_increasing(0, n);
    }
}

/// The total XPs served by the level computation are exactly those below
/// `GUILD_TOTAL_XP_LIMIT`: it is the XP to reach level 1083, and the XP to reach level 1084,
/// which the computation adds up once the limit is reached, no longer fits in an `i32`.
pub proof fn lemma_total_xp_limit()
    ensures
        total_xp_for_level(1083) == GUILD_TOTAL_XP_LIMIT,
        total_xp_for_level(1084) > i32::MAX,
{
    lemma_total_xp_for_level_closed(1083);
    lemma_total_xp_for_level_closed(1084);
    assert(six_total_xp_closed(1083) == 6 * 2143536775) by (nonlinear_arith);
    assert(six_total_xp_closed(1084) == 6 * 2149455470) by (nonlinear_arith);
}

/// The level and the XP towards the next level of a member with `total_xp` XP in all: the
/// highest level whose total XP the member has reached (level 0 at least), and what is left
/// over above it.
pub fn level_for_total_xp(total_xp: i32) -> (r: (i32, i32))
    requires
        total_xp < GUILD_TOTAL_XP_LIMIT,
    ensures
        is_level_split(total_xp as int, r.0 as int, r.1 as int),
        total_xp >= 0 ==> 0 <= r.1 < next_level_xp(r.0 as int),
{
    proof {
        lemma_total_xp_limit();
        lemma_total_xp_for_level_increasing(1, 1083);
    }
    assert(total_xp_for_level(0) == 0);
    assert(total_xp_for_level(1) == 100);
    let mut level: i32 = 0;
    let mut xp_for_next_level: i32 = 100;
    let mut current_total_xp: i32 = 0;
    while total_xp >= current_total_xp + xp_for_next_level
        invariant
            0 <= level < 1083,
            0 <= current_total_xp,
            current_total_xp == total_xp_for_level(level as nat),
            xp_for_next_level == next_level_xp(level as int),
            current_total_xp + xp_for_next_level == total_xp_for_level((level + 1) as nat),
            total_xp_for_level((level + 1) as nat) <= GUILD_TOTAL_XP_LIMIT,
            level == 0 || current_total_xp <= total_xp,
            total_xp < GUILD_TOTAL_XP_LIMIT,
            total_xp_for_level(1083) == GUILD_TOTAL_XP_LIMIT,
        decreases total_xp - current_total_xp,
    {
        current_total_xp = current_total_xp + xp_for_next_level;
        level = level + 1;
        proof {
            lemma_next_level_xp_bounds(level as int);
            lemma_total_xp_for_level_nonnegative(level as nat);
            if level + 1 < 1083 {
                lemma_total_xp_for_level_increasing((level + 1) as nat, 1083);
            }
        }
        xp_for_next_level = 5 * (level * level) + 50 * level + 100;
        assert(total_xp_for_level((level + 1) as nat) == total_xp_for_level(level as nat)
            + next_level_xp(level as int));
    }
    let xp = total_xp - current_total_xp;
    (level, xp)
}

/// Law: a total XP has one split only: the level and the XP left over above it are determined
/// by the total.
pub proof fn lemma_level_split_unique(total: int, level_a: int, xp_a: int, level_b: int, xp_b: int)
    requires
        is_level_split(total, level_a, xp_a),
        is_level_split(total, level_b, xp_b),
    ensures
        level_a == level_b,
        xp_a == xp_b,
{
    if level_a < level_b {
        lemma_total_xp_for_level_increasing((level_a + 1) as nat, level_b as nat);
        lemma_total_xp_for_level_increasing(level_a as nat, level_b as nat);
        if level_a + 1 < level_b {
            lemma_total_xp_for_level_increasing((level_a + 1) as nat, level_b as nat);
        }
    } else if level_b < level_a {
        lemma_total_xp_for_level_increasing(level_b as nat, level_a as nat);
        if level_b + 1 < level_a {
            lemma_total_xp_for_level_increasing((level_b + 1) as nat, level_a as nat);
        }
    }
}

/// Whether `channel_id` is one of the channels in which members earn no XP.
pub fn channel_is_blocked(blocked_channels: &Vec<u64>, channel_id: u64) -> (r: bool)
    ensures
        r == blocked_channels@.contains(channel_id),
{
    let mut i: usize = 0;
    while i < blocked_channels.len()
        invariant
            i <= blocked_channels.len(),
            forall|j: int| 0 <= j < i ==> blocked_channels@[j] != channel_id,
        decreases blocked_channels.len() - i,
    {
        if blocked_channels[i] == channel_id {
            return true;
        }
        i = i + 1;
    }
    false
}

/// Whether a member who last earned XP at `last_xp` did so within the minute before `now`:
/// `last_xp` is not before the instant one minute before `now`.
pub fn earned_xp_recently(last_xp: Timestamp, now: Timestamp) -> (r: bool)
    requires
        now.wf(),
        MIN_TIMESTAMP_SECS <= now.secs_minus_minutes(1),
    ensures
        r == !now.minus_minutes(1).is_after(last_xp),
{
    let minute_ago = sub_minutes(now, 1);
    !is_after(minute_ago, last_xp)
}

/// New XP data of a member after a counted message.
#[derive(Clone, Copy, Debug, PartialEq, Eq, Structural)]
pub struct GuildXpUpdate {
    pub xp: i32,
    pub total_xp: i32,
    pub level: i32,
}

/// Whether a guild message counts: it is not in a blocked channel, and the member did not earn
/// XP within the minute before.
pub open spec fn guild_message_counts(
    blocked_channels: Seq<u64>,
    channel_id: u64,
    last_xp: Timestamp,
    now: Timestamp,
) -> bool {
    !blocked_channels.contains(channel_id) && now.minus_minutes(1).is_after(last_xp)
}

/// What a guild message sent at `now` in `channel_id` does to a member with `total_xp` XP in
/// all, who last earned XP at `last_xp`, when a counted message earns `gain` XP: nothing when
/// it does not count, else the new total with its level and the XP left over above it.
pub fn guild_message_update_with(
    blocked_channels: &Vec<u64>,
    channel_id: u64,
    last_xp: Timestamp,
    now: Timestamp,
    total_xp: i32,
    gain: i32,
) -> (r: Option<GuildXpUpdate>)
    requires
        now.wf(),
        MIN_TIMESTAMP_SECS <= now.secs_minus_minutes(1),
        guild_message_counts(blocked_channels@, channel_id, last_xp, now) ==> total_xp + gain
            < GUILD_TOTAL_XP_LIMIT && i32::MIN <= total_xp + gain,
    ensures
        !guild_message_counts(blocked_channels@, channel_id, last_xp, now) ==> r is None,
        guild_message_counts(blocked_channels@, channel_id, last_xp, now) ==> (r matches Some(u)
            && u.total_xp == total_xp + gain && is_level_split(
            u.total_xp as int,
            u.level as int,
            u.xp as int,
        )),
{
    if channel_is_blocked(blocked_channels, channel_id) {
        return None;
    }
    if earned_xp_recently(last_xp, now) {
        return None;
    }
    let new_total = total_xp + gain;
    let (level, xp) = level_for_total_xp(new_total);
    Some(GuildXpUpdate { xp, total_xp: new_total, level })
}

/// What a guild message sent now in `channel_id` does to a member with `total_xp` XP in all,
/// who last earned XP at `last_xp`, where a counted message earns a random XP from
/// `GUILD_MESSAGE_XP_MIN` up to (not including) `GUILD_MESSAGE_XP_END`. Whatever the clock
/// says, a message in a blocked channel changes nothing, a message that changes nothing outside
/// one came within the minute after `last_xp`, and a counted one earns XP in the range.
pub fn guild_message_update(
    blocked_channels: &Vec<u64>,
    channel_id: u64,
    last_xp: Timestamp,
    total_xp: i32,
) -> (r: Option<GuildXpUpdate>)
    requires
        !blocked_channels@.contains(channel_id) ==> total_xp + GUILD_MESSAGE_XP_END
            <= GUILD_TOTAL_XP_LIMIT,
    ensures
        blocked_channels@.contains(channel_id) ==> r is None,
        !blocked_channels@.contains(channel_id) && r is None ==> exists|now: Timestamp|
            now.wf() && 0 <= now.secs && !now.minus_minutes(1).is_after(last_xp),
        r matches Some(u) ==> !blocked_channels@.contains(channel_id) && GUILD_MESSAGE_XP_MIN
            <= u.total_xp - total_xp < GUILD_MESSAGE_XP_END && is_level_split(
            u.total_xp as int,
            u.level as int,
            u.xp as int,
        ),
{
    if channel_is_blocked(blocked_channels, channel_id) {
        return None;
    }
    let now = utc_now();
    if earned_xp_recently(last_xp, now) {
        return None;
    }
    let gain = thread_rng_random_range(GUILD_MESSAGE_XP_MIN, GUILD_MESSAGE_XP_END);
    guild_message_update_with(blocked_channels, channel_id, last_xp, now, total_xp, gain)
}

/// A role that members get from a level on.
#[derive(Clone, Copy, Debug, PartialEq, Eq, Structural)]
pub struct LevelRole {
    pub role_id: u64,
    pub level: i32,
}

/// `roles[i]` is the role a member at `level` is given: among the roles of a level up to
/// `level`, it has the highest level, and it comes last among those of that level.
pub open spec fn is_highest_role(roles: Seq<LevelRole>, level: int, i: int) -> bool {
    &&& 0 <= i < roles.len()
    &&& roles[i].level <= level
    &&& forall|j: int| 0 <= j < roles.len() && roles[j].level <= level ==> roles[j].level <= roles[i].level
    &&& forall|j: int| i < j < roles.len() && roles[j].level <= level ==> roles[j].level < roles[i].level
}

/// The role to give a member at `level`: of the roles of a level up to `level`, the one with
/// the highest level, the last one where several share it.
pub fn highest_role(roles: &Vec<LevelRole>, level: i32) -> (r: u64)
    requires
        exists|i: int| 0 <= i < roles@.len() && roles@[i].level <= level,
    ensures
        exists|i: int| is_highest_role(roles@, level as int, i) && r == roles@[i].role_id,
{
    let mut best: usize = 0;
    let mut found = false;
    let mut j: usize = 0;
    while j < roles.len()
        invariant
            j <= roles.len(),
            found ==> best < j,
            found ==> roles@[best as int].level <= level,
            found ==> forall|k: int| 0 <= k < j && roles@[k].level <= level ==> roles@[k].level
                <= roles@[best as int].level,
            found ==> forall|k: int| best < k < j && roles@[k].level <= level ==> roles@[k].level
                < roles@[best as int].level,
            !found ==> forall|k: int| 0 <= k < j ==> roles@[k].level > level,
        decreases roles.len() - j,
    {
        if roles[j].level <= level && (!found || roles[j].level >= roles[best].level) {
            best = j;
            found = true;
        }
        j = j + 1;
    }
    assert(is_highest_role(roles@, level as int, best as int));
    roles[best].role_id
}

} // verus!
