use vstd::prelude::*;

use crate::progress::{
    level_up_xp, level_up_xp_fits, level_up_xp_spec,
    lemma_xp_to_reach_increasing, xp_to_reach,
};
use crate::random::random_range;
use crate::time::Timestamp;

verus! {

/// Smallest XP a counted message can earn.
pub const MESSAGE_XP_MIN: i32 = 15i32;

/// One more than the largest XP a counted message can earn.
pub const MESSAGE_XP_END: i32 = 25i32;

/// What a stored row of a member's level data tells. A field that a kind of row does not hold
/// is `None` here, and asking a row for it is refused.
pub trait LevelsRow {
    spec fn spec_user_id(&self) -> Option<u64>;

    spec fn spec_xp(&self) -> i32;

    spec fn spec_level(&self) -> i32;

    spec fn spec_total_xp(&self) -> Option<i64>;

    spec fn spec_message_count(&self) -> Option<i64>;

    spec fn spec_last_xp(&self) -> Option<Timestamp>;

    /// The member's Discord user id.
    fn user_id(&self) -> (r: u64)
        requires
            self.spec_user_id() is Some,
        ensures
            self.spec_user_id() == Some(r),
    ;

    /// XP collected towards the next level.
    fn xp(&self) -> (r: i32)
        ensures
            r == self.spec_xp(),
    ;

    fn level(&self) -> (r: i32)
        ensures
            r == self.spec_level(),
    ;

    /// XP collected in all.
    fn total_xp(&self) -> (r: i64)
        requires
            self.spec_total_xp() is Some,
        ensures
            self.spec_total_xp() == Some(r),
    ;

    fn message_count(&self) -> (r: i64)
        requires
            self.spec_message_count() is Some,
        ensures
            self.spec_message_count() == Some(r),
    ;

    /// When the member last earned XP.
    fn last_xp(&self) -> (r: Timestamp)
        requires
            self.spec_last_xp() is Some,
        ensures
            self.spec_last_xp() == Some(r),
    ;
}

/// The Discord user id that a stored id stands for: the id read as a `u64`, where 0 names no
/// user.
pub open spec fn stored_user_id(id: i64) -> Option<u64> {
    if id as u64 != 0 {
        Some(id as u64)
    } else {
        None
    }
}

/// One line of the leaderboard.
pub struct LeaderboardRow {
    pub id: i64,
    pub xp: i32,
    pub level: i32,
    pub message_count: i64,
}

impl LevelsRow for LeaderboardRow {
    open spec fn spec_user_id(&self) -> Option<u64> {
        stored_user_id(self.id)
    }

    open spec fn spec_xp(&self) -> i32 {
        self.xp
    }

    open spec fn spec_level(&self) -> i32 {
        self.level
    }

    open spec fn spec_total_xp(&self) -> Option<i64> {
        None
    }

    open spec fn spec_message_count(&self) -> Option<i64> {
        Some(self.message_count)
    }

    open spec fn spec_last_xp(&self) -> Option<Timestamp> {
        None
    }

    fn user_id(&self) -> (r: u64) {
        self.id as u64
    }

    fn xp(&self) -> (r: i32) {
        self.xp
    }

    fn level(&self) -> (r: i32) {
        self.level
    }

    fn total_xp(&self) -> (r: i64) {
        0
    }

    fn message_count(&self) -> (r: i64) {
        self.message_count
    }

    fn last_xp(&self) -> (r: Timestamp) {
        Timestamp::epoch()
    }
}

/// A member's rank data: XP towards the next level, and the level.
pub struct RankRow {
    pub xp: i32,
    pub level: i32,
}

impl Default for RankRow {
    /// A member without stored data: no XP, level 1.
    fn default() -> (r: Self)
        ensures
            r.xp == 0,
            r.level == 1,
    {
        RankRow { xp: 0, level: 1 }
    }
}

impl LevelsRow for RankRow {
    open spec fn spec_user_id(&self) -> Option<u64> {
        None
    }

    open spec fn spec_xp(&self) -> i32 {
        self.xp
    }

    open spec fn spec_level(&self) -> i32 {
        self.level
    }

    open spec fn spec_total_xp(&self) -> Option<i64> {
        None
    }

    open spec fn spec_message_count(&self) -> Option<i64> {
        None
    }

    open spec fn spec_last_xp(&self) -> Option<Timestamp> {
        None
    }

    fn user_id(&self) -> (r: u64) {
        0
    }

    fn xp(&self) -> (r: i32) {
        self.xp
    }

    fn level(&self) -> (r: i32) {
        self.level
    }

    fn total_xp(&self) -> (r: i64) {
        0
    }

    fn message_count(&self) -> (r: i64) {
        0
    }

    fn last_xp(&self) -> (r: Timestamp) {
        Timestamp::epoch()
    }
}

/// A member's XP data: XP towards the next level, the level, and the XP collected in all.
pub struct XpRow {
    pub xp: i32,
    pub level: i32,
    pub total_xp: i64,
}

impl Default for XpRow {
    /// A member without stored data: no XP, level 1.
    fn default() -> (r: Self)
        ensures
            r.xp == 0,
            r.level == 1,
            r.total_xp == 0,
    {
        XpRow { xp: 0, level: 1, total_xp: 0 }
    }
}

impl LevelsRow for XpRow {
    open spec fn spec_user_id(&self) -> Option<u64> {
        None
    }

    open spec fn spec_xp(&self) -> i32 {
        self.xp
    }

    open spec fn spec_level(&self) -> i32 {
        self.level
    }

    open spec fn spec_total_xp(&self) -> Option<i64> {
        Some(self.total_xp)
    }

    open spec fn spec_message_count(&self) -> Option<i64> {
        None
    }

    open spec fn spec_last_xp(&self) -> Option<Timestamp> {
        None
    }

    fn user_id(&self) -> (r: u64) {
        0
    }

    fn xp(&self) -> (r: i32) {
        self.xp
    }

    fn level(&self) -> (r: i32) {
        self.level
    }

    fn total_xp(&self) -> (r: i64) {
        self.total_xp
    }

    fn message_count(&self) -> (r: i64) {
        0
    }

    fn last_xp(&self) -> (r: Timestamp) {
        Timestamp::epoch()
    }
}

/// All the level data stored for a member.
pub struct FullLevelRow {
    pub id: i64,
    pub xp: i32,
    pub level: i32,
    pub total_xp: i64,
    pub message_count: i64,
    pub last_xp: Timestamp,
}

impl FullLevelRow {
    /// Whether counting one more message that earns `gain` XP keeps every step of the update
    /// in the range of its integer type.
    pub open spec fn message_fits(self, gain: int) -> bool {
        let xp = self.xp + gain;
        let next = level_up_xp_spec(self.level as int);
        &&& self.message_count + 1 <= i64::MAX
        &&& i64::MIN <= self.total_xp + gain <= i64::MAX
        &&& i32::MIN <= xp <= i32::MAX
        &&& level_up_xp_fits(self.level as int)
        &&& xp >= next ==> (i32::MIN <= xp - next <= i32::MAX && self.level + 1 <= i32::MAX)
    }

    /// Whether a message earns enough XP for a level-up.
    pub open spec fn levels_up(self, gain: int) -> bool {
        self.xp + gain >= level_up_xp_spec(self.level as int)
    }

    /// The row after counting one more message that earns `gain` XP: the count and the total go
    /// up; the XP goes up, and when it reaches the level-up XP of the level, that much is spent
    /// on one level more.
    pub open spec fn after_message(self, gain: int) -> FullLevelRow {
        if self.levels_up(gain) {
            FullLevelRow {
                xp: (self.xp + gain - level_up_xp_spec(self.level as int)) as i32,
                level: (self.level + 1) as i32,
                total_xp: (self.total_xp + gain) as i64,
                message_count: (self.message_count + 1) as i64,
                ..self
            }
        } else {
            FullLevelRow {
                xp: (self.xp + gain) as i32,
                total_xp: (self.total_xp + gain) as i64,
                message_count: (self.message_count + 1) as i64,
                ..self
            }
        }
    }

    /// What counting a message reports: the new level after a level-up, else nothing.
    pub open spec fn level_reached(self, gain: int) -> Option<i32> {
        if self.levels_up(gain) {
            Some((self.level + 1) as i32)
        } else {
            None
        }
    }

    /// A message earning any XP that a message can earn keeps every step in range.
    pub open spec fn any_message_fits(self) -> bool {
        forall|gain: int| MESSAGE_XP_MIN <= gain < MESSAGE_XP_END ==> self.message_fits(gain)
    }

    /// The level data are in step: a level from 0 on, XP below the level-up XP of the level,
    /// and a total that is the XP to reach the level plus the XP towards the next.
    pub open spec fn progress_consistent(self) -> bool {
        &&& 0 <= self.level
        &&& 0 <= self.xp < level_up_xp_spec(self.level as int)
        &&& self.total_xp == xp_to_reach(self.level as nat) + self.xp
    }

    /// A fresh row for the user `id`: nothing earned yet, level 0.
    pub fn new(id: u64) -> (r: FullLevelRow)
        requires
            id != 0,
        ensures
            r.id == id as i64,
            r.xp == 0,
            r.level == 0,
            r.total_xp == 0,
            r.message_count == 0,
            r.last_xp == Timestamp::epoch_spec(),
            r.progress_consistent(),
    {
        FullLevelRow {
            id: id as i64,
            xp: 0,
            level: 0,
            total_xp: 0,
            message_count: 0,
            last_xp: Timestamp::epoch(),
        }
    }

    /// Whether a message earning any XP that a message can earn keeps every step of counting it
    /// in range, so that `new_message` may be called.
    pub fn can_count_message(&self) -> (r: bool)
        ensures
            r == self.any_message_fits(),
    {
        let top = (MESSAGE_XP_END - 1) as i128;
        if self.message_count == i64::MAX {
            assert(!self.message_fits(top as int));
            return false;
        }
        if self.total_xp as i128 + top > i64::MAX as i128 {
            assert(!self.message_fits(top as int));
            return false;
        }
        if self.xp as i128 + top > i32::MAX as i128 {
            assert(!self.message_fits(top as int));
            return false;
        }
        if !(-26754 <= self.level && self.level <= 26746) {
            assert(!self.message_fits(top as int));
            return false;
        }
        let next = level_up_xp(self.level) as i128;
        if self.xp as i128 + top >= next {
            if self.xp as i128 + top - next > i32::MAX as i128 || self.level == i32::MAX {
                assert(!self.message_fits(top as int));
                return false;
            }
        }
        assert forall|gain: int| MESSAGE_XP_MIN <= gain < MESSAGE_XP_END implies self.message_fits(
            gain,
        ) by {}
        true
    }

    /// Counts one more message that earned `gain` XP, and reports the level reached when it
    /// brought a level-up.
    pub fn record_message(&mut self, gain: i32) -> (r: Option<i32>)
        requires
            old(self).message_fits(gain as int),
        ensures
            *final(self) == old(self).after_message(gain as int),
            r == old(self).level_reached(gain as int),
    {
        proof {
            crate::progress::lemma_level_up_xp_fits_bounds(self.level as int);
        }
        self.message_count = self.message_count + 1;
        self.total_xp = self.total_xp + gain as i64;
        self.xp = self.xp + gain;
        let next_level_xp = level_up_xp(self.level);
        if self.xp >= next_level_xp {
            self.xp = self.xp - next_level_xp;
            self.level = self.level + 1;
            return Some(self.level);
        }
        None
    }

    /// Counts one more message, which earns a random XP from `MESSAGE_XP_MIN` up to (not
    /// including) `MESSAGE_XP_END`, and reports the level reached when it brought a level-up.
    pub fn new_message(&mut self) -> (r: Option<i32>)
        requires
            old(self).any_message_fits(),
        ensures
            exists|gain: int|
                MESSAGE_XP_MIN <= gain < MESSAGE_XP_END && *final(self) == old(self).after_message(gain)
                    && r == old(self).level_reached(gain),
    {
        let gain = random_range(MESSAGE_XP_MIN, MESSAGE_XP_END);
        assert(old(self).message_fits(gain as int));
        self.record_message(gain)
    }
}

impl Default for FullLevelRow {
    /// A row with every field zero and the last XP time at the epoch.
    fn default() -> (r: Self)
        ensures
            r.id == 0,
            r.xp == 0,
            r.level == 0,
            r.total_xp == 0,
            r.message_count == 0,
            r.last_xp == Timestamp::epoch_spec(),
            r.progress_consistent(),
    {
        FullLevelRow {
            id: 0,
            xp: 0,
            level: 0,
            total_xp: 0,
            message_count: 0,
            last_xp: Timestamp::epoch(),
        }
    }
}

impl LevelsRow for FullLevelRow {
    open spec fn spec_user_id(&self) -> Option<u64> {
        stored_user_id(self.id)
    }

    open spec fn spec_xp(&self) -> i32 {
        self.xp
    }

    open spec fn spec_level(&self) -> i32 {
        self.level
    }

    open spec fn spec_total_xp(&self) -> Option<i64> {
        Some(self.total_xp)
    }

    open spec fn spec_message_count(&self) -> Option<i64> {
        Some(self.message_count)
    }

    open spec fn spec_last_xp(&self) -> Option<Timestamp> {
        Some(self.last_xp)
    }

    fn user_id(&self) -> (r: u64) {
        self.id as u64
    }

    fn xp(&self) -> (r: i32) {
        self.xp
    }

    fn level(&self) -> (r: i32) {
        self.level
    }

    fn total_xp(&self) -> (r: i64) {
        self.total_xp
    }

    fn message_count(&self) -> (r: i64) {
        self.message_count
    }

    fn last_xp(&self) -> (r: Timestamp) {
        self.last_xp
    }
}

/// Law: counting a message keeps consistent level data consistent, for any gain up to the
/// level-up XP of the level after the current one (the XP a message earns is far below it).
pub proof fn lemma_message_keeps_progress_consistent(row: FullLevelRow, gain: int)
    requires
        row.progress_consistent(),
        row.message_fits(gain),
        0 <= gain <= level_up_xp_spec(row.level + 1),
    ensures
        row.after_message(gain).progress_consistent(),
{
    let after = row.after_message(gain);
    if row.levels_up(gain) {
        assert(xp_to_reach((row.level + 1) as nat) == xp_to_reach(row.level as nat)
            + level_up_xp_spec(row.level as int));
    }
}

/// Law: a counted message never lowers the level, raises it by one at most, and reports a level
/// exactly when it raised it, namely the new one; the total grows by the XP earned, and the
/// count by one.
pub proof fn lemma_message_progress(row: FullLevelRow, gain: int)
    requires
        row.message_fits(gain),
    ensures
        row.after_message(gain).level == row.level || row.after_message(gain).level == row.level
            + 1,
        row.level_reached(gain) is Some <==> row.after_message(gain).level == row.level + 1,
        row.level_reached(gain) is Some ==> row.level_reached(gain) == Some(
            row.after_message(gain).level,
        ),
        row.after_message(gain).total_xp == row.total_xp + gain,
        row.after_message(gain).message_count == row.message_count + 1,
        row.after_message(gain).id == row.id,
        row.after_message(gain).last_xp == row.last_xp,
{
}

/// Law: in consistent level data, the total XP decides the level and the XP towards the next.
pub proof fn lemma_total_xp_decides_progress(a: FullLevelRow, b: FullLevelRow)
    requires
        a.progress_consistent(),
        b.progress_consistent(),
        a.total_xp == b.total_xp,
    ensures
        a.level == b.level,
        a.xp == b.xp,
{
    if a.level < b.level {
        lemma_xp_to_reach_increasing(a.level as nat, b.level as nat);
    } else if b.level < a.level {
        lemma_xp_to_reach_increasing(b.level as nat, a.level as nat);
    }
}

} // verus!
