use vstd::prelude::*;

use crate::rows::{FullLevelRow, MESSAGE_XP_END, MESSAGE_XP_MIN};
use crate::time::{add_minutes, is_after, utc_now, Timestamp, MAX_TIMESTAMP_SECS};

verus! {

/// What a member's message did to their level data.
#[derive(Clone, Copy, Debug, PartialEq, Eq, Structural)]
pub enum MessageXp {
    /// The member earned XP less than a minute ago: nothing changes and nothing is saved.
    OnCooldown,
    /// The message was counted; the row is to be saved. Holds the level reached when the
    /// message brought a level-up.
    Counted(Option<i32>),
}

/// Whether the XP cooldown that started at `last_xp` still runs at `now`: the instant one
/// minute after `last_xp` lies after `now`.
pub fn xp_cooldown_active(last_xp: Timestamp, now: Timestamp) -> (r: bool)
    requires
        last_xp.wf(),
        last_xp.secs + 60 <= MAX_TIMESTAMP_SECS,
        now.wf(),
    ensures
        r == last_xp.plus_minutes(1).is_after(now),
{
    let cooldown_end = add_minutes(last_xp, 1);
    is_after(cooldown_end, now)
}

/// Counts a member's message sent at `now` into their row, unless the XP cooldown still runs.
pub fn count_message_at(row: &mut FullLevelRow, now: Timestamp) -> (r: MessageXp)
    requires
        old(row).last_xp.wf(),
        old(row).last_xp.secs + 60 <= MAX_TIMESTAMP_SECS,
        now.wf(),
        old(row).last_xp.plus_minutes(1).is_after(now) || old(row).any_message_fits(),
    ensures
        old(row).last_xp.plus_minutes(1).is_after(now) ==> r == MessageXp::OnCooldown
            && *final(row) == *old(row),
        !old(row).last_xp.plus_minutes(1).is_after(now) ==> exists|gain: int|
            MESSAGE_XP_MIN <= gain < MESSAGE_XP_END && *final(row) == old(row).after_message(gain)
                && r == MessageXp::Counted(old(row).level_reached(gain)),
{
    if xp_cooldown_active(row.last_xp, now) {
        return MessageXp::OnCooldown;
    }
    let new_level = row.new_message();
    MessageXp::Counted(new_level)
}

/// Counts a member's message into their row at the current time, unless the XP cooldown still
/// runs. Whatever the clock says, the row either stays as it was and the result is
/// `OnCooldown`, or it counts one message that earned XP in the message range.
pub fn count_message(row: &mut FullLevelRow) -> (r: MessageXp)
    requires
        old(row).last_xp.wf(),
        old(row).last_xp.secs + 60 <= MAX_TIMESTAMP_SECS,
        old(row).any_message_fits(),
    ensures
        r == MessageXp::OnCooldown ==> *final(row) == *old(row) && exists|now: Timestamp|
            now.wf() && 0 <= now.secs && old(row).last_xp.plus_minutes(1).is_after(now),
        r != MessageXp::OnCooldown ==> exists|gain: int|
            MESSAGE_XP_MIN <= gain < MESSAGE_XP_END && *final(row) == old(row).after_message(gain)
                && r == MessageXp::Counted(old(row).level_reached(gain)),
{
    let now = utc_now();
    count_message_at(row, now)
}

} // verus!
