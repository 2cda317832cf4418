use vstd::prelude::*;

verus! {

/// XP that a member at `level` must collect to reach the next level.
pub open spec fn level_up_xp_spec(level: int) -> int {
    3 * level * level + 50 * level + 100
}

/// The levels whose level-up XP, and every step of computing it, fits in an `i32`.
pub open spec fn level_up_xp_fits(level: int) -> bool {
    -26754 <= level <= 26746
}

/// XP needed to go from `level` to `level + 1`.
pub fn level_up_xp(level: i32) -> (r: i32)
    requires
        level_up_xp_fits(level as int),
    ensures
        r == level_up_xp_spec(level as int),
{
    proof {
        lemma_level_up_xp_fits_bounds(level as int);
    }
    (3 * level * level) + (50 * level) + 100
}

pub(crate) proof fn lemma_level_up_xp_fits_bounds(level: int)
    requires
        level_up_xp_fits(level),
    ensures
        0 <= 3 * level * level <= i32::MAX,
        i32::MIN <= 3 * level * level + 50 * level + 100 <= i32::MAX,
        i32::MIN <= 3 * level * level + 50 * level <= i32::MAX,
{
    assert(0 <= 3 * level * level <= i32::MAX) by (nonlinear_arith)
        requires -26754 <= level <= 26754;
    if level >= 0 {
        assert(3 * level * level + 50 * level + 100 <= i32::MAX) by (nonlinear_arith)
            requires 0 <= level <= 26746;
    } else {
        assert(3 * level * level + 50 * level + 100 <= i32::MAX) by (nonlinear_arith)
            requires -26754 <= level < 0;
    }
    assert(3 * level * level + 50 * level + 100 >= -200) by (nonlinear_arith);
}

/// Total XP collected on the way from level 0 up to `level`.
pub open spec fn xp_to_reach(level: nat) -> int
    decreases level,
{
    if level == 0 {
        0
    } else {
        xp_to_reach((level - 1) as nat) + level_up_xp_spec(level - 1)
    }
}

/// Outside the levels of `level_up_xp_fits`, one step of the formula leaves the `i32` range,
/// so those levels are exactly the ones `level_up_xp` cannot serve.
pub proof fn lemma_level_up_xp_fits_is_exact(level: int)
    requires
        !level_up_xp_fits(level),
    ensures
        3 * level * level > i32::MAX || 3 * level * level + 50 * level > i32::MAX
            || 3 * level * level + 50 * level + 100 > i32::MAX,
{
    if level < -26754 {
        assert(3 * level * level > i32::MAX) by (nonlinear_arith)
            requires level <= -26755;
    } else if level >= 26755 {
        assert(3 * level * level > i32::MAX) by (nonlinear_arith)
            requires level >= 26755;
    } else {
        assert(3 * level * level + 50 * level + 100 > i32::MAX) by (nonlinear_arith)
            requires 26747 <= level;
    }
}

/// From level 0 on, a level-up costs at least 100 XP, and each level costs more than the one before.
pub proof fn lemma_level_up_xp_grows(a: int, b: int)
    requires
        0 <= a < b,
    ensures
        100 <= level_up_xp_spec(a) < level_up_xp_spec(b),
{
    assert(100 <= level_up_xp_spec(a) < level_up_xp_spec(b)) by (nonlinear_arith)
        requires 0 <= a < b;
}

/// Reaching a higher level always takes more total XP: the XP to reach `b` is at least the XP
/// to reach `a` plus the level-up XP of `a`.
pub proof fn lemma_xp_to_reach_increasing(a: nat, b: nat)
    requires
        a < b,
    ensures
        xp_to_reach(a) + level_up_xp_spec(a as int) <= xp_to_reach(b),
    decreases b,
{
    if b > a + 1 {
        lemma_xp_to_reach_increasing(a, (b - 1) as nat);
        lemma_level_up_xp_grows(0, (b - 1) as int);
    }
}

} // verus!
