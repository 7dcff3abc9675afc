use vstd::prelude::*;

verus! {

/// Farts needed within the combo window before a combo counts.
pub const COMBO_MIN_FARTS: usize = 3;

/// Farts within the combo window that make a mega fart.
pub const MEGA_FART_MIN_FARTS: usize = 5;

/// Extra fart power of a combo of `level` recent farts, in percent, with diminishing
/// returns: nothing below level 2, then level 2 gives +5%, level 3 adds 4 points (9%),
/// level 4 adds 3 (12%), level 5 adds 2 (14%), and each level from 6 on adds 1 (15% at 6).
pub open spec fn combo_percent(level: nat) -> nat {
    if level <= 1 {
        0
    } else if level == 2 {
        5
    } else if level == 3 {
        9
    } else if level == 4 {
        12
    } else {
        (level + 9) as nat
    }
}

/// Extra fart power of a combo of `combo_level` recent farts, in percent
/// (the fart power is multiplied by `1 + percent / 100`).
pub fn combo_bonus_percent(combo_level: usize) -> (p: u128)
    ensures
        p == combo_percent(combo_level as nat),
{
    if combo_level <= 1 {
        0
    } else if combo_level == 2 {
        5
    } else if combo_level == 3 {
        9
    } else if combo_level == 4 {
        12
    } else {
        combo_level as u128 + 9
    }
}

/// Score points granted for reaching a combo of `combo_level` farts at difficulty `level`.
pub open spec fn combo_points(combo_level: nat, level: nat) -> nat {
    combo_level * 10 * level
}

/// Score points granted for reaching a combo of `combo_level` farts at difficulty
/// `difficulty_level`: ten points per fart of the combo, times the difficulty level.
pub fn combo_bonus_points(combo_level: usize, difficulty_level: u32) -> (p: u128)
    ensures
        p == combo_points(combo_level as nat, difficulty_level as nat),
{
    proof {
        let a: int = combo_level as int;
        let d: int = difficulty_level as int;
        assert(a * 10 * d <= 0x1_0000_0000_0000_0000 * 10 * 0x1_0000_0000) by (nonlinear_arith)
            requires
                0 <= a < 0x1_0000_0000_0000_0000,
                0 <= d < 0x1_0000_0000;
    }
    (combo_level as u128) * 10 * (difficulty_level as u128)
}

/// A bigger combo never gives a smaller bonus.
pub proof fn lemma_combo_percent_monotone(a: nat, b: nat)
    requires
        a <= b,
    ensures
        combo_percent(a) <= combo_percent(b),
{
}

/// Diminishing returns: from level 1 on, each further level adds at least one point,
/// and never more than the level before it added.
pub proof fn lemma_combo_percent_diminishing(n: nat)
    requires
        n >= 1,
    ensures
        combo_percent(n + 1) >= combo_percent(n) + 1,
        combo_percent(n + 1) - combo_percent(n) >= combo_percent(n + 2) - combo_percent(n + 1),
{
}

/// Below level 2 there is no bonus.
pub proof fn lemma_no_bonus_below_level_two(n: nat)
    requires
        n < 2,
    ensures
        combo_percent(n) == 0,
{
}

/// Combo points grow by exactly ten times the difficulty level with each extra fart of
/// the combo, starting from nothing for an empty combo, and grow linearly with the level.
pub proof fn lemma_combo_points_per_fart(c: nat, level: nat)
    ensures
        combo_points(0, level) == 0,
        combo_points(c + 1, level) == combo_points(c, level) + 10 * level,
        combo_points(c, level + 1) == combo_points(c, level) + 10 * c,
{
    assert((c + 1) * 10 * level == c * 10 * level + 10 * level) by (nonlinear_arith);
    assert(c * 10 * (level + 1) == c * 10 * level + 10 * c) by (nonlinear_arith);
    assert(0 * 10 * level == 0) by (nonlinear_arith);
}

} // verus!
