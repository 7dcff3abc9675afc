use vstd::prelude::*;

verus! {

/// Minimum number of obstacle clouds kept on screen at a difficulty level: the base
/// count of the world, plus one cloud every `level_increment` levels, plus the hardcore
/// bonus.
pub open spec fn min_clouds(base_clouds: nat, level: nat, level_increment: nat, hardcore_bonus: nat) -> nat {
    base_clouds + level / level_increment + hardcore_bonus
}

/// Minimum number of obstacle clouds at difficulty `level` (see [`min_clouds`]).
/// `base_clouds` is the world's base count and `hardcore_bonus` the extra clouds of the
/// hardcore factor, both already rounded down to whole clouds.
pub fn min_cloud_count(base_clouds: u32, level: u32, level_increment: u32, hardcore_bonus: u32) -> (n: u32)
    requires
        level_increment > 0,
        min_clouds(base_clouds as nat, level as nat, level_increment as nat, hardcore_bonus as nat) <= u32::MAX,
    ensures
        n == min_clouds(base_clouds as nat, level as nat, level_increment as nat, hardcore_bonus as nat),
{
    let level_bonus: u32 = level / level_increment;
    base_clouds + level_bonus + hardcore_bonus
}

/// The minimum never drops as the level rises, and it gains exactly one cloud every
/// `level_increment` levels.
pub proof fn lemma_min_clouds_grow_with_level(
    base_clouds: nat,
    a: nat,
    b: nat,
    level_increment: nat,
    hardcore_bonus: nat,
)
    requires
        level_increment > 0,
        a <= b,
    ensures
        min_clouds(base_clouds, a, level_increment, hardcore_bonus)
            <= min_clouds(base_clouds, b, level_increment, hardcore_bonus),
        min_clouds(base_clouds, a + level_increment, level_increment, hardcore_bonus)
            == min_clouds(base_clouds, a, level_increment, hardcore_bonus) + 1,
{
    vstd::arithmetic::div_mod::lemma_div_is_ordered(a as int, b as int, level_increment as int);
    vstd::arithmetic::div_mod::lemma_div_plus_one(a as int, level_increment as int);
}

/// What the spawner does on a frame.
#[derive(Clone, Copy, PartialEq, Eq, Structural, Debug)]
pub enum SpawnKind {
    /// No new cloud.
    Wait,
    /// A cloud at the usual place, because the spawn interval elapsed.
    Regular,
    /// A cloud pushed further right, because there are too few clouds on screen.
    CatchUp,
}

/// The spawner's decision. A cloud comes when the spawn interval has elapsed, or, past
/// the first level, when fewer clouds than the minimum are on screen and the short
/// rate-limit delay has elapsed; a catch-up cloud is one that only the minimum called for.
pub open spec fn spawn_decision(
    interval_elapsed: bool,
    delay_elapsed: bool,
    level: u32,
    obstacle_count: usize,
    min_clouds: u32,
) -> SpawnKind {
    let by_density = level > 1 && (obstacle_count as u32) < min_clouds && delay_elapsed;
    if interval_elapsed {
        SpawnKind::Regular
    } else if by_density {
        SpawnKind::CatchUp
    } else {
        SpawnKind::Wait
    }
}

/// Decides whether a cloud spawns on this frame (see [`spawn_decision`]).
/// `interval_elapsed`: the spawn timer reached the current spawn interval;
/// `delay_elapsed`: it reached the minimum delay between two spawns.
pub fn spawn_kind(
    interval_elapsed: bool,
    delay_elapsed: bool,
    level: u32,
    obstacle_count: usize,
    min_clouds: u32,
) -> (k: SpawnKind)
    ensures
        k == spawn_decision(interval_elapsed, delay_elapsed, level, obstacle_count, min_clouds),
{
    let grace_period = level <= 1;
    let count = obstacle_count as u32;
    let need_density = !grace_period && count < min_clouds && delay_elapsed;
    if interval_elapsed || need_density {
        if need_density && !interval_elapsed {
            SpawnKind::CatchUp
        } else {
            SpawnKind::Regular
        }
    } else {
        SpawnKind::Wait
    }
}

/// During the first level only the timer spawns clouds, and a catch-up cloud only comes
/// while there are fewer clouds than the minimum.
pub proof fn lemma_spawn_grace_and_density(
    interval_elapsed: bool,
    delay_elapsed: bool,
    level: u32,
    obstacle_count: usize,
    min_clouds: u32,
)
    ensures
        level <= 1 ==> spawn_decision(interval_elapsed, delay_elapsed, level, obstacle_count, min_clouds)
            != SpawnKind::CatchUp,
        spawn_decision(interval_elapsed, delay_elapsed, level, obstacle_count, min_clouds) == SpawnKind::CatchUp
            ==> (obstacle_count as u32) < min_clouds && delay_elapsed && !interval_elapsed,
        interval_elapsed ==> spawn_decision(interval_elapsed, delay_elapsed, level, obstacle_count, min_clouds)
            == SpawnKind::Regular,
{
}

/// Past the first level, when the spawn interval has not elapsed but the rate-limit
/// delay has, a catch-up cloud comes whenever fewer clouds than the minimum are on
/// screen, and no cloud comes when there are enough.
pub proof fn lemma_catch_up_below_minimum(
    delay_elapsed: bool,
    level: u32,
    obstacle_count: usize,
    min_clouds: u32,
)
    requires
        level > 1,
        delay_elapsed,
    ensures
        (obstacle_count as u32) < min_clouds ==> spawn_decision(false, delay_elapsed, level, obstacle_count, min_clouds)
            == SpawnKind::CatchUp,
        (obstacle_count as u32) >= min_clouds ==> spawn_decision(false, delay_elapsed, level, obstacle_count, min_clouds)
            == SpawnKind::Wait,
{
}

} // verus!
