use fartcloud::combo::{combo_bonus_percent, combo_bonus_points};
use fartcloud::difficulty::{min_cloud_count, spawn_kind, SpawnKind};

#[test]
fn combo_percent_table() {
    assert_eq!(combo_bonus_percent(0), 0);
    assert_eq!(combo_bonus_percent(1), 0);
    assert_eq!(combo_bonus_percent(2), 5);
    assert_eq!(combo_bonus_percent(3), 9);
    assert_eq!(combo_bonus_percent(4), 12);
    assert_eq!(combo_bonus_percent(5), 14);
    assert_eq!(combo_bonus_percent(6), 15);
    assert_eq!(combo_bonus_percent(7), 16);
    assert_eq!(combo_bonus_percent(10), 19);
    assert_eq!(combo_bonus_percent(usize::MAX), usize::MAX as u128 + 9);
}

#[test]
fn combo_percent_never_drops_and_returns_diminish() {
    let mut prev_gain = u128::MAX;
    for n in 1..40usize {
        let gain = combo_bonus_percent(n + 1) - combo_bonus_percent(n);
        assert!(gain >= 1);
        assert!(gain <= prev_gain);
        prev_gain = gain;
    }
}

#[test]
fn combo_points() {
    assert_eq!(combo_bonus_points(5, 1), 50);
    assert_eq!(combo_bonus_points(3, 4), 120);
    assert_eq!(combo_bonus_points(0, 9), 0);
    assert_eq!(
        combo_bonus_points(usize::MAX, u32::MAX),
        usize::MAX as u128 * 10 * u32::MAX as u128
    );
}

#[test]
fn min_clouds_with_default_settings() {
    // world height 2700 x density 0.008 gives 21 base clouds; +1 every 3 levels.
    assert_eq!(min_cloud_count(21, 1, 3, 0), 21);
    assert_eq!(min_cloud_count(21, 3, 3, 0), 22);
    assert_eq!(min_cloud_count(21, 10, 3, 0), 24);
    assert_eq!(min_cloud_count(21, 10, 3, 2), 26);
}

#[test]
fn min_clouds_grow_one_every_increment() {
    for level in 0..50u32 {
        assert_eq!(min_cloud_count(5, level + 4, 4, 1), min_cloud_count(5, level, 4, 1) + 1);
        assert!(min_cloud_count(5, level + 1, 4, 1) >= min_cloud_count(5, level, 4, 1));
    }
}

#[test]
fn spawn_decisions() {
    assert_eq!(spawn_kind(true, true, 1, 0, 20), SpawnKind::Regular);
    assert_eq!(spawn_kind(false, true, 1, 0, 20), SpawnKind::Wait);
    assert_eq!(spawn_kind(false, true, 2, 0, 20), SpawnKind::CatchUp);
    assert_eq!(spawn_kind(false, false, 2, 0, 20), SpawnKind::Wait);
    assert_eq!(spawn_kind(false, true, 2, 20, 20), SpawnKind::Wait);
    assert_eq!(spawn_kind(true, true, 5, 3, 20), SpawnKind::Regular);
}
