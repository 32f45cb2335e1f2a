use too_many_of_them::health::{
    activate_heal, activate_higher_max_health, activate_unlock_health_regen, apply_op, health_regen,
    starting_health_regen, Health, HealthOp,
};
use too_many_of_them::level::{update_level_display, Level};
use too_many_of_them::timer::{Timer, TimerMode};

const MS: u64 = 1_000_000;

#[test]
fn once_timer_finishes_and_stays_finished() {
    let mut t = Timer::new(100 * MS, TimerMode::Once);
    t.tick(60 * MS);
    assert!(!t.finished());
    assert!(!t.just_finished());
    t.tick(60 * MS);
    assert!(t.finished());
    assert!(t.just_finished());
    assert_eq!(t.elapsed, 100 * MS);
    t.tick(60 * MS);
    assert!(t.finished());
    assert!(!t.just_finished());
}

#[test]
fn repeating_timer_counts_completions_and_keeps_remainder() {
    let mut t = Timer::new(500 * MS, TimerMode::Repeating);
    t.tick(1_200 * MS);
    assert_eq!(t.times_finished_this_tick, 2);
    assert_eq!(t.elapsed, 200 * MS);
    assert!(t.just_finished());
}

#[test]
fn paused_timer_ignores_time() {
    let mut t = Timer::new(100 * MS, TimerMode::Once);
    t.pause();
    t.tick(500 * MS);
    assert!(!t.finished());
    assert_eq!(t.elapsed, 0);
    t.unpause();
    t.tick(100 * MS);
    assert!(t.finished());
}

#[test]
fn set_duration_cuts_elapsed_time() {
    let mut t = Timer::new(100 * MS, TimerMode::Once);
    t.tick(80 * MS);
    t.set_duration(50 * MS);
    assert_eq!(t.duration, 50 * MS);
    assert_eq!(t.elapsed, 50 * MS);
}

#[test]
fn level_starts_at_threshold_five() {
    let l = Level::new();
    assert_eq!(l.current_level, 1);
    assert_eq!(l.current_xp, 0);
    assert_eq!(l.previous_xp_needed, 0);
    assert_eq!(l.xp_needed, 5);
}

#[test]
fn advance_scales_the_gap_by_one_and_a_half() {
    let mut l = Level::new();
    l.advance();
    assert_eq!(l.current_level, 2);
    assert_eq!(l.previous_xp_needed, 5);
    assert_eq!(l.xp_needed, 13);
    l.advance();
    assert_eq!(l.current_level, 3);
    assert_eq!(l.previous_xp_needed, 13);
    assert_eq!(l.xp_needed, 25);
    l.advance();
    assert_eq!(l.xp_needed, 43);
}

#[test]
fn thresholds_strictly_increase_over_many_advances() {
    let mut l = Level::new();
    let mut last = l.xp_needed;
    for _ in 0..40 {
        l.advance();
        assert!(l.xp_needed > last);
        last = l.xp_needed;
    }
}

#[test]
fn twelve_xp_at_level_one_gains_one_level() {
    // the second threshold is 13, so 12 XP crosses only the first
    let mut l = Level::new();
    l.add_xp(12);
    let events = update_level_display(&mut l);
    assert_eq!(events.len(), 1);
    assert_eq!(events[0].new_level, 2);
    assert_eq!(l.current_level, 2);
    assert!(l.current_xp < l.xp_needed);
}

#[test]
fn one_large_award_gains_several_levels_in_one_call() {
    let mut l = Level::new();
    l.add_xp(13);
    let events = update_level_display(&mut l);
    assert_eq!(events.len(), 2);
    assert_eq!(events[0].new_level, 2);
    assert_eq!(events[1].new_level, 3);
    assert_eq!(l.current_level, 3);
    assert_eq!(l.xp_needed, 25);

    let mut l = Level::new();
    l.add_xp(100);
    let events = update_level_display(&mut l);
    // thresholds 5, 13, 25, 43, 70, 111
    assert_eq!(events.len(), 5);
    assert_eq!(l.current_level, 6);
    assert_eq!(l.xp_needed, 111);
    assert!(l.current_xp < l.xp_needed);
}

#[test]
fn xp_below_threshold_gains_nothing() {
    let mut l = Level::new();
    l.add_xp(4);
    let events = update_level_display(&mut l);
    assert!(events.is_empty());
    assert_eq!(l.current_level, 1);
}

#[test]
fn higher_max_health_keeps_the_fraction() {
    let mut h = Health { current_health: 50, max_health: 100 };
    activate_higher_max_health(&mut h);
    assert_eq!(h.max_health, 110);
    assert_eq!(h.current_health, 55);
}

#[test]
fn higher_max_health_rounds_half_up() {
    let mut h = Health { current_health: 15, max_health: 95 };
    activate_higher_max_health(&mut h);
    // 104.5 and 16.5
    assert_eq!(h.max_health, 105);
    assert_eq!(h.current_health, 17);
}

#[test]
fn higher_max_health_rescales_against_the_rounded_maximum() {
    // the maximum becomes 15; 15 * 5 / 14 = 5.36 rounds to 5
    let mut h = Health { current_health: 5, max_health: 14 };
    activate_higher_max_health(&mut h);
    assert_eq!(h.max_health, 15);
    assert_eq!(h.current_health, 5);
    let mut full = Health { current_health: 14, max_health: 14 };
    activate_higher_max_health(&mut full);
    assert_eq!(full.current_health, 15);
    let mut empty = Health { current_health: 0, max_health: 0 };
    activate_higher_max_health(&mut empty);
    assert_eq!(empty, Health { current_health: 0, max_health: 0 });
}

#[test]
fn higher_max_health_saturates_at_the_largest_value() {
    let mut h = Health { current_health: u64::MAX, max_health: u64::MAX };
    activate_higher_max_health(&mut h);
    assert_eq!(h, Health { current_health: u64::MAX, max_health: u64::MAX });
    let mut half = Health { current_health: u64::MAX / 2, max_health: u64::MAX };
    activate_higher_max_health(&mut half);
    assert_eq!(half.max_health, u64::MAX);
    assert_eq!(half.current_health, u64::MAX / 2);
}

#[test]
fn huge_xp_stops_at_the_largest_threshold() {
    let mut l = Level::new();
    l.add_xp(u64::MAX);
    let events = update_level_display(&mut l);
    assert!(!events.is_empty());
    assert_eq!(l.current_level, 1 + events.len() as u64);
    assert!(l.xp_needed > too_many_of_them::level::MAX_XP_NEEDED);
}

#[test]
fn heal_restores_full_health() {
    let mut h = Health { current_health: 3, max_health: 120 };
    activate_heal(&mut h);
    assert_eq!(h.current_health, 120);
}

#[test]
fn health_stays_in_range_over_damage_and_healing() {
    let mut h = Health::new(100);
    let ops = [
        HealthOp::Damage(30),
        HealthOp::Heal(50),
        HealthOp::Damage(250),
        HealthOp::Damage(1),
        HealthOp::Heal(7),
        HealthOp::FullHeal,
        HealthOp::Heal(u64::MAX),
        HealthOp::Damage(u64::MAX),
    ];
    let expected = [70, 100, 0, 0, 7, 100, 100, 0];
    for (op, want) in ops.iter().zip(expected.iter()) {
        apply_op(&mut h, *op);
        assert_eq!(h.current_health, *want);
        assert!(h.current_health <= h.max_health);
        assert_eq!(h.max_health, 100);
    }
}

#[test]
fn death_is_zero_health() {
    let mut h = Health::new(10);
    assert!(!h.check_for_death());
    h.take_damage(10);
    assert!(h.check_for_death());
}

#[test]
fn regeneration_heals_once_per_interval_once_unlocked() {
    let mut h = Health { current_health: 90, max_health: 100 };
    let mut regen = starting_health_regen();
    health_regen(&mut regen, &mut h, 16 * MS);
    assert_eq!(h.current_health, 90);
    activate_unlock_health_regen(&mut regen);
    health_regen(&mut regen, &mut h, 1_999 * MS);
    assert_eq!(h.current_health, 90);
    health_regen(&mut regen, &mut h, 1 * MS);
    assert_eq!(h.current_health, 91);
    let mut full = Health::new(100);
    health_regen(&mut regen, &mut full, 2_000 * MS);
    assert_eq!(full.current_health, 100);
}
