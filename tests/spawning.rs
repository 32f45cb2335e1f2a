use rand::rngs::StdRng;
use rand::SeedableRng;
use too_many_of_them::enemy::{all_enemy_types, EnemyColor, EnemyType};
use too_many_of_them::spawn::{
    build_spawn_areas, build_starting_spawn_interval_change_timer, build_starting_spawn_timer,
    build_starting_spawn_weights, build_starting_spawn_weights_change_timer, change_spawn_weights,
    spawn_enemies, spawn_enemy, spawn_random_enemy, Rect, SpawnAreas, SpawnWeights,
};

const MS: u64 = 1_000_000;

#[test]
fn single_positive_weight_always_chosen() {
    let mut rng = StdRng::seed_from_u64(7);
    let types = vec![EnemyType::Regular, EnemyType::SmallAndFast, EnemyType::BigAndSlow, EnemyType::Assassin];
    let table = SpawnWeights::new(types, vec![1, 0, 0, 0]).expect("a positive weight");
    for n in [1usize, 2, 50, 500] {
        for _ in 0..n {
            assert_eq!(table.choose_random_enemy_type(&mut rng), EnemyType::Regular);
        }
    }
}

#[test]
fn weighted_draw_never_picks_a_zero_weight() {
    let mut rng = StdRng::seed_from_u64(11);
    let types = vec![EnemyType::Regular, EnemyType::SmallAndFast, EnemyType::UltraAssassin];
    let table = SpawnWeights::new(types, vec![0, 0, 5]).expect("a positive weight");
    for _ in 0..200 {
        assert_eq!(table.choose_random_enemy_type(&mut rng), EnemyType::UltraAssassin);
    }
    let table = build_starting_spawn_weights();
    for _ in 0..200 {
        let t = table.choose_random_enemy_type(&mut rng);
        assert!(matches!(t, EnemyType::Regular | EnemyType::SmallAndFast | EnemyType::BigAndSlow));
    }
}

#[test]
fn spawn_table_rejects_bad_construction() {
    assert!(SpawnWeights::new(vec![EnemyType::Regular], vec![0]).is_none());
    assert!(SpawnWeights::new(vec![], vec![]).is_none());
    assert!(SpawnWeights::new(vec![EnemyType::Regular], vec![1, 2]).is_none());
    assert!(SpawnWeights::new(vec![EnemyType::Regular, EnemyType::Assassin], vec![u32::MAX, 1]).is_none());
    assert!(SpawnWeights::new(vec![EnemyType::Regular], vec![u32::MAX]).is_none());
    assert!(SpawnWeights::new(vec![EnemyType::Regular], vec![u32::MAX - 1]).is_some());
}

#[test]
fn starting_spawn_weights() {
    let sw = build_starting_spawn_weights();
    assert_eq!(sw.types, all_enemy_types());
    assert_eq!(sw.weights, vec![50, 10, 10, 0, 0, 0]);
    assert_eq!(sw.next_weight_to_increase, 0);
}

#[test]
fn bump_weight_raises_the_named_archetype() {
    let mut sw = build_starting_spawn_weights();
    sw.bump_weight(EnemyType::UltraBigAndSlow, 1);
    assert_eq!(sw.weights, vec![50, 10, 10, 1, 0, 0]);
    sw.bump_weight(EnemyType::Regular, 7);
    assert_eq!(sw.weights, vec![57, 10, 10, 1, 0, 0]);
    let mut small = SpawnWeights::new(vec![EnemyType::Regular], vec![3]).unwrap();
    small.bump_weight(EnemyType::Assassin, 4);
    assert_eq!(small.weights, vec![3]);
}

#[test]
fn weight_changes_follow_the_rotation() {
    let mut sw = build_starting_spawn_weights();
    let mut timer = build_starting_spawn_weights_change_timer();
    change_spawn_weights(&mut timer, &mut sw, 4_999 * MS);
    assert_eq!(sw.weights, vec![50, 10, 10, 0, 0, 0]);
    change_spawn_weights(&mut timer, &mut sw, 1 * MS);
    assert_eq!(sw.weights, vec![50, 10, 10, 0, 1, 0]);
    change_spawn_weights(&mut timer, &mut sw, 5_000 * MS);
    assert_eq!(sw.weights, vec![50, 10, 10, 0, 2, 0]);
    change_spawn_weights(&mut timer, &mut sw, 5_000 * MS);
    assert_eq!(sw.weights, vec![50, 10, 10, 1, 2, 0]);
    change_spawn_weights(&mut timer, &mut sw, 5_000 * MS);
    assert_eq!(sw.weights, vec![50, 10, 10, 1, 2, 1]);
    assert_eq!(sw.next_weight_to_increase, 0);
    change_spawn_weights(&mut timer, &mut sw, 5_000 * MS);
    assert_eq!(sw.weights, vec![50, 10, 10, 1, 3, 1]);
}

#[test]
fn spawn_timer_fires_and_interval_shrinks() {
    let mut spawn = build_starting_spawn_timer();
    let mut change = build_starting_spawn_interval_change_timer();
    assert_eq!(spawn.0.duration, 500 * MS);
    assert!(!spawn_enemies(&mut spawn, &mut change, 499 * MS));
    assert!(spawn_enemies(&mut spawn, &mut change, 1 * MS));
    assert_eq!(spawn.0.duration, 500 * MS);
    assert!(spawn_enemies(&mut spawn, &mut change, 4_500 * MS));
    assert_eq!(spawn.0.duration, 475 * MS);
}

#[test]
fn spawn_interval_never_drops_below_the_floor() {
    let mut spawn = build_starting_spawn_timer();
    let mut change = build_starting_spawn_interval_change_timer();
    for _ in 0..200 {
        spawn_enemies(&mut spawn, &mut change, 5_000 * MS);
        assert!(spawn.0.duration >= 5 * MS);
    }
    assert_eq!(spawn.0.duration, 5 * MS);
}

#[test]
fn spawn_areas_surround_the_play_area() {
    let areas = build_spawn_areas();
    assert_eq!(
        areas.0,
        vec![
            Rect { min_x: -535_000, min_y: -500_000, max_x: -510_000, max_y: 500_000 },
            Rect { min_x: 510_000, min_y: -500_000, max_x: 535_000, max_y: 500_000 },
            Rect { min_x: -500_000, min_y: 510_000, max_x: 500_000, max_y: 535_000 },
            Rect { min_x: -500_000, min_y: -535_000, max_x: 500_000, max_y: -510_000 },
        ]
    );
}

#[test]
fn random_spawns_land_in_a_spawn_area() {
    let mut rng = StdRng::seed_from_u64(3);
    let areas = build_spawn_areas();
    let sw = build_starting_spawn_weights();
    let mut seen_x = std::collections::HashSet::new();
    for _ in 0..100 {
        let req = spawn_random_enemy(&mut rng, &areas, &sw).expect("there are spawn areas");
        let p = req.location;
        assert!(areas.0.iter().any(|r| r.min_x <= p.x && p.x <= r.max_x && r.min_y <= p.y && p.y <= r.max_y));
        assert!(p.x.abs() >= 510_000 || p.y.abs() >= 510_000);
        assert_eq!(req.params, req.enemy_type.get_params());
        seen_x.insert(p.x);
    }
    assert!(seen_x.len() > 1);
    assert!(spawn_random_enemy(&mut rng, &SpawnAreas(vec![]), &sw).is_none());
}

#[test]
fn enemy_stats_come_from_the_archetype_ranges() {
    let mut rng = StdRng::seed_from_u64(5);
    let params = EnemyType::Assassin.get_params();
    assert_eq!(params.color, EnemyColor::Aquamarine);
    assert_eq!(params.damage, 15);
    assert_eq!(params.xp_reward, 2);
    let mut speeds = std::collections::HashSet::new();
    for _ in 0..100 {
        let s = spawn_enemy(&mut rng, &params);
        assert_eq!(s.size, 3_000);
        assert!((40_000..=50_000).contains(&s.max_speed));
        assert_eq!(s.damage, 15);
        assert_eq!(s.xp_reward, 2);
        speeds.insert(s.max_speed);
    }
    assert!(speeds.len() > 1);
}

#[test]
fn archetype_table() {
    let p = EnemyType::UltraBigAndSlow.get_params();
    assert_eq!((p.size.min, p.size.max), (8_000, 8_000));
    assert_eq!((p.max_speed.min, p.max_speed.max), (10_000, 15_000));
    assert_eq!((p.damage, p.xp_reward), (25, 3));
    let p = EnemyType::SmallAndFast.get_params();
    assert_eq!((p.size.min, p.damage, p.xp_reward), (2_500, 3, 1));
}
