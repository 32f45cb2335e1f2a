use rand::rngs::StdRng;
use rand::SeedableRng;
use too_many_of_them::combat::{
    collisions, despawn_entities, CollisionEvent, CollisionWorld, CombatEffect, EntitiesToDespawn, Enemy,
    PlayerBody, Sword,
};
use too_many_of_them::level::{LevelUp, Level};
use too_many_of_them::loadout::{starting_attack_cooldown, SecondaryAction, SecondaryActionType, activate_unlock_teleport, activate_unlock_teleport_explosion, activate_unlock_grenade};
use too_many_of_them::perk::{eligible_perks, PerkType};
use too_many_of_them::screens::{game_over_setup, next_state, GameState, StateEvent};
use too_many_of_them::session::{
    insert_starting_resources, keep_player_in_bounds, level_up, move_camera, player_attack, player_movement,
    player_secondary_action, show_perk_chooser_buttons, slow_mo, toggle_pause, tween_completed, GameClock,
    MovementKeys, SecondaryOutcome, TweenCompleted,
};
use too_many_of_them::spawn::Position;

const MS: u64 = 1_000_000;

fn world(sword_active: bool, retaliate: bool) -> CollisionWorld {
    CollisionWorld {
        enemies: vec![
            Enemy { entity: 10, damage: 5, xp_reward: 1 },
            Enemy { entity: 11, damage: 25, xp_reward: 3 },
        ],
        swords: vec![Sword { entity: 20, active: sword_active }],
        players: vec![PlayerBody { entity: 30, retaliate }],
        explosions: vec![40],
    }
}

#[test]
fn inactive_sword_does_nothing() {
    let mut r = insert_starting_resources();
    let effects = collisions(
        &vec![CollisionEvent { a: 10, b: 20 }, CollisionEvent { a: 20, b: 11 }],
        &world(false, false),
        &mut r.entities_to_despawn,
        &mut r.level,
        &mut r.health,
        &mut r.slow_mo_timer,
    );
    assert!(effects.is_empty());
    assert!(r.entities_to_despawn.0.is_empty());
    assert_eq!(r.level.current_xp, 0);
    assert!(r.slow_mo_timer.timer.paused);
}

#[test]
fn active_sword_kills_once_and_awards_xp() {
    let mut r = insert_starting_resources();
    let effects = collisions(
        &vec![CollisionEvent { a: 20, b: 11 }, CollisionEvent { a: 11, b: 20 }],
        &world(true, false),
        &mut r.entities_to_despawn,
        &mut r.level,
        &mut r.health,
        &mut r.slow_mo_timer,
    );
    assert_eq!(r.entities_to_despawn.0, vec![11]);
    assert_eq!(r.level.current_xp, 3);
    assert_eq!(effects, vec![CombatEffect::EnemyKilled { enemy: 11 }]);
    assert!(!r.slow_mo_timer.timer.paused);
    assert_eq!(r.slow_mo_timer.target_time_scale, 50);
    assert_eq!(r.slow_mo_timer.timer.duration, 250 * MS);
    assert_eq!(r.health.current_health, 100);
}

#[test]
fn explosion_kills_enemy() {
    let mut r = insert_starting_resources();
    let effects = collisions(
        &vec![CollisionEvent { a: 10, b: 40 }],
        &world(false, false),
        &mut r.entities_to_despawn,
        &mut r.level,
        &mut r.health,
        &mut r.slow_mo_timer,
    );
    assert_eq!(r.entities_to_despawn.0, vec![10]);
    assert_eq!(r.level.current_xp, 1);
    assert_eq!(effects, vec![CombatEffect::EnemyKilled { enemy: 10 }]);
    assert!(r.slow_mo_timer.timer.paused);
}

#[test]
fn enemy_hitting_player_deals_damage_saturating() {
    let mut r = insert_starting_resources();
    r.health.current_health = 30;
    let events = vec![
        CollisionEvent { a: 30, b: 11 },
        CollisionEvent { a: 11, b: 30 },
        CollisionEvent { a: 10, b: 30 },
    ];
    let effects = collisions(
        &events,
        &world(false, false),
        &mut r.entities_to_despawn,
        &mut r.level,
        &mut r.health,
        &mut r.slow_mo_timer,
    );
    assert_eq!(r.health.current_health, 0);
    assert_eq!(r.health.max_health, 100);
    assert!(r.entities_to_despawn.0.is_empty());
    assert_eq!(effects.len(), 3);
    assert_eq!(effects[0], CombatEffect::PlayerHit { player: 30, enemy: 11 });
    assert!(r.health.check_for_death());
}

#[test]
fn retaliation_kills_the_attacker() {
    let mut r = insert_starting_resources();
    let effects = collisions(
        &vec![CollisionEvent { a: 11, b: 30 }, CollisionEvent { a: 30, b: 11 }],
        &world(false, true),
        &mut r.entities_to_despawn,
        &mut r.level,
        &mut r.health,
        &mut r.slow_mo_timer,
    );
    assert_eq!(r.health.current_health, 75);
    assert_eq!(r.entities_to_despawn.0, vec![11]);
    assert_eq!(r.level.current_xp, 3);
    assert_eq!(
        effects,
        vec![CombatEffect::PlayerHit { player: 30, enemy: 11 }, CombatEffect::EnemyKilled { enemy: 11 }]
    );
}

#[test]
fn collisions_without_an_enemy_are_ignored() {
    let mut r = insert_starting_resources();
    let effects = collisions(
        &vec![CollisionEvent { a: 20, b: 30 }, CollisionEvent { a: 99, b: 98 }, CollisionEvent { a: 10, b: 11 }],
        &world(true, true),
        &mut r.entities_to_despawn,
        &mut r.level,
        &mut r.health,
        &mut r.slow_mo_timer,
    );
    assert!(effects.is_empty());
    assert_eq!(r.health.current_health, 100);
}

#[test]
fn world_well_formedness() {
    assert!(world(true, false).is_well_formed());
    let mut w = world(true, false);
    w.enemies.push(Enemy { entity: 10, damage: 1, xp_reward: 1 });
    assert!(!w.is_well_formed());
    let mut w = world(true, false);
    w.explosions.push(11);
    assert!(!w.is_well_formed());
    let mut w = world(true, false);
    w.swords.push(Sword { entity: 10, active: false });
    assert!(!w.is_well_formed());
    let mut w = world(true, false);
    w.players.push(PlayerBody { entity: 30, retaliate: true });
    assert!(!w.is_well_formed());
    let mut w = world(true, false);
    w.explosions.push(40);
    assert!(w.is_well_formed());
}

#[test]
fn despawn_queue_drains_in_order() {
    let mut q = EntitiesToDespawn(vec![4, 2, 9]);
    assert_eq!(despawn_entities(&mut q), vec![4, 2, 9]);
    assert!(q.0.is_empty());
    assert!(despawn_entities(&mut q).is_empty());
}

#[test]
fn starting_resources() {
    let r = insert_starting_resources();
    assert_eq!(r.zoom.0, 330);
    assert_eq!(r.level, Level::new());
    assert_eq!((r.health.current_health, r.health.max_health), (100, 100));
    assert_eq!(r.spawn_timer.0.duration, 500 * MS);
    assert_eq!(r.spawn_interval_change_timer.0.duration, 5_000 * MS);
    assert_eq!(r.spawn_weights_change_timer.0.duration, 5_000 * MS);
    assert_eq!(r.spawn_areas.0.len(), 4);
    assert_eq!(r.enemy_speed_multiplier.0, 1000);
    assert!(r.available_perks.0.is_empty());
    assert_eq!(r.perk_chooser_delay_timers.initial_delay.duration, 500 * MS);
    let delays: Vec<u64> = r.perk_chooser_delay_timers.button_delays.iter().map(|t| t.duration).collect();
    assert_eq!(delays, vec![100 * MS, 300 * MS, 500 * MS]);
    assert!(r.slow_mo_timer.timer.paused);
}

#[test]
fn pause_toggles() {
    let mut c = GameClock { paused: false, relative_speed: 100 };
    toggle_pause(&mut c);
    assert!(c.paused);
    toggle_pause(&mut c);
    assert!(!c.paused);
    assert_eq!(c.relative_speed, 100);
}

#[test]
fn slow_motion_runs_then_ends() {
    let mut r = insert_starting_resources();
    let mut clock = GameClock { paused: false, relative_speed: 100 };
    slow_mo(&mut r.slow_mo_timer, &mut clock, 16 * MS);
    assert_eq!(clock.relative_speed, 100);
    collisions(
        &vec![CollisionEvent { a: 10, b: 20 }],
        &world(true, false),
        &mut r.entities_to_despawn,
        &mut r.level,
        &mut r.health,
        &mut r.slow_mo_timer,
    );
    slow_mo(&mut r.slow_mo_timer, &mut clock, 100 * MS);
    assert_eq!(clock.relative_speed, 50);
    slow_mo(&mut r.slow_mo_timer, &mut clock, 150 * MS);
    assert_eq!(clock.relative_speed, 100);
}

#[test]
fn level_up_pauses_zooms_and_offers_perks() {
    let mut rng = StdRng::seed_from_u64(9);
    let mut r = insert_starting_resources();
    let mut clock = GameClock { paused: false, relative_speed: 100 };
    let owned = vec![PerkType::UnlockTeleport];
    let cues = level_up(
        &mut rng,
        &vec![LevelUp { new_level: 2 }],
        &mut r.zoom,
        &mut clock,
        &owned,
        &mut r.available_perks,
        &mut r.perk_chooser_delay_timers,
    );
    assert_eq!(cues, 1);
    assert!(clock.paused);
    assert_eq!(r.zoom.0, 346);
    assert_eq!(r.available_perks.0.len(), 3);
    let eligible = eligible_perks(&owned);
    assert!(r.available_perks.0.iter().all(|p| eligible.contains(p)));

    let mut z = r.zoom;
    for _ in 0..40 {
        level_up(&mut rng, &vec![LevelUp { new_level: 3 }], &mut z, &mut clock, &owned, &mut r.available_perks, &mut r.perk_chooser_delay_timers);
    }
    assert_eq!(z.0, 1000);

    let mut unchanged = GameClock { paused: false, relative_speed: 100 };
    assert_eq!(level_up(&mut rng, &vec![], &mut z, &mut unchanged, &owned, &mut r.available_perks, &mut r.perk_chooser_delay_timers), 0);
    assert!(!unchanged.paused);
}

#[test]
fn perk_chooser_buttons_appear_after_their_delays() {
    let mut r = insert_starting_resources();
    let timers = &mut r.perk_chooser_delay_timers;
    assert!(show_perk_chooser_buttons(timers, 400 * MS).is_empty());
    assert_eq!(show_perk_chooser_buttons(timers, 100 * MS), vec![0]);
    assert!(show_perk_chooser_buttons(timers, 100 * MS).is_empty());
    assert_eq!(show_perk_chooser_buttons(timers, 100 * MS), vec![1]);
    assert_eq!(show_perk_chooser_buttons(timers, 500 * MS), vec![2]);
}

#[test]
fn tween_completion_ends_swing_attack_and_explosion() {
    let mut swords = vec![Sword { entity: 1, active: true }, Sword { entity: 2, active: true }];
    let mut attacking = true;
    let mut q = EntitiesToDespawn(vec![]);
    tween_completed(&vec![TweenCompleted { entity: 1, user_data: 3 }], &mut swords, &mut attacking, &vec![40], &mut q);
    assert!(swords.iter().all(|s| s.active));
    assert!(attacking);
    assert!(q.0.is_empty());
    tween_completed(
        &vec![
            TweenCompleted { entity: 2, user_data: 1 },
            TweenCompleted { entity: 40, user_data: 3 },
            TweenCompleted { entity: 0, user_data: 2 },
        ],
        &mut swords,
        &mut attacking,
        &vec![40],
        &mut q,
    );
    assert!(swords.iter().all(|s| !s.active));
    assert!(!attacking);
    assert_eq!(q.0, vec![40]);
}

#[test]
fn attack_needs_cooldown_and_cursor() {
    let mut cd = starting_attack_cooldown();
    let mut attacking = false;
    let mut swords = vec![Sword { entity: 1, active: false }];
    assert!(!player_attack(&mut cd, &mut attacking, &mut swords, false));
    assert!(!attacking);
    assert!(player_attack(&mut cd, &mut attacking, &mut swords, true));
    assert!(attacking);
    assert!(swords[0].active);
    assert!(!cd.0.finished());
    attacking = false;
    swords[0].active = false;
    assert!(!player_attack(&mut cd, &mut attacking, &mut swords, true));
    assert!(!swords[0].active);
    too_many_of_them::loadout::update_attack_cooldown(&mut cd, 750 * MS);
    assert!(player_attack(&mut cd, &mut attacking, &mut swords, true));
}

#[test]
fn secondary_actions() {
    let target = Position { x: 1_000, y: -2_000 };
    let mut none = SecondaryAction(SecondaryActionType::NoAction);
    assert_eq!(player_secondary_action(&mut none, Some(target)), SecondaryOutcome::Nothing);

    let mut tp = SecondaryAction(SecondaryActionType::NoAction);
    activate_unlock_teleport(&mut tp);
    assert_eq!(player_secondary_action(&mut tp, None), SecondaryOutcome::Nothing);
    assert_eq!(
        player_secondary_action(&mut tp, Some(target)),
        SecondaryOutcome::Teleported { target, explosion_radius: None }
    );
    assert_eq!(player_secondary_action(&mut tp, Some(target)), SecondaryOutcome::Nothing);
    too_many_of_them::loadout::update_secondary_action_cooldown(&mut tp, 5_000 * MS);
    activate_unlock_teleport_explosion(&mut tp);
    assert_eq!(
        player_secondary_action(&mut tp, Some(target)),
        SecondaryOutcome::Teleported { target, explosion_radius: Some(20_000) }
    );

    let mut g = SecondaryAction(SecondaryActionType::NoAction);
    activate_unlock_grenade(&mut g);
    assert_eq!(player_secondary_action(&mut g, Some(target)), SecondaryOutcome::GrenadeThrown { target });
}

#[test]
fn player_stays_in_bounds() {
    assert_eq!(keep_player_in_bounds(Position { x: 600_000, y: -600_000 }), Position { x: 497_500, y: -497_500 });
    assert_eq!(keep_player_in_bounds(Position { x: 12, y: -7 }), Position { x: 12, y: -7 });
}

#[test]
fn camera_follows_within_the_play_area() {
    assert_eq!(move_camera(Position { x: 400_000, y: 0 }, 300_000, 200_000), Position { x: 350_000, y: 0 });
    assert_eq!(move_camera(Position { x: -450_000, y: -450_000 }, 300_000, 200_000), Position { x: -350_000, y: -400_000 });
    assert_eq!(move_camera(Position { x: 400_000, y: 300_000 }, 2_000_000, 2_000_000), Position { x: 0, y: 0 });
}

#[test]
fn movement_keys() {
    let c = player_movement(MovementKeys { left: true, right: true, up: false, down: true }, true);
    assert_eq!((c.force_x, c.force_y, c.face_cursor), (-100_000, -100_000, false));
    let c = player_movement(MovementKeys { left: false, right: true, up: true, down: true }, false);
    assert_eq!((c.force_x, c.force_y, c.face_cursor), (100_000, 100_000, true));
    let c = player_movement(MovementKeys { left: false, right: false, up: false, down: false }, false);
    assert_eq!((c.force_x, c.force_y), (0, 0));
}

#[test]
fn game_over_messages() {
    let mut l = Level::new();
    l.current_level = 3;
    l.current_xp = 20;
    let s = game_over_setup(&l);
    assert_eq!((s.level, s.xp), (3, 20));
    assert_eq!(s.legacy_message, "You will be forgotten.");
    l.current_level = 4;
    assert_eq!(game_over_setup(&l).legacy_message, "Your efforts were not in vain, but you will be forgotten.");
    l.current_level = 14;
    assert_eq!(game_over_setup(&l).legacy_message, "You will be remembered.");
    l.current_level = 15;
    assert_eq!(game_over_setup(&l).legacy_message, "Your heroic feats will be remembered for all time.");
}

#[test]
fn screen_transitions() {
    assert_eq!(next_state(GameState::Menu, StateEvent::StartPressed), GameState::GameLoading);
    assert_eq!(next_state(GameState::GameLoading, StateEvent::LoadingDone), GameState::Game);
    assert_eq!(next_state(GameState::Game, StateEvent::PlayerDied), GameState::GameOver);
    assert_eq!(next_state(GameState::GameOver, StateEvent::RestartPressed), GameState::GameLoading);
    assert_eq!(next_state(GameState::Game, StateEvent::StartPressed), GameState::Game);
}
