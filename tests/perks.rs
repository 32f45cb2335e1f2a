use rand::rngs::StdRng;
use rand::SeedableRng;
use too_many_of_them::health::Health;
use too_many_of_them::loadout::{
    activate_faster_health_regen, activate_larger_grenade_explosion, activate_larger_teleport_explosion,
    activate_retaliate, activate_shorter_attack_cooldown, activate_shorter_teleport_cooldown,
    activate_slower_enemies, activate_unlock_grenade, activate_unlock_teleport,
    activate_unlock_teleport_explosion, build_sword_swing_params, choose_perk, EnemySpeedMultiplier,
    PlayerLoadout, Retaliate, SecondaryAction, SecondaryActionType,
};
use too_many_of_them::perk::{eligible_perks, PerkType};
use too_many_of_them::session::GameClock;

const MS: u64 = 1_000_000;

#[test]
fn eligible_perks_for_a_new_player() {
    let e = eligible_perks(&vec![]);
    assert_eq!(
        e,
        vec![
            PerkType::LongerSword,
            PerkType::WiderSwordSwing,
            PerkType::ShorterAttackCooldown,
            PerkType::HigherMaxSpeed,
            PerkType::HigherMaxHealth,
            PerkType::Heal,
            PerkType::UnlockGrenade,
            PerkType::UnlockTeleport,
            PerkType::UnlockHealthRegen,
            PerkType::Retaliate,
            PerkType::SlowerEnemies,
        ]
    );
}

#[test]
fn grenade_unlock_is_offered_until_owned() {
    let mut rng = StdRng::seed_from_u64(21);
    let all = PerkType::choose_random_perk_types(&mut rng, 100, &vec![]);
    assert!(all.contains(&PerkType::UnlockGrenade));
    assert!(eligible_perks(&vec![PerkType::UnlockTeleport]).contains(&PerkType::UnlockGrenade));
    let owned = vec![PerkType::UnlockGrenade];
    for _ in 0..20 {
        assert!(!PerkType::choose_random_perk_types(&mut rng, 100, &owned).contains(&PerkType::UnlockGrenade));
    }
}

#[test]
fn grenade_upgrades_need_the_grenade() {
    assert!(!eligible_perks(&vec![]).contains(&PerkType::LargerGrenadeExplosion));
    assert!(!eligible_perks(&vec![PerkType::UnlockTeleport]).contains(&PerkType::LargerGrenadeExplosion));
    let with_grenade = eligible_perks(&vec![PerkType::UnlockGrenade]);
    assert!(with_grenade.contains(&PerkType::LargerGrenadeExplosion));
    assert!(with_grenade.contains(&PerkType::ShorterGrenadeCooldown));
    assert!(!with_grenade.contains(&PerkType::UnlockGrenade));
}

#[test]
fn one_shot_perks_are_not_offered_twice() {
    let e = eligible_perks(&vec![PerkType::Retaliate, PerkType::UnlockHealthRegen]);
    assert!(!e.contains(&PerkType::Retaliate));
    assert!(!e.contains(&PerkType::UnlockHealthRegen));
    assert!(e.contains(&PerkType::FasterHealthRegen));
}

#[test]
fn teleport_perk_chain() {
    let e = eligible_perks(&vec![PerkType::UnlockTeleport]);
    assert!(!e.contains(&PerkType::UnlockTeleport));
    assert!(e.contains(&PerkType::ShorterTeleportCooldown));
    assert!(e.contains(&PerkType::UnlockTeleportExplosion));
    assert!(!e.contains(&PerkType::LargerTeleportExplosion));
    let e = eligible_perks(&vec![PerkType::UnlockTeleport, PerkType::UnlockTeleportExplosion]);
    assert!(!e.contains(&PerkType::UnlockTeleportExplosion));
    assert!(e.contains(&PerkType::LargerTeleportExplosion));
}

#[test]
fn random_perk_choice_is_distinct_eligible_and_sized() {
    let mut rng = StdRng::seed_from_u64(1);
    let owned = vec![PerkType::Retaliate];
    let eligible = eligible_perks(&owned);
    for _ in 0..50 {
        let chosen = PerkType::choose_random_perk_types(&mut rng, 3, &owned);
        assert_eq!(chosen.len(), 3);
        for (i, p) in chosen.iter().enumerate() {
            assert!(eligible.contains(p));
            assert!(!chosen[i + 1..].contains(p));
        }
    }
    let all = PerkType::choose_random_perk_types(&mut rng, 100, &owned);
    assert_eq!(all.len(), eligible.len());
    assert!(PerkType::choose_random_perk_types(&mut rng, 0, &owned).is_empty());
}

#[test]
fn perk_names_and_descriptions() {
    let (name, desc) = PerkType::LongerSword.get_name_and_description();
    assert_eq!(name, "Reach");
    assert_eq!(desc, "Increases sword length by 10%");
    let (name, desc) = PerkType::SlowerEnemies.get_name_and_description();
    assert_eq!(name, "Faster Reflexes");
    assert_eq!(desc, "All enemies move 5% slower");
    let (name, _) = PerkType::UnlockTeleportExplosion.get_name_and_description();
    assert_eq!(name, "Spacetime Destabilization");
}

#[test]
fn teleport_replaces_grenade() {
    let mut a = SecondaryAction(SecondaryActionType::NoAction);
    activate_unlock_grenade(&mut a);
    activate_larger_grenade_explosion(&mut a);
    match a.0 {
        SecondaryActionType::Grenade { explosion_radius, cooldown_timer } => {
            assert_eq!(explosion_radius, 33_000);
            assert!(cooldown_timer.finished());
        }
        _ => panic!("expected a grenade"),
    }
    activate_unlock_teleport(&mut a);
    match a.0 {
        SecondaryActionType::Teleport { cooldown_timer, explodes, explosion_radius } => {
            assert!(!explodes);
            assert_eq!(explosion_radius, 0);
            assert_eq!(cooldown_timer.duration, 5_000 * MS);
            assert!(cooldown_timer.finished());
        }
        _ => panic!("expected a teleport"),
    }
    activate_larger_grenade_explosion(&mut a);
    assert!(matches!(a.0, SecondaryActionType::Teleport { explosion_radius: 0, .. }));
}

#[test]
fn teleport_upgrades() {
    let mut a = SecondaryAction(SecondaryActionType::NoAction);
    activate_unlock_teleport_explosion(&mut a);
    assert_eq!(a.0, SecondaryActionType::NoAction);
    activate_unlock_teleport(&mut a);
    activate_unlock_teleport_explosion(&mut a);
    activate_larger_teleport_explosion(&mut a);
    activate_shorter_teleport_cooldown(&mut a);
    match a.0 {
        SecondaryActionType::Teleport { cooldown_timer, explodes, explosion_radius } => {
            assert!(explodes);
            assert_eq!(explosion_radius, 22_000);
            assert_eq!(cooldown_timer.duration, 4_500 * MS);
        }
        _ => panic!("expected a teleport"),
    }
}

#[test]
fn cooldowns_shrink_by_a_tenth_and_stay_positive() {
    let mut l = PlayerLoadout::new();
    activate_shorter_attack_cooldown(&mut l.attack_cooldown);
    assert_eq!(l.attack_cooldown.0.duration, 675 * MS);
    for _ in 0..1000 {
        activate_shorter_attack_cooldown(&mut l.attack_cooldown);
        assert!(l.attack_cooldown.0.duration > 0);
    }
    assert_eq!(l.attack_cooldown.0.duration, 1);
    too_many_of_them::health::activate_unlock_health_regen(&mut l.health_regen);
    activate_faster_health_regen(&mut l.health_regen);
    assert_eq!(l.health_regen.timer.duration, 1_800 * MS);
}

#[test]
fn slower_enemies_floor_at_a_tenth() {
    let mut m = EnemySpeedMultiplier(1000);
    activate_slower_enemies(&mut m);
    assert_eq!(m.0, 900);
    for _ in 0..100 {
        activate_slower_enemies(&mut m);
    }
    assert_eq!(m.0, 100);
}

#[test]
fn retaliate_turns_on() {
    let mut r = Retaliate(false);
    activate_retaliate(&mut r);
    assert!(r.0);
}

#[test]
fn choose_perk_applies_and_records() {
    let mut player = PlayerLoadout::new();
    let mut swords: Vec<_> = build_sword_swing_params().into_iter().map(|(p, _)| p).collect();
    let mut health = Health { current_health: 50, max_health: 100 };
    let mut speed = EnemySpeedMultiplier(1000);
    let mut clock = GameClock { paused: true, relative_speed: 100 };

    choose_perk(PerkType::HigherMaxHealth, &mut player, &mut swords, &mut health, &mut speed, &mut clock);
    assert_eq!(health, Health { current_health: 55, max_health: 110 });
    assert_eq!(clock, GameClock { paused: false, relative_speed: 100 });
    clock.paused = true;
    choose_perk(PerkType::LongerSword, &mut player, &mut swords, &mut health, &mut speed, &mut clock);
    assert!(swords.iter().all(|s| s.end_scale_y == 1_100));
    choose_perk(PerkType::LongerSword, &mut player, &mut swords, &mut health, &mut speed, &mut clock);
    assert!(swords.iter().all(|s| s.end_scale_y == 1_210));
    choose_perk(PerkType::WiderSwordSwing, &mut player, &mut swords, &mut health, &mut speed, &mut clock);
    assert!(swords.iter().all(|s| s.start_rotation == 31_500 && s.end_rotation == -31_500));
    choose_perk(PerkType::HigherMaxSpeed, &mut player, &mut swords, &mut health, &mut speed, &mut clock);
    assert_eq!(player.max_speed.0, 77_000);
    choose_perk(PerkType::UnlockGrenade, &mut player, &mut swords, &mut health, &mut speed, &mut clock);
    choose_perk(PerkType::UnlockTeleport, &mut player, &mut swords, &mut health, &mut speed, &mut clock);
    assert!(matches!(player.secondary_action.0, SecondaryActionType::Teleport { explodes: false, .. }));
    choose_perk(PerkType::Heal, &mut player, &mut swords, &mut health, &mut speed, &mut clock);
    assert_eq!(health.current_health, 110);
    choose_perk(PerkType::SlowerEnemies, &mut player, &mut swords, &mut health, &mut speed, &mut clock);
    assert_eq!(speed.0, 900);
    choose_perk(PerkType::Retaliate, &mut player, &mut swords, &mut health, &mut speed, &mut clock);
    assert!(player.retaliate.0);
    assert_eq!(
        player.perks.0,
        vec![
            PerkType::HigherMaxHealth,
            PerkType::LongerSword,
            PerkType::WiderSwordSwing,
            PerkType::HigherMaxSpeed,
            PerkType::UnlockGrenade,
            PerkType::UnlockTeleport,
            PerkType::Heal,
            PerkType::SlowerEnemies,
            PerkType::Retaliate,
        ]
    );
}

#[test]
fn sword_and_shadow_swings() {
    let p = build_sword_swing_params();
    assert_eq!(p.len(), 11);
    assert_eq!(p[0].1, 100);
    assert_eq!(p[0].0.start_delay, 1);
    assert_eq!(p[0].0.swing_end_delay, 100 * MS - 1);
    assert_eq!(p[1].1, 50);
    assert_eq!(p[1].0.start_delay, 5 * MS);
    assert_eq!(p[10].1, 5);
    assert_eq!(p[10].0.start_delay, 50 * MS);
    assert_eq!(p[10].0.swing_end_delay, 50 * MS);
    assert!(p[10].0.send_swing_complete_event && p[10].0.send_attack_done_event);
    assert!(p[..10].iter().all(|(s, _)| !s.send_swing_complete_event && !s.send_attack_done_event));
}
