use vstd::prelude::*;
use crate::health::{Health, HealthRegen, activate_heal, activate_higher_max_health, activate_unlock_health_regen, raised_health};
use crate::session::GameClock;
use crate::perk::PerkType;
use crate::timer::{Timer, TimerMode, nine_tenths, shortened_duration};

verus! {

/// The player's attack cooldown at the start (750 ms).
pub const PLAYER_ATTACK_COOLDOWN: u64 = 750_000_000;

/// The player's top speed at the start, in thousandths of a unit per second.
pub const PLAYER_MAX_SPEED: u64 = 70_000;

/// Cooldown of a freshly unlocked secondary action (5 s).
pub const SECONDARY_ACTION_COOLDOWN: u64 = 5_000_000_000;

/// Explosion radius of a freshly unlocked grenade, in thousandths of a unit.
pub const GRENADE_EXPLOSION_RADIUS: u64 = 30_000;

/// Explosion radius when teleport explosions are unlocked.
pub const TELEPORT_EXPLOSION_RADIUS: u64 = 20_000;

/// Enemy speed is never scaled below this, in thousandths.
pub const MIN_ENEMY_SPEED_MULTIPLIER: u64 = 100;

/// Time until the player may attack again.
#[derive(Clone, Copy, Debug, PartialEq, Eq, Structural)]
pub struct AttackCooldown(pub Timer);

/// The player's top speed, in thousandths of a unit per second.
#[derive(Clone, Copy, Debug, PartialEq, Eq, Structural)]
pub struct MaxSpeed(pub u64);

/// The optional special ability; grenade and teleport exclude each other.
#[derive(Clone, Copy, Debug, PartialEq, Eq, Structural)]
pub enum SecondaryActionType {
    NoAction,
    Grenade { cooldown_timer: Timer, explosion_radius: u64 },
    Teleport { cooldown_timer: Timer, explodes: bool, explosion_radius: u64 },
}

#[derive(Clone, Copy, Debug, PartialEq, Eq, Structural)]
pub struct SecondaryAction(pub SecondaryActionType);

/// Whether enemies that hit the player die.
#[derive(Clone, Copy, Debug, PartialEq, Eq, Structural)]
pub struct Retaliate(pub bool);

/// A global factor on enemy speed, in thousandths.
#[derive(Clone, Copy, Debug, PartialEq, Eq, Structural)]
pub struct EnemySpeedMultiplier(pub u64);

/// `x` plus a `d`-th of it (rounded down), saturating at `u64::MAX`.
pub open spec fn grown(x: u64, d: u64) -> u64 {
    if x + x / d > u64::MAX { u64::MAX } else { (x + x / d) as u64 }
}

fn grow(x: u64, d: u64) -> (r: u64)
    requires
        d > 0,
    ensures
        r == grown(x, d),
{
    x.saturating_add(x / d)
}

/// A duration cut by ten percent, never below one nanosecond.
pub open spec fn shortened(d: u64) -> u64 {
    if nine_tenths(d) == 0 { 1 } else { nine_tenths(d) }
}

/// A timer whose duration is cut by ten percent.
pub open spec fn timer_shortened(t: Timer) -> Timer {
    Timer {
        duration: shortened(t.duration),
        elapsed: if t.elapsed <= shortened(t.duration) { t.elapsed } else { shortened(t.duration) },
        ..t
    }
}

fn shorten_timer(t: &mut Timer)
    requires
        old(t).wf(),
    ensures
        *final(t) == timer_shortened(*old(t)),
        final(t).wf(),
{
    let d = if t.duration == 0 { 1 } else { shortened_duration(t.duration) };
    assert(t.duration > 0 ==> d == shortened(t.duration));
    t.set_duration(d);
}

/// A secondary action's cooldown: ready at once.
pub open spec fn ready_cooldown() -> Timer {
    Timer {
        duration: SECONDARY_ACTION_COOLDOWN,
        elapsed: SECONDARY_ACTION_COOLDOWN,
        mode: TimerMode::Once,
        paused: false,
        finished: true,
        times_finished_this_tick: 0,
    }
}

fn new_ready_cooldown() -> (t: Timer)
    ensures
        t == ready_cooldown(),
        t.wf(),
{
    let mut t = Timer::new(SECONDARY_ACTION_COOLDOWN, TimerMode::Once);
    t.finish();
    t
}

impl SecondaryActionType {
    pub open spec fn wf(self) -> bool {
        match self {
            SecondaryActionType::NoAction => true,
            SecondaryActionType::Grenade { cooldown_timer, .. } => cooldown_timer.wf(),
            SecondaryActionType::Teleport { cooldown_timer, .. } => cooldown_timer.wf(),
        }
    }
}

/// The attack cooldown that the player starts with: ready at once.
pub fn starting_attack_cooldown() -> (c: AttackCooldown)
    ensures
        c.0 == (Timer { elapsed: PLAYER_ATTACK_COOLDOWN, finished: true, ..Timer::fresh(PLAYER_ATTACK_COOLDOWN, TimerMode::Once) }),
        c.0.wf(),
{
    let mut t = Timer::new(PLAYER_ATTACK_COOLDOWN, TimerMode::Once);
    t.finish();
    AttackCooldown(t)
}

/// Advances the attack cooldown.
pub fn update_attack_cooldown(cooldown: &mut AttackCooldown, delta: u64)
    requires
        old(cooldown).0.wf(),
    ensures
        final(cooldown).0 == old(cooldown).0.ticked(delta),
        final(cooldown).0.wf(),
{
    cooldown.0.tick(delta);
}

/// Advances the secondary action's cooldown, if there is one.
pub fn update_secondary_action_cooldown(secondary_action: &mut SecondaryAction, delta: u64)
    requires
        old(secondary_action).0.wf(),
    ensures
        final(secondary_action).0.wf(),
        final(secondary_action).0 == match old(secondary_action).0 {
            SecondaryActionType::NoAction => SecondaryActionType::NoAction,
            SecondaryActionType::Grenade { cooldown_timer, explosion_radius } =>
                SecondaryActionType::Grenade { cooldown_timer: cooldown_timer.ticked(delta), explosion_radius },
            SecondaryActionType::Teleport { cooldown_timer, explodes, explosion_radius } =>
                SecondaryActionType::Teleport { cooldown_timer: cooldown_timer.ticked(delta), explodes, explosion_radius },
        },
{
    match &mut secondary_action.0 {
        SecondaryActionType::NoAction => {},
        SecondaryActionType::Grenade { cooldown_timer, .. } => cooldown_timer.tick(delta),
        SecondaryActionType::Teleport { cooldown_timer, .. } => cooldown_timer.tick(delta),
    }
}

/// Cuts the attack cooldown by ten percent; it stays positive.
pub fn activate_shorter_attack_cooldown(cooldown: &mut AttackCooldown)
    requires
        old(cooldown).0.wf(),
    ensures
        final(cooldown).0 == timer_shortened(old(cooldown).0),
        final(cooldown).0.wf(),
        final(cooldown).0.duration > 0,
{
    shorten_timer(&mut cooldown.0);
}

/// Raises the top speed by ten percent.
pub fn activate_higher_max_speed(max_speed: &mut MaxSpeed)
    ensures
        final(max_speed).0 == grown(old(max_speed).0, 10),
{
    max_speed.0 = grow(max_speed.0, 10);
}

/// Replaces any secondary action with a grenade, ready at once.
pub fn activate_unlock_grenade(secondary_action: &mut SecondaryAction)
    ensures
        final(secondary_action).0 == (SecondaryActionType::Grenade {
            cooldown_timer: ready_cooldown(),
            explosion_radius: GRENADE_EXPLOSION_RADIUS,
        }),
        final(secondary_action).0.wf(),
{
    secondary_action.0 = SecondaryActionType::Grenade {
        cooldown_timer: new_ready_cooldown(),
        explosion_radius: GRENADE_EXPLOSION_RADIUS,
    };
}

/// Grows the grenade explosion radius by ten percent; nothing without a
/// grenade.
pub fn activate_larger_grenade_explosion(secondary_action: &mut SecondaryAction)
    ensures
        final(secondary_action).0 == match old(secondary_action).0 {
            SecondaryActionType::Grenade { cooldown_timer, explosion_radius } =>
                SecondaryActionType::Grenade { cooldown_timer, explosion_radius: grown(explosion_radius, 10) },
            other => other,
        },
{
    if let SecondaryActionType::Grenade { explosion_radius, .. } = &mut secondary_action.0 {
        *explosion_radius = grow(*explosion_radius, 10);
    }
}

/// Cuts the grenade cooldown by ten percent; nothing without a grenade.
pub fn activate_shorter_grenade_cooldown(secondary_action: &mut SecondaryAction)
    requires
        old(secondary_action).0.wf(),
    ensures
        final(secondary_action).0.wf(),
        final(secondary_action).0 == match old(secondary_action).0 {
            SecondaryActionType::Grenade { cooldown_timer, explosion_radius } =>
                SecondaryActionType::Grenade { cooldown_timer: timer_shortened(cooldown_timer), explosion_radius },
            other => other,
        },
{
    if let SecondaryActionType::Grenade { cooldown_timer, .. } = &mut secondary_action.0 {
        shorten_timer(cooldown_timer);
    }
}

/// Replaces any secondary action with a teleport, ready at once and without
/// an explosion.
pub fn activate_unlock_teleport(secondary_action: &mut SecondaryAction)
    ensures
        final(secondary_action).0 == (SecondaryActionType::Teleport {
            cooldown_timer: ready_cooldown(),
            explodes: false,
            explosion_radius: 0,
        }),
        final(secondary_action).0.wf(),
{
    secondary_action.0 = SecondaryActionType::Teleport {
        cooldown_timer: new_ready_cooldown(),
        explodes: false,
        explosion_radius: 0,
    };
}

/// Cuts the teleport cooldown by ten percent; nothing without a teleport.
pub fn activate_shorter_teleport_cooldown(secondary_action: &mut SecondaryAction)
    requires
        old(secondary_action).0.wf(),
    ensures
        final(secondary_action).0.wf(),
        final(secondary_action).0 == match old(secondary_action).0 {
            SecondaryActionType::Teleport { cooldown_timer, explodes, explosion_radius } =>
                SecondaryActionType::Teleport { cooldown_timer: timer_shortened(cooldown_timer), explodes, explosion_radius },
            other => other,
        },
{
    if let SecondaryActionType::Teleport { cooldown_timer, .. } = &mut secondary_action.0 {
        shorten_timer(cooldown_timer);
    }
}

/// Makes teleports explode; nothing without a teleport.
pub fn activate_unlock_teleport_explosion(secondary_action: &mut SecondaryAction)
    ensures
        final(secondary_action).0 == match old(secondary_action).0 {
            SecondaryActionType::Teleport { cooldown_timer, .. } =>
                SecondaryActionType::Teleport { cooldown_timer, explodes: true, explosion_radius: TELEPORT_EXPLOSION_RADIUS },
            other => other,
        },
{
    if let SecondaryActionType::Teleport { explodes, explosion_radius, .. } = &mut secondary_action.0 {
        *explodes = true;
        *explosion_radius = TELEPORT_EXPLOSION_RADIUS;
    }
}

/// Grows the teleport explosion radius by ten percent; nothing without a
/// teleport.
pub fn activate_larger_teleport_explosion(secondary_action: &mut SecondaryAction)
    ensures
        final(secondary_action).0 == match old(secondary_action).0 {
            SecondaryActionType::Teleport { cooldown_timer, explodes, explosion_radius } =>
                SecondaryActionType::Teleport { cooldown_timer, explodes, explosion_radius: grown(explosion_radius, 10) },
            other => other,
        },
{
    if let SecondaryActionType::Teleport { explosion_radius, .. } = &mut secondary_action.0 {
        *explosion_radius = grow(*explosion_radius, 10);
    }
}

/// Makes regeneration ten percent faster.
pub fn activate_faster_health_regen(health_regen: &mut HealthRegen)
    requires
        old(health_regen).timer.wf(),
    ensures
        *final(health_regen) == (HealthRegen { timer: timer_shortened(old(health_regen).timer), ..*old(health_regen) }),
        final(health_regen).timer.wf(),
{
    shorten_timer(&mut health_regen.timer);
}

/// Makes enemies that hit the player die.
pub fn activate_retaliate(retaliate: &mut Retaliate)
    ensures
        final(retaliate).0,
{
    retaliate.0 = true;
}

/// The enemy speed factor after one more slowdown: nine tenths of it,
/// never below a tenth.
pub open spec fn slowed(m: u64) -> u64 {
    if nine_tenths(m) < MIN_ENEMY_SPEED_MULTIPLIER { MIN_ENEMY_SPEED_MULTIPLIER } else { nine_tenths(m) }
}

/// Slows all enemies by ten percent, never below a tenth of their speed.
pub fn activate_slower_enemies(speed_multiplier: &mut EnemySpeedMultiplier)
    ensures
        final(speed_multiplier).0 == slowed(old(speed_multiplier).0),
{
    let m = speed_multiplier.0;
    let n = m / 10 * 9 + (m % 10) * 9 / 10;
    assert(n == nine_tenths(m)) by (nonlinear_arith)
        requires n == m / 10 * 9 + (m % 10) * 9 / 10;
    speed_multiplier.0 = if n < MIN_ENEMY_SPEED_MULTIPLIER { MIN_ENEMY_SPEED_MULTIPLIER } else { n };
}

/// How a sword (or one of its trailing shadows) swings. Lengths are in
/// thousandths of a unit, angles in thousandths of a degree, durations in
/// nanoseconds.
#[derive(Clone, Copy, Debug, PartialEq, Eq, Structural)]
pub struct SwordAnimationParams {
    pub start_delay: u64,
    pub start_scale_y: u64,
    pub end_scale_y: u64,
    pub swing_time: u64,
    pub start_rotation: i64,
    pub end_rotation: i64,
    pub start_translation_x: i64,
    pub end_translation_x: i64,
    pub translation_y: i64,
    pub send_swing_complete_event: bool,
    pub swing_end_delay: u64,
    pub put_away_time: u64,
    pub send_attack_done_event: bool,
}

/// A twentieth of an angle, rounded toward zero.
pub open spec fn twentieth(a: i64) -> int {
    if a >= 0 { a / 20 } else { -((-a) / 20) }
}

/// An angle widened by a twentieth (rounded toward zero), within `i64`.
pub open spec fn widened(a: i64) -> i64 {
    let w = a + twentieth(a);
    if w > i64::MAX { i64::MAX } else if w < i64::MIN { i64::MIN } else { w as i64 }
}

fn widen(a: i64) -> (r: i64)
    ensures
        r == widened(a),
{
    let wide = a as i128;
    let q: i128 = if wide >= 0 { wide / 20 } else { 0 - (0 - wide) / 20 };
    let w: i128 = wide + q;
    if w > i64::MAX as i128 {
        i64::MAX
    } else if w < i64::MIN as i128 {
        i64::MIN
    } else {
        w as i64
    }
}

/// Widens each sword's swing by five percent.
pub fn activate_wider_sword_swing(sword_params: &mut Vec<SwordAnimationParams>)
    ensures
        final(sword_params)@.len() == old(sword_params)@.len(),
        forall|i: int| 0 <= i < old(sword_params)@.len() ==> #[trigger] final(sword_params)@[i] == (SwordAnimationParams {
            start_rotation: widened(old(sword_params)@[i].start_rotation),
            end_rotation: widened(old(sword_params)@[i].end_rotation),
            ..old(sword_params)@[i]
        }),
{
    let mut i: usize = 0;
    while i < sword_params.len()
        invariant
            i <= sword_params@.len(),
            sword_params@.len() == old(sword_params)@.len(),
            forall|j: int| 0 <= j < i ==> #[trigger] sword_params@[j] == (SwordAnimationParams {
                start_rotation: widened(old(sword_params)@[j].start_rotation),
                end_rotation: widened(old(sword_params)@[j].end_rotation),
                ..old(sword_params)@[j]
            }),
            forall|j: int| i <= j < sword_params@.len() ==> #[trigger] sword_params@[j] == old(sword_params)@[j],
        decreases sword_params@.len() - i,
    {
        let mut p = sword_params[i];
        p.start_rotation = widen(p.start_rotation);
        p.end_rotation = widen(p.end_rotation);
        sword_params.set(i, p);
        i += 1;
    }
}

/// Lengthens each sword by ten percent.
pub fn activate_longer_sword(sword_params: &mut Vec<SwordAnimationParams>)
    ensures
        final(sword_params)@.len() == old(sword_params)@.len(),
        forall|i: int| 0 <= i < old(sword_params)@.len() ==> #[trigger] final(sword_params)@[i] == (SwordAnimationParams {
            end_scale_y: grown(old(sword_params)@[i].end_scale_y, 10),
            ..old(sword_params)@[i]
        }),
{
    let mut i: usize = 0;
    while i < sword_params.len()
        invariant
            i <= sword_params@.len(),
            sword_params@.len() == old(sword_params)@.len(),
            forall|j: int| 0 <= j < i ==> #[trigger] sword_params@[j] == (SwordAnimationParams {
                end_scale_y: grown(old(sword_params)@[j].end_scale_y, 10),
                ..old(sword_params)@[j]
            }),
            forall|j: int| i <= j < sword_params@.len() ==> #[trigger] sword_params@[j] == old(sword_params)@[j],
        decreases sword_params@.len() - i,
    {
        let mut p = sword_params[i];
        p.end_scale_y = grow(p.end_scale_y, 10);
        sword_params.set(i, p);
        i += 1;
    }
}

/// The perks a player owns, each at most once.
#[derive(Clone, Debug)]
pub struct Perks(pub Vec<PerkType>);

/// Everything about the player that perks change.
#[derive(Clone, Debug)]
pub struct PlayerLoadout {
    pub attack_cooldown: AttackCooldown,
    pub max_speed: MaxSpeed,
    pub secondary_action: SecondaryAction,
    pub health_regen: HealthRegen,
    pub retaliate: Retaliate,
    pub perks: Perks,
}

impl PlayerLoadout {
    pub open spec fn wf(self) -> bool {
        &&& self.attack_cooldown.0.wf()
        &&& self.secondary_action.0.wf()
        &&& self.health_regen.timer.wf()
        &&& self.perks.0@.no_duplicates()
    }

    /// The loadout a fresh game starts with.
    pub fn new() -> (l: PlayerLoadout)
        ensures
            l.wf(),
            l.attack_cooldown.0 == (Timer { elapsed: PLAYER_ATTACK_COOLDOWN, finished: true, ..Timer::fresh(PLAYER_ATTACK_COOLDOWN, TimerMode::Once) }),
            l.max_speed.0 == PLAYER_MAX_SPEED,
            l.secondary_action.0 == SecondaryActionType::NoAction,
            l.health_regen == (HealthRegen { timer: Timer::fresh(1, TimerMode::Once), amount: 0 }),
            !l.retaliate.0,
            l.perks.0@.len() == 0,
    {
        PlayerLoadout {
            attack_cooldown: starting_attack_cooldown(),
            max_speed: MaxSpeed(PLAYER_MAX_SPEED),
            secondary_action: SecondaryAction(SecondaryActionType::NoAction),
            health_regen: crate::health::starting_health_regen(),
            retaliate: Retaliate(false),
            perks: Perks(Vec::new()),
        }
    }
}

/// The secondary action after a perk is applied.
pub open spec fn secondary_after(p: PerkType, a: SecondaryActionType) -> SecondaryActionType {
    match p {
        PerkType::UnlockGrenade => SecondaryActionType::Grenade {
            cooldown_timer: ready_cooldown(),
            explosion_radius: GRENADE_EXPLOSION_RADIUS,
        },
        PerkType::LargerGrenadeExplosion => match a {
            SecondaryActionType::Grenade { cooldown_timer, explosion_radius } =>
                SecondaryActionType::Grenade { cooldown_timer, explosion_radius: grown(explosion_radius, 10) },
            other => other,
        },
        PerkType::ShorterGrenadeCooldown => match a {
            SecondaryActionType::Grenade { cooldown_timer, explosion_radius } =>
                SecondaryActionType::Grenade { cooldown_timer: timer_shortened(cooldown_timer), explosion_radius },
            other => other,
        },
        PerkType::UnlockTeleport => SecondaryActionType::Teleport {
            cooldown_timer: ready_cooldown(),
            explodes: false,
            explosion_radius: 0,
        },
        PerkType::ShorterTeleportCooldown => match a {
            SecondaryActionType::Teleport { cooldown_timer, explodes, explosion_radius } =>
                SecondaryActionType::Teleport { cooldown_timer: timer_shortened(cooldown_timer), explodes, explosion_radius },
            other => other,
        },
        PerkType::UnlockTeleportExplosion => match a {
            SecondaryActionType::Teleport { cooldown_timer, .. } =>
                SecondaryActionType::Teleport { cooldown_timer, explodes: true, explosion_radius: TELEPORT_EXPLOSION_RADIUS },
            other => other,
        },
        PerkType::LargerTeleportExplosion => match a {
            SecondaryActionType::Teleport { cooldown_timer, explodes, explosion_radius } =>
                SecondaryActionType::Teleport { cooldown_timer, explodes, explosion_radius: grown(explosion_radius, 10) },
            other => other,
        },
        _ => a,
    }
}

/// The health after a perk is applied.
pub open spec fn health_after(p: PerkType, h: Health) -> Health {
    match p {
        PerkType::HigherMaxHealth => raised_health(h),
        PerkType::Heal => Health { current_health: h.max_health, ..h },
        _ => h,
    }
}

/// The regeneration after a perk is applied.
pub open spec fn regen_after(p: PerkType, r: HealthRegen) -> HealthRegen {
    match p {
        PerkType::UnlockHealthRegen => HealthRegen { timer: Timer::fresh(crate::health::HEALTH_REGEN_INTERVAL, TimerMode::Repeating), amount: 1 },
        PerkType::FasterHealthRegen => HealthRegen { timer: timer_shortened(r.timer), ..r },
        _ => r,
    }
}

/// Applies the chosen perk, records it as owned, and resumes the game that
/// was paused for the choice.
pub fn choose_perk(
    chosen: PerkType,
    player: &mut PlayerLoadout,
    sword_params: &mut Vec<SwordAnimationParams>,
    health: &mut Health,
    enemy_speed_multiplier: &mut EnemySpeedMultiplier,
    clock: &mut GameClock,
)
    requires
        old(player).wf(),
        old(health).wf(),
    ensures
        *final(clock) == (GameClock { paused: false, ..*old(clock) }),
        final(player).wf(),
        final(health).wf(),
        final(player).attack_cooldown.0 == if chosen == PerkType::ShorterAttackCooldown {
            timer_shortened(old(player).attack_cooldown.0)
        } else {
            old(player).attack_cooldown.0
        },
        final(player).max_speed.0 == if chosen == PerkType::HigherMaxSpeed {
            grown(old(player).max_speed.0, 10)
        } else {
            old(player).max_speed.0
        },
        final(player).secondary_action.0 == secondary_after(chosen, old(player).secondary_action.0),
        final(player).health_regen == regen_after(chosen, old(player).health_regen),
        final(player).retaliate.0 == (chosen == PerkType::Retaliate || old(player).retaliate.0),
        final(player).perks.0@ == if old(player).perks.0@.contains(chosen) {
            old(player).perks.0@
        } else {
            old(player).perks.0@.push(chosen)
        },
        *final(health) == health_after(chosen, *old(health)),
        final(enemy_speed_multiplier).0 == if chosen == PerkType::SlowerEnemies {
            slowed(old(enemy_speed_multiplier).0)
        } else {
            old(enemy_speed_multiplier).0
        },
        final(sword_params)@.len() == old(sword_params)@.len(),
        forall|i: int| 0 <= i < old(sword_params)@.len() ==> #[trigger] final(sword_params)@[i] == if chosen == PerkType::LongerSword {
            SwordAnimationParams { end_scale_y: grown(old(sword_params)@[i].end_scale_y, 10), ..old(sword_params)@[i] }
        } else if chosen == PerkType::WiderSwordSwing {
            SwordAnimationParams {
                start_rotation: widened(old(sword_params)@[i].start_rotation),
                end_rotation: widened(old(sword_params)@[i].end_rotation),
                ..old(sword_params)@[i]
            }
        } else {
            old(sword_params)@[i]
        },
{
    match chosen {
        PerkType::LongerSword => activate_longer_sword(sword_params),
        PerkType::WiderSwordSwing => activate_wider_sword_swing(sword_params),
        PerkType::ShorterAttackCooldown => activate_shorter_attack_cooldown(&mut player.attack_cooldown),
        PerkType::HigherMaxSpeed => activate_higher_max_speed(&mut player.max_speed),
        PerkType::HigherMaxHealth => activate_higher_max_health(health),
        PerkType::Heal => activate_heal(health),
        PerkType::UnlockGrenade => activate_unlock_grenade(&mut player.secondary_action),
        PerkType::LargerGrenadeExplosion => activate_larger_grenade_explosion(&mut player.secondary_action),
        PerkType::ShorterGrenadeCooldown => activate_shorter_grenade_cooldown(&mut player.secondary_action),
        PerkType::UnlockTeleport => activate_unlock_teleport(&mut player.secondary_action),
        PerkType::ShorterTeleportCooldown => activate_shorter_teleport_cooldown(&mut player.secondary_action),
        PerkType::UnlockTeleportExplosion => activate_unlock_teleport_explosion(&mut player.secondary_action),
        PerkType::LargerTeleportExplosion => activate_larger_teleport_explosion(&mut player.secondary_action),
        PerkType::UnlockHealthRegen => activate_unlock_health_regen(&mut player.health_regen),
        PerkType::FasterHealthRegen => activate_faster_health_regen(&mut player.health_regen),
        PerkType::Retaliate => activate_retaliate(&mut player.retaliate),
        PerkType::SlowerEnemies => activate_slower_enemies(enemy_speed_multiplier),
    }
    if !crate::perk::owns_perk(&player.perks.0, chosen) {
        player.perks.0.push(chosen);
    }
    clock.paused = false;
}

/// Unlocking a grenade and then a teleport leaves a teleport, fresh and
/// without an explosion, whatever the player had before: nothing of the
/// grenade is kept.
pub proof fn lemma_teleport_replaces_grenade(a: SecondaryActionType)
    ensures
        secondary_after(PerkType::UnlockTeleport, secondary_after(PerkType::UnlockGrenade, a))
            == (SecondaryActionType::Teleport { cooldown_timer: ready_cooldown(), explodes: false, explosion_radius: 0 }),
        secondary_after(PerkType::UnlockTeleport, secondary_after(PerkType::UnlockGrenade, a))
            == secondary_after(PerkType::UnlockTeleport, a),
{
}

/// Raising the maximum health keeps the current health at or below it.
pub proof fn lemma_higher_max_health_keeps_bounds(h: Health)
    requires
        h.wf(),
    ensures
        health_after(PerkType::HigherMaxHealth, h).wf(),
        health_after(PerkType::HigherMaxHealth, h).max_health >= h.max_health,
{
    crate::health::lemma_raised_health(h);
}

/// Main swing duration (60 ms).
pub const SWORD_ANIMATION_TIME: u64 = 60_000_000;

/// Pause between the end of a swing and putting the sword away (100 ms).
pub const SWORD_ANIMATION_END_DELAY: u64 = 100_000_000;

/// How long putting the sword away takes (80 ms).
pub const SWORD_PUT_AWAY_TIME: u64 = 80_000_000;

/// Half the swing arc, in thousandths of a degree.
pub const HALF_SWING_ROTATION: i64 = 30_000;

/// Half the sideways travel of a swing, in thousandths of a unit.
pub const HALF_SWING_TRANSLATION: i64 = 1_000;

/// Height of the sword's pivot above the player's center.
pub const SWORD_PIVOT_Y: i64 = 2_500;

/// The swing of a sword that starts after `delay`; the swing ends at the
/// same moment for every delay.
pub open spec fn swing_params(delay: u64, last: bool) -> SwordAnimationParams {
    SwordAnimationParams {
        start_delay: delay,
        start_scale_y: 0,
        end_scale_y: 1000,
        swing_time: SWORD_ANIMATION_TIME,
        start_rotation: HALF_SWING_ROTATION,
        end_rotation: (-HALF_SWING_ROTATION) as i64,
        start_translation_x: (-HALF_SWING_TRANSLATION) as i64,
        end_translation_x: HALF_SWING_TRANSLATION,
        translation_y: SWORD_PIVOT_Y,
        send_swing_complete_event: last,
        swing_end_delay: (SWORD_ANIMATION_END_DELAY - delay) as u64,
        put_away_time: SWORD_PUT_AWAY_TIME,
        send_attack_done_event: last,
    }
}

fn make_swing_params(delay: u64, last: bool) -> (p: SwordAnimationParams)
    requires
        delay <= SWORD_ANIMATION_END_DELAY,
    ensures
        p == swing_params(delay, last),
{
    SwordAnimationParams {
        start_delay: delay,
        start_scale_y: 0,
        end_scale_y: 1000,
        swing_time: SWORD_ANIMATION_TIME,
        start_rotation: HALF_SWING_ROTATION,
        end_rotation: -HALF_SWING_ROTATION,
        start_translation_x: -HALF_SWING_TRANSLATION,
        end_translation_x: HALF_SWING_TRANSLATION,
        translation_y: SWORD_PIVOT_Y,
        send_swing_complete_event: last,
        swing_end_delay: SWORD_ANIMATION_END_DELAY - delay,
        put_away_time: SWORD_PUT_AWAY_TIME,
        send_attack_done_event: last,
    }
}

/// The swings of the sword and of its ten trailing shadows, each with its
/// opacity in percent: the sword itself starts at once and is opaque; the
/// shadows follow every 5 ms, each fainter by 5 percent, and the last one
/// signals the end of the swing and of the attack.
pub fn build_sword_swing_params() -> (r: Vec<(SwordAnimationParams, u64)>)
    ensures
        r@.len() == 11,
        r@[0] == (swing_params(1, false), 100u64),
        forall|k: int| 1 <= k <= 10 ==> #[trigger] r@[k] == (swing_params((k * 5_000_000) as u64, k == 10), (55 - 5 * k) as u64),
{
    let mut r: Vec<(SwordAnimationParams, u64)> = Vec::new();
    r.push((make_swing_params(1, false), 100));
    let mut k: u64 = 1;
    while k <= 10
        invariant
            1 <= k <= 11,
            r@.len() == k,
            r@[0] == (swing_params(1, false), 100u64),
            forall|j: int| 1 <= j < k ==> #[trigger] r@[j] == (swing_params((j * 5_000_000) as u64, j == 10), (55 - 5 * j) as u64),
        decreases 11 - k,
    {
        r.push((make_swing_params(k * 5_000_000, k == 10), 55 - 5 * k));
        k += 1;
    }
    r
}

} // verus!
