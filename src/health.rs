use vstd::prelude::*;
use crate::timer::{Timer, TimerMode};

verus! {

/// The health that a fresh game starts with.
pub const STARTING_HEALTH: u64 = 100;

/// Health regeneration interval once unlocked (2 s).
pub const HEALTH_REGEN_INTERVAL: u64 = 2_000_000_000;

/// The player's health.
#[derive(Clone, Copy, Debug, PartialEq, Eq, Structural)]
pub struct Health {
    pub current_health: u64,
    pub max_health: u64,
}

/// Periodic healing: `amount` each time the timer fires.
#[derive(Clone, Copy, Debug, PartialEq, Eq, Structural)]
pub struct HealthRegen {
    pub timer: Timer,
    pub amount: u64,
}

/// `current + amount`, capped at `max`.
pub open spec fn healed_by(current: u64, max: u64, amount: u64) -> u64 {
    if current + amount >= max { max } else { (current + amount) as u64 }
}

/// A tenth more, rounded half up.
pub open spec fn raised_by_tenth(x: u64) -> int {
    x + (x + 5) / 10
}

impl Health {
    pub open spec fn wf(self) -> bool {
        self.current_health <= self.max_health
    }

    /// Full health at `max`.
    pub fn new(max: u64) -> (h: Health)
        ensures
            h.wf(),
            h == (Health { current_health: max, max_health: max }),
    {
        Health { current_health: max, max_health: max }
    }

    /// Takes damage; health stops at zero.
    pub fn take_damage(&mut self, damage: u64)
        ensures
            *final(self) == (Health {
                current_health: if old(self).current_health >= damage { (old(self).current_health - damage) as u64 } else { 0 },
                ..*old(self)
            }),
            old(self).wf() ==> final(self).wf(),
    {
        self.current_health = self.current_health.saturating_sub(damage);
    }

    /// Heals by `amount`, never above the maximum.
    pub fn heal(&mut self, amount: u64)
        requires
            old(self).wf(),
        ensures
            *final(self) == (Health {
                current_health: healed_by(old(self).current_health, old(self).max_health, amount),
                ..*old(self)
            }),
            final(self).wf(),
    {
        if amount >= self.max_health - self.current_health {
            self.current_health = self.max_health;
        } else {
            self.current_health = self.current_health + amount;
        }
    }

    /// Whether the player is dead.
    pub fn check_for_death(&self) -> (dead: bool)
        ensures
            dead == (self.current_health == 0),
    {
        self.current_health == 0
    }
}

/// Sets health to full.
pub fn activate_heal(health: &mut Health)
    ensures
        *final(health) == (Health { current_health: old(health).max_health, ..*old(health) }),
        final(health).wf(),
{
    health.current_health = health.max_health;
}

/// The maximum after a ten percent raise: rounded half up, saturating at
/// `u64::MAX`.
pub open spec fn raised_max(max: u64) -> u64 {
    if raised_by_tenth(max) > u64::MAX { u64::MAX } else { raised_by_tenth(max) as u64 }
}

/// The current health rescaled to a new maximum so that the same fraction
/// is left: `new_max * current / max`, rounded half up.
pub open spec fn rescaled(current: u64, max: u64, new_max: u64) -> int {
    if max == 0 { 0 } else { (2 * new_max * current + max) / (2 * max) }
}

/// The health after the maximum is raised by ten percent.
pub open spec fn raised_health(h: Health) -> Health {
    Health {
        current_health: rescaled(h.current_health, h.max_health, raised_max(h.max_health)) as u64,
        max_health: raised_max(h.max_health),
    }
}

proof fn lemma_rescaled(c: int, m: int, t: int)
    requires
        0 <= c <= m,
        0 < m,
        0 <= t,
    ensures
        (2 * (m + t) * c + m) / (2 * m) == c + (2 * t * c + m) / (2 * m),
        (2 * (m + t) * c + m) / (2 * m) <= m + t,
{
    let d = 2 * m;
    let x = 2 * t * c + m;
    let q = x / d;
    let r = x % d;
    vstd::arithmetic::div_mod::lemma_fundamental_div_mod(x, d);
    assert(0 <= r < d) by {
        vstd::arithmetic::div_mod::lemma_mod_bound(x, d);
    }
    assert(2 * (m + t) * c + m == (q + c) * d + r) by (nonlinear_arith)
        requires x == d * q + r, x == 2 * t * c + m, d == 2 * m;
    vstd::arithmetic::div_mod::lemma_fundamental_div_mod_converse(2 * (m + t) * c + m, d, q + c, r);
    let y = (m + t) * d + m;
    assert(2 * (m + t) * c + m <= y) by (nonlinear_arith)
        requires 0 <= c <= m, 0 <= t, 0 < m, y == (m + t) * d + m, d == 2 * m;
    vstd::arithmetic::div_mod::lemma_fundamental_div_mod_converse(y, d, m + t, m);
    vstd::arithmetic::div_mod::lemma_div_is_ordered(2 * (m + t) * c + m, y, d);
}

/// Raising the maximum keeps the current health at or below it and never
/// lowers the maximum.
pub proof fn lemma_raised_health(h: Health)
    requires
        h.wf(),
    ensures
        raised_health(h).wf(),
        raised_health(h).max_health >= h.max_health,
{
    if h.max_health > 0 {
        lemma_rescaled(h.current_health as int, h.max_health as int, raised_max(h.max_health) - h.max_health);
    }
}

/// Raises the maximum by ten percent (rounded half up, saturating at
/// `u64::MAX`) and rescales the current health against the new maximum so
/// that the same fraction of it is left, rounded half up.
pub fn activate_higher_max_health(health: &mut Health)
    requires
        old(health).wf(),
    ensures
        *final(health) == raised_health(*old(health)),
        final(health).wf(),
{
    let m = health.max_health as u128;
    let c = health.current_health as u128;
    let raised = m + (m + 5) / 10;
    let new_max: u128 = if raised > u64::MAX as u128 { u64::MAX as u128 } else { raised };
    let t = new_max - m;
    let new_current: u128 = if m == 0 {
        0
    } else {
        assert(t <= 0x2000_0000_0000_0000);
        assert(2 * t * c + m < 0x8000_0000_0000_0000_0000_0000_0000_0000) by (nonlinear_arith)
            requires t <= 0x2000_0000_0000_0000, c <= m, m < 0x1_0000_0000_0000_0000;
        let x = 2 * t * c + m;
        let q = x / (2 * m);
        assert(q <= x) by {
            vstd::arithmetic::div_mod::lemma_div_is_ordered_by_denominator(x as int, 1, 2 * m as int);
        }
        c + q
    };
    proof {
        if m > 0 {
            lemma_rescaled(c as int, m as int, t as int);
        }
    }
    health.max_health = new_max as u64;
    health.current_health = new_current as u64;
}

/// The regeneration that the player starts with: none.
pub fn starting_health_regen() -> (r: HealthRegen)
    ensures
        r == (HealthRegen { timer: Timer::fresh(1, TimerMode::Once), amount: 0 }),
        r.timer.wf(),
{
    HealthRegen { timer: Timer::new(1, TimerMode::Once), amount: 0 }
}

/// Advances the regeneration timer; each time it fires, heals by the
/// regeneration amount, never above the maximum.
pub fn health_regen(health_regen: &mut HealthRegen, health: &mut Health, delta: u64)
    requires
        old(health_regen).timer.wf(),
        old(health).wf(),
    ensures
        final(health_regen).timer == old(health_regen).timer.ticked(delta),
        final(health_regen).amount == old(health_regen).amount,
        final(health).wf(),
        *final(health) == if final(health_regen).timer.times_finished_this_tick > 0 {
            Health {
                current_health: healed_by(old(health).current_health, old(health).max_health, old(health_regen).amount),
                ..*old(health)
            }
        } else {
            *old(health)
        },
{
    health_regen.timer.tick(delta);
    if health_regen.timer.just_finished() {
        health.heal(health_regen.amount);
    }
}

/// Turns on regeneration: one point every two seconds.
pub fn activate_unlock_health_regen(health_regen: &mut HealthRegen)
    ensures
        *final(health_regen) == (HealthRegen { timer: Timer::fresh(HEALTH_REGEN_INTERVAL, TimerMode::Repeating), amount: 1 }),
        final(health_regen).timer.wf(),
{
    health_regen.timer = Timer::new(HEALTH_REGEN_INTERVAL, TimerMode::Repeating);
    health_regen.amount = 1;
}

/// One change to the player's health.
#[derive(Clone, Copy, Debug, PartialEq, Eq, Structural)]
pub enum HealthOp {
    Damage(u64),
    Heal(u64),
    FullHeal,
}

/// The health after one change.
pub open spec fn apply_health_op(h: Health, op: HealthOp) -> Health {
    match op {
        HealthOp::Damage(d) => Health {
            current_health: if h.current_health >= d { (h.current_health - d) as u64 } else { 0 },
            ..h
        },
        HealthOp::Heal(a) => Health { current_health: healed_by(h.current_health, h.max_health, a), ..h },
        HealthOp::FullHeal => Health { current_health: h.max_health, ..h },
    }
}

/// The health after a sequence of changes, first to last.
pub open spec fn apply_health_ops(h: Health, ops: Seq<HealthOp>) -> Health
    decreases ops.len(),
{
    if ops.len() == 0 {
        h
    } else {
        apply_health_op(apply_health_ops(h, ops.drop_last()), ops.last())
    }
}

/// Applies one change to the health.
pub fn apply_op(health: &mut Health, op: HealthOp)
    requires
        old(health).wf(),
    ensures
        *final(health) == apply_health_op(*old(health), op),
        final(health).wf(),
{
    match op {
        HealthOp::Damage(d) => health.take_damage(d),
        HealthOp::Heal(a) => health.heal(a),
        HealthOp::FullHeal => activate_heal(health),
    }
}

/// Health never leaves the range from zero to the maximum, whatever the
/// sequence of damage and healing, and the maximum stays where it was.
pub proof fn lemma_health_stays_in_range(h: Health, ops: Seq<HealthOp>)
    requires
        h.wf(),
    ensures
        apply_health_ops(h, ops).wf(),
        apply_health_ops(h, ops).max_health == h.max_health,
        0 <= apply_health_ops(h, ops).current_health <= h.max_health,
    decreases ops.len(),
{
    if ops.len() > 0 {
        lemma_health_stays_in_range(h, ops.drop_last());
    }
}

} // verus!
