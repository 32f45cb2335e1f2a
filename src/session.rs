use vstd::prelude::*;
use rand::rngs::StdRng;
use crate::combat::{EntitiesToDespawn, SlowMoTimer, Sword, HIT_SLOW_MO_TIME};
use crate::health::{Health, STARTING_HEALTH};
use crate::level::{Level, LevelUp, STARTING_XP_THRESHOLD};
use crate::loadout::{AttackCooldown, EnemySpeedMultiplier, SecondaryAction, SecondaryActionType};
use crate::perk::{PerkType, NUM_PERK_CHOICES, is_eligible, eligible_perks_spec};
use crate::spawn::{
    Position, SpawnAreas, SpawnIntervalChangeTimer, SpawnTimer, SpawnWeights, SpawnWeightsChangeTimer,
    build_spawn_areas, build_starting_spawn_interval_change_timer, build_starting_spawn_timer,
    build_starting_spawn_weights, build_starting_spawn_weights_change_timer, HALF_PLAY_AREA,
};
use crate::timer::{Timer, TimerMode};

verus! {

/// The zoom that the game starts with, in thousandths.
pub const STARTING_ZOOM_LEVEL: u64 = 330;

/// The zoom never exceeds this, in thousandths.
pub const MAX_ZOOM_LEVEL: u64 = 1000;

/// Half the player's size, in thousandths of a unit.
pub const HALF_PLAYER_SIZE: i64 = 2_500;

/// The force with which the player moves, in whole units.
pub const PLAYER_MOVE_FORCE: i64 = 100_000;

/// Tween completion tags.
pub const SWORD_SWING_COMPLETE_EVENT_ID: u64 = 1;
pub const ATTACK_DONE_EVENT_ID: u64 = 2;
pub const EXPLOSION_COMPLETE_EVENT_ID: u64 = 3;

/// The camera's zoom, in thousandths.
#[derive(Clone, Copy, Debug, PartialEq, Eq, Structural)]
pub struct ZoomLevel(pub u64);

/// The game clock: paused, or running at a speed in percent.
#[derive(Clone, Copy, Debug, PartialEq, Eq, Structural)]
pub struct GameClock {
    pub paused: bool,
    pub relative_speed: u64,
}

/// The perks offered at the last level-up.
#[derive(Clone, Debug)]
pub struct AvailablePerks(pub Vec<PerkType>);

/// Delays before the perk chooser and then each of its buttons appear.
#[derive(Clone, Debug)]
pub struct PerkChooserDelayTimers {
    pub initial_delay: Timer,
    pub button_delays: Vec<Timer>,
}

impl PerkChooserDelayTimers {
    pub open spec fn wf(self) -> bool {
        &&& self.initial_delay.wf()
        &&& forall|i: int| 0 <= i < self.button_delays@.len() ==> (#[trigger] self.button_delays@[i]).wf()
    }
}

/// The session's state outside the player and the entities.
pub struct GameResources {
    pub zoom: ZoomLevel,
    pub spawn_timer: SpawnTimer,
    pub spawn_interval_change_timer: SpawnIntervalChangeTimer,
    pub spawn_weights_change_timer: SpawnWeightsChangeTimer,
    pub spawn_areas: SpawnAreas,
    pub spawn_weights: SpawnWeights,
    pub entities_to_despawn: EntitiesToDespawn,
    pub level: Level,
    pub health: Health,
    pub available_perks: AvailablePerks,
    pub enemy_speed_multiplier: EnemySpeedMultiplier,
    pub perk_chooser_delay_timers: PerkChooserDelayTimers,
    pub slow_mo_timer: SlowMoTimer,
}

pub open spec fn ms(n: u64) -> u64 {
    (n * 1_000_000) as u64
}

/// Builds the resources that a game starts with: nothing carries over from
/// an earlier life.
pub fn insert_starting_resources() -> (r: GameResources)
    ensures
        r.zoom.0 == STARTING_ZOOM_LEVEL,
        r.spawn_timer == build_starting_spawn_timer_spec(),
        r.spawn_interval_change_timer.0 == Timer::fresh(crate::spawn::SPAWN_INTERVAL_CHANGE_INTERVAL, TimerMode::Repeating),
        r.spawn_weights_change_timer.0 == Timer::fresh(crate::spawn::SPAWN_WEIGHTS_CHANGE_INTERVAL, TimerMode::Repeating),
        r.spawn_areas.0@ == crate::spawn::spawn_areas_spec(),
        r.spawn_weights.wf(),
        r.spawn_weights.types@ == crate::enemy::all_enemy_types_spec(),
        r.spawn_weights.weights@ == seq![50u32, 10, 10, 0, 0, 0],
        r.spawn_weights.next_weight_to_increase == 0,
        r.entities_to_despawn.0@.len() == 0,
        r.level == (Level { current_level: 1, current_xp: 0, previous_xp_needed: 0, xp_needed: STARTING_XP_THRESHOLD }),
        r.health == (Health { current_health: STARTING_HEALTH, max_health: STARTING_HEALTH }),
        r.available_perks.0@.len() == 0,
        r.enemy_speed_multiplier.0 == 1000,
        r.perk_chooser_delay_timers.wf(),
        r.perk_chooser_delay_timers.initial_delay == Timer::fresh(ms(500), TimerMode::Once),
        r.perk_chooser_delay_timers.button_delays@ == seq![
            Timer::fresh(ms(100), TimerMode::Once),
            Timer::fresh(ms(300), TimerMode::Once),
            Timer::fresh(ms(500), TimerMode::Once),
        ],
        r.slow_mo_timer == (SlowMoTimer {
            target_time_scale: 100,
            timer: Timer { paused: true, ..Timer::fresh(HIT_SLOW_MO_TIME, TimerMode::Once) },
        }),
{
    let mut slow_mo_timer = Timer::new(HIT_SLOW_MO_TIME, TimerMode::Once);
    slow_mo_timer.pause();
    GameResources {
        zoom: ZoomLevel(STARTING_ZOOM_LEVEL),
        spawn_timer: build_starting_spawn_timer(),
        spawn_interval_change_timer: build_starting_spawn_interval_change_timer(),
        spawn_weights_change_timer: build_starting_spawn_weights_change_timer(),
        spawn_areas: build_spawn_areas(),
        spawn_weights: build_starting_spawn_weights(),
        entities_to_despawn: EntitiesToDespawn(Vec::new()),
        level: Level::new(),
        health: Health::new(STARTING_HEALTH),
        available_perks: AvailablePerks(Vec::new()),
        enemy_speed_multiplier: EnemySpeedMultiplier(1000),
        perk_chooser_delay_timers: PerkChooserDelayTimers {
            initial_delay: Timer::new(500_000_000, TimerMode::Once),
            button_delays: vec![
                Timer::new(100_000_000, TimerMode::Once),
                Timer::new(300_000_000, TimerMode::Once),
                Timer::new(500_000_000, TimerMode::Once),
            ],
        },
        slow_mo_timer: SlowMoTimer { target_time_scale: 100, timer: slow_mo_timer },
    }
}

pub open spec fn build_starting_spawn_timer_spec() -> SpawnTimer {
    SpawnTimer(Timer::fresh(crate::spawn::START_SPAWN_INTERVAL, TimerMode::Repeating))
}

/// Pauses a running game, or resumes a paused one.
pub fn toggle_pause(clock: &mut GameClock)
    ensures
        *final(clock) == (GameClock { paused: !old(clock).paused, ..*old(clock) }),
{
    clock.paused = !clock.paused;
}

/// Advances slow motion: while its timer runs, the clock goes at the slow
/// motion speed; once it is paused or done, at full speed.
pub fn slow_mo(timer: &mut SlowMoTimer, clock: &mut GameClock, delta: u64)
    requires
        old(timer).timer.wf(),
    ensures
        final(timer).timer == old(timer).timer.ticked(delta),
        final(timer).target_time_scale == old(timer).target_time_scale,
        *final(clock) == (GameClock {
            relative_speed: if final(timer).timer.paused || final(timer).timer.finished {
                100
            } else {
                old(timer).target_time_scale
            },
            ..*old(clock)
        }),
{
    timer.timer.tick(delta);
    if timer.timer.paused || timer.timer.finished() {
        clock.relative_speed = 100;
    } else {
        clock.relative_speed = timer.target_time_scale;
    }
}

/// The zoom after one level-up: five percent more (rounded down), at most
/// the maximum.
pub open spec fn zoomed_out(z: u64) -> u64 {
    let w = z + z / 20;
    if w > MAX_ZOOM_LEVEL { MAX_ZOOM_LEVEL } else { w as u64 }
}

/// The zoom after `n` level-ups.
pub open spec fn zoomed_out_n(z: u64, n: nat) -> u64
    decreases n,
{
    if n == 0 { z } else { zoomed_out(zoomed_out_n(z, (n - 1) as nat)) }
}

fn reset_all(timers: &mut Vec<Timer>)
    requires
        forall|i: int| 0 <= i < old(timers)@.len() ==> (#[trigger] old(timers)@[i]).wf(),
    ensures
        final(timers)@.len() == old(timers)@.len(),
        forall|i: int| 0 <= i < old(timers)@.len() ==> #[trigger] final(timers)@[i] == old(timers)@[i].restarted(),
        forall|i: int| 0 <= i < final(timers)@.len() ==> (#[trigger] final(timers)@[i]).wf(),
{
    let mut i: usize = 0;
    while i < timers.len()
        invariant
            i <= timers@.len(),
            timers@.len() == old(timers)@.len(),
            forall|j: int| 0 <= j < i ==> #[trigger] timers@[j] == old(timers)@[j].restarted(),
            forall|j: int| i <= j < timers@.len() ==> #[trigger] timers@[j] == old(timers)@[j],
            forall|j: int| 0 <= j < old(timers)@.len() ==> (#[trigger] old(timers)@[j]).wf(),
        decreases timers@.len() - i,
    {
        let mut t = timers[i];
        t.reset();
        timers.set(i, t);
        i += 1;
    }
}

/// Handles the level-ups of one tick: for each, the camera zooms out a
/// little, the game pauses, a fresh set of perks is offered and the perk
/// chooser's delays start over. Returns how many level-up cues to play.
pub fn level_up(
    rng: &mut StdRng,
    level_up_events: &Vec<LevelUp>,
    zoom: &mut ZoomLevel,
    clock: &mut GameClock,
    owned_perks: &Vec<PerkType>,
    available_perks: &mut AvailablePerks,
    perk_chooser_timers: &mut PerkChooserDelayTimers,
) -> (cues: usize)
    requires
        old(perk_chooser_timers).wf(),
    ensures
        cues == level_up_events@.len(),
        final(perk_chooser_timers).wf(),
        final(zoom).0 == zoomed_out_n(old(zoom).0, level_up_events@.len()),
        level_up_events@.len() == 0 ==> {
            &&& *final(zoom) == *old(zoom)
            &&& *final(clock) == *old(clock)
            &&& final(available_perks).0@ == old(available_perks).0@
            &&& final(perk_chooser_timers).initial_delay == old(perk_chooser_timers).initial_delay
            &&& final(perk_chooser_timers).button_delays@ == old(perk_chooser_timers).button_delays@
        },
        level_up_events@.len() > 0 ==> {
            &&& *final(clock) == (GameClock { paused: true, ..*old(clock) })
            &&& final(perk_chooser_timers).initial_delay == old(perk_chooser_timers).initial_delay.restarted()
            &&& final(perk_chooser_timers).button_delays@.len() == old(perk_chooser_timers).button_delays@.len()
            &&& forall|k: int| 0 <= k < old(perk_chooser_timers).button_delays@.len() ==>
                #[trigger] final(perk_chooser_timers).button_delays@[k] == old(perk_chooser_timers).button_delays@[k].restarted()
            &&& final(available_perks).0@.len() == if NUM_PERK_CHOICES <= eligible_perks_spec(owned_perks@.to_set()).len() {
                NUM_PERK_CHOICES as int
            } else {
                eligible_perks_spec(owned_perks@.to_set()).len() as int
            }
            &&& final(available_perks).0@.no_duplicates()
            &&& forall|i: int| 0 <= i < final(available_perks).0@.len() ==>
                is_eligible(#[trigger] final(available_perks).0@[i], owned_perks@.to_set())
        },
{
    let mut i: usize = 0;
    while i < level_up_events.len()
        invariant
            i <= level_up_events@.len(),
            perk_chooser_timers.wf(),
            zoom.0 == zoomed_out_n(old(zoom).0, i as nat),
            i == 0 ==> *zoom == *old(zoom) && *clock == *old(clock) && available_perks.0@ == old(available_perks).0@
                && perk_chooser_timers.initial_delay == old(perk_chooser_timers).initial_delay
                && perk_chooser_timers.button_delays@ == old(perk_chooser_timers).button_delays@,
            i > 0 ==> {
                &&& *clock == (GameClock { paused: true, ..*old(clock) })
                &&& perk_chooser_timers.initial_delay == old(perk_chooser_timers).initial_delay.restarted()
                &&& perk_chooser_timers.button_delays@.len() == old(perk_chooser_timers).button_delays@.len()
                &&& forall|k: int| 0 <= k < old(perk_chooser_timers).button_delays@.len() ==>
                    #[trigger] perk_chooser_timers.button_delays@[k] == old(perk_chooser_timers).button_delays@[k].restarted()
                &&& available_perks.0@.len() == if NUM_PERK_CHOICES <= eligible_perks_spec(owned_perks@.to_set()).len() {
                    NUM_PERK_CHOICES as int
                } else {
                    eligible_perks_spec(owned_perks@.to_set()).len() as int
                }
                &&& available_perks.0@.no_duplicates()
                &&& forall|k: int| 0 <= k < available_perks.0@.len() ==>
                    is_eligible(#[trigger] available_perks.0@[k], owned_perks@.to_set())
            },
        decreases level_up_events@.len() - i,
    {
        let w = zoom.0 / 20;
        let grown = zoom.0.saturating_add(w);
        zoom.0 = if grown > MAX_ZOOM_LEVEL { MAX_ZOOM_LEVEL } else { grown };
        clock.paused = true;
        available_perks.0 = PerkType::choose_random_perk_types(rng, NUM_PERK_CHOICES, owned_perks);
        perk_chooser_timers.initial_delay.reset();
        reset_all(&mut perk_chooser_timers.button_delays);
        i += 1;
    }
    level_up_events.len()
}

/// Advances the perk chooser's delays on real (unscaled) time. Once the
/// initial delay is over, each button's delay advances; returns the indices
/// of the buttons whose delay ended during this tick.
pub fn show_perk_chooser_buttons(perk_chooser_timers: &mut PerkChooserDelayTimers, real_delta: u64) -> (to_become_visible: Vec<usize>)
    requires
        old(perk_chooser_timers).wf(),
    ensures
        final(perk_chooser_timers).wf(),
        final(perk_chooser_timers).initial_delay == old(perk_chooser_timers).initial_delay.ticked(real_delta),
        final(perk_chooser_timers).button_delays@.len() == old(perk_chooser_timers).button_delays@.len(),
        !final(perk_chooser_timers).initial_delay.finished ==> {
            &&& final(perk_chooser_timers).button_delays@ == old(perk_chooser_timers).button_delays@
            &&& to_become_visible@.len() == 0
        },
        final(perk_chooser_timers).initial_delay.finished ==> {
            &&& forall|i: int| 0 <= i < old(perk_chooser_timers).button_delays@.len() ==>
                #[trigger] final(perk_chooser_timers).button_delays@[i] == old(perk_chooser_timers).button_delays@[i].ticked(real_delta)
            &&& forall|i: usize| #[trigger] to_become_visible@.contains(i) <==>
                (i < final(perk_chooser_timers).button_delays@.len()
                    && final(perk_chooser_timers).button_delays@[i as int].times_finished_this_tick > 0)
        },
{
    perk_chooser_timers.initial_delay.tick(real_delta);
    let mut to_become_visible: Vec<usize> = Vec::new();
    if perk_chooser_timers.initial_delay.finished() {
        let ghost before = perk_chooser_timers.button_delays@;
        let mut i: usize = 0;
        while i < perk_chooser_timers.button_delays.len()
            invariant
                i <= perk_chooser_timers.button_delays@.len(),
                perk_chooser_timers.button_delays@.len() == before.len(),
                perk_chooser_timers.initial_delay.wf(),
                perk_chooser_timers.initial_delay.finished,
                perk_chooser_timers.initial_delay == old(perk_chooser_timers).initial_delay.ticked(real_delta),
                before == old(perk_chooser_timers).button_delays@,
                forall|j: int| 0 <= j < before.len() ==> (#[trigger] before[j]).wf(),
                forall|j: int| 0 <= j < i ==> #[trigger] perk_chooser_timers.button_delays@[j] == before[j].ticked(real_delta),
                forall|j: int| i <= j < before.len() ==> #[trigger] perk_chooser_timers.button_delays@[j] == before[j],
                forall|j: usize| #[trigger] to_become_visible@.contains(j) <==>
                    (j < i && perk_chooser_timers.button_delays@[j as int].times_finished_this_tick > 0),
            decreases before.len() - i,
        {
            let mut t = perk_chooser_timers.button_delays[i];
            t.tick(real_delta);
            perk_chooser_timers.button_delays.set(i, t);
            let ghost prev = to_become_visible@;
            if t.just_finished() {
                to_become_visible.push(i);
            }
            proof {
                assert forall|j: usize| #[trigger] to_become_visible@.contains(j) <==>
                    (j < i + 1 && perk_chooser_timers.button_delays@[j as int].times_finished_this_tick > 0) by {
                    if to_become_visible@.contains(j) {
                        let k = to_become_visible@.index_of(j);
                        if k < prev.len() {
                            assert(prev[k] == j);
                            assert(prev.contains(j));
                        }
                    }
                    if j < i && perk_chooser_timers.button_delays@[j as int].times_finished_this_tick > 0 {
                        assert(prev.contains(j));
                        let k = prev.index_of(j);
                        assert(to_become_visible@[k] == j);
                    }
                    if j == i && t.times_finished_this_tick > 0 {
                        assert(to_become_visible@[prev.len() as int] == i);
                    }
                }
            }
            i += 1;
        }
    }
    to_become_visible
}

/// A tween reached a tagged point.
#[derive(Clone, Copy, Debug, PartialEq, Eq, Structural)]
pub struct TweenCompleted {
    pub entity: u64,
    pub user_data: u64,
}

/// Handles finished animations: the end of a swing makes every sword
/// harmless, the end of an attack lets the player turn again, and a finished
/// explosion is queued for removal.
pub fn tween_completed(
    events: &Vec<TweenCompleted>,
    swords: &mut Vec<Sword>,
    attacking: &mut bool,
    explosions: &Vec<u64>,
    entities_to_despawn: &mut EntitiesToDespawn,
)
    ensures
        final(swords)@.len() == old(swords)@.len(),
        forall|i: int| 0 <= i < old(swords)@.len() ==> (#[trigger] final(swords)@[i]).entity == old(swords)@[i].entity,
        forall|i: int| 0 <= i < old(swords)@.len() ==> (#[trigger] final(swords)@[i]).active ==
            (old(swords)@[i].active && !exists|k: int| 0 <= k < events@.len() && (#[trigger] events@[k]).user_data == SWORD_SWING_COMPLETE_EVENT_ID),
        *final(attacking) == (*old(attacking) && !exists|k: int| 0 <= k < events@.len() && (#[trigger] events@[k]).user_data == ATTACK_DONE_EVENT_ID),
        final(entities_to_despawn).0@ == old(entities_to_despawn).0@ + events@.filter(
            |ev: TweenCompleted| ev.user_data == EXPLOSION_COMPLETE_EVENT_ID && explosions@.contains(ev.entity)
        ).map_values(|ev: TweenCompleted| ev.entity),
{
    let ghost f = |ev: TweenCompleted| ev.user_data == EXPLOSION_COMPLETE_EVENT_ID && explosions@.contains(ev.entity);
    let ghost g = |ev: TweenCompleted| ev.entity;
    let mut i: usize = 0;
    while i < events.len()
        invariant
            i <= events@.len(),
            swords@.len() == old(swords)@.len(),
            forall|j: int| 0 <= j < old(swords)@.len() ==> (#[trigger] swords@[j]).entity == old(swords)@[j].entity,
            forall|j: int| 0 <= j < old(swords)@.len() ==> (#[trigger] swords@[j]).active ==
                (old(swords)@[j].active && !exists|k: int| 0 <= k < i && (#[trigger] events@[k]).user_data == SWORD_SWING_COMPLETE_EVENT_ID),
            *attacking == (*old(attacking) && !exists|k: int| 0 <= k < i && (#[trigger] events@[k]).user_data == ATTACK_DONE_EVENT_ID),
            entities_to_despawn.0@ == old(entities_to_despawn).0@ + events@.subrange(0, i as int).filter(f).map_values(g),
            f == (|ev: TweenCompleted| ev.user_data == EXPLOSION_COMPLETE_EVENT_ID && explosions@.contains(ev.entity)),
            g == (|ev: TweenCompleted| ev.entity),
        decreases events@.len() - i,
    {
        let ev = events[i];
        if ev.user_data == SWORD_SWING_COMPLETE_EVENT_ID {
            let mut j: usize = 0;
            while j < swords.len()
                invariant
                    j <= swords@.len(),
                    swords@.len() == old(swords)@.len(),
                    forall|m: int| 0 <= m < old(swords)@.len() ==> (#[trigger] swords@[m]).entity == old(swords)@[m].entity,
                    forall|m: int| 0 <= m < j ==> !(#[trigger] swords@[m]).active,
                    forall|m: int| j <= m < old(swords)@.len() ==> (#[trigger] swords@[m]).active ==
                        (old(swords)@[m].active && !exists|k: int| 0 <= k < i && (#[trigger] events@[k]).user_data == SWORD_SWING_COMPLETE_EVENT_ID),
                decreases swords@.len() - j,
            {
                let s = Sword { entity: swords[j].entity, active: false };
                swords.set(j, s);
                j += 1;
            }
        }
        if ev.user_data == ATTACK_DONE_EVENT_ID {
            *attacking = false;
        }
        let ghost prev = entities_to_despawn.0@;
        let finished_explosion = ev.user_data == EXPLOSION_COMPLETE_EVENT_ID
            && crate::combat::contains_entity(explosions, ev.entity);
        assert(finished_explosion == f(ev));
        if finished_explosion {
            entities_to_despawn.0.push(ev.entity);
        }
        proof {
            assert(events@.subrange(0, i as int + 1) =~= events@.subrange(0, i as int).push(ev));
            lemma_filter_map_step(events@.subrange(0, i as int), ev, f, g);
            if f(ev) {
                assert(entities_to_despawn.0@ == prev.push(ev.entity));
            }
        }
        proof {
            assert forall|j: int| 0 <= j < old(swords)@.len() implies (#[trigger] swords@[j]).active ==
                (old(swords)@[j].active && !exists|k: int| 0 <= k < i + 1 && (#[trigger] events@[k]).user_data == SWORD_SWING_COMPLETE_EVENT_ID) by {
                if exists|k: int| 0 <= k < i + 1 && (#[trigger] events@[k]).user_data == SWORD_SWING_COMPLETE_EVENT_ID {
                    if ev.user_data != SWORD_SWING_COMPLETE_EVENT_ID {
                        let k = choose|k: int| 0 <= k < i + 1 && (#[trigger] events@[k]).user_data == SWORD_SWING_COMPLETE_EVENT_ID;
                        assert(k < i);
                    }
                }
            }
            if *attacking {
                assert forall|k: int| 0 <= k < i + 1 implies (#[trigger] events@[k]).user_data != ATTACK_DONE_EVENT_ID by {
                    if k < i {
                    }
                }
            }
        }
        i += 1;
    }
    assert(events@.subrange(0, events@.len() as int) =~= events@);
}

/// Tries to attack: only once the cooldown is over and while the cursor is
/// known. An attack marks the player as attacking, makes every sword
/// harmful and starts the cooldown over. Returns whether an attack started.
pub fn player_attack(
    cooldown: &mut AttackCooldown,
    attacking: &mut bool,
    swords: &mut Vec<Sword>,
    cursor_known: bool,
) -> (attacked: bool)
    ensures
        attacked == (cursor_known && old(cooldown).0.finished),
        !attacked ==> *final(cooldown) == *old(cooldown) && *final(attacking) == *old(attacking) && final(swords)@ == old(swords)@,
        attacked ==> {
            &&& final(cooldown).0 == (Timer { elapsed: 0, finished: false, times_finished_this_tick: 0, ..old(cooldown).0 })
            &&& *final(attacking)
            &&& final(swords)@.len() == old(swords)@.len()
            &&& forall|i: int| 0 <= i < old(swords)@.len() ==> #[trigger] final(swords)@[i] == (Sword { active: true, ..old(swords)@[i] })
        },
{
    if !cursor_known || !cooldown.0.finished() {
        return false;
    }
    *attacking = true;
    let mut j: usize = 0;
    while j < swords.len()
        invariant
            j <= swords@.len(),
            swords@.len() == old(swords)@.len(),
            forall|m: int| 0 <= m < j ==> #[trigger] swords@[m] == (Sword { active: true, ..old(swords)@[m] }),
            forall|m: int| j <= m < swords@.len() ==> #[trigger] swords@[m] == old(swords)@[m],
        decreases swords@.len() - j,
    {
        let s = Sword { entity: swords[j].entity, active: true };
        swords.set(j, s);
        j += 1;
    }
    cooldown.0.reset();
    true
}

/// What a secondary action did.
#[derive(Clone, Copy, Debug, PartialEq, Eq, Structural)]
pub enum SecondaryOutcome {
    Nothing,
    GrenadeThrown { target: Position },
    /// The player moves to `target`; an explosion of the given radius goes
    /// off there if teleports explode.
    Teleported { target: Position, explosion_radius: Option<u64> },
}

/// Tries the secondary action toward the cursor: only once its cooldown is
/// over and while the cursor is known; the cooldown then starts over.
pub fn player_secondary_action(secondary_action: &mut SecondaryAction, cursor: Option<Position>) -> (r: SecondaryOutcome)
    ensures
        match old(secondary_action).0 {
            SecondaryActionType::NoAction => r == SecondaryOutcome::Nothing && *final(secondary_action) == *old(secondary_action),
            SecondaryActionType::Grenade { cooldown_timer, explosion_radius } =>
                if cooldown_timer.finished && cursor is Some {
                    &&& r == (SecondaryOutcome::GrenadeThrown { target: cursor->0 })
                    &&& final(secondary_action).0 == (SecondaryActionType::Grenade {
                        cooldown_timer: Timer { elapsed: 0, finished: false, times_finished_this_tick: 0, ..cooldown_timer },
                        explosion_radius,
                    })
                } else {
                    r == SecondaryOutcome::Nothing && *final(secondary_action) == *old(secondary_action)
                },
            SecondaryActionType::Teleport { cooldown_timer, explodes, explosion_radius } =>
                if cooldown_timer.finished && cursor is Some {
                    &&& r == (SecondaryOutcome::Teleported {
                        target: cursor->0,
                        explosion_radius: if explodes { Some(explosion_radius) } else { None },
                    })
                    &&& final(secondary_action).0 == (SecondaryActionType::Teleport {
                        cooldown_timer: Timer { elapsed: 0, finished: false, times_finished_this_tick: 0, ..cooldown_timer },
                        explodes,
                        explosion_radius,
                    })
                } else {
                    r == SecondaryOutcome::Nothing && *final(secondary_action) == *old(secondary_action)
                },
        },
{
    match &mut secondary_action.0 {
        SecondaryActionType::NoAction => SecondaryOutcome::Nothing,
        SecondaryActionType::Grenade { cooldown_timer, .. } => {
            if !cooldown_timer.finished() {
                return SecondaryOutcome::Nothing;
            }
            match cursor {
                None => SecondaryOutcome::Nothing,
                Some(target) => {
                    cooldown_timer.reset();
                    SecondaryOutcome::GrenadeThrown { target }
                },
            }
        },
        SecondaryActionType::Teleport { cooldown_timer, explodes, explosion_radius } => {
            if !cooldown_timer.finished() {
                return SecondaryOutcome::Nothing;
            }
            match cursor {
                None => SecondaryOutcome::Nothing,
                Some(target) => {
                    cooldown_timer.reset();
                    SecondaryOutcome::Teleported {
                        target,
                        explosion_radius: if *explodes { Some(*explosion_radius) } else { None },
                    }
                },
            }
        },
    }
}

pub open spec fn clamp(v: int, lo: int, hi: int) -> int {
    if v < lo { lo } else if v > hi { hi } else { v }
}

/// Keeps the player inside the play area.
pub fn keep_player_in_bounds(p: Position) -> (r: Position)
    ensures
        r.x == clamp(p.x as int, -(HALF_PLAY_AREA - HALF_PLAYER_SIZE), HALF_PLAY_AREA - HALF_PLAYER_SIZE),
        r.y == clamp(p.y as int, -(HALF_PLAY_AREA - HALF_PLAYER_SIZE), HALF_PLAY_AREA - HALF_PLAYER_SIZE),
{
    let max = HALF_PLAY_AREA - HALF_PLAYER_SIZE;
    let min = -max;
    let x = if p.x < min { min } else if p.x > max { max } else { p.x };
    let y = if p.y < min { min } else if p.y > max { max } else { p.y };
    Position { x, y }
}

/// Where the camera looks: at the player, held back so that the view stays
/// inside the play area; centered on an axis where the view is wider than
/// the play area.
pub fn move_camera(player: Position, view_width: i64, view_height: i64) -> (r: Position)
    requires
        0 <= view_width,
        0 <= view_height,
    ensures
        r.x == if view_width <= 2 * HALF_PLAY_AREA {
            clamp(player.x as int, -HALF_PLAY_AREA + view_width / 2, HALF_PLAY_AREA - view_width / 2)
        } else {
            0
        },
        r.y == if view_height <= 2 * HALF_PLAY_AREA {
            clamp(player.y as int, -HALF_PLAY_AREA + view_height / 2, HALF_PLAY_AREA - view_height / 2)
        } else {
            0
        },
{
    let x = if view_width <= 2 * HALF_PLAY_AREA {
        let max = HALF_PLAY_AREA - view_width / 2;
        let min = -HALF_PLAY_AREA + view_width / 2;
        if player.x < min { min } else if player.x > max { max } else { player.x }
    } else {
        0
    };
    let y = if view_height <= 2 * HALF_PLAY_AREA {
        let max = HALF_PLAY_AREA - view_height / 2;
        let min = -HALF_PLAY_AREA + view_height / 2;
        if player.y < min { min } else if player.y > max { max } else { player.y }
    } else {
        0
    };
    Position { x, y }
}

/// The movement keys held down.
#[derive(Clone, Copy, Debug, PartialEq, Eq, Structural)]
pub struct MovementKeys {
    pub left: bool,
    pub right: bool,
    pub up: bool,
    pub down: bool,
}

/// What the player's body should do this tick.
#[derive(Clone, Copy, Debug, PartialEq, Eq, Structural)]
pub struct MovementCommand {
    pub force_x: i64,
    pub force_y: i64,
    /// Whether to turn toward the cursor; never mid-attack.
    pub face_cursor: bool,
}

/// Turns held keys into a force (left wins over right, up over down) and
/// lets the player turn toward the cursor unless attacking.
pub fn player_movement(keys: MovementKeys, attacking: bool) -> (c: MovementCommand)
    ensures
        c.force_x == if keys.left { -PLAYER_MOVE_FORCE } else if keys.right { PLAYER_MOVE_FORCE as int } else { 0 },
        c.force_y == if keys.up { PLAYER_MOVE_FORCE as int } else if keys.down { -PLAYER_MOVE_FORCE } else { 0 },
        c.face_cursor == !attacking,
{
    let force_x = if keys.left { -PLAYER_MOVE_FORCE } else if keys.right { PLAYER_MOVE_FORCE } else { 0 };
    let force_y = if keys.up { PLAYER_MOVE_FORCE } else if keys.down { -PLAYER_MOVE_FORCE } else { 0 };
    MovementCommand { force_x, force_y, face_cursor: !attacking }
}

proof fn lemma_filter_map_step<A, B>(s: Seq<A>, x: A, f: spec_fn(A) -> bool, g: spec_fn(A) -> B)
    ensures
        s.push(x).filter(f).map_values(g) == if f(x) {
            s.filter(f).map_values(g).push(g(x))
        } else {
            s.filter(f).map_values(g)
        },
{
    reveal(Seq::filter);
    assert(s.push(x).drop_last() =~= s);
    if f(x) {
        assert(s.push(x).filter(f) == s.filter(f).push(x));
        assert(s.push(x).filter(f).map_values(g) =~= s.filter(f).map_values(g).push(g(x)));
    } else {
        assert(s.push(x).filter(f) == s.filter(f));
    }
}

} // verus!
