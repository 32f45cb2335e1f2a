use vstd::prelude::*;
use rand::rngs::StdRng;
use crate::enemy::{EnemyType, EnemyParams, all_enemy_types, all_enemy_types_spec};
use crate::random::{weight_sum, sample_weighted_index, choose_one_of, gen_range_inclusive};
use crate::timer::{Timer, TimerMode};

verus! {

/// The spawn interval that the game starts with (500 ms).
pub const START_SPAWN_INTERVAL: u64 = 500_000_000;

/// How often the spawn interval shrinks (5 s).
pub const SPAWN_INTERVAL_CHANGE_INTERVAL: u64 = 5_000_000_000;

/// The spawn interval never shrinks below this (5 ms).
pub const MIN_SPAWN_INTERVAL: u64 = 5_000_000;

/// How often one archetype's weight is raised (5 s).
pub const SPAWN_WEIGHTS_CHANGE_INTERVAL: u64 = 5_000_000_000;

/// Half the side of the square play area, in thousandths of a unit.
pub const HALF_PLAY_AREA: i64 = 500_000;

/// Depth of each spawn strip, in thousandths of a unit.
pub const SPAWN_AREA_DEPTH: i64 = 25_000;

/// Gap between the play area's edge and each spawn strip.
pub const SPAWN_AREA_BUFFER: i64 = 10_000;

/// Which archetype's weight is raised next, in turn.
pub open spec fn spawn_weight_changes() -> Seq<EnemyType> {
    seq![EnemyType::Assassin, EnemyType::Assassin, EnemyType::UltraBigAndSlow, EnemyType::UltraAssassin]
}

fn spawn_weight_change(i: usize) -> (t: EnemyType)
    requires
        i < 4,
    ensures
        t == spawn_weight_changes()[i as int],
{
    if i == 0 {
        EnemyType::Assassin
    } else if i == 1 {
        EnemyType::Assassin
    } else if i == 2 {
        EnemyType::UltraBigAndSlow
    } else {
        EnemyType::UltraAssassin
    }
}

/// A point in the world, in thousandths of a unit.
#[derive(Clone, Copy, Debug, PartialEq, Eq, Structural)]
pub struct Position {
    pub x: i64,
    pub y: i64,
}

/// An axis-aligned rectangle, in thousandths of a unit.
#[derive(Clone, Copy, Debug, PartialEq, Eq, Structural)]
pub struct Rect {
    pub min_x: i64,
    pub min_y: i64,
    pub max_x: i64,
    pub max_y: i64,
}

impl Rect {
    pub open spec fn wf(self) -> bool {
        self.min_x <= self.max_x && self.min_y <= self.max_y
    }

    pub open spec fn contains(self, p: Position) -> bool {
        self.min_x <= p.x <= self.max_x && self.min_y <= p.y <= self.max_y
    }
}

/// The strips around the play area where enemies appear.
#[derive(Clone, Debug)]
pub struct SpawnAreas(pub Vec<Rect>);

pub open spec fn spawn_areas_spec() -> Seq<Rect> {
    let h = HALF_PLAY_AREA as int;
    let far = h + SPAWN_AREA_DEPTH + SPAWN_AREA_BUFFER;
    let near = h + SPAWN_AREA_BUFFER;
    let (nfar, nnear, nh) = (-far, -near, -h);
    seq![
        Rect { min_x: nfar as i64, min_y: nh as i64, max_x: nnear as i64, max_y: h as i64 },
        Rect { min_x: near as i64, min_y: nh as i64, max_x: far as i64, max_y: h as i64 },
        Rect { min_x: nh as i64, min_y: near as i64, max_x: h as i64, max_y: far as i64 },
        Rect { min_x: nh as i64, min_y: nfar as i64, max_x: h as i64, max_y: nnear as i64 },
    ]
}

/// Builds the spawn areas: left, right, top and bottom strips just outside
/// the play area.
pub fn build_spawn_areas() -> (a: SpawnAreas)
    ensures
        a.0@ == spawn_areas_spec(),
        forall|i: int| 0 <= i < a.0@.len() ==> (#[trigger] a.0@[i]).wf(),
{
    let far = HALF_PLAY_AREA + SPAWN_AREA_DEPTH + SPAWN_AREA_BUFFER;
    let near = HALF_PLAY_AREA + SPAWN_AREA_BUFFER;
    let h = HALF_PLAY_AREA;
    let nfar = -far;
    let nnear = -near;
    let nh = -h;
    SpawnAreas(vec![
        Rect { min_x: nfar, min_y: nh, max_x: nnear, max_y: h },
        Rect { min_x: near, min_y: nh, max_x: far, max_y: h },
        Rect { min_x: nh, min_y: near, max_x: h, max_y: far },
        Rect { min_x: nh, min_y: nfar, max_x: h, max_y: nnear },
    ])
}

/// Fires each time an enemy should appear.
#[derive(Clone, Copy, Debug)]
pub struct SpawnTimer(pub Timer);

/// Fires each time the spawn interval should shrink.
#[derive(Clone, Copy, Debug)]
pub struct SpawnIntervalChangeTimer(pub Timer);

/// Fires each time a spawn weight should grow.
#[derive(Clone, Copy, Debug)]
pub struct SpawnWeightsChangeTimer(pub Timer);

/// Builds the spawn timer that the game starts with.
pub fn build_starting_spawn_timer() -> (t: SpawnTimer)
    ensures
        t.0 == Timer::fresh(START_SPAWN_INTERVAL, TimerMode::Repeating),
        t.0.wf(),
{
    SpawnTimer(Timer::new(START_SPAWN_INTERVAL, TimerMode::Repeating))
}

/// Builds the spawn interval change timer that the game starts with.
pub fn build_starting_spawn_interval_change_timer() -> (t: SpawnIntervalChangeTimer)
    ensures
        t.0 == Timer::fresh(SPAWN_INTERVAL_CHANGE_INTERVAL, TimerMode::Repeating),
        t.0.wf(),
{
    SpawnIntervalChangeTimer(Timer::new(SPAWN_INTERVAL_CHANGE_INTERVAL, TimerMode::Repeating))
}

/// Builds the spawn weights change timer that the game starts with.
pub fn build_starting_spawn_weights_change_timer() -> (t: SpawnWeightsChangeTimer)
    ensures
        t.0 == Timer::fresh(SPAWN_WEIGHTS_CHANGE_INTERVAL, TimerMode::Repeating),
        t.0.wf(),
{
    SpawnWeightsChangeTimer(Timer::new(SPAWN_WEIGHTS_CHANGE_INTERVAL, TimerMode::Repeating))
}

/// The spawn interval after one shrink: 95% of the old one, floored at the
/// minimum interval.
pub open spec fn shrunk_interval(d: u64) -> u64 {
    let scaled = d as int * 95 / 100;
    if scaled < MIN_SPAWN_INTERVAL { MIN_SPAWN_INTERVAL } else { scaled as u64 }
}

/// Advances the spawn timers by `delta` nanoseconds. Returns whether an
/// enemy should be spawned this tick; when the interval change timer fires,
/// the spawn interval shrinks.
pub fn spawn_enemies(
    spawn_timer: &mut SpawnTimer,
    spawn_interval_change_timer: &mut SpawnIntervalChangeTimer,
    delta: u64,
) -> (spawn: bool)
    requires
        old(spawn_timer).0.wf(),
        old(spawn_timer).0.mode == TimerMode::Repeating,
        old(spawn_interval_change_timer).0.wf(),
    ensures
        final(spawn_interval_change_timer).0 == old(spawn_interval_change_timer).0.ticked(delta),
        spawn == (old(spawn_timer).0.ticked(delta).times_finished_this_tick > 0),
        final(spawn_timer).0.wf(),
        final(spawn_timer).0 == if final(spawn_interval_change_timer).0.times_finished_this_tick > 0 {
            old(spawn_timer).0.ticked(delta).with_duration(shrunk_interval(old(spawn_timer).0.duration))
        } else {
            old(spawn_timer).0.ticked(delta)
        },
{
    spawn_timer.0.tick(delta);
    let spawn = spawn_timer.0.just_finished();

    spawn_interval_change_timer.0.tick(delta);
    if spawn_interval_change_timer.0.just_finished() {
        let d = spawn_timer.0.duration;
        let scaled = d / 100 * 95 + (d % 100) * 95 / 100;
        assert(scaled == d as int * 95 / 100) by (nonlinear_arith)
            requires scaled == d / 100 * 95 + (d % 100) * 95 / 100;
        let new_duration = if scaled < MIN_SPAWN_INTERVAL { MIN_SPAWN_INTERVAL } else { scaled };
        spawn_timer.0.set_duration(new_duration);
    }
    spawn
}

/// The archetypes and their selection weights.
#[derive(Clone, Debug)]
pub struct SpawnWeights {
    pub types: Vec<EnemyType>,
    pub weights: Vec<u32>,
    pub next_weight_to_increase: usize,
}

/// Index of the first occurrence of `t` in `s`, if any.
pub open spec fn first_index_of(s: Seq<EnemyType>, t: EnemyType) -> int
    decreases s.len(),
{
    if s.len() == 0 {
        -1
    } else if s[0] == t {
        0
    } else {
        let r = first_index_of(s.drop_first(), t);
        if r < 0 { -1 } else { r + 1 }
    }
}

proof fn lemma_first_index_of(s: Seq<EnemyType>, t: EnemyType)
    ensures
        -1 <= first_index_of(s, t) < s.len(),
        first_index_of(s, t) >= 0 ==> s[first_index_of(s, t)] == t,
        first_index_of(s, t) >= 0 ==> forall|j: int| 0 <= j < first_index_of(s, t) ==> s[j] != t,
        first_index_of(s, t) < 0 ==> forall|j: int| 0 <= j < s.len() ==> s[j] != t,
    decreases s.len(),
{
    if s.len() > 0 && s[0] != t {
        lemma_first_index_of(s.drop_first(), t);
        assert forall|j: int| 1 <= j < s.len() implies s[j] == s.drop_first()[j - 1] by {}
    }
}

fn index_of(types: &Vec<EnemyType>, t: EnemyType) -> (r: Option<usize>)
    ensures
        r is None <==> first_index_of(types@, t) < 0,
        r matches Some(i) ==> i == first_index_of(types@, t) && i < types@.len(),
{
    proof { lemma_first_index_of(types@, t); }
    let mut i: usize = 0;
    while i < types.len()
        invariant
            i <= types@.len(),
            forall|j: int| 0 <= j < i ==> types@[j] != t,
            -1 <= first_index_of(types@, t) < types@.len(),
            first_index_of(types@, t) >= 0 ==> types@[first_index_of(types@, t)] == t,
            first_index_of(types@, t) >= 0 ==> forall|j: int| 0 <= j < first_index_of(types@, t) ==> types@[j] != t,
            first_index_of(types@, t) < 0 ==> forall|j: int| 0 <= j < types@.len() ==> types@[j] != t,
        decreases types@.len() - i,
    {
        if types[i] == t {
            return Some(i);
        }
        i += 1;
    }
    None
}

/// Raising one weight by `by` raises the total by `by`.
proof fn lemma_weight_sum_bump(w: Seq<u32>, i: int, by: u32)
    requires
        0 <= i < w.len(),
        w[i] + by <= u32::MAX,
    ensures
        weight_sum(w.update(i, (w[i] + by) as u32)) == weight_sum(w) + by,
    decreases w.len(),
{
    let u = w.update(i, (w[i] + by) as u32);
    if i == w.len() - 1 {
        assert(u.drop_last() =~= w.drop_last());
    } else {
        lemma_weight_sum_bump(w.drop_last(), i, by);
        assert(u.drop_last() =~= w.drop_last().update(i, (w[i] + by) as u32));
    }
}

proof fn lemma_weight_sum_prefix(w: Seq<u32>, i: int)
    requires
        0 <= i < w.len(),
    ensures
        weight_sum(w.subrange(0, i + 1)) == weight_sum(w.subrange(0, i)) + w[i],
{
    assert(w.subrange(0, i + 1).drop_last() =~= w.subrange(0, i));
}

/// Each weight is at most the total.
proof fn lemma_weight_le_sum(w: Seq<u32>, i: int)
    requires
        0 <= i < w.len(),
    ensures
        w[i] <= weight_sum(w),
    decreases w.len(),
{
    lemma_weight_sum_nonneg(w.drop_last());
    if i < w.len() - 1 {
        lemma_weight_le_sum(w.drop_last(), i);
    }
}

proof fn lemma_weight_sum_nonneg(w: Seq<u32>)
    ensures
        weight_sum(w) >= 0,
    decreases w.len(),
{
    if w.len() > 0 {
        lemma_weight_sum_nonneg(w.drop_last());
    }
}

/// The total of the weights, or `None` when it does not fit in a `u32`.
fn checked_weight_sum(weights: &Vec<u32>) -> (r: Option<u32>)
    ensures
        r is None <==> weight_sum(weights@) > u32::MAX,
        r matches Some(s) ==> s == weight_sum(weights@),
{
    let mut total: u64 = 0;
    let mut i: usize = 0;
    while i < weights.len()
        invariant
            i <= weights@.len(),
            total == weight_sum(weights@.subrange(0, i as int)),
            total <= u32::MAX,
        decreases weights@.len() - i,
    {
        proof { lemma_weight_sum_prefix(weights@, i as int); }
        total = total + weights[i] as u64;
        if total > u32::MAX as u64 {
            proof {
                lemma_weight_sum_grows(weights@, i as int + 1);
            }
            return None;
        }
        i += 1;
    }
    assert(weights@.subrange(0, weights@.len() as int) =~= weights@);
    Some(total as u32)
}

/// The total of a sequence is at least the total of any of its prefixes.
proof fn lemma_weight_sum_grows(w: Seq<u32>, k: int)
    requires
        0 <= k <= w.len(),
    ensures
        weight_sum(w.subrange(0, k)) <= weight_sum(w),
    decreases w.len() - k,
{
    if k < w.len() {
        lemma_weight_sum_prefix(w, k);
        lemma_weight_sum_grows(w, k + 1);
    } else {
        assert(w.subrange(0, k) =~= w);
    }
}

impl SpawnWeights {
    pub open spec fn wf(self) -> bool {
        &&& self.types@.len() == self.weights@.len()
        &&& 0 < weight_sum(self.weights@) < u32::MAX
        &&& self.next_weight_to_increase < spawn_weight_changes().len()
    }

    /// Whether `t` can come out of a draw: it is listed with a positive weight.
    pub open spec fn may_choose(self, t: EnemyType) -> bool {
        exists|i: int| 0 <= i < self.types@.len() && self.types@[i] == t && self.weights@[i] > 0
    }

    /// Builds a table from archetypes and their weights. Refuses the table
    /// (`None`) unless there is one weight per archetype and the weights'
    /// total is positive and below `u32::MAX`.
    pub fn new(types: Vec<EnemyType>, weights: Vec<u32>) -> (r: Option<SpawnWeights>)
        ensures
            r is Some <==> (types@.len() == weights@.len() && 0 < weight_sum(weights@) < u32::MAX),
            r matches Some(sw) ==> sw.wf() && sw.types@ == types@ && sw.weights@ == weights@
                && sw.next_weight_to_increase == 0,
    {
        if types.len() != weights.len() {
            return None;
        }
        match checked_weight_sum(&weights) {
            None => None,
            Some(total) => {
                if total == 0 || total == u32::MAX {
                    None
                } else {
                    Some(SpawnWeights { types, weights, next_weight_to_increase: 0 })
                }
            },
        }
    }

    /// Picks a random enemy type based on the weights: only an archetype
    /// listed with a positive weight can come out.
    pub fn choose_random_enemy_type(&self, rng: &mut StdRng) -> (t: EnemyType)
        requires
            self.wf(),
        ensures
            self.may_choose(t),
    {
        let i = sample_weighted_index(rng, &self.weights);
        self.types[i]
    }

    /// Raises the weight of `t` by `by`, if `t` is listed; the first listing
    /// counts.
    pub fn bump_weight(&mut self, t: EnemyType, by: u32)
        requires
            old(self).wf(),
            weight_sum(old(self).weights@) + by < u32::MAX,
        ensures
            final(self).wf(),
            final(self).types@ == old(self).types@,
            final(self).next_weight_to_increase == old(self).next_weight_to_increase,
            final(self).weights@ == if first_index_of(old(self).types@, t) < 0 {
                old(self).weights@
            } else {
                let i = first_index_of(old(self).types@, t);
                old(self).weights@.update(i, (old(self).weights@[i] + by) as u32)
            },
    {
        match index_of(&self.types, t) {
            None => {},
            Some(i) => {
                proof {
                    lemma_weight_le_sum(self.weights@, i as int);
                    lemma_weight_sum_bump(self.weights@, i as int, by);
                }
                let w = self.weights[i] + by;
                self.weights.set(i, w);
            },
        }
    }
}

/// Builds the spawn weights that the game starts with.
pub fn build_starting_spawn_weights() -> (sw: SpawnWeights)
    ensures
        sw.wf(),
        sw.types@ == all_enemy_types_spec(),
        sw.weights@ == seq![50u32, 10, 10, 0, 0, 0],
        sw.next_weight_to_increase == 0,
{
    let types = all_enemy_types();
    let weights: Vec<u32> = vec![50, 10, 10, 0, 0, 0];
    proof {
        reveal_with_fuel(weight_sum, 7);
    }
    SpawnWeights { types, weights, next_weight_to_increase: 0 }
}

/// Advances the weight change timer; when it fires, raises the weight of the
/// next archetype in the fixed rotation and moves the rotation on. Weights
/// stop growing once their total would reach `u32::MAX`.
pub fn change_spawn_weights(
    spawn_weights_change_timer: &mut SpawnWeightsChangeTimer,
    spawn_weights: &mut SpawnWeights,
    delta: u64,
)
    requires
        old(spawn_weights_change_timer).0.wf(),
        old(spawn_weights).wf(),
    ensures
        final(spawn_weights_change_timer).0 == old(spawn_weights_change_timer).0.ticked(delta),
        final(spawn_weights).wf(),
        final(spawn_weights).types@ == old(spawn_weights).types@,
        final(spawn_weights_change_timer).0.times_finished_this_tick == 0 ==> *final(spawn_weights) == *old(spawn_weights),
        final(spawn_weights_change_timer).0.times_finished_this_tick > 0 ==> {
            let n = old(spawn_weights).next_weight_to_increase;
            let t = spawn_weight_changes()[n as int];
            let i = first_index_of(old(spawn_weights).types@, t);
            &&& final(spawn_weights).next_weight_to_increase == (n + 1) % 4
            &&& final(spawn_weights).weights@ == if i < 0 || weight_sum(old(spawn_weights).weights@) + 1 >= u32::MAX {
                old(spawn_weights).weights@
            } else {
                old(spawn_weights).weights@.update(i, (old(spawn_weights).weights@[i] + 1) as u32)
            }
        },
{
    spawn_weights_change_timer.0.tick(delta);
    if spawn_weights_change_timer.0.just_finished() {
        let t = spawn_weight_change(spawn_weights.next_weight_to_increase);
        spawn_weights.next_weight_to_increase = (spawn_weights.next_weight_to_increase + 1) % 4;
        if let Some(total) = checked_weight_sum(&spawn_weights.weights) {
            if total < u32::MAX - 1 {
                spawn_weights.bump_weight(t, 1);
            }
        }
    }
}

/// What the spawner asks the world to create.
#[derive(Clone, Copy, Debug, PartialEq, Eq, Structural)]
pub struct SpawnRequest {
    pub location: Position,
    pub enemy_type: EnemyType,
    pub params: EnemyParams,
}

/// An enemy's stats once drawn from its archetype's ranges.
#[derive(Clone, Copy, Debug, PartialEq, Eq, Structural)]
pub struct EnemyStats {
    pub size: i64,
    pub max_speed: i64,
    pub damage: u64,
    pub xp_reward: u64,
}

/// Picks a spawn area, a point inside it and an archetype. `None` only when
/// there is no spawn area.
pub fn spawn_random_enemy(rng: &mut StdRng, spawn_areas: &SpawnAreas, spawn_weights: &SpawnWeights) -> (r: Option<SpawnRequest>)
    requires
        spawn_weights.wf(),
        forall|i: int| 0 <= i < spawn_areas.0@.len() ==> (#[trigger] spawn_areas.0@[i]).wf(),
    ensures
        r is None <==> spawn_areas.0@.len() == 0,
        r matches Some(req) ==> {
            &&& exists|i: int| 0 <= i < spawn_areas.0@.len() && (#[trigger] spawn_areas.0@[i]).contains(req.location)
            &&& spawn_weights.may_choose(req.enemy_type)
            &&& req.params == req.enemy_type.params_spec()
        },
{
    match choose_one_of(rng, &spawn_areas.0) {
        None => None,
        Some(area) => {
            let x = gen_range_inclusive(rng, area.min_x, area.max_x);
            let y = gen_range_inclusive(rng, area.min_y, area.max_y);
            let enemy_type = spawn_weights.choose_random_enemy_type(rng);
            let location = Position { x, y };
            let ghost k = spawn_areas.0@.index_of(area);
            assert(spawn_areas.0@[k].contains(location));
            Some(SpawnRequest { location, enemy_type, params: enemy_type.get_params() })
        },
    }
}

/// Draws an enemy's size and top speed from its archetype's ranges.
pub fn spawn_enemy(rng: &mut StdRng, params: &EnemyParams) -> (s: EnemyStats)
    requires
        params.size.min <= params.size.max,
        params.max_speed.min <= params.max_speed.max,
    ensures
        params.size.min <= s.size <= params.size.max,
        params.max_speed.min <= s.max_speed <= params.max_speed.max,
        s.damage == params.damage,
        s.xp_reward == params.xp_reward,
{
    let size = gen_range_inclusive(rng, params.size.min, params.size.max);
    let max_speed = gen_range_inclusive(rng, params.max_speed.min, params.max_speed.max);
    EnemyStats { size, max_speed, damage: params.damage, xp_reward: params.xp_reward }
}

/// When only the first archetype has a positive weight, every draw returns
/// it, however many draws are made.
pub proof fn lemma_only_positive_weight_is_chosen(sw: SpawnWeights, draws: Seq<EnemyType>)
    requires
        sw.wf(),
        sw.weights@.len() > 0,
        forall|i: int| 1 <= i < sw.weights@.len() ==> sw.weights@[i] == 0,
        forall|k: int| 0 <= k < draws.len() ==> sw.may_choose(#[trigger] draws[k]),
    ensures
        forall|k: int| 0 <= k < draws.len() ==> #[trigger] draws[k] == sw.types@[0],
{
}

} // verus!
