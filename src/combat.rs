use vstd::prelude::*;
use crate::health::Health;
use crate::level::Level;
use crate::timer::Timer;

verus! {

/// How long the slow motion after a sword hit lasts (250 ms).
pub const HIT_SLOW_MO_TIME: u64 = 250_000_000;

/// The time scale during slow motion, in percent.
pub const HIT_SLOW_MO_TIME_SCALE: u64 = 50;

/// An enemy as the collision resolver sees it.
#[derive(Clone, Copy, Debug, PartialEq, Eq, Structural)]
pub struct Enemy {
    pub entity: u64,
    pub damage: u64,
    pub xp_reward: u64,
}

/// A sword, which only hurts while it is swinging.
#[derive(Clone, Copy, Debug, PartialEq, Eq, Structural)]
pub struct Sword {
    pub entity: u64,
    pub active: bool,
}

/// The player's body.
#[derive(Clone, Copy, Debug, PartialEq, Eq, Structural)]
pub struct PlayerBody {
    pub entity: u64,
    pub retaliate: bool,
}

/// The records that collisions are classified against.
#[derive(Clone, Debug)]
pub struct CollisionWorld {
    pub enemies: Vec<Enemy>,
    pub swords: Vec<Sword>,
    pub players: Vec<PlayerBody>,
    pub explosions: Vec<u64>,
}

/// Two entities started touching.
#[derive(Clone, Copy, Debug, PartialEq, Eq, Structural)]
pub struct CollisionEvent {
    pub a: u64,
    pub b: u64,
}

/// Entities to remove at the end of the tick.
#[derive(Clone, Debug)]
pub struct EntitiesToDespawn(pub Vec<u64>);

/// Slow motion: the time scale to use (in percent) while the timer runs.
#[derive(Clone, Copy, Debug, PartialEq, Eq, Structural)]
pub struct SlowMoTimer {
    pub target_time_scale: u64,
    pub timer: Timer,
}

/// What the rest of the game must do after a collision.
#[derive(Clone, Copy, Debug, PartialEq, Eq, Structural)]
pub enum CombatEffect {
    /// An enemy died: play the hit cue.
    EnemyKilled { enemy: u64 },
    /// An enemy hit the player: play the player-hit cue and push the player
    /// away from the enemy.
    PlayerHit { player: u64, enemy: u64 },
}

impl CollisionWorld {
    /// Entities are unique within each kind and no entity has two kinds.
    pub open spec fn wf(self) -> bool {
        &&& forall|i: int, j: int| 0 <= i < j < self.enemies@.len() ==> self.enemies@[i].entity != self.enemies@[j].entity
        &&& forall|i: int, j: int| 0 <= i < j < self.swords@.len() ==> self.swords@[i].entity != self.swords@[j].entity
        &&& forall|i: int, j: int| 0 <= i < j < self.players@.len() ==> self.players@[i].entity != self.players@[j].entity
        &&& forall|i: int, j: int| 0 <= i < self.enemies@.len() && 0 <= j < self.swords@.len()
            ==> self.enemies@[i].entity != self.swords@[j].entity
        &&& forall|i: int, j: int| 0 <= i < self.enemies@.len() && 0 <= j < self.players@.len()
            ==> self.enemies@[i].entity != self.players@[j].entity
        &&& forall|i: int, j: int| 0 <= i < self.enemies@.len() && 0 <= j < self.explosions@.len()
            ==> self.enemies@[i].entity != self.explosions@[j]
    }

    pub open spec fn is_enemy(self, e: u64) -> bool {
        exists|i: int| 0 <= i < self.enemies@.len() && self.enemies@[i].entity == e
    }

    pub open spec fn enemy(self, e: u64) -> Enemy {
        let i = choose|i: int| 0 <= i < self.enemies@.len() && self.enemies@[i].entity == e;
        self.enemies@[i]
    }

    pub open spec fn is_sword(self, e: u64) -> bool {
        exists|i: int| 0 <= i < self.swords@.len() && self.swords@[i].entity == e
    }

    pub open spec fn sword(self, e: u64) -> Sword {
        let i = choose|i: int| 0 <= i < self.swords@.len() && self.swords@[i].entity == e;
        self.swords@[i]
    }

    pub open spec fn is_player(self, e: u64) -> bool {
        exists|i: int| 0 <= i < self.players@.len() && self.players@[i].entity == e
    }

    pub open spec fn player(self, e: u64) -> PlayerBody {
        let i = choose|i: int| 0 <= i < self.players@.len() && self.players@[i].entity == e;
        self.players@[i]
    }

    pub open spec fn is_explosion(self, e: u64) -> bool {
        self.explosions@.contains(e)
    }
}

/// What collisions change: the despawn queue, progression, health, slow
/// motion, and the effects asked of the rest of the game.
pub type CombatView = (Seq<u64>, Level, Health, SlowMoTimer, Seq<CombatEffect>);

/// Queues the enemy for removal and awards its XP.
pub open spec fn killed(s: CombatView, enemy: Enemy) -> CombatView {
    (
        s.0.push(enemy.entity),
        Level { current_xp: s.1.current_xp.saturating_add(enemy.xp_reward), ..s.1 },
        s.2,
        s.3,
        s.4.push(CombatEffect::EnemyKilled { enemy: enemy.entity }),
    )
}

/// Slow motion starts over.
pub open spec fn slowed_down(t: SlowMoTimer) -> SlowMoTimer {
    SlowMoTimer {
        target_time_scale: HIT_SLOW_MO_TIME_SCALE,
        timer: Timer {
            duration: HIT_SLOW_MO_TIME,
            elapsed: 0,
            finished: false,
            times_finished_this_tick: 0,
            paused: false,
            ..t.timer
        },
    }
}

/// The outcome of one collision.
pub open spec fn resolve(w: CollisionWorld, s: CombatView, ev: CollisionEvent) -> CombatView {
    let (a, b) = (ev.a, ev.b);
    if !w.is_enemy(a) && !w.is_enemy(b) {
        s
    } else {
        let e = if w.is_enemy(a) { a } else { b };
        let enemy = w.enemy(e);
        if s.0.contains(e) {
            s
        } else if w.is_explosion(a) || w.is_explosion(b) {
            killed(s, enemy)
        } else if w.is_sword(a) || w.is_sword(b) {
            let sword = if w.is_sword(a) { w.sword(a) } else { w.sword(b) };
            if sword.active {
                let k = killed(s, enemy);
                (k.0, k.1, k.2, slowed_down(k.3), k.4)
            } else {
                s
            }
        } else if w.is_player(a) || w.is_player(b) {
            let p = if w.is_player(a) { a } else { b };
            let player = w.player(p);
            let hurt = (
                s.0,
                s.1,
                Health {
                    current_health: if s.2.current_health >= enemy.damage {
                        (s.2.current_health - enemy.damage) as u64
                    } else {
                        0
                    },
                    ..s.2
                },
                s.3,
                s.4.push(CombatEffect::PlayerHit { player: p, enemy: e }),
            );
            if player.retaliate { killed(hurt, enemy) } else { hurt }
        } else {
            s
        }
    }
}

/// The outcome of a sequence of collisions, first to last.
pub open spec fn resolve_all(w: CollisionWorld, s: CombatView, evs: Seq<CollisionEvent>) -> CombatView
    decreases evs.len(),
{
    if evs.len() == 0 {
        s
    } else {
        resolve(w, resolve_all(w, s, evs.drop_last()), evs.last())
    }
}

fn find_enemy(w: &CollisionWorld, e: u64) -> (r: Option<Enemy>)
    requires
        w.wf(),
    ensures
        r is Some <==> w.is_enemy(e),
        r matches Some(x) ==> x == w.enemy(e),
{
    let mut i: usize = 0;
    while i < w.enemies.len()
        invariant
            w.wf(),
            i <= w.enemies@.len(),
            forall|j: int| 0 <= j < i ==> w.enemies@[j].entity != e,
        decreases w.enemies@.len() - i,
    {
        if w.enemies[i].entity == e {
            let ghost k = choose|k: int| 0 <= k < w.enemies@.len() && w.enemies@[k].entity == e;
            assert(k == i as int) by {
                if k < i { } else if k > i { assert(w.enemies@[i as int].entity != w.enemies@[k].entity); }
            }
            return Some(w.enemies[i]);
        }
        i += 1;
    }
    None
}

fn find_sword(w: &CollisionWorld, e: u64) -> (r: Option<Sword>)
    requires
        w.wf(),
    ensures
        r is Some <==> w.is_sword(e),
        r matches Some(x) ==> x == w.sword(e),
{
    let mut i: usize = 0;
    while i < w.swords.len()
        invariant
            w.wf(),
            i <= w.swords@.len(),
            forall|j: int| 0 <= j < i ==> w.swords@[j].entity != e,
        decreases w.swords@.len() - i,
    {
        if w.swords[i].entity == e {
            let ghost k = choose|k: int| 0 <= k < w.swords@.len() && w.swords@[k].entity == e;
            assert(k == i as int) by {
                if k < i { } else if k > i { assert(w.swords@[i as int].entity != w.swords@[k].entity); }
            }
            return Some(w.swords[i]);
        }
        i += 1;
    }
    None
}

fn find_player(w: &CollisionWorld, e: u64) -> (r: Option<PlayerBody>)
    requires
        w.wf(),
    ensures
        r is Some <==> w.is_player(e),
        r matches Some(x) ==> x == w.player(e),
{
    let mut i: usize = 0;
    while i < w.players.len()
        invariant
            w.wf(),
            i <= w.players@.len(),
            forall|j: int| 0 <= j < i ==> w.players@[j].entity != e,
        decreases w.players@.len() - i,
    {
        if w.players[i].entity == e {
            let ghost k = choose|k: int| 0 <= k < w.players@.len() && w.players@[k].entity == e;
            assert(k == i as int) by {
                if k < i { } else if k > i { assert(w.players@[i as int].entity != w.players@[k].entity); }
            }
            return Some(w.players[i]);
        }
        i += 1;
    }
    None
}

/// Whether `v` holds `e`.
pub fn contains_entity(v: &Vec<u64>, e: u64) -> (r: bool)
    ensures
        r == v@.contains(e),
{
    let mut i: usize = 0;
    while i < v.len()
        invariant
            i <= v@.len(),
            forall|j: int| 0 <= j < i ==> v@[j] != e,
        decreases v@.len() - i,
    {
        if v[i] == e {
            return true;
        }
        i += 1;
    }
    false
}

/// Queues the enemy for removal and awards its XP.
pub fn kill_enemy(
    enemy: &Enemy,
    entities_to_despawn: &mut EntitiesToDespawn,
    level: &mut Level,
    effects: &mut Vec<CombatEffect>,
)
    ensures
        final(entities_to_despawn).0@ == old(entities_to_despawn).0@.push(enemy.entity),
        *final(level) == (Level { current_xp: old(level).current_xp.saturating_add(enemy.xp_reward), ..*old(level) }),
        final(effects)@ == old(effects)@.push(CombatEffect::EnemyKilled { enemy: enemy.entity }),
{
    entities_to_despawn.0.push(enemy.entity);
    level.add_xp(enemy.xp_reward);
    effects.push(CombatEffect::EnemyKilled { enemy: enemy.entity });
}

fn start_slow_mo(slow_mo_timer: &mut SlowMoTimer)
    ensures
        *final(slow_mo_timer) == slowed_down(*old(slow_mo_timer)),
{
    slow_mo_timer.target_time_scale = HIT_SLOW_MO_TIME_SCALE;
    slow_mo_timer.timer.duration = HIT_SLOW_MO_TIME;
    slow_mo_timer.timer.reset();
    slow_mo_timer.timer.unpause();
}

/// Resolves one collision.
pub fn resolve_collision(
    event: &CollisionEvent,
    world: &CollisionWorld,
    entities_to_despawn: &mut EntitiesToDespawn,
    level: &mut Level,
    health: &mut Health,
    slow_mo_timer: &mut SlowMoTimer,
    effects: &mut Vec<CombatEffect>,
)
    requires
        world.wf(),
    ensures
        (final(entities_to_despawn).0@, *final(level), *final(health), *final(slow_mo_timer), final(effects)@)
            == resolve(*world, (old(entities_to_despawn).0@, *old(level), *old(health), *old(slow_mo_timer), old(effects)@), *event),
{
    let a = event.a;
    let b = event.b;
    let (enemy, e) = match find_enemy(world, a) {
        Some(x) => (x, a),
        None => match find_enemy(world, b) {
            Some(x) => (x, b),
            None => { return; },
        },
    };
    if contains_entity(&entities_to_despawn.0, e) {
        return;
    }
    if contains_entity(&world.explosions, a) || contains_entity(&world.explosions, b) {
        kill_enemy(&enemy, entities_to_despawn, level, effects);
        return;
    }
    let sword = match find_sword(world, a) {
        Some(s) => Some(s),
        None => find_sword(world, b),
    };
    if let Some(sword) = sword {
        if sword.active {
            kill_enemy(&enemy, entities_to_despawn, level, effects);
            start_slow_mo(slow_mo_timer);
        }
        return;
    }
    let player = match find_player(world, a) {
        Some(p) => Some((p, a)),
        None => match find_player(world, b) {
            Some(p) => Some((p, b)),
            None => None,
        },
    };
    if let Some((player, p)) = player {
        health.take_damage(enemy.damage);
        effects.push(CombatEffect::PlayerHit { player: p, enemy: e });
        if player.retaliate {
            kill_enemy(&enemy, entities_to_despawn, level, effects);
        }
    }
}

/// Handles the collisions of one tick, in order: enemies touching an
/// explosion or a swinging sword die and award XP (a sword hit also starts
/// slow motion); enemies touching the player hurt the player, and die too if
/// the player retaliates. Enemies already queued for removal are left alone.
pub fn collisions(
    events: &Vec<CollisionEvent>,
    world: &CollisionWorld,
    entities_to_despawn: &mut EntitiesToDespawn,
    level: &mut Level,
    health: &mut Health,
    slow_mo_timer: &mut SlowMoTimer,
) -> (effects: Vec<CombatEffect>)
    requires
        world.wf(),
    ensures
        (final(entities_to_despawn).0@, *final(level), *final(health), *final(slow_mo_timer), effects@)
            == resolve_all(*world, (old(entities_to_despawn).0@, *old(level), *old(health), *old(slow_mo_timer), Seq::empty()), events@),
{
    let mut effects: Vec<CombatEffect> = Vec::new();
    let ghost start = (entities_to_despawn.0@, *level, *health, *slow_mo_timer, effects@);
    let mut i: usize = 0;
    while i < events.len()
        invariant
            world.wf(),
            i <= events@.len(),
            start == (old(entities_to_despawn).0@, *old(level), *old(health), *old(slow_mo_timer), Seq::<CombatEffect>::empty()),
            (entities_to_despawn.0@, *level, *health, *slow_mo_timer, effects@)
                == resolve_all(*world, start, events@.subrange(0, i as int)),
        decreases events@.len() - i,
    {
        resolve_collision(&events[i], world, entities_to_despawn, level, health, slow_mo_timer, &mut effects);
        assert(events@.subrange(0, i as int + 1).drop_last() =~= events@.subrange(0, i as int));
        i += 1;
    }
    assert(events@.subrange(0, events@.len() as int) =~= events@);
    effects
}

/// Takes every queued entity out of the queue, in order, for removal.
pub fn despawn_entities(entities_to_despawn: &mut EntitiesToDespawn) -> (r: Vec<u64>)
    ensures
        r@ == old(entities_to_despawn).0@,
        final(entities_to_despawn).0@.len() == 0,
{
    let mut drained: Vec<u64> = Vec::new();
    std::mem::swap(&mut drained, &mut entities_to_despawn.0);
    drained
}

/// A sword hit while the sword is not swinging changes nothing; while it is
/// swinging, the enemy is queued for removal exactly once and its XP is
/// awarded (saturating at `u64::MAX`), and health is untouched.
pub proof fn lemma_sword_hit(w: CollisionWorld, s: CombatView, enemy: u64, sword: u64)
    requires
        w.wf(),
        w.is_enemy(enemy),
        w.is_sword(sword),
        !w.is_explosion(sword),
        !s.0.contains(enemy),
    ensures
        !w.sword(sword).active ==> resolve(w, s, CollisionEvent { a: enemy, b: sword }) == s,
        w.sword(sword).active ==> {
            let r = resolve(w, s, CollisionEvent { a: enemy, b: sword });
            &&& r.0 == s.0.push(enemy)
            &&& r.1.current_xp == s.1.current_xp.saturating_add(w.enemy(enemy).xp_reward)
            &&& (s.1.current_xp + w.enemy(enemy).xp_reward <= u64::MAX
                ==> r.1.current_xp == s.1.current_xp + w.enemy(enemy).xp_reward)
            &&& r.2 == s.2
        },
{
    let i = choose|i: int| 0 <= i < w.enemies@.len() && w.enemies@[i].entity == enemy;
    if w.is_explosion(enemy) {
        let j = w.explosions@.index_of(enemy);
        assert(w.enemies@[i].entity != w.explosions@[j]);
    }
    if w.is_sword(enemy) {
        let j = choose|j: int| 0 <= j < w.swords@.len() && w.swords@[j].entity == enemy;
        assert(w.enemies@[i].entity != w.swords@[j].entity);
    }
}

/// No two entries of `ids` are equal.
pub open spec fn all_distinct(ids: Seq<u64>) -> bool {
    forall|i: int, j: int| 0 <= i < j < ids.len() ==> ids[i] != ids[j]
}

/// No entry of `a` is an entry of `b`.
pub open spec fn disjoint(a: Seq<u64>, b: Seq<u64>) -> bool {
    forall|i: int, j: int| 0 <= i < a.len() && 0 <= j < b.len() ==> a[i] != b[j]
}

fn check_all_distinct(ids: &Vec<u64>) -> (r: bool)
    ensures
        r == all_distinct(ids@),
{
    let mut j: usize = 0;
    while j < ids.len()
        invariant
            j <= ids@.len(),
            forall|a: int, b: int| 0 <= a < b < j ==> ids@[a] != ids@[b],
        decreases ids@.len() - j,
    {
        let mut i: usize = 0;
        while i < j
            invariant
                i <= j < ids@.len(),
                forall|a: int, b: int| 0 <= a < b < j ==> ids@[a] != ids@[b],
                forall|a: int| 0 <= a < i ==> ids@[a] != ids@[j as int],
            decreases j - i,
        {
            if ids[i] == ids[j] {
                return false;
            }
            i += 1;
        }
        j += 1;
    }
    true
}

fn check_disjoint(a: &Vec<u64>, b: &Vec<u64>) -> (r: bool)
    ensures
        r == disjoint(a@, b@),
{
    let mut i: usize = 0;
    while i < a.len()
        invariant
            i <= a@.len(),
            forall|x: int, y: int| 0 <= x < i && 0 <= y < b@.len() ==> a@[x] != b@[y],
        decreases a@.len() - i,
    {
        if contains_entity(b, a[i]) {
            return false;
        }
        i += 1;
    }
    true
}

impl CollisionWorld {
    pub open spec fn enemy_ids(self) -> Seq<u64> {
        self.enemies@.map_values(|e: Enemy| e.entity)
    }

    pub open spec fn sword_ids(self) -> Seq<u64> {
        self.swords@.map_values(|s: Sword| s.entity)
    }

    pub open spec fn player_ids(self) -> Seq<u64> {
        self.players@.map_values(|p: PlayerBody| p.entity)
    }

    /// Whether the world meets what the collision resolver needs: entities
    /// unique within each kind, and no enemy that is also a sword, the
    /// player or an explosion.
    pub fn is_well_formed(&self) -> (r: bool)
        ensures
            r == self.wf(),
    {
        let mut enemy_ids: Vec<u64> = Vec::new();
        let mut i: usize = 0;
        while i < self.enemies.len()
            invariant
                i <= self.enemies@.len(),
                enemy_ids@ == self.enemy_ids().subrange(0, i as int),
            decreases self.enemies@.len() - i,
        {
            enemy_ids.push(self.enemies[i].entity);
            assert(self.enemy_ids().subrange(0, i as int + 1) =~= self.enemy_ids().subrange(0, i as int).push(self.enemies@[i as int].entity));
            i += 1;
        }
        let mut sword_ids: Vec<u64> = Vec::new();
        let mut i: usize = 0;
        while i < self.swords.len()
            invariant
                i <= self.swords@.len(),
                sword_ids@ == self.sword_ids().subrange(0, i as int),
            decreases self.swords@.len() - i,
        {
            sword_ids.push(self.swords[i].entity);
            assert(self.sword_ids().subrange(0, i as int + 1) =~= self.sword_ids().subrange(0, i as int).push(self.swords@[i as int].entity));
            i += 1;
        }
        let mut player_ids: Vec<u64> = Vec::new();
        let mut i: usize = 0;
        while i < self.players.len()
            invariant
                i <= self.players@.len(),
                player_ids@ == self.player_ids().subrange(0, i as int),
            decreases self.players@.len() - i,
        {
            player_ids.push(self.players[i].entity);
            assert(self.player_ids().subrange(0, i as int + 1) =~= self.player_ids().subrange(0, i as int).push(self.players@[i as int].entity));
            i += 1;
        }
        assert(enemy_ids@ =~= self.enemy_ids().subrange(0, self.enemies@.len() as int));
        assert(self.enemy_ids().subrange(0, self.enemies@.len() as int) =~= self.enemy_ids());
        assert(self.sword_ids().subrange(0, self.swords@.len() as int) =~= self.sword_ids());
        assert(self.player_ids().subrange(0, self.players@.len() as int) =~= self.player_ids());
        proof {
            let (e, w, p) = (self.enemy_ids(), self.sword_ids(), self.player_ids());
            assert(forall|i: int| 0 <= i < e.len() ==> #[trigger] e[i] == self.enemies@[i].entity);
            assert(forall|i: int| 0 <= i < w.len() ==> #[trigger] w[i] == self.swords@[i].entity);
            assert(forall|i: int| 0 <= i < p.len() ==> #[trigger] p[i] == self.players@[i].entity);
            assert(all_distinct(e) <==> forall|i: int, j: int| 0 <= i < j < self.enemies@.len() ==> self.enemies@[i].entity != self.enemies@[j].entity) by {
                if !all_distinct(e) {
                    let (i, j) = choose|i: int, j: int| 0 <= i < j < e.len() && e[i] == e[j];
                    assert(self.enemies@[i].entity == self.enemies@[j].entity);
                }
                if !(forall|i: int, j: int| 0 <= i < j < self.enemies@.len() ==> self.enemies@[i].entity != self.enemies@[j].entity) {
                    let (i, j) = choose|i: int, j: int| 0 <= i < j < self.enemies@.len() && self.enemies@[i].entity == self.enemies@[j].entity;
                    assert(e[i] == e[j]);
                }
            }
            assert(all_distinct(w) <==> forall|i: int, j: int| 0 <= i < j < self.swords@.len() ==> self.swords@[i].entity != self.swords@[j].entity) by {
                if !all_distinct(w) {
                    let (i, j) = choose|i: int, j: int| 0 <= i < j < w.len() && w[i] == w[j];
                    assert(self.swords@[i].entity == self.swords@[j].entity);
                }
                if !(forall|i: int, j: int| 0 <= i < j < self.swords@.len() ==> self.swords@[i].entity != self.swords@[j].entity) {
                    let (i, j) = choose|i: int, j: int| 0 <= i < j < self.swords@.len() && self.swords@[i].entity == self.swords@[j].entity;
                    assert(w[i] == w[j]);
                }
            }
            assert(all_distinct(p) <==> forall|i: int, j: int| 0 <= i < j < self.players@.len() ==> self.players@[i].entity != self.players@[j].entity) by {
                if !all_distinct(p) {
                    let (i, j) = choose|i: int, j: int| 0 <= i < j < p.len() && p[i] == p[j];
                    assert(self.players@[i].entity == self.players@[j].entity);
                }
                if !(forall|i: int, j: int| 0 <= i < j < self.players@.len() ==> self.players@[i].entity != self.players@[j].entity) {
                    let (i, j) = choose|i: int, j: int| 0 <= i < j < self.players@.len() && self.players@[i].entity == self.players@[j].entity;
                    assert(p[i] == p[j]);
                }
            }
            assert(disjoint(e, w) <==> forall|i: int, j: int| 0 <= i < self.enemies@.len() && 0 <= j < self.swords@.len() ==> self.enemies@[i].entity != self.swords@[j].entity) by {
                if !disjoint(e, w) {
                    let (i, j) = choose|i: int, j: int| 0 <= i < e.len() && 0 <= j < w.len() && e[i] == w[j];
                    assert(self.enemies@[i].entity == self.swords@[j].entity);
                }
                if !(forall|i: int, j: int| 0 <= i < self.enemies@.len() && 0 <= j < self.swords@.len() ==> self.enemies@[i].entity != self.swords@[j].entity) {
                    let (i, j) = choose|i: int, j: int| 0 <= i < self.enemies@.len() && 0 <= j < self.swords@.len() && self.enemies@[i].entity == self.swords@[j].entity;
                    assert(e[i] == w[j]);
                }
            }
            assert(disjoint(e, p) <==> forall|i: int, j: int| 0 <= i < self.enemies@.len() && 0 <= j < self.players@.len() ==> self.enemies@[i].entity != self.players@[j].entity) by {
                if !disjoint(e, p) {
                    let (i, j) = choose|i: int, j: int| 0 <= i < e.len() && 0 <= j < p.len() && e[i] == p[j];
                    assert(self.enemies@[i].entity == self.players@[j].entity);
                }
                if !(forall|i: int, j: int| 0 <= i < self.enemies@.len() && 0 <= j < self.players@.len() ==> self.enemies@[i].entity != self.players@[j].entity) {
                    let (i, j) = choose|i: int, j: int| 0 <= i < self.enemies@.len() && 0 <= j < self.players@.len() && self.enemies@[i].entity == self.players@[j].entity;
                    assert(e[i] == p[j]);
                }
            }
            assert(disjoint(e, self.explosions@) <==> forall|i: int, j: int| 0 <= i < self.enemies@.len() && 0 <= j < self.explosions@.len() ==> self.enemies@[i].entity != self.explosions@[j]) by {
                if !disjoint(e, self.explosions@) {
                    let (i, j) = choose|i: int, j: int| 0 <= i < e.len() && 0 <= j < self.explosions@.len() && e[i] == self.explosions@[j];
                    assert(self.enemies@[i].entity == self.explosions@[j]);
                }
                if !(forall|i: int, j: int| 0 <= i < self.enemies@.len() && 0 <= j < self.explosions@.len() ==> self.enemies@[i].entity != self.explosions@[j]) {
                    let (i, j) = choose|i: int, j: int| 0 <= i < self.enemies@.len() && 0 <= j < self.explosions@.len() && self.enemies@[i].entity == self.explosions@[j];
                    assert(e[i] == self.explosions@[j]);
                }
            }
        }
        let r = check_all_distinct(&enemy_ids) && check_all_distinct(&sword_ids) && check_all_distinct(&player_ids)
            && check_disjoint(&enemy_ids, &sword_ids) && check_disjoint(&enemy_ids, &player_ids)
            && check_disjoint(&enemy_ids, &self.explosions);
        r
    }
}

} // verus!
