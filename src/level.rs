use vstd::prelude::*;

verus! {

/// The XP threshold of level one.
pub const STARTING_XP_THRESHOLD: u64 = 5;

/// Thresholds are kept at or below this so that the next one still fits in
/// a `u64`.
pub const MAX_XP_NEEDED: u64 = 0x5555_5555_5555_5554;

/// Progression: the level reached, the XP gathered, and the thresholds.
#[derive(Clone, Copy, Debug, PartialEq, Eq, Structural)]
pub struct Level {
    pub current_level: u64,
    pub current_xp: u64,
    /// The threshold that was cleared last.
    pub previous_xp_needed: u64,
    /// The threshold of the next level.
    pub xp_needed: u64,
}

/// Raised once per level gained.
#[derive(Clone, Copy, Debug, PartialEq, Eq, Structural)]
pub struct LevelUp {
    pub new_level: u64,
}

/// The XP between a threshold and the next: one and a half times the XP
/// between the previous two, rounded half up.
pub open spec fn next_increment(gap: int) -> int {
    (3 * gap + 1) / 2
}

impl Level {
    pub open spec fn wf(self) -> bool {
        &&& self.current_level >= 1
        &&& self.previous_xp_needed < self.xp_needed
        &&& self.current_level <= self.xp_needed
    }

    /// Whether enough XP has been gathered for the next level.
    pub open spec fn ready(self) -> bool {
        self.current_xp >= self.xp_needed
    }

    /// The state after one level is gained.
    pub open spec fn advanced(self) -> Level {
        Level {
            current_level: (self.current_level + 1) as u64,
            current_xp: self.current_xp,
            previous_xp_needed: self.xp_needed,
            xp_needed: (self.xp_needed + next_increment(self.xp_needed - self.previous_xp_needed)) as u64,
        }
    }

    pub open spec fn measure(self) -> nat {
        if self.current_xp >= self.xp_needed {
            (self.current_xp - self.xp_needed + 1) as nat
        } else {
            0
        }
    }

    /// Whether one more advance can be computed without overflow.
    pub open spec fn can_advance(self) -> bool {
        self.wf() && self.xp_needed <= MAX_XP_NEEDED
    }

    /// The state once every threshold that the XP reaches has been cleared.
    pub open spec fn settled(self) -> Level
        decreases self.measure(),
    {
        if self.can_advance() && self.ready() {
            self.advanced().settled()
        } else {
            self
        }
    }

    /// How many thresholds the XP reaches.
    pub open spec fn thresholds_crossed(self) -> nat
        decreases self.measure(),
    {
        if self.can_advance() && self.ready() {
            1 + self.advanced().thresholds_crossed()
        } else {
            0
        }
    }

    /// The state after `n` advances.
    pub open spec fn advanced_n(self, n: nat) -> Level
        decreases n,
    {
        if n == 0 {
            self
        } else {
            self.advanced_n((n - 1) as nat).advanced()
        }
    }

    /// The level that a fresh game starts with.
    pub fn new() -> (l: Level)
        ensures
            l.wf(),
            l == (Level { current_level: 1, current_xp: 0, previous_xp_needed: 0, xp_needed: STARTING_XP_THRESHOLD }),
    {
        Level { current_level: 1, current_xp: 0, previous_xp_needed: 0, xp_needed: STARTING_XP_THRESHOLD }
    }

    /// Advances to the next level: the next threshold lies one and a half
    /// times as far beyond the current one as the current one lies beyond
    /// the previous.
    pub fn advance(&mut self)
        requires
            old(self).can_advance(),
        ensures
            *final(self) == old(self).advanced(),
            final(self).wf(),
            final(self).xp_needed > old(self).xp_needed,
    {
        proof { lemma_advanced(*self); }
        self.current_level += 1;
        let xp_since_last_level = self.xp_needed - self.previous_xp_needed;
        let additional_xp_needed = (3 * xp_since_last_level + 1) / 2;
        self.previous_xp_needed = self.xp_needed;
        self.xp_needed += additional_xp_needed;
    }

    /// Adds XP, saturating at `u64::MAX`.
    pub fn add_xp(&mut self, amount: u64)
        ensures
            *final(self) == (Level { current_xp: old(self).current_xp.saturating_add(amount), ..*old(self) }),
    {
        self.current_xp = self.current_xp.saturating_add(amount);
    }
}

/// Clears every threshold that the XP reaches, in one call, and returns
/// one level-up event per level gained, in order. Thresholds stop growing
/// once the next one would no longer fit in a `u64`.
pub fn update_level_display(level: &mut Level) -> (events: Vec<LevelUp>)
    requires
        old(level).wf(),
    ensures
        *final(level) == old(level).settled(),
        final(level).wf(),
        final(level).current_xp < final(level).xp_needed || final(level).xp_needed > MAX_XP_NEEDED,
        old(level).current_xp <= MAX_XP_NEEDED ==> final(level).current_xp < final(level).xp_needed,
        final(level).current_level == old(level).current_level + old(level).thresholds_crossed(),
        events@.len() == old(level).thresholds_crossed(),
        forall|i: int| 0 <= i < events@.len() ==>
            (#[trigger] events@[i]).new_level == old(level).current_level + i + 1,
{
    let mut events: Vec<LevelUp> = Vec::new();
    proof { lemma_settled(*level); }
    while level.current_xp >= level.xp_needed && level.xp_needed <= MAX_XP_NEEDED
        invariant
            level.wf(),
            level.current_xp == old(level).current_xp,
            level.settled() == old(level).settled(),
            level.current_level + level.thresholds_crossed() == old(level).current_level + old(level).thresholds_crossed(),
            level.current_level == old(level).current_level + events@.len(),
            forall|i: int| 0 <= i < events@.len() ==>
                (#[trigger] events@[i]).new_level == old(level).current_level + i + 1,
        decreases level.measure(),
    {
        proof { lemma_advanced(*level); }
        level.advance();
        events.push(LevelUp { new_level: level.current_level });
    }
    events
}

/// One advance keeps the level well formed and raises the threshold.
pub proof fn lemma_advanced(l: Level)
    requires
        l.can_advance(),
    ensures
        l.advanced().wf(),
        l.advanced().xp_needed > l.xp_needed,
        l.advanced().xp_needed == l.xp_needed + next_increment(l.xp_needed - l.previous_xp_needed),
        l.advanced().current_level == l.current_level + 1,
        l.advanced().current_xp == l.current_xp,
        l.ready() ==> l.advanced().measure() < l.measure(),
{
}

proof fn lemma_settled(l: Level)
    requires
        l.wf(),
    ensures
        l.settled().wf(),
        l.settled().current_xp < l.settled().xp_needed || l.settled().xp_needed > MAX_XP_NEEDED,
        l.settled().current_xp == l.current_xp,
        l.settled().current_level == l.current_level + l.thresholds_crossed(),
        l.settled() == l.advanced_n(l.thresholds_crossed()),
    decreases l.measure(),
{
    if l.can_advance() && l.ready() {
        lemma_advanced(l);
        lemma_settled(l.advanced());
        lemma_advanced_n_shift(l, l.advanced().thresholds_crossed());
    }
}

/// After any amount of XP has been added, clearing the thresholds leaves the
/// XP below the next threshold, with the level raised by exactly the number
/// of thresholds that the XP reached. The thresholds are those of successive
/// advances, `advanced_n(0).xp_needed`, `advanced_n(1).xp_needed`, ...: the
/// first `thresholds_crossed()` of them are at most the XP, the next one is
/// above it, and the final state is that many advances of the start.
pub proof fn lemma_level_up_leaves_xp_below_threshold(l: Level)
    requires
        l.wf(),
        l.current_xp <= MAX_XP_NEEDED,
    ensures
        l.settled().current_xp < l.settled().xp_needed,
        l.settled().current_level == l.current_level + l.thresholds_crossed(),
        l.settled().current_xp == l.current_xp,
        l.settled() == l.advanced_n(l.thresholds_crossed()),
        l.advanced_n(l.thresholds_crossed()).xp_needed > l.current_xp,
        forall|i: nat| i < l.thresholds_crossed() ==> (#[trigger] l.advanced_n(i)).xp_needed <= l.current_xp,
    decreases l.measure(),
{
    lemma_settled(l);
    if l.ready() {
        lemma_advanced(l);
        lemma_level_up_leaves_xp_below_threshold(l.advanced());
        assert forall|i: nat| i < l.thresholds_crossed() implies (#[trigger] l.advanced_n(i)).xp_needed <= l.current_xp by {
            if i > 0 {
                lemma_advanced_n_shift(l, (i - 1) as nat);
            }
        }
    }
}

proof fn lemma_advanced_n_shift(l: Level, n: nat)
    ensures
        l.advanced_n(n + 1) == l.advanced().advanced_n(n),
    decreases n,
{
    if n > 0 {
        let m = (n - 1) as nat;
        lemma_advanced_n_shift(l, m);
        assert(l.advanced_n(n + 1) == l.advanced_n(n).advanced());
        assert(l.advanced().advanced_n(n) == l.advanced().advanced_n(m).advanced());
    } else {
        assert(l.advanced_n(1) == l.advanced_n(0).advanced());
        assert(l.advanced().advanced_n(0) == l.advanced());
    }
}

/// Successive advances raise the threshold strictly, as long as each one
/// can be computed.
pub proof fn lemma_thresholds_strictly_increase(l: Level, n: nat)
    requires
        forall|i: nat| i < n ==> (#[trigger] l.advanced_n(i)).can_advance(),
    ensures
        forall|i: nat, j: nat| #![trigger l.advanced_n(i), l.advanced_n(j)] i < j <= n ==> l.advanced_n(i).xp_needed < l.advanced_n(j).xp_needed,
    decreases n,
{
    if n > 0 {
        let m = (n - 1) as nat;
        lemma_thresholds_strictly_increase(l, m);
        assert(l.advanced_n(m).can_advance());
        lemma_advanced(l.advanced_n(m));
        assert forall|i: nat, j: nat| #![trigger l.advanced_n(i), l.advanced_n(j)] i < j <= n implies l.advanced_n(i).xp_needed < l.advanced_n(j).xp_needed by {
            if j == n && i < m {
                assert(l.advanced_n(i).xp_needed < l.advanced_n(m).xp_needed);
            }
        }
    }
}

} // verus!
