use vstd::prelude::*;
use rand::rngs::StdRng;
use crate::random::choose_multiple_of;

verus! {

/// How many perks are offered at each level-up.
pub const NUM_PERK_CHOICES: usize = 3;

/// The perks, in their fixed order.
#[derive(Clone, Copy, Debug, PartialEq, Eq, Hash, Structural)]
pub enum PerkType {
    LongerSword,
    WiderSwordSwing,
    ShorterAttackCooldown,
    HigherMaxSpeed,
    HigherMaxHealth,
    Heal,
    UnlockGrenade,
    LargerGrenadeExplosion,
    ShorterGrenadeCooldown,
    UnlockTeleport,
    ShorterTeleportCooldown,
    UnlockTeleportExplosion,
    LargerTeleportExplosion,
    UnlockHealthRegen,
    FasterHealthRegen,
    Retaliate,
    SlowerEnemies,
}

/// Every perk, in declaration order.
pub open spec fn all_perk_types_spec() -> Seq<PerkType> {
    seq![
        PerkType::LongerSword,
        PerkType::WiderSwordSwing,
        PerkType::ShorterAttackCooldown,
        PerkType::HigherMaxSpeed,
        PerkType::HigherMaxHealth,
        PerkType::Heal,
        PerkType::UnlockGrenade,
        PerkType::LargerGrenadeExplosion,
        PerkType::ShorterGrenadeCooldown,
        PerkType::UnlockTeleport,
        PerkType::ShorterTeleportCooldown,
        PerkType::UnlockTeleportExplosion,
        PerkType::LargerTeleportExplosion,
        PerkType::UnlockHealthRegen,
        PerkType::FasterHealthRegen,
        PerkType::Retaliate,
        PerkType::SlowerEnemies,
    ]
}

/// Lists every perk, in declaration order.
pub fn all_perk_types() -> (r: Vec<PerkType>)
    ensures
        r@ == all_perk_types_spec(),
{
    vec![
        PerkType::LongerSword,
        PerkType::WiderSwordSwing,
        PerkType::ShorterAttackCooldown,
        PerkType::HigherMaxSpeed,
        PerkType::HigherMaxHealth,
        PerkType::Heal,
        PerkType::UnlockGrenade,
        PerkType::LargerGrenadeExplosion,
        PerkType::ShorterGrenadeCooldown,
        PerkType::UnlockTeleport,
        PerkType::ShorterTeleportCooldown,
        PerkType::UnlockTeleportExplosion,
        PerkType::LargerTeleportExplosion,
        PerkType::UnlockHealthRegen,
        PerkType::FasterHealthRegen,
        PerkType::Retaliate,
        PerkType::SlowerEnemies,
    ]
}

/// Whether `p` may be offered to a player who owns `owned`: the upgrades of
/// an ability need its unlock, and one-shot unlocks are not offered twice.
pub open spec fn is_eligible(p: PerkType, owned: Set<PerkType>) -> bool {
    match p {
        PerkType::UnlockGrenade => !owned.contains(PerkType::UnlockGrenade),
        PerkType::LargerGrenadeExplosion => owned.contains(PerkType::UnlockGrenade),
        PerkType::ShorterGrenadeCooldown => owned.contains(PerkType::UnlockGrenade),
        PerkType::UnlockTeleport => !owned.contains(PerkType::UnlockTeleport),
        PerkType::ShorterTeleportCooldown => owned.contains(PerkType::UnlockTeleport),
        PerkType::UnlockTeleportExplosion => owned.contains(PerkType::UnlockTeleport)
            && !owned.contains(PerkType::UnlockTeleportExplosion),
        PerkType::LargerTeleportExplosion => owned.contains(PerkType::UnlockTeleportExplosion),
        PerkType::UnlockHealthRegen => !owned.contains(PerkType::UnlockHealthRegen),
        PerkType::FasterHealthRegen => owned.contains(PerkType::UnlockHealthRegen),
        PerkType::Retaliate => !owned.contains(PerkType::Retaliate),
        _ => true,
    }
}

/// The perks that may be offered, in declaration order.
pub open spec fn eligible_perks_spec(owned: Set<PerkType>) -> Seq<PerkType> {
    all_perk_types_spec().filter(|p: PerkType| is_eligible(p, owned))
}

/// Whether `perks` holds `p`.
pub fn owns_perk(perks: &Vec<PerkType>, p: PerkType) -> (r: bool)
    ensures
        r == perks@.contains(p),
{
    let mut i: usize = 0;
    while i < perks.len()
        invariant
            i <= perks@.len(),
            forall|j: int| 0 <= j < i ==> perks@[j] != p,
        decreases perks@.len() - i,
    {
        if perks[i] == p {
            return true;
        }
        i += 1;
    }
    false
}

fn eligible(p: PerkType, has_grenade: bool, has_teleport: bool, has_teleport_explosion: bool,
    has_health_regen: bool, has_retaliate: bool) -> (r: bool)
    ensures
        forall|owned: Set<PerkType>|
            has_grenade == owned.contains(PerkType::UnlockGrenade)
            && has_teleport == owned.contains(PerkType::UnlockTeleport)
            && has_teleport_explosion == owned.contains(PerkType::UnlockTeleportExplosion)
            && has_health_regen == owned.contains(PerkType::UnlockHealthRegen)
            && has_retaliate == owned.contains(PerkType::Retaliate)
            ==> r == #[trigger] is_eligible(p, owned),
{
    match p {
        PerkType::UnlockGrenade => !has_grenade,
        PerkType::LargerGrenadeExplosion => has_grenade,
        PerkType::ShorterGrenadeCooldown => has_grenade,
        PerkType::UnlockTeleport => !has_teleport,
        PerkType::ShorterTeleportCooldown => has_teleport,
        PerkType::UnlockTeleportExplosion => has_teleport && !has_teleport_explosion,
        PerkType::LargerTeleportExplosion => has_teleport_explosion,
        PerkType::UnlockHealthRegen => !has_health_regen,
        PerkType::FasterHealthRegen => has_health_regen,
        PerkType::Retaliate => !has_retaliate,
        _ => true,
    }
}

proof fn lemma_filter_push(s: Seq<PerkType>, owned: Set<PerkType>, i: int)
    requires
        0 <= i < s.len(),
    ensures
        s.subrange(0, i + 1).filter(|p: PerkType| is_eligible(p, owned)) ==
            if is_eligible(s[i], owned) {
                s.subrange(0, i).filter(|p: PerkType| is_eligible(p, owned)).push(s[i])
            } else {
                s.subrange(0, i).filter(|p: PerkType| is_eligible(p, owned))
            },
{
    let t = s.subrange(0, i + 1);
    assert(t.drop_last() =~= s.subrange(0, i));
    reveal(Seq::filter);
}

/// The perks that may be offered to a player who owns `owned`, in
/// declaration order.
pub fn eligible_perks(owned: &Vec<PerkType>) -> (r: Vec<PerkType>)
    ensures
        r@ == eligible_perks_spec(owned@.to_set()),
        r@.no_duplicates(),
{
    let ghost os = owned@.to_set();
    let has_grenade = owns_perk(owned, PerkType::UnlockGrenade);
    let has_teleport = owns_perk(owned, PerkType::UnlockTeleport);
    let has_teleport_explosion = owns_perk(owned, PerkType::UnlockTeleportExplosion);
    let has_health_regen = owns_perk(owned, PerkType::UnlockHealthRegen);
    let has_retaliate = owns_perk(owned, PerkType::Retaliate);
    proof {
        assert(owned@.contains(PerkType::UnlockGrenade) == os.contains(PerkType::UnlockGrenade));
        assert(owned@.contains(PerkType::UnlockTeleport) == os.contains(PerkType::UnlockTeleport));
        assert(owned@.contains(PerkType::UnlockTeleportExplosion) == os.contains(PerkType::UnlockTeleportExplosion));
        assert(owned@.contains(PerkType::UnlockHealthRegen) == os.contains(PerkType::UnlockHealthRegen));
        assert(owned@.contains(PerkType::Retaliate) == os.contains(PerkType::Retaliate));
    }
    let all = all_perk_types();
    let mut r: Vec<PerkType> = Vec::new();
    let mut i: usize = 0;
    while i < all.len()
        invariant
            i <= all@.len(),
            all@ == all_perk_types_spec(),
            has_grenade == os.contains(PerkType::UnlockGrenade),
            has_teleport == os.contains(PerkType::UnlockTeleport),
            has_teleport_explosion == os.contains(PerkType::UnlockTeleportExplosion),
            has_health_regen == os.contains(PerkType::UnlockHealthRegen),
            has_retaliate == os.contains(PerkType::Retaliate),
            r@ == all@.subrange(0, i as int).filter(|p: PerkType| is_eligible(p, os)),
        decreases all@.len() - i,
    {
        let p = all[i];
        proof { lemma_filter_push(all@, os, i as int); }
        if eligible(p, has_grenade, has_teleport, has_teleport_explosion, has_health_regen, has_retaliate) {
            r.push(p);
        }
        i += 1;
    }
    assert(all@.subrange(0, all@.len() as int) =~= all@);
    proof { lemma_eligible_no_duplicates(os); }
    r
}

proof fn lemma_all_perks_no_duplicates()
    ensures
        all_perk_types_spec().no_duplicates(),
{
    let s = all_perk_types_spec();
    assert forall|i: int, j: int| 0 <= i < s.len() && 0 <= j < s.len() && i != j implies s[i] != s[j] by {
    }
}

proof fn lemma_filter_no_duplicates(s: Seq<PerkType>, owned: Set<PerkType>)
    requires
        s.no_duplicates(),
    ensures
        s.filter(|p: PerkType| is_eligible(p, owned)).no_duplicates(),
        forall|p: PerkType| s.filter(|q: PerkType| is_eligible(q, owned)).contains(p) <==> (s.contains(p) && is_eligible(p, owned)),
    decreases s.len(),
{
    reveal(Seq::filter);
    let f = |p: PerkType| is_eligible(p, owned);
    if s.len() > 0 {
        let t = s.drop_last();
        assert(t.no_duplicates());
        lemma_filter_no_duplicates(t, owned);
        assert forall|p: PerkType| s.contains(p) <==> (t.contains(p) || p == s.last()) by {
            if s.contains(p) {
                let k = s.index_of(p);
                if k < s.len() - 1 {
                    assert(t[k] == p);
                }
            }
            if t.contains(p) {
                let k = t.index_of(p);
                assert(s[k] == p);
            }
        }
        assert(!t.contains(s.last())) by {
            if t.contains(s.last()) {
                let k = t.index_of(s.last());
                assert(s[k] == s[s.len() - 1]);
            }
        }
        assert(s.filter(f) == if f(s.last()) { t.filter(f).push(s.last()) } else { t.filter(f) });
    }
}

proof fn lemma_eligible_no_duplicates(owned: Set<PerkType>)
    ensures
        eligible_perks_spec(owned).no_duplicates(),
        forall|p: PerkType| eligible_perks_spec(owned).contains(p) <==> is_eligible(p, owned),
{
    lemma_all_perks_no_duplicates();
    lemma_filter_no_duplicates(all_perk_types_spec(), owned);
    assert forall|p: PerkType| all_perk_types_spec().contains(p) by {
        let s = all_perk_types_spec();
        match p {
            PerkType::LongerSword => assert(s[0] == p),
            PerkType::WiderSwordSwing => assert(s[1] == p),
            PerkType::ShorterAttackCooldown => assert(s[2] == p),
            PerkType::HigherMaxSpeed => assert(s[3] == p),
            PerkType::HigherMaxHealth => assert(s[4] == p),
            PerkType::Heal => assert(s[5] == p),
            PerkType::UnlockGrenade => assert(s[6] == p),
            PerkType::LargerGrenadeExplosion => assert(s[7] == p),
            PerkType::ShorterGrenadeCooldown => assert(s[8] == p),
            PerkType::UnlockTeleport => assert(s[9] == p),
            PerkType::ShorterTeleportCooldown => assert(s[10] == p),
            PerkType::UnlockTeleportExplosion => assert(s[11] == p),
            PerkType::LargerTeleportExplosion => assert(s[12] == p),
            PerkType::UnlockHealthRegen => assert(s[13] == p),
            PerkType::FasterHealthRegen => assert(s[14] == p),
            PerkType::Retaliate => assert(s[15] == p),
            PerkType::SlowerEnemies => assert(s[16] == p),
        }
    }
}

/// A perk that needs an unlock is never offered without it, and a one-shot
/// perk is never offered once owned.
pub proof fn lemma_eligibility_rules(owned: Set<PerkType>)
    ensures
        eligible_perks_spec(owned).contains(PerkType::LargerGrenadeExplosion) ==> owned.contains(PerkType::UnlockGrenade),
        owned.contains(PerkType::Retaliate) ==> !eligible_perks_spec(owned).contains(PerkType::Retaliate),
        owned.contains(PerkType::UnlockHealthRegen) ==> !eligible_perks_spec(owned).contains(PerkType::UnlockHealthRegen),
        eligible_perks_spec(owned).contains(PerkType::UnlockTeleportExplosion) ==>
            owned.contains(PerkType::UnlockTeleport) && !owned.contains(PerkType::UnlockTeleportExplosion),
        owned.contains(PerkType::UnlockGrenade) ==> !eligible_perks_spec(owned).contains(PerkType::UnlockGrenade),
        !owned.contains(PerkType::UnlockGrenade) ==> eligible_perks_spec(owned).contains(PerkType::UnlockGrenade),
        eligible_perks_spec(owned).contains(PerkType::ShorterAttackCooldown),
{
    lemma_eligible_no_duplicates(owned);
}

impl PerkType {
    /// Chooses up to `amount` distinct random perks among those that may be
    /// offered to a player who owns `existing_perks`; all of them when fewer
    /// are eligible.
    pub fn choose_random_perk_types(rng: &mut StdRng, amount: usize, existing_perks: &Vec<PerkType>) -> (r: Vec<PerkType>)
        ensures
            r@.len() == if amount <= eligible_perks_spec(existing_perks@.to_set()).len() {
                amount as int
            } else {
                eligible_perks_spec(existing_perks@.to_set()).len() as int
            },
            forall|i: int| 0 <= i < r@.len() ==> is_eligible(#[trigger] r@[i], existing_perks@.to_set()),
            r@.no_duplicates(),
    {
        let valid = eligible_perks(existing_perks);
        proof { lemma_eligible_no_duplicates(existing_perks@.to_set()); }
        let ghost v = valid@;
        let r = choose_multiple_of(rng, valid, amount);
        assert forall|i: int| 0 <= i < r@.len() implies is_eligible(#[trigger] r@[i], existing_perks@.to_set()) by {
            assert(v.contains(r@[i]));
        }
        r
    }

    /// The user-facing name of this perk.
    pub open spec fn name_spec(self) -> Seq<char> {
        match self {
            PerkType::LongerSword => "Reach"@,
            PerkType::WiderSwordSwing => "Wider Swing"@,
            PerkType::ShorterAttackCooldown => "Stronger Arms"@,
            PerkType::HigherMaxSpeed => "Stronger Legs"@,
            PerkType::HigherMaxHealth => "Endurance"@,
            PerkType::Heal => "Second Wind"@,
            PerkType::UnlockGrenade => "Secondary action: Grenade"@,
            PerkType::LargerGrenadeExplosion => "Larger Grenades"@,
            PerkType::ShorterGrenadeCooldown => "More Grenades"@,
            PerkType::UnlockTeleport => "Teleportation Device"@,
            PerkType::ShorterTeleportCooldown => "Better Teleporter"@,
            PerkType::UnlockTeleportExplosion => "Spacetime Destabilization"@,
            PerkType::LargerTeleportExplosion => "Increased Spacetime Destabilization"@,
            PerkType::UnlockHealthRegen => "Resilient"@,
            PerkType::FasterHealthRegen => "More Resilient"@,
            PerkType::Retaliate => "Retaliation"@,
            PerkType::SlowerEnemies => "Faster Reflexes"@,
        }
    }

    /// The user-facing description of this perk.
    pub open spec fn description_spec(self) -> Seq<char> {
        match self {
            PerkType::LongerSword => "Increases sword length by 10%"@,
            PerkType::WiderSwordSwing => "Increases sword swing arc by 10%"@,
            PerkType::ShorterAttackCooldown => "Decreases attack cooldown by 10%"@,
            PerkType::HigherMaxSpeed => "Increases max run speed by 10%"@,
            PerkType::HigherMaxHealth => "Increases max health by 10%"@,
            PerkType::Heal => "Heals you to full health"@,
            PerkType::UnlockGrenade => "Allows you to throw grenades that do damage in an area. Replaces any existing secondary action you have."@,
            PerkType::LargerGrenadeExplosion => "Increases grenade explosion radius by 10%"@,
            PerkType::ShorterGrenadeCooldown => "Decreases grenade throw cooldown by 10%"@,
            PerkType::UnlockTeleport => "You may find yourself at the location of your mouse cursor, and you may ask yourself, \"Well, how did I get here?\" (You got there by pressing the space bar.)"@,
            PerkType::ShorterTeleportCooldown => "Decreases the teleport cooldown by 10%"@,
            PerkType::UnlockTeleportExplosion => "When you teleport somewhere, you cause an explosion that kills enemies near your destination"@,
            PerkType::LargerTeleportExplosion => "Increases teleportation explosion radius by 10%"@,
            PerkType::UnlockHealthRegen => "You will slowly regenerate health"@,
            PerkType::FasterHealthRegen => "Increases health regeneration rate by 10%"@,
            PerkType::Retaliate => "When an enemy hits you, they die"@,
            PerkType::SlowerEnemies => "All enemies move 5% slower"@,
        }
    }

    /// Gets the user-facing name and description of this perk type.
    pub fn get_name_and_description(&self) -> (r: (String, String))
        ensures
            r.0@ == self.name_spec(),
            r.1@ == self.description_spec(),
    {
        let (name, desc) = match self {
            PerkType::LongerSword => ("Reach", "Increases sword length by 10%"),
            PerkType::WiderSwordSwing => ("Wider Swing", "Increases sword swing arc by 10%"),
            PerkType::ShorterAttackCooldown => ("Stronger Arms", "Decreases attack cooldown by 10%"),
            PerkType::HigherMaxSpeed => ("Stronger Legs", "Increases max run speed by 10%"),
            PerkType::HigherMaxHealth => ("Endurance", "Increases max health by 10%"),
            PerkType::Heal => ("Second Wind", "Heals you to full health"),
            PerkType::UnlockGrenade => (
                "Secondary action: Grenade",
                "Allows you to throw grenades that do damage in an area. Replaces any existing secondary action you have.",
            ),
            PerkType::LargerGrenadeExplosion => ("Larger Grenades", "Increases grenade explosion radius by 10%"),
            PerkType::ShorterGrenadeCooldown => ("More Grenades", "Decreases grenade throw cooldown by 10%"),
            PerkType::UnlockTeleport => (
                "Teleportation Device",
                "You may find yourself at the location of your mouse cursor, and you may ask yourself, \"Well, how did I get here?\" (You got there by pressing the space bar.)",
            ),
            PerkType::ShorterTeleportCooldown => ("Better Teleporter", "Decreases the teleport cooldown by 10%"),
            PerkType::UnlockTeleportExplosion => (
                "Spacetime Destabilization",
                "When you teleport somewhere, you cause an explosion that kills enemies near your destination",
            ),
            PerkType::LargerTeleportExplosion => (
                "Increased Spacetime Destabilization",
                "Increases teleportation explosion radius by 10%",
            ),
            PerkType::UnlockHealthRegen => ("Resilient", "You will slowly regenerate health"),
            PerkType::FasterHealthRegen => ("More Resilient", "Increases health regeneration rate by 10%"),
            PerkType::Retaliate => ("Retaliation", "When an enemy hits you, they die"),
            PerkType::SlowerEnemies => ("Faster Reflexes", "All enemies move 5% slower"),
        };
        (name.to_owned(), desc.to_owned())
    }
}

} // verus!
