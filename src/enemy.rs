use vstd::prelude::*;

verus! {

/// The enemy archetypes, in their fixed order.
#[derive(Clone, Copy, Debug, PartialEq, Eq, Hash, Structural)]
pub enum EnemyType {
    Regular,
    SmallAndFast,
    BigAndSlow,
    UltraBigAndSlow,
    Assassin,
    UltraAssassin,
}

/// The display color of an archetype.
#[derive(Clone, Copy, Debug, PartialEq, Eq, Structural)]
pub enum EnemyColor {
    Red,
    SeaGreen,
    OrangeRed,
    Pink,
    Aquamarine,
    White,
}

/// An inclusive range of lengths or speeds, in thousandths of a world unit.
#[derive(Clone, Copy, Debug, PartialEq, Eq, Structural)]
pub struct MilliRange {
    pub min: i64,
    pub max: i64,
}

/// The template from which enemies of one archetype are spawned.
#[derive(Clone, Copy, Debug, PartialEq, Eq, Structural)]
pub struct EnemyParams {
    pub color: EnemyColor,
    pub size: MilliRange,
    pub max_speed: MilliRange,
    pub damage: u64,
    pub xp_reward: u64,
}

pub open spec fn range(min: i64, max: i64) -> MilliRange {
    MilliRange { min, max }
}

pub open spec fn params(
    color: EnemyColor,
    size: MilliRange,
    max_speed: MilliRange,
    damage: u64,
    xp_reward: u64,
) -> EnemyParams {
    EnemyParams { color, size, max_speed, damage, xp_reward }
}

impl EnemyType {
    /// The archetype table.
    pub open spec fn params_spec(self) -> EnemyParams {
        match self {
            EnemyType::Regular => params(EnemyColor::Red, range(4000, 4000), range(15000, 25000), 5, 1),
            EnemyType::SmallAndFast => params(EnemyColor::SeaGreen, range(2500, 2500), range(25000, 35000), 3, 1),
            EnemyType::BigAndSlow => params(EnemyColor::OrangeRed, range(7000, 7000), range(5000, 15000), 10, 1),
            EnemyType::UltraBigAndSlow => params(EnemyColor::Pink, range(8000, 8000), range(10000, 15000), 25, 3),
            EnemyType::Assassin => params(EnemyColor::Aquamarine, range(3000, 3000), range(40000, 50000), 15, 2),
            EnemyType::UltraAssassin => params(EnemyColor::White, range(3000, 3000), range(70000, 80000), 15, 3),
        }
    }

    /// Gets the parameters describing this enemy type.
    pub fn get_params(&self) -> (p: EnemyParams)
        ensures
            p == self.params_spec(),
            p.size.min <= p.size.max,
            p.max_speed.min <= p.max_speed.max,
    {
        match self {
            EnemyType::Regular => EnemyParams {
                color: EnemyColor::Red,
                size: MilliRange { min: 4000, max: 4000 },
                max_speed: MilliRange { min: 15000, max: 25000 },
                damage: 5,
                xp_reward: 1,
            },
            EnemyType::SmallAndFast => EnemyParams {
                color: EnemyColor::SeaGreen,
                size: MilliRange { min: 2500, max: 2500 },
                max_speed: MilliRange { min: 25000, max: 35000 },
                damage: 3,
                xp_reward: 1,
            },
            EnemyType::BigAndSlow => EnemyParams {
                color: EnemyColor::OrangeRed,
                size: MilliRange { min: 7000, max: 7000 },
                max_speed: MilliRange { min: 5000, max: 15000 },
                damage: 10,
                xp_reward: 1,
            },
            EnemyType::UltraBigAndSlow => EnemyParams {
                color: EnemyColor::Pink,
                size: MilliRange { min: 8000, max: 8000 },
                max_speed: MilliRange { min: 10000, max: 15000 },
                damage: 25,
                xp_reward: 3,
            },
            EnemyType::Assassin => EnemyParams {
                color: EnemyColor::Aquamarine,
                size: MilliRange { min: 3000, max: 3000 },
                max_speed: MilliRange { min: 40000, max: 50000 },
                damage: 15,
                xp_reward: 2,
            },
            EnemyType::UltraAssassin => EnemyParams {
                color: EnemyColor::White,
                size: MilliRange { min: 3000, max: 3000 },
                max_speed: MilliRange { min: 70000, max: 80000 },
                damage: 15,
                xp_reward: 3,
            },
        }
    }
}

/// Every archetype, in declaration order.
pub open spec fn all_enemy_types_spec() -> Seq<EnemyType> {
    seq![
        EnemyType::Regular,
        EnemyType::SmallAndFast,
        EnemyType::BigAndSlow,
        EnemyType::UltraBigAndSlow,
        EnemyType::Assassin,
        EnemyType::UltraAssassin,
    ]
}

/// Lists every archetype, in declaration order.
pub fn all_enemy_types() -> (r: Vec<EnemyType>)
    ensures
        r@ == all_enemy_types_spec(),
{
    vec![
        EnemyType::Regular,
        EnemyType::SmallAndFast,
        EnemyType::BigAndSlow,
        EnemyType::UltraBigAndSlow,
        EnemyType::Assassin,
        EnemyType::UltraAssassin,
    ]
}

} // verus!
