//! The rules of a top-down survival game, verified: countdown timers, a
//! weighted enemy spawner whose pace and mix drift over time, XP and levels,
//! perks and the player loadout they change, collision outcomes, and the
//! per-tick decisions of a session. Lengths are in thousandths of a world
//! unit and durations in nanoseconds; drawing, physics and sound are left to
//! the caller.

pub mod timer;
pub mod random;
pub mod enemy;
pub mod spawn;
pub mod level;
pub mod health;
pub mod perk;
pub mod loadout;
pub mod combat;
pub mod session;
pub mod screens;
