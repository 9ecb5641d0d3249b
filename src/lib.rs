//! The simulation core of a top-down survival game: a day-night clock that
//! paces enemy waves, weapons that fan one aim out into volleys, turrets
//! that pick the nearest enemy, projectiles that hit once, chests stocked at
//! random, and a window of ground tiles streamed around the player.
//!
//! Everything is counted in whole units: milliseconds, hundredths of a
//! degree, world units, and thousandths of a hit point.
pub mod animation;
pub mod chest;
pub mod clock;
pub mod combat;
pub mod geometry;
pub mod inventory;
mod random;
pub mod session;
pub mod spawn;
pub mod weapon;
pub mod world;

pub use chest::{open_chest, Chest, Found, Item, ItemType};
pub use clock::{DayNight, DayNightEvent};
pub use combat::{Bullet, Hp, Turret};
pub use inventory::{Inventoty, TemporaryItems};
pub use session::UiLog;
pub use spawn::{Enemy, SpawnTimer};
pub use weapon::{Energy, Weapon, WeaponPattern};
pub use world::TileMap;
