//! The state one play session owns, and the notices shown to the player.
use crate::chest::Found;
use crate::clock::{DayNight, DayNightEvent, MAX_STEP_MS};
use crate::combat::Hp;
use crate::inventory::{Inventoty, OfferTaken, TemporaryItems};
use crate::spawn::SpawnTimer;
use crate::weapon::catalog_entry;
use crate::world::TileMap;
use vstd::prelude::*;

verus! {

/// The player's health at the start of a session, in thousandths of a hit point.
pub const START_HP: i64 = 100_000;

/// The player's energy at the start of a session.
pub const START_ENERGY: i32 = 100;

/// How long a notice stays on screen, in milliseconds.
pub const NOTICE_MS: u64 = 5_000;

/// Something the player is told about.
#[derive(Debug)]
pub enum Notice {
    /// What a chest gave.
    Loot(Vec<Found>),
    /// A confirmed offer, and the name of what was taken.
    Confirmed(OfferTaken, &'static str),
    /// Night fell (`true`) or a new day began (`false`).
    PhaseChanged(bool),
}

/// The latest notice and when it was given.
#[derive(Debug)]
pub struct UiLog {
    pub last_message: Option<Notice>,
    /// When the notice was given, in milliseconds of session time.
    pub message_time_stamp: u64,
}

impl UiLog {
    pub fn new() -> (r: UiLog)
        ensures
            r.last_message is None,
            r.message_time_stamp == 0,
    {
        UiLog { last_message: None, message_time_stamp: 0 }
    }

    /// Replaces the notice with `notice`, given at `now_ms`.
    pub fn record(&mut self, notice: Notice, now_ms: u64)
        ensures
            final(self).last_message == Some(notice),
            final(self).message_time_stamp == now_ms,
    {
        self.last_message = Some(notice);
        self.message_time_stamp = now_ms;
    }

    /// Whether a notice is on screen at `now_ms`.
    pub fn is_showing(&self, now_ms: u64) -> (r: bool)
        ensures
            r == (self.last_message is Some && now_ms - self.message_time_stamp < NOTICE_MS),
    {
        self.last_message.is_some() && (now_ms < self.message_time_stamp || now_ms
            - self.message_time_stamp < NOTICE_MS)
    }
}

/// Everything a play session owns besides its entities.
#[derive(Debug)]
pub struct Session {
    pub clock: DayNight,
    pub map: TileMap,
    pub inventory: Inventoty,
    pub temporary: TemporaryItems,
    pub log: UiLog,
    pub spawn_timer: SpawnTimer,
}

impl Session {
    /// The state at the start of a session.
    pub open spec fn is_fresh(&self) -> bool {
        &&& self.clock == DayNight::new_spec()
        &&& self.map.wf()
        &&& self.map@.tiles.is_empty()
        &&& self.map@.spawned.is_empty()
        &&& self.map@.last == (0i32, 0i32)
        &&& self.inventory.turret == Some(catalog_entry(0))
        &&& self.temporary.weapon is None
        &&& self.temporary.turret is None
        &&& self.temporary.timestamp_ms == 0
        &&& self.log.last_message is None
        &&& self.log.message_time_stamp == 0
        &&& self.spawn_timer.elapsed_ms == 0
    }

    pub fn new() -> (r: Session)
        ensures
            r.is_fresh(),
    {
        Session {
            clock: DayNight::new(),
            map: TileMap::new(),
            inventory: Inventoty::default(),
            temporary: TemporaryItems::default(),
            log: UiLog::new(),
            spawn_timer: SpawnTimer::new(),
        }
    }

    /// Advances the session's clock by `dt_ms` at session time `now_ms`; a
    /// phase change is announced and recorded as the latest notice.
    pub fn advance_clock(&mut self, dt_ms: u64, now_ms: u64) -> (r: Option<DayNightEvent>)
        requires
            old(self).clock.wf(),
            dt_ms <= MAX_STEP_MS,
            old(self).clock.day < u64::MAX,
        ensures
            final(self).clock == old(self).clock.next(dt_ms as int),
            r == old(self).clock.event(dt_ms as int),
            final(self).clock.wf(),
            r matches Some(e) ==> final(self).log == (UiLog {
                last_message: Some(Notice::PhaseChanged(e.0)),
                message_time_stamp: now_ms,
            }),
            r is None ==> final(self).log == old(self).log,
            final(self).map == old(self).map,
            final(self).inventory == old(self).inventory,
            final(self).temporary == old(self).temporary,
            final(self).spawn_timer == old(self).spawn_timer,
    {
        let r = self.clock.advance(dt_ms);
        if let Some(e) = r {
            self.log.record(Notice::PhaseChanged(e.0), now_ms);
        }
        r
    }

    /// Starts the session over: clock, world, inventory, offers, notices
    /// and wave timer all go back to their initial state.
    pub fn reset(&mut self)
        ensures
            final(self).is_fresh(),
    {
        *self = Session::new();
    }
}

/// How the player's health is shown.
#[derive(Clone, Copy, Debug, PartialEq, Eq, Structural)]
pub enum HealthBand {
    /// Above seventy hit points.
    Good,
    /// Above thirty-five hit points.
    Wounded,
    /// Some health left, thirty-five hit points or less.
    Critical,
    /// No health left.
    Dead,
}

/// The band that health `hp` falls in.
pub fn health_band(hp: Hp) -> (r: HealthBand)
    ensures
        r == if hp.0 <= 0 {
            HealthBand::Dead
        } else if hp.0 > 70_000 {
            HealthBand::Good
        } else if hp.0 > 35_000 {
            HealthBand::Wounded
        } else {
            HealthBand::Critical
        },
{
    if hp.0 <= 0 {
        HealthBand::Dead
    } else if hp.0 > 70_000 {
        HealthBand::Good
    } else if hp.0 > 35_000 {
        HealthBand::Wounded
    } else {
        HealthBand::Critical
    }
}

/// A span in milliseconds as whole minutes and the seconds left over.
pub fn minutes_seconds(ms: u64) -> (r: (u64, u64))
    ensures
        r.0 * 60 + r.1 == ms / 1000,
        r.1 < 60,
{
    let s = ms / 1000;
    (s / 60, s % 60)
}

} // verus!
