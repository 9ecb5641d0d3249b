//! Night-time enemy waves: when they come, how many, and how strong.
use crate::clock::DayNight;
use crate::combat::Hp;
use crate::random::random_below;
use crate::weapon::{clamp, FULL_TURN};
use vstd::prelude::*;

verus! {

/// Time between two waves, in milliseconds.
pub const WAVE_INTERVAL_MS: u64 = 1_000;

/// Enemies appear at least this far from the player, in world units.
pub const MIN_SPAWN_DISTANCE: u32 = 600;

/// Enemies appear closer than `MIN_SPAWN_DISTANCE` plus this.
pub const SPAWN_DISTANCE_RANGE: u32 = 600;

/// Weakest strength, in per-mille.
pub const MIN_STRENGTH: u32 = 200;

/// Strongest strength, in per-mille.
pub const MAX_STRENGTH: u32 = 2_000;

/// The strength jitter is drawn in `0..JITTER_DRAW_BOUND`.
pub const JITTER_DRAW_BOUND: u32 = 1_000;

/// Slowest enemy speed, in thousandths of a world unit per second.
pub const BASE_SPEED: u32 = 120_000;

/// Enemies are slower than `BASE_SPEED` plus this.
pub const SPEED_RANGE: u32 = 20_000;

/// The repeating timer that paces the waves.
#[derive(Clone, Copy, Debug, PartialEq, Eq, Structural)]
pub struct SpawnTimer {
    /// Time since the last wave, in milliseconds.
    pub elapsed_ms: u64,
}

/// An enemy that chases the player by night and flees by day.
#[derive(Clone, Copy, Debug, PartialEq, Eq, Structural)]
pub struct Enemy {
    /// Speed, in thousandths of a world unit per second.
    pub speed: u32,
}

/// Where and how strong a new enemy is.
#[derive(Clone, Copy, Debug, PartialEq, Eq, Structural)]
pub struct EnemySpawn {
    /// Direction from the player, in hundredths of a degree.
    pub angle: u32,
    /// Distance from the player, in world units.
    pub distance: u32,
    /// Strength, in per-mille; it scales the enemy and its health.
    pub strength: u32,
    pub hp: Hp,
    pub enemy: Enemy,
}

/// Number of enemies in a wave: a tenth of the night share, rounded half up.
pub open spec fn wave_size_spec(night_percent: int) -> int {
    (night_percent + 5) / 10
}

/// Strength of an enemy on day `day`, given the jitter draw: a base that
/// grows by a tenth each day from one half, moved by up to fifteen
/// hundredths either way, and held to `MIN_STRENGTH..=MAX_STRENGTH`.
pub open spec fn strength_spec(day: int, jitter_draw: int) -> int {
    clamp(day * 100 + 500 + (jitter_draw - 500) * 3 / 10, MIN_STRENGTH as int, MAX_STRENGTH as int)
}

/// The enemy that the draws give on day `day`.
pub open spec fn enemy_spec(
    day: int,
    angle: u32,
    distance_draw: u32,
    jitter_draw: u32,
    speed_draw: u32,
) -> EnemySpawn {
    let strength = strength_spec(day, jitter_draw as int);
    EnemySpawn {
        angle,
        distance: (MIN_SPAWN_DISTANCE + distance_draw) as u32,
        strength: strength as u32,
        hp: Hp((5_000 + 10 * strength) as i64),
        enemy: Enemy { speed: (BASE_SPEED + speed_draw) as u32 },
    }
}

impl SpawnTimer {
    pub fn new() -> (r: SpawnTimer)
        ensures
            r.elapsed_ms == 0,
    {
        SpawnTimer { elapsed_ms: 0 }
    }

    /// Lets `dt_ms` pass; returns whether a wave is due. The timer repeats:
    /// what runs past the interval counts towards the next wave.
    pub fn tick(&mut self, dt_ms: u64) -> (due: bool)
        requires
            old(self).elapsed_ms < WAVE_INTERVAL_MS,
            dt_ms <= u64::MAX - WAVE_INTERVAL_MS,
        ensures
            due == (old(self).elapsed_ms + dt_ms >= WAVE_INTERVAL_MS),
            final(self).elapsed_ms == (old(self).elapsed_ms + dt_ms) % (WAVE_INTERVAL_MS as int),
            final(self).elapsed_ms < WAVE_INTERVAL_MS,
    {
        let t = self.elapsed_ms + dt_ms;
        self.elapsed_ms = t % WAVE_INTERVAL_MS;
        t >= WAVE_INTERVAL_MS
    }
}

/// Number of enemies in a wave for the given night share.
pub fn wave_size(night_percent: u32) -> (r: u32)
    requires
        night_percent <= 100,
    ensures
        r == wave_size_spec(night_percent as int),
{
    (night_percent + 5) / 10
}

/// The enemy that the draws give on day `day`.
pub fn plan_enemy(day: u64, angle: u32, distance_draw: u32, jitter_draw: u32, speed_draw: u32) -> (r:
    EnemySpawn)
    requires
        distance_draw < SPAWN_DISTANCE_RANGE,
        jitter_draw < JITTER_DRAW_BOUND,
        speed_draw < SPEED_RANGE,
    ensures
        r == enemy_spec(day as int, angle, distance_draw, jitter_draw, speed_draw),
        MIN_STRENGTH <= r.strength <= MAX_STRENGTH,
{
    let capped_day: i64 = if day > 100 {
        100
    } else {
        day as i64
    };
    let jitter: i64 = jitter_draw as i64 - 500;
    let shift: i64 = if jitter >= 0 {
        jitter * 3 / 10
    } else {
        -((-jitter * 3 + 9) / 10)
    };
    assert(shift == (jitter_draw as int - 500) * 3 / 10) by (nonlinear_arith)
        requires
            jitter == jitter_draw as int - 500,
            jitter >= 0 ==> shift == jitter * 3 / 10,
            jitter < 0 ==> shift == -((-jitter * 3 + 9) / 10),
    ;
    let raw: i64 = capped_day * 100 + 500 + shift;
    let strength: i64 = if raw < MIN_STRENGTH as i64 {
        MIN_STRENGTH as i64
    } else if raw > MAX_STRENGTH as i64 {
        MAX_STRENGTH as i64
    } else {
        raw
    };
    assert(strength == strength_spec(day as int, jitter_draw as int));
    EnemySpawn {
        angle,
        distance: MIN_SPAWN_DISTANCE + distance_draw,
        strength: strength as u32,
        hp: Hp(5_000 + 10 * strength),
        enemy: Enemy { speed: BASE_SPEED + speed_draw },
    }
}

/// The draws of some enemy of day `day`.
pub open spec fn is_wave_enemy(day: int, e: EnemySpawn) -> bool {
    exists|a: u32, d: u32, j: u32, s: u32|
        a < FULL_TURN && d < SPAWN_DISTANCE_RANGE && j < JITTER_DRAW_BOUND && s < SPEED_RANGE && e
            == #[trigger] enemy_spec(day, a, d, j, s)
}

/// One tick of the wave schedule. By day nothing happens. By night the
/// timer runs, and each time it comes due a wave of `wave_size` enemies is
/// drawn around the player, with random direction, distance, strength and
/// speed.
pub fn spawn_wave(clock: &DayNight, timer: &mut SpawnTimer, dt_ms: u64) -> (r: Vec<EnemySpawn>)
    requires
        clock.wf(),
        old(timer).elapsed_ms < WAVE_INTERVAL_MS,
        dt_ms <= u64::MAX - WAVE_INTERVAL_MS,
    ensures
        final(timer).elapsed_ms < WAVE_INTERVAL_MS,
        !clock.is_night ==> r@.len() == 0 && *final(timer) == *old(timer),
        clock.is_night ==> final(timer).elapsed_ms == (old(timer).elapsed_ms + dt_ms) % (
        WAVE_INTERVAL_MS as int),
        clock.is_night && old(timer).elapsed_ms + dt_ms >= WAVE_INTERVAL_MS ==> r@.len()
            == wave_size_spec(clock.night_percent as int),
        clock.is_night && old(timer).elapsed_ms + dt_ms < WAVE_INTERVAL_MS ==> r@.len() == 0,
        forall|i: int| 0 <= i < r@.len() ==> is_wave_enemy(clock.day as int, #[trigger] r@[i]),
{
    let mut r: Vec<EnemySpawn> = Vec::new();
    if !clock.is_night {
        return r;
    }
    if !timer.tick(dt_ms) {
        return r;
    }
    let n = wave_size(clock.night_percent);
    let mut i: u32 = 0;
    while i < n
        invariant
            i <= n,
            r@.len() == i,
            forall|j: int| 0 <= j < i ==> is_wave_enemy(clock.day as int, #[trigger] r@[j]),
        decreases n - i,
    {
        let angle = random_below(FULL_TURN);
        let distance = random_below(SPAWN_DISTANCE_RANGE);
        let jitter = random_below(JITTER_DRAW_BOUND);
        let speed = random_below(SPEED_RANGE);
        let e = plan_enemy(clock.day, angle, distance, jitter, speed);
        assert(is_wave_enemy(clock.day as int, e));
        r.push(e);
        i = i + 1;
    }
    r
}

/// Whether an enemy leaves the world: only by day, once it has fled out of
/// the player's view.
pub fn flees_out_of_view(is_night: bool, visible: bool) -> (r: bool)
    ensures
        r == (!is_night && !visible),
{
    !is_night && !visible
}

} // verus!
