//! The day-night clock: a two-phase state machine driven by elapsed time.
//!
//! Time is counted in whole milliseconds and the daylight and night shares
//! of a cycle in whole percent, so every transition is exact.
use vstd::prelude::*;

verus! {

/// Length of one full day-night cycle, in milliseconds.
pub const DAY_LENGTH_MS: u64 = 60_000;

/// One percent of the cycle, in milliseconds.
pub const MS_PER_PERCENT: u64 = 600;

/// Daylight share of the first cycle, in percent.
pub const START_DAY_PERCENT: u32 = 70;

/// Night share of the first cycle, in percent.
pub const START_NIGHT_PERCENT: u32 = 30;

/// How far each completed cycle moves the two shares, in percent.
pub const PERCENT_STEP: u32 = 5;

/// Lowest share either phase can have, in percent.
pub const MIN_PERCENT: u32 = 10;

/// Highest share either phase can have, in percent.
pub const MAX_PERCENT: u32 = 90;

/// Largest single time step the clock accepts, so that a step never
/// overflows the elapsed-time counter.
pub const MAX_STEP_MS: u64 = 18_446_744_073_709_491_615;

/// A phase change: `DayNightEvent(true)` when night falls, `DayNightEvent(false)`
/// when a new day begins.
#[derive(Clone, Copy, Debug, PartialEq, Eq, Structural)]
pub struct DayNightEvent(pub bool);

/// Time of day, the current daylight and night shares, and the day counter.
#[derive(Clone, Copy, Debug, PartialEq, Eq, Structural)]
pub struct DayNight {
    /// Time elapsed in the current cycle.
    pub time_ms: u64,
    /// Share of the cycle that is daylight, in percent.
    pub day_percent: u32,
    /// Share of the cycle that is night, in percent.
    pub night_percent: u32,
    pub is_night: bool,
    /// Number of the current day, starting at 1.
    pub day: u64,
}

/// `p` held to the range that the two shares may take.
pub open spec fn clamp_percent(p: int) -> int {
    if p < MIN_PERCENT as int {
        MIN_PERCENT as int
    } else if p > MAX_PERCENT as int {
        MAX_PERCENT as int
    } else {
        p
    }
}

/// Light intensity while dusk or dawn tints the world, in per-mille of full
/// daylight: a linear ramp over the tenth of the cycle that ends at nightfall
/// and over the first tenth of the cycle; `None` outside both ramps.
pub open spec fn ramp_intensity(time: int, day_percent: int) -> Option<int> {
    let tenth = DAY_LENGTH_MS as int / 10;
    let at_nightfall = day_percent * MS_PER_PERCENT as int;
    if at_nightfall - tenth < time && time <= at_nightfall {
        Some((at_nightfall - time) * 1000 / tenth)
    } else if 0 < time && time <= tenth {
        Some(time * 1000 / tenth)
    } else {
        None
    }
}

impl DayNight {
    /// The clock's invariant: inside the cycle, with both shares in range,
    /// and night exactly from nightfall to the end of the cycle.
    pub open spec fn wf(self) -> bool {
        &&& self.time_ms < DAY_LENGTH_MS
        &&& MIN_PERCENT <= self.day_percent <= MAX_PERCENT
        &&& MIN_PERCENT <= self.night_percent <= MAX_PERCENT
        &&& self.is_night == (self.time_ms >= self.nightfall())
    }

    /// The moment of the cycle at which night falls, in milliseconds.
    pub open spec fn nightfall(self) -> int {
        self.day_percent * MS_PER_PERCENT as int
    }

    /// The clock after `dt` more milliseconds.
    pub open spec fn next(self, dt: int) -> DayNight {
        let t = self.time_ms + dt;
        if t >= DAY_LENGTH_MS {
            DayNight {
                time_ms: 0,
                day_percent: clamp_percent(self.day_percent - PERCENT_STEP) as u32,
                night_percent: clamp_percent(self.night_percent + PERCENT_STEP) as u32,
                is_night: false,
                day: (self.day + 1) as u64,
            }
        } else if !self.is_night && t >= self.nightfall() {
            DayNight { time_ms: t as u64, is_night: true, ..self }
        } else {
            DayNight { time_ms: t as u64, ..self }
        }
    }

    /// The phase change, if any, that a step of `dt` milliseconds announces.
    pub open spec fn event(self, dt: int) -> Option<DayNightEvent> {
        let t = self.time_ms + dt;
        if t >= DAY_LENGTH_MS {
            Some(DayNightEvent(false))
        } else if !self.is_night && t >= self.nightfall() {
            Some(DayNightEvent(true))
        } else {
            None
        }
    }

    /// A clock at the start of the first day.
    pub fn new() -> (r: DayNight)
        ensures
            r.wf(),
            r.time_ms == 0,
            r.day_percent == START_DAY_PERCENT,
            r.night_percent == START_NIGHT_PERCENT,
            !r.is_night,
            r.day == 1,
    {
        DayNight {
            time_ms: 0,
            day_percent: START_DAY_PERCENT,
            night_percent: START_NIGHT_PERCENT,
            is_night: false,
            day: 1,
        }
    }

    /// Puts the clock back at the start of the first day, as for a new session.
    pub fn reset(&mut self)
        ensures
            *final(self) == DayNight::new_spec(),
    {
        *self = DayNight::new();
    }

    /// The clock of a new session.
    pub open spec fn new_spec() -> DayNight {
        DayNight {
            time_ms: 0,
            day_percent: START_DAY_PERCENT,
            night_percent: START_NIGHT_PERCENT,
            is_night: false,
            day: 1,
        }
    }

    /// Advances the clock by `dt_ms` and reports a phase change.
    ///
    /// Reaching the end of the cycle starts a new day: the time goes back to
    /// zero, the day counter grows by one and the daylight share shrinks
    /// while the night share grows, each by one step and within range.
    /// Otherwise night falls once the time reaches the daylight share.
    pub fn advance(&mut self, dt_ms: u64) -> (r: Option<DayNightEvent>)
        requires
            old(self).wf(),
            dt_ms <= MAX_STEP_MS,
            old(self).day < u64::MAX,
        ensures
            *final(self) == old(self).next(dt_ms as int),
            r == old(self).event(dt_ms as int),
            final(self).wf(),
    {
        let t: u64 = self.time_ms + dt_ms;
        if t >= DAY_LENGTH_MS {
            self.day = self.day + 1;
            self.time_ms = 0;
            self.day_percent = clamp_percent_exec(self.day_percent - PERCENT_STEP);
            self.night_percent = clamp_percent_exec(self.night_percent + PERCENT_STEP);
            self.is_night = false;
            Some(DayNightEvent(false))
        } else if !self.is_night && t >= self.day_percent as u64 * MS_PER_PERCENT {
            self.time_ms = t;
            self.is_night = true;
            Some(DayNightEvent(true))
        } else {
            self.time_ms = t;
            None
        }
    }

    /// Light intensity used to tint sprites while the light changes, in
    /// per-mille of full daylight; `None` when no tint change is due.
    pub fn light_ramp(&self) -> (r: Option<u32>)
        requires
            self.wf(),
        ensures
            r matches Some(v) ==> v <= 1000,
            ramp_intensity(self.time_ms as int, self.day_percent as int) == (match r {
                Some(v) => Some(v as int),
                None => None,
            }),
    {
        let tenth: u64 = DAY_LENGTH_MS / 10;
        let at_nightfall: u64 = self.day_percent as u64 * MS_PER_PERCENT;
        assert(tenth == 6000 && at_nightfall == self.day_percent * 600);
        if at_nightfall - tenth < self.time_ms && self.time_ms <= at_nightfall {
            let d: u64 = at_nightfall - self.time_ms;
            assert(d * 1000 / 6000 <= 1000) by (nonlinear_arith)
                requires
                    d < 6000,
            ;
            Some((d * 1000 / tenth) as u32)
        } else if 0 < self.time_ms && self.time_ms <= tenth {
            let t: u64 = self.time_ms;
            assert(t * 1000 / 6000 <= 1000) by (nonlinear_arith)
                requires
                    t <= 6000,
            ;
            Some((t * 1000 / tenth) as u32)
        } else {
            None
        }
    }

    /// Light intensity for a newly created ground tile, in per-mille: the
    /// ramp where one applies, else dark at night and full in daylight.
    pub fn tile_light(&self) -> (r: u32)
        requires
            self.wf(),
        ensures
            r <= 1000,
            r as int == match ramp_intensity(self.time_ms as int, self.day_percent as int) {
                Some(v) => v,
                None => if self.is_night { 0 } else { 1000 },
            },
    {
        match self.light_ramp() {
            Some(v) => v,
            None => if self.is_night { 0 } else { 1000 },
        }
    }

    /// Time left in the current phase: until nightfall by day, until the next
    /// day by night.
    pub fn phase_time_left_ms(&self) -> (r: u64)
        requires
            self.wf(),
        ensures
            r == if self.is_night {
                DAY_LENGTH_MS - self.time_ms
            } else {
                self.nightfall() - self.time_ms
            },
    {
        if self.is_night {
            DAY_LENGTH_MS - self.time_ms
        } else {
            assert(self.nightfall() == self.day_percent * 600);
            self.day_percent as u64 * MS_PER_PERCENT - self.time_ms
        }
    }
}

fn clamp_percent_exec(p: u32) -> (r: u32)
    ensures
        r == clamp_percent(p as int),
{
    if p < MIN_PERCENT {
        MIN_PERCENT
    } else if p > MAX_PERCENT {
        MAX_PERCENT
    } else {
        p
    }
}

/// A color, each channel in per-mille of full brightness.
#[derive(Clone, Copy, Debug, PartialEq, Eq, Structural)]
pub struct Tint {
    pub r: u32,
    pub g: u32,
    pub b: u32,
}

/// The tint for light intensity `i` (per-mille): the night tint blended
/// linearly towards white as the light grows.
pub open spec fn tint_spec(i: int) -> Tint {
    Tint {
        r: (400 + 600 * i / 1000) as u32,
        g: (400 + 600 * i / 1000) as u32,
        b: (700 + 300 * i / 1000) as u32,
    }
}

/// The tint for light intensity `intensity`, in per-mille.
pub fn tint_for(intensity: u32) -> (r: Tint)
    requires
        intensity <= 1000,
    ensures
        r == tint_spec(intensity as int),
        r.r <= 1000 && r.g <= 1000 && r.b <= 1000,
{
    let i: u64 = intensity as u64;
    assert(600 * i / 1000 <= 600 && 300 * i / 1000 <= 300) by (nonlinear_arith)
        requires
            i <= 1000,
    ;
    let rg = (400 + 600 * i / 1000) as u32;
    Tint { r: rg, g: rg, b: (700 + 300 * i / 1000) as u32 }
}

/// The clock after each step of `dts` in turn.
pub open spec fn run(c: DayNight, dts: Seq<u64>) -> DayNight
    decreases dts.len(),
{
    if dts.len() == 0 {
        c
    } else {
        run(c, dts.drop_last()).next(dts.last() as int)
    }
}

/// How many steps of `dts`, taken in turn from `c`, announce `ev`.
pub open spec fn count_events(c: DayNight, dts: Seq<u64>, ev: DayNightEvent) -> nat
    decreases dts.len(),
{
    if dts.len() == 0 {
        0
    } else {
        count_events(c, dts.drop_last(), ev) + if run(c, dts.drop_last()).event(
            dts.last() as int,
        ) == Some(ev) {
            1nat
        } else {
            0nat
        }
    }
}

/// Every step in `dts` is one that `advance` accepts.
pub open spec fn steps_in_range(dts: Seq<u64>, bound: u64) -> bool {
    forall|i: int| 0 <= i < dts.len() ==> #[trigger] dts[i] <= bound
}

/// However many cycles pass, the clock stays well formed: in particular the
/// daylight and night shares never leave their range. Daylight never grows
/// and night never shrinks.
pub proof fn lemma_shares_stay_in_range(c: DayNight, dts: Seq<u64>)
    requires
        c.wf(),
        steps_in_range(dts, MAX_STEP_MS),
    ensures
        run(c, dts).wf(),
        MIN_PERCENT <= run(c, dts).day_percent <= MAX_PERCENT,
        MIN_PERCENT <= run(c, dts).night_percent <= MAX_PERCENT,
        run(c, dts).day_percent <= c.day_percent,
        run(c, dts).night_percent >= c.night_percent,
    decreases dts.len(),
{
    if dts.len() > 0 {
        let rest = dts.drop_last();
        assert(steps_in_range(rest, MAX_STEP_MS)) by {
            assert forall|i: int| 0 <= i < rest.len() implies #[trigger] rest[i] <= MAX_STEP_MS by {
                assert(rest[i] == dts[i]);
            }
        }
        lemma_shares_stay_in_range(c, rest);
        assert(dts[dts.len() - 1] <= MAX_STEP_MS);
    }
}

/// The day counter grows by exactly one for each new day that the clock
/// announces, and by nothing else.
pub proof fn lemma_one_day_per_cycle(c: DayNight, dts: Seq<u64>)
    requires
        c.wf(),
        steps_in_range(dts, MAX_STEP_MS),
        c.day + dts.len() < u64::MAX,
    ensures
        run(c, dts).day == c.day + count_events(c, dts, DayNightEvent(false)),
        count_events(c, dts, DayNightEvent(false)) <= dts.len(),
    decreases dts.len(),
{
    if dts.len() > 0 {
        let rest = dts.drop_last();
        assert(steps_in_range(rest, MAX_STEP_MS)) by {
            assert forall|i: int| 0 <= i < rest.len() implies #[trigger] rest[i] <= MAX_STEP_MS by {
                assert(rest[i] == dts[i]);
            }
        }
        lemma_one_day_per_cycle(c, rest);
        lemma_shares_stay_in_range(c, rest);
    }
}

/// Night falls exactly once in each cycle: counting the current night at
/// both ends, the nightfalls announced equal the new days announced.
/// This holds for steps no longer than the night of the first cycle
/// (nights only grow); a longer step can carry the clock from daylight
/// straight into the next day.
pub proof fn lemma_one_nightfall_per_cycle(c: DayNight, dts: Seq<u64>)
    requires
        c.wf(),
        steps_in_range(dts, (DAY_LENGTH_MS - c.nightfall()) as u64),
    ensures
        count_events(c, dts, DayNightEvent(true)) + (if c.is_night { 1int } else { 0int })
            == count_events(c, dts, DayNightEvent(false)) + (if run(c, dts).is_night {
            1int
        } else {
            0int
        }),
    decreases dts.len(),
{
    if dts.len() > 0 {
        let bound = (DAY_LENGTH_MS - c.nightfall()) as u64;
        let rest = dts.drop_last();
        assert(steps_in_range(rest, bound)) by {
            assert forall|i: int| 0 <= i < rest.len() implies #[trigger] rest[i] <= bound by {
                assert(rest[i] == dts[i]);
            }
        }
        assert(steps_in_range(rest, MAX_STEP_MS)) by {
            assert forall|i: int| 0 <= i < rest.len() implies #[trigger] rest[i] <= MAX_STEP_MS by {
                assert(rest[i] == dts[i]);
            }
        }
        lemma_one_nightfall_per_cycle(c, rest);
        lemma_shares_stay_in_range(c, rest);
        assert(dts[dts.len() - 1] <= bound);
    }
}

/// Total time of the steps in `dts`.
pub open spec fn total(dts: Seq<u64>) -> int
    decreases dts.len(),
{
    if dts.len() == 0 {
        0
    } else {
        total(dts.drop_last()) + dts.last()
    }
}

/// A new day comes exactly when the time elapsed in the cycle, plus the
/// steps taken, reaches the length of a cycle; until then the clock has
/// simply moved on by the sum of the steps.
pub proof fn lemma_new_day_when_cycle_completes(c: DayNight, dts: Seq<u64>)
    requires
        c.wf(),
        steps_in_range(dts, MAX_STEP_MS),
    ensures
        count_events(c, dts, DayNightEvent(false)) >= 1 <==> c.time_ms + total(dts)
            >= DAY_LENGTH_MS,
        count_events(c, dts, DayNightEvent(false)) == 0 ==> run(c, dts).time_ms == c.time_ms
            + total(dts),
    decreases dts.len(),
{
    if dts.len() > 0 {
        let rest = dts.drop_last();
        assert(steps_in_range(rest, MAX_STEP_MS)) by {
            assert forall|i: int| 0 <= i < rest.len() implies #[trigger] rest[i] <= MAX_STEP_MS by {
                assert(rest[i] == dts[i]);
            }
        }
        lemma_new_day_when_cycle_completes(c, rest);
        lemma_shares_stay_in_range(c, rest);
        assert(dts[dts.len() - 1] <= MAX_STEP_MS);
    }
}

} // verus!
