//! Health and damage, turret target acquisition, and projectile collisions.
//!
//! Health is counted in thousandths of a hit point.
use crate::geometry::{dist2, distance_squared, Point};
use crate::weapon::Shot;
use vstd::prelude::*;

verus! {

/// A turret only acquires enemies closer than this squared distance.
pub const ACQUISITION_RADIUS_SQUARED: u128 = 1_000_000;

/// A projectile hits an enemy within this squared distance.
pub const HIT_RADIUS_SQUARED: u128 = 625;

/// An enemy within this squared distance of the player drains its health.
pub const CONTACT_RADIUS_SQUARED: u128 = 2_500;

/// Health an enemy in contact drains per millisecond, in thousandths of a hit point.
pub const CONTACT_DRAIN_PER_MS: u64 = 2;

/// A projectile this old is removed without effect, in milliseconds.
pub const BULLET_LIFETIME_MS: u64 = 5_000;

/// Health, in thousandths of a hit point.
#[derive(Clone, Copy, Debug, PartialEq, Eq, Structural)]
pub struct Hp(pub i64);

/// Health `h` after `d` damage, held at zero from below.
pub open spec fn damaged(h: int, d: int) -> int {
    if h <= d {
        0
    } else {
        h - d
    }
}

impl Hp {
    /// The health after `damage`, held at zero from below.
    pub fn after_damage(self, damage: u64) -> (r: Hp)
        ensures
            r.0 == damaged(self.0 as int, damage as int),
    {
        if self.0 as i128 <= damage as i128 {
            Hp(0)
        } else {
            Hp(self.0 - damage as i64)
        }
    }

    /// Whether health has run out.
    pub fn is_dead(&self) -> (r: bool)
        ensures
            r == (self.0 <= 0),
    {
        self.0 <= 0
    }
}

/// A living enemy as the rest of the world sees it.
#[derive(Clone, Copy, Debug, PartialEq, Eq, Structural)]
pub struct Sighting {
    /// The enemy's identity, unique among living enemies and never reused.
    pub id: u64,
    pub position: Point,
}

/// A turret's memory of the enemy it aims at.
#[derive(Clone, Copy, Debug, PartialEq, Eq, Structural)]
pub struct Turret {
    pub target: Option<u64>,
}

/// Enemy `e` is close enough for a turret at `from` to acquire it.
pub open spec fn acquirable(from: Point, e: Sighting) -> bool {
    dist2(from, e.position) < ACQUISITION_RADIUS_SQUARED
}

/// `enemies[i]` is the nearest acquirable enemy, and the first of those
/// equally near.
pub open spec fn is_nearest(from: Point, enemies: Seq<Sighting>, i: int) -> bool {
    &&& 0 <= i < enemies.len()
    &&& acquirable(from, enemies[i])
    &&& forall|j: int|
        0 <= j < enemies.len() && acquirable(from, #[trigger] enemies[j]) ==> dist2(
            from,
            enemies[i].position,
        ) <= dist2(from, enemies[j].position)
    &&& forall|j: int|
        0 <= j < i && acquirable(from, #[trigger] enemies[j]) ==> dist2(from, enemies[i].position)
            < dist2(from, enemies[j].position)
}

/// Some enemy is close enough to acquire.
pub open spec fn any_acquirable(from: Point, enemies: Seq<Sighting>) -> bool {
    exists|j: int| 0 <= j < enemies.len() && acquirable(from, #[trigger] enemies[j])
}

/// Enemy `id` is among `enemies`.
pub open spec fn is_alive(enemies: Seq<Sighting>, id: u64) -> bool {
    exists|j: int| 0 <= j < enemies.len() && (#[trigger] enemies[j]).id == id
}

/// The index of the nearest enemy that a turret at `from` can acquire, the
/// first of those equally near; `None` where none is close enough.
pub fn nearest_enemy(from: Point, enemies: &Vec<Sighting>) -> (r: Option<usize>)
    ensures
        r is None <==> !any_acquirable(from, enemies@),
        r matches Some(i) ==> is_nearest(from, enemies@, i as int),
{
    let mut best: Option<usize> = None;
    let mut best_dist: u128 = 0;
    let mut i: usize = 0;
    while i < enemies.len()
        invariant
            i <= enemies@.len(),
            best is None <==> !exists|j: int| 0 <= j < i && acquirable(from, #[trigger] enemies@[j]),
            best matches Some(b) ==> {
                &&& b < i
                &&& best_dist == dist2(from, enemies@[b as int].position)
                &&& acquirable(from, enemies@[b as int])
                &&& forall|j: int|
                    0 <= j < i && acquirable(from, #[trigger] enemies@[j]) ==> best_dist <= dist2(
                        from,
                        enemies@[j].position,
                    )
                &&& forall|j: int|
                    0 <= j < b && acquirable(from, #[trigger] enemies@[j]) ==> best_dist < dist2(
                        from,
                        enemies@[j].position,
                    )
            },
        decreases enemies@.len() - i,
    {
        let d = distance_squared(from, enemies[i].position);
        if d < ACQUISITION_RADIUS_SQUARED {
            match best {
                None => {
                    best = Some(i);
                    best_dist = d;
                },
                Some(_) => {
                    if d < best_dist {
                        best = Some(i);
                        best_dist = d;
                    }
                },
            }
        }
        i = i + 1;
    }
    best
}

/// Whether enemy `id` is among `enemies`.
pub fn find_enemy(enemies: &Vec<Sighting>, id: u64) -> (r: bool)
    ensures
        r == is_alive(enemies@, id),
{
    let mut i: usize = 0;
    while i < enemies.len()
        invariant
            i <= enemies@.len(),
            forall|j: int| 0 <= j < i ==> (#[trigger] enemies@[j]).id != id,
        decreases enemies@.len() - i,
    {
        if enemies[i].id == id {
            return true;
        }
        i = i + 1;
    }
    false
}

impl Default for Turret {
    fn default() -> (r: Turret)
        ensures
            r.target is None,
    {
        Turret { target: None }
    }
}

impl Turret {
    /// One tick of target keeping for a turret at `position`, given the
    /// living enemies.
    ///
    /// Without a target the turret acquires the nearest enemy in range, if
    /// any. A target that is no longer among the living is dropped.
    pub fn check_for_enemy(&mut self, position: Point, enemies: &Vec<Sighting>)
        ensures
            old(self).target is None ==> {
                &&& final(self).target is None <==> !any_acquirable(position, enemies@)
                &&& final(self).target matches Some(id) ==> exists|i: int|
                    is_nearest(position, enemies@, i) && (#[trigger] enemies@[i]).id == id
            },
            old(self).target matches Some(id) ==> final(self).target == if is_alive(
                enemies@,
                id,
            ) {
                Some(id)
            } else {
                None
            },
    {
        match self.target {
            None => {
                match nearest_enemy(position, enemies) {
                    Some(i) => {
                        self.target = Some(enemies[i].id);
                    },
                    None => {},
                }
            },
            Some(id) => {
                if !find_enemy(enemies, id) {
                    self.target = None;
                }
            },
        }
    }

    /// The position of the enemy the turret aims at, if it is still alive.
    pub fn target_position(&self, enemies: &Vec<Sighting>) -> (r: Option<Point>)
        ensures
            r matches Some(p) ==> exists|j: int|
                0 <= j < enemies@.len() && Some((#[trigger] enemies@[j]).id) == self.target
                    && enemies@[j].position == p,
            r is None ==> self.target is None || !is_alive(enemies@, self.target.unwrap()),
    {
        match self.target {
            None => None,
            Some(id) => {
                let mut i: usize = 0;
                while i < enemies.len()
                    invariant
                        i <= enemies@.len(),
                        self.target == Some(id),
                        forall|j: int| 0 <= j < i ==> (#[trigger] enemies@[j]).id != id,
                    decreases enemies@.len() - i,
                {
                    if enemies[i].id == id {
                        return Some(enemies[i].position);
                    }
                    i = i + 1;
                }
                None
            },
        }
    }
}

/// A projectile in flight.
#[derive(Clone, Copy, Debug, PartialEq, Eq, Structural)]
pub struct Bullet {
    /// Damage on a hit, in thousandths of a hit point.
    pub damage: u64,
    /// Speed, in world units per second.
    pub speed: u32,
    /// Time in flight, in milliseconds.
    pub age_ms: u64,
}

/// An enemy that projectiles can hit.
#[derive(Clone, Copy, Debug, PartialEq, Eq, Structural)]
pub struct Target {
    pub position: Point,
    pub hp: Hp,
}

/// What became of a projectile this tick.
#[derive(Clone, Copy, Debug, PartialEq, Eq, Structural)]
pub enum BulletFate {
    /// It grew too old and is removed without effect.
    Expired,
    /// It hit the target of this index and is removed.
    Hit(usize),
    /// It flies on.
    Flying,
}

/// Target `t` is within reach of a projectile at `at`.
pub open spec fn in_hit_range(at: Point, t: Target) -> bool {
    dist2(at, t.position) <= HIT_RADIUS_SQUARED
}

/// `i` is the first target within reach of a projectile at `at`.
pub open spec fn is_first_hit(at: Point, targets: Seq<Target>, i: int) -> bool {
    &&& 0 <= i < targets.len()
    &&& in_hit_range(at, targets[i])
    &&& forall|j: int| 0 <= j < i ==> !in_hit_range(at, #[trigger] targets[j])
}

impl Bullet {
    /// A fresh projectile with the given damage and speed.
    pub fn new(damage: u64, speed: u32) -> (r: Bullet)
        ensures
            r == (Bullet { damage, speed, age_ms: 0 }),
    {
        Bullet { damage, speed, age_ms: 0 }
    }

    /// The projectile that `shot` launches, with its damage and speed.
    pub fn from_shot(shot: &Shot) -> (r: Bullet)
        ensures
            r == (Bullet { damage: shot.damage, speed: shot.speed, age_ms: 0 }),
    {
        Bullet { damage: shot.damage, speed: shot.speed, age_ms: 0 }
    }

    /// Lets `dt_ms` of flight pass.
    pub fn age_by(&mut self, dt_ms: u64)
        requires
            old(self).age_ms + dt_ms <= u64::MAX,
        ensures
            *final(self) == (Bullet { age_ms: (old(self).age_ms + dt_ms) as u64, ..*old(self) }),
    {
        self.age_ms = self.age_ms + dt_ms;
    }

    /// Resolves the projectile, now at `at`, against the targets.
    ///
    /// A projectile at the end of its lifetime expires and touches nothing.
    /// Otherwise the first target in reach takes its damage and the
    /// projectile is spent; a projectile never hits more than one target.
    pub fn resolve(&self, at: Point, targets: &mut Vec<Target>) -> (r: BulletFate)
        ensures
            self.age_ms >= BULLET_LIFETIME_MS ==> r == BulletFate::Expired && final(targets)@
                == old(targets)@,
            self.age_ms < BULLET_LIFETIME_MS ==> match r {
                BulletFate::Hit(i) => {
                    &&& is_first_hit(at, old(targets)@, i as int)
                    &&& final(targets)@ == old(targets)@.update(
                        i as int,
                        Target {
                            hp: Hp(damaged(old(targets)@[i as int].hp.0 as int, self.damage as int) as i64),
                            ..old(targets)@[i as int]
                        },
                    )
                },
                BulletFate::Flying => {
                    &&& forall|j: int|
                        0 <= j < old(targets)@.len() ==> !in_hit_range(at, #[trigger] old(targets)@[j])
                    &&& final(targets)@ == old(targets)@
                },
                BulletFate::Expired => false,
            },
    {
        if self.age_ms >= BULLET_LIFETIME_MS {
            return BulletFate::Expired;
        }
        let mut i: usize = 0;
        while i < targets.len()
            invariant
                i <= targets@.len(),
                self.age_ms < BULLET_LIFETIME_MS,
                targets@ == old(targets)@,
                forall|j: int| 0 <= j < i ==> !in_hit_range(at, #[trigger] targets@[j]),
            decreases targets@.len() - i,
        {
            if distance_squared(at, targets[i].position) <= HIT_RADIUS_SQUARED {
                let hit = targets[i];
                let hp = hit.hp.after_damage(self.damage);
                targets.set(i, Target { hp, ..hit });
                return BulletFate::Hit(i);
            }
            i = i + 1;
        }
        BulletFate::Flying
    }

    /// One tick for the projectile: it ages by `dt_ms`, then is resolved at
    /// `at`, where it has moved to. A projectile that was already at the end
    /// of its lifetime when the tick began expires, whatever lies at `at`;
    /// otherwise, still young, it damages the first target in reach and is
    /// spent, or flies on where none is in reach.
    pub fn step(&mut self, dt_ms: u64, at: Point, targets: &mut Vec<Target>) -> (r: BulletFate)
        requires
            old(self).age_ms + dt_ms <= u64::MAX,
        ensures
            *final(self) == (Bullet { age_ms: (old(self).age_ms + dt_ms) as u64, ..*old(self) }),
            final(self).age_ms >= BULLET_LIFETIME_MS ==> r == BulletFate::Expired
                && final(targets)@ == old(targets)@,
            old(self).age_ms >= BULLET_LIFETIME_MS ==> r == BulletFate::Expired
                && final(targets)@ == old(targets)@,
            final(self).age_ms < BULLET_LIFETIME_MS ==> match r {
                BulletFate::Hit(i) => {
                    &&& is_first_hit(at, old(targets)@, i as int)
                    &&& final(targets)@ == old(targets)@.update(
                        i as int,
                        Target {
                            hp: Hp(damaged(old(targets)@[i as int].hp.0 as int, old(self).damage as int) as i64),
                            ..old(targets)@[i as int]
                        },
                    )
                },
                BulletFate::Flying => {
                    &&& forall|j: int|
                        0 <= j < old(targets)@.len() ==> !in_hit_range(at, #[trigger] old(targets)@[j])
                    &&& final(targets)@ == old(targets)@
                },
                BulletFate::Expired => false,
            },
    {
        self.age_by(dt_ms);
        self.resolve(at, targets)
    }
}

/// How many of `enemies` are in contact with the player at `player`.
pub open spec fn contacts(player: Point, enemies: Seq<Point>) -> int
    decreases enemies.len(),
{
    if enemies.len() == 0 {
        0
    } else {
        contacts(player, enemies.drop_last()) + if dist2(player, enemies.last())
            <= CONTACT_RADIUS_SQUARED {
            1int
        } else {
            0int
        }
    }
}

/// Health `h` after `k` drains of `d` each, held at zero from below.
pub open spec fn drained(h: int, k: int, d: int) -> int {
    if k == 0 {
        h
    } else {
        damaged(h, k * d)
    }
}

/// Every enemy in contact with the player drains its health for `dt_ms`,
/// at `CONTACT_DRAIN_PER_MS`; the health is held at zero from below.
pub fn contact_damage(hp: &mut Hp, player: Point, enemies: &Vec<Point>, dt_ms: u64)
    requires
        dt_ms <= u64::MAX / 2,
    ensures
        final(hp).0 == drained(
            old(hp).0 as int,
            contacts(player, enemies@),
            (CONTACT_DRAIN_PER_MS * dt_ms) as int,
        ),
{
    let drain: u64 = CONTACT_DRAIN_PER_MS * dt_ms;
    let ghost h0 = hp.0 as int;
    let mut i: usize = 0;
    while i < enemies.len()
        invariant
            i <= enemies@.len(),
            drain == CONTACT_DRAIN_PER_MS * dt_ms,
            hp.0 == drained(h0, contacts(player, enemies@.take(i as int)), drain as int),
            0 <= contacts(player, enemies@.take(i as int)) <= i,
        decreases enemies@.len() - i,
    {
        let ghost k = contacts(player, enemies@.take(i as int));
        assert(enemies@.take(i + 1).drop_last() =~= enemies@.take(i as int));
        if distance_squared(player, enemies[i]) <= CONTACT_RADIUS_SQUARED {
            *hp = hp.after_damage(drain);
            proof {
                let d = drain as int;
                assert((k + 1) * d == k * d + d) by (nonlinear_arith);
                assert(0 <= k * d) by (nonlinear_arith)
                    requires
                        0 <= k,
                        0 <= d,
                ;
            }
        }
        i = i + 1;
    }
    assert(enemies@.take(enemies@.len() as int) =~= enemies@);
}

} // verus!
