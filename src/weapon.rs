//! Weapons: the catalog of named patterns, the fan-out of one aim into
//! several shots, and the firing rules shared by the player and turrets.
//!
//! Angles are whole hundredths of a degree in `0..FULL_TURN`, turning
//! counter-clockwise from straight ahead (the +y axis); distances are world
//! units.
use vstd::prelude::*;

verus! {

/// A full turn, in hundredths of a degree.
pub const FULL_TURN: u32 = 36_000;

/// How far ahead of the shooter every shot starts.
pub const MUZZLE_DISTANCE: i32 = 25;

/// Damage of every shot, in thousandths of a hit point.
pub const SHOT_DAMAGE: u64 = 1_000;

/// Speed of every shot, in world units per second.
pub const SHOT_SPEED: u32 = 300;

/// Ceiling on the player's energy after a shot is paid for.
pub const MAX_FIRING_ENERGY: i32 = 500;

/// Number of entries in the weapon catalog.
pub const CATALOG_LEN: usize = 5;

/// The geometric rule that turns one aim into a volley.
#[derive(Clone, Copy, Debug, PartialEq, Eq, Structural)]
pub enum WeaponPattern {
    /// One shot straight ahead.
    Single,
    /// Two shots, one each side of the aim.
    TwoShot,
    /// Six parallel shots side by side.
    SixRay,
    /// Six shots in a ring.
    SixAround,
    /// Twelve shots in a ring.
    ManyAround,
}

/// A weapon: its name, pattern and cooldown, and the time since it last fired.
#[derive(Clone, Copy, Debug)]
pub struct Weapon {
    /// Least time between two volleys, in milliseconds.
    pub cooldown_ms: u64,
    /// Time since the last volley, in milliseconds.
    pub since_shot_ms: u64,
    pub pattern: WeaponPattern,
    pub name: &'static str,
}

/// The player's energy, spent on shots and refilled from chests.
#[derive(Clone, Copy, Debug, PartialEq, Eq, Structural)]
pub struct Energy(pub i32);

/// One shot of a volley, placed relative to the shooter.
#[derive(Clone, Copy, Debug, PartialEq, Eq, Structural)]
pub struct Shot {
    /// Direction of flight, in `0..FULL_TURN`.
    pub direction: u32,
    /// Offset of the start point across the shot, to its right when positive.
    pub lateral: i32,
    /// Offset of the start point along the shot's own direction.
    pub forward: i32,
    /// Damage on a hit, in thousandths of a hit point.
    pub damage: u64,
    /// Speed, in world units per second.
    pub speed: u32,
}

/// Number of shots in a volley of `p`; a volley costs as much energy.
pub open spec fn shot_count(p: WeaponPattern) -> int {
    match p {
        WeaponPattern::Single => 1,
        WeaponPattern::TwoShot => 2,
        WeaponPattern::SixRay => 6,
        WeaponPattern::SixAround => 6,
        WeaponPattern::ManyAround => 12,
    }
}

/// Direction of the `i`-th shot of `p`, relative to the aim.
pub open spec fn shot_turn(p: WeaponPattern, i: int) -> int {
    match p {
        WeaponPattern::TwoShot => if i == 0 { -1125 } else { 1125 },
        WeaponPattern::SixAround => 6000 * i,
        WeaponPattern::ManyAround => 3000 * i,
        _ => 0,
    }
}

/// Sideways offset of the `i`-th shot of `p`.
pub open spec fn shot_lateral(p: WeaponPattern, i: int) -> int {
    match p {
        WeaponPattern::SixRay => if i < 3 { 5 * i - 15 } else { 5 * i - 10 },
        _ => 0,
    }
}

/// An angle brought into `0..FULL_TURN`.
pub open spec fn normalize_angle(a: int) -> int {
    a % (FULL_TURN as int)
}

/// The volley of `p` fired with aim `aim`.
pub open spec fn volley(p: WeaponPattern, aim: int) -> Seq<Shot> {
    Seq::new(
        shot_count(p) as nat,
        |i: int|
            Shot {
                direction: normalize_angle(aim + shot_turn(p, i)) as u32,
                lateral: shot_lateral(p, i) as i32,
                forward: MUZZLE_DISTANCE,
                damage: SHOT_DAMAGE,
                speed: SHOT_SPEED,
            },
    )
}

/// `e` held to `lo..=hi`.
pub open spec fn clamp(e: int, lo: int, hi: int) -> int {
    if e < lo {
        lo
    } else if e > hi {
        hi
    } else {
        e
    }
}

/// The `i`-th entry of the weapon catalog.
pub open spec fn catalog_entry(i: int) -> Weapon {
    if i == 0 {
        Weapon { cooldown_ms: 100, since_shot_ms: 0, pattern: WeaponPattern::Single, name: "Fast Eradictor" }
    } else if i == 1 {
        Weapon { cooldown_ms: 150, since_shot_ms: 0, pattern: WeaponPattern::TwoShot, name: "Double Penetrator" }
    } else if i == 2 {
        Weapon { cooldown_ms: 400, since_shot_ms: 0, pattern: WeaponPattern::SixRay, name: "Six Paths Destroyer" }
    } else if i == 3 {
        Weapon { cooldown_ms: 300, since_shot_ms: 0, pattern: WeaponPattern::SixAround, name: "Protector MK2" }
    } else {
        Weapon { cooldown_ms: 200, since_shot_ms: 0, pattern: WeaponPattern::ManyAround, name: "Protector MK4" }
    }
}

/// The `i`-th entry of the weapon catalog.
pub fn catalog_weapon(i: usize) -> (w: Weapon)
    requires
        i < CATALOG_LEN,
    ensures
        w == catalog_entry(i as int),
{
    if i == 0 {
        Weapon { cooldown_ms: 100, since_shot_ms: 0, pattern: WeaponPattern::Single, name: "Fast Eradictor" }
    } else if i == 1 {
        Weapon { cooldown_ms: 150, since_shot_ms: 0, pattern: WeaponPattern::TwoShot, name: "Double Penetrator" }
    } else if i == 2 {
        Weapon { cooldown_ms: 400, since_shot_ms: 0, pattern: WeaponPattern::SixRay, name: "Six Paths Destroyer" }
    } else if i == 3 {
        Weapon { cooldown_ms: 300, since_shot_ms: 0, pattern: WeaponPattern::SixAround, name: "Protector MK2" }
    } else {
        Weapon { cooldown_ms: 200, since_shot_ms: 0, pattern: WeaponPattern::ManyAround, name: "Protector MK4" }
    }
}

/// The whole weapon catalog, in order.
pub fn weapon_catalog() -> (r: Vec<Weapon>)
    ensures
        r@.len() == CATALOG_LEN,
        forall|i: int| 0 <= i < CATALOG_LEN ==> #[trigger] r@[i] == catalog_entry(i),
{
    let mut r: Vec<Weapon> = Vec::new();
    let mut i: usize = 0;
    while i < CATALOG_LEN
        invariant
            i <= CATALOG_LEN,
            r@.len() == i,
            forall|j: int| 0 <= j < i ==> #[trigger] r@[j] == catalog_entry(j),
        decreases CATALOG_LEN - i,
    {
        r.push(catalog_weapon(i));
        i = i + 1;
    }
    r
}

/// Number of shots in a volley of `p`.
fn shot_count_exec(p: WeaponPattern) -> (r: usize)
    ensures
        r == shot_count(p),
{
    match p {
        WeaponPattern::Single => 1,
        WeaponPattern::TwoShot => 2,
        WeaponPattern::SixRay => 6,
        WeaponPattern::SixAround => 6,
        WeaponPattern::ManyAround => 12,
    }
}

/// Energy that a volley of `p` costs.
pub fn shot_cost(p: WeaponPattern) -> (r: i32)
    ensures
        r == shot_count(p),
{
    shot_count_exec(p) as i32
}

fn shot_turn_exec(p: WeaponPattern, i: usize) -> (r: i32)
    requires
        i < shot_count(p),
    ensures
        r == shot_turn(p, i as int),
{
    match p {
        WeaponPattern::TwoShot => if i == 0 {
            -1125
        } else {
            1125
        },
        WeaponPattern::SixAround => 6000 * i as i32,
        WeaponPattern::ManyAround => 3000 * i as i32,
        _ => 0,
    }
}

fn shot_lateral_exec(p: WeaponPattern, i: usize) -> (r: i32)
    requires
        i < shot_count(p),
    ensures
        r == shot_lateral(p, i as int),
{
    match p {
        WeaponPattern::SixRay => if i < 3 {
            5 * i as i32 - 15
        } else {
            5 * i as i32 - 10
        },
        _ => 0,
    }
}

/// `aim` turned by `turn`, brought back into `0..FULL_TURN`.
pub fn turn_angle(aim: u32, turn: i32) -> (r: u32)
    requires
        aim < FULL_TURN,
        -(FULL_TURN as int) < turn < FULL_TURN,
    ensures
        r == normalize_angle(aim + turn),
{
    let x: i64 = aim as i64 + turn as i64;
    if x < 0 {
        (x + FULL_TURN as i64) as u32
    } else if x >= FULL_TURN as i64 {
        (x - FULL_TURN as i64) as u32
    } else {
        x as u32
    }
}

/// The volley of `pattern` fired with aim `aim`: one shot per entry of the
/// pattern, each turned from the aim and set off to its side as the pattern
/// says.
pub fn fan_out(pattern: WeaponPattern, aim: u32) -> (r: Vec<Shot>)
    requires
        aim < FULL_TURN,
    ensures
        r@ == volley(pattern, aim as int),
        r@.len() == shot_count(pattern),
        forall|i: int|
            0 <= i < r@.len() ==> (#[trigger] r@[i]).damage == SHOT_DAMAGE && r@[i].speed
                == SHOT_SPEED,
{
    let n = shot_count_exec(pattern);
    let mut r: Vec<Shot> = Vec::new();
    let mut i: usize = 0;
    while i < n
        invariant
            n == shot_count(pattern),
            aim < FULL_TURN,
            i <= n,
            r@.len() == i,
            forall|j: int| 0 <= j < i ==> #[trigger] r@[j] == volley(pattern, aim as int)[j],
        decreases n - i,
    {
        let shot = Shot {
            direction: turn_angle(aim, shot_turn_exec(pattern, i)),
            lateral: shot_lateral_exec(pattern, i),
            forward: MUZZLE_DISTANCE,
            damage: SHOT_DAMAGE,
            speed: SHOT_SPEED,
        };
        r.push(shot);
        i = i + 1;
    }
    assert(r@ =~= volley(pattern, aim as int));
    r
}

impl Weapon {
    /// The weapon every player starts with.
    pub open spec fn base_spec() -> Weapon {
        Weapon { cooldown_ms: 200, since_shot_ms: 0, pattern: WeaponPattern::Single, name: "Base Eradicator" }
    }

    /// The weapon every player starts with.
    pub fn base() -> (w: Weapon)
        ensures
            w == Weapon::base_spec(),
    {
        Weapon { cooldown_ms: 200, since_shot_ms: 0, pattern: WeaponPattern::Single, name: "Base Eradicator" }
    }

    /// Lets `dt_ms` pass for the weapon's cooldown.
    pub fn reload(&mut self, dt_ms: u64)
        requires
            old(self).since_shot_ms + dt_ms <= u64::MAX,
        ensures
            *final(self) == (Weapon { since_shot_ms: (old(self).since_shot_ms + dt_ms) as u64, ..*old(self) }),
    {
        self.since_shot_ms = self.since_shot_ms + dt_ms;
    }

    /// Takes over the name, pattern and cooldown of `other`, keeping the
    /// time since the last volley.
    pub fn take_stats(&mut self, other: &Weapon)
        ensures
            *final(self) == (Weapon { since_shot_ms: old(self).since_shot_ms, ..*other }),
    {
        self.name = other.name;
        self.cooldown_ms = other.cooldown_ms;
        self.pattern = other.pattern;
    }
}

/// The player may fire: the cooldown has passed and the energy pays for the volley.
pub open spec fn player_can_fire(w: Weapon, e: Energy) -> bool {
    w.since_shot_ms > w.cooldown_ms && e.0 >= shot_count(w.pattern)
}

/// A turret may fire: twice its weapon's cooldown has passed.
pub open spec fn turret_can_fire(w: Weapon) -> bool {
    w.since_shot_ms > 2 * w.cooldown_ms
}

/// The player fires `weapon` with aim `aim`.
///
/// Where the cooldown has passed and `energy` pays for the volley, the
/// volley is returned, the weapon's timer restarts and the cost is paid,
/// the energy then held to `0..=MAX_FIRING_ENERGY`. Otherwise nothing is
/// fired and nothing changes.
pub fn fire(weapon: &mut Weapon, energy: &mut Energy, aim: u32) -> (shots: Vec<Shot>)
    requires
        aim < FULL_TURN,
    ensures
        player_can_fire(*old(weapon), *old(energy)) ==> {
            &&& shots@ == volley(old(weapon).pattern, aim as int)
            &&& *final(weapon) == (Weapon { since_shot_ms: 0, ..*old(weapon) })
            &&& final(energy).0 == clamp(
                old(energy).0 - shot_count(old(weapon).pattern),
                0,
                MAX_FIRING_ENERGY as int,
            )
        },
        !player_can_fire(*old(weapon), *old(energy)) ==> {
            &&& shots@.len() == 0
            &&& *final(weapon) == *old(weapon)
            &&& *final(energy) == *old(energy)
        },
        old(energy).0 < shot_count(old(weapon).pattern) ==> shots@.len() == 0
            && final(weapon).since_shot_ms == old(weapon).since_shot_ms,
{
    let cost = shot_cost(weapon.pattern);
    if weapon.since_shot_ms > weapon.cooldown_ms && energy.0 >= cost {
        weapon.since_shot_ms = 0;
        let shots = fan_out(weapon.pattern, aim);
        let left = energy.0 - cost;
        energy.0 = if left > MAX_FIRING_ENERGY {
            MAX_FIRING_ENERGY
        } else {
            left
        };
        shots
    } else {
        Vec::new()
    }
}

/// A turret fires `weapon` with aim `aim`, at no cost, once twice the
/// cooldown has passed; otherwise nothing is fired and nothing changes.
pub fn fire_turret(weapon: &mut Weapon, aim: u32) -> (shots: Vec<Shot>)
    requires
        aim < FULL_TURN,
    ensures
        turret_can_fire(*old(weapon)) ==> {
            &&& shots@ == volley(old(weapon).pattern, aim as int)
            &&& *final(weapon) == (Weapon { since_shot_ms: 0, ..*old(weapon) })
        },
        !turret_can_fire(*old(weapon)) ==> shots@.len() == 0 && *final(weapon) == *old(weapon),
{
    if weapon.since_shot_ms > weapon.cooldown_ms && weapon.since_shot_ms - weapon.cooldown_ms
        > weapon.cooldown_ms {
        weapon.since_shot_ms = 0;
        fan_out(weapon.pattern, aim)
    } else {
        Vec::new()
    }
}

/// Every volley has exactly its pattern's number of shots, whatever the
/// aim, and is laid out relative to the aim: turning the aim by `delta`
/// turns every shot by `delta` and leaves its offsets as they were.
pub proof fn lemma_volley_follows_aim(p: WeaponPattern, aim: int, delta: int)
    ensures
        volley(p, aim).len() == shot_count(p),
        volley(p, aim + delta).len() == shot_count(p),
        forall|i: int|
            0 <= i < shot_count(p) ==> {
                &&& (#[trigger] volley(p, aim + delta)[i]).direction as int == normalize_angle(
                    volley(p, aim)[i].direction + delta,
                )
                &&& volley(p, aim + delta)[i].lateral == volley(p, aim)[i].lateral
                &&& volley(p, aim + delta)[i].forward == volley(p, aim)[i].forward
            },
{
    assert forall|i: int| 0 <= i < shot_count(p) implies {
        &&& (#[trigger] volley(p, aim + delta)[i]).direction as int == normalize_angle(
            volley(p, aim)[i].direction + delta,
        )
        &&& volley(p, aim + delta)[i].lateral == volley(p, aim)[i].lateral
        &&& volley(p, aim + delta)[i].forward == volley(p, aim)[i].forward
    } by {
        let n = FULL_TURN as int;
        let t = shot_turn(p, i);
        vstd::arithmetic::div_mod::lemma_add_mod_noop_right(delta, aim + t, n);
        assert(aim + delta + t == delta + (aim + t));
    }
}

} // verus!
