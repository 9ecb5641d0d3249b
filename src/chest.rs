//! Chests: their randomly generated contents and what opening one gives
//! the player.
use crate::inventory::{Inventoty, TemporaryItems};
use crate::geometry::{dist2, distance_squared, Point};
use crate::random::random_below;
use crate::session::{Notice, UiLog};
use crate::weapon::{catalog_entry, catalog_weapon, clamp, Energy, Weapon, CATALOG_LEN};
use vstd::prelude::*;

verus! {

/// Energy items hold a count in `0..ENERGY_COUNT_BOUND`.
pub const ENERGY_COUNT_BOUND: u32 = 100;

/// The bonus draw is a per-mille value in `0..BONUS_DRAW_BOUND`.
pub const BONUS_DRAW_BOUND: u32 = 1_000;

/// A bonus draw from this value up adds a turret.
pub const TURRET_DRAW_FROM: u32 = 800;

/// A bonus draw up to this value adds a weapon.
pub const WEAPON_DRAW_UP_TO: u32 = 300;

/// Ceiling on the player's energy after a chest's energy is added.
pub const MAX_LOOT_ENERGY: i32 = 512;

/// Largest squared distance at which the player can open a chest.
pub const REACH_SQUARED: u64 = 900;

#[derive(Clone, Copy, Debug, PartialEq, Eq, Structural)]
pub enum ItemType {
    Energy,
    Weapon,
    Turret,
}

#[derive(Clone, Copy, Debug, PartialEq, Eq, Structural)]
pub struct Item {
    pub item_type: ItemType,
    pub count: u32,
}

/// A chest: its items, in order, and whether it was opened.
#[derive(Debug)]
pub struct Chest {
    pub items: Vec<Item>,
    pub opened: bool,
}

/// What one item gave the player.
#[derive(Clone, Copy, Debug)]
pub enum Found {
    /// Energy was added.
    Energy(u32),
    /// A weapon is offered, to confirm within the offer window.
    WeaponOffer(Weapon),
    /// A turret went straight into the empty inventory.
    Turret(Weapon),
    /// A turret is offered, to confirm within the offer window.
    TurretOffer(Weapon),
}

/// The items of a freshly generated chest, given the energy count and the
/// bonus draw.
pub open spec fn generated(energy: u32, bonus_draw: u32) -> Seq<Item> {
    seq![Item { item_type: ItemType::Energy, count: energy }] + if bonus_draw >= TURRET_DRAW_FROM {
        seq![Item { item_type: ItemType::Turret, count: 1 }]
    } else if bonus_draw <= WEAPON_DRAW_UP_TO {
        seq![Item { item_type: ItemType::Weapon, count: 1 }]
    } else {
        Seq::<Item>::empty()
    }
}

impl Default for Chest {
    fn default() -> (r: Chest)
        ensures
            r.contents() == Seq::<Item>::empty(),
            !r.opened,
    {
        Chest { items: Vec::new(), opened: false }
    }
}

impl Chest {
    /// The items in the chest, in order.
    pub open spec fn contents(&self) -> Seq<Item> {
        self.items@
    }

    /// An empty, unopened chest.
    pub fn new() -> (r: Chest)
        ensures
            r.contents() == Seq::<Item>::empty(),
            !r.opened,
    {
        Chest { items: Vec::new(), opened: false }
    }

    /// Empties the chest, marks it opened and returns what it held.
    pub fn get_items(&mut self) -> (r: Vec<Item>)
        ensures
            r@ == old(self).contents(),
            final(self).contents() == Seq::<Item>::empty(),
            final(self).opened,
    {
        let mut res: Vec<Item> = Vec::new();
        std::mem::swap(&mut res, &mut self.items);
        self.opened = true;
        res
    }

    /// Stocks the chest from the given draws: always an energy item of
    /// `energy` units, then a turret where `bonus_draw` is at least
    /// `TURRET_DRAW_FROM`, else a weapon where it is at most
    /// `WEAPON_DRAW_UP_TO`, else nothing more.
    pub fn generate_from(&mut self, energy: u32, bonus_draw: u32)
        ensures
            final(self).contents() == old(self).contents() + generated(energy, bonus_draw),
            final(self).opened == old(self).opened,
    {
        self.items.push(Item { item_type: ItemType::Energy, count: energy });
        if bonus_draw >= TURRET_DRAW_FROM {
            self.items.push(Item { item_type: ItemType::Turret, count: 1 });
        } else if bonus_draw <= WEAPON_DRAW_UP_TO {
            self.items.push(Item { item_type: ItemType::Weapon, count: 1 });
        }
        assert(self.items@ =~= old(self).contents() + generated(energy, bonus_draw));
    }

    /// Stocks the chest at random: an energy count below
    /// `ENERGY_COUNT_BOUND` and a bonus draw below `BONUS_DRAW_BOUND`.
    pub fn generate(&mut self)
        ensures
            exists|e: u32, d: u32|
                e < ENERGY_COUNT_BOUND && d < BONUS_DRAW_BOUND && final(self).contents()
                    == old(self).contents() + #[trigger] generated(e, d),
            final(self).opened == old(self).opened,
    {
        let energy = random_below(ENERGY_COUNT_BOUND);
        let draw = random_below(BONUS_DRAW_BOUND);
        self.generate_from(energy, draw);
    }
}

/// What the player holds while loot is applied.
pub ghost struct LootState {
    pub energy: int,
    pub inventory: Inventoty,
    pub temporary: TemporaryItems,
}

/// The player's state after `item` is applied at `now`, with `pick` the
/// catalog entry drawn for it.
pub open spec fn apply_spec(s: LootState, item: Item, pick: int, now: int) -> LootState {
    let w = catalog_entry(pick);
    match item.item_type {
        ItemType::Energy => LootState {
            energy: clamp(s.energy + item.count, 0, MAX_LOOT_ENERGY as int),
            ..s
        },
        ItemType::Weapon => LootState {
            temporary: TemporaryItems { weapon: Some(w), timestamp_ms: now as u64, ..s.temporary },
            ..s
        },
        ItemType::Turret => if s.inventory.turret is None {
            LootState { inventory: Inventoty { turret: Some(w) }, ..s }
        } else {
            LootState {
                temporary: TemporaryItems { turret: Some(w), timestamp_ms: now as u64, ..s.temporary },
                ..s
            }
        },
    }
}

/// What applying `item` in state `s` gives, with `pick` the catalog entry drawn.
pub open spec fn found_spec(s: LootState, item: Item, pick: int) -> Found {
    let w = catalog_entry(pick);
    match item.item_type {
        ItemType::Energy => Found::Energy(item.count),
        ItemType::Weapon => Found::WeaponOffer(w),
        ItemType::Turret => if s.inventory.turret is None {
            Found::Turret(w)
        } else {
            Found::TurretOffer(w)
        },
    }
}

/// The state after the items are applied in turn, the `i`-th with pick `picks[i]`.
pub open spec fn loot_run(s: LootState, items: Seq<Item>, picks: Seq<usize>, now: int) -> LootState
    decreases items.len(),
{
    if items.len() == 0 {
        s
    } else {
        let before = loot_run(s, items.drop_last(), picks.take(items.len() - 1), now);
        apply_spec(before, items.last(), picks[items.len() - 1] as int, now)
    }
}

/// What each of the items gives when they are applied in turn.
pub open spec fn found_run(s: LootState, items: Seq<Item>, picks: Seq<usize>, now: int) -> Seq<Found>
    decreases items.len(),
{
    if items.len() == 0 {
        Seq::empty()
    } else {
        let before = loot_run(s, items.drop_last(), picks.take(items.len() - 1), now);
        found_run(s, items.drop_last(), picks.take(items.len() - 1), now).push(
            found_spec(before, items.last(), picks[items.len() - 1] as int),
        )
    }
}

pub open spec fn state_of(energy: Energy, inventory: Inventoty, temporary: TemporaryItems) -> LootState {
    LootState { energy: energy.0 as int, inventory, temporary }
}

/// Applies one item at `now_ms`, `pick` being the catalog entry drawn for it.
///
/// Energy adds its count, the total held to `0..=MAX_LOOT_ENERGY`. A weapon
/// becomes the pending weapon offer. A turret goes into an empty inventory,
/// or else becomes the pending turret offer. An offer records `now_ms`.
pub fn apply_item(
    item: Item,
    pick: usize,
    energy: &mut Energy,
    inventory: &mut Inventoty,
    temporary: &mut TemporaryItems,
    now_ms: u64,
) -> (r: Found)
    requires
        pick < CATALOG_LEN,
    ensures
        state_of(*final(energy), *final(inventory), *final(temporary)) == apply_spec(
            state_of(*old(energy), *old(inventory), *old(temporary)),
            item,
            pick as int,
            now_ms as int,
        ),
        r == found_spec(state_of(*old(energy), *old(inventory), *old(temporary)), item, pick as int),
{
    let w = catalog_weapon(pick);
    match item.item_type {
        ItemType::Energy => {
            let total: i64 = energy.0 as i64 + item.count as i64;
            energy.0 = if total < 0 {
                0
            } else if total > MAX_LOOT_ENERGY as i64 {
                MAX_LOOT_ENERGY
            } else {
                total as i32
            };
            Found::Energy(item.count)
        },
        ItemType::Weapon => {
            temporary.weapon = Some(w);
            temporary.timestamp_ms = now_ms;
            Found::WeaponOffer(w)
        },
        ItemType::Turret => {
            if inventory.turret.is_none() {
                inventory.turret = Some(w);
                Found::Turret(w)
            } else {
                temporary.turret = Some(w);
                temporary.timestamp_ms = now_ms;
                Found::TurretOffer(w)
            }
        },
    }
}

/// Applies the items in turn at `now_ms`, the `i`-th with catalog entry
/// `picks[i]` drawn for it, and reports what each gave.
pub fn apply_items(
    items: &Vec<Item>,
    picks: &Vec<usize>,
    energy: &mut Energy,
    inventory: &mut Inventoty,
    temporary: &mut TemporaryItems,
    now_ms: u64,
) -> (r: Vec<Found>)
    requires
        items@.len() == picks@.len(),
        forall|i: int| 0 <= i < picks@.len() ==> #[trigger] picks@[i] < CATALOG_LEN,
    ensures
        state_of(*final(energy), *final(inventory), *final(temporary)) == loot_run(
            state_of(*old(energy), *old(inventory), *old(temporary)),
            items@,
            picks@,
            now_ms as int,
        ),
        r@ == found_run(
            state_of(*old(energy), *old(inventory), *old(temporary)),
            items@,
            picks@,
            now_ms as int,
        ),
{
    let ghost s0 = state_of(*energy, *inventory, *temporary);
    let mut found: Vec<Found> = Vec::new();
    let mut i: usize = 0;
    while i < items.len()
        invariant
            items@.len() == picks@.len(),
            forall|j: int| 0 <= j < picks@.len() ==> #[trigger] picks@[j] < CATALOG_LEN,
            i <= items@.len(),
            state_of(*energy, *inventory, *temporary) == loot_run(
                s0,
                items@.take(i as int),
                picks@.take(i as int),
                now_ms as int,
            ),
            found@ == found_run(s0, items@.take(i as int), picks@.take(i as int), now_ms as int),
        decreases items@.len() - i,
    {
        let f = apply_item(items[i], picks[i], energy, inventory, temporary, now_ms);
        found.push(f);
        proof {
            let it = items@.take(i + 1);
            let pk = picks@.take(i + 1);
            assert(it.drop_last() =~= items@.take(i as int));
            assert(pk.take(i as int) =~= picks@.take(i as int));
            assert(it.last() == items@[i as int]);
            assert(pk[i as int] == picks@[i as int]);
        }
        i = i + 1;
    }
    assert(items@.take(items@.len() as int) =~= items@);
    assert(picks@.take(picks@.len() as int) =~= picks@);
    found
}

/// Opening took `before` to `after`: the chest is emptied and marked opened,
/// its items were applied in turn to the player's state `s0`, giving `s1`,
/// each with a catalog entry drawn for it, and the notice of what they gave
/// was recorded in `log` at `now`.
pub open spec fn looted(before: Chest, after: Chest, s0: LootState, s1: LootState, log: UiLog, now: int) -> bool {
    &&& after.opened
    &&& after.contents() == Seq::<Item>::empty()
    &&& log.message_time_stamp == now
    &&& exists|picks: Seq<usize>|
        {
            &&& picks.len() == before.contents().len()
            &&& forall|i: int| 0 <= i < picks.len() ==> #[trigger] picks[i] < CATALOG_LEN
            &&& s1 == #[trigger] loot_run(s0, before.contents(), picks, now)
            &&& (log.last_message matches Some(Notice::Loot(f)) && f@ == found_run(
                s0,
                before.contents(),
                picks,
                now,
            ))
        }
}

/// The player tries to open `chest` from `distance_squared` away, at `now_ms`.
///
/// A chest already opened, or farther than `REACH_SQUARED`, is left alone,
/// as is everything else, and `false` comes back. Otherwise the chest is
/// emptied and marked opened, its items are applied in turn, each with a
/// catalog entry drawn at random, and the notice of what they gave is
/// recorded at `now_ms`.
pub fn open_chest(
    chest: &mut Chest,
    distance_squared: u128,
    energy: &mut Energy,
    inventory: &mut Inventoty,
    temporary: &mut TemporaryItems,
    log: &mut UiLog,
    now_ms: u64,
) -> (opened: bool)
    ensures
        opened == (!old(chest).opened && distance_squared <= REACH_SQUARED),
        !opened ==> {
            &&& *final(chest) == *old(chest)
            &&& *final(energy) == *old(energy)
            &&& *final(inventory) == *old(inventory)
            &&& *final(temporary) == *old(temporary)
            &&& *final(log) == *old(log)
        },
        opened ==> looted(
            *old(chest),
            *final(chest),
            state_of(*old(energy), *old(inventory), *old(temporary)),
            state_of(*final(energy), *final(inventory), *final(temporary)),
            *final(log),
            now_ms as int,
        ),
{
    if chest.opened || distance_squared > REACH_SQUARED as u128 {
        return false;
    }
    let ghost before = *chest;
    let ghost s0 = state_of(*energy, *inventory, *temporary);
    let items = chest.get_items();
    let mut picks: Vec<usize> = Vec::new();
    let mut i: usize = 0;
    while i < items.len()
        invariant
            i <= items@.len(),
            picks@.len() == i,
            forall|j: int| 0 <= j < i ==> #[trigger] picks@[j] < CATALOG_LEN,
        decreases items@.len() - i,
    {
        picks.push(random_below(CATALOG_LEN as u32) as usize);
        i = i + 1;
    }
    let found = apply_items(&items, &picks, energy, inventory, temporary, now_ms);
    let ghost f = found;
    log.record(Notice::Loot(found), now_ms);
    assert(loot_run(s0, before.contents(), picks@, now_ms as int) == state_of(
        *energy,
        *inventory,
        *temporary,
    ));
    true
}

/// A chest set down at a position in the world.
#[derive(Debug)]
pub struct ChestAt {
    pub position: Point,
    pub chest: Chest,
}

/// The player at `player` can open chest `c`: it is unopened and in reach.
pub open spec fn can_open(player: Point, c: ChestAt) -> bool {
    !c.chest.opened && dist2(player, c.position) <= REACH_SQUARED
}

/// The player at `player` presses to open a chest at `now_ms`.
///
/// Only the first chest that is unopened and in reach is opened, as
/// `open_chest` says, and its index comes back; every other chest stays as
/// it was. With no such chest nothing changes and `None` comes back.
pub fn open_first_chest(
    player: Point,
    chests: &mut Vec<ChestAt>,
    energy: &mut Energy,
    inventory: &mut Inventoty,
    temporary: &mut TemporaryItems,
    log: &mut UiLog,
    now_ms: u64,
) -> (r: Option<usize>)
    ensures
        r is None <==> forall|j: int| 0 <= j < old(chests)@.len() ==> !can_open(player, #[trigger] old(chests)@[j]),
        r is None ==> {
            &&& final(chests)@ == old(chests)@
            &&& *final(energy) == *old(energy)
            &&& *final(inventory) == *old(inventory)
            &&& *final(temporary) == *old(temporary)
            &&& *final(log) == *old(log)
        },
        r matches Some(i) ==> {
            &&& i < old(chests)@.len()
            &&& can_open(player, old(chests)@[i as int])
            &&& forall|j: int| 0 <= j < i ==> !can_open(player, #[trigger] old(chests)@[j])
            &&& final(chests)@.len() == old(chests)@.len()
            &&& forall|j: int| 0 <= j < old(chests)@.len() && j != i ==> #[trigger] final(chests)@[j] == old(chests)@[j]
            &&& final(chests)@[i as int].position == old(chests)@[i as int].position
            &&& looted(
                old(chests)@[i as int].chest,
                final(chests)@[i as int].chest,
                state_of(*old(energy), *old(inventory), *old(temporary)),
                state_of(*final(energy), *final(inventory), *final(temporary)),
                *final(log),
                now_ms as int,
            )
        },
{
    let mut i: usize = 0;
    while i < chests.len()
        invariant
            i <= chests@.len(),
            chests@ == old(chests)@,
            *energy == *old(energy),
            *inventory == *old(inventory),
            *temporary == *old(temporary),
            *log == *old(log),
            forall|j: int| 0 <= j < i ==> !can_open(player, #[trigger] chests@[j]),
        decreases chests@.len() - i,
    {
        let d = distance_squared(player, chests[i].position);
        if !chests[i].chest.opened && d <= REACH_SQUARED as u128 {
            let ghost before = chests@;
            let mut entry = chests.remove(i);
            assert(entry == before[i as int]);
            let opened = open_chest(&mut entry.chest, d, energy, inventory, temporary, log, now_ms);
            assert(opened);
            chests.insert(i, entry);
            assert(chests@ =~= before.update(i as int, entry));
            assert(can_open(player, before[i as int]));
            return Some(i);
        }
        i = i + 1;
    }
    None
}


} // verus!
