//! What the player carries besides the weapon in hand: a turret ready to
//! place, and pending offers found in chests that wait for confirmation.
use crate::session::{Notice, UiLog};
use crate::weapon::{catalog_entry, catalog_weapon, Weapon};
use vstd::prelude::*;

verus! {

/// How long an offer can be confirmed after it was made, in milliseconds.
pub const OFFER_WINDOW_MS: u64 = 5_000;

/// Offers found in chests, waiting for the player to confirm them. There is
/// one slot per kind, and both share the time the latest offer was made.
#[derive(Clone, Copy, Debug)]
pub struct TemporaryItems {
    pub weapon: Option<Weapon>,
    pub turret: Option<Weapon>,
    /// When the latest offer was made, in milliseconds of session time.
    pub timestamp_ms: u64,
}

/// The turret the player holds, if any.
#[derive(Clone, Copy, Debug)]
pub struct Inventoty {
    pub turret: Option<Weapon>,
}

/// What a confirmation did.
#[derive(Clone, Copy, Debug, PartialEq, Eq, Structural)]
pub enum OfferTaken {
    /// No offer could be taken.
    Nothing,
    /// The offered weapon replaced the one in hand.
    Weapon,
    /// The offered turret replaced the one held.
    Turret,
}

impl Default for TemporaryItems {
    fn default() -> (r: TemporaryItems)
        ensures
            r.weapon is None,
            r.turret is None,
            r.timestamp_ms == 0,
    {
        TemporaryItems { weapon: None, turret: None, timestamp_ms: 0 }
    }
}

impl Default for Inventoty {
    fn default() -> (r: Inventoty)
        ensures
            r.turret == Some(catalog_entry(0)),
    {
        Inventoty { turret: Some(catalog_weapon(0)) }
    }
}

impl TemporaryItems {
    /// An offer made at the stored time may still be confirmed at `now_ms`.
    pub open spec fn open_at(self, now_ms: int) -> bool {
        now_ms - self.timestamp_ms <= OFFER_WINDOW_MS
    }

    /// Whether an offer made at the stored time may still be confirmed at `now_ms`.
    pub fn is_open_at(&self, now_ms: u64) -> (r: bool)
        ensures
            r == self.open_at(now_ms as int),
    {
        now_ms <= self.timestamp_ms || now_ms - self.timestamp_ms <= OFFER_WINDOW_MS
    }
}

/// The player confirms a pending offer at `now_ms`.
///
/// A weapon offer still open takes precedence: its name, pattern and
/// cooldown go to the weapon in hand and the offer is used up. Failing
/// that, a turret offer still open becomes the held turret, with its timer
/// at zero. Either way the notice of what was taken is recorded at
/// `now_ms`. An offer past its window is left in place, unusable, and
/// nothing changes.
pub fn confirm_offer(
    temporary: &mut TemporaryItems,
    inventory: &mut Inventoty,
    weapon: &mut Weapon,
    log: &mut UiLog,
    now_ms: u64,
) -> (r: OfferTaken)
    ensures
        ({
            let t = *old(temporary);
            if t.weapon is Some && t.open_at(now_ms as int) {
                &&& r == OfferTaken::Weapon
                &&& *final(weapon) == (Weapon {
                    since_shot_ms: old(weapon).since_shot_ms,
                    ..t.weapon.unwrap()
                })
                &&& *final(temporary) == (TemporaryItems { weapon: None, ..t })
                &&& *final(inventory) == *old(inventory)
                &&& *final(log) == (UiLog {
                    last_message: Some(Notice::Confirmed(OfferTaken::Weapon, t.weapon.unwrap().name)),
                    message_time_stamp: now_ms,
                })
            } else if t.turret is Some && t.open_at(now_ms as int) {
                &&& r == OfferTaken::Turret
                &&& final(inventory).turret == Some(
                    Weapon { since_shot_ms: 0, ..t.turret.unwrap() },
                )
                &&& *final(temporary) == (TemporaryItems { turret: None, ..t })
                &&& *final(weapon) == *old(weapon)
                &&& *final(log) == (UiLog {
                    last_message: Some(Notice::Confirmed(OfferTaken::Turret, t.turret.unwrap().name)),
                    message_time_stamp: now_ms,
                })
            } else {
                &&& r == OfferTaken::Nothing
                &&& *final(temporary) == t
                &&& *final(inventory) == *old(inventory)
                &&& *final(weapon) == *old(weapon)
                &&& *final(log) == *old(log)
            }
        }),
{
    let open = temporary.is_open_at(now_ms);
    if open {
        if let Some(offered) = temporary.weapon {
            weapon.take_stats(&offered);
            temporary.weapon = None;
            log.record(Notice::Confirmed(OfferTaken::Weapon, offered.name), now_ms);
            return OfferTaken::Weapon;
        }
        if let Some(offered) = temporary.turret {
            inventory.turret = Some(Weapon { since_shot_ms: 0, ..offered });
            temporary.turret = None;
            log.record(Notice::Confirmed(OfferTaken::Turret, offered.name), now_ms);
            return OfferTaken::Turret;
        }
    }
    OfferTaken::Nothing
}

/// The player places the held turret: it leaves the inventory and is
/// returned for placing; with none held nothing is placed.
pub fn place_turret(inventory: &mut Inventoty) -> (r: Option<Weapon>)
    ensures
        r == old(inventory).turret,
        final(inventory).turret is None,
{
    let r = inventory.turret;
    inventory.turret = None;
    r
}

} // verus!
