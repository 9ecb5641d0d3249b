use night_survival::inventory::{confirm_offer, place_turret, OfferTaken};
use night_survival::session::{Notice, UiLog};
use night_survival::weapon::{
    catalog_weapon, fan_out, fire, fire_turret, turn_angle, weapon_catalog, Shot,
};
use night_survival::{Energy, Inventoty, TemporaryItems, Weapon, WeaponPattern};

fn ready(pattern: WeaponPattern) -> Weapon {
    Weapon { cooldown_ms: 100, since_shot_ms: 1_000, pattern, name: "test" }
}

#[test]
fn catalog_holds_five_named_weapons() {
    let c = weapon_catalog();
    assert_eq!(c.len(), 5);
    assert_eq!(c[0].name, "Fast Eradictor");
    assert_eq!(c[0].cooldown_ms, 100);
    assert_eq!(c[1].pattern, WeaponPattern::TwoShot);
    assert_eq!(c[1].cooldown_ms, 150);
    assert_eq!(c[2].name, "Six Paths Destroyer");
    assert_eq!(c[2].cooldown_ms, 400);
    assert_eq!(c[3].pattern, WeaponPattern::SixAround);
    assert_eq!(c[3].cooldown_ms, 300);
    assert_eq!(c[4].name, "Protector MK4");
    assert_eq!(c[4].cooldown_ms, 200);
    assert_eq!(catalog_weapon(4).pattern, WeaponPattern::ManyAround);
}

#[test]
fn base_weapon_is_a_single_shot() {
    let w = Weapon::base();
    assert_eq!(w.name, "Base Eradicator");
    assert_eq!(w.cooldown_ms, 200);
    assert_eq!(w.pattern, WeaponPattern::Single);
}

#[test]
fn fan_outs_have_their_shot_counts_for_any_aim() {
    let cases = [
        (WeaponPattern::Single, 1),
        (WeaponPattern::TwoShot, 2),
        (WeaponPattern::SixRay, 6),
        (WeaponPattern::SixAround, 6),
        (WeaponPattern::ManyAround, 12),
    ];
    for aim in [0u32, 1, 9_000, 17_999, 35_999] {
        for (p, n) in cases {
            assert_eq!(fan_out(p, aim).len(), n);
        }
    }
}

#[test]
fn two_shot_spreads_either_side_of_the_aim() {
    let v = fan_out(WeaponPattern::TwoShot, 0);
    assert_eq!(v[0], Shot { direction: 34_875, lateral: 0, forward: 25, damage: 1_000, speed: 300 });
    assert_eq!(v[1], Shot { direction: 1_125, lateral: 0, forward: 25, damage: 1_000, speed: 300 });
}

#[test]
fn six_ray_is_a_line_of_parallel_shots() {
    let v = fan_out(WeaponPattern::SixRay, 4_500);
    let laterals: Vec<i32> = v.iter().map(|s| s.lateral).collect();
    assert_eq!(laterals, vec![-15, -10, -5, 5, 10, 15]);
    assert!(v.iter().all(|s| s.direction == 4_500 && s.forward == 25));
}

#[test]
fn rings_cover_the_full_turn() {
    let six: Vec<u32> = fan_out(WeaponPattern::SixAround, 1_000).iter().map(|s| s.direction).collect();
    assert_eq!(six, vec![1_000, 7_000, 13_000, 19_000, 25_000, 31_000]);
    let many: Vec<u32> = fan_out(WeaponPattern::ManyAround, 35_000).iter().map(|s| s.direction).collect();
    assert_eq!(
        many,
        vec![35_000, 2_000, 5_000, 8_000, 11_000, 14_000, 17_000, 20_000, 23_000, 26_000, 29_000, 32_000]
    );
}

#[test]
fn turning_the_aim_turns_every_shot() {
    for p in [WeaponPattern::TwoShot, WeaponPattern::SixAround, WeaponPattern::ManyAround] {
        let a = fan_out(p, 500);
        let b = fan_out(p, 20_500);
        for (x, y) in a.iter().zip(b.iter()) {
            assert_eq!((x.direction + 20_000) % 36_000, y.direction);
            assert_eq!(x.lateral, y.lateral);
        }
    }
}

#[test]
fn turn_angle_wraps_both_ways() {
    assert_eq!(turn_angle(100, -1_125), 34_975);
    assert_eq!(turn_angle(35_000, 3_000), 2_000);
    assert_eq!(turn_angle(0, 0), 0);
}

#[test]
fn firing_without_enough_energy_does_nothing() {
    let mut w = ready(WeaponPattern::SixAround);
    let mut e = Energy(5);
    let shots = fire(&mut w, &mut e, 0);
    assert!(shots.is_empty());
    assert_eq!(w.since_shot_ms, 1_000);
    assert_eq!(e, Energy(5));
}

#[test]
fn firing_before_the_cooldown_does_nothing() {
    let mut w = Weapon { since_shot_ms: 100, ..ready(WeaponPattern::Single) };
    let mut e = Energy(100);
    assert!(fire(&mut w, &mut e, 0).is_empty());
    assert_eq!(w.since_shot_ms, 100);
    assert_eq!(e, Energy(100));
}

#[test]
fn firing_pays_the_cost_and_restarts_the_timer() {
    let mut w = ready(WeaponPattern::ManyAround);
    let mut e = Energy(12);
    let shots = fire(&mut w, &mut e, 9_000);
    assert_eq!(shots.len(), 12);
    assert_eq!(w.since_shot_ms, 0);
    assert_eq!(e, Energy(0));
}

#[test]
fn energy_above_the_firing_ceiling_is_cut_back() {
    let mut w = ready(WeaponPattern::Single);
    let mut e = Energy(512);
    assert_eq!(fire(&mut w, &mut e, 0).len(), 1);
    assert_eq!(e, Energy(500));
}

#[test]
fn turrets_wait_twice_the_cooldown_and_pay_nothing() {
    let mut w = Weapon { since_shot_ms: 200, ..ready(WeaponPattern::TwoShot) };
    assert!(fire_turret(&mut w, 0).is_empty());
    assert_eq!(w.since_shot_ms, 200);
    w.reload(1);
    assert_eq!(w.since_shot_ms, 201);
    assert_eq!(fire_turret(&mut w, 0).len(), 2);
    assert_eq!(w.since_shot_ms, 0);
}

#[test]
fn inventory_starts_with_the_first_catalog_turret() {
    let inv = Inventoty::default();
    assert_eq!(inv.turret.map(|w| w.name), Some("Fast Eradictor"));
}

#[test]
fn confirming_a_weapon_offer_in_time_changes_the_weapon() {
    let mut temp = TemporaryItems { weapon: Some(catalog_weapon(2)), turret: None, timestamp_ms: 1_000 };
    let mut inv = Inventoty::default();
    let mut log = UiLog::new();
    let mut w = Weapon { since_shot_ms: 77, ..Weapon::base() };
    assert_eq!(confirm_offer(&mut temp, &mut inv, &mut w, &mut log, 6_000), OfferTaken::Weapon);
    assert_eq!(w.name, "Six Paths Destroyer");
    assert_eq!(w.pattern, WeaponPattern::SixRay);
    assert_eq!(w.cooldown_ms, 400);
    assert_eq!(w.since_shot_ms, 77);
    assert!(temp.weapon.is_none());
    assert!(matches!(log.last_message, Some(Notice::Confirmed(OfferTaken::Weapon, "Six Paths Destroyer"))));
    assert_eq!(log.message_time_stamp, 6_000);
}

#[test]
fn an_offer_past_its_window_stays_unusable() {
    let mut temp = TemporaryItems { weapon: Some(catalog_weapon(2)), turret: None, timestamp_ms: 1_000 };
    let mut inv = Inventoty::default();
    let mut log = UiLog::new();
    let mut w = Weapon::base();
    assert_eq!(confirm_offer(&mut temp, &mut inv, &mut w, &mut log, 6_001), OfferTaken::Nothing);
    assert_eq!(w.name, "Base Eradicator");
    assert!(temp.weapon.is_some());
    assert!(log.last_message.is_none());
}

#[test]
fn confirming_a_turret_offer_replaces_the_held_turret() {
    let mut temp = TemporaryItems { weapon: None, turret: Some(catalog_weapon(4)), timestamp_ms: 0 };
    let mut inv = Inventoty::default();
    let mut log = UiLog::new();
    let mut w = Weapon::base();
    assert_eq!(confirm_offer(&mut temp, &mut inv, &mut w, &mut log, 100), OfferTaken::Turret);
    assert_eq!(inv.turret.map(|t| t.name), Some("Protector MK4"));
    assert!(temp.turret.is_none());
    assert_eq!(w.name, "Base Eradicator");
    assert!(matches!(log.last_message, Some(Notice::Confirmed(OfferTaken::Turret, "Protector MK4"))));
    assert_eq!(log.message_time_stamp, 100);
}

#[test]
fn placing_a_turret_empties_the_inventory() {
    let mut inv = Inventoty::default();
    assert_eq!(place_turret(&mut inv).map(|t| t.name), Some("Fast Eradictor"));
    assert!(inv.turret.is_none());
    assert!(place_turret(&mut inv).is_none());
}

#[test]
fn every_volley_shot_carries_damage_and_speed() {
    for p in [WeaponPattern::Single, WeaponPattern::SixRay, WeaponPattern::ManyAround] {
        let mut w = ready(p);
        let mut e = Energy(100);
        for s in fire(&mut w, &mut e, 1_234) {
            assert_eq!((s.damage, s.speed), (1_000, 300));
        }
    }
}
