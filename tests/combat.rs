use night_survival::combat::{contact_damage, nearest_enemy, BulletFate, Sighting, Target};
use night_survival::geometry::{distance_squared, in_view, Point};
use night_survival::spawn::{flees_out_of_view, plan_enemy, spawn_wave, wave_size};
use night_survival::animation::AnimationIndices;
use night_survival::weapon::{fan_out, WeaponPattern};
use night_survival::{Bullet, DayNight, Hp, SpawnTimer, Turret};

fn p(x: i32, y: i32) -> Point {
    Point { x, y }
}

#[test]
fn squared_distance_is_exact_even_far_apart() {
    assert_eq!(distance_squared(p(0, 0), p(3, 4)), 25);
    assert_eq!(distance_squared(p(-3, 0), p(0, -4)), 25);
    let far = distance_squared(p(i32::MIN, i32::MIN), p(i32::MAX, i32::MAX));
    assert_eq!(far, 2 * (u32::MAX as u128) * (u32::MAX as u128));
}

#[test]
fn turret_picks_only_the_nearest_enemy_in_range() {
    let enemies = vec![
        Sighting { id: 1, position: p(1_000, 1_000) },
        Sighting { id: 2, position: p(700, 100) },
        Sighting { id: 3, position: p(900, 300) },
    ];
    assert_eq!(distance_squared(p(0, 0), enemies[0].position), 2_000_000);
    assert_eq!(distance_squared(p(0, 0), enemies[1].position), 500_000);
    assert_eq!(distance_squared(p(0, 0), enemies[2].position), 900_000);
    let mut t = Turret::default();
    t.check_for_enemy(p(0, 0), &enemies);
    assert_eq!(t.target, Some(2));
    assert_eq!(t.target_position(&enemies), Some(p(700, 100)));
}

#[test]
fn turret_stays_idle_with_nothing_in_range() {
    let enemies = vec![Sighting { id: 1, position: p(1_000, 0) }];
    let mut t = Turret::default();
    t.check_for_enemy(p(0, 0), &enemies);
    assert_eq!(t.target, None);
    assert_eq!(nearest_enemy(p(0, 0), &vec![]), None);
}

#[test]
fn equally_near_enemies_go_to_the_first() {
    let enemies = vec![
        Sighting { id: 7, position: p(0, 10) },
        Sighting { id: 8, position: p(10, 0) },
    ];
    assert_eq!(nearest_enemy(p(0, 0), &enemies), Some(0));
}

#[test]
fn a_dead_target_is_dropped_and_a_living_one_kept() {
    let mut t = Turret { target: Some(5) };
    let alive = vec![Sighting { id: 5, position: p(2_000, 0) }];
    t.check_for_enemy(p(0, 0), &alive);
    assert_eq!(t.target, Some(5));
    t.check_for_enemy(p(0, 0), &vec![Sighting { id: 6, position: p(1, 0) }]);
    assert_eq!(t.target, None);
    assert_eq!(t.target_position(&alive), None);
}

#[test]
fn an_expired_projectile_touches_nothing() {
    let mut b = Bullet { damage: 1_000, speed: 300, age_ms: 5_000 };
    let mut targets = vec![Target { position: p(0, 0), hp: Hp(3_000) }];
    assert_eq!(b.step(0, p(0, 0), &mut targets), BulletFate::Expired);
    assert_eq!(targets[0].hp, Hp(3_000));
    let young = Bullet::new(1_000, 300);
    let mut b2 = young;
    assert_eq!(b2.step(5_000, p(0, 0), &mut targets), BulletFate::Expired);
    assert_eq!(targets[0].hp, Hp(3_000));
}

#[test]
fn a_projectile_hits_only_the_first_target_in_reach() {
    let b = Bullet::new(1_000, 300);
    let mut targets = vec![
        Target { position: p(100, 0), hp: Hp(3_000) },
        Target { position: p(15, 20), hp: Hp(3_000) },
        Target { position: p(0, 0), hp: Hp(3_000) },
    ];
    assert_eq!(b.resolve(p(0, 0), &mut targets), BulletFate::Hit(1));
    assert_eq!(targets[0].hp, Hp(3_000));
    assert_eq!(targets[1].hp, Hp(2_000));
    assert_eq!(targets[2].hp, Hp(3_000));
}

#[test]
fn a_projectile_out_of_reach_flies_on() {
    let mut b = Bullet::new(1_000, 300);
    let mut targets = vec![Target { position: p(26, 0), hp: Hp(3_000) }];
    assert_eq!(b.step(16, p(0, 0), &mut targets), BulletFate::Flying);
    assert_eq!(b.age_ms, 16);
    assert_eq!(targets[0].hp, Hp(3_000));
}

#[test]
fn damage_stops_at_zero_and_marks_death() {
    assert_eq!(Hp(500).after_damage(1_000), Hp(0));
    assert!(Hp(0).is_dead());
    assert_eq!(Hp(1_500).after_damage(1_000), Hp(500));
    assert!(!Hp(500).is_dead());
}

#[test]
fn contact_drains_two_points_per_second_per_enemy() {
    let mut hp = Hp(100_000);
    let enemies = vec![p(30, 40), p(0, 49), p(0, 51)];
    contact_damage(&mut hp, p(0, 0), &enemies, 500);
    assert_eq!(hp, Hp(98_000));
    contact_damage(&mut hp, p(0, 0), &vec![], 500);
    assert_eq!(hp, Hp(98_000));
    let mut low = Hp(10);
    contact_damage(&mut low, p(0, 0), &enemies, 500);
    assert_eq!(low, Hp(0));
}

#[test]
fn waves_grow_with_the_night_share() {
    assert_eq!(wave_size(30), 3);
    assert_eq!(wave_size(35), 4);
    assert_eq!(wave_size(90), 9);
    assert_eq!(wave_size(10), 1);
}

#[test]
fn enemy_strength_follows_the_day() {
    let e = plan_enemy(1, 9_000, 0, 500, 0);
    assert_eq!(e.strength, 600);
    assert_eq!(e.hp, Hp(11_000));
    assert_eq!(e.distance, 600);
    assert_eq!(e.angle, 9_000);
    assert_eq!(e.enemy.speed, 120_000);
    assert_eq!(plan_enemy(1, 0, 599, 0, 19_999).strength, 450);
    assert_eq!(plan_enemy(1, 0, 599, 0, 19_999).distance, 1_199);
    assert_eq!(plan_enemy(1, 0, 0, 999, 0).strength, 749);
    assert_eq!(plan_enemy(1_000_000, 0, 0, 0, 0).strength, 2_000);
    assert_eq!(plan_enemy(1_000_000, 0, 0, 0, 0).hp, Hp(25_000));
    assert_eq!(plan_enemy(0, 0, 0, 0, 0).strength, 350);
}

#[test]
fn no_waves_by_day() {
    let clock = DayNight::new();
    let mut timer = SpawnTimer::new();
    assert!(spawn_wave(&clock, &mut timer, 5_000).is_empty());
    assert_eq!(timer.elapsed_ms, 0);
}

#[test]
fn a_wave_comes_each_second_of_night() {
    let mut clock = DayNight::new();
    clock.advance(42_000);
    assert!(clock.is_night);
    let mut timer = SpawnTimer::new();
    assert!(spawn_wave(&clock, &mut timer, 600).is_empty());
    let wave = spawn_wave(&clock, &mut timer, 600);
    assert_eq!(wave.len(), 3);
    assert_eq!(timer.elapsed_ms, 200);
    for e in wave.iter() {
        assert!(e.distance >= 600 && e.distance < 1_200);
        assert!(e.angle < 36_000);
        assert!(e.strength >= 450 && e.strength < 750);
        assert!(e.enemy.speed >= 120_000 && e.enemy.speed < 140_000);
    }
}

#[test]
fn enemies_leave_only_when_fleeing_out_of_view() {
    assert!(flees_out_of_view(false, false));
    assert!(!flees_out_of_view(false, true));
    assert!(!flees_out_of_view(true, false));
}

#[test]
fn animation_cycles_through_its_frames() {
    let a = AnimationIndices { first: 4, last: 7 };
    assert_eq!(a.next_index(4), 5);
    assert_eq!(a.next_index(7), 4);
    assert_eq!(a.next_index(0), 4);
    assert_eq!(a.next_index(9), 4);
}

#[test]
fn the_view_includes_its_edges() {
    assert!(in_view(p(100, 100), 400, 300, p(500, -200)));
    assert!(!in_view(p(100, 100), 400, 300, p(501, 0)));
    assert!(!in_view(p(100, 100), 400, 300, p(0, 401)));
    assert!(in_view(p(i32::MAX, 0), 0, 0, p(i32::MAX, 0)));
}

#[test]
fn a_shot_becomes_a_fresh_projectile() {
    let shots = fan_out(WeaponPattern::Single, 0);
    assert_eq!(Bullet::from_shot(&shots[0]), Bullet { damage: 1_000, speed: 300, age_ms: 0 });
}

#[test]
fn a_young_projectile_in_reach_hits_when_stepped() {
    let mut b = Bullet { damage: 1_000, speed: 300, age_ms: 4_000 };
    let mut targets = vec![Target { position: p(0, 5), hp: Hp(1_500) }];
    assert_eq!(b.step(999, p(0, 0), &mut targets), BulletFate::Hit(0));
    assert_eq!(targets[0].hp, Hp(500));
    assert_eq!(b.age_ms, 4_999);
}
