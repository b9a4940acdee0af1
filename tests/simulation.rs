use combat_core::enemy::{AllEnemies, Enemy, EnemyKind, EnemyTuning};
use combat_core::game_state::GameState;
use combat_core::geometry::{
    circle_meets_rect, isqrt, rects_overlap, unit_toward, Direction, Position, Rect,
};
use combat_core::pickups::{is_pickup_in_range, AllWeaponPickups, WeaponPickup, SPAWN_RADIUS};
use combat_core::player::{MoveInput, Player};
use combat_core::projectile::{
    AllProjectiles, BolterProjectile, MultiMeltaProjectile, PowerSwordProjectile, Projectile,
    CULL_BUFFER, SCREEN_HALF_HEIGHT, SCREEN_HALF_WIDTH,
};
use combat_core::status::{
    BurnStatus, PoisonStatus, RegenerationStatus, SlowStatus, SpeedBoostStatus, Status, StunStatus,
};
use combat_core::weapon::Weapon;

const ORIGIN: Position = Position { x: 0, y: 0 };

fn enemy_at(id: u64, x: i64, y: i64) -> Enemy {
    Enemy::new(id, EnemyKind::Fighter, Position { x, y }, &EnemyTuning::standard())
}

fn poison(damage: i32, interval: i64, duration: i64) -> Status {
    Status::Poison(PoisonStatus {
        damage_per_tick: damage,
        tick_interval: interval,
        remaining_duration: duration,
        time_since_last_tick: 0,
    })
}

fn no_input() -> MoveInput {
    MoveInput { up: false, down: false, left: false, right: false }
}

#[test]
fn enemy_seeks_player_from_the_right() {
    let tuning = EnemyTuning::standard();
    let mut e = enemy_at(1, 300_000, 0);
    for _ in 0..10 {
        e.integrate(ORIGIN, 16_000, &tuning);
    }
    assert!(e.position.x < 300_000);
    assert!(e.velocity_x < 0);
    assert!(e.velocity_x >= -tuning.max_speed && e.velocity_x <= tuning.max_speed);
    assert_eq!(e.velocity_y, 0);
    assert_eq!(e.direction, Direction::Left);
}

#[test]
fn bolter_fires_when_cumulative_time_reaches_interval() {
    let mut p = Player::new(ORIGIN);
    assert!(p.handle_weapons(500_000).is_empty());
    let second = p.handle_weapons(500_000);
    assert_eq!(second.len(), 1);
    match second[0] {
        Projectile::Bolter(b) => {
            assert_eq!(b.position, Position { x: 32_000, y: 0 });
            assert_eq!((b.direction_x, b.direction_y), (1_000_000, 0));
            assert_eq!(b.hits, 0);
            assert_eq!(b.damage, 10);
        }
        _ => panic!("expected a bolt"),
    }
    assert!(p.handle_weapons(100_000).is_empty());
}

#[test]
fn health_stays_within_bounds_under_statuses() {
    let mut p = Player::new(ORIGIN);
    p.add_status(poison(1_000, 0, 5_000_000));
    p.handle_status_effects(16_000);
    assert_eq!(p.health, 0);
    let mut q = Player::new(ORIGIN);
    q.add_status(Status::Regeneration(RegenerationStatus {
        heal_per_tick: 50,
        tick_interval: 0,
        remaining_duration: 5_000_000,
        time_since_last_tick: 0,
    }));
    for _ in 0..5 {
        q.handle_status_effects(16_000);
        assert!(q.health >= 0 && q.health <= q.max_health);
    }
    assert_eq!(q.health, 100);
}

#[test]
fn poison_ticks_on_its_interval_and_expires() {
    let mut p = Player::new(ORIGIN);
    p.add_status(poison(5, 1_000_000, 2_000_000));
    p.handle_status_effects(600_000);
    assert_eq!(p.health, 100);
    p.handle_status_effects(600_000);
    assert_eq!(p.health, 95);
    p.handle_status_effects(600_000);
    assert_eq!(p.health, 95);
    assert_eq!(p.statuses.len(), 1);
    assert_eq!(p.statuses[0].get_remaining_duration(), 200_000);
    p.handle_status_effects(600_000);
    assert_eq!(p.health, 90);
    assert!(p.statuses.is_empty());
}

#[test]
fn burn_and_regeneration_cancel_out() {
    let mut p = Player::new(ORIGIN);
    p.health = 50;
    p.add_status(Status::Burn(BurnStatus {
        damage_per_tick: 7,
        tick_interval: 100_000,
        remaining_duration: 1_000_000,
        time_since_last_tick: 0,
    }));
    p.add_status(Status::Regeneration(RegenerationStatus {
        heal_per_tick: 7,
        tick_interval: 100_000,
        remaining_duration: 1_000_000,
        time_since_last_tick: 0,
    }));
    p.handle_status_effects(100_000);
    assert_eq!(p.health, 50);
}

#[test]
fn second_status_of_a_kind_replaces_the_first() {
    let mut p = Player::new(ORIGIN);
    p.add_status(Status::Slow(SlowStatus { speed_multiplier: 500, remaining_duration: 1_000_000 }));
    p.add_status(Status::Stun(StunStatus { remaining_duration: 1_000 }));
    p.add_status(Status::Slow(SlowStatus { speed_multiplier: 250, remaining_duration: 3_000_000 }));
    let slows: Vec<&Status> = p.statuses.iter().filter(|s| matches!(s, Status::Slow(_))).collect();
    assert_eq!(slows.len(), 1);
    assert_eq!(
        *slows[0],
        Status::Slow(SlowStatus { speed_multiplier: 250, remaining_duration: 3_000_000 })
    );
    assert_eq!(p.statuses.len(), 2);
}

#[test]
fn speed_multiplier_combines_slow_and_boost_and_stun_stops() {
    let mut p = Player::new(ORIGIN);
    assert_eq!(p.calculate_speed_multiplier(), 1000);
    p.add_status(Status::Slow(SlowStatus { speed_multiplier: 500, remaining_duration: 1_000_000 }));
    p.add_status(Status::SpeedBoost(SpeedBoostStatus {
        speed_multiplier: 3000,
        remaining_duration: 1_000_000,
    }));
    assert_eq!(p.calculate_speed_multiplier(), 1500);
    p.handle_user_input(MoveInput { up: false, down: false, left: false, right: true }, 100_000);
    assert_eq!(p.position, Position { x: 45_000, y: 0 });
    p.add_status(Status::Stun(StunStatus { remaining_duration: 1_000_000 }));
    assert_eq!(p.calculate_speed_multiplier(), 0);
    p.handle_user_input(MoveInput { up: true, down: false, left: false, right: false }, 100_000);
    assert_eq!(p.position, Position { x: 45_000, y: 0 });
    assert_eq!(p.moving_direction, Direction::Up);
}

#[test]
fn input_moves_player_and_last_key_sets_direction() {
    let mut p = Player::new(ORIGIN);
    p.handle_user_input(MoveInput { up: true, down: false, left: true, right: false }, 1_000_000);
    assert_eq!(p.position, Position { x: -300_000, y: -300_000 });
    assert_eq!(p.moving_direction, Direction::Left);
    p.handle_user_input(no_input(), 1_000_000);
    assert_eq!(p.moving_direction, Direction::Left);
}

#[test]
fn status_names_and_durations_are_listed() {
    let mut p = Player::new(ORIGIN);
    p.add_status(poison(1, 1_000_000, 2_000_000));
    p.add_status(Status::SpeedBoost(SpeedBoostStatus {
        speed_multiplier: 1500,
        remaining_duration: 500_000,
    }));
    let names = p.get_active_status_names();
    assert_eq!(names, vec![("Poison".to_string(), 2_000_000), ("Speed Boost".to_string(), 500_000)]);
    assert!(!p.statuses[0].is_expired());
}

#[test]
fn spawn_interval_never_grows_and_respects_floor() {
    let reg = AllEnemies::new();
    let a = reg.spawn_interval(0);
    let b = reg.spawn_interval(60_000_000);
    let c = reg.spawn_interval(600_000_000);
    let d = reg.spawn_interval(1_000_000_000_000);
    assert_eq!(a, 1_000_000);
    assert_eq!(b, 500_000);
    assert!(c <= b && d <= c);
    assert_eq!(d, 200_000);
}

#[test]
fn knockback_suspends_seeking() {
    let tuning = EnemyTuning::standard();
    let mut e = enemy_at(1, 300_000, 0);
    e.knockback_cooldown = 200_000;
    e.velocity_x = 100_000;
    e.integrate(ORIGIN, 16_000, &tuning);
    assert_eq!(e.velocity_x, 96_000);
    assert_eq!(e.velocity_y, 0);
    assert_eq!(e.position.x, 300_000 + 1_536);
    assert_eq!(e.knockback_cooldown, 184_000);
}

#[test]
fn contact_damages_player_at_attack_cadence_and_knocks_back() {
    let mut p = Player::new(ORIGIN);
    let mut reg = AllEnemies::new();
    reg.enemies.push(enemy_at(1, 40_000, 0));
    p.handle_enemies(&mut reg, 16_000);
    assert_eq!(p.health, 100);
    assert_eq!(reg.enemies[0].knockback_cooldown, 200_000);
    assert_eq!(reg.enemies[0].velocity_x, 296_000);
    assert_eq!(reg.enemies[0].time_since_last_attack, 16_000);
    let mut q = Player::new(ORIGIN);
    let mut reg2 = AllEnemies::new();
    reg2.enemies.push(enemy_at(2, 0, 0));
    q.handle_enemies(&mut reg2, 1_000_000);
    assert_eq!(q.health, 90);
    assert_eq!(reg2.enemies[0].time_since_last_attack, 0);
}

#[test]
fn projectile_on_cull_boundary_is_kept_and_beyond_is_dropped() {
    let p = Player::new(ORIGIN);
    let edge = SCREEN_HALF_WIDTH + CULL_BUFFER;
    let still = |x: i64, y: i64| {
        Projectile::Bolter(BolterProjectile {
            speed: 0,
            damage: 10,
            hits: 0,
            position: Position { x, y },
            direction_x: 1_000_000,
            direction_y: 0,
            width: 14_000,
            height: 14_000,
        })
    };
    let mut all = AllProjectiles::new();
    let mut fresh = vec![
        still(edge, 0),
        still(edge + 1, 0),
        still(-edge, 0),
        still(0, SCREEN_HALF_HEIGHT + CULL_BUFFER + 1),
    ];
    all.append(&mut fresh);
    assert!(fresh.is_empty());
    all.move_projectiles(&p, 16_000);
    assert_eq!(all.projectiles.len(), 2);
    assert_eq!(all.projectiles[0], still(edge, 0));
    assert_eq!(all.projectiles[1], still(-edge, 0));
}

#[test]
fn bolter_strikes_two_enemies_then_leaves() {
    let mut reg = AllEnemies::new();
    reg.enemies.push(enemy_at(1, 0, 0));
    reg.enemies.push(enemy_at(2, 10_000, 0));
    let bolt = BolterProjectile::new(Position { x: 5_000, y: 0 }, 1_000_000, 0, 10);
    let mut all = AllProjectiles::new();
    all.append(&mut vec![Projectile::Bolter(bolt)]);
    all.handle_collision(&mut reg);
    assert_eq!(reg.enemies[0].health, 20);
    assert_eq!(reg.enemies[1].health, 20);
    assert!(all.projectiles.is_empty());
    reg.enemies.push(enemy_at(3, 5_000, 0));
    all.handle_collision(&mut reg);
    assert_eq!(reg.enemies[2].health, 30);
}

#[test]
fn bolt_hit_counter_counts_every_enemy() {
    let mut reg = AllEnemies::new();
    reg.enemies = vec![enemy_at(1, 0, 0), enemy_at(2, 0, 10_000), enemy_at(3, 900_000, 0)];
    let mut bolt = BolterProjectile::new(ORIGIN, 0, 1_000_000, 10);
    bolt.handle_collision(&mut reg);
    assert_eq!(bolt.hits, 2);
    assert_eq!(reg.enemies[2].health, 30);
}

#[test]
fn dead_enemies_leave_at_the_next_sweep() {
    let mut reg = AllEnemies::new();
    let mut e = enemy_at(1, 0, 0);
    e.take_damage(45);
    assert_eq!(e.health, -15);
    assert!(!e.is_alive());
    reg.enemies.push(e);
    reg.enemies.push(enemy_at(2, 0, 0));
    reg.remove_dead();
    assert_eq!(reg.enemies.len(), 1);
    assert_eq!(reg.enemies[0].id, 2);
}

#[test]
fn sword_strikes_each_enemy_once_per_swing() {
    let mut reg = AllEnemies::new();
    reg.enemies = vec![enemy_at(1, 60_000, 0)];
    let player = Player::new(ORIGIN);
    let mut sword = PowerSwordProjectile::new(Position { x: 32_000, y: 0 }, Direction::Right, 24, 7);
    assert_eq!(sword.get_slash_progress(), 0);
    assert_eq!(sword.get_slash_offset(), -125_000);
    sword.handle_move(&player, 125_000);
    assert_eq!(sword.get_slash_progress(), 500);
    assert_eq!(sword.get_slash_offset(), 0);
    assert_eq!(sword.get_collision_rect(), Rect { x: 32_000, y: -10_000, width: 120_000, height: 20_000 });
    sword.handle_collision(&mut reg);
    assert_eq!(reg.enemies[0].health, 6);
    sword.handle_collision(&mut reg);
    assert_eq!(reg.enemies[0].health, 6);
    let mut next = PowerSwordProjectile::new(Position { x: 32_000, y: 0 }, Direction::Right, 24, 8);
    next.handle_move(&player, 125_000);
    next.handle_collision(&mut reg);
    assert_eq!(reg.enemies[0].health, -18);
}

#[test]
fn sword_follows_player_and_expires() {
    let mut all = AllProjectiles::new();
    let mut p = Player::new(ORIGIN);
    p.moving_direction = Direction::Left;
    let sword = PowerSwordProjectile::new(ORIGIN, Direction::Right, 24, 1);
    all.append(&mut vec![Projectile::PowerSword(sword)]);
    all.move_projectiles(&p, 100_000);
    match all.projectiles[0] {
        Projectile::PowerSword(s) => {
            assert_eq!(s.position, Position { x: -32_000, y: 0 });
            assert_eq!(s.direction, Direction::Left);
            assert_eq!(s.lifetime, 150_000);
        }
        _ => panic!("expected a slash"),
    }
    all.move_projectiles(&p, 200_000);
    match all.projectiles[0] {
        Projectile::PowerSword(s) => assert_eq!(s.lifetime, -50_000),
        _ => panic!("expected a slash"),
    }
    let mut reg = AllEnemies::new();
    all.handle_collision(&mut reg);
    assert!(all.projectiles.is_empty());
}

#[test]
fn melta_beam_widens_with_distance() {
    let mut beam = MultiMeltaProjectile::new(ORIGIN, 1_000_000, 0, 18);
    assert_eq!(beam.current_width(), 28_000);
    beam.handle_move(175_000);
    assert_eq!(beam.position, Position { x: 175_000, y: 0 });
    assert_eq!(beam.distance_traveled, 175_000);
    assert_eq!(beam.current_width(), 84_000);
    assert_eq!(beam.collision_centers(), [(150_000, 0), (175_000, 0), (200_000, 0)]);
    beam.handle_move(1_000_000);
    assert_eq!(beam.distance_traveled, 1_175_000);
    assert_eq!(beam.current_width(), 140_000);
}

#[test]
fn melta_beam_hits_with_its_discs_and_spends_at_range() {
    let mut reg = AllEnemies::new();
    reg.enemies = vec![enemy_at(1, 250_000, 0)];
    let mut beam = MultiMeltaProjectile::new(Position { x: 175_000, y: 0 }, 1_000_000, 0, 18);
    beam.distance_traveled = 175_000;
    beam.handle_collision(&mut reg);
    assert_eq!(reg.enemies[0].health, 12);
    let far = MultiMeltaProjectile::new(Position { x: 0, y: 500_000 }, 1_000_000, 0, 18);
    let mut p = Projectile::MultiMelta(far);
    p.strike(&mut reg.enemies);
    assert_eq!(reg.enemies[0].health, 12);
    assert!(!p.is_spent());
    p.handle_move(&Player::new(ORIGIN), 400_000);
    assert!(p.is_spent());
}

#[test]
fn shotgun_fans_five_pellets_around_movement_direction() {
    let mut p = Player::new(ORIGIN);
    p.weapons[0] = Some(Weapon::shotgun());
    p.moving_direction = Direction::Down;
    let shots = p.handle_weapons(1_200_000);
    assert_eq!(shots.len(), 5);
    let dirs: Vec<(i64, i64)> = shots
        .iter()
        .map(|s| match s {
            Projectile::Shotgun(q) => (q.direction_x, q.direction_y),
            _ => panic!("expected a pellet"),
        })
        .collect();
    assert_eq!(
        dirs,
        vec![(342_020, 939_693), (173_648, 984_808), (0, 1_000_000), (-173_648, 984_808), (-342_020, 939_693)]
    );
}

#[test]
fn weapons_stack_fill_slots_and_refuse_when_full() {
    let mut p = Player::new(ORIGIN);
    assert!(p.add_weapon(Weapon::bolter()));
    assert_eq!(p.weapons[0].unwrap().data().stack_count, 2);
    assert!(p.add_weapon(Weapon::shotgun()));
    assert!(!p.has_full_weapon_slots());
    assert!(p.add_weapon(Weapon::power_sword()));
    assert!(p.has_full_weapon_slots());
    assert!(!p.add_weapon(Weapon::multi_melta()));
    assert_eq!(p.weapons[1], Some(Weapon::shotgun()));
    assert_eq!(p.weapons[2], Some(Weapon::power_sword()));
}

#[test]
fn spawn_with_rolls_places_enemy_on_the_ring() {
    let mut reg = AllEnemies::new();
    reg.spawn_enemies_with(ORIGIN, 500_000, 0, 0, 0);
    assert!(reg.enemies.is_empty());
    reg.spawn_enemies_with(Position { x: 1_000, y: 2_000 }, 500_000, 3, 720_000, 3);
    assert_eq!(reg.enemies.len(), 1);
    assert_eq!(reg.enemies[0].position, Position { x: 1_341_000, y: 2_000 });
    assert_eq!(reg.enemies[0].kind, EnemyKind::Brute);
    assert_eq!(reg.enemies[0].id, 1);
    assert_eq!(reg.time_since_spawn, 0);
    assert_eq!(reg.elapsed, 1_000_000);
}

#[test]
fn random_spawn_lands_on_an_edge_of_the_ring() {
    let mut reg = AllEnemies::new();
    reg.spawn_enemies(ORIGIN, 1_000_000);
    assert_eq!(reg.enemies.len(), 1);
    let p = reg.enemies[0].position;
    let on_horizontal = (p.y == -820_000 || p.y == 820_000) && p.x >= -1_240_000 && p.x <= 1_240_000;
    let on_vertical = (p.x == -1_340_000 || p.x == 1_340_000) && p.y >= -720_000 && p.y <= 720_000;
    assert!(on_horizontal || on_vertical);
}

#[test]
fn unit_vectors_and_square_roots() {
    assert_eq!(isqrt(0), 0);
    assert_eq!(isqrt(24), 4);
    assert_eq!(isqrt(25), 5);
    assert_eq!(unit_toward(ORIGIN, Position { x: 3, y: 4 }), Some((600_000, 800_000)));
    assert_eq!(unit_toward(ORIGIN, Position { x: -5, y: 0 }), Some((-1_000_000, 0)));
    assert_eq!(unit_toward(ORIGIN, ORIGIN), None);
}

#[test]
fn rectangle_and_circle_overlap_edges() {
    let a = Rect { x: 0, y: 0, width: 10, height: 10 };
    let touching = Rect { x: 10, y: 0, width: 10, height: 10 };
    let inside = Rect { x: 9, y: 9, width: 10, height: 10 };
    assert!(!rects_overlap(&a, &touching));
    assert!(rects_overlap(&a, &inside));
    assert!(circle_meets_rect(13, 14, 5, &a));
    assert!(!circle_meets_rect(14, 14, 5, &a));
}

#[test]
fn pickups_spawn_within_radius_and_are_collected() {
    let mut pickups = AllWeaponPickups::new(ORIGIN);
    assert_eq!(pickups.pickups.len(), 6);
    for p in &pickups.pickups {
        let (dx, dy) = (p.position.x as i128, p.position.y as i128);
        assert!(dx * dx + dy * dy <= (SPAWN_RADIUS as i128) * (SPAWN_RADIUS as i128));
    }
    let mut player = Player::new(ORIGIN);
    let near = WeaponPickup { weapon: Weapon::multi_melta(), position: Position { x: 50_000, y: 0 }, radius: 24_000 };
    let far = WeaponPickup { weapon: Weapon::shotgun(), position: Position { x: 60_000, y: 0 }, radius: 24_000 };
    assert!(is_pickup_in_range(&player, &near));
    assert!(!is_pickup_in_range(&player, &far));
    pickups.pickups = vec![near, far];
    pickups.handle_pickups(&mut player);
    assert_eq!(pickups.pickups, vec![far]);
    assert_eq!(player.weapons[1], Some(Weapon::multi_melta()));
}

#[test]
fn full_slots_clear_the_pickups() {
    let mut player = Player::new(ORIGIN);
    player.add_weapon(Weapon::shotgun());
    player.add_weapon(Weapon::power_sword());
    let mut pickups = AllWeaponPickups::new(ORIGIN);
    pickups.update(&mut player);
    assert!(pickups.pickups.is_empty());
}

#[test]
fn a_tick_runs_every_stage() {
    let mut g = GameState::new(Player::new(ORIGIN));
    assert!(g.player_alive());
    g.game_tick(no_input(), Position { x: 100_000, y: 0 }, 1_000_000);
    assert_eq!(g.enemies.enemies.len(), 1);
    assert_eq!(g.projectiles.projectiles.len(), 1);
    assert_eq!((g.player.aim_x, g.player.aim_y), (1_000_000, 0));
    assert!(g.player_alive());
}

#[test]
fn follow_player_moves_enemies_without_contact() {
    let mut reg = AllEnemies::new();
    reg.enemies.push(enemy_at(1, 300_000, 0));
    reg.enemies.push(enemy_at(2, 0, 0));
    reg.follow_player(ORIGIN, 16_000);
    assert_eq!(reg.enemies[0].velocity_x, -24_000);
    assert_eq!(reg.enemies[0].position, Position { x: 299_616, y: 0 });
    assert_eq!(reg.enemies[1].position, ORIGIN);
    assert_eq!(reg.enemies[1].time_since_last_attack, 0);
}

#[test]
fn tick_sweeps_enemies_that_died_last_frame() {
    let mut g = GameState::new(Player::new(ORIGIN));
    let mut dead = enemy_at(1, 600_000, 0);
    dead.take_damage(30);
    g.enemies.enemies.push(dead);
    g.enemies.enemies.push(enemy_at(2, 600_000, 0));
    g.game_tick(no_input(), Position { x: 100_000, y: 0 }, 16_000);
    assert_eq!(g.enemies.enemies.len(), 1);
    assert_eq!(g.enemies.enemies[0].id, 2);
    assert!(g.enemies.enemies[0].position.x < 600_000);
}

#[test]
fn empty_collections_are_left_alone() {
    let mut p = Player::new(ORIGIN);
    p.handle_status_effects(16_000);
    assert_eq!(p.health, 100);
    assert!(p.statuses.is_empty());
    let mut all = AllProjectiles::new();
    all.move_projectiles(&p, 16_000);
    let mut reg = AllEnemies::new();
    all.handle_collision(&mut reg);
    assert!(all.projectiles.is_empty() && reg.enemies.is_empty());
    p.handle_enemies(&mut reg, 16_000);
    assert_eq!(p.health, 100);
}

#[test]
fn status_display_names() {
    let names: Vec<&str> = [
        poison(1, 1, 1),
        Status::Burn(BurnStatus { damage_per_tick: 1, tick_interval: 1, remaining_duration: 1, time_since_last_tick: 0 }),
        Status::Slow(SlowStatus { speed_multiplier: 1, remaining_duration: 1 }),
        Status::Stun(StunStatus { remaining_duration: 0 }),
        Status::Regeneration(RegenerationStatus { heal_per_tick: 1, tick_interval: 1, remaining_duration: 1, time_since_last_tick: 0 }),
        Status::SpeedBoost(SpeedBoostStatus { speed_multiplier: 1, remaining_duration: 1 }),
    ]
    .iter()
    .map(|s| s.get_display_name())
    .collect();
    assert_eq!(names, vec!["Poison", "Burn", "Slow", "Stun", "Regeneration", "Speed Boost"]);
    assert!(Status::Stun(StunStatus { remaining_duration: 0 }).is_expired());
}

#[test]
fn knockback_cooldown_runs_below_zero() {
    let tuning = EnemyTuning::standard();
    let mut e = enemy_at(1, 300_000, 0);
    e.knockback_cooldown = 10_000;
    e.integrate(ORIGIN, 16_000, &tuning);
    assert_eq!(e.knockback_cooldown, -6_000);
    assert!(e.velocity_x < 0);
    e.integrate(ORIGIN, 16_000, &tuning);
    assert_eq!(e.knockback_cooldown, -6_000);
}

#[test]
fn overkill_leaves_negative_health_and_sums_damage() {
    let mut reg = AllEnemies::new();
    let mut weak = enemy_at(1, 0, 0);
    weak.health = 5;
    reg.enemies.push(weak);
    let mut all = AllProjectiles::new();
    all.append(&mut vec![
        Projectile::Bolter(BolterProjectile::new(ORIGIN, 1_000_000, 0, 10)),
        Projectile::Bolter(BolterProjectile::new(ORIGIN, 1_000_000, 0, 10)),
    ]);
    all.handle_collision(&mut reg);
    assert_eq!(reg.enemies[0].health, -15);
    assert!(all.projectiles.is_empty());
}

#[test]
fn strong_slow_and_boost_multiply_without_cap() {
    let mut p = Player::new(ORIGIN);
    p.add_status(Status::SpeedBoost(SpeedBoostStatus { speed_multiplier: 50_000, remaining_duration: 1_000_000 }));
    p.add_status(Status::Slow(SlowStatus { speed_multiplier: 40_000, remaining_duration: 1_000_000 }));
    assert_eq!(p.calculate_speed_multiplier(), 2_000_000);
}

#[test]
fn bolt_hit_rectangle_starts_at_its_position() {
    let mut reg = AllEnemies::new();
    reg.enemies = vec![enemy_at(1, 40_000, 40_000), enemy_at(2, -36_000, 0)];
    let mut bolt = BolterProjectile::new(ORIGIN, 1_000_000, 0, 10);
    bolt.handle_collision(&mut reg);
    assert_eq!(reg.enemies[0].health, 20);
    assert_eq!(reg.enemies[1].health, 30);
    assert_eq!(bolt.hits, 1);
}

#[test]
fn an_older_slash_does_not_strike_an_enemy_a_newer_one_struck() {
    let mut reg = AllEnemies::new();
    reg.enemies = vec![enemy_at(1, 60_000, 0)];
    let player = Player::new(ORIGIN);
    let mut older = PowerSwordProjectile::new(Position { x: 32_000, y: 0 }, Direction::Right, 24, 3);
    let mut newer = PowerSwordProjectile::new(Position { x: 32_000, y: 0 }, Direction::Right, 24, 4);
    older.handle_move(&player, 125_000);
    newer.handle_move(&player, 125_000);
    newer.handle_collision(&mut reg);
    older.handle_collision(&mut reg);
    newer.handle_collision(&mut reg);
    assert_eq!(reg.enemies[0].health, 6);
    assert_eq!(reg.enemies[0].last_swing, 4);
}
