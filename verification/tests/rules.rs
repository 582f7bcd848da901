use tower_defense::board::MAP_SIZE;
use tower_defense::commands::{client_comms, server_comms, BuildCommand, BuildType, ClientEvent, EventType};
use tower_defense::defense::{discover_target, shoot_target, ShotOutcome, Turret};
use tower_defense::enemies::{move_enemies, spawn_step, Enemy, EnemyFrame, Game, SpawnAction, SpawnTimer, SPAWN_HEALTH};
use tower_defense::paths::{path_waypoints, waypoint, PATH_LEN};
use tower_defense::users::UserRegistry;

#[test]
fn map_size_is_fixed() {
    assert_eq!(MAP_SIZE, (1024, 254));
}

#[test]
fn waypoints_of_both_paths() {
    assert_eq!(waypoint(0, 0), (15, 102));
    assert_eq!(waypoint(0, 15), (980, 183));
    assert_eq!(waypoint(1, 0), (33, 240));
    assert_eq!(waypoint(1, 15), (981, 188));
    // every tag other than 0 selects the second path
    assert_eq!(waypoint(7, 4), (278, 153));
    assert_eq!(waypoint(-1, 5), (278, 153));
    assert_eq!(path_waypoints(0).len(), PATH_LEN);
    assert_eq!(path_waypoints(1)[8], (449, 120));
}

#[test]
fn spawned_enemy_walks_to_second_waypoint() {
    let e = Enemy::spawned(1);
    assert_eq!(e, Enemy { health: 4, target_index: 1, path: 1 });
    assert_eq!(e.target(), (61, 230));
    assert_eq!(Enemy::spawned(0).target(), (117, 107));
}

#[test]
fn first_wave_has_ten_enemies_then_level_two() {
    let mut game = Game::new();
    assert_eq!(game, Game { level: 1, enemies_left: 10 });
    let mut spawner = SpawnTimer::new();
    let mut tags = Vec::new();
    for _ in 0..10 {
        match spawn_step(&mut game, &mut spawner, true) {
            SpawnAction::Spawn { enemy, at } => {
                assert_eq!(enemy.health, SPAWN_HEALTH);
                assert_eq!(enemy.target_index, 1);
                assert_eq!(at, waypoint(enemy.path, 0));
                tags.push(enemy.path);
            }
            other => panic!("unexpected {:?}", other),
        }
    }
    assert_eq!(tags, vec![1, 0, 1, 0, 1, 0, 1, 0, 1, 0]);
    assert_eq!(game.enemies_left, 0);
    assert_eq!(spawn_step(&mut game, &mut spawner, true), SpawnAction::NextWave);
    assert_eq!(game, Game { level: 2, enemies_left: 14 });
    assert_eq!(spawner.last_spawned, 1);
}

#[test]
fn spawner_waits_until_ready() {
    let mut game = Game::new();
    let mut spawner = SpawnTimer::new();
    assert_eq!(spawn_step(&mut game, &mut spawner, false), SpawnAction::Wait);
    assert_eq!(game, Game { level: 1, enemies_left: 10 });
    // the tag switches even when nothing is placed
    assert_eq!(spawner.last_spawned, 1);
    let first = spawn_step(&mut game, &mut spawner, true);
    assert_eq!(
        first,
        SpawnAction::Spawn { enemy: Enemy { health: 4, target_index: 1, path: 0 }, at: (15, 102) }
    );
    assert_eq!(game.enemies_left, 9);
}

#[test]
fn wave_size_grows_with_square_of_level() {
    let mut game = Game { level: 9, enemies_left: 0 };
    let mut spawner = SpawnTimer { last_spawned: 5 };
    assert_eq!(spawn_step(&mut game, &mut spawner, false), SpawnAction::NextWave);
    assert_eq!(game, Game { level: 10, enemies_left: 110 });
    assert_eq!(spawner.last_spawned, 0);
    let mut top = Game { level: 65534, enemies_left: 0 };
    assert_eq!(spawn_step(&mut top, &mut spawner, true), SpawnAction::NextWave);
    assert_eq!(top, Game { level: 65535, enemies_left: 4294836235 });
}

#[test]
fn march_advances_enemies_that_reached_their_waypoint() {
    let mut enemies = vec![
        Enemy { health: 4, target_index: 1, path: 0 },
        Enemy { health: 2, target_index: 7, path: 1 },
    ];
    let r = move_enemies(&mut enemies, &vec![true, false]);
    assert_eq!(r, EnemyFrame::Continue);
    assert_eq!(enemies[0], Enemy { health: 4, target_index: 2, path: 0 });
    assert_eq!(enemies[1], Enemy { health: 2, target_index: 7, path: 1 });
}

#[test]
fn march_stops_at_first_enemy_without_health() {
    let mut enemies = vec![
        Enemy { health: 1, target_index: 3, path: 0 },
        Enemy { health: 0, target_index: 4, path: 0 },
        Enemy { health: -2, target_index: 5, path: 1 },
    ];
    let r = move_enemies(&mut enemies, &vec![true, true, true]);
    assert_eq!(r, EnemyFrame::Killed(1));
    assert_eq!(enemies[0].target_index, 4);
    assert_eq!(enemies[1].target_index, 4);
    assert_eq!(enemies[2].target_index, 5);
}

#[test]
fn march_past_last_waypoint_loses_the_game() {
    let mut enemies = vec![
        Enemy { health: 3, target_index: 15, path: 1 },
        Enemy { health: 3, target_index: 2, path: 1 },
    ];
    let r = move_enemies(&mut enemies, &vec![true, true]);
    assert_eq!(r, EnemyFrame::Lost(0));
    assert_eq!(enemies[0].target_index, 16);
    assert_eq!(enemies[1].target_index, 2);
    let mut empty: Vec<Enemy> = Vec::new();
    assert_eq!(move_enemies(&mut empty, &Vec::new()), EnemyFrame::Continue);
}

#[test]
fn turret_takes_first_enemy_in_range() {
    let mut t = Turret::new();
    assert_eq!(t.target, None);
    discover_target(&mut t, &vec![10, 20, 30], &vec![false, true, true]);
    assert_eq!(t.target, Some(20));
    discover_target(&mut t, &vec![10, 20, 30], &vec![true, true, true]);
    assert_eq!(t.target, Some(20));
    let mut u = Turret::new();
    discover_target(&mut u, &vec![10, 20], &vec![false, false]);
    assert_eq!(u.target, None);
}

#[test]
fn four_hits_finish_a_fresh_enemy() {
    let ids = vec![7, 8];
    let mut enemies = vec![Enemy::spawned(0), Enemy::spawned(1)];
    let mut t = Turret { target: Some(8) };
    for expected in [3i8, 2, 1] {
        assert_eq!(shoot_target(&mut t, false, &ids, &mut enemies), ShotOutcome::Fired(1));
        assert_eq!(enemies[1].health, expected);
        assert_eq!(t.target, Some(8));
    }
    assert_eq!(shoot_target(&mut t, true, &ids, &mut enemies), ShotOutcome::CoolingDown);
    assert_eq!(enemies[1].health, 1);
    assert_eq!(shoot_target(&mut t, false, &ids, &mut enemies), ShotOutcome::Fired(1));
    assert_eq!(enemies[1].health, 0);
    assert_eq!(t.target, None);
    assert_eq!(enemies[0].health, 4);
    assert_eq!(shoot_target(&mut t, false, &ids, &mut enemies), ShotOutcome::Idle);
}

#[test]
fn turret_lets_go_of_a_vanished_target() {
    let mut t = Turret { target: Some(99) };
    let mut enemies = vec![Enemy::spawned(0)];
    assert_eq!(shoot_target(&mut t, false, &vec![1], &mut enemies), ShotOutcome::Idle);
    assert_eq!(t.target, None);
    assert_eq!(enemies[0].health, 4);
}

#[test]
fn registry_hands_out_ids_from_one() {
    let mut r: UserRegistry<&str> = UserRegistry::new();
    assert_eq!(r.next_user_id(), 1);
    let a = r.register("alice");
    let b = r.register("bob");
    assert_eq!((a, b), (1, 2));
    assert_eq!(r.len(), 2);
    assert!(r.contains(1) && r.contains(2));
    r.unregister(a);
    assert!(!r.contains(1));
    assert_eq!(r.users().get(&2), Some(&"bob"));
    let c = r.register("carol");
    assert_eq!(c, 3);
    r.unregister(c);
    assert_eq!(r.len(), 1);
    r.unregister(42);
    assert_eq!(r.len(), 1);
}

#[test]
fn comms_keep_their_channel_ends() {
    let s = server_comms(flume::unbounded::<String>());
    s.send.send("hello".to_string()).unwrap();
    assert_eq!(s.recv.try_recv().unwrap(), "hello");
    let c = client_comms(flume::unbounded::<String>());
    let c2 = c.clone();
    c2.send.send("{\"type\":\"turret\",\"x\":1,\"y\":2}".to_string()).unwrap();
    assert_eq!(c.recv.try_recv().unwrap(), "{\"type\":\"turret\",\"x\":1,\"y\":2}");
}

#[test]
fn killed_event_carries_position() {
    let e = ClientEvent::killed(12, 34);
    assert_eq!(e, ClientEvent { event_type: EventType::Killed, x: 12, y: 34 });
    let b = BuildCommand { build_type: BuildType::Stun, x: 5, y: 6 };
    assert_eq!(b.build_type, BuildType::Stun);
}

#[test]
fn discovered_target_is_hit_next() {
    let ids = vec![3, 4, 5];
    let mut enemies = vec![Enemy::spawned(0), Enemy::spawned(1), Enemy::spawned(0)];
    let mut t = Turret::new();
    discover_target(&mut t, &ids, &vec![false, false, true]);
    assert_eq!(t.target, Some(5));
    assert_eq!(shoot_target(&mut t, false, &ids, &mut enemies), ShotOutcome::Fired(2));
    assert_eq!(enemies[2].health, 3);
    assert_eq!(enemies[2].target_index, 1);
    assert_eq!(enemies[0].health, 4);
    assert_eq!(enemies[1].health, 4);
}

#[test]
fn shot_down_enemy_is_removed_by_next_march() {
    let ids = vec![1, 2];
    let mut enemies = vec![Enemy::spawned(1), Enemy { health: 1, target_index: 6, path: 0 }];
    let mut t = Turret { target: Some(2) };
    assert_eq!(shoot_target(&mut t, false, &ids, &mut enemies), ShotOutcome::Fired(1));
    assert_eq!(t.target, None);
    assert_eq!(move_enemies(&mut enemies, &vec![false, false]), EnemyFrame::Killed(1));
}

#[test]
fn enemy_walks_whole_path_before_loss() {
    let mut enemies = vec![Enemy::spawned(1)];
    for k in 0..14 {
        assert_eq!(move_enemies(&mut enemies, &vec![true]), EnemyFrame::Continue);
        assert_eq!(enemies[0].target_index, 2 + k);
    }
    assert_eq!(move_enemies(&mut enemies, &vec![true]), EnemyFrame::Lost(0));
}
