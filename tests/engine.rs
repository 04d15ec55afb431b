use complex_crystals::data_types::{ArmorType, SampleObject, WeaponType};
use complex_crystals::engine::GameEngine;
use complex_crystals::server_manager::{ServerManager, TICK_MICROS};

fn ship(name: &str, owner: &str, x: i64, y: i64) -> SampleObject {
    let mut o = SampleObject::new_empty();
    o.name = name.to_string();
    o.owner = owner.to_string();
    o.x = x;
    o.y = y;
    o.drive_dest_x = x;
    o.drive_dest_y = y;
    o
}

#[test]
fn get_object_owner_mismatch_is_none() {
    let mut e = GameEngine::new(1000, 1000);
    e.add_object(ship("s1", "alice", 0, 0));
    let name = "s1".to_string();
    assert!(e.get_object(&name, Some(&"bob".to_string())).is_none());
    let found = e.get_object(&name, Some(&"alice".to_string())).unwrap();
    assert_eq!(found.owner, "alice");
    assert!(e.get_object(&name, None).is_some());
    assert!(e.get_object(&"s2".to_string(), None).is_none());
}

#[test]
fn add_replaces_same_name() {
    let mut e = GameEngine::new(10, 20);
    e.add_object(ship("s1", "alice", 0, 0));
    e.add_object(ship("s2", "alice", 1, 1));
    e.add_object(ship("s1", "bob", 5, 5));
    let listing = e.get_objects();
    assert_eq!(listing.len(), 2);
    assert_eq!(listing[0].name, "s1");
    assert_eq!(listing[0].owner, "bob");
    assert_eq!((listing[0].x, listing[0].y), (5, 5));
    assert_eq!(listing[1].name, "s2");
    let size = e.get_world_size();
    assert_eq!((size.width, size.height), (10, 20));
}

#[test]
fn remove_object_by_name() {
    let mut e = GameEngine::new(10, 10);
    e.add_object(ship("s1", "alice", 0, 0));
    e.add_object(ship("s2", "alice", 0, 0));
    let gone = e.remove_object(&"s1".to_string()).unwrap();
    assert_eq!(gone.name, "s1");
    assert!(e.remove_object(&"s1".to_string()).is_none());
    assert_eq!(e.get_objects().len(), 1);
}

#[test]
fn tick_moves_then_applies_weapon_damage() {
    let mut e = GameEngine::new(1000, 1000);
    let mut shooter = ship("shooter", "alice", 0, 0);
    shooter.weapon_type = WeaponType::Laser;
    shooter.weapon_radius = 1_000_000;
    shooter.weapon_fire(10_000_000, 0);
    shooter.shell_health = 5_000;
    let mut target = ship("target", "bob", 9_000_000, 0);
    target.drive_speed = 1;
    target.drive_move_to(20_000_000, 0);
    target.shell_type = ArmorType::Middle;
    target.shell_health = 5_000;
    let mut far = ship("far", "bob", 0, 9_000_000);
    far.shell_health = 5_000;
    e.add_object(shooter);
    e.add_object(target);
    e.add_object(far);
    // the target first moves one unit onto the weapon's target point
    e.game_loop(1_000_000);
    let t = e.get_object(&"target".to_string(), None).unwrap();
    assert_eq!(t.x, 10_000_000);
    assert_eq!(t.shell_health, 5_000 - 100);
    let s = e.get_object(&"shooter".to_string(), None).unwrap();
    assert_eq!(s.shell_health, 5_000);
    let f = e.get_object(&"far".to_string(), None).unwrap();
    assert_eq!(f.shell_health, 5_000);
}

#[test]
fn engine_info_and_tps() {
    let mut e = GameEngine::new(1, 1);
    let info = e.get_server_info();
    assert_eq!(info.name, "ServerName");
    assert_eq!(info.status, "SomeStatus");
    assert_eq!(info.tps, 0);
    e.update_tps(59);
    assert_eq!(e.get_server_info().tps, 59);
}

#[test]
fn manager_ticks_at_sixty_hertz() {
    let mut e = GameEngine::new(1000, 1000);
    let mut o = ship("mover", "alice", 0, 0);
    o.drive_speed = 1;
    o.drive_move_to(1_000_000_000, 0);
    e.add_object(o);
    let mut m = ServerManager::new(e);
    m.select_object("mover".to_string());
    m.update(TICK_MICROS - 1);
    assert_eq!(m.get_selected_object().unwrap().x, 0);
    m.update(1);
    // one tick, run with the elapsed time of the call that reached it
    assert_eq!(m.get_selected_object().unwrap().x, 1);
    m.update(TICK_MICROS);
    assert_eq!(m.get_selected_object().unwrap().x, 1 + TICK_MICROS as i64);
}

#[test]
fn manager_reports_ticks_per_second() {
    let e = GameEngine::new(1000, 1000);
    let mut m = ServerManager::new(e);
    for _ in 0..59 {
        m.update(TICK_MICROS);
    }
    assert_eq!(m.get_server_info().tps, 0);
    m.update(TICK_MICROS);
    // 60 ticks of 16667 us pass one second at the 60th tick
    assert_eq!(m.get_server_info().tps, 60);
    assert_eq!(m.check_connection().unwrap().tps, 60);
    assert!(m.get_objects().is_empty());
}

#[test]
fn manager_selection_of_missing_object() {
    let mut m = ServerManager::new(GameEngine::new(1, 1));
    assert!(m.get_selected_object().is_none());
    m.select_object("ghost".to_string());
    assert!(m.get_selected_object().is_none());
}
