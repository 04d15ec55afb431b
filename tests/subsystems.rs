use complex_crystals::data_types::{
    ArmorType, CargoType, ObjectType, RadarType, SampleObject, ServerInfo, WeaponType, WorldSize,
};

fn ship(name: &str, x: i64, y: i64) -> SampleObject {
    let mut o = SampleObject::new_empty();
    o.name = name.to_string();
    o.owner = "alice".to_string();
    o.x = x;
    o.y = y;
    o.drive_dest_x = x;
    o.drive_dest_y = y;
    o
}

#[test]
fn cargo_add_within_capacity() {
    let mut o = ship("a", 0, 0);
    o.cargo_max = 10;
    o.cargo_current = 4;
    assert!(o.cargo_add(6));
    assert_eq!(o.cargo_current, 10);
}

#[test]
fn cargo_add_over_capacity_changes_nothing() {
    let mut o = ship("a", 0, 0);
    o.cargo_max = 10;
    o.cargo_current = 4;
    assert!(!o.cargo_add(7));
    assert_eq!(o.cargo_current, 4);
    assert!(!o.cargo_add(u64::MAX));
    assert_eq!(o.cargo_current, 4);
}

#[test]
fn cargo_remove_down_to_zero() {
    let mut o = ship("a", 0, 0);
    o.cargo_max = 10;
    o.cargo_current = 4;
    assert!(o.cargo_remove(4));
    assert_eq!(o.cargo_current, 0);
}

#[test]
fn cargo_remove_below_zero_changes_nothing() {
    let mut o = ship("a", 0, 0);
    o.cargo_max = 10;
    o.cargo_current = 4;
    assert!(!o.cargo_remove(5));
    assert_eq!(o.cargo_current, 4);
}

#[test]
fn laser_on_building_takes_a_thousandth() {
    let mut o = ship("a", 0, 0);
    o.shell_type = ArmorType::Building;
    o.shell_health = 1_000_000;
    o.shell_damage(WeaponType::Laser, 100);
    // 0.1 hit points
    assert_eq!(o.shell_health, 1_000_000 - 100);
}

#[test]
fn laser_on_asteroid_takes_full_damage() {
    let mut o = ship("a", 0, 0);
    o.shell_type = ArmorType::Asteroid;
    o.shell_health = 1_000_000;
    o.shell_damage(WeaponType::Laser, 100);
    // 100 hit points
    assert_eq!(o.shell_health, 1_000_000 - 100_000);
}

#[test]
fn damage_table_rows() {
    let cases = [
        (ArmorType::Asteroid, WeaponType::Absent, 0),
        (ArmorType::Asteroid, WeaponType::Mining, 1000),
        (ArmorType::Building, WeaponType::Mining, 0),
        (ArmorType::Heavy, WeaponType::Mining, 0),
        (ArmorType::Heavy, WeaponType::Laser, 10),
        (ArmorType::Middle, WeaponType::Mining, 0),
        (ArmorType::Middle, WeaponType::Laser, 100),
        (ArmorType::Light, WeaponType::Mining, 1),
        (ArmorType::Light, WeaponType::Laser, 1000),
        (ArmorType::Light, WeaponType::Absent, 0),
    ];
    for (armor, weapon, permille) in cases {
        let mut o = ship("a", 0, 0);
        o.shell_type = armor;
        o.shell_health = 0;
        o.shell_damage(weapon, 1);
        assert_eq!(o.shell_health, -permille);
    }
}

#[test]
fn health_goes_negative() {
    let mut o = ship("a", 0, 0);
    o.shell_health = 500;
    o.shell_damage(WeaponType::Mining, 1);
    assert_eq!(o.shell_health, -500);
}

#[test]
fn radar_boundary_is_inclusive() {
    let mut s = ship("scanner", 0, 0);
    s.radar_radius = 5_000_000;
    let at_edge = ship("edge", 5_000_000, 0);
    let beyond = ship("beyond", 5_000_001, 0);
    let diagonal = ship("diag", 3_000_000, 4_000_000);
    let objects = vec![s.clone(), at_edge, beyond, diagonal];
    assert_eq!(s.radar_scan(&objects), vec![1, 3]);
}

#[test]
fn radar_skips_self_and_far_objects() {
    let mut s = ship("scanner", 0, 0);
    s.radar_radius = 10;
    let objects = vec![ship("far", -11, 0), s.clone(), ship("near", -3, 4)];
    assert_eq!(s.radar_scan(&objects), vec![2]);
}

#[test]
fn engine_update_moves_each_axis() {
    let mut o = ship("a", 0, 0);
    o.drive_speed = 2;
    o.drive_move_to(10_000_000, -10_000_000);
    o.engine_update(500_000);
    assert_eq!((o.x, o.y), (1_000_000, -1_000_000));
}

#[test]
fn engine_update_overshoots_without_clamping() {
    let mut o = ship("a", 0, 0);
    o.drive_speed = 3;
    o.drive_move_to(1_000_000, 0);
    o.engine_update(1_000_000);
    assert_eq!((o.x, o.y), (3_000_000, 0));
    o.engine_update(1_000_000);
    assert_eq!(o.x, 0);
}

#[test]
fn engine_update_at_rest_is_idle() {
    let mut o = ship("a", 7, -9);
    o.drive_speed = 100;
    o.engine_update(1_000_000);
    assert_eq!((o.x, o.y), (7, -9));
    o.engine_update(u64::MAX);
    assert_eq!((o.x, o.y), (7, -9));
}

#[test]
fn engine_update_saturates_at_range_end() {
    let mut o = ship("a", i64::MAX - 5, 0);
    o.drive_speed = u32::MAX;
    o.drive_move_to(i64::MAX, 0);
    o.engine_update(u64::MAX);
    assert_eq!(o.x, i64::MAX);
}

#[test]
fn weapon_fire_and_stop() {
    let mut o = ship("a", 0, 0);
    o.weapon_fire(3, 4);
    assert!(o.weapon_active);
    assert_eq!((o.weapon_target_x, o.weapon_target_y), (3, 4));
    o.weapon_stop();
    assert!(!o.weapon_active);
    assert_eq!((o.weapon_target_x, o.weapon_target_y), (3, 4));
}

#[test]
fn owner_filter() {
    let o = ship("a", 0, 0);
    assert!(o.check_owner(None));
    assert!(o.check_owner(Some(&"alice".to_string())));
    assert!(!o.check_owner(Some(&"bob".to_string())));
}

#[test]
fn empty_object_defaults() {
    let o = SampleObject::new_empty();
    assert_eq!(o.owner, "none");
    assert_eq!(o.name, "none");
    assert_eq!(o.otype, ObjectType::Asteroid);
    assert_eq!(o.radar_type, RadarType::Absent);
    assert_eq!(o.cargo_type, CargoType::Absent);
    assert_eq!(o.shell_health, 0);
}

#[test]
fn object_from_template() {
    let mut template = SampleObject::new_empty();
    template.otype = ObjectType::Harvester;
    template.drive_speed = 4;
    template.drive_dest_x = 99;
    let o = SampleObject::new(template, "bob".to_string(), "h1".to_string(), 5, 6);
    assert_eq!(o.owner, "bob");
    assert_eq!(o.name, "h1");
    assert_eq!(o.otype, ObjectType::Harvester);
    assert_eq!((o.x, o.y, o.drive_dest_x, o.drive_dest_y), (5, 6, 5, 6));
    assert_eq!(o.drive_speed, 4);
}

#[test]
fn replace_and_projection() {
    let mut o = ship("a", 1, 2);
    let other = ship("b", 3, 4);
    o.replace_object(other);
    let r = o.response();
    assert_eq!(r.name, "b");
    assert_eq!(r.owner, "alice");
    assert_eq!((r.x, r.y), (3, 4));
    let d = o.duplicate();
    assert_eq!(d.name, "b");
}

#[test]
fn type_names() {
    assert_eq!(ObjectType::Battlecruiser.to_string(), "Battlecruiser");
    assert_eq!(ObjectType::Builder.to_string(), "Builder");
    assert_eq!(RadarType::Absent.to_string(), "None");
    assert_eq!(RadarType::Military.to_string(), "Military");
    assert_eq!(WeaponType::Laser.to_string(), "Laser");
    assert_eq!(WeaponType::Absent.to_string(), "None");
    assert_eq!(CargoType::Battery.to_string(), "Battery");
    assert_eq!(ArmorType::Heavy.to_string(), "Heavy");
    assert_eq!(ArmorType::Building.to_string(), "Building");
}

#[test]
fn singletons_replace_wholesale() {
    let mut info = ServerInfo { name: "a".to_string(), status: "b".to_string(), tps: 1 };
    info.replace(ServerInfo { name: "c".to_string(), status: "d".to_string(), tps: 60 });
    assert_eq!((info.name.as_str(), info.status.as_str(), info.tps), ("c", "d", 60));
    let mut size = WorldSize { width: 1, height: 2 };
    size.replace(WorldSize { width: 3, height: 4 });
    assert_eq!(size, WorldSize { width: 3, height: 4 });
}

#[test]
fn labels_read_back() {
    for t in [ObjectType::Asteroid, ObjectType::Builder, ObjectType::Harvester, ObjectType::Battlecruiser] {
        assert_eq!(ObjectType::from_label(&t.to_string()), Some(t));
    }
    for t in [RadarType::Absent, RadarType::Simple, RadarType::Middle, RadarType::Military] {
        assert_eq!(RadarType::from_label(&t.to_string()), Some(t));
    }
    for t in [WeaponType::Absent, WeaponType::Mining, WeaponType::Laser] {
        assert_eq!(WeaponType::from_label(&t.to_string()), Some(t));
    }
    for t in [CargoType::Absent, CargoType::Mining, CargoType::Battery] {
        assert_eq!(CargoType::from_label(&t.to_string()), Some(t));
    }
    for t in [ArmorType::Asteroid, ArmorType::Light, ArmorType::Middle, ArmorType::Heavy, ArmorType::Building] {
        assert_eq!(ArmorType::from_label(&t.to_string()), Some(t));
    }
    assert_eq!(ArmorType::from_label(&"Absent".to_string()), None);
    assert_eq!(ObjectType::from_label(&"asteroid".to_string()), None);
}

#[test]
fn template_paths() {
    assert_eq!(ObjectType::Asteroid.template_path(), "objects/asteroid.json");
    assert_eq!(ObjectType::Battlecruiser.template_path(), "objects/battlecruiser.json");
}
