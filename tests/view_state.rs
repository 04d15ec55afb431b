use complex_crystals::camera::{Camera, Direction, CAMERA_SPEED};
use complex_crystals::events::{texture_from_image, ImmediateEvents};

#[test]
fn fresh_events_are_empty() {
    let e = ImmediateEvents::new();
    assert!(!e.key_escape && !e.key_up && !e.quit && !e.key_z);
    assert!(e.resize.is_none());
    assert!(e.left_mouse_click.is_none());
    assert_eq!(e.mouse_wheel, 0);
}

#[test]
fn texture_is_the_image() {
    let v = vec![1u8, 2, 3];
    assert_eq!(texture_from_image(&v), &vec![1u8, 2, 3]);
}

#[test]
fn camera_shift_and_clamp() {
    let mut c = Camera::new((100_000_000, 50_000_000), (1_000_000_000, 1_000_000_000));
    assert_eq!(c.speed, CAMERA_SPEED);
    c.shift(Direction::Right, 500_000);
    assert_eq!(c.position, (5_000_000, 0));
    c.shift(Direction::Up, 1_000_000);
    assert_eq!(c.position, (5_000_000, 0));
    c.shift(Direction::Down, 1_000_000_000);
    assert_eq!(c.position, (5_000_000, 950_000_000));
    c.shift(Direction::Left, 1_000_000);
    assert_eq!(c.position, (0, 950_000_000));
}

#[test]
fn camera_transforms() {
    let mut c = Camera::new((10, 10), (100, 100));
    c.position = (3, 4);
    assert_eq!(c.transform([10, 10, 2, 2]), [7, 6, 2, 2]);
    assert_eq!(c.transform_cursor([1, 1]), [4, 5]);
}
