use engine2d::math::from_half_units;
use engine2d::math::from_units;
use engine2d::math::Vec2;
use engine2d::math::HALF_UNIT;
use engine2d::math::UNIT;
use engine2d::resources::create_solid_texture;
use engine2d::resources::ResourceManager;

#[test]
fn solid_texture_repeats_the_colour() {
    let data = create_solid_texture(255, 0, 7, 128, 2, 3);
    assert_eq!(data.len(), 24);
    for pixel in data.chunks(4) {
        assert_eq!(pixel, [255, 0, 7, 128]);
    }
    assert_eq!(create_solid_texture(1, 2, 3, 4, 1, 1), vec![1, 2, 3, 4]);
    assert_eq!(create_solid_texture(255, 255, 255, 255, 32, 32).len(), 4096);
}

#[test]
fn solid_texture_of_no_pixels_is_empty() {
    assert!(create_solid_texture(1, 2, 3, 4, 0, 9).is_empty());
    assert!(create_solid_texture(1, 2, 3, 4, 9, 0).is_empty());
}

#[test]
fn manager_returns_what_was_loaded() {
    let mut manager = ResourceManager::new();
    assert!(manager.get_texture("player").is_none());
    manager.load_texture("player", 1, 2, vec![1, 2, 3, 4, 5, 6, 7, 8]);
    manager.load_texture("enemy", 1, 1, vec![9, 9, 9, 9]);
    let player = manager.get_texture("player").unwrap();
    assert_eq!((player.width, player.height), (1, 2));
    assert_eq!(player.data, vec![1, 2, 3, 4, 5, 6, 7, 8]);
    assert_eq!(manager.get_texture("enemy").unwrap().data, vec![9, 9, 9, 9]);
    assert!(manager.get_texture("Player").is_none());
    assert!(manager.get_texture("").is_none());
}

#[test]
fn loading_under_a_name_again_replaces_the_texture() {
    let mut manager = ResourceManager::new();
    manager.load_texture("tile", 1, 1, vec![0, 0, 0, 0]);
    manager.load_texture("tile", 2, 1, vec![1, 1, 1, 1, 2, 2, 2, 2]);
    let tile = manager.get_texture("tile").unwrap();
    assert_eq!((tile.width, tile.height), (2, 1));
    assert_eq!(tile.data, vec![1, 1, 1, 1, 2, 2, 2, 2]);
}

#[test]
fn scalars_count_fixed_point_steps() {
    assert_eq!(UNIT, 65536);
    assert_eq!(HALF_UNIT * 2, UNIT);
    assert_eq!(from_units(3), 3 * 65536);
    assert_eq!(from_units(-300), -300 * 65536);
    assert_eq!(from_units(i32::MIN), (i32::MIN as i64) * 65536);
    assert_eq!(from_half_units(-1), -32768);
    assert_eq!(from_half_units(3), 98304);
    assert_eq!(Vec2::from_units(400, -300), Vec2 { x: 400 * 65536, y: -300 * 65536 });
    assert_eq!(Vec2::new(4, 5), Vec2 { x: 4, y: 5 });
    assert_eq!(Vec2::zero(), Vec2 { x: 0, y: 0 });
}

#[test]
fn vectors_add_by_component() {
    let a = Vec2::new(3, -4);
    let b = Vec2::new(-10, 20);
    assert!(a.fits_sum(b));
    assert_eq!(a.plus(b), Vec2 { x: -7, y: 16 });
    assert!(!Vec2::new(i64::MAX, 0).fits_sum(Vec2::new(1, 0)));
    assert!(!Vec2::new(0, i64::MIN).fits_sum(Vec2::new(0, -1)));
    assert!(Vec2::new(i64::MAX, i64::MIN).fits_sum(Vec2::new(0, 0)));
    assert_eq!(Vec2::new(i64::MAX - 1, i64::MIN + 1).plus(Vec2::new(1, -1)), Vec2 { x: i64::MAX, y: i64::MIN });
}
