use lunas_libations::direction::{isqrt, unit_toward, UNIT};
use lunas_libations::tilemap::TileMap;
use lunas_libations::vector::{
    add_clamped, mirror_clamped, mul_clamped, sub_clamped, thousandth_clamped, IVec2, IVec3,
};

fn tavern_grid() -> TileMap {
    TileMap::new(IVec2::new(25, 18), IVec2::new(16, 16), IVec2::new(2, 2))
}

#[test]
fn new_grid_is_empty() {
    let map = tavern_grid();
    assert_eq!(map.size(), IVec2::new(25, 18));
    assert_eq!(map.tile_size(), IVec2::new(16, 16));
    assert_eq!(map.scale(), IVec2::new(2, 2));
    for y in 0..18 {
        for x in 0..25 {
            assert_eq!(map.tile_at(IVec2::new(x, y)), None);
        }
    }
}

#[test]
fn empty_grid_of_no_tiles() {
    let map = TileMap::new(IVec2::new(0, 0), IVec2::new(16, 16), IVec2::new(2, 2));
    assert_eq!(map.tile_at(IVec2::new(0, 0)), None);
    assert_eq!(map.transform_tiles().len(), 0);
}

#[test]
fn insert_then_tile_at() {
    let mut map = tavern_grid();
    assert_eq!(map.insert(7, IVec2::new(3, 4)), None);
    assert_eq!(map.tile_at(IVec2::new(3, 4)), Some(7));
    assert_eq!(map.tile_at(IVec2::new(4, 3)), None);
    assert_eq!(map.tile_at(IVec2::new(3, 5)), None);
}

#[test]
fn insert_on_occupied_cell_hands_back_the_displaced() {
    let mut map = tavern_grid();
    map.insert(1, IVec2::new(0, 0));
    assert_eq!(map.insert(2, IVec2::new(0, 0)), Some(1));
    assert_eq!(map.tile_at(IVec2::new(0, 0)), Some(2));
}

#[test]
fn tile_at_outside_the_grid_is_none() {
    let mut map = tavern_grid();
    for y in 0..18 {
        for x in 0..25 {
            map.insert((x + y * 25) as usize, IVec2::new(x, y));
        }
    }
    assert_eq!(map.tile_at(IVec2::new(-1, 0)), None);
    assert_eq!(map.tile_at(IVec2::new(0, -1)), None);
    assert_eq!(map.tile_at(IVec2::new(25, 0)), None);
    assert_eq!(map.tile_at(IVec2::new(0, 18)), None);
    assert_eq!(map.tile_at(IVec2::new(i32::MIN, i32::MIN)), None);
    assert_eq!(map.tile_at(IVec2::new(i32::MAX, i32::MAX)), None);
    assert_eq!(map.tile_at(IVec2::new(24, 17)), Some(24 + 17 * 25));
}

#[test]
fn insert_outside_the_grid_changes_nothing() {
    let mut map = tavern_grid();
    map.insert(5, IVec2::new(24, 17));
    let outside = [
        IVec2::new(-1, 0),
        IVec2::new(0, -1),
        IVec2::new(25, 0),
        IVec2::new(0, 18),
        IVec2::new(25, 17),
        IVec2::new(i32::MAX, 3),
        IVec2::new(3, i32::MIN),
    ];
    for location in outside {
        assert_eq!(map.insert(9, location), None);
    }
    for y in 0..18 {
        for x in 0..25 {
            let expected = if x == 24 && y == 17 { Some(5) } else { None };
            assert_eq!(map.tile_at(IVec2::new(x, y)), expected);
        }
    }
}

#[test]
fn to_tile_space_counts_from_the_top_left_corner() {
    let map = tavern_grid();
    let origin = IVec3::new(-400, -300, 0);
    assert_eq!(map.to_tile_space(origin, IVec3::new(0, 188, 5)), IVec3::new(400, 112, 5));
    assert_eq!(map.to_tile_space(origin, IVec3::new(-400, 300, 0)), IVec3::new(0, 0, 0));
    // x + width / 2 and height / 2 - y, for the screen of 800 by 600.
    assert_eq!(map.to_tile_space(origin, IVec3::new(-16, 148, 4)), IVec3::new(384, 152, 4));
    assert_eq!(map.to_tile_space(origin, IVec3::new(399, -299, -2)), IVec3::new(799, 599, -2));
}

#[test]
fn to_camera_space_is_the_inverse() {
    let map = tavern_grid();
    let origin = IVec3::new(-400, -300, 0);
    assert_eq!(map.to_camera_space(origin, IVec3::new(400, 112, 5)), IVec3::new(0, 188, 5));
    let points = [
        IVec3::new(0, 0, 0),
        IVec3::new(-400, 300, 1),
        IVec3::new(399, -299, 7),
        IVec3::new(-12345, 6789, -3),
        IVec3::new(1_000_000, -1_000_000, 0),
    ];
    for point in points {
        let there = map.to_tile_space(origin, point);
        assert_eq!(map.to_camera_space(origin, there), point);
    }
}

#[test]
fn transforms_clamp_at_the_ends_of_the_range() {
    let map = tavern_grid();
    let origin = IVec3::new(-400, -300, 0);
    let far = map.to_tile_space(origin, IVec3::new(i32::MAX, i32::MIN, 0));
    assert_eq!(far, IVec3::new(i32::MAX, i32::MAX, 0));
    // Clamped, the way back no longer meets the point.
    assert_eq!(map.to_camera_space(origin, far).x, i32::MAX - 400);
}

#[test]
fn to_tile_divides_by_scale_and_tile_size() {
    let map = tavern_grid();
    assert_eq!(map.to_tile(IVec3::new(400, 112, 0)), IVec2::new(12, 3));
    assert_eq!(map.to_tile(IVec3::new(0, 0, 0)), IVec2::new(0, 0));
    assert_eq!(map.to_tile(IVec3::new(31, 31, 0)), IVec2::new(0, 0));
    assert_eq!(map.to_tile(IVec3::new(32, 63, 0)), IVec2::new(1, 1));
    assert_eq!(map.to_tile(IVec3::new(799, 575, 0)), IVec2::new(24, 17));
}

#[test]
fn to_tile_rounds_toward_zero_left_of_the_grid() {
    let map = tavern_grid();
    assert_eq!(map.to_tile(IVec3::new(-5, -31, 0)), IVec2::new(0, 0));
    assert_eq!(map.to_tile(IVec3::new(-32, -64, 0)), IVec2::new(-1, -2));
    assert_eq!(map.to_tile(IVec3::new(-33, -95, 0)), IVec2::new(-1, -2));
}

#[test]
fn to_tile_with_uneven_scale_and_tile_size() {
    let map = TileMap::new(IVec2::new(4, 4), IVec2::new(3, 5), IVec2::new(2, 7));
    // 17 / 2 = 8, 8 / 3 = 2; 100 / 7 = 14, 14 / 5 = 2.
    assert_eq!(map.to_tile(IVec3::new(17, 100, 0)), IVec2::new(2, 2));
    // The same as dividing by the product: 17 / 6 = 2, 100 / 35 = 2.
    assert_eq!(map.to_tile(IVec3::new(17, 100, 0)), IVec2::new(17 / 6, 100 / 35));
}

#[test]
fn camera_to_tile_is_both_steps() {
    let map = tavern_grid();
    let origin = IVec3::new(-400, -300, 0);
    assert_eq!(map.camera_to_tile(origin, IVec3::new(0, 188, 0)), IVec2::new(12, 3));
    assert_eq!(map.camera_to_tile(origin, IVec3::new(-400, 300, 0)), IVec2::new(0, 0));
    assert_eq!(map.camera_to_tile(origin, IVec3::new(-16, 148, 4)), IVec2::new(12, 4));
    assert_eq!(map.camera_to_tile(origin, IVec3::new(-369, 269, 0)), IVec2::new(0, 0));
    assert_eq!(map.camera_to_tile(origin, IVec3::new(-368, 268, 0)), IVec2::new(1, 1));
    let point = IVec3::new(123, -77, 0);
    assert_eq!(
        map.camera_to_tile(origin, point),
        map.to_tile(map.to_tile_space(origin, point))
    );
}

#[test]
fn tile_z_counts_rows_from_the_bottom() {
    let map = tavern_grid();
    assert_eq!(map.tile_z(&IVec2::new(0, 0)), 18);
    assert_eq!(map.tile_z(&IVec2::new(5, 3)), 15);
    assert_eq!(map.tile_z(&IVec2::new(24, 17)), 1);
    assert_eq!(map.tile_z(&IVec2::new(0, -2)), 20);
    assert_eq!(map.tile_z(&IVec2::new(0, i32::MIN)), i32::MAX);
}

#[test]
fn transform_tiles_goes_column_by_column() {
    let mut map = TileMap::new(IVec2::new(3, 2), IVec2::new(16, 16), IVec2::new(2, 2));
    map.insert(10, IVec2::new(0, 1));
    map.insert(11, IVec2::new(2, 0));
    map.insert(12, IVec2::new(0, 0));
    map.insert(13, IVec2::new(1, 1));
    let placed = map.transform_tiles();
    assert_eq!(
        placed,
        vec![
            (12, IVec3::new(0, 0, 2)),
            (10, IVec3::new(0, 16, 1)),
            (13, IVec3::new(16, 16, 1)),
            (11, IVec3::new(32, 0, 2)),
        ]
    );
}

#[test]
fn clamped_arithmetic() {
    assert_eq!(add_clamped(1, 2), 3);
    assert_eq!(add_clamped(i32::MAX, 1), i32::MAX);
    assert_eq!(add_clamped(i32::MIN, -1), i32::MIN);
    assert_eq!(sub_clamped(5, 7), -2);
    assert_eq!(sub_clamped(i32::MIN, 1), i32::MIN);
    assert_eq!(sub_clamped(0, i32::MIN), i32::MAX);
    assert_eq!(mul_clamped(-3, 4), -12);
    assert_eq!(mul_clamped(i32::MAX, 2), i32::MAX);
    assert_eq!(mul_clamped(i32::MIN, 2), i32::MIN);
    assert_eq!(mul_clamped(i32::MIN, -1), i32::MAX);
    assert_eq!(IVec2::new(1, i32::MAX).offset(IVec2::new(-3, 1)), IVec2::new(-2, i32::MAX));
}

#[test]
fn thousandths_and_mirrors() {
    assert_eq!(thousandth_clamped(707, 3), 2);
    assert_eq!(thousandth_clamped(-707, 3), -2);
    assert_eq!(thousandth_clamped(1000, 7), 7);
    assert_eq!(thousandth_clamped(999, 1), 0);
    assert_eq!(thousandth_clamped(-999, 1), 0);
    assert_eq!(thousandth_clamped(i32::MAX, i32::MAX), i32::MAX);
    assert_eq!(thousandth_clamped(i32::MIN, i32::MAX), i32::MIN);
    assert_eq!(thousandth_clamped(i32::MAX, 1000), i32::MAX);
    assert_eq!(mirror_clamped(-300, 148), 152);
    assert_eq!(mirror_clamped(i32::MIN, 0), i32::MAX);
    assert_eq!(mirror_clamped(i32::MAX, 10), i32::MIN);
}

#[test]
fn square_roots_round_down() {
    assert_eq!(isqrt(0), 0);
    assert_eq!(isqrt(1), 1);
    assert_eq!(isqrt(3), 1);
    assert_eq!(isqrt(4), 2);
    assert_eq!(isqrt(99), 9);
    assert_eq!(isqrt(100), 10);
    assert_eq!(isqrt(2_000_000), 1414);
    assert_eq!(isqrt((1u128 << 86) - 1), (1u64 << 43) - 1);
    for root in [5u128, 1_000, 123_456_789, (1 << 42) + 17] {
        assert_eq!(isqrt(root * root) as u128, root);
        assert_eq!(isqrt(root * root - 1) as u128, root - 1);
        assert_eq!(isqrt(root * root + 2 * root) as u128, root);
    }
}

#[test]
fn unit_vectors_in_thousandths() {
    assert_eq!(UNIT, 1000);
    assert_eq!(unit_toward(0, 0), IVec2::new(0, 0));
    assert_eq!(unit_toward(5, 0), IVec2::new(1000, 0));
    assert_eq!(unit_toward(-1, 0), IVec2::new(-1000, 0));
    assert_eq!(unit_toward(0, 17), IVec2::new(0, 1000));
    assert_eq!(unit_toward(0, -3), IVec2::new(0, -1000));
    assert_eq!(unit_toward(3, 4), IVec2::new(600, 800));
    assert_eq!(unit_toward(1, 1), IVec2::new(707, 707));
    assert_eq!(unit_toward(2, -1), IVec2::new(894, -447));
    assert_eq!(unit_toward(-9, 2), IVec2::new(-976, 216));
    let far = 0xffff_ffff;
    assert_eq!(unit_toward(far, -far), IVec2::new(707, -707));
    assert_eq!(unit_toward(far, 1), IVec2::new(1000, 0));
    assert_eq!(unit_toward(-far, 0), IVec2::new(-1000, 0));
}

#[test]
fn unit_vectors_have_unit_length_within_rounding() {
    for a in -40i64..=40 {
        for b in -40i64..=40 {
            if a == 0 && b == 0 {
                continue;
            }
            let unit = unit_toward(a, b);
            let (x, y) = (unit.x as i64, unit.y as i64);
            assert!(x * x + y * y < 1001 * 1001);
            assert!((x.abs() + 1).pow(2) + (y.abs() + 1).pow(2) > 1000 * 1000);
            assert!(x.signum() == a.signum() || x == 0);
            assert!(y.signum() == b.signum() || y == 0);
            assert!((x.abs() * b.abs() - y.abs() * a.abs()).abs() < a.abs() + b.abs());
        }
    }
}
