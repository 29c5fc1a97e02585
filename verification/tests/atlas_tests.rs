use chunk_mesh::atlas::calculate_face_rotation;
use chunk_mesh::atlas::flip_axis;
use chunk_mesh::atlas::overflow;
use chunk_mesh::atlas::AtlasTextureMap;
use chunk_mesh::atlas::PackedRect;
use chunk_mesh::scalar::Scalar;

fn s(num: i64, den: u64) -> Scalar {
    Scalar { num, den }
}

fn quarter_map(rotation: u8, flip: u8) -> AtlasTextureMap {
    // the rectangle from (0, 0) to (0.5, 0.5)
    AtlasTextureMap::build(2, 2, PackedRect { x: 0, y: 0, w: 1, h: 1 }, rotation, flip)
}

#[test]
fn build_normalizes_the_pixel_rectangle() {
    let map = AtlasTextureMap::build(64, 32, PackedRect { x: 16, y: 8, w: 16, h: 16 }, 3, 2);
    assert_eq!(map.min_x, s(16, 64));
    assert_eq!(map.min_y, s(8, 32));
    assert_eq!(map.max_x, s(32, 64));
    assert_eq!(map.max_y, s(24, 32));
    assert_eq!(map.rotation, 3);
    assert_eq!(map.flip, 2);
    assert_eq!(map.get_as_tuple(), (s(16, 64), s(8, 32), s(32, 64), s(24, 32), 3, 2));
}

#[test]
fn build_does_not_overflow_at_the_edge_of_32_bits() {
    let map = AtlasTextureMap::build(
        u32::MAX,
        u32::MAX,
        PackedRect { x: u32::MAX, y: u32::MAX, w: u32::MAX, h: u32::MAX },
        0,
        0,
    );
    assert_eq!(map.max_x, s(2 * (u32::MAX as i64), u32::MAX as u64));
    assert_eq!(map.max_y, s(2 * (u32::MAX as i64), u32::MAX as u64));
}

#[test]
fn corners_follow_the_winding_order() {
    let corners = quarter_map(0, 0).corners();
    assert_eq!(
        corners,
        [s(0, 2), s(0, 2), s(0, 2), s(1, 2), s(1, 2), s(1, 2), s(1, 2), s(0, 2)]
    );
}

#[test]
fn identity_covers_the_unit_square() {
    let corners = AtlasTextureMap::identity().corners();
    assert_eq!(
        corners,
        [s(0, 1), s(0, 1), s(0, 1), s(1, 1), s(1, 1), s(1, 1), s(1, 1), s(0, 1)]
    );
}

#[test]
fn rotation_one_shifts_the_corners_left_by_two() {
    let unrotated = quarter_map(0, 0).corners();
    let rotated = quarter_map(1, 0).corners();
    for i in 0..8 {
        assert_eq!(rotated[i], unrotated[(i + 2) % 8]);
    }
    assert_eq!(
        rotated,
        [s(0, 2), s(1, 2), s(1, 2), s(1, 2), s(1, 2), s(0, 2), s(0, 2), s(0, 2)]
    );
}

#[test]
fn rotation_two_and_three_shift_by_four_and_six() {
    let unrotated = quarter_map(0, 0).corners();
    let two = quarter_map(2, 0).corners();
    let three = quarter_map(3, 0).corners();
    for i in 0..8 {
        assert_eq!(two[i], unrotated[(i + 4) % 8]);
        assert_eq!(three[i], unrotated[(i + 6) % 8]);
    }
}

#[test]
fn rotation_four_is_rotation_zero() {
    assert_eq!(quarter_map(4, 0).corners(), quarter_map(0, 0).corners());
    assert_eq!(quarter_map(5, 0).corners(), quarter_map(1, 0).corners());
    assert_eq!(quarter_map(255, 0).corners(), quarter_map(3, 0).corners());
    let mut table = quarter_map(0, 0).corners();
    let before = table;
    calculate_face_rotation(&mut table, 4);
    assert_eq!(table, before);
}

#[test]
fn four_quarter_turns_are_the_identity() {
    let mut table = [s(1, 9), s(2, 9), s(3, 9), s(4, 9), s(5, 9), s(6, 9), s(7, 9), s(8, 9)];
    let before = table;
    calculate_face_rotation(&mut table, 1);
    assert_eq!(
        table,
        [s(3, 9), s(4, 9), s(5, 9), s(6, 9), s(7, 9), s(8, 9), s(1, 9), s(2, 9)]
    );
    calculate_face_rotation(&mut table, 1);
    calculate_face_rotation(&mut table, 1);
    calculate_face_rotation(&mut table, 1);
    assert_eq!(table, before);
}

#[test]
fn rotate_four_times_gives_the_mapping_back() {
    for rotation in 0..4u8 {
        for flip in 0..3u8 {
            let map = quarter_map(rotation, flip);
            let once = map.rotate();
            assert_eq!(once.rotation, (rotation + 1) % 4);
            let back = once.rotate().rotate().rotate();
            assert_eq!(back, map);
            let turned = once.corners();
            let corners = map.corners();
            for i in 0..8 {
                assert_eq!(turned[i], corners[(i + 2) % 8]);
            }
        }
    }
}

#[test]
fn flip_one_mirrors_the_x_values() {
    let corners = quarter_map(0, 1).corners();
    assert_eq!(
        corners,
        [s(1, 2), s(0, 2), s(1, 2), s(1, 2), s(0, 2), s(1, 2), s(0, 2), s(0, 2)]
    );
}

#[test]
fn flip_two_mirrors_the_y_values() {
    let map = AtlasTextureMap::build(4, 8, PackedRect { x: 1, y: 2, w: 2, h: 4 }, 0, 2);
    assert_eq!(
        map.corners(),
        [s(1, 4), s(6, 8), s(1, 4), s(2, 8), s(3, 4), s(2, 8), s(3, 4), s(6, 8)]
    );
}

#[test]
fn flip_is_applied_before_rotation() {
    let flipped = quarter_map(0, 1).corners();
    let both = quarter_map(1, 1).corners();
    for i in 0..8 {
        assert_eq!(both[i], flipped[(i + 2) % 8]);
    }
}

#[test]
fn unknown_flip_leaves_the_table() {
    assert_eq!(quarter_map(0, 3).corners(), quarter_map(0, 0).corners());
    assert_eq!(quarter_map(2, 200).corners(), quarter_map(2, 0).corners());
}

#[test]
fn flipping_twice_is_the_identity() {
    for flip in 1..3u8 {
        for rotation in 0..4u8 {
            let map = AtlasTextureMap::build(
                64,
                64,
                PackedRect { x: 16, y: 32, w: 16, h: 16 },
                rotation,
                flip,
            );
            let (min_x, min_y, max_x, max_y, _, _) = map.get_as_tuple();
            for k in 1..3u8 {
                let mut table = map.corners();
                flip_axis(&mut table, k, min_x, min_y, max_x, max_y);
                assert_ne!(table, map.corners());
                flip_axis(&mut table, k, min_x, min_y, max_x, max_y);
                assert_eq!(table, map.corners());
            }
        }
    }
}

#[test]
fn flip_cannot_tell_apart_bounds_closer_than_a_millionth() {
    let min_x = s(0, 1);
    let max_x = s(1, 2_000_000);
    let y = s(0, 1);
    let mut table = [min_x, y, min_x, y, max_x, y, max_x, y];
    flip_axis(&mut table, 1, min_x, y, max_x, y);
    assert_eq!(table, [max_x, y, max_x, y, max_x, y, max_x, y]);
    flip_axis(&mut table, 1, min_x, y, max_x, y);
    assert_eq!(table, [max_x, y, max_x, y, max_x, y, max_x, y]);
}

#[test]
fn overflow_wraps_around_eight() {
    let mut value: usize = 9;
    assert_eq!(overflow(&mut value), 1);
    assert_eq!(value, 1);
    let mut value: usize = 7;
    assert_eq!(overflow(&mut value), 7);
    assert_eq!(value, 7);
    let mut value: usize = 8;
    assert_eq!(overflow(&mut value), 0);
    let mut value: usize = 0;
    assert_eq!(overflow(&mut value), 0);
    let mut value: usize = 20;
    assert_eq!(overflow(&mut value), 12);
}
