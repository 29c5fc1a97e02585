use chunk_mesh::blocks::BlockComponentSystem;
use chunk_mesh::blocks::DrawType;
use chunk_mesh::builder::BlockFaces;
use chunk_mesh::chunk::new;
use chunk_mesh::chunk::Chunk;
use chunk_mesh::culling::draws_full_cube;
use chunk_mesh::culling::visible_faces;
use chunk_mesh::scalar::Scalar;

const LIGHT: Scalar = Scalar { num: 1, den: 1 };

/// air (0), stone (1, a full cube), glass (2, not drawn), slab (3, boxes)
fn registry() -> BlockComponentSystem {
    let mut bcs = BlockComponentSystem::new();
    let blocks = [
        ("stone", DrawType::Normal, None),
        ("glass", DrawType::Airlike, None),
        ("slab", DrawType::BlockBox, Some(Vec::new())),
    ];
    for (name, draw_type, shape) in blocks {
        bcs.register_block(
            "default".to_string(),
            name.to_string(),
            draw_type,
            Vec::new(),
            shape,
            Vec::new(),
        );
    }
    bcs
}

fn faces(block: u32, mask: [bool; 6], x: i32, y: i32, z: i32) -> BlockFaces {
    BlockFaces {
        block,
        x_plus: mask[0],
        x_minus: mask[1],
        y_plus: mask[2],
        y_minus: mask[3],
        z_plus: mask[4],
        z_minus: mask[5],
        x,
        y,
        z,
        light: LIGHT,
    }
}

fn alone(bcs: &BlockComponentSystem, chunk: &Chunk) -> Vec<BlockFaces> {
    visible_faces(bcs, chunk, None, None, None, None, LIGHT)
}

#[test]
fn only_normal_blocks_are_full_cubes() {
    let bcs = registry();
    assert!(!draws_full_cube(&bcs, 0));
    assert!(draws_full_cube(&bcs, 1));
    assert!(!draws_full_cube(&bcs, 2));
    assert!(!draws_full_cube(&bcs, 3));
    assert!(!draws_full_cube(&bcs, 4));
    assert!(!draws_full_cube(&bcs, u32::MAX));
}

#[test]
fn an_empty_chunk_shows_nothing() {
    let bcs = registry();
    assert!(alone(&bcs, &new(0, 0)).is_empty());
}

#[test]
fn a_lone_block_shows_all_six_faces() {
    let bcs = registry();
    let mut chunk = new(0, 0);
    chunk.set_block(3, 40, 5, 1, 0);
    assert_eq!(alone(&bcs, &chunk), vec![faces(1, [true; 6], 3, 40, 5)]);
}

#[test]
fn blocks_that_are_not_full_cubes_are_left_out_and_hide_nothing() {
    let bcs = registry();
    let mut chunk = new(0, 0);
    chunk.set_block(3, 40, 5, 1, 0);
    chunk.set_block(4, 40, 5, 2, 0);
    chunk.set_block(2, 40, 5, 3, 0);
    chunk.set_block(3, 41, 5, 9, 0);
    assert_eq!(alone(&bcs, &chunk), vec![faces(1, [true; 6], 3, 40, 5)]);
}

#[test]
fn a_full_cube_hides_the_face_that_looks_at_it() {
    let bcs = registry();
    let cases = [
        ((1i32, 0i32, 0i32), 0usize),
        ((-1, 0, 0), 1),
        ((0, 1, 0), 2),
        ((0, -1, 0), 3),
        ((0, 0, 1), 4),
        ((0, 0, -1), 5),
    ];
    for ((dx, dy, dz), hidden) in cases {
        let mut chunk = new(0, 0);
        chunk.set_block(8, 64, 8, 1, 0);
        chunk.set_block((8 + dx) as usize, (64 + dy) as usize, (8 + dz) as usize, 1, 0);
        let visible = alone(&bcs, &chunk);
        assert_eq!(visible.len(), 2);
        let mut mask = [true; 6];
        mask[hidden] = false;
        let middle = visible.iter().find(|b| (b.x, b.y, b.z) == (8, 64, 8)).unwrap();
        assert_eq!(*middle, faces(1, mask, 8, 64, 8));
        let mut other = [true; 6];
        other[hidden ^ 1] = false;
        let beside = visible.iter().find(|b| (b.x, b.y, b.z) != (8, 64, 8)).unwrap();
        assert_eq!(*beside, faces(1, other, 8 + dx, 64 + dy, 8 + dz));
    }
}

#[test]
fn blocks_come_in_the_order_of_their_places() {
    let bcs = registry();
    let mut chunk = new(0, 0);
    chunk.set_block(1, 0, 0, 1, 0);
    chunk.set_block(0, 0, 1, 1, 0);
    chunk.set_block(0, 5, 0, 1, 0);
    chunk.set_block(0, 3, 0, 1, 0);
    let visible = alone(&bcs, &chunk);
    let places: Vec<(i32, i32, i32)> = visible.iter().map(|b| (b.x, b.y, b.z)).collect();
    assert_eq!(places, vec![(0, 3, 0), (0, 5, 0), (0, 0, 1), (1, 0, 0)]);
}

#[test]
fn the_top_and_the_bottom_of_the_world_hide_nothing() {
    let bcs = registry();
    let mut chunk = new(0, 0);
    chunk.set_block(0, 0, 0, 1, 0);
    chunk.set_block(15, 127, 15, 1, 0);
    assert_eq!(
        alone(&bcs, &chunk),
        vec![faces(1, [true; 6], 0, 0, 0), faces(1, [true; 6], 15, 127, 15)]
    );
}

#[test]
fn a_loaded_neighbor_hides_the_faces_on_the_rim() {
    let bcs = registry();
    let mut chunk = new(0, 0);
    chunk.set_block(15, 10, 4, 1, 0);
    chunk.set_block(0, 10, 4, 1, 0);
    chunk.set_block(7, 10, 15, 1, 0);
    chunk.set_block(7, 10, 0, 1, 0);
    let mut east = new(1, 0);
    east.set_block(0, 10, 4, 1, 0);
    let mut west = new(-1, 0);
    west.set_block(15, 10, 4, 1, 0);
    let mut south = new(0, 1);
    south.set_block(7, 10, 0, 1, 0);
    let mut north = new(0, -1);
    north.set_block(7, 10, 15, 1, 0);
    let visible = visible_faces(&bcs, &chunk, Some(&east), Some(&west), Some(&south), Some(&north), LIGHT);
    assert_eq!(
        visible,
        vec![
            faces(1, [true, false, true, true, true, true], 0, 10, 4),
            faces(1, [true, true, true, true, true, false], 7, 10, 0),
            faces(1, [true, true, true, true, false, true], 7, 10, 15),
            faces(1, [false, true, true, true, true, true], 15, 10, 4),
        ]
    );
    // the same chunk without its neighbours shows every face
    for block in alone(&bcs, &chunk) {
        assert_eq!(block, faces(1, [true; 6], block.x, block.y, block.z));
    }
}

#[test]
fn a_neighbor_hides_only_with_the_voxel_that_touches() {
    let bcs = registry();
    let mut chunk = new(0, 0);
    chunk.set_block(15, 10, 4, 1, 0);
    let mut east = new(1, 0);
    east.set_block(15, 10, 4, 1, 0);
    east.set_block(0, 11, 4, 1, 0);
    east.set_block(0, 10, 5, 1, 0);
    east.set_block(1, 10, 4, 1, 0);
    east.set_block(0, 10, 4, 2, 0);
    let visible = visible_faces(&bcs, &chunk, Some(&east), None, None, None, LIGHT);
    assert_eq!(visible, vec![faces(1, [true; 6], 15, 10, 4)]);
}

#[test]
fn every_block_gets_the_ambient_light() {
    let bcs = registry();
    let mut chunk = new(0, 0);
    chunk.set_block(1, 1, 1, 1, 0);
    chunk.set_light(1, 1, 1, 3);
    let light = Scalar { num: 7, den: 15 };
    let visible = visible_faces(&bcs, &chunk, None, None, None, None, light);
    assert_eq!(visible.len(), 1);
    assert_eq!(visible[0].light, light);
}

#[test]
fn a_solid_chunk_shows_only_its_surface() {
    let bcs = registry();
    let mut chunk = new(0, 0);
    for x in 0..16 {
        for z in 0..16 {
            for y in 0..128 {
                chunk.set_block(x, y, z, 1, 0);
            }
        }
    }
    let visible = alone(&bcs, &chunk);
    assert_eq!(visible.len(), 32768);
    let shown: usize = visible
        .iter()
        .map(|b| {
            [b.x_plus, b.x_minus, b.y_plus, b.y_minus, b.z_plus, b.z_minus]
                .iter()
                .filter(|f| **f)
                .count()
        })
        .sum();
    assert_eq!(shown, 2 * 16 * 16 + 4 * 16 * 128);
}
