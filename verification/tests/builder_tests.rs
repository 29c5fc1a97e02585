use chunk_mesh::atlas::AtlasTextureMap;
use chunk_mesh::atlas::PackedRect;
use chunk_mesh::blocks::BlockComponentSystem;
use chunk_mesh::blocks::DrawType;
use chunk_mesh::builder::can_create_chunk_mesh;
use chunk_mesh::builder::can_emit_block;
use chunk_mesh::builder::create_chunk_mesh;
use chunk_mesh::builder::BlockFaces;
use chunk_mesh::mesh::add_block;
use chunk_mesh::scalar::Scalar;

fn registry() -> BlockComponentSystem {
    let mut bcs = BlockComponentSystem::new();
    for (name, column) in [("dirt", 0u32), ("stone", 1)] {
        let mut mapping = Vec::new();
        for face in 0..6u32 {
            mapping.push(AtlasTextureMap::build(
                32,
                96,
                PackedRect { x: 16 * column, y: 16 * face, w: 16, h: 16 },
                (face % 4) as u8,
                0,
            ));
        }
        bcs.register_block(
            "default".to_string(),
            name.to_string(),
            DrawType::Normal,
            vec![format!("{}.png", name)],
            None,
            mapping,
        );
    }
    bcs
}

fn block(id: u32, mask: [bool; 6], x: i32, y: i32, z: i32) -> BlockFaces {
    BlockFaces {
        block: id,
        x_plus: mask[0],
        x_minus: mask[1],
        y_plus: mask[2],
        y_minus: mask[3],
        z_plus: mask[4],
        z_minus: mask[5],
        x,
        y,
        z,
        light: Scalar { num: 15, den: 16 },
    }
}

#[test]
fn a_chunk_without_visible_faces_has_no_mesh() {
    let bcs = registry();
    assert!(create_chunk_mesh(&bcs, &Vec::new()).is_none());
    let hidden = vec![block(1, [false; 6], 0, 0, 0), block(0, [false; 6], 1, 0, 0)];
    assert!(can_create_chunk_mesh(&bcs, &hidden));
    assert!(create_chunk_mesh(&bcs, &hidden).is_none());
}

#[test]
fn the_mesh_is_the_blocks_one_after_the_other() {
    let bcs = registry();
    let blocks = vec![
        block(1, [true, false, true, false, false, true], 0, 0, 0),
        block(0, [false; 6], 5, 5, 5),
        block(2, [true; 6], 1, 0, 0),
        block(1, [false, false, false, true, false, false], 2, 7, 2),
    ];
    assert!(can_create_chunk_mesh(&bcs, &blocks));
    let mesh = create_chunk_mesh(&bcs, &blocks).unwrap();
    let faces = 3 + 6 + 1;
    assert_eq!(mesh.float_data.len(), 32 * faces);
    assert_eq!(mesh.indices_data.len(), 6 * faces);

    let mut float_data = vec![Scalar { num: 0, den: 0 }; 32 * faces];
    let mut indices_data = vec![0u32; 6 * faces];
    let mut float_count = 0usize;
    let mut face_count = 0usize;
    let mut indices_count = 0usize;
    for b in &blocks {
        add_block(
            bcs.get_mapping(b.block),
            &mut float_data,
            &mut indices_data,
            &mut float_count,
            &mut face_count,
            &mut indices_count,
            b.x_plus,
            b.x_minus,
            b.y_plus,
            b.y_minus,
            b.z_plus,
            b.z_minus,
            b.x,
            b.y,
            b.z,
            b.light,
        );
    }
    assert_eq!(float_count, 32 * faces);
    assert_eq!(mesh.float_data, float_data);
    assert_eq!(mesh.indices_data, indices_data);
    for (i, index) in mesh.indices_data.iter().enumerate() {
        let face = (i / 6) as u32;
        assert!(*index >= 4 * face && *index < 4 * face + 4);
    }
    // the first face is the upper face of the first block, with full light
    assert_eq!(mesh.float_data[0], Scalar { num: 0, den: 1 });
    assert_eq!(mesh.float_data[1], Scalar { num: 1, den: 1 });
    assert_eq!(mesh.float_data[3], Scalar { num: 15, den: 16 });
    // the last face is the lower face of the last block
    let last = &mesh.float_data[32 * 9..];
    assert_eq!(last[0], Scalar { num: 2, den: 1 });
    assert_eq!(last[1], Scalar { num: 7, den: 1 });
    assert_eq!(last[2], Scalar { num: 3, den: 1 });
}

#[test]
fn a_block_that_is_not_registered_cannot_be_emitted() {
    let bcs = registry();
    assert!(can_emit_block(&bcs, &block(2, [true; 6], 0, 0, 0)));
    assert!(!can_emit_block(&bcs, &block(3, [true; 6], 0, 0, 0)));
    assert!(!can_emit_block(&bcs, &block(3, [false; 6], 0, 0, 0)));
    assert!(!can_create_chunk_mesh(
        &bcs,
        &vec![block(1, [true; 6], 0, 0, 0), block(3, [false; 6], 0, 0, 0)]
    ));
}

#[test]
fn a_visible_face_needs_its_mapping() {
    let bcs = registry();
    // air has no mappings
    assert!(can_emit_block(&bcs, &block(0, [false; 6], 0, 0, 0)));
    for face in 0..6 {
        let mut mask = [false; 6];
        mask[face] = true;
        assert!(!can_emit_block(&bcs, &block(0, mask, 0, 0, 0)));
        assert!(can_emit_block(&bcs, &block(1, mask, 0, 0, 0)));
    }
}

#[test]
fn a_side_face_needs_a_light_that_can_be_shaded() {
    let bcs = registry();
    let mut bright = block(1, [false, false, true, true, false, false], 0, 0, 0);
    bright.light = Scalar { num: i64::MAX, den: 1 };
    assert!(can_emit_block(&bcs, &bright));
    assert!(can_create_chunk_mesh(&bcs, &vec![bright]));
    let mesh = create_chunk_mesh(&bcs, &vec![bright]).unwrap();
    assert_eq!(mesh.float_data[3], Scalar { num: i64::MAX, den: 1 });
    bright.x_plus = true;
    assert!(!can_emit_block(&bcs, &bright));
    assert!(!can_create_chunk_mesh(&bcs, &vec![bright]));
}
