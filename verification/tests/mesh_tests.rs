use chunk_mesh::atlas::AtlasTextureMap;
use chunk_mesh::atlas::PackedRect;
use chunk_mesh::mesh::add_block;
use chunk_mesh::mesh::adjust_indices;
use chunk_mesh::mesh::assign_indices;
use chunk_mesh::mesh::dry_run;
use chunk_mesh::mesh::dry_run_block;
use chunk_mesh::mesh::face_down;
use chunk_mesh::mesh::face_east;
use chunk_mesh::mesh::face_north;
use chunk_mesh::mesh::face_south;
use chunk_mesh::mesh::face_up;
use chunk_mesh::mesh::face_west;
use chunk_mesh::mesh::set_pos;
use chunk_mesh::mesh::side_face_light;
use chunk_mesh::mesh::side_face_light_fits;
use chunk_mesh::mesh::stripe;
use chunk_mesh::mesh::FLOATS_PER_FACE;
use chunk_mesh::mesh::FLOATS_PER_VERTEX;
use chunk_mesh::mesh::INDICES_PER_FACE;
use chunk_mesh::mesh::VERTICES_PER_FACE;
use chunk_mesh::scalar::Scalar;

type Emitter = fn(
    &AtlasTextureMap,
    &mut Vec<Scalar>,
    &mut Vec<u32>,
    &mut usize,
    &mut usize,
    &mut usize,
    i32,
    i32,
    i32,
    Scalar,
);

fn s(num: i64, den: u64) -> Scalar {
    Scalar { num, den }
}

fn w(value: i64) -> Scalar {
    Scalar { num: value, den: 1 }
}

const FILL: Scalar = Scalar { num: -99, den: 7 };

fn six_maps() -> Vec<AtlasTextureMap> {
    let mut maps = Vec::new();
    for i in 0..6u32 {
        maps.push(AtlasTextureMap::build(
            96,
            16,
            PackedRect { x: 16 * i, y: 0, w: 16, h: 16 },
            0,
            0,
        ));
    }
    maps
}

fn positions(float_data: &[Scalar]) -> Vec<(i64, i64, i64)> {
    let mut out = Vec::new();
    for vertex in float_data.chunks(8) {
        assert_eq!(vertex[0].den, 1);
        assert_eq!(vertex[1].den, 1);
        assert_eq!(vertex[2].den, 1);
        out.push((vertex[0].num, vertex[1].num, vertex[2].num));
    }
    out
}

fn emit_one(emitter: Emitter, x: i32, y: i32, z: i32) -> (Vec<Scalar>, Vec<u32>) {
    let map = AtlasTextureMap::identity();
    let mut float_data = vec![FILL; 32];
    let mut indices_data = vec![0u32; 6];
    let mut float_count = 0usize;
    let mut indices_count = 0usize;
    let mut face_count = 0usize;
    emitter(
        &map,
        &mut float_data,
        &mut indices_data,
        &mut float_count,
        &mut indices_count,
        &mut face_count,
        x,
        y,
        z,
        w(1),
    );
    assert_eq!(float_count, 32);
    assert_eq!(indices_count, 6);
    assert_eq!(face_count, 4);
    (float_data, indices_data)
}

#[test]
fn layout_constants_match_the_vertex_format() {
    assert_eq!(FLOATS_PER_VERTEX, 8);
    assert_eq!(VERTICES_PER_FACE, 4);
    assert_eq!(FLOATS_PER_FACE, FLOATS_PER_VERTEX * VERTICES_PER_FACE);
    assert_eq!(INDICES_PER_FACE, 6);
}

#[test]
fn face_up_writes_interleaved_vertices() {
    let map = AtlasTextureMap::build(4, 4, PackedRect { x: 1, y: 2, w: 2, h: 1 }, 0, 0);
    let mut float_data = vec![FILL; 32];
    let mut indices_data = vec![77u32; 6];
    let mut float_count = 0usize;
    let mut indices_count = 0usize;
    let mut face_count = 0usize;
    let light = s(1, 2);
    face_up(
        &map,
        &mut float_data,
        &mut indices_data,
        &mut float_count,
        &mut indices_count,
        &mut face_count,
        10,
        20,
        30,
        light,
    );
    let expected = vec![
        w(10), w(21), w(30), light, light, light, s(1, 4), s(2, 4),
        w(10), w(21), w(31), light, light, light, s(1, 4), s(3, 4),
        w(11), w(21), w(31), light, light, light, s(3, 4), s(3, 4),
        w(11), w(21), w(30), light, light, light, s(3, 4), s(2, 4),
    ];
    assert_eq!(float_data, expected);
    assert_eq!(indices_data, vec![0, 1, 2, 2, 3, 0]);
    assert_eq!(float_count, 32);
    assert_eq!(indices_count, 6);
    assert_eq!(face_count, 4);
}

#[test]
fn each_face_has_its_corners() {
    let (up, _) = emit_one(face_up, 0, 0, 0);
    assert_eq!(positions(&up), vec![(0, 1, 0), (0, 1, 1), (1, 1, 1), (1, 1, 0)]);
    let (down, _) = emit_one(face_down, 0, 0, 0);
    assert_eq!(positions(&down), vec![(0, 0, 1), (0, 0, 0), (1, 0, 0), (1, 0, 1)]);
    let (south, _) = emit_one(face_south, 0, 0, 0);
    assert_eq!(positions(&south), vec![(0, 1, 1), (0, 0, 1), (1, 0, 1), (1, 1, 1)]);
    let (north, _) = emit_one(face_north, 0, 0, 0);
    assert_eq!(positions(&north), vec![(0, 0, 0), (0, 1, 0), (1, 1, 0), (1, 0, 0)]);
    let (west, _) = emit_one(face_west, 0, 0, 0);
    assert_eq!(positions(&west), vec![(1, 0, 1), (1, 0, 0), (1, 1, 0), (1, 1, 1)]);
    let (east, _) = emit_one(face_east, 0, 0, 0);
    assert_eq!(positions(&east), vec![(0, 0, 0), (0, 0, 1), (0, 1, 1), (0, 1, 0)]);
}

#[test]
fn faces_are_translated_by_the_origin() {
    let emitters: [Emitter; 6] = [face_up, face_down, face_south, face_north, face_west, face_east];
    for emitter in emitters {
        let (at_origin, _) = emit_one(emitter, 0, 0, 0);
        let (moved, indices) = emit_one(emitter, -3, 100, 15);
        let base = positions(&at_origin);
        let shifted = positions(&moved);
        for v in 0..4 {
            assert_eq!(shifted[v], (base[v].0 - 3, base[v].1 + 100, base[v].2 + 15));
        }
        assert_eq!(indices, vec![0, 1, 2, 2, 3, 0]);
        for v in 0..4 {
            for c in 3..6 {
                assert_eq!(moved[8 * v + c], w(1));
            }
        }
        let uv = [w(0), w(0), w(0), w(1), w(1), w(1), w(1), w(0)];
        for v in 0..4 {
            assert_eq!(moved[8 * v + 6], uv[2 * v]);
            assert_eq!(moved[8 * v + 7], uv[2 * v + 1]);
        }
    }
}

#[test]
fn faces_do_not_overflow_at_the_largest_origin() {
    let (up, _) = emit_one(face_up, i32::MAX, i32::MAX, i32::MIN);
    let max = i32::MAX as i64;
    let min = i32::MIN as i64;
    assert_eq!(
        positions(&up),
        vec![(max, max + 1, min), (max, max + 1, min + 1), (max + 1, max + 1, min + 1), (max + 1, max + 1, min)]
    );
}

#[test]
fn a_face_is_written_at_the_cursors_and_leaves_the_rest() {
    let map = AtlasTextureMap::identity();
    let mut float_data = vec![FILL; 100];
    let mut indices_data = vec![55u32; 20];
    let mut float_count = 40usize;
    let mut indices_count = 7usize;
    let mut face_count = 12usize;
    face_down(
        &map,
        &mut float_data,
        &mut indices_data,
        &mut float_count,
        &mut indices_count,
        &mut face_count,
        0,
        0,
        0,
        w(1),
    );
    assert_eq!(float_count, 72);
    assert_eq!(indices_count, 13);
    assert_eq!(face_count, 16);
    for i in 0..40 {
        assert_eq!(float_data[i], FILL);
    }
    for i in 72..100 {
        assert_eq!(float_data[i], FILL);
    }
    for i in 40..72 {
        assert_ne!(float_data[i], FILL);
    }
    assert_eq!(&indices_data[..7], &[55u32; 7]);
    assert_eq!(&indices_data[7..13], &[12, 13, 14, 14, 15, 12]);
    assert_eq!(&indices_data[13..], &[55u32; 7]);
}

#[test]
fn all_six_faces_of_a_unit_block() {
    let maps = six_maps();
    let mut float_data = vec![FILL; 192];
    let mut indices_data = vec![u32::MAX; 36];
    let mut float_count = 0usize;
    let mut face_count = 0usize;
    let mut indices_count = 0usize;
    add_block(
        &maps,
        &mut float_data,
        &mut indices_data,
        &mut float_count,
        &mut face_count,
        &mut indices_count,
        true,
        true,
        true,
        true,
        true,
        true,
        0,
        0,
        0,
        w(1),
    );
    assert_eq!(float_count, 192);
    assert_eq!(float_count / FLOATS_PER_VERTEX, 24);
    assert_eq!(face_count, 24);
    assert_eq!(indices_count, 36);
    for index in &indices_data {
        assert!(*index < 24);
    }
    for value in &float_data {
        assert_ne!(*value, FILL);
    }
    let mut expected_indices = Vec::new();
    for face in 0..6u32 {
        let base = 4 * face;
        expected_indices.extend_from_slice(&[base, base + 1, base + 2, base + 2, base + 3, base]);
    }
    assert_eq!(indices_data, expected_indices);
}

#[test]
fn faces_are_emitted_in_a_fixed_order_with_their_own_mapping() {
    let maps = six_maps();
    let mut float_data = vec![FILL; 192];
    let mut indices_data = vec![0u32; 36];
    let mut float_count = 0usize;
    let mut face_count = 0usize;
    let mut indices_count = 0usize;
    add_block(
        &maps,
        &mut float_data,
        &mut indices_data,
        &mut float_count,
        &mut face_count,
        &mut indices_count,
        true,
        true,
        true,
        true,
        true,
        true,
        2,
        3,
        4,
        w(1),
    );
    let emitters: [Emitter; 6] = [face_up, face_down, face_south, face_north, face_west, face_east];
    for (face, emitter) in emitters.iter().enumerate() {
        let (alone, _) = emit_one(*emitter, 2, 3, 4);
        let part = &float_data[32 * face..32 * (face + 1)];
        assert_eq!(positions(part), positions(&alone));
        // the first corner of the face's own rectangle
        assert_eq!(part[6], s(16 * face as i64, 96));
        assert_eq!(part[7], s(0, 16));
    }
}

#[test]
fn side_faces_are_darker_by_three_sixty_fourths() {
    let maps = six_maps();
    let mut float_data = vec![FILL; 192];
    let mut indices_data = vec![0u32; 36];
    let mut float_count = 0usize;
    let mut face_count = 0usize;
    let mut indices_count = 0usize;
    let light = w(1);
    add_block(
        &maps,
        &mut float_data,
        &mut indices_data,
        &mut float_count,
        &mut face_count,
        &mut indices_count,
        true,
        true,
        true,
        true,
        true,
        true,
        0,
        0,
        0,
        light,
    );
    for face in 0..6 {
        let expected = if face < 2 { s(1, 1) } else { s(61, 64) };
        for vertex in 0..4 {
            for channel in 3..6 {
                assert_eq!(float_data[32 * face + 8 * vertex + channel], expected);
            }
        }
    }
    // 61/64 == 1 - 0.75/16
    assert_eq!(61.0f64 / 64.0, 1.0 - 0.75 / 16.0);
}

#[test]
fn side_face_light_subtracts_three_sixty_fourths() {
    assert_eq!(side_face_light(s(1, 1)), s(61, 64));
    assert_eq!(side_face_light(s(1, 2)), s(58, 128));
    assert_eq!(side_face_light(s(15, 16)), s(912, 1024));
    assert_eq!(side_face_light(s(0, 1)), s(-3, 64));
    assert_eq!(side_face_light(s(-1, 1)), s(-67, 64));
    for (num, den) in [(1i64, 1u64), (1, 2), (15, 16), (7, 15), (0, 3)] {
        let side = side_face_light(s(num, den));
        let value = side.num as f64 / side.den as f64;
        let expected = num as f64 / den as f64 - 0.75 / 16.0;
        assert!((value - expected).abs() < 1e-12);
    }
}

#[test]
fn side_face_light_fits_tells_when_the_result_can_be_written() {
    assert!(side_face_light_fits(s(1, 1)));
    assert!(side_face_light_fits(s(0, 0)));
    assert!(side_face_light_fits(s(i64::MAX / 64, 1)));
    // 64 * 2^57 - 3 is below 2^63, 64 * 2^57 is not
    assert!(side_face_light_fits(s(i64::MAX / 64 + 1, 1)));
    assert!(!side_face_light_fits(s(i64::MAX / 64 + 1, 0)));
    assert!(!side_face_light_fits(s(i64::MAX / 64 + 2, 1)));
    assert!(side_face_light_fits(s(i64::MIN / 64, 0)));
    assert!(!side_face_light_fits(s(i64::MIN / 64, 1)));
    assert!(side_face_light_fits(s(0, u64::MAX / 64)));
    assert!(!side_face_light_fits(s(0, u64::MAX / 64 + 1)));
    assert_eq!(
        side_face_light(s(i64::MAX / 64, 1)),
        s(64 * (i64::MAX / 64) - 3, 64)
    );
}

#[test]
fn dry_run_counts_one_face() {
    let mut float_count = 0usize;
    let mut indices_count = 0usize;
    dry_run(&mut float_count, &mut indices_count);
    assert_eq!((float_count, indices_count), (32, 6));
    dry_run(&mut float_count, &mut indices_count);
    assert_eq!((float_count, indices_count), (64, 12));
}

#[test]
fn dry_run_and_emission_agree_for_every_mask() {
    let maps = six_maps();
    for mask in 0..64u32 {
        let flags: Vec<bool> = (0..6).map(|bit| mask & (1 << bit) != 0).collect();
        let faces = flags.iter().filter(|f| **f).count();
        let mut planned_floats = 0usize;
        let mut planned_indices = 0usize;
        dry_run_block(
            &mut planned_floats,
            &mut planned_indices,
            flags[0],
            flags[1],
            flags[2],
            flags[3],
            flags[4],
            flags[5],
        );
        assert_eq!(planned_floats, 32 * faces);
        assert_eq!(planned_indices, 6 * faces);
        let mut float_data = vec![FILL; planned_floats];
        let mut indices_data = vec![u32::MAX; planned_indices];
        let mut float_count = 0usize;
        let mut face_count = 0usize;
        let mut indices_count = 0usize;
        add_block(
            &maps,
            &mut float_data,
            &mut indices_data,
            &mut float_count,
            &mut face_count,
            &mut indices_count,
            flags[0],
            flags[1],
            flags[2],
            flags[3],
            flags[4],
            flags[5],
            1,
            2,
            3,
            s(1, 1),
        );
        assert_eq!(float_count, planned_floats);
        assert_eq!(indices_count, planned_indices);
        assert_eq!(face_count, 4 * faces);
        assert!(float_data.iter().all(|v| *v != FILL));
        assert!(indices_data.iter().all(|i| (*i as usize) < 4 * faces));
    }
}

#[test]
fn hidden_faces_are_skipped() {
    let maps = six_maps();
    let mut float_data = vec![FILL; 64];
    let mut indices_data = vec![0u32; 12];
    let mut float_count = 0usize;
    let mut face_count = 0usize;
    let mut indices_count = 0usize;
    // only -y and -x; the arguments come as +x, -x, +y, -y, +z, -z
    add_block(
        &maps,
        &mut float_data,
        &mut indices_data,
        &mut float_count,
        &mut face_count,
        &mut indices_count,
        false,
        true,
        false,
        true,
        false,
        false,
        0,
        0,
        0,
        s(1, 1),
    );
    assert_eq!((float_count, face_count, indices_count), (64, 8, 12));
    let (down, _) = emit_one(face_down, 0, 0, 0);
    let (east, _) = emit_one(face_east, 0, 0, 0);
    assert_eq!(positions(&float_data[..32]), positions(&down));
    assert_eq!(positions(&float_data[32..]), positions(&east));
    assert_eq!(float_data[3], s(1, 1));
    assert_eq!(float_data[32 + 3], s(61, 64));
    assert_eq!(float_data[6], s(16, 96));
    assert_eq!(float_data[32 + 6], s(80, 96));
    assert_eq!(indices_data, vec![0, 1, 2, 2, 3, 0, 4, 5, 6, 6, 7, 4]);
}

#[test]
fn a_block_without_visible_faces_emits_nothing() {
    let maps: Vec<AtlasTextureMap> = Vec::new();
    let mut float_data: Vec<Scalar> = Vec::new();
    let mut indices_data: Vec<u32> = Vec::new();
    let mut float_count = 0usize;
    let mut face_count = 0usize;
    let mut indices_count = 0usize;
    add_block(
        &maps,
        &mut float_data,
        &mut indices_data,
        &mut float_count,
        &mut face_count,
        &mut indices_count,
        false,
        false,
        false,
        false,
        false,
        false,
        0,
        0,
        0,
        s(1, 0),
    );
    assert_eq!((float_count, face_count, indices_count), (0, 0, 0));
    assert!(float_data.is_empty());
    assert!(indices_data.is_empty());
}

#[test]
fn set_pos_adds_the_origin_to_each_corner() {
    let mut pos: [i64; 12] = [0, 1, 0, 0, 1, 1, 1, 1, 1, 1, 1, 0];
    set_pos(&mut pos, 10, -20, 30);
    assert_eq!(pos, [10, -19, 30, 10, -19, 31, 11, -19, 31, 11, -19, 30]);
}

#[test]
fn adjust_indices_raises_by_the_vertex_count() {
    let mut index: [u32; 6] = [0, 1, 2, 2, 3, 0];
    let mut face_count = 8usize;
    adjust_indices(&mut index, &mut face_count);
    assert_eq!(index, [8, 9, 10, 10, 11, 8]);
    assert_eq!(face_count, 12);
    let mut index: [u32; 6] = [0, 1, 2, 2, 3, 0];
    let mut face_count = (u32::MAX - 3) as usize;
    adjust_indices(&mut index, &mut face_count);
    assert_eq!(index[4], u32::MAX);
}

#[test]
fn assign_indices_writes_at_the_cursor() {
    let mut vector = vec![9u32; 10];
    let mut current_count = 3usize;
    assign_indices(&mut vector, &[4, 5, 6, 6, 7, 4], &mut current_count);
    assert_eq!(vector, vec![9, 9, 9, 4, 5, 6, 6, 7, 4, 9]);
    assert_eq!(current_count, 9);
}

#[test]
fn stripe_interleaves_position_color_and_texture() {
    let pos: [i64; 12] = [1, 2, 3, 4, 5, 6, 7, 8, 9, 10, 11, 12];
    let mut color = [w(0); 12];
    for i in 0..12 {
        color[i] = s(100 + i as i64, 3);
    }
    let mut texture = [w(0); 8];
    for i in 0..8 {
        texture[i] = s(200 + i as i64, 5);
    }
    let mut float_data = vec![FILL; 34];
    let mut float_count = 1usize;
    stripe(&mut float_data, &pos, &color, &texture, &mut float_count);
    assert_eq!(float_count, 33);
    assert_eq!(float_data[0], FILL);
    assert_eq!(float_data[33], FILL);
    for v in 0..4 {
        let vertex = &float_data[1 + 8 * v..1 + 8 * (v + 1)];
        for c in 0..3 {
            assert_eq!(vertex[c], w(pos[3 * v + c]));
            assert_eq!(vertex[3 + c], color[3 * v + c]);
        }
        assert_eq!(vertex[6], texture[2 * v]);
        assert_eq!(vertex[7], texture[2 * v + 1]);
    }
}
