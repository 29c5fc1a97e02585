//! The mesh builder: one quad of four vertices and six indices for every
//! visible face of a block.
//!
//! A vertex is eight scalars, position (3), colour (3) and texture
//! coordinate (2); the vertices of all faces follow one another in one
//! buffer. The index buffer lists two counter-clockwise triangles per
//! face. Both buffers are sized beforehand by a dry run and then filled
//! through cursors that the caller keeps.

use vstd::prelude::*;
use crate::atlas::AtlasTextureMap;
use crate::scalar::Scalar;

verus! {

/// Scalars per vertex.
pub const FLOATS_PER_VERTEX: usize = 8;

/// Scalars per face: four vertices.
pub const FLOATS_PER_FACE: usize = 32;

/// Indices per face: two triangles.
pub const INDICES_PER_FACE: usize = 6;

/// Vertices per face.
pub const VERTICES_PER_FACE: usize = 4;

/// `buffer` with `data` written over it from position `at` on.
#[verifier::opaque]
pub open spec fn overwritten<T>(buffer: Seq<T>, at: int, data: Seq<T>) -> Seq<T> {
    Seq::new(
        buffer.len(),
        |i: int|
            if at <= i < at + data.len() {
                data[i - at]
            } else {
                buffer[i]
            },
    )
}

/// `buffer` is `before` with the first `done` items of `goal` written
/// from position `start` on.
spec fn filled<T>(buffer: Seq<T>, before: Seq<T>, start: int, done: int, goal: Seq<T>) -> bool {
    &&& buffer.len() == before.len()
    &&& forall|i: int|
        0 <= i < buffer.len() ==> buffer[i] == if start <= i < start + done {
            goal[i - start]
        } else {
            before[i]
        }
}

/// The component of the origin that is added to the `i`-th value of a
/// position table: x, y, z in turn.
pub open spec fn origin_component(i: int, x: i32, y: i32, z: i32) -> int {
    if i % 3 == 0 {
        x as int
    } else if i % 3 == 1 {
        y as int
    } else {
        z as int
    }
}

/// Moves the four corners in `pos` by `(x, y, z)`.
pub fn set_pos(pos: &mut [i64; 12], x: i32, y: i32, z: i32)
    requires
        forall|i: int|
            0 <= i < 12 ==> i64::MIN <= #[trigger] old(pos)@[i] + origin_component(i, x, y, z)
                <= i64::MAX,
    ensures
        forall|i: int|
            0 <= i < 12 ==> final(pos)@[i] == old(pos)@[i] + origin_component(i, x, y, z),
{
    let mut xyz_index: i8 = 0;
    let mut i: usize = 0;
    while i < 12
        invariant
            i <= 12,
            0 <= xyz_index < 3,
            xyz_index == i % 3,
            forall|j: int|
                0 <= j < 12 ==> i64::MIN <= #[trigger] old(pos)@[j] + origin_component(j, x, y, z)
                    <= i64::MAX,
            forall|j: int| 0 <= j < i ==> pos@[j] == old(pos)@[j] + origin_component(j, x, y, z),
            forall|j: int| i <= j < 12 ==> pos@[j] == old(pos)@[j],
        decreases 12 - i,
    {
        let value: i64 = pos[i];
        if xyz_index == 0 {
            pos[i] = value + x as i64;
        } else if xyz_index == 1 {
            pos[i] = value + y as i64;
        } else {
            pos[i] = value + z as i64;
        }
        xyz_index += 1;
        if xyz_index == 3 {
            xyz_index = 0;
        }
        i += 1;
    }
}

/// Raises every index of a face by the number of vertices emitted so
/// far, and counts the four vertices of this face.
pub fn adjust_indices(index: &mut [u32; 6], face_count: &mut usize)
    requires
        *old(face_count) + 4 <= usize::MAX,
        forall|i: int| 0 <= i < 6 ==> #[trigger] old(index)@[i] + *old(face_count) <= u32::MAX,
    ensures
        forall|i: int| 0 <= i < 6 ==> final(index)@[i] == old(index)@[i] + *old(face_count),
        *final(face_count) == *old(face_count) + 4,
{
    assert(index@[0] + *face_count <= u32::MAX);
    let base: u32 = *face_count as u32;
    let mut i: usize = 0;
    while i < 6
        invariant
            i <= 6,
            base == *old(face_count),
            forall|j: int| 0 <= j < 6 ==> #[trigger] old(index)@[j] + base <= u32::MAX,
            forall|j: int| 0 <= j < i ==> index@[j] == old(index)@[j] + base,
            forall|j: int| i <= j < 6 ==> index@[j] == old(index)@[j],
        decreases 6 - i,
    {
        let value: u32 = index[i];
        index[i] = value + base;
        i += 1;
    }
    *face_count += 4;
}

/// Writes the six indices of a face into the index buffer at the cursor
/// and moves the cursor past them.
pub fn assign_indices(vector: &mut Vec<u32>, array: &[u32; 6], current_count: &mut usize)
    requires
        *old(current_count) + 6 <= old(vector).len(),
    ensures
        final(vector)@ == overwritten(old(vector)@, *old(current_count) as int, array@),
        *final(current_count) == *old(current_count) + 6,
{
    let ghost start = *current_count as int;
    let mut i: usize = 0;
    while i < 6
        invariant
            i <= 6,
            start + 6 <= vector.len(),
            *current_count == start + i,
            filled(vector@, old(vector)@, start, i as int, array@),
        decreases 6 - i,
    {
        vector[*current_count] = array[i];
        *current_count += 1;
        i += 1;
    }
    assert(vector@ =~= overwritten(old(vector)@, start, array@)) by {
        reveal(overwritten);
    }
}

/// Counts one face for the buffers that are yet to be allocated: 32
/// scalars and 6 indices.
pub fn dry_run(float_count: &mut usize, indices_count: &mut usize)
    requires
        *old(float_count) + 32 <= usize::MAX,
        *old(indices_count) + 6 <= usize::MAX,
    ensures
        *final(float_count) == *old(float_count) + 32,
        *final(indices_count) == *old(indices_count) + 6,
{
    // position 12, colour 12, texture 8
    *float_count += 32;
    *indices_count += 6;
}

/// The 32 scalars of a face: for each of the four vertices its position,
/// its colour and its texture coordinate.
pub open spec fn interleaved(pos: Seq<i64>, color: Seq<Scalar>, texture: Seq<Scalar>) -> Seq<
    Scalar,
> {
    Seq::new(
        32,
        |k: int|
            if k % 8 < 3 {
                Scalar { num: pos[(k / 8) * 3 + k % 8], den: 1 }
            } else if k % 8 < 6 {
                color[(k / 8) * 3 + (k % 8 - 3)]
            } else {
                texture[(k / 8) * 2 + (k % 8 - 6)]
            },
    )
}

/// Writes the vertices of a face into the vertex buffer at the cursor,
/// each as position, colour, texture coordinate, and moves the cursor
/// past them.
pub fn stripe(
    float_data: &mut Vec<Scalar>,
    pos: &[i64; 12],
    color: &[Scalar; 12],
    texture: &[Scalar; 8],
    float_count: &mut usize,
)
    requires
        *old(float_count) + 32 <= old(float_data).len(),
    ensures
        final(float_data)@ == overwritten(
            old(float_data)@,
            *old(float_count) as int,
            interleaved(pos@, color@, texture@),
        ),
        *final(float_count) == *old(float_count) + 32,
{
    let ghost start = *float_count as int;
    let ghost goal = interleaved(pos@, color@, texture@);
    let mut index: usize = 0;
    while index < 4
        invariant
            index <= 4,
            start + 32 <= float_data.len(),
            goal == interleaved(pos@, color@, texture@),
            *float_count == start + 8 * index,
            filled(float_data@, old(float_data)@, start, 8 * index, goal),
        decreases 4 - index,
    {
        let mut i: usize = 0;
        while i < 3
            invariant
                i <= 3,
                index < 4,
                start + 32 <= float_data.len(),
                goal == interleaved(pos@, color@, texture@),
                *float_count == start + 8 * index + i,
                filled(float_data@, old(float_data)@, start, 8 * index + i, goal),
            decreases 3 - i,
        {
            assert(goal[8 * index + i] == Scalar { num: pos@[index * 3 + i], den: 1 });
            float_data[*float_count] = Scalar::whole(pos[(index * 3) + i]);
            *float_count += 1;
            i += 1;
        }
        let mut i: usize = 0;
        while i < 3
            invariant
                i <= 3,
                index < 4,
                start + 32 <= float_data.len(),
                goal == interleaved(pos@, color@, texture@),
                *float_count == start + 8 * index + 3 + i,
                filled(float_data@, old(float_data)@, start, 8 * index + 3 + i, goal),
            decreases 3 - i,
        {
            assert(goal[8 * index + 3 + i] == color@[index * 3 + i]);
            float_data[*float_count] = color[(index * 3) + i];
            *float_count += 1;
            i += 1;
        }
        let mut i: usize = 0;
        while i < 2
            invariant
                i <= 2,
                index < 4,
                start + 32 <= float_data.len(),
                goal == interleaved(pos@, color@, texture@),
                *float_count == start + 8 * index + 6 + i,
                filled(float_data@, old(float_data)@, start, 8 * index + 6 + i, goal),
            decreases 2 - i,
        {
            assert(goal[8 * index + 6 + i] == texture@[index * 2 + i]);
            float_data[*float_count] = texture[(index * 2) + i];
            *float_count += 1;
            i += 1;
        }
        index += 1;
    }
    assert(float_data@ =~= overwritten(old(float_data)@, start, goal)) by {
        reveal(overwritten);
    }
}

/// The six directions in which a block has a face.
#[derive(Clone, Copy, Debug, PartialEq, Eq, Structural)]
pub enum Face {
    /// +y
    Up,
    /// -y
    Down,
    /// +z
    South,
    /// -z
    North,
    /// +x
    West,
    /// -x
    East,
}

/// The four corners of a face of the unit cube, three values each, in
/// the order in which the face's vertices are emitted.
pub open spec fn unit_corners(face: Face) -> Seq<i64> {
    match face {
        Face::Up => seq![0, 1, 0, 0, 1, 1, 1, 1, 1, 1, 1, 0],
        Face::Down => seq![0, 0, 1, 0, 0, 0, 1, 0, 0, 1, 0, 1],
        Face::South => seq![0, 1, 1, 0, 0, 1, 1, 0, 1, 1, 1, 1],
        Face::North => seq![0, 0, 0, 0, 1, 0, 1, 1, 0, 1, 0, 0],
        Face::West => seq![1, 0, 1, 1, 0, 0, 1, 1, 0, 1, 1, 1],
        Face::East => seq![0, 0, 0, 0, 0, 1, 0, 1, 1, 0, 1, 0],
    }
}

/// The corners of a face of the block whose origin is `(x, y, z)`.
pub open spec fn face_positions(face: Face, x: i32, y: i32, z: i32) -> Seq<i64> {
    Seq::new(12, |i: int| (unit_corners(face)[i] + origin_component(i, x, y, z)) as i64)
}

/// The colour of the four vertices of a face: `light` on all three
/// channels of each.
pub open spec fn face_colors(light: Scalar) -> Seq<Scalar> {
    Seq::new(12, |i: int| light)
}

/// The 32 scalars that a face adds to the vertex buffer.
#[verifier::opaque]
pub open spec fn face_vertices(
    face: Face,
    atlas_map: AtlasTextureMap,
    x: i32,
    y: i32,
    z: i32,
    light: Scalar,
) -> Seq<Scalar> {
    interleaved(face_positions(face, x, y, z), face_colors(light), atlas_map.spec_corners())
}

/// The six indices that a face adds to the index buffer when `base`
/// vertices were emitted before it: the triangles (0, 1, 2) and
/// (2, 3, 0) of its four vertices.
#[verifier::opaque]
pub open spec fn face_indices(base: int) -> Seq<u32> {
    seq![
        base as u32,
        (base + 1) as u32,
        (base + 2) as u32,
        (base + 2) as u32,
        (base + 3) as u32,
        base as u32,
    ]
}

/// Whether the buffers have room for one more face at the cursors, and
/// the face's vertices can still be numbered.
pub open spec fn face_fits(
    float_data: Seq<Scalar>,
    indices_data: Seq<u32>,
    float_count: usize,
    indices_count: usize,
    face_count: usize,
) -> bool {
    &&& float_count + 32 <= float_data.len()
    &&& indices_count + 6 <= indices_data.len()
    &&& face_count + 3 <= u32::MAX
    &&& face_count + 4 <= usize::MAX
}

/// Emits the face whose corners, moved to the block, are `pos`.
fn emit_face(
    atlas_map: &AtlasTextureMap,
    float_data: &mut Vec<Scalar>,
    indices_data: &mut Vec<u32>,
    float_count: &mut usize,
    indices_count: &mut usize,
    face_count: &mut usize,
    pos: &[i64; 12],
    light: Scalar,
)
    requires
        face_fits(
            old(float_data)@,
            old(indices_data)@,
            *old(float_count),
            *old(indices_count),
            *old(face_count),
        ),
    ensures
        final(float_data)@ == overwritten(
            old(float_data)@,
            *old(float_count) as int,
            interleaved(pos@, face_colors(light), atlas_map.spec_corners()),
        ),
        final(indices_data)@ == overwritten(
            old(indices_data)@,
            *old(indices_count) as int,
            face_indices(*old(face_count) as int),
        ),
        *final(float_count) == *old(float_count) + 32,
        *final(indices_count) == *old(indices_count) + 6,
        *final(face_count) == *old(face_count) + 4,
{
    let color: [Scalar; 12] = [
        light,
        light,
        light,
        light,
        light,
        light,
        light,
        light,
        light,
        light,
        light,
        light,
    ];
    assert(color@ =~= face_colors(light));
    let texture: [Scalar; 8] = atlas_map.corners();
    stripe(float_data, pos, &color, &texture, float_count);
    let mut index: [u32; 6] = [0, 1, 2, 2, 3, 0];
    let ghost base = *face_count as int;
    adjust_indices(&mut index, face_count);
    assert(index@ =~= face_indices(base)) by {
        reveal(face_indices);
    }
    assign_indices(indices_data, &index, indices_count);
}

/// Emits the upper (+y) face of the block at `(x, y, z)`: its four vertices
/// at the vertex cursor, its six indices at the index cursor.
pub fn face_up(
    atlas_map: &AtlasTextureMap,
    float_data: &mut Vec<Scalar>,
    indices_data: &mut Vec<u32>,
    float_count: &mut usize,
    indices_count: &mut usize,
    face_count: &mut usize,
    x: i32,
    y: i32,
    z: i32,
    light: Scalar,
)
    requires
        face_fits(
            old(float_data)@,
            old(indices_data)@,
            *old(float_count),
            *old(indices_count),
            *old(face_count),
        ),
    ensures
        final(float_data)@ == overwritten(
            old(float_data)@,
            *old(float_count) as int,
            face_vertices(Face::Up, *atlas_map, x, y, z, light),
        ),
        final(indices_data)@ == overwritten(
            old(indices_data)@,
            *old(indices_count) as int,
            face_indices(*old(face_count) as int),
        ),
        *final(float_count) == *old(float_count) + 32,
        *final(indices_count) == *old(indices_count) + 6,
        *final(face_count) == *old(face_count) + 4,
{
    let mut pos: [i64; 12] = [0, 1, 0, 0, 1, 1, 1, 1, 1, 1, 1, 0];
    assert(pos@ =~= unit_corners(Face::Up));
    set_pos(&mut pos, x, y, z);
    reveal(face_vertices);
    assert(pos@ =~= face_positions(Face::Up, x, y, z));
    emit_face(
        atlas_map,
        float_data,
        indices_data,
        float_count,
        indices_count,
        face_count,
        &pos,
        light,
    );
}

/// Emits the lower (-y) face of the block at `(x, y, z)`: its four vertices
/// at the vertex cursor, its six indices at the index cursor.
pub fn face_down(
    atlas_map: &AtlasTextureMap,
    float_data: &mut Vec<Scalar>,
    indices_data: &mut Vec<u32>,
    float_count: &mut usize,
    indices_count: &mut usize,
    face_count: &mut usize,
    x: i32,
    y: i32,
    z: i32,
    light: Scalar,
)
    requires
        face_fits(
            old(float_data)@,
            old(indices_data)@,
            *old(float_count),
            *old(indices_count),
            *old(face_count),
        ),
    ensures
        final(float_data)@ == overwritten(
            old(float_data)@,
            *old(float_count) as int,
            face_vertices(Face::Down, *atlas_map, x, y, z, light),
        ),
        final(indices_data)@ == overwritten(
            old(indices_data)@,
            *old(indices_count) as int,
            face_indices(*old(face_count) as int),
        ),
        *final(float_count) == *old(float_count) + 32,
        *final(indices_count) == *old(indices_count) + 6,
        *final(face_count) == *old(face_count) + 4,
{
    let mut pos: [i64; 12] = [0, 0, 1, 0, 0, 0, 1, 0, 0, 1, 0, 1];
    assert(pos@ =~= unit_corners(Face::Down));
    set_pos(&mut pos, x, y, z);
    reveal(face_vertices);
    assert(pos@ =~= face_positions(Face::Down, x, y, z));
    emit_face(
        atlas_map,
        float_data,
        indices_data,
        float_count,
        indices_count,
        face_count,
        &pos,
        light,
    );
}

/// Emits the southern (+z) face of the block at `(x, y, z)`: its four vertices
/// at the vertex cursor, its six indices at the index cursor.
pub fn face_south(
    atlas_map: &AtlasTextureMap,
    float_data: &mut Vec<Scalar>,
    indices_data: &mut Vec<u32>,
    float_count: &mut usize,
    indices_count: &mut usize,
    face_count: &mut usize,
    x: i32,
    y: i32,
    z: i32,
    light: Scalar,
)
    requires
        face_fits(
            old(float_data)@,
            old(indices_data)@,
            *old(float_count),
            *old(indices_count),
            *old(face_count),
        ),
    ensures
        final(float_data)@ == overwritten(
            old(float_data)@,
            *old(float_count) as int,
            face_vertices(Face::South, *atlas_map, x, y, z, light),
        ),
        final(indices_data)@ == overwritten(
            old(indices_data)@,
            *old(indices_count) as int,
            face_indices(*old(face_count) as int),
        ),
        *final(float_count) == *old(float_count) + 32,
        *final(indices_count) == *old(indices_count) + 6,
        *final(face_count) == *old(face_count) + 4,
{
    let mut pos: [i64; 12] = [0, 1, 1, 0, 0, 1, 1, 0, 1, 1, 1, 1];
    assert(pos@ =~= unit_corners(Face::South));
    set_pos(&mut pos, x, y, z);
    reveal(face_vertices);
    assert(pos@ =~= face_positions(Face::South, x, y, z));
    emit_face(
        atlas_map,
        float_data,
        indices_data,
        float_count,
        indices_count,
        face_count,
        &pos,
        light,
    );
}

/// Emits the northern (-z) face of the block at `(x, y, z)`: its four vertices
/// at the vertex cursor, its six indices at the index cursor.
pub fn face_north(
    atlas_map: &AtlasTextureMap,
    float_data: &mut Vec<Scalar>,
    indices_data: &mut Vec<u32>,
    float_count: &mut usize,
    indices_count: &mut usize,
    face_count: &mut usize,
    x: i32,
    y: i32,
    z: i32,
    light: Scalar,
)
    requires
        face_fits(
            old(float_data)@,
            old(indices_data)@,
            *old(float_count),
            *old(indices_count),
            *old(face_count),
        ),
    ensures
        final(float_data)@ == overwritten(
            old(float_data)@,
            *old(float_count) as int,
            face_vertices(Face::North, *atlas_map, x, y, z, light),
        ),
        final(indices_data)@ == overwritten(
            old(indices_data)@,
            *old(indices_count) as int,
            face_indices(*old(face_count) as int),
        ),
        *final(float_count) == *old(float_count) + 32,
        *final(indices_count) == *old(indices_count) + 6,
        *final(face_count) == *old(face_count) + 4,
{
    let mut pos: [i64; 12] = [0, 0, 0, 0, 1, 0, 1, 1, 0, 1, 0, 0];
    assert(pos@ =~= unit_corners(Face::North));
    set_pos(&mut pos, x, y, z);
    reveal(face_vertices);
    assert(pos@ =~= face_positions(Face::North, x, y, z));
    emit_face(
        atlas_map,
        float_data,
        indices_data,
        float_count,
        indices_count,
        face_count,
        &pos,
        light,
    );
}

/// Emits the western (+x) face of the block at `(x, y, z)`: its four vertices
/// at the vertex cursor, its six indices at the index cursor.
pub fn face_west(
    atlas_map: &AtlasTextureMap,
    float_data: &mut Vec<Scalar>,
    indices_data: &mut Vec<u32>,
    float_count: &mut usize,
    indices_count: &mut usize,
    face_count: &mut usize,
    x: i32,
    y: i32,
    z: i32,
    light: Scalar,
)
    requires
        face_fits(
            old(float_data)@,
            old(indices_data)@,
            *old(float_count),
            *old(indices_count),
            *old(face_count),
        ),
    ensures
        final(float_data)@ == overwritten(
            old(float_data)@,
            *old(float_count) as int,
            face_vertices(Face::West, *atlas_map, x, y, z, light),
        ),
        final(indices_data)@ == overwritten(
            old(indices_data)@,
            *old(indices_count) as int,
            face_indices(*old(face_count) as int),
        ),
        *final(float_count) == *old(float_count) + 32,
        *final(indices_count) == *old(indices_count) + 6,
        *final(face_count) == *old(face_count) + 4,
{
    let mut pos: [i64; 12] = [1, 0, 1, 1, 0, 0, 1, 1, 0, 1, 1, 1];
    assert(pos@ =~= unit_corners(Face::West));
    set_pos(&mut pos, x, y, z);
    reveal(face_vertices);
    assert(pos@ =~= face_positions(Face::West, x, y, z));
    emit_face(
        atlas_map,
        float_data,
        indices_data,
        float_count,
        indices_count,
        face_count,
        &pos,
        light,
    );
}

/// Emits the eastern (-x) face of the block at `(x, y, z)`: its four vertices
/// at the vertex cursor, its six indices at the index cursor.
pub fn face_east(
    atlas_map: &AtlasTextureMap,
    float_data: &mut Vec<Scalar>,
    indices_data: &mut Vec<u32>,
    float_count: &mut usize,
    indices_count: &mut usize,
    face_count: &mut usize,
    x: i32,
    y: i32,
    z: i32,
    light: Scalar,
)
    requires
        face_fits(
            old(float_data)@,
            old(indices_data)@,
            *old(float_count),
            *old(indices_count),
            *old(face_count),
        ),
    ensures
        final(float_data)@ == overwritten(
            old(float_data)@,
            *old(float_count) as int,
            face_vertices(Face::East, *atlas_map, x, y, z, light),
        ),
        final(indices_data)@ == overwritten(
            old(indices_data)@,
            *old(indices_count) as int,
            face_indices(*old(face_count) as int),
        ),
        *final(float_count) == *old(float_count) + 32,
        *final(indices_count) == *old(indices_count) + 6,
        *final(face_count) == *old(face_count) + 4,
{
    let mut pos: [i64; 12] = [0, 0, 0, 0, 0, 1, 0, 1, 1, 0, 1, 0];
    assert(pos@ =~= unit_corners(Face::East));
    set_pos(&mut pos, x, y, z);
    reveal(face_vertices);
    assert(pos@ =~= face_positions(Face::East, x, y, z));
    emit_face(
        atlas_map,
        float_data,
        indices_data,
        float_count,
        indices_count,
        face_count,
        &pos,
        light,
    );
}

/// Whether the light of a side face can be written as a scalar.
pub open spec fn side_light_fits(light: Scalar) -> bool {
    &&& i64::MIN <= 64 * light.num - 3 * light.den <= i64::MAX
    &&& 64 * light.den <= u64::MAX
}

/// The light of a side face where the upper and lower faces have
/// `light`: lower by three quarters of a sixteenth, which is 3/64.
pub open spec fn side_light(light: Scalar) -> Scalar {
    Scalar { num: (64 * light.num - 3 * light.den) as i64, den: (64 * light.den) as u64 }
}

/// Computes [`side_light_fits`].
pub fn side_face_light_fits(light: Scalar) -> (r: bool)
    ensures
        r == side_light_fits(light),
{
    let num: i128 = 64 * (light.num as i128) - 3 * (light.den as i128);
    num >= -9223372036854775808 && num <= 9223372036854775807 && light.den
        <= 288230376151711743
}

/// Computes [`side_light`].
pub fn side_face_light(light: Scalar) -> (r: Scalar)
    requires
        side_light_fits(light),
    ensures
        r == side_light(light),
{
    let num: i128 = 64 * (light.num as i128) - 3 * (light.den as i128);
    Scalar { num: num as i64, den: 64 * light.den }
}

/// The light of a side face is the light of the upper and lower faces
/// minus 3/64: `side.num / side.den == light.num / light.den - 3 / 64`,
/// with the denominators multiplied out.
pub proof fn lemma_side_light_offset(light: Scalar)
    requires
        light.is_finite(),
        side_light_fits(light),
    ensures
        side_light(light).is_finite(),
        side_light(light).num * (light.den * 64) == (light.num * 64 - 3 * light.den) * side_light(
            light,
        ).den,
{
}

/// 1 for a face that is shown, 0 for a hidden one.
pub open spec fn shown(flag: bool) -> int {
    if flag {
        1
    } else {
        0
    }
}

/// The number of faces that a culling mask shows.
pub open spec fn faces_shown(
    x_plus: bool,
    x_minus: bool,
    y_plus: bool,
    y_minus: bool,
    z_plus: bool,
    z_minus: bool,
) -> int {
    shown(y_plus) + shown(y_minus) + shown(z_plus) + shown(z_minus) + shown(x_plus) + shown(
        x_minus,
    )
}

/// `data` for a face that is shown, nothing for a hidden one.
pub open spec fn when_shown<T>(flag: bool, data: Seq<T>) -> Seq<T> {
    if flag {
        data
    } else {
        Seq::empty()
    }
}

/// The scalars that a block adds to the vertex buffer: those of its
/// shown faces in the order up, down, south, north, west, east, each
/// with the mapping of its direction. The upper and lower faces carry
/// `light`, the four side faces the lower side light.
pub open spec fn block_vertices(
    maps: Seq<AtlasTextureMap>,
    x_plus: bool,
    x_minus: bool,
    y_plus: bool,
    y_minus: bool,
    z_plus: bool,
    z_minus: bool,
    x: i32,
    y: i32,
    z: i32,
    light: Scalar,
) -> Seq<Scalar> {
    when_shown(y_plus, face_vertices(Face::Up, maps[0], x, y, z, light)) + when_shown(
        y_minus,
        face_vertices(Face::Down, maps[1], x, y, z, light),
    ) + when_shown(z_plus, face_vertices(Face::South, maps[2], x, y, z, side_light(light)))
        + when_shown(z_minus, face_vertices(Face::North, maps[3], x, y, z, side_light(light)))
        + when_shown(x_plus, face_vertices(Face::West, maps[4], x, y, z, side_light(light)))
        + when_shown(x_minus, face_vertices(Face::East, maps[5], x, y, z, side_light(light)))
}

/// The indices that a block adds to the index buffer when `base`
/// vertices were emitted before it: six for each shown face, in the
/// order of [`block_vertices`], each face numbering its vertices after
/// those of the faces before it.
pub open spec fn block_indices(
    base: int,
    x_plus: bool,
    x_minus: bool,
    y_plus: bool,
    y_minus: bool,
    z_plus: bool,
    z_minus: bool,
) -> Seq<u32> {
    when_shown(y_plus, face_indices(base)) + when_shown(
        y_minus,
        face_indices(base + 4 * shown(y_plus)),
    ) + when_shown(z_plus, face_indices(base + 4 * (shown(y_plus) + shown(y_minus))))
        + when_shown(
        z_minus,
        face_indices(base + 4 * (shown(y_plus) + shown(y_minus) + shown(z_plus))),
    ) + when_shown(
        x_plus,
        face_indices(base + 4 * (shown(y_plus) + shown(y_minus) + shown(z_plus) + shown(z_minus))),
    ) + when_shown(
        x_minus,
        face_indices(
            base + 4 * (shown(y_plus) + shown(y_minus) + shown(z_plus) + shown(z_minus) + shown(
                x_plus,
            )),
        ),
    )
}

/// Whether a block with the given culling mask can be emitted: each
/// shown face has its mapping, the buffers have room for all shown faces
/// at the cursors, their vertices can be numbered, and the side light
/// can be written where a side face is shown.
pub open spec fn block_fits(
    maps: Seq<AtlasTextureMap>,
    float_data: Seq<Scalar>,
    indices_data: Seq<u32>,
    float_count: usize,
    face_count: usize,
    indices_count: usize,
    x_plus: bool,
    x_minus: bool,
    y_plus: bool,
    y_minus: bool,
    z_plus: bool,
    z_minus: bool,
    light: Scalar,
) -> bool {
    let n = faces_shown(x_plus, x_minus, y_plus, y_minus, z_plus, z_minus);
    &&& y_plus ==> maps.len() > 0
    &&& y_minus ==> maps.len() > 1
    &&& z_plus ==> maps.len() > 2
    &&& z_minus ==> maps.len() > 3
    &&& x_plus ==> maps.len() > 4
    &&& x_minus ==> maps.len() > 5
    &&& float_count + 32 * n <= float_data.len()
    &&& indices_count + 6 * n <= indices_data.len()
    &&& n > 0 ==> face_count + 4 * n - 1 <= u32::MAX
    &&& face_count + 4 * n <= usize::MAX
    &&& z_plus || z_minus || x_plus || x_minus ==> side_light_fits(light)
}

/// A face has 32 scalars and 6 indices.
pub proof fn lemma_face_lengths(
    face: Face,
    atlas_map: AtlasTextureMap,
    x: i32,
    y: i32,
    z: i32,
    light: Scalar,
)
    ensures
        face_vertices(face, atlas_map, x, y, z, light).len() == 32,
        forall|base: int| (#[trigger] face_indices(base)).len() == 6,
{
    reveal(face_vertices);
    reveal(face_indices);
}

/// Every vertex of a face carries the face's light on all three colour
/// channels, which follow the three values of its position.
pub proof fn lemma_face_colors(
    face: Face,
    atlas_map: AtlasTextureMap,
    x: i32,
    y: i32,
    z: i32,
    light: Scalar,
    vertex: int,
    channel: int,
)
    requires
        0 <= vertex < 4,
        3 <= channel < 6,
    ensures
        face_vertices(face, atlas_map, x, y, z, light)[8 * vertex + channel] == light,
{
    reveal(face_vertices);
}

/// Nothing written leaves the buffer as it is, and writing never changes
/// the length of the buffer.
pub proof fn lemma_overwritten_none<T>(buffer: Seq<T>, at: int)
    ensures
        overwritten(buffer, at, Seq::<T>::empty()) == buffer,
        forall|data: Seq<T>| (#[trigger] overwritten(buffer, at, data)).len() == buffer.len(),
{
    reveal(overwritten);
    assert(overwritten(buffer, at, Seq::<T>::empty()) =~= buffer);
}

/// Writing `first` and then, where `flag` holds, `second` right behind
/// it is writing `first` joined with what is shown of `second`.
pub proof fn lemma_overwritten_next<T>(
    buffer: Seq<T>,
    at: int,
    first: Seq<T>,
    flag: bool,
    second: Seq<T>,
    before: Seq<T>,
    after: Seq<T>,
)
    requires
        0 <= at,
        before == overwritten(buffer, at, first),
        flag ==> after == overwritten(before, at + first.len(), second),
        !flag ==> after == before,
    ensures
        after == overwritten(buffer, at, first + when_shown(flag, second)),
        (first + when_shown(flag, second)).len() == first.len() + shown(flag) * second.len(),
{
    reveal(overwritten);
    if flag {
        assert(overwritten(overwritten(buffer, at, first), at + first.len(), second)
            =~= overwritten(buffer, at, first + second));
    } else {
        assert(first + Seq::<T>::empty() =~= first);
    }
}

/// Emits the shown faces of the block at `(x, y, z)` in the order up,
/// down, south, north, west, east.
pub fn add_block(
    block_atlas_map: &Vec<AtlasTextureMap>,
    float_data: &mut Vec<Scalar>,
    indices_data: &mut Vec<u32>,
    float_count: &mut usize,
    face_count: &mut usize,
    indices_count: &mut usize,
    x_plus: bool,
    x_minus: bool,
    y_plus: bool,
    y_minus: bool,
    z_plus: bool,
    z_minus: bool,
    x: i32,
    y: i32,
    z: i32,
    light: Scalar,
)
    requires
        block_fits(
            block_atlas_map@,
            old(float_data)@,
            old(indices_data)@,
            *old(float_count),
            *old(face_count),
            *old(indices_count),
            x_plus,
            x_minus,
            y_plus,
            y_minus,
            z_plus,
            z_minus,
            light,
        ),
    ensures
        final(float_data)@ == overwritten(
            old(float_data)@,
            *old(float_count) as int,
            block_vertices(
                block_atlas_map@,
                x_plus,
                x_minus,
                y_plus,
                y_minus,
                z_plus,
                z_minus,
                x,
                y,
                z,
                light,
            ),
        ),
        final(indices_data)@ == overwritten(
            old(indices_data)@,
            *old(indices_count) as int,
            block_indices(
                *old(face_count) as int,
                x_plus,
                x_minus,
                y_plus,
                y_minus,
                z_plus,
                z_minus,
            ),
        ),
        *final(float_count) == *old(float_count) + 32 * faces_shown(
            x_plus,
            x_minus,
            y_plus,
            y_minus,
            z_plus,
            z_minus,
        ),
        *final(indices_count) == *old(indices_count) + 6 * faces_shown(
            x_plus,
            x_minus,
            y_plus,
            y_minus,
            z_plus,
            z_minus,
        ),
        *final(face_count) == *old(face_count) + 4 * faces_shown(
            x_plus,
            x_minus,
            y_plus,
            y_minus,
            z_plus,
            z_minus,
        ),
{
    let ghost maps = block_atlas_map@;
    let ghost floats = float_data@;
    let ghost indices = indices_data@;
    let ghost at = *float_count as int;
    let ghost index_at = *indices_count as int;
    let ghost base = *face_count as int;
    let ghost side = side_light(light);

    let ghost f1 = face_vertices(Face::Up, maps[0], x, y, z, light);
    proof {
        lemma_face_lengths(Face::Up, maps[0], x, y, z, light);
    }
    let ghost v1 = when_shown(y_plus, f1);
    let ghost i1 = when_shown(y_plus, face_indices(base));
    let ghost n1 = shown(y_plus);
    if y_plus {
        face_up(
            &block_atlas_map[0],
            float_data,
            indices_data,
            float_count,
            indices_count,
            face_count,
            x,
            y,
            z,
            light,
        );
    }
    proof {
        lemma_overwritten_none(floats, at);
        lemma_overwritten_none(indices, index_at);
    }
    assert(float_data@ == overwritten(floats, at, v1) && v1.len() == 32 * n1);
    assert(indices_data@ == overwritten(indices, index_at, i1) && i1.len() == 6 * n1);
    assert(*float_count == at + 32 * n1 && float_data@.len() == floats.len());
    assert(*indices_count == index_at + 6 * n1 && indices_data@.len() == indices.len());
    assert(*face_count == base + 4 * n1);

    let ghost f2 = face_vertices(Face::Down, maps[1], x, y, z, light);
    proof {
        lemma_face_lengths(Face::Down, maps[1], x, y, z, light);
    }
    let ghost v2 = v1 + when_shown(y_minus, f2);
    let ghost i2 = i1 + when_shown(y_minus, face_indices(base + 4 * n1));
    let ghost n2 = n1 + shown(y_minus);
    let ghost floats1 = float_data@;
    let ghost indices1 = indices_data@;
    if y_minus {
        face_down(
            &block_atlas_map[1],
            float_data,
            indices_data,
            float_count,
            indices_count,
            face_count,
            x,
            y,
            z,
            light,
        );
    }
    proof {
        lemma_overwritten_next(floats, at, v1, y_minus, f2, floats1, float_data@);
        lemma_overwritten_next(
            indices,
            index_at,
            i1,
            y_minus,
            face_indices(base + 4 * n1),
            indices1,
            indices_data@,
        );
    }
    assert(float_data@ == overwritten(floats, at, v2) && v2.len() == 32 * n2);
    assert(indices_data@ == overwritten(indices, index_at, i2) && i2.len() == 6 * n2);
    assert(*float_count == at + 32 * n2 && float_data@.len() == floats.len());
    assert(*indices_count == index_at + 6 * n2 && indices_data@.len() == indices.len());
    assert(*face_count == base + 4 * n2);

    let ghost f3 = face_vertices(Face::South, maps[2], x, y, z, side);
    proof {
        lemma_face_lengths(Face::South, maps[2], x, y, z, side);
    }
    let ghost v3 = v2 + when_shown(z_plus, f3);
    let ghost i3 = i2 + when_shown(z_plus, face_indices(base + 4 * n2));
    let ghost n3 = n2 + shown(z_plus);
    let ghost floats2 = float_data@;
    let ghost indices2 = indices_data@;
    if z_plus {
        face_south(
            &block_atlas_map[2],
            float_data,
            indices_data,
            float_count,
            indices_count,
            face_count,
            x,
            y,
            z,
            side_face_light(light),
        );
    }
    proof {
        lemma_overwritten_next(floats, at, v2, z_plus, f3, floats2, float_data@);
        lemma_overwritten_next(
            indices,
            index_at,
            i2,
            z_plus,
            face_indices(base + 4 * n2),
            indices2,
            indices_data@,
        );
    }
    assert(float_data@ == overwritten(floats, at, v3) && v3.len() == 32 * n3);
    assert(indices_data@ == overwritten(indices, index_at, i3) && i3.len() == 6 * n3);
    assert(*float_count == at + 32 * n3 && float_data@.len() == floats.len());
    assert(*indices_count == index_at + 6 * n3 && indices_data@.len() == indices.len());
    assert(*face_count == base + 4 * n3);

    let ghost f4 = face_vertices(Face::North, maps[3], x, y, z, side);
    proof {
        lemma_face_lengths(Face::North, maps[3], x, y, z, side);
    }
    let ghost v4 = v3 + when_shown(z_minus, f4);
    let ghost i4 = i3 + when_shown(z_minus, face_indices(base + 4 * n3));
    let ghost n4 = n3 + shown(z_minus);
    let ghost floats3 = float_data@;
    let ghost indices3 = indices_data@;
    if z_minus {
        face_north(
            &block_atlas_map[3],
            float_data,
            indices_data,
            float_count,
            indices_count,
            face_count,
            x,
            y,
            z,
            side_face_light(light),
        );
    }
    proof {
        lemma_overwritten_next(floats, at, v3, z_minus, f4, floats3, float_data@);
        lemma_overwritten_next(
            indices,
            index_at,
            i3,
            z_minus,
            face_indices(base + 4 * n3),
            indices3,
            indices_data@,
        );
    }
    assert(float_data@ == overwritten(floats, at, v4) && v4.len() == 32 * n4);
    assert(indices_data@ == overwritten(indices, index_at, i4) && i4.len() == 6 * n4);
    assert(*float_count == at + 32 * n4 && float_data@.len() == floats.len());
    assert(*indices_count == index_at + 6 * n4 && indices_data@.len() == indices.len());
    assert(*face_count == base + 4 * n4);

    let ghost f5 = face_vertices(Face::West, maps[4], x, y, z, side);
    proof {
        lemma_face_lengths(Face::West, maps[4], x, y, z, side);
    }
    let ghost v5 = v4 + when_shown(x_plus, f5);
    let ghost i5 = i4 + when_shown(x_plus, face_indices(base + 4 * n4));
    let ghost n5 = n4 + shown(x_plus);
    let ghost floats4 = float_data@;
    let ghost indices4 = indices_data@;
    if x_plus {
        face_west(
            &block_atlas_map[4],
            float_data,
            indices_data,
            float_count,
            indices_count,
            face_count,
            x,
            y,
            z,
            side_face_light(light),
        );
    }
    proof {
        lemma_overwritten_next(floats, at, v4, x_plus, f5, floats4, float_data@);
        lemma_overwritten_next(
            indices,
            index_at,
            i4,
            x_plus,
            face_indices(base + 4 * n4),
            indices4,
            indices_data@,
        );
    }
    assert(float_data@ == overwritten(floats, at, v5) && v5.len() == 32 * n5);
    assert(indices_data@ == overwritten(indices, index_at, i5) && i5.len() == 6 * n5);
    assert(*float_count == at + 32 * n5 && float_data@.len() == floats.len());
    assert(*indices_count == index_at + 6 * n5 && indices_data@.len() == indices.len());
    assert(*face_count == base + 4 * n5);

    let ghost f6 = face_vertices(Face::East, maps[5], x, y, z, side);
    proof {
        lemma_face_lengths(Face::East, maps[5], x, y, z, side);
    }
    let ghost v6 = v5 + when_shown(x_minus, f6);
    let ghost i6 = i5 + when_shown(x_minus, face_indices(base + 4 * n5));
    let ghost n6 = n5 + shown(x_minus);
    let ghost floats5 = float_data@;
    let ghost indices5 = indices_data@;
    if x_minus {
        face_east(
            &block_atlas_map[5],
            float_data,
            indices_data,
            float_count,
            indices_count,
            face_count,
            x,
            y,
            z,
            side_face_light(light),
        );
    }
    proof {
        lemma_overwritten_next(floats, at, v5, x_minus, f6, floats5, float_data@);
        lemma_overwritten_next(
            indices,
            index_at,
            i5,
            x_minus,
            face_indices(base + 4 * n5),
            indices5,
            indices_data@,
        );
    }
    assert(float_data@ == overwritten(floats, at, v6) && v6.len() == 32 * n6);
    assert(indices_data@ == overwritten(indices, index_at, i6) && i6.len() == 6 * n6);
    assert(*float_count == at + 32 * n6 && float_data@.len() == floats.len());
    assert(*indices_count == index_at + 6 * n6 && indices_data@.len() == indices.len());
    assert(*face_count == base + 4 * n6);
}

/// Counts the shown faces of one block for the buffers that are yet to
/// be allocated: one dry run for each face that the culling mask shows.
pub fn dry_run_block(
    float_count: &mut usize,
    indices_count: &mut usize,
    x_plus: bool,
    x_minus: bool,
    y_plus: bool,
    y_minus: bool,
    z_plus: bool,
    z_minus: bool,
)
    requires
        *old(float_count) + 32 * faces_shown(x_plus, x_minus, y_plus, y_minus, z_plus, z_minus)
            <= usize::MAX,
        *old(indices_count) + 6 * faces_shown(x_plus, x_minus, y_plus, y_minus, z_plus, z_minus)
            <= usize::MAX,
    ensures
        *final(float_count) == *old(float_count) + 32 * faces_shown(
            x_plus,
            x_minus,
            y_plus,
            y_minus,
            z_plus,
            z_minus,
        ),
        *final(indices_count) == *old(indices_count) + 6 * faces_shown(
            x_plus,
            x_minus,
            y_plus,
            y_minus,
            z_plus,
            z_minus,
        ),
{
    if y_plus {
        dry_run(float_count, indices_count);
    }
    if y_minus {
        dry_run(float_count, indices_count);
    }
    if z_plus {
        dry_run(float_count, indices_count);
    }
    if z_minus {
        dry_run(float_count, indices_count);
    }
    if x_plus {
        dry_run(float_count, indices_count);
    }
    if x_minus {
        dry_run(float_count, indices_count);
    }
}

/// Data that fills the whole buffer replaces it.
pub proof fn lemma_overwritten_whole<T>(buffer: Seq<T>, data: Seq<T>)
    requires
        data.len() == buffer.len(),
    ensures
        overwritten(buffer, 0, data) == data,
{
    reveal(overwritten);
    assert(overwritten(buffer, 0, data) =~= data);
}

/// The dry run and the emission agree for every culling mask: a block
/// emits 32 scalars and 6 indices for each face that the mask shows, which
/// is what the dry run counts for it.
pub proof fn lemma_dry_run_matches_emission(
    maps: Seq<AtlasTextureMap>,
    base: int,
    x_plus: bool,
    x_minus: bool,
    y_plus: bool,
    y_minus: bool,
    z_plus: bool,
    z_minus: bool,
    x: i32,
    y: i32,
    z: i32,
    light: Scalar,
)
    ensures
        0 <= faces_shown(x_plus, x_minus, y_plus, y_minus, z_plus, z_minus) <= 6,
        block_vertices(maps, x_plus, x_minus, y_plus, y_minus, z_plus, z_minus, x, y, z, light).len()
            == 32 * faces_shown(x_plus, x_minus, y_plus, y_minus, z_plus, z_minus),
        block_indices(base, x_plus, x_minus, y_plus, y_minus, z_plus, z_minus).len() == 6
            * faces_shown(x_plus, x_minus, y_plus, y_minus, z_plus, z_minus),
{
    let side = side_light(light);
    lemma_face_lengths(Face::Up, maps[0], x, y, z, light);
    lemma_face_lengths(Face::Down, maps[1], x, y, z, light);
    lemma_face_lengths(Face::South, maps[2], x, y, z, side);
    lemma_face_lengths(Face::North, maps[3], x, y, z, side);
    lemma_face_lengths(Face::West, maps[4], x, y, z, side);
    lemma_face_lengths(Face::East, maps[5], x, y, z, side);
}

/// Whether every item of `s` is at least `low` and below `high`.
spec fn all_within(s: Seq<u32>, low: int, high: int) -> bool {
    forall|i: int| 0 <= i < s.len() ==> low <= #[trigger] s[i] && s[i] < high
}

/// The indices of a face lie among its four vertices.
proof fn lemma_face_indices_within(face_base: int, low: int, high: int)
    requires
        0 <= low <= face_base,
        face_base + 3 < high,
        face_base + 3 <= u32::MAX,
    ensures
        all_within(face_indices(face_base), low, high),
{
    reveal(face_indices);
}

/// Joining what is shown of `data` to `prefix` keeps the bounds of both.
proof fn lemma_within_next(prefix: Seq<u32>, flag: bool, data: Seq<u32>, low: int, high: int)
    requires
        all_within(prefix, low, high),
        flag ==> all_within(data, low, high),
    ensures
        all_within(prefix + when_shown(flag, data), low, high),
{
}

/// Every index that a block emits names one of the vertices emitted so
/// far: it is at least `base` and below `base` plus four for each shown
/// face.
pub proof fn lemma_block_indices_name_vertices(
    base: int,
    x_plus: bool,
    x_minus: bool,
    y_plus: bool,
    y_minus: bool,
    z_plus: bool,
    z_minus: bool,
)
    requires
        0 <= base,
        base + 4 * faces_shown(x_plus, x_minus, y_plus, y_minus, z_plus, z_minus) - 1 <= u32::MAX,
    ensures
        forall|i: int|
            0 <= i < block_indices(base, x_plus, x_minus, y_plus, y_minus, z_plus, z_minus).len()
                ==> base <= #[trigger] block_indices(
                base,
                x_plus,
                x_minus,
                y_plus,
                y_minus,
                z_plus,
                z_minus,
            )[i] < base + 4 * faces_shown(x_plus, x_minus, y_plus, y_minus, z_plus, z_minus),
{
    let high = base + 4 * faces_shown(x_plus, x_minus, y_plus, y_minus, z_plus, z_minus);
    let n1 = shown(y_plus);
    let n2 = n1 + shown(y_minus);
    let n3 = n2 + shown(z_plus);
    let n4 = n3 + shown(z_minus);
    let n5 = n4 + shown(x_plus);
    let i0 = Seq::<u32>::empty();
    let i1 = when_shown(y_plus, face_indices(base));
    let i2 = i1 + when_shown(y_minus, face_indices(base + 4 * n1));
    let i3 = i2 + when_shown(z_plus, face_indices(base + 4 * n2));
    let i4 = i3 + when_shown(z_minus, face_indices(base + 4 * n3));
    let i5 = i4 + when_shown(x_plus, face_indices(base + 4 * n4));
    let i6 = i5 + when_shown(x_minus, face_indices(base + 4 * n5));
    if y_plus {
        lemma_face_indices_within(base, base, high);
    }
    assert(i0 + i1 =~= i1);
    lemma_within_next(i0, y_plus, face_indices(base), base, high);
    if y_minus {
        lemma_face_indices_within(base + 4 * n1, base, high);
    }
    lemma_within_next(i1, y_minus, face_indices(base + 4 * n1), base, high);
    if z_plus {
        lemma_face_indices_within(base + 4 * n2, base, high);
    }
    lemma_within_next(i2, z_plus, face_indices(base + 4 * n2), base, high);
    if z_minus {
        lemma_face_indices_within(base + 4 * n3, base, high);
    }
    lemma_within_next(i3, z_minus, face_indices(base + 4 * n3), base, high);
    if x_plus {
        lemma_face_indices_within(base + 4 * n4, base, high);
    }
    lemma_within_next(i4, x_plus, face_indices(base + 4 * n4), base, high);
    if x_minus {
        lemma_face_indices_within(base + 4 * n5, base, high);
    }
    lemma_within_next(i5, x_minus, face_indices(base + 4 * n5), base, high);
    assert(i6 == block_indices(base, x_plus, x_minus, y_plus, y_minus, z_plus, z_minus));
    assert(all_within(i6, base, high));
}

} // verus!
