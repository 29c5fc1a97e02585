//! Texture coordinates of one block face inside the texture atlas.
//!
//! A face shows a rectangle of the atlas. Its four corners are listed in
//! a fixed winding order, two values per corner, and are then mirrored
//! and turned by quarter turns.

use vstd::prelude::*;
use crate::scalar::Scalar;
use crate::scalar::quantized_eq;

verus! {

/// A rectangle of atlas pixels, as the texture packer places a texture.
#[derive(Clone, Copy, Debug, PartialEq, Eq, Structural)]
pub struct PackedRect {
    pub x: u32,
    pub y: u32,
    pub w: u32,
    pub h: u32,
}

/// The texture mapping of one face: the bounds of its rectangle in atlas
/// coordinates, the number of quarter turns and the mirroring (0: none,
/// 1: along x, 2: along y).
#[derive(Clone, Copy, Debug, PartialEq, Eq, Structural)]
pub struct AtlasTextureMap {
    pub min_x: Scalar,
    pub min_y: Scalar,
    pub max_x: Scalar,
    pub max_y: Scalar,
    pub rotation: u8,
    pub flip: u8,
}

/// The corners of a rectangle before any transform, in winding order:
/// (min, min), (min, max), (max, max), (max, min).
pub open spec fn base_corners(min_x: Scalar, min_y: Scalar, max_x: Scalar, max_y: Scalar) -> Seq<
    Scalar,
> {
    seq![min_x, min_y, min_x, max_y, max_x, max_y, max_x, min_y]
}

/// A corner table mirrored along one axis. With `flip == 1` every x value
/// that is recognised as `min_x` becomes `max_x` and every other x value
/// becomes `min_x`; with `flip == 2` the same holds of the y values. Any
/// other `flip` leaves the table as it is.
pub open spec fn flipped(
    table: Seq<Scalar>,
    flip: u8,
    min_x: Scalar,
    min_y: Scalar,
    max_x: Scalar,
    max_y: Scalar,
) -> Seq<Scalar> {
    Seq::new(
        table.len(),
        |i: int|
            if flip == 1 && i % 2 == 0 {
                if table[i].quantum() == min_x.quantum() {
                    max_x
                } else {
                    min_x
                }
            } else if flip == 2 && i % 2 == 1 {
                if table[i].quantum() == min_y.quantum() {
                    max_y
                } else {
                    min_y
                }
            } else {
                table[i]
            },
    )
}

/// A table of four corners turned by `rotation` quarter turns: the eight
/// values move to the left by twice the rotation, around the end.
pub open spec fn rotated(table: Seq<Scalar>, rotation: u8) -> Seq<Scalar> {
    Seq::new(table.len(), |i: int| table[(i + 2 * rotation) % 8])
}

/// Brings an index that ran past the end of a corner table back to its
/// start: a value above 7 is lowered by 8.
pub fn overflow(value: &mut usize) -> (r: usize)
    ensures
        r == *final(value),
        r == if *old(value) > 7 {
            *old(value) - 8
        } else {
            *old(value) as int
        },
{
    if *value > 7 {
        *value -= 8;
    }
    *value
}

/// Turns the corner table by `face_rotation` quarter turns.
pub fn calculate_face_rotation(texture_map_table: &mut [Scalar; 8], face_rotation: u8)
    ensures
        final(texture_map_table)@ == rotated(old(texture_map_table)@, face_rotation),
{
    if face_rotation == 0 {
        proof {
            lemma_rotation_wraps(texture_map_table@, 0);
        }
        return ;
    }
    let multiplier: usize = ((face_rotation % 4) * 2) as usize;
    let source: [Scalar; 8] = *texture_map_table;
    let mut i: usize = 0;
    while i < 8
        invariant
            i <= 8,
            multiplier == 2 * (face_rotation % 4),
            source == *old(texture_map_table),
            forall|j: int| 0 <= j < i ==> texture_map_table@[j] == source@[(j + 2 * face_rotation) % 8],
        decreases 8 - i,
    {
        let mut at: usize = i + multiplier;
        proof {
            lemma_shift_wraps(i as int, face_rotation as int);
        }
        let from: usize = overflow(&mut at);
        texture_map_table[i] = source[from];
        i += 1;
    }
    assert(texture_map_table@ =~= rotated(source@, face_rotation));
}

/// Mirrors the corner table along the axis that `flip` names.
pub fn flip_axis(
    texture_map_table: &mut [Scalar; 8],
    flip: u8,
    min_x: Scalar,
    min_y: Scalar,
    max_x: Scalar,
    max_y: Scalar,
)
    ensures
        final(texture_map_table)@ == flipped(
            old(texture_map_table)@,
            flip,
            min_x,
            min_y,
            max_x,
            max_y,
        ),
{
    let ghost goal = flipped(old(texture_map_table)@, flip, min_x, min_y, max_x, max_y);
    if flip == 1 {
        let mut i: usize = 0;
        while i < 4
            invariant
                i <= 4,
                flip == 1,
                goal == flipped(old(texture_map_table)@, flip, min_x, min_y, max_x, max_y),
                goal.len() == 8,
                forall|j: int| 0 <= j < 2 * i ==> texture_map_table@[j] == goal[j],
                forall|j: int| 2 * i <= j < 8 ==> texture_map_table@[j] == old(texture_map_table)@[j],
            decreases 4 - i,
        {
            let index: usize = i * 2;
            assert(goal[index + 1] == old(texture_map_table)@[index + 1]);
            if quantized_eq(texture_map_table[index], min_x) {
                texture_map_table[index] = max_x;
            } else {
                texture_map_table[index] = min_x;
            }
            i += 1;
        }
    } else if flip == 2 {
        let mut i: usize = 0;
        while i < 4
            invariant
                i <= 4,
                flip == 2,
                goal == flipped(old(texture_map_table)@, flip, min_x, min_y, max_x, max_y),
                goal.len() == 8,
                forall|j: int| 0 <= j < 2 * i ==> texture_map_table@[j] == goal[j],
                forall|j: int| 2 * i <= j < 8 ==> texture_map_table@[j] == old(texture_map_table)@[j],
            decreases 4 - i,
        {
            let index: usize = (i * 2) + 1;
            assert(goal[index - 1] == old(texture_map_table)@[index - 1]);
            if quantized_eq(texture_map_table[index], min_y) {
                texture_map_table[index] = max_y;
            } else {
                texture_map_table[index] = min_y;
            }
            i += 1;
        }
    }
    assert(texture_map_table@ =~= goal);
}

impl AtlasTextureMap {
    /// The mapping that [`AtlasTextureMap::build`] returns.
    pub open spec fn spec_build(
        atlas_width: u32,
        atlas_height: u32,
        packed_rect: PackedRect,
        rotation: u8,
        flip: u8,
    ) -> AtlasTextureMap {
        AtlasTextureMap {
            min_x: Scalar { num: packed_rect.x as i64, den: atlas_width as u64 },
            min_y: Scalar { num: packed_rect.y as i64, den: atlas_height as u64 },
            max_x: Scalar { num: (packed_rect.x + packed_rect.w) as i64, den: atlas_width as u64 },
            max_y: Scalar { num: (packed_rect.y + packed_rect.h) as i64, den: atlas_height as u64 },
            rotation,
            flip,
        }
    }

    /// The mapping of a face that shows `packed_rect` of an atlas of
    /// `atlas_width` by `atlas_height` pixels: each bound of the rectangle
    /// is its pixel coordinate over the size of the atlas.
    pub fn build(
        atlas_width: u32,
        atlas_height: u32,
        packed_rect: PackedRect,
        rotation: u8,
        flip: u8,
    ) -> (r: AtlasTextureMap)
        ensures
            r == Self::spec_build(atlas_width, atlas_height, packed_rect, rotation, flip),
    {
        AtlasTextureMap {
            min_x: Scalar::ratio(packed_rect.x as i64, atlas_width as u64),
            min_y: Scalar::ratio(packed_rect.y as i64, atlas_height as u64),
            max_x: Scalar::ratio(packed_rect.x as i64 + packed_rect.w as i64, atlas_width as u64),
            max_y: Scalar::ratio(packed_rect.y as i64 + packed_rect.h as i64, atlas_height as u64),
            rotation,
            flip,
        }
    }

    /// The mapping that shows the whole texture space, from 0 to 1 on both
    /// axes, neither turned nor mirrored.
    pub fn identity() -> (r: AtlasTextureMap)
        ensures
            r == (AtlasTextureMap {
                min_x: Scalar { num: 0, den: 1 },
                min_y: Scalar { num: 0, den: 1 },
                max_x: Scalar { num: 1, den: 1 },
                max_y: Scalar { num: 1, den: 1 },
                rotation: 0,
                flip: 0,
            }),
    {
        AtlasTextureMap {
            min_x: Scalar::whole(0),
            min_y: Scalar::whole(0),
            max_x: Scalar::whole(1),
            max_y: Scalar::whole(1),
            rotation: 0,
            flip: 0,
        }
    }

    /// The bounds, the rotation and the mirroring, in this order: min x,
    /// min y, max x, max y, rotation, flip.
    pub fn get_as_tuple(&self) -> (r: (Scalar, Scalar, Scalar, Scalar, u8, u8))
        ensures
            r == (self.min_x, self.min_y, self.max_x, self.max_y, self.rotation, self.flip),
    {
        (self.min_x, self.min_y, self.max_x, self.max_y, self.rotation, self.flip)
    }

    /// The four corners of the face's texture, two values each: the
    /// corners of the rectangle, mirrored first and turned afterwards.
    pub open spec fn spec_corners(self) -> Seq<Scalar> {
        rotated(
            flipped(
                base_corners(self.min_x, self.min_y, self.max_x, self.max_y),
                self.flip,
                self.min_x,
                self.min_y,
                self.max_x,
                self.max_y,
            ),
            self.rotation,
        )
    }

    /// Computes [`AtlasTextureMap::spec_corners`].
    pub fn corners(&self) -> (r: [Scalar; 8])
        ensures
            r@ == self.spec_corners(),
    {
        let (min_x, min_y, max_x, max_y, face_rotation, flip) = self.get_as_tuple();
        let mut texture: [Scalar; 8] = [min_x, min_y, min_x, max_y, max_x, max_y, max_x, min_y];
        assert(texture@ =~= base_corners(min_x, min_y, max_x, max_y));
        flip_axis(&mut texture, flip, min_x, min_y, max_x, max_y);
        calculate_face_rotation(&mut texture, face_rotation);
        texture
    }

    /// The mapping turned by one more quarter turn.
    pub open spec fn spec_rotate(self) -> AtlasTextureMap {
        AtlasTextureMap { rotation: ((self.rotation % 4 + 1) % 4) as u8, ..self }
    }

    /// Computes [`AtlasTextureMap::spec_rotate`].
    pub fn rotate(&self) -> (r: AtlasTextureMap)
        ensures
            r == self.spec_rotate(),
    {
        AtlasTextureMap {
            min_x: self.min_x,
            min_y: self.min_y,
            max_x: self.max_x,
            max_y: self.max_y,
            rotation: (self.rotation % 4 + 1) % 4,
            flip: self.flip,
        }
    }
}

/// Whether a scalar lies between 0 and 1.
pub open spec fn in_unit_range(value: Scalar) -> bool {
    value.is_finite() && 0 <= value.num <= value.den
}

/// The bounds of a rectangle that lies within the atlas are coordinates
/// between 0 and 1, the lower bound not above the upper.
pub proof fn lemma_build_within_atlas(
    atlas_width: u32,
    atlas_height: u32,
    packed_rect: PackedRect,
    rotation: u8,
    flip: u8,
)
    requires
        atlas_width > 0,
        atlas_height > 0,
        packed_rect.x + packed_rect.w <= atlas_width,
        packed_rect.y + packed_rect.h <= atlas_height,
    ensures
        ({
            let m = AtlasTextureMap::spec_build(atlas_width, atlas_height, packed_rect, rotation, flip);
            &&& in_unit_range(m.min_x)
            &&& in_unit_range(m.min_y)
            &&& in_unit_range(m.max_x)
            &&& in_unit_range(m.max_y)
            &&& m.min_x.num <= m.max_x.num
            &&& m.min_y.num <= m.max_y.num
            &&& forall|i: int| 0 <= i < 8 ==> in_unit_range(#[trigger] m.spec_corners()[i])
        }),
{
    let m = AtlasTextureMap::spec_build(atlas_width, atlas_height, packed_rect, rotation, flip);
    let base = base_corners(m.min_x, m.min_y, m.max_x, m.max_y);
    let mirrored = flipped(base, m.flip, m.min_x, m.min_y, m.max_x, m.max_y);
    assert forall|i: int| 0 <= i < 8 implies in_unit_range(#[trigger] m.spec_corners()[i]) by {
        let j = (i + 2 * m.rotation) % 8;
        assert(m.spec_corners()[i] == mirrored[j]);
        assert(in_unit_range(base[j]));
        assert(in_unit_range(mirrored[j]));
    }
}

/// Moving left by twice a rotation around a table of eight is moving left
/// by twice the rotation counted modulo four.
proof fn lemma_shift_wraps(i: int, rotation: int)
    requires
        0 <= i < 8,
        0 <= rotation,
    ensures
        (i + 2 * rotation) % 8 == (i + 2 * (rotation % 4)) % 8,
        0 <= (i + 2 * rotation) % 8 < 8,
        i + 2 * (rotation % 4) > 7 ==> (i + 2 * rotation) % 8 == i + 2 * (rotation % 4) - 8,
        i + 2 * (rotation % 4) <= 7 ==> (i + 2 * rotation) % 8 == i + 2 * (rotation % 4),
{
    let turns = rotation / 4;
    let rest = rotation % 4;
    assert(rotation == 4 * turns + rest);
    assert(i + 2 * rotation == 8 * turns + (i + 2 * rest));
    vstd::arithmetic::div_mod::lemma_mod_multiples_vanish(turns, i + 2 * rest, 8);
}

/// A rotation counts modulo four: four quarter turns are a full turn, so
/// a rotation of 4 is a rotation of 0.
pub proof fn lemma_rotation_wraps(table: Seq<Scalar>, rotation: u8)
    requires
        table.len() == 8,
    ensures
        rotated(table, rotation) == rotated(table, (rotation % 4) as u8),
        rotated(table, 0) == table,
        rotated(table, 4) == table,
{
    let rest = (rotation % 4) as u8;
    assert forall|i: int| 0 <= i < 8 implies rotated(table, rotation)[i] == rotated(table, rest)[i] by {
        lemma_shift_wraps(i, rotation as int);
        lemma_shift_wraps(i, rest as int);
    }
    assert(rotated(table, rotation) =~= rotated(table, rest));
    assert forall|i: int| 0 <= i < 8 implies rotated(table, 0)[i] == table[i] && rotated(table, 4)[i]
        == table[i] by {
        lemma_shift_wraps(i, 0);
        lemma_shift_wraps(i, 4);
    }
    assert(rotated(table, 0) =~= table);
    assert(rotated(table, 4) =~= table);
}

/// Moving left by `2 * b` and then by `2 * a` around a table of eight is
/// moving left by twice the sum of the two rotations, counted modulo four.
proof fn lemma_shift_sum(i: int, a: int, b: int)
    requires
        0 <= i < 8,
        0 <= a < 256,
        0 <= b < 256,
    ensures
        ((i + 2 * b) % 8 + 2 * a) % 8 == (i + 2 * ((a % 4 + b % 4) % 4)) % 8,
{
    let first = (i + 2 * b) / 8;
    let j = (i + 2 * b) % 8;
    assert(i + 2 * b == 8 * first + j);
    assert(i + 2 * (a + b) == 8 * first + (j + 2 * a));
    vstd::arithmetic::div_mod::lemma_mod_multiples_vanish(first, j + 2 * a, 8);
    assert((j + 2 * a) % 8 == (i + 2 * (a + b)) % 8);
    lemma_shift_wraps(i, a + b);
    let turns = a / 4 + b / 4;
    assert(a + b == 4 * turns + (a % 4 + b % 4));
    vstd::arithmetic::div_mod::lemma_mod_multiples_vanish(turns, a % 4 + b % 4, 4);
    assert((a + b) % 4 == (a % 4 + b % 4) % 4);
}

/// Turning by `a` quarter turns and then by `b` is turning by `a + b`
/// quarter turns, counted modulo four.
pub proof fn lemma_rotations_add(table: Seq<Scalar>, a: u8, b: u8)
    requires
        table.len() == 8,
    ensures
        rotated(rotated(table, a), b) == rotated(table, ((a % 4 + b % 4) % 4) as u8),
{
    let sum = ((a % 4 + b % 4) % 4) as u8;
    assert forall|i: int| 0 <= i < 8 implies rotated(rotated(table, a), b)[i] == rotated(
        table,
        sum,
    )[i] by {
        let j = (i + 2 * b) % 8;
        lemma_shift_sum(i, a as int, b as int);
        assert(rotated(rotated(table, a), b)[i] == rotated(table, a)[j]);
        assert(rotated(table, a)[j] == table[(j + 2 * a) % 8]);
    }
    assert(rotated(rotated(table, a), b) =~= rotated(table, sum));
}

/// Four quarter turns bring every corner table back to itself.
pub proof fn lemma_four_quarter_turns(table: Seq<Scalar>)
    requires
        table.len() == 8,
    ensures
        rotated(rotated(rotated(rotated(table, 1), 1), 1), 1) == table,
{
    lemma_rotations_add(table, 1, 1);
    lemma_rotations_add(table, 2, 1);
    lemma_rotations_add(table, 3, 1);
    lemma_rotation_wraps(table, 0);
}

/// One more quarter turn of a mapping turns its corners by a quarter
/// turn, and four of them give back a mapping with the same corners; the
/// mapping itself comes back where its rotation is one of 0, 1, 2, 3.
pub proof fn lemma_rotate_mapping(m: AtlasTextureMap)
    ensures
        m.spec_rotate().spec_corners() == rotated(m.spec_corners(), 1),
        m.spec_rotate().spec_rotate().spec_rotate().spec_rotate().spec_corners()
            == m.spec_corners(),
        m.rotation < 4 ==> m.spec_rotate().spec_rotate().spec_rotate().spec_rotate() == m,
{
    let mirrored = flipped(
        base_corners(m.min_x, m.min_y, m.max_x, m.max_y),
        m.flip,
        m.min_x,
        m.min_y,
        m.max_x,
        m.max_y,
    );
    lemma_rotations_add(mirrored, m.rotation, 1);
    lemma_rotation_wraps(mirrored, m.rotation);
    let back = m.spec_rotate().spec_rotate().spec_rotate().spec_rotate();
    assert(back.rotation == m.rotation % 4);
    assert(back == AtlasTextureMap { rotation: (m.rotation % 4) as u8, ..m });
}

/// Whether the two bounds of an axis can be told apart by the mirroring
/// `flip`: they are the same value, or their quanta differ.
pub open spec fn bounds_distinct(m: AtlasTextureMap, flip: u8) -> bool {
    &&& flip == 1 ==> m.min_x == m.max_x || m.min_x.quantum() != m.max_x.quantum()
    &&& flip == 2 ==> m.min_y == m.max_y || m.min_y.quantum() != m.max_y.quantum()
}

/// Mirroring the corners of a mapping twice along the same axis gives
/// them back, provided the bounds of that axis can be told apart.
pub proof fn lemma_flip_twice(m: AtlasTextureMap, flip: u8)
    requires
        flip == 1 || flip == 2,
        bounds_distinct(m, flip),
    ensures
        flipped(
            flipped(m.spec_corners(), flip, m.min_x, m.min_y, m.max_x, m.max_y),
            flip,
            m.min_x,
            m.min_y,
            m.max_x,
            m.max_y,
        ) == m.spec_corners(),
{
    let base = base_corners(m.min_x, m.min_y, m.max_x, m.max_y);
    let mirrored = flipped(base, m.flip, m.min_x, m.min_y, m.max_x, m.max_y);
    let corners = m.spec_corners();
    let once = flipped(corners, flip, m.min_x, m.min_y, m.max_x, m.max_y);
    let twice = flipped(once, flip, m.min_x, m.min_y, m.max_x, m.max_y);
    assert forall|i: int| 0 <= i < 8 implies twice[i] == corners[i] by {
        let j = (i + 2 * m.rotation) % 8;
        assert(corners[i] == mirrored[j]);
        assert(j % 2 == i % 2);
        if j % 2 == 0 {
            assert(base[j] == m.min_x || base[j] == m.max_x);
            assert(mirrored[j] == m.min_x || mirrored[j] == m.max_x);
        } else {
            assert(base[j] == m.min_y || base[j] == m.max_y);
            assert(mirrored[j] == m.min_y || mirrored[j] == m.max_y);
        }
        assert(twice[i] == flipped(once, flip, m.min_x, m.min_y, m.max_x, m.max_y)[i]);
    }
    assert(twice =~= corners);
}

} // verus!
