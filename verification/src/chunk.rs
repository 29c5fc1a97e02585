//! The storage of one chunk: a column of 16 by 128 by 16 voxels with a
//! block, a rotation and a light level for every voxel, and the height
//! of every one of its 16 by 16 columns.

use vstd::prelude::*;
use vstd::string::StringExecFns;

verus! {

/// Voxels along x.
pub const CHUNK_WIDTH: usize = 16;

/// Voxels along y.
pub const CHUNK_HEIGHT: usize = 128;

/// Voxels along z.
pub const CHUNK_DEPTH: usize = 16;

/// Voxels in a chunk: width by height by depth.
pub const CHUNK_VOLUME: usize = 32768;

/// Columns in a chunk: width by depth.
pub const CHUNK_COLUMNS: usize = 256;

/// The character of the decimal digit `d`.
pub open spec fn digit(d: int) -> char {
    if d == 0 {
        '0'
    } else if d == 1 {
        '1'
    } else if d == 2 {
        '2'
    } else if d == 3 {
        '3'
    } else if d == 4 {
        '4'
    } else if d == 5 {
        '5'
    } else if d == 6 {
        '6'
    } else if d == 7 {
        '7'
    } else if d == 8 {
        '8'
    } else {
        '9'
    }
}

/// The decimal digits of `n`, without leading zeros.
pub open spec fn decimal_digits(n: nat) -> Seq<char>
    decreases n,
{
    if n < 10 {
        seq![digit(n as int)]
    } else {
        decimal_digits(n / 10).push(digit((n % 10) as int))
    }
}

/// `v` in decimal, with a minus sign where it is negative.
pub open spec fn decimal(v: int) -> Seq<char> {
    if v < 0 {
        seq!['-'] + decimal_digits((-v) as nat)
    } else {
        decimal_digits(v as nat)
    }
}

/// The key of the chunk at `(x, z)`: the two coordinates in decimal with
/// a space between them.
pub open spec fn chunk_key(x: i32, z: i32) -> Seq<char> {
    decimal(x as int) + seq![' '] + decimal(z as int)
}

/// The place of the voxel `(x, y, z)` in the voxel arrays. The voxels of
/// a column follow one another, and the columns run along z first.
pub open spec fn voxel_index(x: int, y: int, z: int) -> int {
    (x * CHUNK_DEPTH + z) * CHUNK_HEIGHT + y
}

/// The place of the column `(x, z)` in the height map.
pub open spec fn column_index(x: int, z: int) -> int {
    x * CHUNK_DEPTH + z
}

/// The x of the voxel whose place in the voxel arrays is `index`.
pub open spec fn voxel_x(index: int) -> int {
    index / (CHUNK_DEPTH * CHUNK_HEIGHT)
}

/// The y of the voxel whose place in the voxel arrays is `index`.
pub open spec fn voxel_y(index: int) -> int {
    index % (CHUNK_HEIGHT as int)
}

/// The z of the voxel whose place in the voxel arrays is `index`.
pub open spec fn voxel_z(index: int) -> int {
    (index / (CHUNK_HEIGHT as int)) % (CHUNK_DEPTH as int)
}

/// Whether `(x, y, z)` is a voxel of a chunk.
pub open spec fn in_chunk(x: int, y: int, z: int) -> bool {
    0 <= x < CHUNK_WIDTH && 0 <= y < CHUNK_HEIGHT && 0 <= z < CHUNK_DEPTH
}

/// The text of one decimal digit.
fn digit_text(d: u32) -> (r: &'static str)
    requires
        d < 10,
    ensures
        r@ == seq![digit(d as int)],
{
    proof {
        reveal_strlit("0");
        reveal_strlit("1");
        reveal_strlit("2");
        reveal_strlit("3");
        reveal_strlit("4");
        reveal_strlit("5");
        reveal_strlit("6");
        reveal_strlit("7");
        reveal_strlit("8");
        reveal_strlit("9");
    }
    let text: &'static str = if d == 0 {
        "0"
    } else if d == 1 {
        "1"
    } else if d == 2 {
        "2"
    } else if d == 3 {
        "3"
    } else if d == 4 {
        "4"
    } else if d == 5 {
        "5"
    } else if d == 6 {
        "6"
    } else if d == 7 {
        "7"
    } else if d == 8 {
        "8"
    } else {
        "9"
    };
    assert(text@ =~= seq![digit(d as int)]);
    text
}

/// Appends the decimal digits of `n` to `text`.
fn append_digits(text: &mut String, n: u32)
    ensures
        final(text)@ == old(text)@ + decimal_digits(n as nat),
    decreases n,
{
    if n >= 10 {
        append_digits(text, n / 10);
    }
    let ghost before = text@;
    text.append(digit_text(n % 10));
    proof {
        if n >= 10 {
            assert(text@ =~= old(text)@ + decimal_digits((n / 10) as nat).push(
                digit((n % 10) as int),
            ));
        } else {
            assert(text@ =~= old(text)@ + seq![digit(n as int)]);
        }
    }
}

/// The text of `v` in decimal.
pub fn decimal_text(v: i32) -> (r: String)
    ensures
        r@ == decimal(v as int),
{
    let mut text: String = String::new();
    if v < 0 {
        proof {
            reveal_strlit("-");
        }
        text.append("-");
        assert(text@ =~= seq!['-']);
        append_digits(&mut text, (-(v as i64)) as u32);
    } else {
        append_digits(&mut text, v as u32);
        assert(text@ =~= decimal_digits(v as nat));
    }
    text
}

/// One chunk of the world.
pub struct Chunk {
    key: String,
    position: (i32, i32),
    block: [u32; 32768],
    rotation: [u8; 32768],
    light: [u8; 32768],
    heightmap: [u8; 256],
    mesh: Option<u32>,
}

impl Chunk {
    /// The key under which the chunk is kept.
    pub closed spec fn key(&self) -> Seq<char> {
        self.key@
    }

    /// The coordinate of the chunk.
    pub closed spec fn position(&self) -> (i32, i32) {
        self.position
    }

    /// The block of every voxel, by [`voxel_index`].
    pub closed spec fn blocks(&self) -> Seq<u32> {
        self.block@
    }

    /// The rotation of every voxel, by [`voxel_index`].
    pub closed spec fn rotations(&self) -> Seq<u8> {
        self.rotation@
    }

    /// The light level of every voxel, by [`voxel_index`].
    pub closed spec fn lights(&self) -> Seq<u8> {
        self.light@
    }

    /// The height of every column, by [`column_index`].
    pub closed spec fn heights(&self) -> Seq<u8> {
        self.heightmap@
    }

    /// The handle of the mesh that was built for the chunk, if any.
    pub closed spec fn mesh(&self) -> Option<u32> {
        self.mesh
    }

    /// The key is that of the chunk's coordinate.
    pub open spec fn wf(&self) -> bool {
        self.key() == chunk_key(self.position().0, self.position().1)
    }

    /// The voxel arrays hold one entry per voxel and the height map one
    /// per column, whatever is done to the chunk.
    pub proof fn lemma_fixed_lengths(&self)
        ensures
            self.blocks().len() == CHUNK_VOLUME,
            self.rotations().len() == CHUNK_VOLUME,
            self.lights().len() == CHUNK_VOLUME,
            self.heights().len() == CHUNK_COLUMNS,
    {
    }

    pub fn get_pos(&self) -> (r: (i32, i32))
        ensures
            r == self.position(),
    {
        self.position
    }

    pub fn get_key(&self) -> (r: String)
        ensures
            r@ == self.key(),
    {
        self.key.clone()
    }

    pub fn get_mesh(&self) -> (r: Option<u32>)
        ensures
            r == self.mesh(),
    {
        self.mesh
    }

    /// Gives the chunk the mesh `mesh` and returns the handle of the mesh
    /// that it replaces, which the caller releases.
    pub fn set_mesh(&mut self, mesh: u32) -> (r: Option<u32>)
        ensures
            r == old(self).mesh(),
            final(self).mesh() == Some(mesh),
            final(self).key() == old(self).key(),
            final(self).position() == old(self).position(),
            final(self).blocks() == old(self).blocks(),
            final(self).rotations() == old(self).rotations(),
            final(self).lights() == old(self).lights(),
            final(self).heights() == old(self).heights(),
    {
        let previous: Option<u32> = self.mesh;
        self.mesh = Some(mesh);
        previous
    }

    /// Computes [`voxel_index`].
    pub fn index_of(x: usize, y: usize, z: usize) -> (r: usize)
        requires
            in_chunk(x as int, y as int, z as int),
        ensures
            r == voxel_index(x as int, y as int, z as int),
            r < CHUNK_VOLUME,
    {
        (x * CHUNK_DEPTH + z) * CHUNK_HEIGHT + y
    }

    /// The block of the voxel `(x, y, z)`.
    pub fn get_block(&self, x: usize, y: usize, z: usize) -> (r: u32)
        requires
            in_chunk(x as int, y as int, z as int),
        ensures
            r == self.blocks()[voxel_index(x as int, y as int, z as int)],
    {
        self.block[Self::index_of(x, y, z)]
    }

    /// The rotation of the voxel `(x, y, z)`.
    pub fn get_rotation(&self, x: usize, y: usize, z: usize) -> (r: u8)
        requires
            in_chunk(x as int, y as int, z as int),
        ensures
            r == self.rotations()[voxel_index(x as int, y as int, z as int)],
    {
        self.rotation[Self::index_of(x, y, z)]
    }

    /// The light level of the voxel `(x, y, z)`.
    pub fn get_light(&self, x: usize, y: usize, z: usize) -> (r: u8)
        requires
            in_chunk(x as int, y as int, z as int),
        ensures
            r == self.lights()[voxel_index(x as int, y as int, z as int)],
    {
        self.light[Self::index_of(x, y, z)]
    }

    /// The height of the column `(x, z)`.
    pub fn get_height(&self, x: usize, z: usize) -> (r: u8)
        requires
            x < CHUNK_WIDTH,
            z < CHUNK_DEPTH,
        ensures
            r == self.heights()[column_index(x as int, z as int)],
    {
        self.heightmap[x * CHUNK_DEPTH + z]
    }

    /// Puts `block`, turned by `rotation`, at the voxel `(x, y, z)`. The
    /// other voxels, the light, the heights and the mesh stay.
    pub fn set_block(&mut self, x: usize, y: usize, z: usize, block: u32, rotation: u8)
        requires
            in_chunk(x as int, y as int, z as int),
        ensures
            final(self).key() == old(self).key(),
            final(self).blocks() == old(self).blocks().update(
                voxel_index(x as int, y as int, z as int),
                block,
            ),
            final(self).rotations() == old(self).rotations().update(
                voxel_index(x as int, y as int, z as int),
                rotation,
            ),
            final(self).lights() == old(self).lights(),
            final(self).heights() == old(self).heights(),
            final(self).mesh() == old(self).mesh(),
            final(self).position() == old(self).position(),
    {
        let index: usize = Self::index_of(x, y, z);
        self.block[index] = block;
        self.rotation[index] = rotation;
    }

    /// Sets the light level of the voxel `(x, y, z)`.
    pub fn set_light(&mut self, x: usize, y: usize, z: usize, light: u8)
        requires
            in_chunk(x as int, y as int, z as int),
        ensures
            final(self).key() == old(self).key(),
            final(self).lights() == old(self).lights().update(
                voxel_index(x as int, y as int, z as int),
                light,
            ),
            final(self).blocks() == old(self).blocks(),
            final(self).rotations() == old(self).rotations(),
            final(self).heights() == old(self).heights(),
            final(self).mesh() == old(self).mesh(),
            final(self).position() == old(self).position(),
    {
        let index: usize = Self::index_of(x, y, z);
        self.light[index] = light;
    }

    /// Sets the height of the column `(x, z)`.
    pub fn set_height(&mut self, x: usize, z: usize, height: u8)
        requires
            x < CHUNK_WIDTH,
            z < CHUNK_DEPTH,
        ensures
            final(self).key() == old(self).key(),
            final(self).heights() == old(self).heights().update(
                column_index(x as int, z as int),
                height,
            ),
            final(self).blocks() == old(self).blocks(),
            final(self).rotations() == old(self).rotations(),
            final(self).lights() == old(self).lights(),
            final(self).mesh() == old(self).mesh(),
            final(self).position() == old(self).position(),
    {
        self.heightmap[x * CHUNK_DEPTH + z] = height;
    }
}

/// The chunk at `(x, y)`, filled with air, dark, flat and without a mesh.
pub fn new(x: i32, y: i32) -> (r: Chunk)
    ensures
        r.wf(),
        r.position() == (x, y),
        r.key() == chunk_key(x, y),
        r.blocks() == Seq::new(CHUNK_VOLUME as nat, |i: int| 0u32),
        r.rotations() == Seq::new(CHUNK_VOLUME as nat, |i: int| 0u8),
        r.lights() == Seq::new(CHUNK_VOLUME as nat, |i: int| 0u8),
        r.heights() == Seq::new(CHUNK_COLUMNS as nat, |i: int| 0u8),
        r.mesh().is_none(),
{
    let mut key: String = decimal_text(x);
    proof {
        reveal_strlit(" ");
    }
    key.append(" ");
    let second: String = decimal_text(y);
    key.append(second.as_str());
    assert(key@ =~= chunk_key(x, y));
    Chunk {
        key,
        position: (x, y),
        block: [0; 32768],
        rotation: [0; 32768],
        light: [0; 32768],
        heightmap: [0; 256],
        mesh: None,
    }
}

/// Every voxel of a chunk has a place of its own in the voxel arrays, and
/// two voxels share a place only if they are the same voxel.
pub proof fn lemma_voxel_index_one_to_one(x1: int, y1: int, z1: int, x2: int, y2: int, z2: int)
    requires
        in_chunk(x1, y1, z1),
        in_chunk(x2, y2, z2),
    ensures
        0 <= voxel_index(x1, y1, z1) < CHUNK_VOLUME,
        voxel_index(x1, y1, z1) == voxel_index(x2, y2, z2) ==> x1 == x2 && y1 == y2 && z1 == z2,
{
}

/// Every place in the voxel arrays is the place of one voxel of the
/// chunk, which its coordinates give back.
pub proof fn lemma_voxel_of_index(index: int)
    requires
        0 <= index < CHUNK_VOLUME,
    ensures
        in_chunk(voxel_x(index), voxel_y(index), voxel_z(index)),
        voxel_index(voxel_x(index), voxel_y(index), voxel_z(index)) == index,
{
    assert(CHUNK_DEPTH * CHUNK_HEIGHT == 2048);
    let column = index / 128;
    assert(index == 128 * column + index % 128);
    assert(column == 16 * (column / 16) + column % 16);
    assert(column / 16 == index / 2048);
}

} // verus!
