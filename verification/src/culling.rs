//! The occlusion test: which faces of the blocks of a chunk can be seen.
//!
//! A face is hidden where the voxel beside it holds a full cube. The
//! voxels beside the faces on the rim of a chunk lie in the four
//! neighbouring chunks; where a neighbour is not loaded, and above and
//! below the chunk, nothing hides a face.

use vstd::prelude::*;
use crate::blocks::BlockComponentSystem;
use crate::blocks::BlockDefinition;
use crate::blocks::DrawType;
use crate::builder::BlockFaces;
use crate::chunk::Chunk;
use crate::chunk::CHUNK_DEPTH;
use crate::chunk::CHUNK_HEIGHT;
use crate::chunk::CHUNK_VOLUME;
use crate::chunk::CHUNK_WIDTH;
use crate::chunk::in_chunk;
use crate::chunk::lemma_voxel_of_index;
use crate::chunk::voxel_index;
use crate::chunk::voxel_x;
use crate::chunk::voxel_y;
use crate::chunk::voxel_z;
use crate::scalar::Scalar;

verus! {

/// The blocks of a chunk and of its four neighbours, where they are
/// loaded.
pub struct Surroundings {
    pub own: Seq<u32>,
    pub x_plus: Option<Seq<u32>>,
    pub x_minus: Option<Seq<u32>>,
    pub z_plus: Option<Seq<u32>>,
    pub z_minus: Option<Seq<u32>>,
}

/// The blocks of a chunk and of its neighbours.
pub open spec fn around(
    chunk: &Chunk,
    x_plus: Option<&Chunk>,
    x_minus: Option<&Chunk>,
    z_plus: Option<&Chunk>,
    z_minus: Option<&Chunk>,
) -> Surroundings {
    Surroundings {
        own: chunk.blocks(),
        x_plus: blocks_of(x_plus),
        x_minus: blocks_of(x_minus),
        z_plus: blocks_of(z_plus),
        z_minus: blocks_of(z_minus),
    }
}

/// The blocks of a chunk that may not be loaded.
pub open spec fn blocks_of(chunk: Option<&Chunk>) -> Option<Seq<u32>> {
    match chunk {
        Some(loaded) => Some(loaded.blocks()),
        None => None,
    }
}

/// The block of a voxel of a neighbouring chunk, if that chunk is loaded.
pub open spec fn block_in(blocks: Option<Seq<u32>>, x: int, y: int, z: int) -> Option<u32> {
    match blocks {
        Some(loaded) => Some(loaded[voxel_index(x, y, z)]),
        None => None,
    }
}

/// The block of the voxel `(x, y, z)`, counted from the corner of the
/// chunk in the middle, which may lie one step outside that chunk along
/// x or along z. There is no block above and below the chunks.
pub open spec fn block_at(around: Surroundings, x: int, y: int, z: int) -> Option<u32> {
    if y < 0 || y >= CHUNK_HEIGHT {
        None
    } else if 0 <= x < CHUNK_WIDTH && 0 <= z < CHUNK_DEPTH {
        Some(around.own[voxel_index(x, y, z)])
    } else if x == CHUNK_WIDTH && 0 <= z < CHUNK_DEPTH {
        block_in(around.x_plus, 0, y, z)
    } else if x == -1 && 0 <= z < CHUNK_DEPTH {
        block_in(around.x_minus, CHUNK_WIDTH - 1, y, z)
    } else if z == CHUNK_DEPTH && 0 <= x < CHUNK_WIDTH {
        block_in(around.z_plus, x, y, 0)
    } else if z == -1 && 0 <= x < CHUNK_WIDTH {
        block_in(around.z_minus, x, y, CHUNK_DEPTH - 1)
    } else {
        None
    }
}

/// Whether `block` is drawn as a full cube.
pub open spec fn is_full_cube(registry: Seq<BlockDefinition>, block: u32) -> bool {
    block < registry.len() && registry[block as int].draw_type == DrawType::Normal
}

/// Whether the voxel `(x, y, z)` hides the face that looks at it.
pub open spec fn hides(
    registry: Seq<BlockDefinition>,
    around: Surroundings,
    x: int,
    y: int,
    z: int,
) -> bool {
    match block_at(around, x, y, z) {
        Some(block) => is_full_cube(registry, block),
        None => false,
    }
}

/// The block at place `index` of the chunk with the faces of it that can
/// be seen, under the light `light`.
pub open spec fn faces_at(
    registry: Seq<BlockDefinition>,
    around: Surroundings,
    index: int,
    light: Scalar,
) -> BlockFaces {
    let x = voxel_x(index);
    let y = voxel_y(index);
    let z = voxel_z(index);
    BlockFaces {
        block: around.own[voxel_index(x, y, z)],
        x_plus: !hides(registry, around, x + 1, y, z),
        x_minus: !hides(registry, around, x - 1, y, z),
        y_plus: !hides(registry, around, x, y + 1, z),
        y_minus: !hides(registry, around, x, y - 1, z),
        z_plus: !hides(registry, around, x, y, z + 1),
        z_minus: !hides(registry, around, x, y, z - 1),
        x: x as i32,
        y: y as i32,
        z: z as i32,
        light,
    }
}

/// The full cubes among the first `count` voxels of the chunk, in the
/// order of their places, each with the faces of it that can be seen.
pub open spec fn visible_among(
    registry: Seq<BlockDefinition>,
    around: Surroundings,
    count: nat,
    light: Scalar,
) -> Seq<BlockFaces>
    decreases count,
{
    if count == 0 {
        Seq::empty()
    } else {
        let before = visible_among(registry, around, (count - 1) as nat, light);
        if is_full_cube(registry, around.own[voxel_index(
            voxel_x(count - 1),
            voxel_y(count - 1),
            voxel_z(count - 1),
        )]) {
            before.push(faces_at(registry, around, count - 1, light))
        } else {
            before
        }
    }
}

/// Computes [`is_full_cube`].
pub fn draws_full_cube(bcs: &BlockComponentSystem, block: u32) -> (r: bool)
    requires
        bcs.wf(),
    ensures
        r == is_full_cube(bcs@, block),
{
    if block as usize >= bcs.len() {
        return false;
    }
    match bcs.get_draw_type(block) {
        DrawType::Normal => true,
        _ => false,
    }
}

/// Whether the voxel `(x, y, z)` of a neighbouring chunk hides the face
/// that looks at it.
fn neighbor_hides(
    bcs: &BlockComponentSystem,
    neighbor: Option<&Chunk>,
    x: usize,
    y: usize,
    z: usize,
) -> (r: bool)
    requires
        bcs.wf(),
        in_chunk(x as int, y as int, z as int),
    ensures
        r == match block_in(blocks_of(neighbor), x as int, y as int, z as int) {
            Some(block) => is_full_cube(bcs@, block),
            None => false,
        },
{
    match neighbor {
        Some(loaded) => draws_full_cube(bcs, loaded.get_block(x, y, z)),
        None => false,
    }
}

/// Computes [`faces_at`] for the voxel `(x, y, z)` of the chunk.
fn faces_of_voxel(
    bcs: &BlockComponentSystem,
    chunk: &Chunk,
    x_plus: Option<&Chunk>,
    x_minus: Option<&Chunk>,
    z_plus: Option<&Chunk>,
    z_minus: Option<&Chunk>,
    x: usize,
    y: usize,
    z: usize,
    light: Scalar,
) -> (r: BlockFaces)
    requires
        bcs.wf(),
        in_chunk(x as int, y as int, z as int),
    ensures
        r == (BlockFaces {
            block: chunk.blocks()[voxel_index(x as int, y as int, z as int)],
            x_plus: !hides(bcs@, around(chunk, x_plus, x_minus, z_plus, z_minus), x + 1, y as int, z as int),
            x_minus: !hides(bcs@, around(chunk, x_plus, x_minus, z_plus, z_minus), x - 1, y as int, z as int),
            y_plus: !hides(bcs@, around(chunk, x_plus, x_minus, z_plus, z_minus), x as int, y + 1, z as int),
            y_minus: !hides(bcs@, around(chunk, x_plus, x_minus, z_plus, z_minus), x as int, y - 1, z as int),
            z_plus: !hides(bcs@, around(chunk, x_plus, x_minus, z_plus, z_minus), x as int, y as int, z + 1),
            z_minus: !hides(bcs@, around(chunk, x_plus, x_minus, z_plus, z_minus), x as int, y as int, z - 1),
            x: x as i32,
            y: y as i32,
            z: z as i32,
            light,
        }),
{
    let block: u32 = chunk.get_block(x, y, z);
    let x_plus_hidden: bool = if x + 1 < CHUNK_WIDTH {
        draws_full_cube(bcs, chunk.get_block(x + 1, y, z))
    } else {
        neighbor_hides(bcs, x_plus, 0, y, z)
    };
    let x_minus_hidden: bool = if x > 0 {
        draws_full_cube(bcs, chunk.get_block(x - 1, y, z))
    } else {
        neighbor_hides(bcs, x_minus, CHUNK_WIDTH - 1, y, z)
    };
    let y_plus_hidden: bool = if y + 1 < CHUNK_HEIGHT {
        draws_full_cube(bcs, chunk.get_block(x, y + 1, z))
    } else {
        false
    };
    let y_minus_hidden: bool = if y > 0 {
        draws_full_cube(bcs, chunk.get_block(x, y - 1, z))
    } else {
        false
    };
    let z_plus_hidden: bool = if z + 1 < CHUNK_DEPTH {
        draws_full_cube(bcs, chunk.get_block(x, y, z + 1))
    } else {
        neighbor_hides(bcs, z_plus, x, y, 0)
    };
    let z_minus_hidden: bool = if z > 0 {
        draws_full_cube(bcs, chunk.get_block(x, y, z - 1))
    } else {
        neighbor_hides(bcs, z_minus, x, y, CHUNK_DEPTH - 1)
    };
    BlockFaces {
        block,
        x_plus: !x_plus_hidden,
        x_minus: !x_minus_hidden,
        y_plus: !y_plus_hidden,
        y_minus: !y_minus_hidden,
        z_plus: !z_plus_hidden,
        z_minus: !z_minus_hidden,
        x: x as i32,
        y: y as i32,
        z: z as i32,
        light,
    }
}

/// The full cubes of a chunk, each with the faces that no full cube
/// hides, in the order of their places in the chunk. Every block is
/// given the same light.
pub fn visible_faces(
    bcs: &BlockComponentSystem,
    chunk: &Chunk,
    x_plus: Option<&Chunk>,
    x_minus: Option<&Chunk>,
    z_plus: Option<&Chunk>,
    z_minus: Option<&Chunk>,
    light: Scalar,
) -> (r: Vec<BlockFaces>)
    requires
        bcs.wf(),
    ensures
        r@ == visible_among(
            bcs@,
            around(chunk, x_plus, x_minus, z_plus, z_minus),
            CHUNK_VOLUME as nat,
            light,
        ),
{
    let ghost all = around(chunk, x_plus, x_minus, z_plus, z_minus);
    let mut blocks: Vec<BlockFaces> = Vec::new();
    let mut index: usize = 0;
    while index < CHUNK_VOLUME
        invariant
            index <= CHUNK_VOLUME,
            bcs.wf(),
                                all == around(chunk, x_plus, x_minus, z_plus, z_minus),
            blocks@ == visible_among(bcs@, all, index as nat, light),
        decreases CHUNK_VOLUME - index,
    {
        let x: usize = index / (CHUNK_DEPTH * CHUNK_HEIGHT);
        let y: usize = index % CHUNK_HEIGHT;
        let z: usize = (index / CHUNK_HEIGHT) % CHUNK_DEPTH;
        proof {
            lemma_voxel_of_index(index as int);
        }
        if draws_full_cube(bcs, chunk.get_block(x, y, z)) {
            let faces = faces_of_voxel(bcs, chunk, x_plus, x_minus, z_plus, z_minus, x, y, z, light);
            assert(faces == faces_at(bcs@, all, index as int, light));
            blocks.push(faces);
        }
        index += 1;
    }
    blocks
}

} // verus!
