//! The two passes that build the mesh of a chunk: a dry run that counts
//! the faces, and the emission into buffers of exactly that size. Both
//! passes go through the same list of blocks with the same culling masks.

use vstd::prelude::*;
use crate::blocks::BlockComponentSystem;
use crate::blocks::BlockDefinition;
use crate::mesh::add_block;
use crate::mesh::block_indices;
use crate::mesh::block_vertices;
use crate::mesh::dry_run_block;
use crate::mesh::faces_shown;
use crate::mesh::lemma_dry_run_matches_emission;
use crate::mesh::lemma_overwritten_next;
use crate::mesh::lemma_overwritten_none;
use crate::mesh::lemma_overwritten_whole;
use crate::mesh::overwritten;
use crate::mesh::side_face_light_fits;
use crate::mesh::side_light_fits;
use crate::scalar::Scalar;

verus! {

/// One block of a chunk as the mesh builder sees it: its number in the
/// registry, which of its faces are visible, its place and its light.
#[derive(Clone, Copy, Debug, PartialEq, Eq, Structural)]
pub struct BlockFaces {
    pub block: u32,
    pub x_plus: bool,
    pub x_minus: bool,
    pub y_plus: bool,
    pub y_minus: bool,
    pub z_plus: bool,
    pub z_minus: bool,
    pub x: i32,
    pub y: i32,
    pub z: i32,
    pub light: Scalar,
}

/// The buffers of a built mesh: eight scalars per vertex, and three
/// indices per triangle.
pub struct ChunkMesh {
    pub float_data: Vec<Scalar>,
    pub indices_data: Vec<u32>,
}

impl BlockFaces {
    /// The number of visible faces.
    pub open spec fn shown(self) -> int {
        faces_shown(self.x_plus, self.x_minus, self.y_plus, self.y_minus, self.z_plus, self.z_minus)
    }

    /// Whether the block can be emitted: it is registered, each visible
    /// face has its texture mapping, and the light of a visible side face
    /// can be written.
    pub open spec fn can_emit(self, registry: Seq<BlockDefinition>) -> bool {
        &&& self.block < registry.len()
        &&& self.y_plus ==> registry[self.block as int].atlas_mapping.len() > 0
        &&& self.y_minus ==> registry[self.block as int].atlas_mapping.len() > 1
        &&& self.z_plus ==> registry[self.block as int].atlas_mapping.len() > 2
        &&& self.z_minus ==> registry[self.block as int].atlas_mapping.len() > 3
        &&& self.x_plus ==> registry[self.block as int].atlas_mapping.len() > 4
        &&& self.x_minus ==> registry[self.block as int].atlas_mapping.len() > 5
        &&& self.z_plus || self.z_minus || self.x_plus || self.x_minus ==> side_light_fits(
            self.light,
        )
    }

    /// The scalars that the block adds to the vertex buffer.
    #[verifier::opaque]
    pub open spec fn vertices(self, registry: Seq<BlockDefinition>) -> Seq<Scalar> {
        block_vertices(
            registry[self.block as int].atlas_mapping,
            self.x_plus,
            self.x_minus,
            self.y_plus,
            self.y_minus,
            self.z_plus,
            self.z_minus,
            self.x,
            self.y,
            self.z,
            self.light,
        )
    }

    /// The indices that the block adds to the index buffer when `base`
    /// vertices were emitted before it.
    #[verifier::opaque]
    pub open spec fn indices(self, base: int) -> Seq<u32> {
        block_indices(
            base,
            self.x_plus,
            self.x_minus,
            self.y_plus,
            self.y_minus,
            self.z_plus,
            self.z_minus,
        )
    }
}

/// The number of visible faces of the first `blocks` blocks.
pub open spec fn mesh_faces(blocks: Seq<BlockFaces>, count: nat) -> int
    decreases count,
{
    if count == 0 {
        0
    } else {
        mesh_faces(blocks, (count - 1) as nat) + blocks[count - 1].shown()
    }
}

/// The vertex buffer of the first `count` blocks: the scalars of each
/// block after those of the blocks before it.
pub open spec fn mesh_vertices(
    registry: Seq<BlockDefinition>,
    blocks: Seq<BlockFaces>,
    count: nat,
) -> Seq<Scalar>
    decreases count,
{
    if count == 0 {
        Seq::empty()
    } else {
        mesh_vertices(registry, blocks, (count - 1) as nat) + blocks[count - 1].vertices(registry)
    }
}

/// The index buffer of the first `count` blocks: the indices of each
/// block after those of the blocks before it, numbering its vertices
/// after theirs.
pub open spec fn mesh_indices(blocks: Seq<BlockFaces>, count: nat) -> Seq<u32>
    decreases count,
{
    if count == 0 {
        Seq::empty()
    } else {
        mesh_indices(blocks, (count - 1) as nat) + blocks[count - 1].indices(
            4 * mesh_faces(blocks, (count - 1) as nat),
        )
    }
}

/// Whether the mesh of `blocks` can be built: every block can be
/// emitted, the vertex buffer can be allocated, and every vertex can be
/// numbered.
pub open spec fn mesh_fits(registry: Seq<BlockDefinition>, blocks: Seq<BlockFaces>) -> bool {
    &&& forall|i: int| 0 <= i < blocks.len() ==> (#[trigger] blocks[i]).can_emit(registry)
    &&& 32 * mesh_faces(blocks, blocks.len()) <= usize::MAX
    &&& 4 * mesh_faces(blocks, blocks.len()) - 1 <= u32::MAX
}

/// The face count grows with the number of blocks, by at most six faces
/// per block.
pub proof fn lemma_mesh_faces_grow(blocks: Seq<BlockFaces>, fewer: nat, more: nat)
    requires
        fewer <= more,
    ensures
        0 <= mesh_faces(blocks, fewer) <= mesh_faces(blocks, more),
        mesh_faces(blocks, more) <= 6 * more,
    decreases more,
{
    if more > 0 {
        if fewer < more {
            lemma_mesh_faces_grow(blocks, fewer, (more - 1) as nat);
        } else {
            lemma_mesh_faces_grow(blocks, (fewer - 1) as nat, (more - 1) as nat);
        }
    }
}

/// The dry run and the emission agree for every list of blocks and
/// culling masks: the buffers hold 32 scalars and 6 indices for every
/// visible face, which is what the dry run counts.
pub proof fn lemma_mesh_lengths(
    registry: Seq<BlockDefinition>,
    blocks: Seq<BlockFaces>,
    count: nat,
)
    ensures
        mesh_vertices(registry, blocks, count).len() == 32 * mesh_faces(blocks, count),
        mesh_indices(blocks, count).len() == 6 * mesh_faces(blocks, count),
    decreases count,
{
    if count > 0 {
        let block = blocks[count - 1];
        reveal(BlockFaces::vertices);
        reveal(BlockFaces::indices);
        lemma_mesh_lengths(registry, blocks, (count - 1) as nat);
        lemma_dry_run_matches_emission(
            registry[block.block as int].atlas_mapping,
            4 * mesh_faces(blocks, (count - 1) as nat),
            block.x_plus,
            block.x_minus,
            block.y_plus,
            block.y_minus,
            block.z_plus,
            block.z_minus,
            block.x,
            block.y,
            block.z,
            block.light,
        );
    }
}

/// Computes [`BlockFaces::can_emit`].
pub fn can_emit_block(bcs: &BlockComponentSystem, block: &BlockFaces) -> (r: bool)
    requires
        bcs.wf(),
    ensures
        r == block.can_emit(bcs@),
{
    if block.block as usize >= bcs.len() {
        return false;
    }
    let mappings: usize = bcs.get_mapping(block.block).len();
    if block.y_plus && mappings <= 0 {
        return false;
    }
    if block.y_minus && mappings <= 1 {
        return false;
    }
    if block.z_plus && mappings <= 2 {
        return false;
    }
    if block.z_minus && mappings <= 3 {
        return false;
    }
    if block.x_plus && mappings <= 4 {
        return false;
    }
    if block.x_minus && mappings <= 5 {
        return false;
    }
    if block.z_plus || block.z_minus || block.x_plus || block.x_minus {
        return side_face_light_fits(block.light);
    }
    true
}

/// The number of visible faces of a block.
fn count_shown(block: &BlockFaces) -> (r: usize)
    ensures
        r == block.shown(),
        r <= 6,
{
    let mut faces: usize = 0;
    if block.y_plus {
        faces += 1;
    }
    if block.y_minus {
        faces += 1;
    }
    if block.z_plus {
        faces += 1;
    }
    if block.z_minus {
        faces += 1;
    }
    if block.x_plus {
        faces += 1;
    }
    if block.x_minus {
        faces += 1;
    }
    faces
}

/// Computes [`mesh_fits`]: whether [`create_chunk_mesh`] can be called on
/// `blocks`.
pub fn can_create_chunk_mesh(bcs: &BlockComponentSystem, blocks: &Vec<BlockFaces>) -> (r: bool)
    requires
        bcs.wf(),
    ensures
        r == mesh_fits(bcs@, blocks@),
{
    let most: usize = if usize::MAX / 32 < 1073741824 {
        usize::MAX / 32
    } else {
        1073741824
    };
    let mut faces: usize = 0;
    let mut i: usize = 0;
    while i < blocks.len()
        invariant
            i <= blocks@.len(),
            bcs.wf(),
            most <= usize::MAX / 32,
            most <= 1073741824,
            most == usize::MAX / 32 || most == 1073741824,
            faces == mesh_faces(blocks@, i as nat),
            faces <= most,
            forall|j: int| 0 <= j < i ==> (#[trigger] blocks@[j]).can_emit(bcs@),
        decreases blocks@.len() - i,
    {
        if !can_emit_block(bcs, &blocks[i]) {
            return false;
        }
        let shown: usize = count_shown(&blocks[i]);
        proof {
            lemma_mesh_faces_grow(blocks@, (i + 1) as nat, blocks@.len());
        }
        if shown > most - faces {
            return false;
        }
        faces += shown;
        i += 1;
    }
    true
}

/// A vertex buffer of `n` zeros.
fn blank_vertices(n: usize) -> (r: Vec<Scalar>)
    ensures
        r@.len() == n,
{
    let mut values: Vec<Scalar> = Vec::new();
    while values.len() < n
        invariant
            values@.len() <= n,
        decreases n - values@.len(),
    {
        values.push(Scalar::whole(0));
    }
    values
}

/// An index buffer of `n` zeros.
fn blank_indices(n: usize) -> (r: Vec<u32>)
    ensures
        r@.len() == n,
{
    let mut values: Vec<u32> = Vec::new();
    while values.len() < n
        invariant
            values@.len() <= n,
        decreases n - values@.len(),
    {
        values.push(0);
    }
    values
}

/// Emits one block at the cursors, with the texture mappings under which
/// it is registered.
fn emit_block(
    bcs: &BlockComponentSystem,
    block: BlockFaces,
    float_data: &mut Vec<Scalar>,
    indices_data: &mut Vec<u32>,
    float_cursor: &mut usize,
    face_count: &mut usize,
    index_cursor: &mut usize,
)
    requires
        bcs.wf(),
        block.can_emit(bcs@),
        *old(float_cursor) + 32 * block.shown() <= old(float_data)@.len(),
        *old(index_cursor) + 6 * block.shown() <= old(indices_data)@.len(),
        *old(face_count) + 4 * block.shown() - 1 <= u32::MAX,
        *old(face_count) + 4 * block.shown() <= usize::MAX,
    ensures
        final(float_data)@ == overwritten(
            old(float_data)@,
            *old(float_cursor) as int,
            block.vertices(bcs@),
        ),
        final(indices_data)@ == overwritten(
            old(indices_data)@,
            *old(index_cursor) as int,
            block.indices(*old(face_count) as int),
        ),
        *final(float_cursor) == *old(float_cursor) + 32 * block.shown(),
        *final(index_cursor) == *old(index_cursor) + 6 * block.shown(),
        *final(face_count) == *old(face_count) + 4 * block.shown(),
{
    reveal(BlockFaces::vertices);
    reveal(BlockFaces::indices);
    add_block(
        bcs.get_mapping(block.block),
        float_data,
        indices_data,
        float_cursor,
        face_count,
        index_cursor,
        block.x_plus,
        block.x_minus,
        block.y_plus,
        block.y_minus,
        block.z_plus,
        block.z_minus,
        block.x,
        block.y,
        block.z,
        block.light,
    );
}

/// Builds the mesh of a chunk from its blocks and their culling masks.
/// The result is `None` where no face is visible: there is nothing to
/// draw.
pub fn create_chunk_mesh(bcs: &BlockComponentSystem, blocks: &Vec<BlockFaces>) -> (r: Option<
    ChunkMesh,
>)
    requires
        bcs.wf(),
        mesh_fits(bcs@, blocks@),
    ensures
        mesh_faces(blocks@, blocks@.len()) == 0 ==> r.is_none(),
        mesh_faces(blocks@, blocks@.len()) != 0 ==> r.is_some() && r.unwrap().float_data@
            == mesh_vertices(bcs@, blocks@, blocks@.len()) && r.unwrap().indices_data@
            == mesh_indices(blocks@, blocks@.len()),
{
    let ghost total = mesh_faces(blocks@, blocks@.len());
    let mut float_count: usize = 0;
    let mut indices_count: usize = 0;
    let mut i: usize = 0;
    while i < blocks.len()
        invariant
            i <= blocks@.len(),
            total == mesh_faces(blocks@, blocks@.len()),
            32 * total <= usize::MAX,
            float_count == 32 * mesh_faces(blocks@, i as nat),
            indices_count == 6 * mesh_faces(blocks@, i as nat),
        decreases blocks@.len() - i,
    {
        let block: BlockFaces = blocks[i];
        proof {
            lemma_mesh_faces_grow(blocks@, (i + 1) as nat, blocks@.len());
            lemma_mesh_faces_grow(blocks@, i as nat, (i + 1) as nat);
        }
        dry_run_block(
            &mut float_count,
            &mut indices_count,
            block.x_plus,
            block.x_minus,
            block.y_plus,
            block.y_minus,
            block.z_plus,
            block.z_minus,
        );
        i += 1;
    }
    if float_count == 0 {
        return None;
    }
    let mut float_data: Vec<Scalar> = blank_vertices(float_count);
    let mut indices_data: Vec<u32> = blank_indices(indices_count);
    let ghost blank_floats = float_data@;
    let ghost blank_indexes = indices_data@;
    let mut float_cursor: usize = 0;
    let mut face_count: usize = 0;
    let mut index_cursor: usize = 0;
    proof {
        lemma_overwritten_none(blank_floats, 0);
        lemma_overwritten_none(blank_indexes, 0);
    }
    let mut i: usize = 0;
    while i < blocks.len()
        invariant
            i <= blocks@.len(),
            bcs.wf(),
            mesh_fits(bcs@, blocks@),
            total == mesh_faces(blocks@, blocks@.len()),
            blank_floats.len() == 32 * total,
            blank_indexes.len() == 6 * total,
            float_cursor == 32 * mesh_faces(blocks@, i as nat),
            index_cursor == 6 * mesh_faces(blocks@, i as nat),
            face_count == 4 * mesh_faces(blocks@, i as nat),
            float_data@ == overwritten(blank_floats, 0, mesh_vertices(bcs@, blocks@, i as nat)),
            indices_data@ == overwritten(blank_indexes, 0, mesh_indices(blocks@, i as nat)),
        decreases blocks@.len() - i,
    {
        let block: BlockFaces = blocks[i];
        let ghost before_floats = float_data@;
        let ghost before_indices = indices_data@;
        let ghost vertices = mesh_vertices(bcs@, blocks@, i as nat);
        let ghost indices = mesh_indices(blocks@, i as nat);
        proof {
            lemma_mesh_faces_grow(blocks@, (i + 1) as nat, blocks@.len());
            lemma_mesh_faces_grow(blocks@, i as nat, (i + 1) as nat);
            lemma_mesh_lengths(bcs@, blocks@, i as nat);
            lemma_overwritten_none(blank_floats, 0);
            lemma_overwritten_none(blank_indexes, 0);
            assert(blocks@[i as int].can_emit(bcs@));
        }
        emit_block(
            bcs,
            block,
            &mut float_data,
            &mut indices_data,
            &mut float_cursor,
            &mut face_count,
            &mut index_cursor,
        );
        proof {
            lemma_overwritten_next(
                blank_floats,
                0,
                vertices,
                true,
                block.vertices(bcs@),
                before_floats,
                float_data@,
            );
            lemma_overwritten_next(
                blank_indexes,
                0,
                indices,
                true,
                block.indices(4 * mesh_faces(blocks@, i as nat)),
                before_indices,
                indices_data@,
            );
        }
        i += 1;
    }
    proof {
        lemma_mesh_lengths(bcs@, blocks@, blocks@.len());
        lemma_overwritten_whole(blank_floats, mesh_vertices(bcs@, blocks@, blocks@.len()));
        lemma_overwritten_whole(blank_indexes, mesh_indices(blocks@, blocks@.len()));
    }
    Some(ChunkMesh { float_data, indices_data })
}

} // verus!
