//! The queue of chunks whose mesh is to be built again.
//!
//! Requests leave the queue in the order in which they came. A request
//! may ask that the four neighbours of its chunk follow: when it leaves
//! the queue, one request for each neighbour is put at the end, and those
//! ask for nothing further.

use vstd::prelude::*;
use std::collections::VecDeque;

verus! {

/// A request to build the mesh of the chunk at `(x, z)`.
#[derive(Clone, Copy, Debug, PartialEq, Eq, Structural)]
pub struct MeshUpdate {
    pub x: i32,
    pub z: i32,
    /// Whether the four neighbours of the chunk are to follow.
    pub update_neighbors: bool,
}

impl MeshUpdate {
    /// A request for the chunk at `(x, z)`.
    pub fn new(x: i32, z: i32, update_neighbors: bool) -> (r: MeshUpdate)
        ensures
            r == (MeshUpdate { x, z, update_neighbors }),
    {
        MeshUpdate { x, z, update_neighbors }
    }

    pub fn get_x(&self) -> (r: i32)
        ensures
            r == self.x,
    {
        self.x
    }

    pub fn get_z(&self) -> (r: i32)
        ensures
            r == self.z,
    {
        self.z
    }

    pub fn update_neighbors(&self) -> (r: bool)
        ensures
            r == self.update_neighbors,
    {
        self.update_neighbors
    }
}

/// Whether the chunk at `(x, z)` has all four neighbours among the
/// chunk coordinates.
pub open spec fn has_neighbors(x: i32, z: i32) -> bool {
    i32::MIN < x < i32::MAX && i32::MIN < z < i32::MAX
}

/// The requests for the four neighbours of the chunk at `(x, z)`, in the
/// order in which they are queued. None of them asks for its own
/// neighbours.
pub open spec fn neighbor_updates(x: i32, z: i32) -> Seq<MeshUpdate> {
    seq![
        MeshUpdate { x: (x + 1) as i32, z, update_neighbors: false },
        MeshUpdate { x: (x - 1) as i32, z, update_neighbors: false },
        MeshUpdate { x, z: (z + 1) as i32, update_neighbors: false },
        MeshUpdate { x, z: (z - 1) as i32, update_neighbors: false },
    ]
}

/// What a request adds to the end of the queue when it leaves.
pub open spec fn cascade(update: MeshUpdate) -> Seq<MeshUpdate> {
    if update.update_neighbors {
        neighbor_updates(update.x, update.z)
    } else {
        Seq::empty()
    }
}

/// The pending requests, oldest first.
pub struct ChunkMeshGeneratorQueue {
    queue: VecDeque<MeshUpdate>,
}

impl View for ChunkMeshGeneratorQueue {
    type V = Seq<MeshUpdate>;

    closed spec fn view(&self) -> Seq<MeshUpdate> {
        self.queue@
    }
}

impl ChunkMeshGeneratorQueue {
    /// Every pending request that asks for its neighbours is for a chunk
    /// that has them.
    pub open spec fn wf(&self) -> bool {
        forall|i: int|
            0 <= i < self@.len() && (#[trigger] self@[i]).update_neighbors ==> has_neighbors(
                self@[i].x,
                self@[i].z,
            )
    }

    /// The empty queue.
    pub fn new() -> (r: ChunkMeshGeneratorQueue)
        ensures
            r@ == Seq::<MeshUpdate>::empty(),
            r.wf(),
    {
        ChunkMeshGeneratorQueue { queue: VecDeque::new() }
    }

    /// The number of pending requests.
    pub fn len(&self) -> (r: usize)
        ensures
            r == self@.len(),
    {
        self.queue.len()
    }

    /// Whether no request is pending.
    pub fn is_empty(&self) -> (r: bool)
        ensures
            r == (self@.len() == 0),
    {
        self.queue.len() == 0
    }

    /// Puts a request for the chunk at `(x, z)` at the end of the queue.
    /// The same chunk may be pending more than once.
    pub fn push_back(&mut self, x: i32, z: i32, update_neighbors: bool)
        requires
            old(self).wf(),
            update_neighbors ==> has_neighbors(x, z),
        ensures
            final(self).wf(),
            final(self)@ == old(self)@.push(MeshUpdate { x, z, update_neighbors }),
    {
        self.queue.push_back(MeshUpdate::new(x, z, update_neighbors));
    }

    /// Puts requests for the four neighbours of the chunk at `(x, z)` at
    /// the end of the queue.
    pub fn batch_neighbor_update(&mut self, x: i32, z: i32)
        requires
            old(self).wf(),
            has_neighbors(x, z),
        ensures
            final(self).wf(),
            final(self)@ == old(self)@ + neighbor_updates(x, z),
    {
        self.push_back(x + 1, z, false);
        self.push_back(x - 1, z, false);
        self.push_back(x, z + 1, false);
        self.push_back(x, z - 1, false);
        assert(self@ =~= old(self)@ + neighbor_updates(x, z));
    }

    /// Takes the oldest request out of the queue, if there is one, and
    /// queues its neighbours where it asks for them.
    pub fn pop_front(&mut self) -> (r: Option<MeshUpdate>)
        requires
            old(self).wf(),
        ensures
            final(self).wf(),
            old(self)@.len() == 0 ==> r.is_none() && final(self)@ == old(self)@,
            old(self)@.len() > 0 ==> r == Some(old(self)@[0]) && final(self)@ == old(self)@.skip(1)
                + cascade(old(self)@[0]),
    {
        match self.queue.pop_front() {
            Some(mesh_update) => {
                assert(mesh_update == old(self)@[0]);
                assert(self@ =~= old(self)@.skip(1));
                assert(forall|i: int| 0 <= i < self@.len() ==> self@[i] == old(self)@[i + 1]);
                if mesh_update.update_neighbors() {
                    self.batch_neighbor_update(mesh_update.get_x(), mesh_update.get_z());
                } else {
                    assert(self@ + Seq::<MeshUpdate>::empty() =~= self@);
                }
                Some(mesh_update)
            },
            None => None,
        }
    }
}

/// The requests that a cascade adds never cascade themselves.
pub proof fn lemma_cascade_ends(update: MeshUpdate, i: int)
    requires
        0 <= i < cascade(update).len(),
    ensures
        !cascade(update)[i].update_neighbors,
        cascade(cascade(update)[i]) == Seq::<MeshUpdate>::empty(),
{
}

} // verus!
