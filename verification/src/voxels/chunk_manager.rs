//! The grid of chunks that makes up the voxel world.

use crate::math::{flat_index, grid_coords, grid_len, index_1d, index_3d, FixedNumber, SCALE};
use crate::time::GameFrame;
use crate::voxels::chunk::{inverse_mass_raw, Chunk};
use crate::voxels::{cell_distance, cell_with_distance, cell_with_kind, Voxel};
use rayon::iter::{IntoParallelRefIterator, ParallelIterator};
use vstd::prelude::*;

verus! {

/// Depth of every chunk of the world along each axis.
pub const CHUNK_DEPTH: usize = 16;

/// The largest number of steps for which distance fields are worked out;
/// every cell of a new world starts at this distance.
pub const MAX_DISTANCE_FIELD: u8 = 4;

/// Makes one chunk of the given depths and distance field for each item of
/// `seeds`, the chunks built side by side on rayon's thread pool.
///
/// Calls rayon's `par_iter`, `map` and `collect` on the slice. Taken from
/// rayon: `map` applies the closure once to each item, and `collect` into a
/// `Vec` keeps one result per item, in the order of the items. Taken from
/// this library: each call of `Chunk::new` returns a fresh chunk.
#[verifier::external_body]
fn build_chunks(seeds: &Vec<u8>, x_depth: usize, y_depth: usize, z_depth: usize, distance_field: u8) -> (chunks:
    Vec<Chunk>)
    requires
        x_depth * y_depth * z_depth <= usize::MAX,
    ensures
        chunks@.len() == seeds@.len(),
        forall|i: int|
            0 <= i < chunks@.len() ==> (#[trigger] chunks@[i]).fresh(
                x_depth as int,
                y_depth as int,
                z_depth as int,
                distance_field,
            ),
{
    seeds.par_iter().map(|_| Chunk::new(x_depth, y_depth, z_depth, distance_field)).collect()
}

/// A grid of `x_depth * y_depth * z_depth` chunks, each of
/// [`CHUNK_DEPTH`] cells along every axis.
pub struct ChunkManager {
    x_depth: usize,
    y_depth: usize,
    z_depth: usize,
    max_distance_field: u8,
    chunk_size: (usize, usize, usize),
    voxel_resolution: FixedNumber,
    last_update: GameFrame,
    current_frame: GameFrame,
    chunks: Vec<Chunk>,
}

impl ChunkManager {
    /// The depths of the grid along x, y and z, in chunks.
    pub closed spec fn dims(&self) -> (int, int, int) {
        (self.x_depth as int, self.y_depth as int, self.z_depth as int)
    }

    /// The chunks, by flat index.
    pub closed spec fn grid(&self) -> Seq<Chunk> {
        self.chunks@
    }

    /// The frame that the grid was last told of.
    pub closed spec fn frame(&self) -> GameFrame {
        self.current_frame
    }

    /// The frame kept as the grid's own last update.
    pub closed spec fn stamp(&self) -> GameFrame {
        self.last_update
    }

    /// What does not change over the life of a grid.
    pub closed spec fn settings_kept(&self) -> bool {
        &&& self.max_distance_field == MAX_DISTANCE_FIELD
        &&& self.chunk_size == (CHUNK_DEPTH, CHUNK_DEPTH, CHUNK_DEPTH)
        &&& self.voxel_resolution.raw == SCALE / 2
    }

    /// The invariant of a grid: one well-formed chunk of the common size
    /// per grid position.
    pub open spec fn wf(&self) -> bool {
        &&& 0 <= self.dims().0
        &&& 0 <= self.dims().1
        &&& 0 <= self.dims().2
        &&& self.dims().0 * self.dims().1 * self.dims().2 <= usize::MAX
        &&& self.grid().len() == self.dims().0 * self.dims().1 * self.dims().2
        &&& forall|i: int|
            0 <= i < self.grid().len() ==> {
                &&& (#[trigger] self.grid()[i]).wf()
                &&& self.grid()[i].dims() == (CHUNK_DEPTH as int, CHUNK_DEPTH as int, CHUNK_DEPTH as int)
            }
        &&& self.settings_kept()
    }

    /// A grid of the given depths, every chunk fresh.
    pub fn new(x_depth: usize, y_depth: usize, z_depth: usize) -> (m: ChunkManager)
        requires
            x_depth * y_depth * z_depth <= usize::MAX,
        ensures
            m.wf(),
            m.dims() == (x_depth as int, y_depth as int, z_depth as int),
            m.grid().len() == x_depth * y_depth * z_depth,
            forall|i: int|
                0 <= i < m.grid().len() ==> (#[trigger] m.grid()[i]).fresh(
                    CHUNK_DEPTH as int,
                    CHUNK_DEPTH as int,
                    CHUNK_DEPTH as int,
                    MAX_DISTANCE_FIELD,
                ),
            m.frame() == 0,
            m.stamp() == 0,
    {
        let capacity: usize = grid_len(x_depth, y_depth, z_depth);

        let chunk_size: usize = CHUNK_DEPTH;
        let chunk_size = (chunk_size, chunk_size, chunk_size);

        let max_distance_field: u8 = MAX_DISTANCE_FIELD;

        let voxel_resolution = FixedNumber::fraction(FixedNumber::from_i32(2));

        let mut d: Vec<u8> = Vec::with_capacity(capacity);
        let mut n: usize = 0;
        while n < capacity
            invariant
                n <= capacity,
                d@.len() == n,
            decreases capacity - n,
        {
            d.push(0);
            n += 1;
        }

        let chunks = build_chunks(&d, chunk_size.0, chunk_size.1, chunk_size.2, max_distance_field);

        ChunkManager {
            voxel_resolution,
            max_distance_field,
            x_depth,
            y_depth,
            z_depth,
            last_update: 0,
            current_frame: 0,
            chunks,
            chunk_size,
        }
    }

    /// The frame kept as the grid's own last update.
    pub fn last_update(&self) -> (f: GameFrame)
        ensures
            f == self.stamp(),
    {
        self.last_update
    }

    /// Tells the grid and every chunk of it the current frame.
    pub fn update_frame(&mut self, frame: GameFrame)
        ensures
            final(self).frame() == frame,
            final(self).stamp() == old(self).stamp(),
            final(self).dims() == old(self).dims(),
            final(self).grid().len() == old(self).grid().len(),
            forall|i: int|
                0 <= i < final(self).grid().len() ==> {
                    &&& (#[trigger] final(self).grid()[i]).frame() == frame
                    &&& final(self).grid()[i].same_but_frame(&old(self).grid()[i])
                },
            old(self).wf() ==> final(self).wf(),
    {
        self.current_frame = frame;
        let count = self.chunks.len();
        let mut n: usize = 0;
        while n < count
            invariant
                n <= count,
                count == self.chunks@.len(),
                self.chunks@.len() == old(self).chunks@.len(),
                self.x_depth == old(self).x_depth,
                self.y_depth == old(self).y_depth,
                self.z_depth == old(self).z_depth,
                self.last_update == old(self).last_update,
                self.current_frame == frame,
                self.max_distance_field == old(self).max_distance_field,
                self.chunk_size == old(self).chunk_size,
                self.voxel_resolution == old(self).voxel_resolution,
                forall|i: int|
                    0 <= i < n ==> {
                        &&& (#[trigger] self.chunks@[i]).frame() == frame
                        &&& self.chunks@[i].same_but_frame(&old(self).chunks@[i])
                    },
                forall|i: int| n <= i < count ==> #[trigger] self.chunks@[i] == old(self).chunks@[i],
            decreases count - n,
        {
            self.chunks[n].update(frame);
            n += 1;
        }
    }

    /// Works out the distance fields of every cell. Nothing is worked out
    /// yet: the grid stays as it is.
    pub fn calculate_distance_fields(&mut self)
        ensures
            *final(self) == *old(self),
    {
    }

    /// The depths of the grid along x, y and z, in chunks.
    pub fn capacity(&self) -> (d: (usize, usize, usize))
        ensures
            (d.0 as int, d.1 as int, d.2 as int) == self.dims(),
    {
        (self.x_depth, self.y_depth, self.z_depth)
    }

    /// The depths of every chunk along x, y and z, in cells.
    pub fn chunk_size(&self) -> (d: (usize, usize, usize))
        requires
            self.wf(),
        ensures
            d == (CHUNK_DEPTH, CHUNK_DEPTH, CHUNK_DEPTH),
    {
        self.chunk_size
    }

    /// The length of the edge of one cell: one half.
    pub fn voxel_resolution(&self) -> (r: FixedNumber)
        requires
            self.wf(),
        ensures
            r.raw == SCALE / 2,
    {
        self.voxel_resolution
    }

    /// The number of chunks.
    pub fn len(&self) -> (n: usize)
        ensures
            n == self.grid().len(),
    {
        self.chunks.len()
    }

    /// Flat index of the chunk at `(x, y, z)`; a coordinate outside its
    /// axis wraps around.
    pub fn index_1d(&self, x: usize, y: usize, z: usize) -> (i: usize)
        requires
            self.wf(),
            0 < self.dims().0,
            0 < self.dims().1,
            0 < self.dims().2,
        ensures
            i == flat_index(x as int, y as int, z as int, self.dims().0, self.dims().1, self.dims().2),
            i < self.grid().len(),
    {
        index_1d(x, y, z, self.x_depth, self.y_depth, self.z_depth)
    }

    /// Coordinates of the chunk with flat index `i`.
    pub fn index_3d(&self, i: usize) -> (c: (usize, usize, usize))
        requires
            self.wf(),
            0 < self.dims().0,
            0 < self.dims().1,
            0 < self.dims().2,
        ensures
            (c.0 as int, c.1 as int, c.2 as int) == grid_coords(
                i as int,
                self.dims().0,
                self.dims().1,
                self.dims().2,
            ),
            c.0 < self.dims().0,
            c.1 < self.dims().1,
            c.2 < self.dims().2,
    {
        index_3d(i, self.x_depth, self.y_depth, self.z_depth)
    }

    /// The chunk with flat index `i`.
    pub fn chunk(&self, i: usize) -> (c: &Chunk)
        requires
            i < self.grid().len(),
        ensures
            *c == self.grid()[i as int],
    {
        &self.chunks[i]
    }

    /// Writes a material into every cell with three even coordinates of
    /// the chunk with flat index `i`, as [`Chunk::seed_even_cells`] does. No
    /// other chunk changes.
    pub fn seed_even_cells(&mut self, i: usize, voxel: Voxel)
        requires
            old(self).wf(),
            i < old(self).grid().len(),
        ensures
            final(self).wf(),
            final(self).dims() == old(self).dims(),
            final(self).frame() == old(self).frame(),
            final(self).stamp() == old(self).stamp(),
            final(self).grid().len() == old(self).grid().len(),
            forall|j: int|
                0 <= j < final(self).grid().len() && j != i ==> #[trigger] final(self).grid()[j] == old(self).grid()[j],
            old(self).grid()[i as int].seeded_to(&final(self).grid()[i as int], voxel),
    {
        self.chunks[i].seed_even_cells(voxel);
    }

    /// Writes a material into the cell at `(x, y, z)` of the chunk with
    /// flat index `i`, as [`Chunk::set_voxel`] does. No other chunk changes.
    pub fn set_voxel(&mut self, i: usize, x: usize, y: usize, z: usize, voxel: Voxel)
        requires
            old(self).wf(),
            i < old(self).grid().len(),
        ensures
            final(self).wf(),
            final(self).dims() == old(self).dims(),
            final(self).frame() == old(self).frame(),
            final(self).stamp() == old(self).stamp(),
            final(self).grid().len() == old(self).grid().len(),
            forall|j: int|
                0 <= j < final(self).grid().len() && j != i ==> #[trigger] final(self).grid()[j] == old(self).grid()[j],
            final(self).grid()[i as int].cells() == old(self).grid()[i as int].cells().update(
                old(self).grid()[i as int].slot(x as int, y as int, z as int),
                cell_with_kind(
                    old(self).grid()[i as int].cells()[old(self).grid()[i as int].slot(
                        x as int,
                        y as int,
                        z as int,
                    )],
                    voxel,
                ),
            ),
            final(self).grid()[i as int].kind_at(x as int, y as int, z as int) == voxel,
            final(self).grid()[i as int].inv_mass_raw() == inverse_mass_raw(
                final(self).grid()[i as int].mass_raw(),
            ),
            final(self).grid()[i as int].stamp() == old(self).grid()[i as int].frame(),
            final(self).grid()[i as int].frame() == old(self).grid()[i as int].frame(),
    {
        self.chunks[i].set_voxel(x, y, z, voxel);
    }

    /// Writes the five low-order bits of `dist` into the distance field
    /// of the cell at `(x, y, z)` of the chunk with flat index `i`, as
    /// [`Chunk::set_distance_field`] does. No other chunk changes.
    pub fn set_distance_field(&mut self, i: usize, x: usize, y: usize, z: usize, dist: u8)
        requires
            old(self).wf(),
            i < old(self).grid().len(),
        ensures
            final(self).wf(),
            final(self).dims() == old(self).dims(),
            final(self).frame() == old(self).frame(),
            final(self).stamp() == old(self).stamp(),
            final(self).grid().len() == old(self).grid().len(),
            forall|j: int|
                0 <= j < final(self).grid().len() && j != i ==> #[trigger] final(self).grid()[j] == old(self).grid()[j],
            final(self).grid()[i as int].cells() == old(self).grid()[i as int].cells().update(
                old(self).grid()[i as int].slot(x as int, y as int, z as int),
                cell_with_distance(
                    old(self).grid()[i as int].cells()[old(self).grid()[i as int].slot(
                        x as int,
                        y as int,
                        z as int,
                    )],
                    dist,
                ),
            ),
            cell_distance(
                final(self).grid()[i as int].cells()[old(self).grid()[i as int].slot(
                    x as int,
                    y as int,
                    z as int,
                )],
            ) == dist % 32,
            final(self).grid()[i as int].kind_at(x as int, y as int, z as int) == old(self).grid()[i as int].kind_at(
                x as int,
                y as int,
                z as int,
            ),
            final(self).grid()[i as int].mass_raw() == old(self).grid()[i as int].mass_raw(),
            final(self).grid()[i as int].inv_mass_raw() == old(self).grid()[i as int].inv_mass_raw(),
            final(self).grid()[i as int].restitution_raw() == old(self).grid()[i as int].restitution_raw(),
            final(self).grid()[i as int].active() == old(self).grid()[i as int].active(),
            final(self).grid()[i as int].stamp() == old(self).grid()[i as int].frame(),
            final(self).grid()[i as int].frame() == old(self).grid()[i as int].frame(),
    {
        self.chunks[i].set_distance_field(x, y, z, dist);
    }
}

} // verus!
