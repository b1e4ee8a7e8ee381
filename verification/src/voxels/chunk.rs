//! A fixed-size block of packed voxel cells with running physical totals.

use crate::math::{
    clamp_raw, fixed_quotient, flat_index, grid_coords, grid_len, index_1d, index_3d,
    lemma_coords_round_trip, FixedNumber, SCALE,
};
use crate::time::GameFrame;
use crate::voxels::{
    cell_distance, cell_kind, cell_with_distance, cell_with_kind, kind_mass, kind_restitution, Voxel,
    VoxelNumeric, MAX_CELL_UNITS,
};
use vstd::prelude::*;

verus! {

/// A quantity that a chunk totals over its cells.
pub enum Measure {
    /// Mass units.
    Mass,
    /// Restitution units.
    Restitution,
    /// One for each cell that is not empty.
    Active,
}

/// What one cell of a material adds to a measure.
pub open spec fn weight(m: Measure, v: Voxel) -> nat {
    match m {
        Measure::Mass => kind_mass(v),
        Measure::Restitution => kind_restitution(v),
        Measure::Active => if v == Voxel::Empty {
            0
        } else {
            1
        },
    }
}

/// The total of a measure over a sequence of packed cells.
pub open spec fn total(cells: Seq<u8>, m: Measure) -> nat
    decreases cells.len(),
{
    if cells.len() == 0 {
        0
    } else {
        total(cells.drop_last(), m) + weight(m, cell_kind(cells.last()))
    }
}

/// The divisor by which total mass units are scaled down.
pub const MASS_DIVISOR: u128 = 100;

/// The divisor by which total restitution units are scaled down.
pub const RESTITUTION_DIVISOR: u128 = 1000;

/// The fixed-point divisor applied after the integer one.
pub const AGGREGATE_DIVISOR: i32 = 100;

/// Raw fixed-point value of an aggregate: the total is divided by
/// `divisor` as an integer, and the quotient by one hundred as a
/// fixed-point number. Both divisions drop the remainder.
pub open spec fn aggregate_raw(units: int, divisor: int) -> int {
    fixed_quotient(clamp_raw((units / divisor) * SCALE), AGGREGATE_DIVISOR * SCALE)
}

/// Raw fixed-point value of the inverse of a mass: the largest number for
/// a mass of zero, otherwise the reciprocal, and the smallest positive
/// number where the reciprocal would be zero.
pub open spec fn inverse_mass_raw(mass_raw: int) -> int {
    if mass_raw == 0 {
        i64::MAX as int
    } else if fixed_quotient(SCALE as int, mass_raw) == 0 {
        1
    } else {
        fixed_quotient(SCALE as int, mass_raw)
    }
}

/// Replacing a cell takes its old weight out of the total and puts its
/// new weight in.
pub proof fn lemma_total_update(cells: Seq<u8>, i: int, cell: u8, m: Measure)
    requires
        0 <= i < cells.len(),
    ensures
        total(cells.update(i, cell), m) + weight(m, cell_kind(cells[i])) == total(cells, m) + weight(
            m,
            cell_kind(cell),
        ),
    decreases cells.len(),
{
    let updated = cells.update(i, cell);
    if i == cells.len() - 1 {
        assert(updated.drop_last() =~= cells.drop_last());
    } else {
        lemma_total_update(cells.drop_last(), i, cell, m);
        assert(updated.drop_last() =~= cells.drop_last().update(i, cell));
    }
}

/// A total is at least the weight of any one cell, and at most the
/// largest weight times the number of cells.
pub proof fn lemma_total_bounds(cells: Seq<u8>, m: Measure)
    ensures
        total(cells, m) <= cells.len() * MAX_CELL_UNITS,
        m is Active ==> total(cells, m) <= cells.len(),
        forall|i: int| 0 <= i < cells.len() ==> weight(m, cell_kind(#[trigger] cells[i])) <= total(cells, m),
    decreases cells.len(),
{
    if cells.len() > 0 {
        lemma_total_bounds(cells.drop_last(), m);
        assert forall|i: int| 0 <= i < cells.len() implies weight(m, cell_kind(#[trigger] cells[i]))
            <= total(cells, m) by {
            if i < cells.len() - 1 {
                assert(cells.drop_last()[i] == cells[i]);
            }
        }
        assert(total(cells, m) <= cells.len() * MAX_CELL_UNITS) by (nonlinear_arith)
            requires
                total(cells, m) <= (cells.len() - 1) * MAX_CELL_UNITS + MAX_CELL_UNITS,
        ;
    }
}

/// Where every cell holds the same material, a total is that material's
/// weight times the number of cells.
pub proof fn lemma_total_uniform(cells: Seq<u8>, v: Voxel, m: Measure)
    requires
        forall|i: int| 0 <= i < cells.len() ==> cell_kind(#[trigger] cells[i]) == v,
    ensures
        total(cells, m) == cells.len() * weight(m, v),
    decreases cells.len(),
{
    if cells.len() > 0 {
        let front = cells.drop_last();
        assert forall|i: int| 0 <= i < front.len() implies cell_kind(#[trigger] front[i]) == v by {
            assert(front[i] == cells[i]);
        }
        lemma_total_uniform(front, v, m);
        assert(cell_kind(cells[cells.len() - 1]) == v);
        assert(total(cells, m) == cells.len() * weight(m, v)) by (nonlinear_arith)
            requires
                total(cells, m) == (cells.len() - 1) * weight(m, v) + weight(m, v),
        ;
    }
}

/// In a well-formed block whose every cell holds the same material, the
/// reported mass is the cell count times that material's mass, divided by
/// one hundred as an integer and then by one hundred as a fixed-point
/// number. For a block of 16 x 16 x 16 cells the total is 4096 times the
/// material's mass, and the raw value is written out.
pub proof fn lemma_uniform_mass(c: Chunk, v: Voxel)
    requires
        c.wf(),
        forall|i: int| 0 <= i < c.cells().len() ==> cell_kind(#[trigger] c.cells()[i]) == v,
    ensures
        total(c.cells(), Measure::Mass) == c.cells().len() * kind_mass(v),
        c.mass_raw() == aggregate_raw((c.cells().len() * kind_mass(v)) as int, MASS_DIVISOR as int),
        c.dims() == (16int, 16int, 16int) ==> c.mass_raw() == (((4096 * kind_mass(v)) / 100) * SCALE) / 100,
{
    lemma_total_uniform(c.cells(), v, Measure::Mass);
    if c.dims() == (16int, 16int, 16int) {
        let (dx, dy, dz) = c.dims();
        assert(dx * dy * dz == 4096) by (nonlinear_arith)
            requires
                dx == 16,
                dy == 16,
                dz == 16,
        ;
        assert(c.cells().len() == 4096);
        let units = 4096 * kind_mass(v);
        assert(c.mass_raw() == aggregate_raw(units as int, 100));
        match v {
            Voxel::Empty => {
                assert(units == 0);
            },
            Voxel::Metal => {
                assert(units == 32153600);
            },
            Voxel::Bone => {
                assert(units == 7577600);
            },
            Voxel::Cloth => {
                assert(units == 614400);
            },
            Voxel::Skin => {
                assert(units == 4505600);
            },
            Voxel::DebugCollisionShape => {
                assert(units == 0);
            },
        }
    }
}

/// A block of `x_depth * y_depth * z_depth` packed cells.
///
/// The totals of mass, restitution and cells that are not empty are kept
/// up to date by every write of a cell, never recounted.
pub struct Chunk {
    x_depth: usize,
    y_depth: usize,
    z_depth: usize,
    last_update: GameFrame,
    current_frame: GameFrame,
    voxels: Vec<u8>,
    mass: FixedNumber,
    inv_mass: FixedNumber,
    restitution: FixedNumber,
    active_voxels: usize,
    total_mass: u128,
    total_restitution: u128,
}

impl Chunk {
    /// The depths of the block along x, y and z.
    pub closed spec fn dims(&self) -> (int, int, int) {
        (self.x_depth as int, self.y_depth as int, self.z_depth as int)
    }

    /// The packed cells, by flat index.
    pub closed spec fn cells(&self) -> Seq<u8> {
        self.voxels@
    }

    /// The frame at which a cell was last written.
    pub closed spec fn stamp(&self) -> GameFrame {
        self.last_update
    }

    /// The frame that the block was last told of.
    pub closed spec fn frame(&self) -> GameFrame {
        self.current_frame
    }

    /// Raw value of the reported mass.
    pub closed spec fn mass_raw(&self) -> int {
        self.mass.raw as int
    }

    /// Raw value of the reported inverse mass.
    pub closed spec fn inv_mass_raw(&self) -> int {
        self.inv_mass.raw as int
    }

    /// Raw value of the reported restitution.
    pub closed spec fn restitution_raw(&self) -> int {
        self.restitution.raw as int
    }

    /// The kept count of cells that are not empty.
    pub closed spec fn active(&self) -> int {
        self.active_voxels as int
    }

    /// The kept unit totals agree with the cells.
    pub closed spec fn totals_kept(&self) -> bool {
        &&& self.total_mass == total(self.voxels@, Measure::Mass)
        &&& self.total_restitution == total(self.voxels@, Measure::Restitution)
    }

    /// The invariant of a chunk: one cell per grid position, every
    /// aggregate equal to what the cells give, and the inverse mass equal
    /// to what the mass gives.
    pub open spec fn wf(&self) -> bool {
        &&& 0 <= self.dims().0
        &&& 0 <= self.dims().1
        &&& 0 <= self.dims().2
        &&& self.dims().0 * self.dims().1 * self.dims().2 <= usize::MAX
        &&& self.cells().len() == self.dims().0 * self.dims().1 * self.dims().2
        &&& self.active() == total(self.cells(), Measure::Active)
        &&& self.mass_raw() == aggregate_raw(total(self.cells(), Measure::Mass) as int, MASS_DIVISOR as int)
        &&& self.restitution_raw() == aggregate_raw(
            total(self.cells(), Measure::Restitution) as int,
            RESTITUTION_DIVISOR as int,
        )
        &&& self.inv_mass_raw() == inverse_mass_raw(self.mass_raw())
        &&& self.totals_kept()
    }

    /// Whether the block has at least one cell.
    pub open spec fn has_cells(&self) -> bool {
        &&& 0 < self.dims().0
        &&& 0 < self.dims().1
        &&& 0 < self.dims().2
    }

    /// Flat index of the cell at `(x, y, z)`, each coordinate wrapped.
    pub open spec fn slot(&self, x: int, y: int, z: int) -> int {
        flat_index(x, y, z, self.dims().0, self.dims().1, self.dims().2)
    }

    /// The material at `(x, y, z)`, each coordinate wrapped.
    pub open spec fn kind_at(&self, x: int, y: int, z: int) -> Voxel {
        cell_kind(self.cells()[self.slot(x, y, z)])
    }

    /// Whether `(x, y, z)` lies on a face of the block.
    pub open spec fn on_face(&self, x: int, y: int, z: int) -> bool {
        ||| x == 0
        ||| y == 0
        ||| z == 0
        ||| x == self.dims().0 - 1
        ||| y == self.dims().1 - 1
        ||| z == self.dims().2 - 1
    }

    /// Whether the cell at `(x, y, z)` is hidden: it lies on no face and
    /// none of its six neighbours along the axes is empty.
    pub open spec fn hidden(&self, x: int, y: int, z: int) -> bool {
        &&& !self.on_face(x, y, z)
        &&& self.kind_at(x - 1, y, z) != Voxel::Empty
        &&& self.kind_at(x + 1, y, z) != Voxel::Empty
        &&& self.kind_at(x, y - 1, z) != Voxel::Empty
        &&& self.kind_at(x, y + 1, z) != Voxel::Empty
        &&& self.kind_at(x, y, z - 1) != Voxel::Empty
        &&& self.kind_at(x, y, z + 1) != Voxel::Empty
    }

    /// Whether this is a block as [`Chunk::new`] makes it from the given
    /// depths and distance field: every cell empty with that distance (one
    /// in place of zero), mass and restitution zero, the inverse mass the
    /// largest number, no frame seen yet.
    pub open spec fn fresh(&self, x_depth: int, y_depth: int, z_depth: int, distance_field: u8) -> bool {
        &&& self.wf()
        &&& self.dims() == (x_depth, y_depth, z_depth)
        &&& self.cells().len() == x_depth * y_depth * z_depth
        &&& forall|i: int|
            0 <= i < self.cells().len() ==> #[trigger] self.cells()[i] == cell_with_distance(
                0,
                if distance_field < 1 {
                    1
                } else {
                    distance_field
                },
            )
        &&& forall|i: int|
            0 <= i < self.cells().len() ==> cell_kind(#[trigger] self.cells()[i]) == Voxel::Empty
        &&& self.stamp() == 0
        &&& self.frame() == 0
        &&& self.mass_raw() == 0
        &&& self.inv_mass_raw() == i64::MAX
        &&& self.restitution_raw() == 0
        &&& self.active() == 0
    }

    /// Whether this block differs from `other` at most in the frame it was
    /// last told of.
    pub open spec fn same_but_frame(&self, other: &Chunk) -> bool {
        &&& self.dims() == other.dims()
        &&& self.cells() == other.cells()
        &&& self.stamp() == other.stamp()
        &&& self.mass_raw() == other.mass_raw()
        &&& self.inv_mass_raw() == other.inv_mass_raw()
        &&& self.restitution_raw() == other.restitution_raw()
        &&& self.active() == other.active()
        &&& other.wf() ==> self.wf()
    }

    /// A block of empty cells, each with the given distance field; a
    /// distance of zero is raised to one.
    pub fn new(x_depth: usize, y_depth: usize, z_depth: usize, distance_field: u8) -> (c: Chunk)
        requires
            x_depth * y_depth * z_depth <= usize::MAX,
        ensures
            c.fresh(x_depth as int, y_depth as int, z_depth as int, distance_field),
    {
        let capacity: usize = grid_len(x_depth, y_depth, z_depth);
        let mut voxels: Vec<u8> = Vec::with_capacity(capacity);

        let mut distance_field = distance_field;
        if distance_field < 1 {
            distance_field = 1;
        }
        let mut voxel: u8 = Voxel::Empty.code();
        assert(cell_kind(0u8) == Voxel::Empty) by {
            assert(0u8 & 7u8 == 0u8) by (bit_vector);
        }
        voxel.set_distance_field(distance_field);

        let mut n: usize = 0;
        while n < capacity
            invariant
                n <= capacity,
                voxels@.len() == n,
                voxel == cell_with_distance(0, distance_field),
                cell_kind(voxel) == Voxel::Empty,
                forall|i: int| 0 <= i < n ==> #[trigger] voxels@[i] == voxel,
            decreases capacity - n,
        {
            voxels.push(voxel);
            n += 1;
        }

        proof {
            lemma_total_uniform(voxels@, Voxel::Empty, Measure::Mass);
            lemma_total_uniform(voxels@, Voxel::Empty, Measure::Restitution);
            lemma_total_uniform(voxels@, Voxel::Empty, Measure::Active);
            assert(voxels@.len() * 0 == 0);
            assert(aggregate_raw(0, MASS_DIVISOR as int) == 0);
            assert(aggregate_raw(0, RESTITUTION_DIVISOR as int) == 0);
        }
        Chunk {
            x_depth,
            y_depth,
            z_depth,
            voxels,
            last_update: 0,
            current_frame: 0,
            mass: FixedNumber::zero(),
            inv_mass: FixedNumber::max_value(),
            restitution: FixedNumber::zero(),
            active_voxels: 0,
            total_mass: 0,
            total_restitution: 0,
        }
    }

    /// The frame at which a cell was last written.
    pub fn last_update(&self) -> (f: GameFrame)
        ensures
            f == self.stamp(),
    {
        self.last_update
    }

    /// Tells the block the current frame.
    pub fn update(&mut self, frame: GameFrame)
        ensures
            final(self).frame() == frame,
            final(self).same_but_frame(old(self)),
    {
        self.current_frame = frame;
    }

    /// The depths of the block along x, y and z.
    pub fn capacity(&self) -> (d: (usize, usize, usize))
        ensures
            (d.0 as int, d.1 as int, d.2 as int) == self.dims(),
    {
        (self.x_depth, self.y_depth, self.z_depth)
    }

    /// Flat index of the cell at `(x, y, z)`; a coordinate outside its
    /// axis wraps around.
    pub fn index_1d(&self, x: usize, y: usize, z: usize) -> (i: usize)
        requires
            self.wf(),
            self.has_cells(),
        ensures
            i == self.slot(x as int, y as int, z as int),
            i < self.cells().len(),
    {
        index_1d(x, y, z, self.x_depth, self.y_depth, self.z_depth)
    }

    /// Coordinates of the cell with flat index `i`.
    pub fn index_3d(&self, i: usize) -> (c: (usize, usize, usize))
        requires
            self.wf(),
            self.has_cells(),
        ensures
            (c.0 as int, c.1 as int, c.2 as int) == grid_coords(
                i as int,
                self.dims().0,
                self.dims().1,
                self.dims().2,
            ),
            c.0 < self.dims().0,
            c.1 < self.dims().1,
            c.2 < self.dims().2,
    {
        index_3d(i, self.x_depth, self.y_depth, self.z_depth)
    }

    /// The coordinates wrapped around the depths of the block.
    pub fn safe_wrap(&self, x: usize, y: usize, z: usize) -> (c: (usize, usize, usize))
        requires
            self.has_cells(),
        ensures
            c.0 == x as int % self.dims().0,
            c.1 == y as int % self.dims().1,
            c.2 == z as int % self.dims().2,
            c.0 < self.dims().0,
            c.1 < self.dims().1,
            c.2 < self.dims().2,
    {
        (x % self.x_depth, y % self.y_depth, z % self.z_depth)
    }

    /// The packed cells, by flat index.
    pub fn voxels(&self) -> (v: &Vec<u8>)
        ensures
            v@ == self.cells(),
    {
        &self.voxels
    }

    /// The reported mass.
    pub fn mass(&self) -> (m: FixedNumber)
        ensures
            m.raw == self.mass_raw(),
    {
        self.mass
    }

    /// The inverse of the reported mass, derived anew.
    pub fn calculate_inv_mass(&self) -> (inv: FixedNumber)
        ensures
            inv.raw == inverse_mass_raw(self.mass_raw()),
    {
        let mass = self.mass();
        if mass.is_zero() {
            return FixedNumber::max_value();
        }
        let inv_mass = FixedNumber::fraction(mass);
        if inv_mass.is_zero() {
            return FixedNumber::decimal_resolution_value();
        }
        inv_mass
    }

    /// The reported inverse mass.
    pub fn inv_mass(&self) -> (m: FixedNumber)
        ensures
            m.raw == self.inv_mass_raw(),
    {
        self.inv_mass
    }

    /// The reported restitution.
    pub fn restitution(&self) -> (r: FixedNumber)
        ensures
            r.raw == self.restitution_raw(),
    {
        self.restitution
    }

    /// The number of cells that are not empty.
    pub fn active_voxels(&self) -> (n: usize)
        ensures
            n == self.active(),
    {
        self.active_voxels
    }

    /// The material at `(x, y, z)`.
    pub fn voxel(&self, x: usize, y: usize, z: usize) -> (v: Voxel)
        requires
            self.wf(),
            self.has_cells(),
        ensures
            v == self.kind_at(x as int, y as int, z as int),
    {
        let i = self.index_1d(x, y, z);
        self.voxels[i].voxel()
    }

    /// The packed cell at `(x, y, z)`.
    pub fn raw_voxel(&self, x: usize, y: usize, z: usize) -> (cell: u8)
        requires
            self.wf(),
            self.has_cells(),
        ensures
            cell == self.cells()[self.slot(x as int, y as int, z as int)],
    {
        let i = self.index_1d(x, y, z);
        self.voxels[i]
    }

    /// Writes a material into the cell at `(x, y, z)`, keeps the cell's
    /// distance field, brings every aggregate up to date and stamps the
    /// block with the current frame.
    pub fn set_voxel(&mut self, x: usize, y: usize, z: usize, voxel: Voxel)
        requires
            old(self).wf(),
            old(self).has_cells(),
        ensures
            final(self).wf(),
            final(self).dims() == old(self).dims(),
            final(self).frame() == old(self).frame(),
            final(self).stamp() == old(self).frame(),
            final(self).cells() == old(self).cells().update(
                old(self).slot(x as int, y as int, z as int),
                cell_with_kind(old(self).cells()[old(self).slot(x as int, y as int, z as int)], voxel),
            ),
            final(self).kind_at(x as int, y as int, z as int) == voxel,
            final(self).mass_raw() == aggregate_raw(
                total(final(self).cells(), Measure::Mass) as int,
                MASS_DIVISOR as int,
            ),
            final(self).restitution_raw() == aggregate_raw(
                total(final(self).cells(), Measure::Restitution) as int,
                RESTITUTION_DIVISOR as int,
            ),
            final(self).inv_mass_raw() == inverse_mass_raw(final(self).mass_raw()),
            final(self).active() == old(self).active() + weight(Measure::Active, voxel) - weight(
                Measure::Active,
                old(self).kind_at(x as int, y as int, z as int),
            ),
    {
        let i = self.index_1d(x, y, z);
        let prev_voxel = self.voxels[i].voxel();
        let mut cell: u8 = self.voxels[i];
        cell.set_voxel(voxel);
        proof {
            let before = self.voxels@;
            lemma_total_bounds(before, Measure::Mass);
            lemma_total_bounds(before, Measure::Restitution);
            lemma_total_bounds(before, Measure::Active);
            lemma_total_update(before, i as int, cell, Measure::Mass);
            lemma_total_update(before, i as int, cell, Measure::Restitution);
            lemma_total_update(before, i as int, cell, Measure::Active);
            lemma_total_bounds(before.update(i as int, cell), Measure::Mass);
            lemma_total_bounds(before.update(i as int, cell), Measure::Restitution);
            lemma_total_bounds(before.update(i as int, cell), Measure::Active);
            assert(before.len() * MAX_CELL_UNITS <= u128::MAX) by (nonlinear_arith)
                requires
                    before.len() <= usize::MAX,
                    usize::MAX <= u64::MAX,
                    MAX_CELL_UNITS == 7850,
            ;
            assert(cell_kind(before[i as int]) == prev_voxel);
        }

        self.total_mass = self.total_mass - (prev_voxel.mass() as u128) + (voxel.mass() as u128);
        self.mass = FixedNumber::from_whole(self.total_mass / MASS_DIVISOR).div(
            FixedNumber::from_i32(AGGREGATE_DIVISOR),
        );
        self.inv_mass = self.calculate_inv_mass();

        self.total_restitution = self.total_restitution - (prev_voxel.restitution() as u128) + (
        voxel.restitution() as u128);
        self.restitution = FixedNumber::from_whole(self.total_restitution / RESTITUTION_DIVISOR).div(
            FixedNumber::from_i32(AGGREGATE_DIVISOR),
        );

        if prev_voxel.is_empty() && !voxel.is_empty() {
            self.active_voxels += 1;
        } else if !prev_voxel.is_empty() && voxel.is_empty() {
            self.active_voxels -= 1;
        }

        self.voxels[i] = cell;
        self.last_update = self.current_frame;
    }

    /// Writes the five low-order bits of `dist` into the distance field
    /// of the cell at `(x, y, z)`, keeps the cell's material and stamps the
    /// block with the current frame.
    pub fn set_distance_field(&mut self, x: usize, y: usize, z: usize, dist: u8)
        requires
            old(self).wf(),
            old(self).has_cells(),
        ensures
            final(self).wf(),
            final(self).dims() == old(self).dims(),
            final(self).frame() == old(self).frame(),
            final(self).stamp() == old(self).frame(),
            final(self).cells() == old(self).cells().update(
                old(self).slot(x as int, y as int, z as int),
                cell_with_distance(old(self).cells()[old(self).slot(x as int, y as int, z as int)], dist),
            ),
            final(self).kind_at(x as int, y as int, z as int) == old(self).kind_at(
                x as int,
                y as int,
                z as int,
            ),
            cell_distance(final(self).cells()[old(self).slot(x as int, y as int, z as int)]) == dist % 32,
            final(self).mass_raw() == old(self).mass_raw(),
            final(self).inv_mass_raw() == old(self).inv_mass_raw(),
            final(self).restitution_raw() == old(self).restitution_raw(),
            final(self).active() == old(self).active(),
    {
        let i = self.index_1d(x, y, z);
        let mut cell: u8 = self.voxels[i];
        cell.set_distance_field(dist);
        proof {
            let before = self.voxels@;
            lemma_total_update(before, i as int, cell, Measure::Mass);
            lemma_total_update(before, i as int, cell, Measure::Restitution);
            lemma_total_update(before, i as int, cell, Measure::Active);
        }
        self.voxels[i] = cell;
        self.last_update = self.current_frame;
    }

    /// Whether the cell with flat index `i` has three even coordinates.
    pub open spec fn even_cell(&self, i: int) -> bool {
        &&& grid_coords(i, self.dims().0, self.dims().1, self.dims().2).0 % 2 == 0
        &&& grid_coords(i, self.dims().0, self.dims().1, self.dims().2).1 % 2 == 0
        &&& grid_coords(i, self.dims().0, self.dims().1, self.dims().2).2 % 2 == 0
    }

    /// Whether `after` is this block with `voxel` written into every cell
    /// whose three coordinates are even: those cells hold `voxel` and their
    /// old distance field, the others are as before, the aggregates follow
    /// the cells, and the block is stamped with its current frame.
    pub open spec fn seeded_to(&self, after: &Chunk, voxel: Voxel) -> bool {
        &&& after.wf()
        &&& after.dims() == self.dims()
        &&& after.frame() == self.frame()
        &&& after.stamp() == self.frame()
        &&& after.inv_mass_raw() == inverse_mass_raw(after.mass_raw())
        &&& after.cells().len() == self.cells().len()
        &&& forall|i: int|
            0 <= i < after.cells().len() ==> #[trigger] after.cells()[i] == if self.even_cell(i) {
                cell_with_kind(self.cells()[i], voxel)
            } else {
                self.cells()[i]
            }
    }

    /// Writes a material into every cell whose three coordinates are even,
    /// as [`Chunk::set_voxel`] does cell by cell. The other cells stay as
    /// they are.
    pub fn seed_even_cells(&mut self, voxel: Voxel)
        requires
            old(self).wf(),
            old(self).has_cells(),
        ensures
            old(self).seeded_to(final(self), voxel),
    {
        let count = self.voxels.len();
        proof {
            let (dx, dy, dz) = self.dims();
            assert(0 < dx * dy * dz) by (nonlinear_arith)
                requires
                    0 < dx,
                    0 < dy,
                    0 < dz,
            ;
        }
        let mut i: usize = 0;
        while i < count
            invariant
                i <= count,
                0 < count,
                self.wf(),
                self.has_cells(),
                self.dims() == old(self).dims(),
                self.frame() == old(self).frame(),
                count == self.cells().len() == old(self).cells().len(),
                i > 0 ==> self.stamp() == old(self).frame(),
                forall|j: int|
                    0 <= j < i ==> #[trigger] self.cells()[j] == if old(self).even_cell(j) {
                        cell_with_kind(old(self).cells()[j], voxel)
                    } else {
                        old(self).cells()[j]
                    },
                forall|j: int| i <= j < count ==> #[trigger] self.cells()[j] == old(self).cells()[j],
            decreases count - i,
        {
            proof {
                lemma_coords_round_trip(i as int, self.dims().0, self.dims().1, self.dims().2);
                if i == 0 {
                    let (dx, dy, dz) = self.dims();
                    assert(0int % dx == 0 && 0int / dx == 0) by (nonlinear_arith)
                        requires
                            0 < dx,
                    ;
                    assert(0int % dy == 0) by (nonlinear_arith)
                        requires
                            0 < dy,
                    ;
                    assert(0 < dx * dy) by (nonlinear_arith)
                        requires
                            0 < dx,
                            0 < dy,
                    ;
                    assert(0int / (dx * dy) == 0 && 0int % dz == 0) by (nonlinear_arith)
                        requires
                            0 < dx * dy,
                            0 < dz,
                    ;
                    assert(self.even_cell(0));
                }
            }
            let (x, y, z) = self.index_3d(i);
            if x % 2 == 0 && y % 2 == 0 && z % 2 == 0 {
                self.set_voxel(x, y, z, voxel);
            }
            i += 1;
        }
    }

    /// Whether the cell at `(x, y, z)`, each coordinate wrapped, is hidden
    /// by its neighbours. A cell on a face of the block never is.
    pub fn occluded(&self, x: usize, y: usize, z: usize) -> (r: bool)
        requires
            self.wf(),
            self.has_cells(),
        ensures
            r == self.hidden(
                x as int % self.dims().0,
                y as int % self.dims().1,
                z as int % self.dims().2,
            ),
            self.on_face(x as int % self.dims().0, y as int % self.dims().1, z as int % self.dims().2)
                ==> !r,
    {
        let (x, y, z) = self.safe_wrap(x, y, z);
        if x == 0 || y == 0 || z == 0 || (x == self.x_depth - 1) || (y == self.y_depth - 1) || (z
            == self.z_depth - 1) {
            return false;
        }
        if self.voxel(x - 1, y, z).is_empty() {
            return false;
        }
        if self.voxel(x + 1, y, z).is_empty() {
            return false;
        }
        if self.voxel(x, y - 1, z).is_empty() {
            return false;
        }
        if self.voxel(x, y + 1, z).is_empty() {
            return false;
        }
        if self.voxel(x, y, z - 1).is_empty() {
            return false;
        }
        if self.voxel(x, y, z + 1).is_empty() {
            return false;
        }
        true
    }
}

} // verus!
