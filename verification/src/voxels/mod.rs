//! Voxel materials and the packed one-byte cell encoding.
//!
//! A cell is one byte. Its three low-order bits hold the material kind, its
//! five high-order bits hold the distance-field magnitude.

use vstd::prelude::*;

pub mod chunk;
pub mod chunk_manager;

verus! {

/// Number of low-order bits of a cell that hold the material kind.
pub const KIND_BITS: u8 = 3;

/// The bits of a cell that hold the material kind.
pub const KIND_MASK: u8 = 0b0000_0111;

/// The largest distance-field magnitude that a cell can hold.
pub const MAX_DISTANCE: u8 = 31;

/// The material of one cell.
#[derive(Clone, Copy, Debug, PartialEq, Eq, Structural)]
pub enum Voxel {
    Empty,
    Metal,
    Bone,
    Cloth,
    Skin,
    DebugCollisionShape,
}

/// The code that stands for a material in a cell's low-order bits.
pub open spec fn kind_code(v: Voxel) -> u8 {
    match v {
        Voxel::Empty => 0,
        Voxel::Metal => 1,
        Voxel::Bone => 2,
        Voxel::Cloth => 3,
        Voxel::Skin => 4,
        Voxel::DebugCollisionShape => 5,
    }
}

/// The material that a code stands for. The two codes that no material
/// uses read as `Empty`.
pub open spec fn kind_of_code(code: u8) -> Voxel {
    if code == 1 {
        Voxel::Metal
    } else if code == 2 {
        Voxel::Bone
    } else if code == 3 {
        Voxel::Cloth
    } else if code == 4 {
        Voxel::Skin
    } else if code == 5 {
        Voxel::DebugCollisionShape
    } else {
        Voxel::Empty
    }
}

/// The material of a packed cell.
pub open spec fn cell_kind(cell: u8) -> Voxel {
    kind_of_code(cell & KIND_MASK)
}

/// The distance-field magnitude of a packed cell.
pub open spec fn cell_distance(cell: u8) -> u8 {
    cell >> KIND_BITS
}

/// The cell with its material replaced and its distance field kept.
pub open spec fn cell_with_kind(cell: u8, v: Voxel) -> u8 {
    (cell & !KIND_MASK) | kind_code(v)
}

/// The cell with its distance field replaced by the five low-order bits of
/// `dist` and its material kept.
pub open spec fn cell_with_distance(cell: u8, dist: u8) -> u8 {
    (cell & KIND_MASK) | ((dist & MAX_DISTANCE) << KIND_BITS)
}

/// Mass of one cell of a material, in mass units.
pub open spec fn kind_mass(v: Voxel) -> nat {
    match v {
        Voxel::Empty => 0,
        Voxel::Metal => 7850,
        Voxel::Bone => 1850,
        Voxel::Cloth => 150,
        Voxel::Skin => 1100,
        Voxel::DebugCollisionShape => 0,
    }
}

/// Restitution that one cell of a material contributes, in restitution
/// units.
pub open spec fn kind_restitution(v: Voxel) -> nat {
    match v {
        Voxel::Empty => 0,
        Voxel::Metal => 600,
        Voxel::Bone => 400,
        Voxel::Cloth => 100,
        Voxel::Skin => 300,
        Voxel::DebugCollisionShape => 0,
    }
}

/// The largest mass or restitution that one cell contributes.
pub const MAX_CELL_UNITS: u16 = 7850;

impl Voxel {
    /// The code of this material.
    pub fn code(self) -> (c: u8)
        ensures
            c == kind_code(self),
            c <= 5,
    {
        match self {
            Voxel::Empty => 0,
            Voxel::Metal => 1,
            Voxel::Bone => 2,
            Voxel::Cloth => 3,
            Voxel::Skin => 4,
            Voxel::DebugCollisionShape => 5,
        }
    }

    /// The material with the given code; `Empty` for a code that no
    /// material uses.
    pub fn from_code(code: u8) -> (v: Voxel)
        ensures
            v == kind_of_code(code),
    {
        if code == 1 {
            Voxel::Metal
        } else if code == 2 {
            Voxel::Bone
        } else if code == 3 {
            Voxel::Cloth
        } else if code == 4 {
            Voxel::Skin
        } else if code == 5 {
            Voxel::DebugCollisionShape
        } else {
            Voxel::Empty
        }
    }

    /// Mass of one cell of this material.
    pub fn mass(self) -> (m: u16)
        ensures
            m == kind_mass(self),
            m <= MAX_CELL_UNITS,
    {
        match self {
            Voxel::Empty => 0,
            Voxel::Metal => 7850,
            Voxel::Bone => 1850,
            Voxel::Cloth => 150,
            Voxel::Skin => 1100,
            Voxel::DebugCollisionShape => 0,
        }
    }

    /// Restitution that one cell of this material contributes.
    pub fn restitution(self) -> (r: u16)
        ensures
            r == kind_restitution(self),
            r <= MAX_CELL_UNITS,
    {
        match self {
            Voxel::Empty => 0,
            Voxel::Metal => 600,
            Voxel::Bone => 400,
            Voxel::Cloth => 100,
            Voxel::Skin => 300,
            Voxel::DebugCollisionShape => 0,
        }
    }

    /// Whether this is the empty material.
    pub fn is_empty(self) -> (r: bool)
        ensures
            r == (self == Voxel::Empty),
    {
        match self {
            Voxel::Empty => true,
            _ => false,
        }
    }
}

/// Writing a material into a cell and reading it gives that material, and
/// leaves the distance field as it was.
pub proof fn lemma_kind_write_read(cell: u8, v: Voxel)
    ensures
        cell_kind(cell_with_kind(cell, v)) == v,
        cell_distance(cell_with_kind(cell, v)) == cell_distance(cell),
{
    let code = kind_code(v);
    assert(code <= 5);
    assert(((cell & !7u8) | code) & 7u8 == code) by (bit_vector)
        requires
            code <= 5,
    ;
    assert(((cell & !7u8) | code) >> 3u8 == cell >> 3u8) by (bit_vector)
        requires
            code <= 5,
    ;
}

/// Writing a distance into a cell and reading it gives the five low-order
/// bits of that distance, and leaves the material as it was.
pub proof fn lemma_distance_write_read(cell: u8, dist: u8)
    ensures
        cell_distance(cell_with_distance(cell, dist)) == dist % 32,
        cell_distance(cell_with_distance(cell, dist)) == dist & MAX_DISTANCE,
        cell_kind(cell_with_distance(cell, dist)) == cell_kind(cell),
{
    assert(((cell & 7u8) | ((dist & 31u8) << 3u8)) >> 3u8 == dist % 32) by (bit_vector);
    assert(dist % 32 == dist & 31u8) by (bit_vector);
    assert(((cell & 7u8) | ((dist & 31u8) << 3u8)) & 7u8 == cell & 7u8) by (bit_vector);
}

/// The packed-cell operations on a byte.
pub trait VoxelNumeric: Sized {
    /// The byte that holds the cell.
    spec fn packed(&self) -> u8;

    /// The material of the cell.
    fn voxel(&self) -> (v: Voxel)
        ensures
            v == cell_kind(self.packed()),
    ;

    /// The distance-field magnitude of the cell.
    fn distance_field(&self) -> (d: u8)
        ensures
            d == cell_distance(self.packed()),
            d <= MAX_DISTANCE,
    ;

    /// Replaces the material and keeps the distance field.
    fn set_voxel(&mut self, voxel: Voxel)
        ensures
            final(self).packed() == cell_with_kind(old(self).packed(), voxel),
            cell_kind(final(self).packed()) == voxel,
            cell_distance(final(self).packed()) == cell_distance(old(self).packed()),
    ;

    /// Replaces the distance field by the five low-order bits of `dist`
    /// and keeps the material.
    fn set_distance_field(&mut self, dist: u8)
        ensures
            final(self).packed() == cell_with_distance(old(self).packed(), dist),
            cell_distance(final(self).packed()) == dist % 32,
            cell_kind(final(self).packed()) == cell_kind(old(self).packed()),
    ;
}

impl VoxelNumeric for u8 {
    open spec fn packed(&self) -> u8 {
        *self
    }

    fn voxel(&self) -> (v: Voxel) {
        let cell: u8 = *self;
        assert(self.packed() == cell);
        Voxel::from_code(cell & KIND_MASK)
    }

    fn distance_field(&self) -> (d: u8) {
        let cell: u8 = *self;
        assert(self.packed() == cell);
        assert(cell >> 3u8 <= 31) by (bit_vector);
        cell >> KIND_BITS
    }

    fn set_voxel(&mut self, voxel: Voxel) {
        let cell: u8 = *self;
        proof {
            assert(self.packed() == cell);
            lemma_kind_write_read(cell, voxel);
        }
        *self = (cell & !KIND_MASK) | voxel.code();
    }

    fn set_distance_field(&mut self, dist: u8) {
        let cell: u8 = *self;
        proof {
            assert(self.packed() == cell);
            lemma_distance_write_read(cell, dist);
        }
        let low: u8 = dist & MAX_DISTANCE;
        assert(low <= 31) by (bit_vector)
            requires
                low == dist & 31u8,
        ;
        assert(low << 3u8 == (low as int) * 8) by (bit_vector)
            requires
                low <= 31,
        ;
        *self = (cell & KIND_MASK) | (low << KIND_BITS);
    }
}

} // verus!
