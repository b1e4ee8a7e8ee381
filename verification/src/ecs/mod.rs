//! Entities as bit-mask tagged rows of component columns.

use vstd::prelude::*;

pub mod store;
pub mod systems;
pub mod world;

verus! {

/// The number of entity slots of a world.
pub const MAX_ENTITIES: usize = 200;

/// A handle of an entity: the index of its slot in every column.
pub type Entity = usize;

/// The bit field that says which components an entity has.
pub type MaskType = u32;

/// The bit of each component kind.
pub struct Mask {}

impl Mask {
    /// No component: the slot is free.
    pub const EMPTY: MaskType = 0;

    /// Kept for the deletion flag, which has a column of its own.
    pub const DELETED: MaskType = 0x0001;

    /// The entity has a position.
    pub const POSITION: MaskType = 0x0002;

    /// The entity has a velocity.
    pub const VELOCITY: MaskType = 0x0004;

    /// The entity takes an input snapshot.
    pub const PLAYER_INPUT: MaskType = 0x0008;

    /// The entity names the player that its input comes from.
    pub const PLAYER_INPUT_ID: MaskType = 0x0010;

    /// The entity has a solid shape.
    pub const SHAPE: MaskType = 0x0020;

    /// The entity is drawn as a circle.
    pub const CIRCLE: MaskType = 0x0200;
}

/// Whether `mask` has every bit of `bits`.
pub open spec fn has_bits(mask: MaskType, bits: MaskType) -> bool {
    mask & bits == bits
}

/// Whether `bit` is one single bit.
pub open spec fn single_bit(bit: MaskType) -> bool {
    bit != 0 && bit & ((bit - 1) as MaskType) == 0
}

/// Whether no two entries of `bits` share a bit.
pub open spec fn pairwise_disjoint(bits: Seq<MaskType>) -> bool {
    forall|i: int, j: int| 0 <= i < j < bits.len() ==> #[trigger] bits[i] & #[trigger] bits[j] == 0
}

/// The component bits that are declared, in the order of their bits.
pub open spec fn declared_bits() -> Seq<MaskType> {
    seq![
        Mask::DELETED,
        Mask::POSITION,
        Mask::VELOCITY,
        Mask::PLAYER_INPUT,
        Mask::PLAYER_INPUT_ID,
        Mask::SHAPE,
        Mask::CIRCLE,
    ]
}

/// Every declared component bit is one single bit, and no two of them are
/// the same bit.
pub proof fn lemma_declared_bits_distinct()
    ensures
        pairwise_disjoint(declared_bits()),
        forall|i: int| 0 <= i < declared_bits().len() ==> single_bit(#[trigger] declared_bits()[i]),
{
    let bits = declared_bits();
    assert(0x0001u32 & 0x0002u32 == 0 && 0x0001u32 & 0x0004u32 == 0 && 0x0001u32 & 0x0008u32 == 0
        && 0x0001u32 & 0x0010u32 == 0 && 0x0001u32 & 0x0020u32 == 0 && 0x0001u32 & 0x0200u32 == 0)
        by (bit_vector);
    assert(0x0002u32 & 0x0004u32 == 0 && 0x0002u32 & 0x0008u32 == 0 && 0x0002u32 & 0x0010u32 == 0
        && 0x0002u32 & 0x0020u32 == 0 && 0x0002u32 & 0x0200u32 == 0) by (bit_vector);
    assert(0x0004u32 & 0x0008u32 == 0 && 0x0004u32 & 0x0010u32 == 0 && 0x0004u32 & 0x0020u32 == 0
        && 0x0004u32 & 0x0200u32 == 0) by (bit_vector);
    assert(0x0008u32 & 0x0010u32 == 0 && 0x0008u32 & 0x0020u32 == 0 && 0x0008u32 & 0x0200u32 == 0)
        by (bit_vector);
    assert(0x0010u32 & 0x0020u32 == 0 && 0x0010u32 & 0x0200u32 == 0 && 0x0020u32 & 0x0200u32 == 0)
        by (bit_vector);
    assert(0x0001u32 & 0x0000u32 == 0 && 0x0002u32 & 0x0001u32 == 0 && 0x0004u32 & 0x0003u32 == 0
        && 0x0008u32 & 0x0007u32 == 0 && 0x0010u32 & 0x000fu32 == 0 && 0x0020u32 & 0x001fu32 == 0
        && 0x0200u32 & 0x01ffu32 == 0) by (bit_vector);
}

/// Whether no two entries of `bits` share a bit.
pub fn bits_disjoint(bits: &Vec<MaskType>) -> (ok: bool)
    ensures
        ok == pairwise_disjoint(bits@),
{
    let mut j: usize = 0;
    while j < bits.len()
        invariant
            j <= bits.len(),
            forall|a: int, b: int| 0 <= a < b < j ==> #[trigger] bits@[a] & #[trigger] bits@[b] == 0,
        decreases bits.len() - j,
    {
        let mut i: usize = 0;
        while i < j
            invariant
                i <= j < bits.len(),
                forall|a: int| 0 <= a < i ==> #[trigger] bits@[a] & bits@[j as int] == 0,
            decreases j - i,
        {
            if bits[i] & bits[j] != 0 {
                return false;
            }
            i += 1;
        }
        j += 1;
    }
    true
}

} // verus!
