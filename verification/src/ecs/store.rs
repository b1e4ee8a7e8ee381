//! The fixed-capacity store of entities and their component columns.
//!
//! Every column has one slot per entity. A slot is live while its mask has
//! a bit set; the all-zero mask marks a free slot. Deleting an entity only
//! flags its slot: the mask is cleared by the next sweep.

use crate::ecs::{has_bits, Entity, Mask, MaskType};
use crate::input::PlayerInput;
use crate::math::{FixedNumber, Vec3, SCALE};
use crate::shapes::Csg;
use vstd::prelude::*;

verus! {

/// The masks with `bits` added to the mask of `e`.
pub open spec fn tagged(masks: Seq<MaskType>, e: int, bits: MaskType) -> Seq<MaskType> {
    masks.update(e, masks[e] | bits)
}

/// The masks with `bits` taken from the mask of `e`.
pub open spec fn untagged(masks: Seq<MaskType>, e: int, bits: MaskType) -> Seq<MaskType> {
    masks.update(e, masks[e] & !bits)
}

/// Whether `e` is the lowest slot whose mask is empty.
pub open spec fn is_lowest_free(masks: Seq<MaskType>, e: int) -> bool {
    &&& 0 <= e < masks.len()
    &&& masks[e] == Mask::EMPTY
    &&& forall|j: int| 0 <= j < e ==> #[trigger] masks[j] != Mask::EMPTY
}

/// Whether no slot has an empty mask.
pub open spec fn no_free(masks: Seq<MaskType>) -> bool {
    forall|j: int| 0 <= j < masks.len() ==> #[trigger] masks[j] != Mask::EMPTY
}

/// Whether `c` is where a free-slot cursor stands after a full scan: on
/// the lowest free slot, or past the last slot where none is free.
pub open spec fn first_free_or_len(masks: Seq<MaskType>, c: int) -> bool {
    is_lowest_free(masks, c) || (no_free(masks) && c == masks.len())
}

/// The number of flags that are set.
pub open spec fn count_true(flags: Seq<bool>) -> nat
    decreases flags.len(),
{
    if flags.len() == 0 {
        0
    } else {
        count_true(flags.drop_last()) + if flags.last() {
            1nat
        } else {
            0nat
        }
    }
}

/// The masks after a sweep: empty where the slot was flagged, as before
/// elsewhere.
pub open spec fn swept(masks: Seq<MaskType>, deleted: Seq<bool>) -> Seq<MaskType> {
    Seq::new(
        masks.len(),
        |i: int|
            if deleted[i] {
                Mask::EMPTY
            } else {
                masks[i]
            },
    )
}

/// The position that a slot is reset to.
pub open spec fn reset_position() -> Vec3 {
    Vec3 { x: FixedNumber { raw: 0 }, y: FixedNumber { raw: 0 }, z: FixedNumber { raw: 0 } }
}

/// The velocity that a slot is reset to.
pub open spec fn reset_velocity() -> (FixedNumber, FixedNumber) {
    (FixedNumber { raw: 0 }, FixedNumber { raw: 0 })
}

/// The input snapshot that a slot is reset to.
pub open spec fn reset_input() -> PlayerInput {
    PlayerInput { player_input_id: 0, up: false, down: false, left: false, right: false }
}

/// The shape that a slot is reset to.
pub open spec fn reset_shape() -> Csg {
    Csg::Sphere { radius: FixedNumber { raw: SCALE } }
}

/// The circle radius that a slot is reset to.
pub open spec fn reset_circle() -> FixedNumber {
    FixedNumber { raw: SCALE }
}

/// Setting or clearing one flag changes the count by that flag alone.
pub proof fn lemma_count_update(flags: Seq<bool>, i: int, flag: bool)
    requires
        0 <= i < flags.len(),
    ensures
        count_true(flags.update(i, flag)) + (if flags[i] {
            1nat
        } else {
            0nat
        }) == count_true(flags) + (if flag {
            1nat
        } else {
            0nat
        }),
        count_true(flags) <= flags.len(),
    decreases flags.len(),
{
    let updated = flags.update(i, flag);
    lemma_count_bound(flags);
    if i == flags.len() - 1 {
        assert(updated.drop_last() =~= flags.drop_last());
    } else {
        lemma_count_update(flags.drop_last(), i, flag);
        assert(updated.drop_last() =~= flags.drop_last().update(i, flag));
    }
}

/// No more flags are set than there are flags, and none where all are
/// clear.
pub proof fn lemma_count_bound(flags: Seq<bool>)
    ensures
        count_true(flags) <= flags.len(),
        (forall|i: int| 0 <= i < flags.len() ==> !#[trigger] flags[i]) ==> count_true(flags) == 0,
    decreases flags.len(),
{
    if flags.len() > 0 {
        lemma_count_bound(flags.drop_last());
        if forall|i: int| 0 <= i < flags.len() ==> !#[trigger] flags[i] {
            assert forall|i: int| 0 <= i < flags.drop_last().len() implies !#[trigger] flags.drop_last()[i] by {
                assert(flags.drop_last()[i] == flags[i]);
            }
            assert(!flags[flags.len() - 1]);
        }
    }
}

/// Adding the same bits to a mask twice gives what adding them once gives.
pub proof fn lemma_tag_twice(masks: Seq<MaskType>, e: int, bits: MaskType)
    requires
        0 <= e < masks.len(),
    ensures
        tagged(tagged(masks, e, bits), e, bits) == tagged(masks, e, bits),
        has_bits(tagged(masks, e, bits)[e], bits),
{
    let m = masks[e];
    assert((m | bits) | bits == m | bits) by (bit_vector);
    assert((m | bits) & bits == bits) by (bit_vector);
    assert(tagged(tagged(masks, e, bits), e, bits) =~= tagged(masks, e, bits));
}

/// Taking the same bits from a mask twice gives what taking them once
/// gives, and none of them is left.
pub proof fn lemma_untag_twice(masks: Seq<MaskType>, e: int, bits: MaskType)
    requires
        0 <= e < masks.len(),
    ensures
        untagged(untagged(masks, e, bits), e, bits) == untagged(masks, e, bits),
        untagged(masks, e, bits)[e] & bits == 0,
{
    let m = masks[e];
    assert((m & !bits) & !bits == m & !bits) by (bit_vector);
    assert((m & !bits) & bits == 0) by (bit_vector);
    assert(untagged(untagged(masks, e, bits), e, bits) =~= untagged(masks, e, bits));
}

/// Handles come out in rising order: once the lowest free slot `e` has
/// been given a bit, the lowest free slot lies above `e`, or no slot is
/// free.
pub proof fn lemma_next_handle_is_higher(masks: Seq<MaskType>, e: int, bits: MaskType, next: int)
    requires
        is_lowest_free(masks, e),
        bits != Mask::EMPTY,
        is_lowest_free(tagged(masks, e, bits), next),
    ensures
        e < next,
{
    let after = tagged(masks, e, bits);
    assert(0u32 | bits == bits) by (bit_vector);
    assert(after[e] == bits);
    if next < e {
        assert(after[next] == masks[next]);
    }
}

/// Filling a store from empty: while the first `n` slots carry a bit and
/// the others are empty, the lowest free slot is `n`, and no slot is free
/// once `n` reaches the number of slots. Giving slot `n` a bit leads to the
/// same state with `n + 1` in place of `n`.
pub proof fn lemma_fill_in_order(masks: Seq<MaskType>, n: int, bits: MaskType)
    requires
        0 <= n <= masks.len(),
        bits != Mask::EMPTY,
        forall|j: int| 0 <= j < n ==> #[trigger] masks[j] != Mask::EMPTY,
        forall|j: int| n <= j < masks.len() ==> #[trigger] masks[j] == Mask::EMPTY,
    ensures
        n < masks.len() ==> is_lowest_free(masks, n),
        n == masks.len() ==> no_free(masks),
        n < masks.len() ==> forall|j: int| 0 <= j < n + 1 ==> #[trigger] tagged(masks, n, bits)[j] != Mask::EMPTY,
        n < masks.len() ==> forall|j: int|
            n + 1 <= j < masks.len() ==> #[trigger] tagged(masks, n, bits)[j] == Mask::EMPTY,
{
    if n < masks.len() {
        assert(0u32 | bits == bits) by (bit_vector);
        assert(masks[n] == 0);
        assert forall|j: int| 0 <= j < n + 1 implies #[trigger] tagged(masks, n, bits)[j]
            != Mask::EMPTY by {
            if j < n {
                assert(masks[j] != Mask::EMPTY);
            }
        }
        assert forall|j: int| n + 1 <= j < masks.len() implies #[trigger] tagged(masks, n, bits)[j]
            == Mask::EMPTY by {
            assert(masks[j] == Mask::EMPTY);
        }
    }
}

/// A flagged slot keeps its mask until the sweep, is empty after it, and
/// is then at or above the lowest free slot.
pub proof fn lemma_deleted_slot_is_reused(masks: Seq<MaskType>, deleted: Seq<bool>, e: int, cursor: int)
    requires
        masks.len() == deleted.len(),
        0 <= e < masks.len(),
        deleted[e],
        first_free_or_len(swept(masks, deleted), cursor),
    ensures
        swept(masks, deleted)[e] == Mask::EMPTY,
        !no_free(swept(masks, deleted)),
        is_lowest_free(swept(masks, deleted), cursor),
        cursor <= e,
{
    let after = swept(masks, deleted);
    assert(after[e] == Mask::EMPTY);
    if cursor > e {
        assert(after[e] != Mask::EMPTY);
    }
}

/// The bits of an entity that takes input from a player.
pub const INPUT_PASS: MaskType = 0x0018;

/// Whether slot `e` of `store` takes the input snapshot `input`.
pub open spec fn takes_input(store: StoreView, e: int, input: PlayerInput) -> bool {
    &&& has_bits(store.masks[e], INPUT_PASS)
    &&& store.player_input_id[e] == input.player_input_id
}

/// What a store holds, as plain values.
pub struct StoreView {
    /// The number of slots.
    pub capacity: nat,
    /// Whether the columns have been populated.
    pub initialized: bool,
    /// A hint for the lowest free slot: never above it.
    pub cursor: nat,
    /// The running count of deletions: one for each deletion asked for
    /// since the last reset, less one for each flag that a sweep cleared.
    /// Never less than the number of flagged slots.
    pub pending: nat,
    pub masks: Seq<MaskType>,
    pub deleted: Seq<bool>,
    pub positions: Seq<Vec3>,
    pub velocities: Seq<(FixedNumber, FixedNumber)>,
    pub inputs: Seq<PlayerInput>,
    pub player_input_id: Seq<usize>,
    pub shapes: Seq<Csg>,
    pub circles: Seq<FixedNumber>,
}

impl StoreView {
    /// Whether every column has `len` slots.
    pub open spec fn columns_have(self, len: nat) -> bool {
        &&& self.masks.len() == len
        &&& self.deleted.len() == len
        &&& self.positions.len() == len
        &&& self.velocities.len() == len
        &&& self.inputs.len() == len
        &&& self.player_input_id.len() == len
        &&& self.shapes.len() == len
        &&& self.circles.len() == len
    }

    /// The invariant of a populated store.
    pub open spec fn wf(self) -> bool {
        &&& self.initialized
        &&& self.columns_have(self.capacity)
        &&& self.pending >= count_true(self.deleted)
        &&& self.cursor <= self.capacity
        &&& forall|j: int| 0 <= j < self.cursor ==> #[trigger] self.masks[j] != Mask::EMPTY
    }

    /// A store that has been made and not populated yet.
    pub open spec fn unpopulated(self) -> bool {
        &&& !self.initialized
        &&& self.columns_have(0)
        &&& self.cursor == 0
        &&& self.pending == 0
    }

    /// The store of `capacity` slots right after a reset: every slot free
    /// and unflagged, every component at its reset value.
    pub open spec fn pristine(capacity: nat) -> StoreView {
        StoreView {
            capacity,
            initialized: true,
            cursor: 0,
            pending: 0,
            masks: Seq::new(capacity, |i: int| Mask::EMPTY),
            deleted: Seq::new(capacity, |i: int| false),
            positions: Seq::new(capacity, |i: int| reset_position()),
            velocities: Seq::new(capacity, |i: int| reset_velocity()),
            inputs: Seq::new(capacity, |i: int| reset_input()),
            player_input_id: Seq::new(capacity, |i: int| 0usize),
            shapes: Seq::new(capacity, |i: int| reset_shape()),
            circles: Seq::new(capacity, |i: int| reset_circle()),
        }
    }
}

/// A store right after a reset is well formed, and every one of its masks
/// is empty.
pub proof fn lemma_pristine_is_empty(capacity: nat)
    ensures
        StoreView::pristine(capacity).wf(),
        forall|i: int| 0 <= i < capacity ==> #[trigger] StoreView::pristine(capacity).masks[i] == Mask::EMPTY,
        capacity > 0 ==> is_lowest_free(StoreView::pristine(capacity).masks, 0),
{
    lemma_count_bound(StoreView::pristine(capacity).deleted);
}

/// The columns of every component kind, one slot per entity.
pub struct EntityStore {
    capacity: usize,
    next_entity_id: Entity,
    initialized: bool,
    entities_to_delete: usize,
    masks: Vec<MaskType>,
    deleted: Vec<bool>,
    positions: Vec<Vec3>,
    velocities: Vec<(FixedNumber, FixedNumber)>,
    inputs: Vec<PlayerInput>,
    player_input_id: Vec<usize>,
    shapes: Vec<Csg>,
    circles: Vec<FixedNumber>,
}

impl View for EntityStore {
    type V = StoreView;

    closed spec fn view(&self) -> StoreView {
        StoreView {
            capacity: self.capacity as nat,
            initialized: self.initialized,
            cursor: self.next_entity_id as nat,
            pending: self.entities_to_delete as nat,
            masks: self.masks@,
            deleted: self.deleted@,
            positions: self.positions@,
            velocities: self.velocities@,
            inputs: self.inputs@,
            player_input_id: self.player_input_id@,
            shapes: self.shapes@,
            circles: self.circles@,
        }
    }
}

impl EntityStore {
    /// The invariant of a populated store.
    pub open spec fn wf(&self) -> bool {
        self@.wf()
    }

    /// A store of `capacity` slots, every slot free.
    pub fn new(capacity: usize) -> (s: EntityStore)
        ensures
            s@ == StoreView::pristine(capacity as nat),
            s.wf(),
    {
        let mut s = EntityStore {
            capacity,
            next_entity_id: 0,
            initialized: false,
            entities_to_delete: 0,
            masks: Vec::with_capacity(capacity),
            deleted: Vec::with_capacity(capacity),
            positions: Vec::with_capacity(capacity),
            velocities: Vec::with_capacity(capacity),
            inputs: Vec::with_capacity(capacity),
            player_input_id: Vec::with_capacity(capacity),
            shapes: Vec::with_capacity(capacity),
            circles: Vec::with_capacity(capacity),
        };
        s.reset();
        s
    }

    /// Puts every slot of every column back to its reset value: by filling
    /// the columns where they have not been populated yet, by overwriting
    /// them where they have. Either way the store is as [`EntityStore::new`]
    /// makes it.
    pub fn reset(&mut self)
        requires
            old(self)@.wf() || old(self)@.unpopulated(),
        ensures
            final(self)@ == StoreView::pristine(old(self)@.capacity),
            final(self).wf(),
    {
        let capacity = self.capacity;
        let mut i: usize = 0;
        if !self.initialized {
            while i < capacity
                invariant
                    i <= capacity,
                    capacity == self.capacity == old(self).capacity,
                    !self.initialized,
                    self@.columns_have(i as nat),
                    forall|j: int| 0 <= j < i ==> #[trigger] self.masks@[j] == Mask::EMPTY,
                    forall|j: int| 0 <= j < i ==> !#[trigger] self.deleted@[j],
                    forall|j: int| 0 <= j < i ==> #[trigger] self.positions@[j] == reset_position(),
                    forall|j: int| 0 <= j < i ==> #[trigger] self.velocities@[j] == reset_velocity(),
                    forall|j: int| 0 <= j < i ==> #[trigger] self.inputs@[j] == reset_input(),
                    forall|j: int| 0 <= j < i ==> #[trigger] self.player_input_id@[j] == 0,
                    forall|j: int| 0 <= j < i ==> #[trigger] self.shapes@[j] == reset_shape(),
                    forall|j: int| 0 <= j < i ==> #[trigger] self.circles@[j] == reset_circle(),
                decreases capacity - i,
            {
                self.masks.push(Mask::EMPTY);
                self.deleted.push(false);
                self.positions.push(Vec3::new());
                self.velocities.push((FixedNumber::zero(), FixedNumber::zero()));
                self.inputs.push(PlayerInput::new());
                self.player_input_id.push(0);
                self.shapes.push(Csg::unit_sphere());
                self.circles.push(FixedNumber::one());
                i += 1;
            }
        } else {
            while i < capacity
                invariant
                    i <= capacity,
                    capacity == self.capacity == old(self).capacity,
                    self@.columns_have(capacity as nat),
                    forall|j: int| 0 <= j < i ==> #[trigger] self.masks@[j] == Mask::EMPTY,
                    forall|j: int| 0 <= j < i ==> !#[trigger] self.deleted@[j],
                    forall|j: int| 0 <= j < i ==> #[trigger] self.positions@[j] == reset_position(),
                    forall|j: int| 0 <= j < i ==> #[trigger] self.velocities@[j] == reset_velocity(),
                    forall|j: int| 0 <= j < i ==> #[trigger] self.inputs@[j] == reset_input(),
                    forall|j: int| 0 <= j < i ==> #[trigger] self.player_input_id@[j] == 0,
                    forall|j: int| 0 <= j < i ==> #[trigger] self.shapes@[j] == reset_shape(),
                    forall|j: int| 0 <= j < i ==> #[trigger] self.circles@[j] == reset_circle(),
                decreases capacity - i,
            {
                self.masks[i] = Mask::EMPTY;
                self.deleted[i] = false;
                self.positions[i] = Vec3::new();
                self.velocities[i] = (FixedNumber::zero(), FixedNumber::zero());
                self.inputs[i] = PlayerInput::new();
                self.player_input_id[i] = 0;
                self.shapes[i] = Csg::unit_sphere();
                self.circles[i] = FixedNumber::one();
                i += 1;
            }
        }
        self.initialized = true;
        self.entities_to_delete = 0;
        self.next_entity_id = 0;
        proof {
            let goal = StoreView::pristine(capacity as nat);
            assert(self@.masks =~= goal.masks);
            assert(self@.deleted =~= goal.deleted);
            assert(self@.positions =~= goal.positions);
            assert(self@.velocities =~= goal.velocities);
            assert(self@.inputs =~= goal.inputs);
            assert(self@.player_input_id =~= goal.player_input_id);
            assert(self@.shapes =~= goal.shapes);
            assert(self@.circles =~= goal.circles);
            lemma_pristine_is_empty(capacity as nat);
        }
    }

    /// The number of slots.
    pub fn capacity(&self) -> (n: usize)
        ensures
            n == self@.capacity,
    {
        self.capacity
    }

    /// The running count of pending deletions.
    pub fn pending_deletions(&self) -> (n: usize)
        ensures
            n == self@.pending,
    {
        self.entities_to_delete
    }

    /// The free-slot cursor.
    pub fn next_entity_id(&self) -> (e: Entity)
        ensures
            e == self@.cursor,
    {
        self.next_entity_id
    }

    /// The lowest free slot, or `None` where every slot is taken. The
    /// store does not change: the slot stays free until it is given a
    /// component.
    pub fn add_entity(&mut self) -> (r: Option<Entity>)
        requires
            old(self).wf(),
        ensures
            final(self)@ == old(self)@,
            match r {
                Some(e) => is_lowest_free(old(self)@.masks, e as int),
                None => no_free(old(self)@.masks),
            },
    {
        if self.next_entity_id >= self.capacity {
            return None;
        }
        let mut entity: usize = 0;
        while entity < self.capacity
            invariant
                entity <= self.capacity,
                *self == *old(self),
                self.wf(),
                forall|j: int| 0 <= j < entity ==> #[trigger] self.masks@[j] != Mask::EMPTY,
            decreases self.capacity - entity,
        {
            if self.masks[entity] == Mask::EMPTY {
                return Some(entity);
            }
            entity += 1;
        }
        None
    }

    /// Flags the slot of `entity` for deletion and raises the count of
    /// pending deletions by one, whether or not the slot was flagged
    /// before. The mask stays as it is until the next sweep. Fails where
    /// `entity` is no slot.
    pub fn delete_entity(&mut self, entity: Entity) -> (r: Result<(), String>)
        requires
            old(self).wf(),
            old(self)@.pending < usize::MAX,
        ensures
            final(self).wf(),
            r is Err <==> entity >= old(self)@.capacity,
            r matches Err(msg) ==> msg@ == "Attempted to delete out of bounds entity."@ && final(self)@ == old(self)@,
            r is Ok ==> final(self)@ == (StoreView {
                deleted: old(self)@.deleted.update(entity as int, true),
                pending: old(self)@.pending + 1,
                ..old(self)@
            }),
    {
        if entity >= self.capacity {
            return Err("Attempted to delete out of bounds entity.".to_owned());
        }
        proof {
            lemma_count_update(self.deleted@, entity as int, true);
        }
        self.deleted[entity] = true;
        self.entities_to_delete += 1;
        Ok(())
    }

    /// Adds `mask` to the mask of `entity`. Fails where `entity` is no
    /// slot.
    pub fn add_component(&mut self, entity: Entity, mask: MaskType) -> (r: Result<(), String>)
        requires
            old(self).wf(),
        ensures
            final(self).wf(),
            r is Err <==> entity >= old(self)@.capacity,
            r matches Err(msg) ==> msg@ == "Out of bounds entity for adding component"@ && final(self)@ == old(self)@,
            r is Ok ==> final(self)@ == (StoreView {
                masks: tagged(old(self)@.masks, entity as int, mask),
                ..old(self)@
            }),
    {
        if entity >= self.capacity {
            return Err("Out of bounds entity for adding component".to_owned());
        }
        let before: MaskType = self.masks[entity];
        assert(before != 0 ==> before | mask != 0) by (bit_vector);
        self.masks[entity] = before | mask;
        Ok(())
    }

    /// Takes `mask` from the mask of `entity`. Where that leaves the mask
    /// empty, the slot is free at once and the cursor comes down to it.
    /// Fails where `entity` is no slot.
    pub fn remove_component(&mut self, entity: Entity, mask: MaskType) -> (r: Result<(), String>)
        requires
            old(self).wf(),
        ensures
            final(self).wf(),
            r is Err <==> entity >= old(self)@.capacity,
            r matches Err(msg) ==> msg@ == "Out of bounds entity for deleting component"@ && final(self)@
                == old(self)@,
            r is Ok ==> final(self)@ == (StoreView {
                masks: untagged(old(self)@.masks, entity as int, mask),
                cursor: if untagged(old(self)@.masks, entity as int, mask)[entity as int] == Mask::EMPTY
                    && entity < old(self)@.cursor {
                    entity as nat
                } else {
                    old(self)@.cursor
                },
                ..old(self)@
            }),
    {
        if entity >= self.capacity {
            return Err("Out of bounds entity for deleting component".to_owned());
        }
        let m: MaskType = self.masks[entity];
        self.masks[entity] = m & !mask;
        if self.masks[entity] == Mask::EMPTY && entity < self.next_entity_id {
            self.next_entity_id = entity;
        }
        Ok(())
    }

    /// Whether `entity` is a slot whose mask has every bit of `mask`.
    pub fn has_component(&self, entity: Entity, mask: MaskType) -> (r: bool)
        requires
            self.wf(),
        ensures
            r == (entity < self@.capacity && has_bits(self@.masks[entity as int], mask)),
    {
        if entity >= self.capacity {
            return false;
        }
        self.masks[entity] & mask == mask
    }

    /// The slots whose mask has every bit of `mask`, in rising order.
    pub fn matching_entities(&self, mask: MaskType) -> (found: Vec<Entity>)
        requires
            self.wf(),
        ensures
            forall|k: int|
                0 <= k < found@.len() ==> (#[trigger] found@[k]) < self@.capacity && has_bits(
                    self@.masks[found@[k] as int],
                    mask,
                ),
            forall|k: int, l: int| 0 <= k < l < found@.len() ==> found@[k] < found@[l],
            forall|e: int|
                0 <= e < self@.capacity && has_bits(#[trigger] self@.masks[e], mask) ==> found@.contains(
                    e as usize,
                ),
    {
        let mut found: Vec<Entity> = Vec::new();
        let mut entity: usize = 0;
        while entity < self.capacity
            invariant
                entity <= self.capacity,
                self.wf(),
                forall|k: int|
                    0 <= k < found@.len() ==> (#[trigger] found@[k]) < entity && has_bits(
                        self@.masks[found@[k] as int],
                        mask,
                    ),
                forall|k: int, l: int| 0 <= k < l < found@.len() ==> found@[k] < found@[l],
                forall|e: int|
                    0 <= e < entity && has_bits(#[trigger] self@.masks[e], mask) ==> found@.contains(
                        e as usize,
                    ),
            decreases self.capacity - entity,
        {
            if self.masks[entity] & mask == mask {
                let ghost before = found@;
                found.push(entity);
                proof {
                    assert(found@[before.len() as int] == entity);
                    assert forall|e: int|
                        0 <= e < entity + 1 && has_bits(#[trigger] self@.masks[e], mask) implies found@.contains(
                        e as usize,
                    ) by {
                        if e < entity {
                            let k = choose|k: int| 0 <= k < before.len() && before[k] == e as usize;
                            assert(found@[k] == e as usize);
                        }
                    }
                }
            }
            entity += 1;
        }
        found
    }

    /// Clears the mask and the flag of every slot flagged for deletion,
    /// lowers the count of pending deletions by one for each flag cleared,
    /// and puts the cursor on the lowest free slot, or past the last slot
    /// where none is free.
    pub fn sweep(&mut self)
        requires
            old(self).wf(),
        ensures
            final(self).wf(),
            first_free_or_len(final(self)@.masks, final(self)@.cursor as int),
            final(self)@ == (StoreView {
                masks: swept(old(self)@.masks, old(self)@.deleted),
                deleted: Seq::new(old(self)@.capacity, |i: int| false),
                pending: (old(self)@.pending - count_true(old(self)@.deleted)) as nat,
                cursor: final(self)@.cursor,
                ..old(self)@
            }),
    {
        let capacity = self.capacity;
        let mut found: bool = false;
        let mut i: usize = 0;
        while i < capacity
            invariant
                i <= capacity,
                capacity == self.capacity,
                self@ == (StoreView {
                    masks: self@.masks,
                    deleted: self@.deleted,
                    pending: self@.pending,
                    cursor: self@.cursor,
                    ..old(self)@
                }),
                old(self).wf(),
                self@.columns_have(capacity as nat),
                self@.pending >= count_true(self@.deleted),
                self@.pending - count_true(self@.deleted) == old(self)@.pending - count_true(
                    old(self)@.deleted,
                ),
                forall|j: int| 0 <= j < i ==> #[trigger] self@.masks[j] == swept(old(self)@.masks, old(self)@.deleted)[j],
                forall|j: int| 0 <= j < i ==> !#[trigger] self@.deleted[j],
                forall|j: int| i <= j < capacity ==> #[trigger] self@.masks[j] == old(self)@.masks[j],
                forall|j: int| i <= j < capacity ==> #[trigger] self@.deleted[j] == old(self)@.deleted[j],
                found ==> self@.cursor < i && is_lowest_free(self@.masks, self@.cursor as int),
                !found ==> forall|j: int| 0 <= j < i ==> #[trigger] self@.masks[j] != Mask::EMPTY,
            decreases capacity - i,
        {
            if self.entities_to_delete > 0 && self.deleted[i] {
                proof {
                    lemma_count_update(self.deleted@, i as int, false);
                }
                self.entities_to_delete -= 1;
                self.masks[i] = Mask::EMPTY;
                self.deleted[i] = false;
            } else {
                proof {
                    lemma_count_bound(self.deleted@);
                    if self.deleted@[i as int] {
                        lemma_count_update(self.deleted@, i as int, false);
                    }
                }
            }
            if self.masks[i] == Mask::EMPTY && !found {
                self.next_entity_id = i;
                found = true;
            }
            i += 1;
        }
        if !found {
            self.next_entity_id = capacity;
        }
        proof {
            lemma_count_bound(self.deleted@);
            assert(self@.masks =~= swept(old(self)@.masks, old(self)@.deleted));
            assert(self@.deleted =~= Seq::new(old(self)@.capacity, |i: int| false));
        }
    }

    /// Writes the position of `entity`. Fails where `entity` is no slot.
    pub fn set_position(&mut self, entity: Entity, position: Vec3) -> (r: Result<(), String>)
        requires
            old(self).wf(),
        ensures
            final(self).wf(),
            r is Err <==> entity >= old(self)@.capacity,
            r matches Err(msg) ==> msg@ == "Out of bounds entity for writing component"@ && final(self)@
                == old(self)@,
            r is Ok ==> final(self)@ == (StoreView {
                positions: old(self)@.positions.update(entity as int, position),
                ..old(self)@
            }),
    {
        if entity >= self.capacity {
            return Err("Out of bounds entity for writing component".to_owned());
        }
        self.positions[entity] = position;
        Ok(())
    }

    /// Writes the velocity of `entity`. Fails where `entity` is no slot.
    pub fn set_velocity(&mut self, entity: Entity, velocity: (FixedNumber, FixedNumber)) -> (r: Result<(), String>)
        requires
            old(self).wf(),
        ensures
            final(self).wf(),
            r is Err <==> entity >= old(self)@.capacity,
            r matches Err(msg) ==> msg@ == "Out of bounds entity for writing component"@ && final(self)@
                == old(self)@,
            r is Ok ==> final(self)@ == (StoreView {
                velocities: old(self)@.velocities.update(entity as int, velocity),
                ..old(self)@
            }),
    {
        if entity >= self.capacity {
            return Err("Out of bounds entity for writing component".to_owned());
        }
        self.velocities[entity] = velocity;
        Ok(())
    }

    /// Writes the input snapshot of `entity`. Fails where `entity` is no slot.
    pub fn set_input(&mut self, entity: Entity, input: PlayerInput) -> (r: Result<(), String>)
        requires
            old(self).wf(),
        ensures
            final(self).wf(),
            r is Err <==> entity >= old(self)@.capacity,
            r matches Err(msg) ==> msg@ == "Out of bounds entity for writing component"@ && final(self)@
                == old(self)@,
            r is Ok ==> final(self)@ == (StoreView {
                inputs: old(self)@.inputs.update(entity as int, input),
                ..old(self)@
            }),
    {
        if entity >= self.capacity {
            return Err("Out of bounds entity for writing component".to_owned());
        }
        self.inputs[entity] = input;
        Ok(())
    }

    /// Writes the player that input is taken from of `entity`. Fails where `entity` is no slot.
    pub fn set_player_input_id(&mut self, entity: Entity, id: usize) -> (r: Result<(), String>)
        requires
            old(self).wf(),
        ensures
            final(self).wf(),
            r is Err <==> entity >= old(self)@.capacity,
            r matches Err(msg) ==> msg@ == "Out of bounds entity for writing component"@ && final(self)@
                == old(self)@,
            r is Ok ==> final(self)@ == (StoreView {
                player_input_id: old(self)@.player_input_id.update(entity as int, id),
                ..old(self)@
            }),
    {
        if entity >= self.capacity {
            return Err("Out of bounds entity for writing component".to_owned());
        }
        self.player_input_id[entity] = id;
        Ok(())
    }

    /// Writes the shape of `entity`. Fails where `entity` is no slot.
    pub fn set_shape(&mut self, entity: Entity, shape: Csg) -> (r: Result<(), String>)
        requires
            old(self).wf(),
        ensures
            final(self).wf(),
            r is Err <==> entity >= old(self)@.capacity,
            r matches Err(msg) ==> msg@ == "Out of bounds entity for writing component"@ && final(self)@
                == old(self)@,
            r is Ok ==> final(self)@ == (StoreView {
                shapes: old(self)@.shapes.update(entity as int, shape),
                ..old(self)@
            }),
    {
        if entity >= self.capacity {
            return Err("Out of bounds entity for writing component".to_owned());
        }
        self.shapes[entity] = shape;
        Ok(())
    }

    /// Writes the circle radius of `entity`. Fails where `entity` is no slot.
    pub fn set_circle(&mut self, entity: Entity, radius: FixedNumber) -> (r: Result<(), String>)
        requires
            old(self).wf(),
        ensures
            final(self).wf(),
            r is Err <==> entity >= old(self)@.capacity,
            r matches Err(msg) ==> msg@ == "Out of bounds entity for writing component"@ && final(self)@
                == old(self)@,
            r is Ok ==> final(self)@ == (StoreView {
                circles: old(self)@.circles.update(entity as int, radius),
                ..old(self)@
            }),
    {
        if entity >= self.capacity {
            return Err("Out of bounds entity for writing component".to_owned());
        }
        self.circles[entity] = radius;
        Ok(())
    }

    /// Hands an input snapshot to every entity that takes input from the
    /// snapshot's player: every slot whose mask has the input bit and the
    /// input-id bit and whose input id is the snapshot's.
    pub fn deposit_input(&mut self, input: PlayerInput)
        requires
            old(self).wf(),
        ensures
            final(self).wf(),
            final(self)@ == (StoreView {
                inputs: Seq::new(
                    old(self)@.capacity,
                    |e: int|
                        if takes_input(old(self)@, e, input) {
                            input
                        } else {
                            old(self)@.inputs[e]
                        },
                ),
                ..old(self)@
            }),
    {
        let capacity = self.capacity;
        let mut entity: usize = 0;
        while entity < capacity
            invariant
                entity <= capacity,
                capacity == self.capacity,
                old(self).wf(),
                self@ == (StoreView { inputs: self@.inputs, ..old(self)@ }),
                self@.inputs.len() == capacity,
                forall|e: int|
                    0 <= e < entity ==> #[trigger] self@.inputs[e] == if takes_input(old(self)@, e, input) {
                        input
                    } else {
                        old(self)@.inputs[e]
                    },
                forall|e: int| entity <= e < capacity ==> #[trigger] self@.inputs[e] == old(self)@.inputs[e],
            decreases capacity - entity,
        {
            if self.masks[entity] & INPUT_PASS == INPUT_PASS && self.player_input_id[entity]
                == input.player_input_id {
                self.inputs[entity] = input;
            }
            entity += 1;
        }
        proof {
            assert(self@.inputs =~= Seq::new(
                old(self)@.capacity,
                |e: int|
                    if takes_input(old(self)@, e, input) {
                        input
                    } else {
                        old(self)@.inputs[e]
                    },
            ));
        }
    }

    /// The masks, by slot.
    pub fn masks(&self) -> (c: &Vec<MaskType>)
        ensures
            c@ == self@.masks,
    {
        &self.masks
    }

    /// The deletion flags, by slot.
    pub fn deleted(&self) -> (c: &Vec<bool>)
        ensures
            c@ == self@.deleted,
    {
        &self.deleted
    }

    /// The positions, by slot.
    pub fn positions(&self) -> (c: &Vec<Vec3>)
        ensures
            c@ == self@.positions,
    {
        &self.positions
    }

    /// The velocities, by slot.
    pub fn velocities(&self) -> (c: &Vec<(FixedNumber, FixedNumber)>)
        ensures
            c@ == self@.velocities,
    {
        &self.velocities
    }

    /// The input snapshots, by slot.
    pub fn inputs(&self) -> (c: &Vec<PlayerInput>)
        ensures
            c@ == self@.inputs,
    {
        &self.inputs
    }

    /// The player that each slot takes its input from.
    pub fn player_input_id(&self) -> (c: &Vec<usize>)
        ensures
            c@ == self@.player_input_id,
    {
        &self.player_input_id
    }

    /// The shapes, by slot.
    pub fn shapes(&self) -> (c: &Vec<Csg>)
        ensures
            c@ == self@.shapes,
    {
        &self.shapes
    }

    /// The circle radii, by slot.
    pub fn circles(&self) -> (c: &Vec<FixedNumber>)
        ensures
            c@ == self@.circles,
    {
        &self.circles
    }
}

} // verus!
