//! The world: entity store, voxel world, tick timer and systems behind one
//! facade.

use crate::ecs::store::{
    count_true, first_free_or_len, is_lowest_free, no_free, reset_position, swept, tagged, untagged,
    EntityStore, StoreView,
};
use crate::ecs::systems::{reset_all, run_phases, two_phases, Scene, System, VoxelSeeder};
use crate::ecs::{has_bits, Entity, Mask, MaskType, MAX_ENTITIES};
use crate::input::PlayerInput;
use crate::math::{FixedNumber, Vec3, SCALE};
use crate::shapes::Csg;
use crate::time::{gate_due, gate_left, GameFrame, TickGate, Timer};
use crate::voxels::chunk_manager::{ChunkManager, CHUNK_DEPTH, MAX_DISTANCE_FIELD};
use vstd::prelude::*;

verus! {

/// The number of entities that a reset puts into the world.
pub const SEEDED_ENTITIES: usize = 30;

/// The mask of an entity that a reset puts into the world.
pub const SEEDED_MASK: MaskType = 0x0022;

/// The mask of a player that has just been added.
pub const PLAYER_MASK: MaskType = 0x021a;

/// The radius of the circle of a player that has just been added.
pub const PLAYER_CIRCLE: i32 = 50;

/// The depth of the voxel world along each axis, in chunks.
pub const WORLD_DEPTH: usize = 2;

/// The position of the `i`-th entity that a reset puts into the world.
pub open spec fn seeded_position(i: int) -> Vec3 {
    Vec3 {
        x: FixedNumber { raw: ((1 + i) * SCALE) as i64 },
        y: FixedNumber { raw: SCALE },
        z: FixedNumber { raw: (i * SCALE) as i64 },
    }
}

/// The store right after a reset of the world: [`SEEDED_ENTITIES`]
/// entities are in.
pub open spec fn seeded_store() -> StoreView {
    seeding_store(SEEDED_ENTITIES as int)
}

/// The store in which the first `n` slots carry a position and a shape
/// and stand in a row, every other slot is free, and every other component
/// is at its reset value.
pub open spec fn seeding_store(n: int) -> StoreView {
    StoreView {
        masks: Seq::new(
            MAX_ENTITIES as nat,
            |i: int|
                if i < n {
                    SEEDED_MASK
                } else {
                    Mask::EMPTY
                },
        ),
        positions: Seq::new(
            MAX_ENTITIES as nat,
            |i: int|
                if i < n {
                    seeded_position(i)
                } else {
                    reset_position()
                },
        ),
        ..StoreView::pristine(MAX_ENTITIES as nat)
    }
}

/// Whether `started` is the scene `before` at the start of its next tick:
/// the tick's number is one higher, its length is one simulation unit,
/// and the voxel world and every chunk of it have been told the number.
pub open spec fn tick_started(before: Scene, started: Scene) -> bool {
    &&& started.frame == before.frame + 1
    &&& started.delta_t.raw == SCALE
    &&& started.store == before.store
    &&& started.world_voxels.dims() == before.world_voxels.dims()
    &&& started.world_voxels.stamp() == before.world_voxels.stamp()
    &&& started.world_voxels.frame() == started.frame
    &&& started.world_voxels.grid().len() == before.world_voxels.grid().len()
    &&& forall|i: int|
        0 <= i < started.world_voxels.grid().len() ==> {
            &&& (#[trigger] started.world_voxels.grid()[i]).frame() == started.frame
            &&& started.world_voxels.grid()[i].same_but_frame(&before.world_voxels.grid()[i])
        }
}

/// Whether `after` is the scene `before` with the deferred deletions
/// carried out: every slot that was flagged is free and unflagged, the
/// count of pending deletions is lower by the number of flags cleared, the
/// cursor stands on the lowest free slot (or past the last slot where none
/// is free), and nothing else has changed.
pub open spec fn tick_ended(before: Scene, after: Scene) -> bool {
    &&& after.frame == before.frame
    &&& after.delta_t == before.delta_t
    &&& after.world_voxels == before.world_voxels
    &&& after.store.wf()
    &&& first_free_or_len(after.store@.masks, after.store@.cursor as int)
    &&& after.store@ == (StoreView {
        masks: swept(before.store@.masks, before.store@.deleted),
        deleted: Seq::new(before.store@.capacity, |i: int| false),
        pending: (before.store@.pending - count_true(before.store@.deleted)) as nat,
        cursor: after.store@.cursor,
        ..before.store@
    })
}

/// The simulation: a store of [`MAX_ENTITIES`] entity slots, a voxel world
/// of [`WORLD_DEPTH`] chunks along each axis, the systems, and the timer
/// that says when a tick is due.
pub struct World {
    scene: Scene,
    timer: Timer,
    systems: Vec<VoxelSeeder>,
}

impl World {
    /// What the systems work on.
    pub closed spec fn scene(&self) -> Scene {
        self.scene
    }

    /// The systems, in the order in which they run.
    pub closed spec fn systems(&self) -> Seq<VoxelSeeder> {
        self.systems@
    }

    /// The accumulator of the timer.
    pub closed spec fn gate(&self) -> TickGate {
        self.timer.gate()
    }

    /// The invariant of a world.
    pub open spec fn wf(&self) -> bool {
        &&& self.scene().wf()
        &&& self.scene().store@.capacity == MAX_ENTITIES
    }

    /// Whether everything but the store is the same in `self` and
    /// `other`.
    pub open spec fn same_but_store(&self, other: &World) -> bool {
        &&& self.scene().world_voxels == other.scene().world_voxels
        &&& self.scene().frame == other.scene().frame
        &&& self.scene().delta_t == other.scene().delta_t
        &&& self.systems() == other.systems()
        &&& self.gate() == other.gate()
    }

    /// Whether a step of `self` can end in `after` with the outcome `r`.
    ///
    /// Where no tick is due, only the deferred deletions are carried out.
    /// Where one is due, the tick starts, every system acts, then every
    /// system cleans up, and then the deferred deletions are carried out.
    /// A due tick fails, and changes nothing, where the tick's number
    /// cannot go up any more.
    pub open spec fn stepped(&self, due: bool, after: &World, r: Result<(), String>) -> bool {
        if due && self.scene().frame == usize::MAX {
            &&& r matches Err(msg) && msg@ == "Frame counter exhausted"@
            &&& after.scene() == self.scene()
            &&& after.systems() == self.systems()
        } else if due {
            &&& r is Ok
            &&& exists|started: Scene, run: Scene|
                {
                    &&& #[trigger] tick_started(self.scene(), started)
                    &&& #[trigger] two_phases(self.systems(), after.systems(), started, run)
                    &&& tick_ended(run, after.scene())
                }
        } else {
            &&& r is Ok
            &&& after.systems() == self.systems()
            &&& tick_ended(self.scene(), after.scene())
        }
    }

    /// A world whose timer runs at `sim_hz` ticks per second, reset.
    pub fn new(sim_hz: u32) -> (w: World)
        ensures
            w.wf(),
            w.scene().store@ == seeded_store(),
            w.scene().frame == 0,
            w.scene().delta_t.raw == 0,
            w.scene().world_voxels.dims() == (WORLD_DEPTH as int, WORLD_DEPTH as int, WORLD_DEPTH as int),
            w.scene().world_voxels.grid().len() == 8,
            forall|i: int|
                0 <= i < 8 ==> (#[trigger] w.scene().world_voxels.grid()[i]).fresh(
                    CHUNK_DEPTH as int,
                    CHUNK_DEPTH as int,
                    CHUNK_DEPTH as int,
                    MAX_DISTANCE_FIELD,
                ),
            w.systems() == seq![VoxelSeeder::new_spec()],
            w.gate() == (TickGate { hz: sim_hz, accumulated: 0 }),
    {
        let mut systems: Vec<VoxelSeeder> = Vec::new();
        systems.push(VoxelSeeder::new());
        let mut world = World {
            timer: Timer::new(sim_hz),
            scene: Scene {
                store: EntityStore::new(MAX_ENTITIES),
                world_voxels: ChunkManager::new(WORLD_DEPTH, WORLD_DEPTH, WORLD_DEPTH),
                frame: 0,
                delta_t: FixedNumber::zero(),
            },
            systems,
        };
        let r = world.reset();
        proof {
            assert(world.systems() =~= seq![VoxelSeeder::new_spec()]);
        }
        world
    }

    /// A world around a given scene, with a timer that runs at `sim_hz`
    /// ticks per second and the systems of [`World::new`]. Gives `None`
    /// where the scene's store does not have [`MAX_ENTITIES`] slots.
    pub fn from_scene(scene: Scene, sim_hz: u32) -> (w: Option<World>)
        requires
            scene.wf(),
        ensures
            w is Some <==> scene.store@.capacity == MAX_ENTITIES,
            w matches Some(world) ==> {
                &&& world.wf()
                &&& world.scene() == scene
                &&& world.systems() == seq![VoxelSeeder::new_spec()]
                &&& world.gate() == (TickGate { hz: sim_hz, accumulated: 0 })
            },
    {
        if scene.store.capacity() != MAX_ENTITIES {
            return None;
        }
        let mut systems: Vec<VoxelSeeder> = Vec::new();
        systems.push(VoxelSeeder::new());
        let world = World { timer: Timer::new(sim_hz), scene, systems };
        proof {
            assert(world.systems() =~= seq![VoxelSeeder::new_spec()]);
        }
        Some(world)
    }

    /// Puts the world back to its starting state: every column at its
    /// reset value, every system reset, the tick counter at zero, and
    /// [`SEEDED_ENTITIES`] entities in a row. The voxel world and the timer
    /// stay as they are.
    pub fn reset(&mut self) -> (r: Result<(), String>)
        requires
            old(self).wf(),
        ensures
            r is Ok,
            final(self).wf(),
            final(self).scene().store@ == seeded_store(),
            final(self).scene().frame == 0,
            final(self).scene().delta_t == old(self).scene().delta_t,
            final(self).scene().world_voxels == old(self).scene().world_voxels,
            final(self).gate() == old(self).gate(),
            final(self).systems().len() == old(self).systems().len(),
            forall|i: int|
                0 <= i < old(self).systems().len() ==> (#[trigger] old(self).systems()[i]).resets(
                    &final(self).systems()[i],
                ),
    {
        self.scene.store.reset();
        reset_all(&mut self.systems);
        self.scene.frame = 0;

        proof {
            assert(self.scene.store@ =~= seeding_store(0)) by {
                assert(self.scene.store@.masks =~= seeding_store(0).masks);
                assert(self.scene.store@.positions =~= seeding_store(0).positions);
            }
            assert(Mask::SHAPE | Mask::POSITION == SEEDED_MASK && (0u32 | Mask::SHAPE) | Mask::POSITION
                == SEEDED_MASK) by (bit_vector);
        }
        let mut i: usize = 0;
        while i < SEEDED_ENTITIES
            invariant
                i <= SEEDED_ENTITIES,
                self.scene.store.wf(),
                self.scene.store@ == seeding_store(i as int),
                self.scene.frame == 0,
                self.scene.delta_t == old(self).scene.delta_t,
                self.scene.world_voxels == old(self).scene.world_voxels,
                self.timer == old(self).timer,
                self.systems@.len() == old(self).systems@.len(),
                forall|k: int|
                    0 <= k < old(self).systems@.len() ==> (#[trigger] old(self).systems@[k]).resets(
                        &self.systems@[k],
                    ),
                (0u32 | Mask::SHAPE) | Mask::POSITION == SEEDED_MASK,
            decreases SEEDED_ENTITIES - i,
        {
            let ghost before = self.scene.store@;
            match self.scene.store.add_entity() {
                Some(e) => {
                    proof {
                        // The lowest free slot is the next in the row.
                        if (e as int) < i {
                            assert(before.masks[e as int] == SEEDED_MASK);
                        }
                        if (e as int) > i {
                            assert(before.masks[i as int] == Mask::EMPTY);
                        }
                        assert(e == i);
                    }
                    match self.scene.store.add_component(e, Mask::SHAPE) {
                        Ok(()) => {},
                        Err(msg) => {
                            return Err(msg);
                        },
                    }
                    match self.scene.store.add_component(e, Mask::POSITION) {
                        Ok(()) => {},
                        Err(msg) => {
                            return Err(msg);
                        },
                    }
                    let position = Vec3::from_ints(1 + i as i32, 1, i as i32);
                    match self.scene.store.set_position(e, position) {
                        Ok(()) => {},
                        Err(msg) => {
                            return Err(msg);
                        },
                    }
                    proof {
                        let goal = seeding_store(i + 1);
                        assert(position == seeded_position(i as int));
                        assert(self.scene.store@.masks =~= goal.masks);
                        assert(self.scene.store@.positions =~= goal.positions);
                    }
                },
                None => {
                    proof {
                        assert(before.masks[i as int] == Mask::EMPTY);
                    }
                },
            }
            i += 1;
        }
        Ok(())
    }

    /// The number of entity slots.
    pub fn max_entities(&self) -> (n: usize)
        ensures
            n == MAX_ENTITIES,
    {
        MAX_ENTITIES
    }

    /// The length of the current tick: zero before the first tick, one
    /// simulation unit from then on.
    pub fn delta_t(&self) -> (d: FixedNumber)
        ensures
            d == self.scene().delta_t,
    {
        self.scene.delta_t
    }

    /// The number of the current tick.
    pub fn frame(&self) -> (f: GameFrame)
        ensures
            f == self.scene().frame,
    {
        self.scene.frame
    }

    /// The entities and their components.
    pub fn store(&self) -> (s: &EntityStore)
        ensures
            *s == self.scene().store,
    {
        &self.scene.store
    }

    /// The voxel world.
    pub fn world_voxels(&self) -> (m: &ChunkManager)
        ensures
            *m == self.scene().world_voxels,
    {
        &self.scene.world_voxels
    }

    /// The lowest free slot, or `None` where every slot is taken. The
    /// world does not change: the slot stays free until it is given a
    /// component.
    pub fn add_entity(&mut self) -> (r: Option<Entity>)
        requires
            old(self).wf(),
        ensures
            final(self).wf(),
            final(self).same_but_store(old(self)),
            final(self).scene().store@ == old(self).scene().store@,
            match r {
                Some(e) => is_lowest_free(old(self).scene().store@.masks, e as int),
                None => no_free(old(self).scene().store@.masks),
            },
    {
        self.scene.store.add_entity()
    }

    /// Flags `entity` for deletion and raises the count of pending
    /// deletions by one. Its components stay as they are until the next
    /// call of [`World::dispatch`]. Fails where `entity` is no slot.
    pub fn delete_entity(&mut self, entity: Entity) -> (r: Result<(), String>)
        requires
            old(self).wf(),
            old(self).scene().store@.pending < usize::MAX,
        ensures
            final(self).wf(),
            final(self).same_but_store(old(self)),
            r is Err <==> entity >= MAX_ENTITIES,
            r matches Err(msg) ==> msg@ == "Attempted to delete out of bounds entity."@ && final(self).scene().store@ == old(self).scene().store@,
            r is Ok ==> final(self).scene().store@ == (StoreView {
                deleted: old(self).scene().store@.deleted.update(entity as int, true),
                pending: old(self).scene().store@.pending + 1,
                ..old(self).scene().store@
            }),
    {
        self.scene.store.delete_entity(entity)
    }

    /// Adds `mask` to the mask of `entity`. Fails where `entity` is no
    /// slot.
    pub fn add_component(&mut self, entity: Entity, mask: MaskType) -> (r: Result<(), String>)
        requires
            old(self).wf(),
        ensures
            final(self).wf(),
            final(self).same_but_store(old(self)),
            r is Err <==> entity >= MAX_ENTITIES,
            r matches Err(msg) ==> msg@ == "Out of bounds entity for adding component"@ && final(self).scene().store@ == old(self).scene().store@,
            r is Ok ==> final(self).scene().store@ == (StoreView {
                masks: tagged(old(self).scene().store@.masks, entity as int, mask),
                ..old(self).scene().store@
            }),
    {
        self.scene.store.add_component(entity, mask)
    }

    /// Takes `mask` from the mask of `entity`. Fails where `entity` is no
    /// slot.
    pub fn remove_component(&mut self, entity: Entity, mask: MaskType) -> (r: Result<(), String>)
        requires
            old(self).wf(),
        ensures
            final(self).wf(),
            final(self).same_but_store(old(self)),
            r is Err <==> entity >= MAX_ENTITIES,
            r matches Err(msg) ==> msg@ == "Out of bounds entity for deleting component"@ && final(self).scene().store@ == old(self).scene().store@,
            r is Ok ==> final(self).scene().store@ == (StoreView {
                masks: untagged(old(self).scene().store@.masks, entity as int, mask),
                cursor: if untagged(old(self).scene().store@.masks, entity as int, mask)[entity as int]
                    == Mask::EMPTY && entity < old(self).scene().store@.cursor {
                    entity as nat
                } else {
                    old(self).scene().store@.cursor
                },
                ..old(self).scene().store@
            }),
    {
        self.scene.store.remove_component(entity, mask)
    }

    /// Whether `entity` is a slot whose mask has every bit of `mask`.
    pub fn has_component(&self, entity: Entity, mask: MaskType) -> (r: bool)
        requires
            self.wf(),
        ensures
            r == (entity < MAX_ENTITIES && has_bits(self.scene().store@.masks[entity as int], mask)),
    {
        self.scene.store.has_component(entity, mask)
    }

    /// Writes the position of `entity`. Fails where `entity` is no slot.
    pub fn set_position(&mut self, entity: Entity, position: Vec3) -> (r: Result<(), String>)
        requires
            old(self).wf(),
        ensures
            final(self).wf(),
            final(self).same_but_store(old(self)),
            r is Err <==> entity >= MAX_ENTITIES,
            r is Err ==> final(self).scene().store@ == old(self).scene().store@,
            r is Ok ==> final(self).scene().store@ == (StoreView {
                positions: old(self).scene().store@.positions.update(entity as int, position),
                ..old(self).scene().store@
            }),
    {
        self.scene.store.set_position(entity, position)
    }

    /// Writes the velocity of `entity`. Fails where `entity` is no slot.
    pub fn set_velocity(&mut self, entity: Entity, velocity: (FixedNumber, FixedNumber)) -> (r: Result<(), String>)
        requires
            old(self).wf(),
        ensures
            final(self).wf(),
            final(self).same_but_store(old(self)),
            r is Err <==> entity >= MAX_ENTITIES,
            r is Err ==> final(self).scene().store@ == old(self).scene().store@,
            r is Ok ==> final(self).scene().store@ == (StoreView {
                velocities: old(self).scene().store@.velocities.update(entity as int, velocity),
                ..old(self).scene().store@
            }),
    {
        self.scene.store.set_velocity(entity, velocity)
    }

    /// Writes the input snapshot of `entity`. Fails where `entity` is no slot.
    pub fn set_input(&mut self, entity: Entity, input: PlayerInput) -> (r: Result<(), String>)
        requires
            old(self).wf(),
        ensures
            final(self).wf(),
            final(self).same_but_store(old(self)),
            r is Err <==> entity >= MAX_ENTITIES,
            r is Err ==> final(self).scene().store@ == old(self).scene().store@,
            r is Ok ==> final(self).scene().store@ == (StoreView {
                inputs: old(self).scene().store@.inputs.update(entity as int, input),
                ..old(self).scene().store@
            }),
    {
        self.scene.store.set_input(entity, input)
    }

    /// Writes the player that input is taken from of `entity`. Fails where `entity` is no slot.
    pub fn set_player_input_id(&mut self, entity: Entity, id: usize) -> (r: Result<(), String>)
        requires
            old(self).wf(),
        ensures
            final(self).wf(),
            final(self).same_but_store(old(self)),
            r is Err <==> entity >= MAX_ENTITIES,
            r is Err ==> final(self).scene().store@ == old(self).scene().store@,
            r is Ok ==> final(self).scene().store@ == (StoreView {
                player_input_id: old(self).scene().store@.player_input_id.update(entity as int, id),
                ..old(self).scene().store@
            }),
    {
        self.scene.store.set_player_input_id(entity, id)
    }

    /// Writes the shape of `entity`. Fails where `entity` is no slot.
    pub fn set_shape(&mut self, entity: Entity, shape: Csg) -> (r: Result<(), String>)
        requires
            old(self).wf(),
        ensures
            final(self).wf(),
            final(self).same_but_store(old(self)),
            r is Err <==> entity >= MAX_ENTITIES,
            r is Err ==> final(self).scene().store@ == old(self).scene().store@,
            r is Ok ==> final(self).scene().store@ == (StoreView {
                shapes: old(self).scene().store@.shapes.update(entity as int, shape),
                ..old(self).scene().store@
            }),
    {
        self.scene.store.set_shape(entity, shape)
    }

    /// Writes the circle radius of `entity`. Fails where `entity` is no slot.
    pub fn set_circle(&mut self, entity: Entity, radius: FixedNumber) -> (r: Result<(), String>)
        requires
            old(self).wf(),
        ensures
            final(self).wf(),
            final(self).same_but_store(old(self)),
            r is Err <==> entity >= MAX_ENTITIES,
            r is Err ==> final(self).scene().store@ == old(self).scene().store@,
            r is Ok ==> final(self).scene().store@ == (StoreView {
                circles: old(self).scene().store@.circles.update(entity as int, radius),
                ..old(self).scene().store@
            }),
    {
        self.scene.store.set_circle(entity, radius)
    }

    /// Hands an input snapshot to every entity that takes input from the
    /// snapshot's player.
    pub fn apply_input(&mut self, input: PlayerInput)
        requires
            old(self).wf(),
        ensures
            final(self).wf(),
            final(self).same_but_store(old(self)),
            final(self).scene().store@ == (StoreView {
                inputs: Seq::new(
                    MAX_ENTITIES as nat,
                    |e: int|
                        if crate::ecs::store::takes_input(old(self).scene().store@, e, input) {
                            input
                        } else {
                            old(self).scene().store@.inputs[e]
                        },
                ),
                ..old(self).scene().store@
            }),
    {
        self.scene.store.deposit_input(input);
    }

    /// Takes the lowest free slot for a player: gives it a position, a
    /// circle, an input snapshot and an input id, sets the circle's radius
    /// to [`PLAYER_CIRCLE`] and the input id to `input_id`. Gives `None`,
    /// and changes nothing, where every slot is taken.
    pub fn add_player(&mut self, input_id: usize) -> (r: Result<Option<Entity>, String>)
        requires
            old(self).wf(),
        ensures
            final(self).wf(),
            final(self).same_but_store(old(self)),
            r is Ok,
            r matches Ok(Some(e)) ==> {
                &&& is_lowest_free(old(self).scene().store@.masks, e as int)
                &&& final(self).scene().store@ == (StoreView {
                    masks: old(self).scene().store@.masks.update(e as int, PLAYER_MASK),
                    circles: old(self).scene().store@.circles.update(
                        e as int,
                        FixedNumber { raw: (PLAYER_CIRCLE * SCALE) as i64 },
                    ),
                    player_input_id: old(self).scene().store@.player_input_id.update(e as int, input_id),
                    ..old(self).scene().store@
                })
            },
            r matches Ok(None) ==> {
                &&& no_free(old(self).scene().store@.masks)
                &&& final(self).scene().store@ == old(self).scene().store@
            },
    {
        match self.scene.store.add_entity() {
            Some(entity) => {
                proof {
                    assert((((0u32 | Mask::POSITION) | Mask::CIRCLE) | Mask::PLAYER_INPUT)
                        | Mask::PLAYER_INPUT_ID == PLAYER_MASK) by (bit_vector);
                }
                match self.scene.store.add_component(entity, Mask::POSITION) {
                    Ok(()) => {},
                    Err(msg) => {
                        return Err(msg);
                    },
                }
                match self.scene.store.add_component(entity, Mask::CIRCLE) {
                    Ok(()) => {},
                    Err(msg) => {
                        return Err(msg);
                    },
                }
                match self.scene.store.add_component(entity, Mask::PLAYER_INPUT) {
                    Ok(()) => {},
                    Err(msg) => {
                        return Err(msg);
                    },
                }
                match self.scene.store.add_component(entity, Mask::PLAYER_INPUT_ID) {
                    Ok(()) => {},
                    Err(msg) => {
                        return Err(msg);
                    },
                }
                match self.scene.store.set_circle(entity, FixedNumber::from_i32(PLAYER_CIRCLE)) {
                    Ok(()) => {},
                    Err(msg) => {
                        return Err(msg);
                    },
                }
                match self.scene.store.set_player_input_id(entity, input_id) {
                    Ok(()) => {},
                    Err(msg) => {
                        return Err(msg);
                    },
                }
                proof {
                    assert(self.scene.store@.masks =~= old(self).scene.store@.masks.update(
                        entity as int,
                        PLAYER_MASK,
                    ));
                }
                Ok(Some(entity))
            },
            None => Ok(None),
        }
    }

    /// One step of the simulation for a given answer of the timer. See
    /// [`World::stepped`] for what a step does. Whatever the systems do,
    /// every slot that was flagged for deletion before the step is free
    /// after it.
    pub fn step(&mut self, due: bool) -> (r: Result<(), String>)
        requires
            old(self).wf(),
        ensures
            final(self).wf(),
            final(self).gate() == old(self).gate(),
            old(self).stepped(due, final(self), r),
            r is Err <==> due && old(self).scene().frame == usize::MAX,
            r is Ok ==> forall|e: int|
                0 <= e < MAX_ENTITIES && old(self).scene().store@.deleted[e] ==> #[trigger] final(self).scene().store@.masks[e] == Mask::EMPTY,
    {
        if due {
            if self.scene.frame == usize::MAX {
                let r: Result<(), String> = Err("Frame counter exhausted".to_owned());
                assert(old(self).stepped(due, self, r));
                return r;
            }
            self.scene.frame += 1;
            self.scene.delta_t = FixedNumber::one();
            self.scene.world_voxels.update_frame(self.scene.frame);
            let ghost started = self.scene;
            run_phases(&mut self.systems, &mut self.scene);
            let ghost run = self.scene;
            self.scene.store.sweep();
            proof {
                assert(tick_started(old(self).scene(), started));
                assert(two_phases(old(self).systems(), self.systems(), started, run));
                assert(tick_ended(run, self.scene()));
            }
        } else {
            self.scene.store.sweep();
            proof {
                assert(tick_ended(old(self).scene(), self.scene()));
            }
        }
        let r: Result<(), String> = Ok(());
        assert(old(self).stepped(due, self, r));
        r
    }

    /// Asks the timer whether a tick is due and takes one step of the
    /// simulation for its answer. Whatever the timer says, every slot that
    /// was flagged for deletion before the call is free after it.
    pub fn dispatch(&mut self) -> (r: Result<(), String>)
        requires
            old(self).wf(),
        ensures
            final(self).wf(),
            final(self).gate().hz == old(self).gate().hz,
            exists|elapsed: u64|
                {
                    &&& old(self).stepped(
                        #[trigger] gate_due(old(self).gate().hz, old(self).gate().accumulated, elapsed),
                        final(self),
                        r,
                    )
                    &&& final(self).gate().accumulated == gate_left(
                        old(self).gate().hz,
                        old(self).gate().accumulated,
                        elapsed,
                    )
                },
            r is Err ==> old(self).scene().frame == usize::MAX,
            r is Ok ==> forall|e: int|
                0 <= e < MAX_ENTITIES && old(self).scene().store@.deleted[e] ==> #[trigger] final(self).scene().store@.masks[e] == Mask::EMPTY,
    {
        let due = self.timer.can_run();
        let ghost elapsed = choose|elapsed: u64|
            {
                &&& due == #[trigger] gate_due(old(self).gate().hz, old(self).gate().accumulated, elapsed)
                &&& self.gate().accumulated == gate_left(
                    old(self).gate().hz,
                    old(self).gate().accumulated,
                    elapsed,
                )
            };
        let ghost polled = *self;
        let r = self.step(due);
        proof {
            assert(polled.scene() == old(self).scene());
            assert(polled.systems() == old(self).systems());
            assert(polled.stepped(due, self, r));
            assert(old(self).stepped(
                gate_due(old(self).gate().hz, old(self).gate().accumulated, elapsed),
                self,
                r,
            ));
        }
        r
    }
}

} // verus!
