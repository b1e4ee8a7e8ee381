//! The state that systems work on, the interface of a system, and the
//! pipeline that runs a list of systems in two phases.

use crate::ecs::store::EntityStore;
use crate::math::FixedNumber;
use crate::time::GameFrame;
use crate::voxels::chunk_manager::ChunkManager;
use crate::voxels::Voxel;
use vstd::prelude::*;

verus! {

/// Everything that a system may read and change during a tick.
pub struct Scene {
    /// The entities and their components.
    pub store: EntityStore,
    /// The voxel world.
    pub world_voxels: ChunkManager,
    /// The number of the current tick.
    pub frame: GameFrame,
    /// The length of the current tick, in simulation units.
    pub delta_t: FixedNumber,
}

impl Scene {
    /// The invariant of a scene: its store and its voxel world are well
    /// formed.
    pub open spec fn wf(&self) -> bool {
        &&& self.store.wf()
        &&& self.world_voxels.wf()
    }
}

/// What every phase of every system leaves as it is: the scene stays well
/// formed, the tick's number and length, the number of entity slots and
/// the shape of the voxel world do not change, and a slot that is flagged
/// for deletion stays flagged, so that no deletion takes effect before the
/// tick has ended.
pub open spec fn phase_keeps(before: Scene, after: Scene) -> bool {
    &&& after.wf()
    &&& after.frame == before.frame
    &&& after.delta_t == before.delta_t
    &&& after.store@.capacity == before.store@.capacity
    &&& after.world_voxels.dims() == before.world_voxels.dims()
    &&& after.world_voxels.frame() == before.world_voxels.frame()
    &&& forall|e: int|
        0 <= e < before.store@.capacity && before.store@.deleted[e] ==> #[trigger] after.store@.deleted[e]
}

/// A unit of simulation logic. Each tick it acts once and cleans up once;
/// the pipeline lets every system act before any system cleans up.
pub trait System: Sized {
    /// Whether acting can take this system and the scene `before` to
    /// `after_self` and `after`. A system that does not say more allows
    /// every outcome.
    open spec fn acts(&self, before: Scene, after_self: &Self, after: Scene) -> bool {
        true
    }

    /// Whether cleaning up can take this system and the scene `before` to
    /// `after_self` and `after`. A system that does not say more allows
    /// every outcome.
    open spec fn cleans(&self, before: Scene, after_self: &Self, after: Scene) -> bool {
        true
    }

    /// Whether a reset can take this system to `after_self`. A system that
    /// does not say more allows every outcome.
    open spec fn resets(&self, after_self: &Self) -> bool {
        true
    }

    /// Puts the system back to its starting state.
    fn reset(&mut self)
        ensures
            old(self).resets(final(self)),
    ;

    /// The first phase of a tick.
    fn act(&mut self, scene: &mut Scene)
        requires
            old(scene).wf(),
        ensures
            phase_keeps(*old(scene), *final(scene)),
            old(self).acts(*old(scene), final(self), *final(scene)),
    ;

    /// The second phase of a tick.
    fn cleanup(&mut self, scene: &mut Scene)
        requires
            old(scene).wf(),
        ensures
            phase_keeps(*old(scene), *final(scene)),
            old(self).cleans(*old(scene), final(self), *final(scene)),
    ;
}

/// Whether system `s` takes the scene `before` to `after` and itself to
/// `after_s` in the given phase.
pub open spec fn step_of<S: System>(cleaning: bool, s: S, before: Scene, after_s: S, after: Scene) -> bool {
    if cleaning {
        s.cleans(before, &after_s, after)
    } else {
        s.acts(before, &after_s, after)
    }
}

/// Whether `trace` is the run of one phase over the systems `before` in
/// order: system `i` takes `trace[i]` to `trace[i + 1]` and becomes
/// `after[i]`.
pub open spec fn phase_run<S: System>(cleaning: bool, before: Seq<S>, after: Seq<S>, trace: Seq<Scene>) -> bool {
    &&& after.len() == before.len()
    &&& trace.len() == before.len() + 1
    &&& forall|i: int|
        0 <= i < before.len() ==> step_of(cleaning, #[trigger] before[i], trace[i], after[i], trace[i + 1])
}

/// Whether the systems `before` take the scene `start` to `end` and
/// themselves to `after` in one phase.
pub open spec fn one_phase<S: System>(cleaning: bool, before: Seq<S>, after: Seq<S>, start: Scene, end: Scene) -> bool {
    exists|trace: Seq<Scene>|
        {
            &&& #[trigger] phase_run(cleaning, before, after, trace)
            &&& trace[0] == start
            &&& trace[before.len() as int] == end
        }
}

/// Whether the systems `before` take the scene `start` to `end` and
/// themselves to `after` in a whole tick: every system acts, in order, and
/// only then every system cleans up, in order.
pub open spec fn two_phases<S: System>(before: Seq<S>, after: Seq<S>, start: Scene, end: Scene) -> bool {
    exists|mid: Seq<S>, between: Scene|
        {
            &&& #[trigger] one_phase(false, before, mid, start, between)
            &&& one_phase(true, mid, after, between, end)
        }
}

/// Runs one phase of every system, in the order of the list.
pub fn run_phase<S: System>(cleaning: bool, systems: &mut Vec<S>, scene: &mut Scene)
    requires
        old(scene).wf(),
    ensures
        phase_keeps(*old(scene), *final(scene)),
        one_phase(cleaning, old(systems)@, final(systems)@, *old(scene), *final(scene)),
{
    let ghost mut trace: Seq<Scene> = seq![*scene];
    let count = systems.len();
    let mut i: usize = 0;
    while i < count
        invariant
            i <= count,
            count == systems@.len() == old(systems)@.len(),
            trace.len() == i + 1,
            trace[0] == *old(scene),
            trace[i as int] == *scene,
            phase_keeps(*old(scene), *scene),
            forall|j: int|
                0 <= j < i ==> step_of(
                    cleaning,
                    #[trigger] old(systems)@[j],
                    trace[j],
                    systems@[j],
                    trace[j + 1],
                ),
            forall|j: int| i <= j < count ==> #[trigger] systems@[j] == old(systems)@[j],
        decreases count - i,
    {
        if cleaning {
            systems[i].cleanup(scene);
        } else {
            systems[i].act(scene);
        }
        proof {
            trace = trace.push(*scene);
        }
        i += 1;
    }
    proof {
        assert(phase_run(cleaning, old(systems)@, systems@, trace));
    }
}

/// Runs a whole tick of the systems: every system acts, in the order of
/// the list, and then every system cleans up, in the same order.
pub fn run_phases<S: System>(systems: &mut Vec<S>, scene: &mut Scene)
    requires
        old(scene).wf(),
    ensures
        phase_keeps(*old(scene), *final(scene)),
        two_phases(old(systems)@, final(systems)@, *old(scene), *final(scene)),
{
    run_phase(false, systems, scene);
    let ghost mid = systems@;
    let ghost between = *scene;
    run_phase(true, systems, scene);
    proof {
        assert(one_phase(false, old(systems)@, mid, *old(scene), between));
        assert(one_phase(true, mid, systems@, between, *scene));
    }
}

/// Puts every system of the list back to its starting state.
pub fn reset_all<S: System>(systems: &mut Vec<S>)
    ensures
        final(systems)@.len() == old(systems)@.len(),
        forall|i: int|
            0 <= i < old(systems)@.len() ==> (#[trigger] old(systems)@[i]).resets(&final(systems)@[i]),
{
    let count = systems.len();
    let mut i: usize = 0;
    while i < count
        invariant
            i <= count,
            count == systems@.len() == old(systems)@.len(),
            forall|j: int| 0 <= j < i ==> (#[trigger] old(systems)@[j]).resets(&systems@[j]),
            forall|j: int| i <= j < count ==> #[trigger] systems@[j] == old(systems)@[j],
        decreases count - i,
    {
        systems[i].reset();
        i += 1;
    }
}

/// The number of ticks between two seedings of the voxel world.
pub const SEED_PERIOD: GameFrame = 15;

/// The system that seeds the voxel world: on every tick whose number is a
/// multiple of its period it writes its material into every cell with
/// three even coordinates of one chunk, the chunks taking turns by the
/// tick's number.
#[derive(Clone, Copy, Debug, PartialEq, Eq, Structural)]
pub struct VoxelSeeder {
    /// The number of ticks between two seedings; zero for never.
    pub period: GameFrame,
    /// The material that is written.
    pub material: Voxel,
}

impl VoxelSeeder {
    /// The seeder that [`VoxelSeeder::new`] makes.
    pub open spec fn new_spec() -> VoxelSeeder {
        VoxelSeeder { period: SEED_PERIOD, material: Voxel::Skin }
    }

    /// The seeder that writes skin every [`SEED_PERIOD`] ticks.
    pub fn new() -> (s: VoxelSeeder)
        ensures
            s == Self::new_spec(),
    {
        VoxelSeeder { period: SEED_PERIOD, material: Voxel::Skin }
    }

    /// Whether the seeder writes during the tick of `scene`.
    pub open spec fn fires(&self, scene: Scene) -> bool {
        &&& self.period > 0
        &&& scene.frame as int % self.period as int == 0
        &&& scene.world_voxels.grid().len() > 0
    }

    /// The flat index of the chunk that the seeder writes to during the
    /// tick of `scene`.
    pub open spec fn target(scene: Scene) -> int {
        scene.frame as int % scene.world_voxels.grid().len() as int
    }
}

impl System for VoxelSeeder {
    open spec fn acts(&self, before: Scene, after_self: &Self, after: Scene) -> bool {
        &&& *after_self == *self
        &&& after.store == before.store
        &&& after.frame == before.frame
        &&& after.delta_t == before.delta_t
        &&& if self.fires(before) {
            &&& after.world_voxels.dims() == before.world_voxels.dims()
            &&& after.world_voxels.frame() == before.world_voxels.frame()
            &&& after.world_voxels.stamp() == before.world_voxels.stamp()
            &&& after.world_voxels.grid().len() == before.world_voxels.grid().len()
            &&& forall|j: int|
                0 <= j < after.world_voxels.grid().len() && j != Self::target(before)
                    ==> #[trigger] after.world_voxels.grid()[j] == before.world_voxels.grid()[j]
            &&& before.world_voxels.grid()[Self::target(before)].seeded_to(
                &after.world_voxels.grid()[Self::target(before)],
                self.material,
            )
        } else {
            after.world_voxels == before.world_voxels
        }
    }

    open spec fn cleans(&self, before: Scene, after_self: &Self, after: Scene) -> bool {
        &&& *after_self == *self
        &&& after == before
    }

    open spec fn resets(&self, after_self: &Self) -> bool {
        *after_self == *self
    }

    fn reset(&mut self) {
    }

    fn act(&mut self, scene: &mut Scene) {
        let count = scene.world_voxels.len();
        if self.period > 0 && count > 0 && scene.frame % self.period == 0 {
            let i = scene.frame % count;
            scene.world_voxels.seed_even_cells(i, self.material);
        }
    }

    fn cleanup(&mut self, scene: &mut Scene) {
    }
}

} // verus!
