use sim_core::ecs::store::EntityStore;
use sim_core::ecs::systems::Scene;
use sim_core::ecs::world::World;
use sim_core::ecs::Mask;
use sim_core::input::PlayerInput;
use sim_core::math::{FixedNumber, Vec3};
use sim_core::voxels::chunk_manager::ChunkManager;
use sim_core::voxels::Voxel;

#[test]
fn new_world_seeds_thirty_entities() {
    let world = World::new(60);
    assert_eq!(world.max_entities(), 200);
    assert_eq!(world.store().capacity(), 200);
    assert_eq!(world.frame(), 0);
    assert_eq!(world.delta_t(), FixedNumber::zero());
    for e in 0..200usize {
        if e < 30 {
            assert_eq!(world.store().masks()[e], Mask::POSITION | Mask::SHAPE);
            assert!(world.has_component(e, Mask::POSITION));
            assert!(world.has_component(e, Mask::SHAPE));
            let i = e as i32;
            assert_eq!(world.store().positions()[e], Vec3::from_ints(1 + i, 1, i));
        } else {
            assert_eq!(world.store().masks()[e], Mask::EMPTY);
            assert_eq!(world.store().positions()[e], Vec3::new());
        }
    }
    assert_eq!(world.store().pending_deletions(), 0);
}

#[test]
fn new_world_has_eight_empty_chunks() {
    let world = World::new(60);
    assert_eq!(world.world_voxels().capacity(), (2, 2, 2));
    assert_eq!(world.world_voxels().len(), 8);
    for i in 0..8 {
        assert_eq!(world.world_voxels().chunk(i).capacity(), (16, 16, 16));
        assert_eq!(world.world_voxels().chunk(i).active_voxels(), 0);
    }
}

#[test]
fn world_hands_out_the_slots_after_the_seeded_ones() {
    let mut world = World::new(60);
    for n in 30..200 {
        let e = world.add_entity().unwrap();
        assert_eq!(e, n);
        world.add_component(e, Mask::VELOCITY).unwrap();
    }
    assert_eq!(world.add_entity(), None);
    assert_eq!(world.add_player(1), Ok(None));
}

#[test]
fn deleted_entity_lives_until_the_next_dispatch() {
    let mut world = World::new(60);
    world.delete_entity(4).unwrap();
    assert!(world.has_component(4, Mask::POSITION | Mask::SHAPE));
    assert_eq!(world.store().pending_deletions(), 1);
    assert_eq!(world.add_entity(), Some(30));

    world.dispatch().unwrap();
    assert_eq!(world.store().masks()[4], Mask::EMPTY);
    assert!(!world.has_component(4, Mask::POSITION));
    assert_eq!(world.store().pending_deletions(), 0);
    assert!(!world.store().deleted()[4]);
    assert_eq!(world.add_entity(), Some(4));
    // the others are untouched
    assert!(world.has_component(3, Mask::POSITION | Mask::SHAPE));
    assert!(world.has_component(5, Mask::POSITION | Mask::SHAPE));
}

#[test]
fn deletion_is_carried_out_whether_or_not_a_tick_is_due() {
    for due in [false, true] {
        let mut world = World::new(60);
        world.delete_entity(0).unwrap();
        world.delete_entity(29).unwrap();
        world.step(due).unwrap();
        assert_eq!(world.store().masks()[0], Mask::EMPTY);
        assert_eq!(world.store().masks()[29], Mask::EMPTY);
        assert_eq!(world.store().masks()[1], Mask::POSITION | Mask::SHAPE);
        assert_eq!(world.store().next_entity_id(), 0);
        assert_eq!(world.frame(), if due { 1 } else { 0 });
    }
}

#[test]
fn world_refuses_out_of_bounds_entities() {
    let mut world = World::new(60);
    assert_eq!(
        world.add_component(200, Mask::SHAPE),
        Err("Out of bounds entity for adding component".to_string())
    );
    assert_eq!(
        world.remove_component(200, Mask::SHAPE),
        Err("Out of bounds entity for deleting component".to_string())
    );
    assert_eq!(
        world.delete_entity(200),
        Err("Attempted to delete out of bounds entity.".to_string())
    );
    assert!(world.set_position(200, Vec3::new()).is_err());
    assert!(!world.has_component(200, Mask::EMPTY));
    assert_eq!(world.add_component(199, Mask::SHAPE), Ok(()));
    assert_eq!(world.remove_component(199, Mask::SHAPE), Ok(()));
    assert_eq!(world.delete_entity(199), Ok(()));
    assert_eq!(world.set_position(199, Vec3::from_ints(1, 1, 1)), Ok(()));
}

#[test]
fn world_components_are_idempotent() {
    let mut world = World::new(60);
    world.add_component(40, Mask::VELOCITY | Mask::CIRCLE).unwrap();
    let once = world.store().masks()[40];
    world.add_component(40, Mask::VELOCITY | Mask::CIRCLE).unwrap();
    assert_eq!(world.store().masks()[40], once);
    world.remove_component(40, Mask::CIRCLE).unwrap();
    assert_eq!(world.store().masks()[40], Mask::VELOCITY);
    world.remove_component(40, Mask::CIRCLE).unwrap();
    assert_eq!(world.store().masks()[40], Mask::VELOCITY);
}

#[test]
fn add_player_wires_the_input_components() {
    let mut world = World::new(60);
    assert_eq!(world.add_player(3), Ok(Some(30)));
    assert_eq!(
        world.store().masks()[30],
        Mask::POSITION | Mask::CIRCLE | Mask::PLAYER_INPUT | Mask::PLAYER_INPUT_ID
    );
    assert_eq!(world.store().circles()[30], FixedNumber::from_i32(50));
    assert_eq!(world.store().player_input_id()[30], 3);
    assert_eq!(world.store().positions()[30], Vec3::new());
    assert_eq!(world.add_player(4), Ok(Some(31)));
    assert_eq!(world.store().player_input_id()[31], 4);
    assert_eq!(world.store().masks()[32], Mask::EMPTY);
}

#[test]
fn apply_input_reaches_the_player() {
    let mut world = World::new(60);
    world.add_player(3).unwrap();
    world.add_player(4).unwrap();
    let input = PlayerInput { player_input_id: 4, up: false, down: true, left: false, right: false };
    world.apply_input(input);
    assert_eq!(world.store().inputs()[30], PlayerInput::new());
    assert_eq!(world.store().inputs()[31], input);
    assert_eq!(world.store().inputs()[0], PlayerInput::new());
}

#[test]
fn a_due_tick_advances_the_frame_by_one() {
    let mut world = World::new(60);
    world.step(true).unwrap();
    assert_eq!(world.frame(), 1);
    assert_eq!(world.delta_t(), FixedNumber::one());
    world.step(false).unwrap();
    assert_eq!(world.frame(), 1);
    assert_eq!(world.delta_t(), FixedNumber::one());
    world.step(true).unwrap();
    assert_eq!(world.frame(), 2);
}

#[test]
fn every_fifteenth_tick_seeds_one_chunk() {
    let mut world = World::new(60);
    for _ in 0..14 {
        world.step(true).unwrap();
    }
    for i in 0..8 {
        assert_eq!(world.world_voxels().chunk(i).active_voxels(), 0);
    }
    world.step(true).unwrap();
    assert_eq!(world.frame(), 15);
    for i in 0..8 {
        let chunk = world.world_voxels().chunk(i);
        if i == 15 % 8 {
            assert_eq!(chunk.active_voxels(), 512);
            assert_eq!(chunk.last_update(), 15);
            assert_eq!(chunk.voxel(0, 0, 0), Voxel::Skin);
            assert_eq!(chunk.voxel(2, 4, 14), Voxel::Skin);
            assert_eq!(chunk.voxel(1, 0, 0), Voxel::Empty);
            // 512 cells of skin: 563200 units, / 100 = 5632, / 100 in fixed point
            assert_eq!(chunk.mass().raw, 5632 * 4096 / 100);
        } else {
            assert_eq!(chunk.active_voxels(), 0);
            assert_eq!(chunk.last_update(), 0);
        }
    }
    for _ in 0..15 {
        world.step(true).unwrap();
    }
    assert_eq!(world.frame(), 30);
    assert_eq!(world.world_voxels().chunk(30 % 8).active_voxels(), 512);
    assert_eq!(world.world_voxels().chunk(7).active_voxels(), 512);
    assert_eq!(world.world_voxels().chunk(0).active_voxels(), 0);
}

#[test]
fn dispatch_follows_the_timer() {
    // a rate of zero: no tick is ever due
    let mut idle = World::new(0);
    for _ in 0..20 {
        idle.dispatch().unwrap();
    }
    assert_eq!(idle.frame(), 0);
    assert_eq!(idle.delta_t(), FixedNumber::zero());

    // a tick that lasts no time at all: every call is a tick
    let mut eager = World::new(u32::MAX);
    for n in 1..=20 {
        eager.dispatch().unwrap();
        assert_eq!(eager.frame(), n);
    }
    assert_eq!(eager.delta_t(), FixedNumber::one());
    assert_eq!(eager.world_voxels().chunk(15 % 8).active_voxels(), 512);
}

#[test]
fn reset_brings_the_seeded_world_back() {
    let mut world = World::new(60);
    world.add_player(1).unwrap();
    world.delete_entity(2).unwrap();
    world.set_position(5, Vec3::from_ints(9, 9, 9)).unwrap();
    for _ in 0..15 {
        world.step(true).unwrap();
    }
    assert_eq!(world.reset(), Ok(()));
    let fresh = World::new(60);
    assert_eq!(world.frame(), 0);
    assert_eq!(world.store().masks(), fresh.store().masks());
    assert_eq!(world.store().positions(), fresh.store().positions());
    assert_eq!(world.store().circles(), fresh.store().circles());
    assert_eq!(world.store().player_input_id(), fresh.store().player_input_id());
    assert_eq!(world.store().deleted(), fresh.store().deleted());
    assert_eq!(world.store().pending_deletions(), 0);
    // the voxel world is not reset
    assert_eq!(world.world_voxels().chunk(7).active_voxels(), 512);
}

#[test]
fn world_component_slots_can_be_written() {
    let mut world = World::new(60);
    let input = PlayerInput { player_input_id: 6, up: true, down: true, left: false, right: false };
    let shape = sim_core::shapes::Csg::Sphere { radius: FixedNumber::from_i32(2) };
    let speed = (FixedNumber::from_i32(3), FixedNumber::from_i32(-3));
    assert_eq!(world.set_velocity(40, speed), Ok(()));
    assert_eq!(world.set_input(40, input), Ok(()));
    assert_eq!(world.set_player_input_id(40, 6), Ok(()));
    assert_eq!(world.set_shape(40, shape), Ok(()));
    assert_eq!(world.set_circle(40, FixedNumber::from_i32(7)), Ok(()));
    assert_eq!(world.store().velocities()[40], speed);
    assert_eq!(world.store().inputs()[40], input);
    assert_eq!(world.store().player_input_id()[40], 6);
    assert_eq!(world.store().shapes()[40], shape);
    assert_eq!(world.store().circles()[40], FixedNumber::from_i32(7));
    assert_eq!(world.store().masks()[40], Mask::EMPTY);
    assert!(world.set_velocity(200, speed).is_err());
    assert!(world.set_input(200, input).is_err());
    assert!(world.set_player_input_id(200, 6).is_err());
    assert!(world.set_shape(200, shape).is_err());
    assert!(world.set_circle(200, FixedNumber::one()).is_err());
}

#[test]
fn a_world_can_be_made_around_a_scene() {
    let scene = Scene {
        store: EntityStore::new(200),
        world_voxels: ChunkManager::new(1, 1, 1),
        frame: 14,
        delta_t: FixedNumber::zero(),
    };
    let mut world = World::from_scene(scene, 60).unwrap();
    assert_eq!(world.frame(), 14);
    assert!(world.store().masks().iter().all(|m| *m == Mask::EMPTY));
    world.step(true).unwrap();
    assert_eq!(world.frame(), 15);
    assert_eq!(world.world_voxels().chunk(0).active_voxels(), 512);

    let small = Scene {
        store: EntityStore::new(199),
        world_voxels: ChunkManager::new(1, 1, 1),
        frame: 0,
        delta_t: FixedNumber::zero(),
    };
    assert!(World::from_scene(small, 60).is_none());
}

#[test]
fn a_tick_fails_once_the_frame_counter_is_exhausted() {
    let scene = Scene {
        store: EntityStore::new(200),
        world_voxels: ChunkManager::new(1, 1, 1),
        frame: usize::MAX - 1,
        delta_t: FixedNumber::zero(),
    };
    let mut world = World::from_scene(scene, 60).unwrap();
    world.add_component(5, Mask::SHAPE).unwrap();
    world.delete_entity(5).unwrap();
    assert_eq!(world.step(true), Ok(()));
    assert_eq!(world.frame(), usize::MAX);
    assert_eq!(world.store().masks()[5], Mask::EMPTY);

    world.add_component(6, Mask::SHAPE).unwrap();
    world.delete_entity(6).unwrap();
    assert_eq!(world.step(true), Err("Frame counter exhausted".to_string()));
    assert_eq!(world.frame(), usize::MAX);
    // nothing has changed: the deletion is still pending
    assert_eq!(world.store().masks()[6], Mask::SHAPE);
    assert_eq!(world.store().pending_deletions(), 1);
    // without a due tick the step succeeds and sweeps
    assert_eq!(world.step(false), Ok(()));
    assert_eq!(world.store().masks()[6], Mask::EMPTY);
}

#[test]
fn every_deletion_call_counts() {
    let mut world = World::new(60);
    world.delete_entity(7).unwrap();
    world.delete_entity(7).unwrap();
    world.delete_entity(8).unwrap();
    assert_eq!(world.store().pending_deletions(), 3);
    assert!(world.has_component(7, Mask::SHAPE));
    world.dispatch().unwrap();
    assert_eq!(world.store().masks()[7], Mask::EMPTY);
    assert_eq!(world.store().masks()[8], Mask::EMPTY);
    // two flags were cleared
    assert_eq!(world.store().pending_deletions(), 1);
    assert_eq!(world.add_entity(), Some(7));
}
