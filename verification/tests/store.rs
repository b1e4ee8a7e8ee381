use sim_core::ecs::store::EntityStore;
use sim_core::ecs::{bits_disjoint, Mask};
use sim_core::input::PlayerInput;
use sim_core::math::{FixedNumber, Vec3};
use sim_core::shapes::Csg;

#[test]
fn declared_bits_do_not_overlap() {
    let bits = vec![
        Mask::DELETED,
        Mask::POSITION,
        Mask::VELOCITY,
        Mask::PLAYER_INPUT,
        Mask::PLAYER_INPUT_ID,
        Mask::SHAPE,
        Mask::CIRCLE,
    ];
    assert!(bits_disjoint(&bits));
    for bit in bits.iter() {
        assert_eq!(bit.count_ones(), 1);
    }
    assert_eq!(Mask::EMPTY, 0);
    assert!(!bits_disjoint(&vec![0b0011, 0b0100, 0b0010]));
    assert!(bits_disjoint(&vec![]));
}

#[test]
fn every_mask_is_empty_at_first() {
    for capacity in [0usize, 1, 7, 200] {
        let store = EntityStore::new(capacity);
        assert_eq!(store.capacity(), capacity);
        assert_eq!(store.masks().len(), capacity);
        assert!(store.masks().iter().all(|m| *m == Mask::EMPTY));
        assert!(store.deleted().iter().all(|d| !*d));
        assert_eq!(store.pending_deletions(), 0);
        assert_eq!(store.next_entity_id(), 0);
        assert_eq!(store.positions().len(), capacity);
        assert!(store.positions().iter().all(|p| *p == Vec3::new()));
        assert!(store.velocities().iter().all(|v| v.0.raw == 0 && v.1.raw == 0));
        assert!(store.inputs().iter().all(|i| *i == PlayerInput::new()));
        assert!(store.player_input_id().iter().all(|i| *i == 0));
        assert!(store.shapes().iter().all(|s| *s == Csg::unit_sphere()));
        assert!(store.circles().iter().all(|c| *c == FixedNumber::one()));
    }
}

#[test]
fn handles_come_out_in_rising_order_until_the_store_is_full() {
    let capacity = 200;
    let mut store = EntityStore::new(capacity);
    let mut last: Option<usize> = None;
    for n in 0..capacity {
        let e = store.add_entity().unwrap();
        assert_eq!(e, n);
        if let Some(l) = last {
            assert!(l < e);
        }
        last = Some(e);
        store.add_component(e, Mask::POSITION).unwrap();
    }
    assert_eq!(store.add_entity(), None);
    assert_eq!(store.add_entity(), None);
}

#[test]
fn a_handle_is_given_again_until_it_carries_a_component() {
    let mut store = EntityStore::new(4);
    assert_eq!(store.add_entity(), Some(0));
    assert_eq!(store.add_entity(), Some(0));
    store.add_component(0, Mask::EMPTY).unwrap();
    assert_eq!(store.add_entity(), Some(0));
    store.add_component(0, Mask::SHAPE).unwrap();
    assert_eq!(store.add_entity(), Some(1));
}

#[test]
fn store_without_slots_is_full() {
    let mut store = EntityStore::new(0);
    assert_eq!(store.add_entity(), None);
    assert!(store.add_component(0, Mask::SHAPE).is_err());
    store.sweep();
    assert_eq!(store.next_entity_id(), 0);
}

#[test]
fn adding_a_component_twice_is_adding_it_once() {
    let mut store = EntityStore::new(8);
    store.add_component(3, Mask::SHAPE).unwrap();
    store.add_component(3, Mask::POSITION | Mask::CIRCLE).unwrap();
    let once = store.masks()[3];
    assert_eq!(once, Mask::SHAPE | Mask::POSITION | Mask::CIRCLE);
    store.add_component(3, Mask::POSITION | Mask::CIRCLE).unwrap();
    assert_eq!(store.masks()[3], once);
    for (e, mask) in store.masks().iter().enumerate() {
        if e != 3 {
            assert_eq!(*mask, Mask::EMPTY);
        }
    }
}

#[test]
fn removing_a_component_clears_its_bits_only() {
    let mut store = EntityStore::new(8);
    store.add_component(2, Mask::SHAPE | Mask::POSITION | Mask::VELOCITY).unwrap();
    store.remove_component(2, Mask::POSITION | Mask::CIRCLE).unwrap();
    assert_eq!(store.masks()[2], Mask::SHAPE | Mask::VELOCITY);
    store.remove_component(2, Mask::POSITION | Mask::CIRCLE).unwrap();
    assert_eq!(store.masks()[2], Mask::SHAPE | Mask::VELOCITY);
}

#[test]
fn has_component_needs_every_bit() {
    let mut store = EntityStore::new(8);
    store.add_component(1, Mask::SHAPE | Mask::POSITION).unwrap();
    assert!(store.has_component(1, Mask::SHAPE));
    assert!(store.has_component(1, Mask::SHAPE | Mask::POSITION));
    assert!(!store.has_component(1, Mask::SHAPE | Mask::CIRCLE));
    assert!(store.has_component(1, Mask::EMPTY));
    assert!(!store.has_component(0, Mask::SHAPE));
    assert!(!store.has_component(8, Mask::SHAPE));
    assert!(!store.has_component(8, Mask::EMPTY));
    assert!(!store.has_component(usize::MAX, Mask::EMPTY));
}

#[test]
fn out_of_bounds_entities_are_refused() {
    let mut store = EntityStore::new(8);
    assert_eq!(
        store.add_component(8, Mask::SHAPE),
        Err("Out of bounds entity for adding component".to_string())
    );
    assert_eq!(
        store.remove_component(8, Mask::SHAPE),
        Err("Out of bounds entity for deleting component".to_string())
    );
    assert_eq!(
        store.delete_entity(8),
        Err("Attempted to delete out of bounds entity.".to_string())
    );
    let refused = Err("Out of bounds entity for writing component".to_string());
    assert_eq!(store.set_position(8, Vec3::from_ints(1, 2, 3)), refused);
    assert_eq!(store.set_velocity(9, (FixedNumber::one(), FixedNumber::one())), refused);
    assert_eq!(store.set_input(10, PlayerInput::new()), refused);
    assert_eq!(store.set_player_input_id(11, 4), refused);
    assert_eq!(store.set_shape(12, Csg::unit_sphere()), refused);
    assert_eq!(store.set_circle(usize::MAX, FixedNumber::one()), refused);
    assert!(store.masks().iter().all(|m| *m == Mask::EMPTY));
    assert_eq!(store.pending_deletions(), 0);
    assert_eq!(store.add_component(7, Mask::SHAPE), Ok(()));
    assert_eq!(store.delete_entity(7), Ok(()));
}

#[test]
fn component_slots_can_be_written() {
    let mut store = EntityStore::new(4);
    let input = PlayerInput { player_input_id: 2, up: true, down: false, left: true, right: false };
    let shape = Csg::Sphere { radius: FixedNumber::from_i32(5) };
    store.set_position(1, Vec3::from_ints(1, 2, 3)).unwrap();
    store.set_velocity(1, (FixedNumber::from_i32(4), FixedNumber::from_i32(-4))).unwrap();
    store.set_input(1, input).unwrap();
    store.set_player_input_id(1, 9).unwrap();
    store.set_shape(1, shape).unwrap();
    store.set_circle(1, FixedNumber::from_i32(50)).unwrap();
    assert_eq!(store.positions()[1], Vec3::from_ints(1, 2, 3));
    assert_eq!(store.velocities()[1], (FixedNumber::from_i32(4), FixedNumber::from_i32(-4)));
    assert_eq!(store.inputs()[1], input);
    assert_eq!(store.player_input_id()[1], 9);
    assert_eq!(store.shapes()[1], shape);
    assert_eq!(store.circles()[1], FixedNumber::from_i32(50));
    assert_eq!(store.positions()[0], Vec3::new());
    assert_eq!(store.positions()[2], Vec3::new());
    assert_eq!(store.masks()[1], Mask::EMPTY);
}

#[test]
fn deletion_waits_for_the_sweep() {
    let mut store = EntityStore::new(6);
    for e in 0..4 {
        store.add_component(e, Mask::SHAPE | Mask::POSITION).unwrap();
    }
    store.delete_entity(1).unwrap();
    assert_eq!(store.pending_deletions(), 1);
    // every call counts, also for a slot that is flagged already
    store.delete_entity(1).unwrap();
    assert_eq!(store.pending_deletions(), 2);
    store.delete_entity(3).unwrap();
    assert_eq!(store.pending_deletions(), 3);
    assert!(store.has_component(1, Mask::SHAPE | Mask::POSITION));
    assert!(store.has_component(3, Mask::SHAPE));
    assert_eq!(store.add_entity(), Some(4));

    store.sweep();
    // two flags were cleared: the count comes down by two
    assert_eq!(store.pending_deletions(), 1);
    assert_eq!(store.masks(), &vec![0x22, 0, 0x22, 0, 0, 0]);
    assert!(store.deleted().iter().all(|d| !*d));
    assert!(!store.has_component(1, Mask::SHAPE));
    assert_eq!(store.next_entity_id(), 1);
    assert_eq!(store.add_entity(), Some(1));
    // a later sweep finds no flag and leaves the count as it is
    store.sweep();
    assert_eq!(store.pending_deletions(), 1);
    assert_eq!(store.masks(), &vec![0x22, 0, 0x22, 0, 0, 0]);
    store.reset();
    assert_eq!(store.pending_deletions(), 0);
}

#[test]
fn sweep_puts_the_cursor_on_the_lowest_free_slot() {
    let mut store = EntityStore::new(3);
    store.sweep();
    assert_eq!(store.next_entity_id(), 0);
    store.add_component(0, Mask::SHAPE).unwrap();
    store.add_component(1, Mask::SHAPE).unwrap();
    store.sweep();
    assert_eq!(store.next_entity_id(), 2);
    store.add_component(2, Mask::SHAPE).unwrap();
    store.sweep();
    assert_eq!(store.next_entity_id(), 3);
    assert_eq!(store.add_entity(), None);
    // a slot that loses its last component is free at once
    store.remove_component(1, Mask::SHAPE).unwrap();
    assert_eq!(store.next_entity_id(), 1);
    assert_eq!(store.add_entity(), Some(1));
    store.delete_entity(0).unwrap();
    store.sweep();
    assert_eq!(store.next_entity_id(), 0);
    assert_eq!(store.add_entity(), Some(0));
}

#[test]
fn reset_after_use_is_like_new() {
    let mut store = EntityStore::new(5);
    store.add_component(0, Mask::SHAPE).unwrap();
    store.add_component(4, Mask::CIRCLE).unwrap();
    store.delete_entity(4).unwrap();
    store.set_position(2, Vec3::from_ints(7, 8, 9)).unwrap();
    store.set_circle(3, FixedNumber::from_i32(3)).unwrap();
    store.set_player_input_id(1, 5).unwrap();
    store.sweep();
    store.reset();
    let fresh = EntityStore::new(5);
    assert_eq!(store.capacity(), fresh.capacity());
    assert_eq!(store.masks(), fresh.masks());
    assert_eq!(store.deleted(), fresh.deleted());
    assert_eq!(store.positions(), fresh.positions());
    assert_eq!(store.velocities(), fresh.velocities());
    assert_eq!(store.inputs(), fresh.inputs());
    assert_eq!(store.player_input_id(), fresh.player_input_id());
    assert_eq!(store.shapes(), fresh.shapes());
    assert_eq!(store.circles(), fresh.circles());
    assert_eq!(store.pending_deletions(), 0);
    assert_eq!(store.next_entity_id(), 0);
}

#[test]
fn matching_entities_are_listed_in_order() {
    let mut store = EntityStore::new(6);
    store.add_component(0, Mask::SHAPE).unwrap();
    store.add_component(2, Mask::SHAPE | Mask::POSITION).unwrap();
    store.add_component(3, Mask::POSITION).unwrap();
    store.add_component(5, Mask::SHAPE | Mask::POSITION | Mask::CIRCLE).unwrap();
    assert_eq!(store.matching_entities(Mask::SHAPE | Mask::POSITION), vec![2, 5]);
    assert_eq!(store.matching_entities(Mask::SHAPE), vec![0, 2, 5]);
    assert_eq!(store.matching_entities(Mask::VELOCITY), Vec::<usize>::new());
    assert_eq!(store.matching_entities(Mask::EMPTY), vec![0, 1, 2, 3, 4, 5]);
}

#[test]
fn input_goes_to_the_entities_of_its_player() {
    let mut store = EntityStore::new(5);
    let takes = Mask::PLAYER_INPUT | Mask::PLAYER_INPUT_ID;
    store.add_component(0, takes).unwrap();
    store.set_player_input_id(0, 7).unwrap();
    store.add_component(1, takes | Mask::POSITION).unwrap();
    store.set_player_input_id(1, 8).unwrap();
    store.add_component(2, Mask::PLAYER_INPUT).unwrap();
    store.set_player_input_id(2, 7).unwrap();
    store.add_component(3, takes).unwrap();
    store.set_player_input_id(3, 7).unwrap();
    store.set_player_input_id(4, 7).unwrap();

    let input = PlayerInput { player_input_id: 7, up: true, down: false, left: false, right: true };
    store.deposit_input(input);
    assert_eq!(store.inputs()[0], input);
    assert_eq!(store.inputs()[1], PlayerInput::new());
    assert_eq!(store.inputs()[2], PlayerInput::new());
    assert_eq!(store.inputs()[3], input);
    assert_eq!(store.inputs()[4], PlayerInput::new());
}
