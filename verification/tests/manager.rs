use sim_core::math::FixedNumber;
use sim_core::voxels::chunk_manager::ChunkManager;
use sim_core::voxels::{Voxel, VoxelNumeric};

#[test]
fn new_manager_builds_one_fresh_chunk_per_grid_cell() {
    let manager = ChunkManager::new(2, 3, 1);
    assert_eq!(manager.capacity(), (2, 3, 1));
    assert_eq!(manager.len(), 6);
    assert_eq!(manager.last_update(), 0);
    for i in 0..6 {
        let chunk = manager.chunk(i);
        assert_eq!(chunk.capacity(), (16, 16, 16));
        assert_eq!(chunk.voxels().len(), 4096);
        assert_eq!(chunk.active_voxels(), 0);
        assert_eq!(chunk.mass(), FixedNumber::zero());
        assert_eq!(chunk.last_update(), 0);
        for cell in chunk.voxels().iter() {
            assert_eq!(cell.voxel(), Voxel::Empty);
            assert_eq!(cell.distance_field(), 4);
        }
    }
}

#[test]
fn manager_without_chunks() {
    let manager = ChunkManager::new(0, 2, 2);
    assert_eq!(manager.len(), 0);
    assert_eq!(manager.capacity(), (0, 2, 2));
}

#[test]
fn update_frame_reaches_every_chunk() {
    let mut manager = ChunkManager::new(2, 2, 2);
    manager.update_frame(7);
    for i in 0..8 {
        manager.set_voxel(i, 0, 0, 0, Voxel::Bone);
        assert_eq!(manager.chunk(i).last_update(), 7);
    }
    assert_eq!(manager.last_update(), 0);
}

#[test]
fn manager_writes_touch_one_chunk() {
    let mut manager = ChunkManager::new(2, 2, 2);
    manager.set_voxel(3, 1, 2, 3, Voxel::Metal);
    manager.seed_even_cells(5, Voxel::Skin);
    manager.calculate_distance_fields();
    for i in 0..8 {
        let expected = if i == 3 {
            1
        } else if i == 5 {
            512
        } else {
            0
        };
        assert_eq!(manager.chunk(i).active_voxels(), expected);
    }
    assert_eq!(manager.chunk(3).voxel(1, 2, 3), Voxel::Metal);
}

#[test]
fn manager_grid_addressing() {
    let manager = ChunkManager::new(2, 3, 4);
    assert_eq!(manager.index_1d(1, 2, 3), 1 + 2 * 2 + 3 * 6);
    assert_eq!(manager.index_1d(2, 3, 4), 0);
    assert_eq!(manager.index_3d(23), (1, 2, 3));
    for i in 0..24 {
        let (x, y, z) = manager.index_3d(i);
        assert_eq!(manager.index_1d(x, y, z), i);
    }
}

#[test]
fn manager_settings() {
    let manager = ChunkManager::new(1, 2, 3);
    assert_eq!(manager.chunk_size(), (16, 16, 16));
    assert_eq!(manager.voxel_resolution(), FixedNumber::fraction(FixedNumber::from_i32(2)));
    assert_eq!(manager.voxel_resolution().raw, 2048);
}

#[test]
fn manager_writes_a_distance_field() {
    let mut manager = ChunkManager::new(2, 1, 1);
    manager.update_frame(3);
    manager.set_voxel(1, 4, 5, 6, Voxel::Cloth);
    let mass = manager.chunk(1).mass();
    let inv_mass = manager.chunk(1).inv_mass();
    manager.update_frame(4);
    manager.set_distance_field(1, 4, 5, 6, 40);
    let chunk = manager.chunk(1);
    assert_eq!(chunk.raw_voxel(4, 5, 6).distance_field(), 8);
    assert_eq!(chunk.voxel(4, 5, 6), Voxel::Cloth);
    assert_eq!(chunk.raw_voxel(4, 5, 7).distance_field(), 4);
    assert_eq!(chunk.mass(), mass);
    assert_eq!(chunk.inv_mass(), inv_mass);
    assert_eq!(chunk.active_voxels(), 1);
    assert_eq!(chunk.last_update(), 4);
    assert_eq!(manager.chunk(0).last_update(), 0);
    assert!(manager.chunk(0).voxels().iter().all(|c| c.distance_field() == 4));
}

#[test]
fn new_chunks_of_a_manager_report_the_largest_inverse_mass() {
    let mut manager = ChunkManager::new(2, 1, 1);
    assert_eq!(manager.chunk(0).inv_mass(), FixedNumber::max_value());
    manager.set_voxel(0, 0, 0, 0, Voxel::Metal);
    // 7850 units / 100 = 78, / 100 in fixed point = 3194 raw
    assert_eq!(manager.chunk(0).mass().raw, 3194);
    assert_eq!(manager.chunk(0).inv_mass().raw, 4096 * 4096 / 3194);
    assert_eq!(manager.chunk(1).inv_mass(), FixedNumber::max_value());
}
