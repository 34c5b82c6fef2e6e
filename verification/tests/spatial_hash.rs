use particle_constraints::spatial_hash::SpatialHash;

/// The cell coordinates of a position, by floor division with the cell size,
/// as the simulations compute them before talking to the grid.
fn cell_coords(x: f32, y: f32, cell_size: f32) -> (i32, i32) {
    ((x / cell_size).floor() as i32, (y / cell_size).floor() as i32)
}

#[test]
fn test_insert_and_retrieve() {
    let mut hash = SpatialHash::new();
    let cell_size = 10.0_f32;

    let (ax, ay) = cell_coords(5.0, 5.0, cell_size);
    let (bx, by) = cell_coords(15.0, 5.0, cell_size);
    let (cx, cy) = cell_coords(5.0, 15.0, cell_size);
    hash.insert(0, ax, ay);
    hash.insert(1, bx, by);
    hash.insert(2, cx, cy);

    let mut nearby = Vec::new();
    let (qx, qy) = cell_coords(5.0, 5.0, cell_size);
    hash.get_nearby(qx, qy, &mut nearby);

    assert_eq!(nearby.len(), 3);
}

#[test]
fn test_far_particles_not_found() {
    let mut hash = SpatialHash::new();
    let cell_size = 10.0_f32;

    let (px, py) = cell_coords(100.0, 100.0, cell_size);
    hash.insert(0, px, py);

    let mut nearby = Vec::new();
    let (qx, qy) = cell_coords(0.0, 0.0, cell_size);
    hash.get_nearby(qx, qy, &mut nearby);

    assert!(nearby.is_empty());
}

#[test]
fn test_same_cell_keeps_insertion_order() {
    let mut hash = SpatialHash::new();
    hash.insert(3, 0, 0);
    hash.insert(8, 0, 0);

    let mut nearby = Vec::new();
    hash.get_nearby(0, 0, &mut nearby);

    assert_eq!(nearby, vec![3, 8]);
}

#[test]
fn test_all_eight_neighbor_cells_are_queried() {
    let mut hash = SpatialHash::new();
    let mut expected = Vec::new();
    let mut index = 0;
    for dx in -1..=1 {
        for dy in -1..=1 {
            hash.insert(index, 10 + dx, -20 + dy);
            expected.push(index);
            index += 1;
        }
    }

    let mut nearby = Vec::new();
    hash.get_nearby(10, -20, &mut nearby);

    nearby.sort();
    assert_eq!(nearby, expected);
}

#[test]
fn test_cells_two_apart_are_not_queried() {
    let mut hash = SpatialHash::new();
    hash.insert(0, 2, 0);
    hash.insert(1, 0, 2);
    hash.insert(2, -2, -2);

    let mut nearby = Vec::new();
    hash.get_nearby(0, 0, &mut nearby);

    assert!(nearby.is_empty());
}

#[test]
fn test_negative_coordinates_are_distinct_cells() {
    // Adjacent cells on either side of the origin stay distinct: an index
    // filed at cell (-1, -1) is a neighbor of (0, 0) but an index filed far
    // on the negative side is not.
    let mut hash = SpatialHash::new();
    hash.insert(0, -1, -1);
    hash.insert(1, -5, -5);

    let mut nearby = Vec::new();
    hash.get_nearby(0, 0, &mut nearby);

    assert_eq!(nearby, vec![0]);
}

#[test]
fn test_query_appends_without_clearing() {
    let mut hash = SpatialHash::new();
    hash.insert(6, 0, 0);

    let mut nearby = vec![42];
    hash.get_nearby(0, 0, &mut nearby);

    assert_eq!(nearby, vec![42, 6]);
}

#[test]
fn test_clear_empties_every_cell() {
    let mut hash = SpatialHash::new();
    hash.insert(0, 0, 0);
    hash.insert(1, 7, -3);
    hash.clear();

    let mut nearby = Vec::new();
    hash.get_nearby(0, 0, &mut nearby);
    hash.get_nearby(7, -3, &mut nearby);

    assert!(nearby.is_empty());
}

#[test]
fn test_grid_reused_after_clear() {
    // One grid rebuilt every iteration: after a clear, fresh inserts are
    // found and stale ones are gone.
    let mut hash = SpatialHash::new();
    hash.insert(0, 0, 0);
    hash.clear();
    hash.insert(1, 0, 0);

    let mut nearby = Vec::new();
    hash.get_nearby(0, 0, &mut nearby);

    assert_eq!(nearby, vec![1]);
}
