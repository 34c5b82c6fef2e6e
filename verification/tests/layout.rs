use particle_constraints::layout::grid_slot;

#[test]
fn test_grid_slot_fills_rows_first() {
    assert_eq!(grid_slot(0, 50), (0, 0));
    assert_eq!(grid_slot(1, 50), (1, 0));
    assert_eq!(grid_slot(49, 50), (49, 0));
    assert_eq!(grid_slot(50, 50), (0, 1));
    assert_eq!(grid_slot(123, 50), (23, 2));
}

#[test]
fn test_grid_slot_single_column() {
    assert_eq!(grid_slot(0, 1), (0, 0));
    assert_eq!(grid_slot(7, 1), (0, 7));
}
