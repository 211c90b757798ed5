use connect_four::grid::map_to_cell;

#[test]
fn click_in_first_cell_maps_to_origin_cell() {
    assert_eq!(map_to_cell(30, 30), Some((0, 0)));
}

#[test]
fn cell_edges_are_inclusive() {
    // 5 is the first pixel of the first cell, 55 its last.
    assert_eq!(map_to_cell(5, 5), Some((0, 0)));
    assert_eq!(map_to_cell(55, 55), Some((0, 0)));
    assert_eq!(map_to_cell(60, 115), Some((1, 2)));
}

#[test]
fn dead_border_between_cells_is_no_target() {
    assert_eq!(map_to_cell(56, 30), None);
    assert_eq!(map_to_cell(59, 30), None);
    assert_eq!(map_to_cell(30, 57), None);
}

#[test]
fn last_cell_and_beyond() {
    // column 6 starts at 5 + 6 * 55 = 335, row 5 at 5 + 5 * 55 = 280
    assert_eq!(map_to_cell(335, 280), Some((6, 5)));
    assert_eq!(map_to_cell(390, 280), None);
    assert_eq!(map_to_cell(335, 335), None);
}

#[test]
fn positions_before_the_origin_miss() {
    assert_eq!(map_to_cell(4, 30), None);
    assert_eq!(map_to_cell(0, 0), None);
    assert_eq!(map_to_cell(30, -1), None);
    assert_eq!(map_to_cell(i32::MIN, i32::MIN), None);
    assert_eq!(map_to_cell(i32::MAX, 30), None);
}
