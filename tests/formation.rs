use rts_core::formation::{
    col_to_index, index_to_x_y, row_to_index, Formation, FormationPos, FORMATION_WIDTH,
};
use rts_core::player::{formation_anchor, slot_offset, FormationAnchor, PlayerId};

#[test]
fn test_col_to_index() {
    let grid = (0..4 * 4).collect::<Vec<usize>>();
    assert_eq!(grid.len(), 16);
    let first_col = 0;
    let second_col = 1;
    let third_col = 2;
    let fourth_col = 3;

    assert_eq!(col_to_index(first_col), vec![0, 4, 8, 12]);
    assert_eq!(col_to_index(second_col), vec![1, 5, 9, 13]);
    assert_eq!(col_to_index(third_col), vec![2, 6, 10, 14]);
    assert_eq!(col_to_index(fourth_col), vec![3, 7, 11, 15]);
}

#[test]
fn test_row_to_index() {
    let grid = (0..4 * 4).collect::<Vec<usize>>();
    assert_eq!(grid.len(), 16);
    let first_row = 0;
    let second_row = 1;

    assert_eq!(row_to_index(first_row), vec![0, 1, 2, 3]);
    assert_eq!(row_to_index(second_row), vec![4, 5, 6, 7]);
}

#[test]
fn col_past_the_grid_is_shorter_or_empty() {
    assert_eq!(col_to_index(5), vec![5, 9, 13]);
    assert_eq!(col_to_index(15), vec![15]);
    assert_eq!(col_to_index(16), Vec::<usize>::new());
    assert_eq!(col_to_index(usize::MAX), Vec::<usize>::new());
}

#[test]
fn index_to_x_y_fills_rows() {
    assert_eq!(FORMATION_WIDTH, 4);
    assert_eq!(index_to_x_y(0), (0, 0));
    assert_eq!(index_to_x_y(3), (3, 0));
    assert_eq!(index_to_x_y(4), (0, 1));
    assert_eq!(index_to_x_y(13), (1, 3));
    assert_eq!(index_to_x_y(usize::MAX), (3, usize::MAX / 4));
}

#[test]
fn set_bit_sets_and_clears_one_slot() {
    let mut f = Formation::new();
    assert_eq!(f.0, 0);
    f.set_bit(3, true);
    assert_eq!(f.0, 0b1000);
    f.set_bit(15, true);
    assert_eq!(f.0, 0b1000_0000_0000_1000);
    f.set_bit(3, true);
    assert_eq!(f.0, 0b1000_0000_0000_1000);
    f.set_bit(3, false);
    assert_eq!(f.0, 0b1000_0000_0000_0000);
    f.set_bit(0, false);
    assert_eq!(f.0, 0b1000_0000_0000_0000);
    assert_eq!(FormationPos::new(7).0, 7);
}

#[test]
fn anchor_of_a_full_row() {
    let a = formation_anchor(&vec![0, 1, 2, 3]);
    assert_eq!(a, FormationAnchor { x: 3, y: 0, heading: Some(3) });
    assert_eq!(slot_offset(0, &a), (-6, 0));
    assert_eq!(slot_offset(3, &a), (0, 0));
    assert_eq!(slot_offset(5, &a), (-4, 2));
}

#[test]
fn anchor_rises_to_a_higher_row() {
    let a = formation_anchor(&vec![4, 1]);
    assert_eq!(a, FormationAnchor { x: 1, y: 0, heading: Some(1) });
    let b = formation_anchor(&vec![5, 4]);
    assert_eq!(b, FormationAnchor { x: 1, y: 1, heading: Some(0) });
    let c = formation_anchor(&vec![8, 0]);
    assert_eq!(c, FormationAnchor { x: 0, y: 0, heading: Some(1) });
    assert_eq!(slot_offset(8, &c), (0, 4));
}

#[test]
fn anchor_of_no_unit() {
    let a = formation_anchor(&vec![]);
    assert_eq!(a, FormationAnchor { x: 0, y: usize::MAX, heading: None });
}

#[test]
fn player_ids_compare_by_value() {
    assert!(PlayerId::new(3) == PlayerId::new(3));
    assert!(PlayerId::new(3) != PlayerId::new(4));
}
