use chess_gui::board::{clear_highlights, index_of, mark_pick, new_board, shade_of, Shade, Tile};

#[test]
fn corners_and_neighbours_have_checkerboard_shades() {
    let tiles = new_board();
    assert_eq!(tiles.len(), 64);
    assert_eq!(tiles[0].shade, Shade::Light);
    assert_eq!(tiles[1].shade, Shade::Dark);
    assert_eq!(tiles[8].shade, Shade::Dark);
    assert_eq!(tiles[9].shade, Shade::Light);
    assert_eq!(tiles[7].shade, Shade::Dark);
    assert_eq!(tiles[63].shade, Shade::Light);
    assert_eq!(tiles[56].shade, Shade::Dark);
}

#[test]
fn board_has_thirty_two_light_squares() {
    let tiles = new_board();
    let light = tiles.iter().filter(|t| t.shade == Shade::Light).count();
    assert_eq!(light, 32);
    for y in 0..8usize {
        for x in 0..7usize {
            assert_ne!(tiles[8 * y + x].shade, tiles[8 * y + x + 1].shade);
        }
    }
}

#[test]
fn fresh_board_has_no_highlight() {
    let tiles = new_board();
    assert!(tiles.iter().all(|t| !t.selected && t.move_marks == 0));
}

#[test]
fn shade_of_follows_parity() {
    assert_eq!(shade_of(0, 0), Shade::Light);
    assert_eq!(shade_of(3, 4), Shade::Dark);
    assert_eq!(shade_of(5, 1), Shade::Light);
    assert_eq!(shade_of(6, 7), Shade::Dark);
}

#[test]
fn index_of_counts_rows_of_eight() {
    assert_eq!(index_of(0, 0), Some(0));
    assert_eq!(index_of(3, 2), Some(19));
    assert_eq!(index_of(7, 7), Some(63));
    assert_eq!(index_of(8, 0), Some(8));
    assert_eq!(index_of(8, 7), None);
    assert_eq!(index_of(0, 8), None);
    assert_eq!(index_of(200, 0), None);
}

#[test]
fn mark_pick_counts_each_target() {
    let mut tiles = new_board();
    let moves: Vec<(u8, u8)> = vec![(2, 2), (3, 4), (2, 2)];
    mark_pick(&mut tiles, 10, &moves);
    assert!(tiles[10].selected);
    assert_eq!(tiles[10].move_marks, 0);
    assert_eq!(tiles[18].move_marks, 2);
    assert_eq!(tiles[35].move_marks, 1);
    let total: usize = tiles.iter().map(|t| t.move_marks).sum();
    assert_eq!(total, moves.len());
    assert_eq!(tiles.iter().filter(|t| t.selected).count(), 1);
    assert_eq!(tiles[18].shade, Shade::Light);
}

#[test]
fn clear_highlights_keeps_shades() {
    let mut tiles = new_board();
    mark_pick(&mut tiles, 0, &vec![(1, 0)]);
    clear_highlights(&mut tiles);
    let fresh = new_board();
    assert_eq!(tiles, fresh);
    assert_eq!(tiles[1], Tile { shade: Shade::Dark, selected: false, move_marks: 0 });
}
