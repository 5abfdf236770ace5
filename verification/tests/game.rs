use tetrust::bag::PieceBag;
use tetrust::board::Board;
use tetrust::tetris::Tetris;
use tetrust::tetromino::{Tetromino, TetrominoTrait};
use tetrust::tetromino_type::TetrominoType;

fn occupied_cells(piece: &Tetromino) -> usize {
    let mut count: usize = 0;
    for row in piece.pieces() {
        for cell in row {
            if *cell != TetrominoType::E {
                count += 1;
            }
        }
    }
    count
}

fn board_cell_count(board: &Board) -> usize {
    let mut count: usize = 0;
    for y in 0..22 {
        for x in 0..10 {
            if board.cell(y, x) != TetrominoType::E {
                count += 1;
            }
        }
    }
    count
}

fn shape_index(t: TetrominoType) -> usize {
    match t {
        TetrominoType::E => 0,
        TetrominoType::I => 1,
        TetrominoType::L => 2,
        TetrominoType::J => 3,
        TetrominoType::O => 4,
        TetrominoType::Z => 5,
        TetrominoType::S => 6,
        TetrominoType::T => 7,
    }
}

#[test]
fn from_u8_decodes_the_shape_alphabet() {
    assert_eq!(TetrominoType::from_u8(0), TetrominoType::E);
    assert_eq!(TetrominoType::from_u8(1), TetrominoType::I);
    assert_eq!(TetrominoType::from_u8(2), TetrominoType::L);
    assert_eq!(TetrominoType::from_u8(3), TetrominoType::J);
    assert_eq!(TetrominoType::from_u8(4), TetrominoType::O);
    assert_eq!(TetrominoType::from_u8(5), TetrominoType::Z);
    assert_eq!(TetrominoType::from_u8(6), TetrominoType::S);
    assert_eq!(TetrominoType::from_u8(7), TetrominoType::T);
    assert_eq!(TetrominoType::from_u8(8), TetrominoType::E);
    assert_eq!(TetrominoType::from_u8(255), TetrominoType::E);
}

#[test]
fn every_spawned_piece_has_four_cells() {
    for code in 1u8..=7u8 {
        let shape = TetrominoType::from_u8(code);
        let piece = Tetromino::new(shape);
        assert_eq!(occupied_cells(&piece), 4);
        assert_eq!(piece.shape(), shape);
        assert_eq!(piece.pos(), (0, 3));
    }
}

#[test]
fn spawn_grids_have_the_documented_dimensions() {
    assert_eq!(Tetromino::new(TetrominoType::I).pieces().len(), 4);
    assert_eq!(Tetromino::new(TetrominoType::I).pieces()[0].len(), 4);
    assert_eq!(Tetromino::new(TetrominoType::O).pieces().len(), 2);
    assert_eq!(Tetromino::new(TetrominoType::O).pieces()[0].len(), 3);
    for code in [2u8, 3, 5, 6, 7] {
        let piece = Tetromino::new(TetrominoType::from_u8(code));
        assert_eq!(piece.pieces().len(), 3);
        assert_eq!(piece.pieces()[0].len(), 3);
    }
}

#[test]
fn bag_drained_yields_each_shape_exactly_once() {
    let mut bag = PieceBag::new();
    let mut counts = [0usize; 8];
    for _ in 0..7 {
        let s = bag.next_shape();
        counts[shape_index(s)] += 1;
    }
    assert_eq!(counts[0], 0);
    for i in 1..8 {
        assert_eq!(counts[i], 1, "shape {} should appear exactly once", i);
    }
}

#[test]
fn bag_preview_matches_the_draw_order() {
    let mut bag = PieceBag::new();
    let preview = bag.preview(8);
    assert_eq!(preview.len(), 8);
    for i in 0..8 {
        let s = bag.next_shape();
        assert_eq!(preview[i], s, "preview entry {} should be the {}th draw", i, i);
    }
}

#[test]
fn is_legal_rejects_walls_floor_and_collisions() {
    let board = Board::new();
    let mut piece = Tetromino::new(TetrominoType::I);
    // At the spawn position everything is free.
    assert!(board.is_legal(&piece, [0, 0]));
    assert!(board.is_legal(&piece, [1, 0]));
    // The I piece occupies columns 3..7 of row 1: three steps left are
    // legal, the fourth pushes it through the left wall.
    assert!(board.is_legal(&piece, [0, -3]));
    assert!(!board.is_legal(&piece, [0, -4]));
    // Three steps right are legal, the fourth pushes it through the right
    // wall.
    assert!(board.is_legal(&piece, [0, 3]));
    assert!(!board.is_legal(&piece, [0, 4]));
    // Twenty steps down rest on the floor, twenty-one leave the grid.
    assert!(board.is_legal(&piece, [20, 0]));
    assert!(!board.is_legal(&piece, [21, 0]));
    // Moving above the hidden buffer leaves the grid as well.
    assert!(!board.is_legal(&piece, [-2, 0]));

    // A locked piece blocks the cells it covers.
    let mut other = Tetromino::new(TetrominoType::I);
    other.translate([20, 0]);
    let mut board = board;
    board.lock(&other);
    assert!(!board.is_legal(&piece, [20, 0]));
    assert!(board.is_legal(&piece, [19, 0]));
    piece.translate([19, 0]);
    assert!(board.is_legal(&piece, [0, 0]));
    assert!(!board.is_legal(&piece, [1, 0]));
}

#[test]
fn four_clockwise_rotations_restore_the_piece() {
    let board = Board::new();
    for code in 1u8..=7u8 {
        let shape = TetrominoType::from_u8(code);
        let mut piece = Tetromino::new(shape);
        let original = piece.pieces().clone();
        for _ in 0..4 {
            piece.rotate_clockwise(&board);
        }
        assert_eq!(piece.pieces(), &original, "four turns must restore shape {}", code);
    }
}

#[test]
fn counter_clockwise_undoes_clockwise() {
    let board = Board::new();
    for code in 1u8..=7u8 {
        let shape = TetrominoType::from_u8(code);
        let mut piece = Tetromino::new(shape);
        let original = piece.pieces().clone();
        piece.rotate_clockwise(&board);
        piece.rotate_clockwise(&board);
        piece.rotate_counter_clockwise(&board);
        piece.rotate_counter_clockwise(&board);
        assert_eq!(piece.pieces(), &original);
    }
}

#[test]
fn the_o_piece_is_invariant_under_rotation() {
    let board = Board::new();
    let mut piece = Tetromino::new(TetrominoType::O);
    let original = piece.pieces().clone();
    piece.rotate_clockwise(&board);
    assert_eq!(piece.pieces(), &original);
    piece.rotate_counter_clockwise(&board);
    assert_eq!(piece.pieces(), &original);
}

#[test]
fn blocked_rotation_leaves_the_piece_unchanged() {
    // A vertical I in the leftmost column cannot turn: the horizontal
    // cells it would need are cut off by the wall.
    let board = Board::new();
    let mut piece = Tetromino::new(TetrominoType::I);
    piece.rotate_clockwise(&board); // vertical, local column 2
    piece.translate([18, -5]); // occupies column 0, rows 18..21
    let before = piece.pieces().clone();
    piece.rotate_clockwise(&board);
    assert_eq!(piece.pieces(), &before, "a blocked turn must be rejected");
}

#[test]
fn clearing_a_single_completed_row_shifts_rows_down() {
    let mut board = Board::new();
    // Fill columns 0..9 of row 21 using three overlapping horizontal I
    // pieces.
    let mut a = Tetromino::new(TetrominoType::I);
    a.translate([20, -3]); // row 21, columns 0..4
    board.lock(&a);
    let mut b = Tetromino::new(TetrominoType::I);
    b.translate([20, 0]); // row 21, columns 3..7
    board.lock(&b);
    let mut c = Tetromino::new(TetrominoType::I);
    c.translate([20, 2]); // row 21, columns 5..9
    board.lock(&c);
    for x in 0..9 {
        assert_eq!(board.cell(21, x), TetrominoType::I);
    }
    assert_eq!(board.cell(21, 9), TetrominoType::E);
    assert_eq!(board_cell_count(&board), 9);

    // Drop a vertical I into the gap at column 9.
    let mut filler = Tetromino::new(TetrominoType::I);
    filler.rotate_clockwise(&board); // vertical, local column 2
    filler.translate([18, 4]); // occupies column 9, rows 18..22
    assert!(board.is_legal(&filler, [0, 0]));
    assert!(!board.is_legal(&filler, [1, 0]));
    board.lock(&filler);
    assert_eq!(board_cell_count(&board), 13);

    let cleared = board.clear_completed_lines();
    assert_eq!(cleared, 1);
    // The locked-cell count dropped by exactly the row width.
    assert_eq!(board_cell_count(&board), 3);
    // Row 20's former contents (column 9 filled) now sit at row 21.
    assert_eq!(board.cell(21, 9), TetrominoType::I);
    for x in 0..9 {
        assert_eq!(board.cell(21, x), TetrominoType::E);
    }
    assert_eq!(board.cell(20, 9), TetrominoType::I);
    assert_eq!(board.cell(19, 9), TetrominoType::I);
    assert_eq!(board.cell(18, 9), TetrominoType::E);
    // The top row is empty.
    for x in 0..10 {
        assert_eq!(board.cell(0, x), TetrominoType::E);
    }
}

#[test]
fn stacked_completed_rows_clear_together() {
    let mut board = Board::new();
    // Fill rows 20 and 21 completely with horizontal I pieces, plus one
    // extra block on row 19 to watch the shift.
    for row_pos in [19i8, 20] {
        for col_pos in [-3i8, 0, 2, 3] {
            let mut p = Tetromino::new(TetrominoType::I);
            p.translate([row_pos, col_pos]);
            board.lock(&p);
        }
    }
    let mut extra = Tetromino::new(TetrominoType::I);
    extra.rotate_clockwise(&board);
    extra.translate([15, -5]); // column 0, rows 15..18
    board.lock(&extra);
    assert_eq!(board_cell_count(&board), 24);

    let cleared = board.clear_completed_lines();
    assert_eq!(cleared, 2);
    assert_eq!(board_cell_count(&board), 4);
    // The vertical bar fell by two rows: from rows 15..19 to rows 17..21.
    for y in 17..21 {
        assert_eq!(board.cell(y, 0), TetrominoType::I);
    }
    assert_eq!(board.cell(16, 0), TetrominoType::E);
    assert_eq!(board.cell(21, 0), TetrominoType::E);
}

#[test]
fn shadow_reports_the_resting_distance() {
    let board = Board::new();
    let piece = Tetromino::new(TetrominoType::T);
    // The lowest occupied row of a spawned T is board row 1, so it can
    // descend twenty rows on an empty board.
    assert_eq!(board.shadow(&piece), 20);

    let mut floor = Tetromino::new(TetrominoType::I);
    floor.translate([20, 0]); // row 21, columns 3..7
    let mut board = board;
    board.lock(&floor);
    // The T piece occupies columns 3..6, so it now rests one row higher.
    assert_eq!(board.shadow(&piece), 19);
}

#[test]
fn score_table_compounds_with_the_held_score() {
    assert_eq!(Tetris::add_score(0, 0), 0);
    assert_eq!(Tetris::add_score(0, 1), 40);
    assert_eq!(Tetris::add_score(0, 2), 100);
    assert_eq!(Tetris::add_score(0, 3), 300);
    assert_eq!(Tetris::add_score(0, 4), 1200);
    // The table value is multiplied by one more than the held score.
    assert_eq!(Tetris::add_score(40, 1), 40 + 41 * 40);
    assert_eq!(Tetris::add_score(100, 4), 100 + 101 * 1200);
    // The sum saturates instead of wrapping.
    assert_eq!(Tetris::add_score(u32::MAX, 4), u32::MAX);
    assert_eq!(Tetris::add_score(u32::MAX - 1, 0), u32::MAX - 1);
}

#[test]
fn hold_banks_the_piece_and_is_once_per_cycle() {
    let mut game = Tetris::new();
    assert_eq!(game.get_hold(), TetrominoType::E);
    let first = game.current_piece().shape();
    game.hold();
    assert_eq!(game.get_hold(), first);
    let second = game.current_piece().shape();
    assert_ne!(second, TetrominoType::E);
    // A second hold before any lock is a no-op.
    game.hold();
    assert_eq!(game.get_hold(), first);
    assert_eq!(game.current_piece().shape(), second);
}

#[test]
fn nexts_previews_five_real_shapes() {
    let game = Tetris::new();
    let upcoming = game.nexts();
    assert_eq!(upcoming.len(), 5);
    for s in upcoming {
        assert_ne!(s, TetrominoType::E);
    }
}

#[test]
fn fresh_game_starts_clean() {
    let game = Tetris::new();
    assert_eq!(game.get_score(), 0);
    assert!(!game.is_lost());
    assert_eq!(game.get_hold(), TetrominoType::E);
    assert_eq!(game.current_piece().pos(), (0, 3));
    assert_eq!(game.shadow(), 20);
    let map = game.get_map();
    assert_eq!(map.len(), 20);
    for row in &map {
        assert_eq!(row.len(), 10);
        for cell in row {
            assert_eq!(*cell, TetrominoType::E);
        }
    }
}

#[test]
fn the_map_shows_the_piece_once_it_enters_the_visible_rows() {
    let mut game = Tetris::new();
    // Two gravity steps bring the whole piece into the visible playfield.
    for _ in 0..120 {
        game.on_tick();
    }
    assert_eq!(game.current_piece().pos().0, 2);
    let map = game.get_map();
    let mut visible: usize = 0;
    for row in &map {
        for cell in row {
            if *cell != TetrominoType::E {
                visible += 1;
            }
        }
    }
    assert_eq!(visible, 4);
}

#[test]
fn moves_stop_at_the_walls() {
    let mut game = Tetris::new();
    for _ in 0..20 {
        game.move_piece([0, -1]);
    }
    let stuck = game.current_piece().pos();
    game.move_piece([0, -1]);
    assert_eq!(game.current_piece().pos(), stuck);
    for _ in 0..20 {
        game.move_piece([0, 1]);
    }
    let stuck = game.current_piece().pos();
    game.move_piece([0, 1]);
    assert_eq!(game.current_piece().pos(), stuck);
}

#[test]
fn gravity_locks_on_the_second_blocked_step_only() {
    let mut game = Tetris::new();
    let mut saw_grace_step = false;
    for _step in 0..40 {
        let pos_before = game.current_piece().pos();
        let cells_before = board_cell_count(game.board());
        for _ in 0..60 {
            game.on_tick();
        }
        let pos_after = game.current_piece().pos();
        let cells_after = board_cell_count(game.board());
        if !saw_grace_step {
            if pos_after == pos_before {
                // First step on which the piece could not descend: the
                // grace tick. Nothing may lock yet.
                assert_eq!(cells_after, cells_before, "piece must not lock on the first blocked step");
                saw_grace_step = true;
            } else {
                assert_eq!(cells_after, cells_before);
            }
        } else {
            // The step right after the grace step locks the piece and
            // spawns a new one at the top.
            assert_eq!(cells_after, cells_before + 4, "piece must lock on the second blocked step");
            assert_eq!(game.current_piece().pos(), (0, 3));
            return;
        }
    }
    panic!("the piece never reached the floor");
}

#[test]
fn stacking_to_the_top_sets_the_lost_flag() {
    let mut game = Tetris::new();
    // Without input the pieces stack in the middle columns and can never
    // complete a row, so the stack must eventually reach the spawn cells.
    let mut ticks: u64 = 0;
    while !game.is_lost() {
        game.on_tick();
        ticks += 1;
        assert!(ticks < 2_000_000, "the game should have topped out");
    }
    assert!(game.is_lost());
    // No row was ever completed, so no line was scored.
    assert_eq!(game.get_score(), 0);
    // The spawn area holds locked cells: the freshly drawn piece overlaps.
    assert!(board_cell_count(game.board()) > 0);
}
