use timetable::glyph::GlyphId;
use timetable::layout::load_layout;
use timetable::layout::try_load_layout;
use timetable::layout::LayoutError;
use timetable::slot::SlotKind;

fn lines(text: &[&str]) -> Vec<String> {
    text.iter().map(|line| line.to_string()).collect()
}

#[test]
fn slot_count_is_rows_times_pairs() {
    let board = load_layout(&lines(&["A B C D ", "E F G H "]));
    assert_eq!(board.row_count(), 2);
    assert_eq!(board.column_count(), 4);
    assert_eq!(board.len(), 8);
    for i in 0..board.len() {
        assert_eq!(board.slot(i).kind, SlotKind::Classic);
    }
}

#[test]
fn pairs_give_current_and_target_payloads() {
    let board = load_layout(&lines(&["AbC  dxx", "1:(-.&' "]));
    assert_eq!(board.slot(0).current_payload, Some(GlyphId::A));
    assert_eq!(board.slot(0).target_payload, Some(GlyphId::B));
    assert_eq!(board.slot(1).current_payload, Some(GlyphId::C));
    assert_eq!(board.slot(1).target_payload, None);
    assert_eq!(board.slot(2).current_payload, None);
    assert_eq!(board.slot(2).target_payload, Some(GlyphId::D));
    assert_eq!(board.slot(3).current_payload, Some(GlyphId::X));
    assert_eq!(board.slot(3).target_payload, Some(GlyphId::X));
    assert_eq!(board.slot(4).current_payload, Some(GlyphId::Digit1));
    assert_eq!(board.slot(4).target_payload, Some(GlyphId::Colon));
    assert_eq!(board.slot(5).current_payload, Some(GlyphId::OpenBracket));
    assert_eq!(board.slot(5).target_payload, Some(GlyphId::Dash));
    assert_eq!(board.slot(6).current_payload, Some(GlyphId::Dot));
    assert_eq!(board.slot(6).target_payload, Some(GlyphId::Amp));
    assert_eq!(board.slot(7).current_payload, Some(GlyphId::Apostrophe));
    assert_eq!(board.slot(7).target_payload, None);
}

#[test]
fn comments_and_empty_lines_are_no_rows() {
    let board = load_layout(&lines(&[
        "# a board of two rows",
        "",
        "A B ",
        "",
        "#C D E F ",
        "G H ",
        "#",
    ]));
    assert_eq!(board.row_count(), 2);
    assert_eq!(board.column_count(), 2);
    assert_eq!(board.len(), 4);
    assert_eq!(board.slot(2).current_payload, Some(GlyphId::G));
    assert_eq!(board.slot(3).current_payload, Some(GlyphId::H));
}

#[test]
fn a_line_of_spaces_is_a_row_of_empty_tiles() {
    let board = load_layout(&lines(&["    "]));
    assert_eq!(board.row_count(), 1);
    assert_eq!(board.column_count(), 2);
    assert_eq!(board.slot(0).current_payload, None);
    assert_eq!(board.slot(1).target_payload, None);
}

#[test]
fn delimiters_are_taken_out_before_pairing() {
    let plain = load_layout(&lines(&["AaBbCc"]));
    let delimited = load_layout(&lines(&["^Aa^Bb^Cc^", "A^aB^^bCc"]));
    assert_eq!(delimited.row_count(), 2);
    assert_eq!(delimited.column_count(), 3);
    for c in 0..3 {
        assert_eq!(delimited.slot(c).current_payload, plain.slot(c).current_payload);
        assert_eq!(delimited.slot(c).target_payload, plain.slot(c).target_payload);
        assert_eq!(delimited.slot(3 + c).current_payload, plain.slot(c).current_payload);
        assert_eq!(delimited.slot(3 + c).target_payload, plain.slot(c).target_payload);
    }
}

#[test]
fn a_line_of_delimiters_is_a_row_without_tiles() {
    let board = load_layout(&lines(&["^^^"]));
    assert_eq!(board.row_count(), 1);
    assert_eq!(board.column_count(), 0);
    assert_eq!(board.len(), 0);
}

#[test]
fn empty_layout_is_an_empty_board() {
    let board = load_layout(&lines(&[]));
    assert_eq!(board.row_count(), 0);
    assert_eq!(board.column_count(), 0);
    assert_eq!(board.len(), 0);
    let only_comments = load_layout(&lines(&["# nothing", ""]));
    assert_eq!(only_comments.len(), 0);
}

#[test]
fn full_grid_is_centred_on_the_screen() {
    let row = "A ".repeat(36);
    let text: Vec<String> = (0..15).map(|_| row.clone()).collect();
    let board = load_layout(&text);
    assert_eq!(board.row_count(), 15);
    assert_eq!(board.column_count(), 36);
    assert_eq!(board.len(), 540);
    // (1920 - 47 * 36) / 2 = 114 and (1080 - 57 * 15) / 2 = 112.
    assert_eq!((board.slot(0).x, board.slot(0).y), (114, 112));
    assert_eq!((board.slot(1).x, board.slot(1).y), (161, 112));
    assert_eq!((board.slot(35).x, board.slot(35).y), (114 + 47 * 35, 112));
    assert_eq!((board.slot(36).x, board.slot(36).y), (114, 169));
    assert_eq!((board.slot(539).x, board.slot(539).y), (114 + 47 * 35, 112 + 57 * 14));
}

#[test]
fn positions_depend_on_row_and_column_alone() {
    let first = load_layout(&lines(&["A B C D ", "E F G H "]));
    let second = load_layout(&lines(&["#x", "zzzzzzzz", "^y^y^y^y^y^y^y^y"]));
    // The margins are those of the full grid, whatever the size of the board.
    for row in 0..2usize {
        for column in 0..4usize {
            let a = first.slot(first.slot_index(column, row));
            let b = second.slot(second.slot_index(column, row));
            assert_eq!(a.x, 114 + 47 * column as i32);
            assert_eq!(a.y, 112 + 57 * row as i32);
            assert_eq!((a.x, a.y), (b.x, b.y));
        }
    }
    // The same tile of a board of another size stands at the same place.
    let third = load_layout(&lines(&["A B C D E F ", "G H I J K L ", "M N O P Q R "]));
    assert_eq!((third.slot(7).x, third.slot(7).y), (114 + 47, 112 + 57));
    assert_eq!((first.slot(5).x, first.slot(5).y), (114 + 47, 112 + 57));
}

#[test]
fn small_layout_stands_at_the_margins_of_the_full_grid() {
    let board = load_layout(&lines(&["# top", "", "Ab^cD"]));
    assert_eq!(board.len(), 2);
    assert_eq!(board.row_count(), 1);
    assert_eq!(board.column_count(), 2);
    assert_eq!((board.slot(0).x, board.slot(0).y), (114, 112));
    assert_eq!(board.slot(0).current_payload, Some(GlyphId::A));
    assert_eq!(board.slot(0).target_payload, Some(GlyphId::B));
    assert_eq!(board.slot(0).kind, SlotKind::Classic);
    assert_eq!((board.slot(1).x, board.slot(1).y), (161, 112));
    assert_eq!(board.slot(1).current_payload, Some(GlyphId::C));
    assert_eq!(board.slot(1).target_payload, Some(GlyphId::D));
    assert_eq!(board.slot(1).kind, SlotKind::Classic);
}

#[test]
fn sound_layout_loads_the_same_board_either_way() {
    let text = lines(&["# two rows", "AbCd  ", "", "^1^2^3^4^5^6"]);
    let checked = try_load_layout(&text).unwrap();
    let board = load_layout(&text);
    assert_eq!(board.row_count(), 2);
    assert_eq!(board.column_count(), 3);
    assert_eq!(board.len(), 6);
    for i in 0..board.len() {
        assert_eq!(board.slot(i), checked.slot(i));
    }
    assert_eq!(board.slot(0).current_payload, Some(GlyphId::A));
    assert_eq!(board.slot(2).target_payload, None);
    assert_eq!(board.slot(5).current_payload, Some(GlyphId::Digit5));
    assert_eq!((board.slot(5).x, board.slot(5).y), (114 + 94, 112 + 57));
}

#[test]
fn odd_row_is_refused() {
    assert_eq!(
        try_load_layout(&lines(&["A B C"])).unwrap_err(),
        LayoutError::OddPairing { row: 0 }
    );
    assert_eq!(
        try_load_layout(&lines(&["A B ", "# comment", "C D E"])).unwrap_err(),
        LayoutError::OddPairing { row: 1 }
    );
    // The delimiter does not count.
    assert_eq!(
        load_layout(&lines(&["A^B^"])).column_count(),
        1
    );
    assert_eq!(
        load_layout(&lines(&["A^B"])).column_count(),
        1
    );
    assert_eq!(
        try_load_layout(&lines(&["A^"])).unwrap_err(),
        LayoutError::OddPairing { row: 0 }
    );
}

#[test]
fn uneven_row_is_refused() {
    assert_eq!(
        try_load_layout(&lines(&["A B ", "C D E F "])).unwrap_err(),
        LayoutError::UnevenRow { row: 1 }
    );
    assert_eq!(
        try_load_layout(&lines(&["A B ", "C D ", "E "])).unwrap_err(),
        LayoutError::UnevenRow { row: 2 }
    );
}

#[test]
fn first_faulty_row_is_named() {
    // Row 1 is uneven and row 2 is odd: row 1 comes first.
    assert_eq!(
        try_load_layout(&lines(&["A B ", "C D E F ", "G"])).unwrap_err(),
        LayoutError::UnevenRow { row: 1 }
    );
    // A row that is both odd and of another length is named as odd.
    assert_eq!(
        try_load_layout(&lines(&["A B ", "C D E"])).unwrap_err(),
        LayoutError::OddPairing { row: 1 }
    );
}

#[test]
fn board_wider_than_the_full_grid_is_refused() {
    // A row of the full grid has 36 tiles.
    let widest = "A ".repeat(36);
    assert_eq!(try_load_layout(&vec![widest]).unwrap().column_count(), 36);
    let too_wide = "A ".repeat(37);
    assert_eq!(
        try_load_layout(&vec![too_wide]).unwrap_err(),
        LayoutError::ColumnOutOfRange { row: 0 }
    );
}

#[test]
fn board_higher_than_the_full_grid_is_refused() {
    // The full grid has 15 rows.
    let highest: Vec<String> = (0..15).map(|_| "A B ".to_string()).collect();
    assert_eq!(try_load_layout(&highest).unwrap().row_count(), 15);
    let too_high: Vec<String> = (0..16).map(|_| "A B ".to_string()).collect();
    assert_eq!(
        try_load_layout(&too_high).unwrap_err(),
        LayoutError::RowOutOfRange { row: 15 }
    );
}
