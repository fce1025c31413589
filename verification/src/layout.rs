//! Reading a board from its layout text.
//!
//! A layout is a list of lines. Empty lines and lines that begin with the comment
//! marker say nothing. Every other line is one row of the board: once the tile
//! delimiters are taken out, its characters come in pairs, one pair per tile, the
//! first character for what the tile holds now and the second for what it is to
//! hold. All rows have the same number of pairs, and the grid they make may be
//! smaller than the full grid but not larger.

use vstd::prelude::*;
use vstd::arithmetic::div_mod::lemma_fundamental_div_mod;
use vstd::arithmetic::mul::lemma_mul_is_commutative;
use crate::board::BoardGrid;
use crate::board::is_board;
use crate::board::lemma_row_in_grid;
use crate::board::lemma_slot_in_grid;
use crate::board::row_start;
use crate::geometry::TILES_PER_COLUMN;
use crate::geometry::TILES_PER_ROW;
use crate::geometry::fits_grid;
use crate::geometry::tile_position;
use crate::geometry::tile_x;
use crate::geometry::tile_y;
use crate::glyph::TILE_DELIMITER;
use crate::glyph::char_to_payload;
use crate::glyph::is_tile_delimiter;
use crate::glyph::payload_of;
use crate::slot::SlotKind;
use crate::slot::TileSlot;
use crate::text::char_rows;
use crate::text::chars_of;
use crate::text::texts;

verus! {

/// The character that begins a comment line.
pub const COMMENT_MARKER: char = '#';

/// Why a layout is no board. `row` counts the rows of the layout from 0, comment
/// lines and empty lines left out.
#[derive(Clone, Copy, Debug, PartialEq, Eq)]
pub enum LayoutError {
    /// The row holds an odd number of tile characters, so that the last tile has
    /// only half of its pair.
    OddPairing { row: usize },
    /// The row is longer or shorter than the first row.
    UnevenRow { row: usize },
    /// The row lies below the last row of the full grid.
    RowOutOfRange { row: usize },
    /// The row reaches beyond the last column of the full grid.
    ColumnOutOfRange { row: usize },
}

/// Whether a line of the layout is a row of the board: it is not empty and is no
/// comment.
pub open spec fn is_data_line(line: Seq<char>) -> bool {
    line.len() > 0 && line[0] != COMMENT_MARKER
}

/// The characters of a line that stand for tiles: all but the delimiters.
pub open spec fn tile_chars(line: Seq<char>) -> Seq<char> {
    line.filter(|c: char| c != TILE_DELIMITER)
}

/// The rows of a layout: the tile characters of each line that is a row, in the
/// order of the lines.
pub open spec fn layout_rows(lines: Seq<Seq<char>>) -> Seq<Seq<char>> {
    lines.filter(|line: Seq<char>| is_data_line(line)).map_values(
        |line: Seq<char>| tile_chars(line),
    )
}

/// How many tiles a row of the layout has: half the length of the first row.
pub open spec fn layout_columns(rows: Seq<Seq<char>>) -> nat {
    if rows.len() > 0 {
        rows[0].len() / 2
    } else {
        0
    }
}

/// What is wrong with row `r`, if anything. Of several faults of one row the
/// first in this order is named: an odd number of characters, a length other
/// than that of the first row, a place below the full grid, a width beyond it.
pub open spec fn row_error(rows: Seq<Seq<char>>, r: int) -> Option<LayoutError> {
    if rows[r].len() % 2 != 0 {
        Some(LayoutError::OddPairing { row: r as usize })
    } else if rows[r].len() != rows[0].len() {
        Some(LayoutError::UnevenRow { row: r as usize })
    } else if r >= TILES_PER_COLUMN {
        Some(LayoutError::RowOutOfRange { row: r as usize })
    } else if rows[r].len() / 2 > TILES_PER_ROW {
        Some(LayoutError::ColumnOutOfRange { row: r as usize })
    } else {
        None
    }
}

/// The fault of the first faulty row among the first `n` rows, if there is one.
pub open spec fn first_error(rows: Seq<Seq<char>>, n: nat) -> Option<LayoutError>
    decreases n,
{
    if n == 0 {
        None
    } else if first_error(rows, (n - 1) as nat) is Some {
        first_error(rows, (n - 1) as nat)
    } else {
        row_error(rows, n - 1)
    }
}

/// Why the layout is no board, or `None` if it is one.
pub open spec fn layout_error(lines: Seq<Seq<char>>) -> Option<LayoutError> {
    first_error(layout_rows(lines), layout_rows(lines).len())
}

/// The tile that a layout puts at column `c` of row `r`: a classic slot at the
/// place that the geometry gives, with the payloads that the two characters of
/// its pair stand for.
pub open spec fn layout_slot(rows: Seq<Seq<char>>, r: nat, c: nat) -> TileSlot {
    TileSlot {
        x: tile_x(c) as i32,
        y: tile_y(r) as i32,
        current_payload: payload_of(rows[r as int][2 * c as int]),
        target_payload: payload_of(rows[r as int][2 * c as int + 1]),
        kind: SlotKind::Classic,
    }
}

/// Whether `board` is the board that the rows of a layout describe: one grid row
/// per layout row, one tile per pair of characters, and in each tile the payloads
/// that the two characters of its pair stand for.
pub open spec fn is_layout_board(board: BoardGrid, rows: Seq<Seq<char>>) -> bool {
    &&& board.wf()
    &&& board.rows() == rows.len()
    &&& board.columns() == layout_columns(rows)
    &&& board@.len() == rows.len() * layout_columns(rows)
    &&& forall|r: nat, c: nat|
        r < rows.len() && c < layout_columns(rows) ==> #[trigger] board@[row_start(
            layout_columns(rows),
            r,
        ) + c] == layout_slot(rows, r, c)
}

/// A layout without a faulty row is a grid within the full grid, and each of its
/// rows has two characters for every column.
pub proof fn lemma_valid_rows(rows: Seq<Seq<char>>, n: nat)
    requires
        n <= rows.len(),
        first_error(rows, n) is None,
    ensures
        forall|r: int| 0 <= r < n ==> (#[trigger] rows[r]).len() == 2 * layout_columns(rows),
        n > 0 || rows.len() == 0 ==> fits_grid(n, layout_columns(rows)),
    decreases n,
{
    if n > 0 {
        lemma_valid_rows(rows, (n - 1) as nat);
        assert(row_error(rows, n - 1) is None);
    }
}

/// Once a row is faulty, the fault of the first faulty row is the same however
/// many rows follow.
pub proof fn lemma_first_error_stays(rows: Seq<Seq<char>>, r: nat, n: nat)
    requires
        r < n,
        first_error(rows, r) is None,
        row_error(rows, r as int) is Some,
    ensures
        first_error(rows, n) == row_error(rows, r as int),
    decreases n,
{
    if n > r + 1 {
        lemma_first_error_stays(rows, r, (n - 1) as nat);
    }
}

/// Slots that are the tiles of a layout, row after row, form a board.
proof fn lemma_layout_slots_form_board(slots: Seq<TileSlot>, rows: Seq<Seq<char>>)
    requires
        fits_grid(rows.len(), layout_columns(rows)),
        slots.len() == rows.len() * layout_columns(rows),
        forall|r: nat, c: nat|
            r < rows.len() && c < layout_columns(rows) ==> #[trigger] slots[row_start(
                layout_columns(rows),
                r,
            ) + c] == layout_slot(rows, r, c),
    ensures
        is_board(slots, rows.len(), layout_columns(rows)),
{
    let columns = layout_columns(rows);
    assert forall|i: int| 0 <= i < slots.len() implies (#[trigger] slots[i]).kind
        == SlotKind::Classic by {
        assert(columns > 0) by (nonlinear_arith)
            requires
                0 <= i < rows.len() * columns,
        ;
        let r = (i / (columns as int)) as nat;
        let c = (i % (columns as int)) as nat;
        lemma_fundamental_div_mod(i, columns as int);
        lemma_mul_is_commutative(r as int, columns as int);
        assert(r < rows.len()) by (nonlinear_arith)
            requires
                i == r * columns + c,
                i < rows.len() * columns,
                0 <= c,
                columns > 0,
        ;
        assert(slots[row_start(columns, r) + c] == layout_slot(rows, r, c));
    }
    assert forall|row: nat, column: nat| row < rows.len() && column < columns implies {
        &&& (#[trigger] slots[row_start(columns, row) + column]).x == tile_x(column)
        &&& slots[row_start(columns, row) + column].y == tile_y(row)
    } by {
        assert(slots[row_start(columns, row) + column] == layout_slot(rows, row, column));
    }
}

/// The tile characters of a line.
fn strip_delimiters(line: &Vec<char>) -> (tiles: Vec<char>)
    ensures
        tiles@ == tile_chars(line@),
{
    let mut tiles: Vec<char> = Vec::new();
    let mut i: usize = 0;
    proof {
        reveal(Seq::filter);
        assert(line@.take(0) =~= Seq::<char>::empty());
    }
    while i < line.len()
        invariant
            i <= line.len(),
            tiles@ == tile_chars(line@.take(i as int)),
        decreases line.len() - i,
    {
        proof {
            assert(line@.take(i + 1) =~= line@.take(i as int).push(line@[i as int]));
            line@.take(i as int).lemma_filter_push(line@[i as int], |c: char| c != TILE_DELIMITER);
        }
        if !is_tile_delimiter(line[i]) {
            tiles.push(line[i]);
        }
        i += 1;
    }
    proof {
        assert(line@.take(line.len() as int) =~= line@);
    }
    tiles
}

/// The rows of a layout.
fn tile_rows(lines: &Vec<String>) -> (rows: Vec<Vec<char>>)
    ensures
        char_rows(rows@) == layout_rows(texts(lines@)),
{
    let mut rows: Vec<Vec<char>> = Vec::new();
    let mut i: usize = 0;
    proof {
        reveal(Seq::filter);
        assert(texts(lines@).take(0) =~= Seq::<Seq<char>>::empty());
        assert(char_rows(rows@) =~= layout_rows(texts(lines@).take(0)));
    }
    while i < lines.len()
        invariant
            i <= lines.len(),
            char_rows(rows@) == layout_rows(texts(lines@).take(i as int)),
        decreases lines.len() - i,
    {
        let line = chars_of(lines[i].as_str());
        let ghost before = texts(lines@).take(i as int);
        proof {
            assert(texts(lines@).take(i + 1) =~= before.push(line@));
            before.lemma_filter_push(line@, |line: Seq<char>| is_data_line(line));
        }
        if line.len() > 0 && line[0] != COMMENT_MARKER {
            let tiles = strip_delimiters(&line);
            let ghost rows_before = rows@;
            rows.push(tiles);
            proof {
                assert(char_rows(rows@) =~= char_rows(rows_before).push(tiles@));
                assert(layout_rows(before.push(line@)) =~= layout_rows(before).push(
                    tile_chars(line@),
                ));
            }
        }
        i += 1;
    }
    proof {
        assert(texts(lines@).take(lines.len() as int) =~= texts(lines@));
    }
    rows
}

/// Why the rows are no board, or nothing if they are one.
fn find_row_error(rows: &Vec<Vec<char>>) -> (error: Option<LayoutError>)
    ensures
        error == first_error(char_rows(rows@), rows@.len()),
{
    let ghost layout = char_rows(rows@);
    let row_count = rows.len();
    let mut r: usize = 0;
    while r < row_count
        invariant
            r <= row_count,
            row_count == rows.len(),
            layout == char_rows(rows@),
            first_error(layout, r as nat) is None,
        decreases row_count - r,
    {
        let len = rows[r].len();
        assert(layout[r as int] == rows@[r as int]@);
        assert(layout[0] == rows@[0]@);
        proof {
            if row_error(layout, r as int) is Some {
                lemma_first_error_stays(layout, r as nat, row_count as nat);
            }
        }
        if len % 2 != 0 {
            return Some(LayoutError::OddPairing { row: r });
        }
        if len != rows[0].len() {
            return Some(LayoutError::UnevenRow { row: r });
        }
        if r >= TILES_PER_COLUMN {
            return Some(LayoutError::RowOutOfRange { row: r });
        }
        if len / 2 > TILES_PER_ROW {
            return Some(LayoutError::ColumnOutOfRange { row: r });
        }
        r += 1;
    }
    None
}

/// The board that rows without a fault describe.
fn board_of_rows(rows: &Vec<Vec<char>>) -> (board: BoardGrid)
    requires
        first_error(char_rows(rows@), rows@.len()) is None,
    ensures
        is_layout_board(board, char_rows(rows@)),
{
    let ghost layout = char_rows(rows@);
    let row_count = rows.len();
    let columns = if row_count > 0 {
        rows[0].len() / 2
    } else {
        0
    };
    proof {
        if row_count > 0 {
            assert(layout[0] == rows@[0]@);
        }
        lemma_valid_rows(layout, row_count as nat);
    }
    let mut slots: Vec<TileSlot> = Vec::new();
    let mut y: usize = 0;
    while y < row_count
        invariant
            y <= row_count,
            row_count == rows.len(),
            layout == char_rows(rows@),
            columns == layout_columns(layout),
            fits_grid(row_count as nat, columns as nat),
            forall|r: int| 0 <= r < row_count ==> (#[trigger] layout[r]).len() == 2 * columns,
            slots@.len() == y * columns,
            forall|r: nat, c: nat|
                r < y && c < columns ==> (#[trigger] slots@[row_start(columns as nat, r) + c])
                    == layout_slot(layout, r, c),
        decreases row_count - y,
    {
        let mut x: usize = 0;
        proof {
            lemma_row_in_grid(row_count as nat, columns as nat, y as nat);
        }
        while x < columns
            invariant
                x <= columns,
                y < row_count,
                row_count == rows.len(),
                layout == char_rows(rows@),
                columns == layout_columns(layout),
                fits_grid(row_count as nat, columns as nat),
                forall|r: int| 0 <= r < row_count ==> (#[trigger] layout[r]).len() == 2 * columns,
                slots@.len() == y * columns + x,
                forall|r: nat, c: nat|
                    r < y && c < columns ==> (#[trigger] slots@[row_start(columns as nat, r) + c])
                        == layout_slot(layout, r, c),
                forall|c: nat|
                    c < x ==> (#[trigger] slots@[row_start(columns as nat, y as nat) + c])
                        == layout_slot(layout, y as nat, c),
            decreases columns - x,
        {
            assert(layout[y as int] == rows@[y as int]@);
            let position = tile_position(y, x);
            let current = char_to_payload(rows[y][2 * x]);
            let target = char_to_payload(rows[y][2 * x + 1]);
            let ghost before = slots@;
            slots.push(TileSlot::new(position.0, position.1, current, target, SlotKind::Classic));
            proof {
                assert forall|r: nat, c: nat| r < y && c < columns implies (#[trigger] slots@[row_start(
                    columns as nat,
                    r,
                ) + c]) == layout_slot(layout, r, c) by {
                    lemma_slot_in_grid(y as nat, columns as nat, r, c);
                    assert(before[row_start(columns as nat, r) + c] == layout_slot(layout, r, c));
                }
                assert forall|c: nat| c < x + 1 implies (#[trigger] slots@[row_start(
                    columns as nat,
                    y as nat,
                ) + c]) == layout_slot(layout, y as nat, c) by {
                    if c < x {
                        assert(before[row_start(columns as nat, y as nat) + c] == layout_slot(layout, y as nat, c));
                    }
                }
            }
            x += 1;
        }
        y += 1;
    }
    proof {
        lemma_layout_slots_form_board(slots@, layout);
    }
    BoardGrid::from_slots(slots, row_count, columns)
}

/// Reads a board from the lines of a layout. The board has one row for each line
/// that is neither empty nor a comment, and one tile for each pair of tile
/// characters of a row; every tile stands where the geometry puts its row and
/// column. A layout is a fixed part of the program, not something its user
/// enters, and one with a faulty row is no input of this function: whoever
/// cannot vouch for a layout puts it to `try_load_layout`.
pub fn load_layout(lines: &Vec<String>) -> (board: BoardGrid)
    requires
        layout_error(texts(lines@)) is None,
    ensures
        is_layout_board(board, layout_rows(texts(lines@))),
{
    let rows = tile_rows(lines);
    board_of_rows(&rows)
}

/// Reads a board from the lines of a layout that may have a faulty row. A layout
/// without one gives the board that `load_layout` gives; any other gives the
/// fault of its first faulty row, and no board.
pub fn try_load_layout(lines: &Vec<String>) -> (result: Result<BoardGrid, LayoutError>)
    ensures
        match result {
            Ok(board) => layout_error(texts(lines@)) is None && is_layout_board(
                board,
                layout_rows(texts(lines@)),
            ),
            Err(error) => layout_error(texts(lines@)) == Some(error),
        },
{
    let rows = tile_rows(lines);
    match find_row_error(&rows) {
        Some(error) => Err(error),
        None => Ok(board_of_rows(&rows)),
    }
}

} // verus!
