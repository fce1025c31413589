//! Where the tiles of a board are drawn.
//!
//! The board is laid out for a screen of fixed size and for a full grid of 15
//! rows of 36 tiles, with a fixed pitch from one tile to the next. The full grid
//! is centred on the screen: the margin left of the first column is half of what
//! the columns of the full grid leave of the screen's width, and likewise above
//! the first row. The margins are the same for every board, so a tile stands
//! where its row and column put it, whatever the size of the board it is on.

use vstd::prelude::*;

verus! {

/// Width of the screen in display units.
pub const SCREEN_WIDTH: u32 = 1920;

/// Height of the screen in display units.
pub const SCREEN_HEIGHT: u32 = 1080;

/// Width of a tile.
pub const TILE_WIDTH: u32 = 44;

/// Height of a tile.
pub const TILE_HEIGHT: u32 = 54;

/// Gap between two neighbouring tiles: half of what a tile leaves of a cell 50
/// units wide.
pub const TILE_SPACING: u32 = 3;

/// Distance from the left edge of a tile to the left edge of the next: the width
/// of a tile and one gap.
pub const COLUMN_PITCH: u32 = 47;

/// Distance from the top edge of a tile to the top edge of the tile below: the
/// height of a tile and one gap.
pub const ROW_PITCH: u32 = 57;

/// How many tiles a row of the full grid has.
pub const TILES_PER_ROW: usize = 36;

/// How many rows the full grid has.
pub const TILES_PER_COLUMN: usize = 15;

/// The margin left of the first column: half of what the columns of the full
/// grid leave of the screen's width.
pub const BOARD_LEFT_MARGIN: u32 = 114;

/// The margin above the first row: half of what the rows of the full grid leave
/// of the screen's height.
pub const BOARD_TOP_MARGIN: u32 = 112;

/// Whether a grid of `rows` by `columns` tiles lies within the full grid.
pub open spec fn fits_grid(rows: nat, columns: nat) -> bool {
    &&& rows <= TILES_PER_COLUMN
    &&& columns <= TILES_PER_ROW
}

/// Horizontal position of the tiles of `column`.
pub open spec fn tile_x(column: nat) -> int {
    BOARD_LEFT_MARGIN + COLUMN_PITCH * column
}

/// Vertical position of the tiles of `row`.
pub open spec fn tile_y(row: nat) -> int {
    BOARD_TOP_MARGIN + ROW_PITCH * row
}

/// The margins centre the full grid on the screen, a remainder of one unit
/// going to the far side, and every tile of the full grid lies on the screen.
pub proof fn lemma_full_grid_is_centred()
    ensures
        BOARD_LEFT_MARGIN == (SCREEN_WIDTH - COLUMN_PITCH * TILES_PER_ROW) / 2,
        BOARD_TOP_MARGIN == (SCREEN_HEIGHT - ROW_PITCH * TILES_PER_COLUMN) / 2,
        forall|row: nat, column: nat|
            row < TILES_PER_COLUMN && column < TILES_PER_ROW ==> {
                &&& 0 <= #[trigger] tile_x(column)
                &&& tile_x(column) + TILE_WIDTH <= SCREEN_WIDTH
                &&& 0 <= #[trigger] tile_y(row)
                &&& tile_y(row) + TILE_HEIGHT <= SCREEN_HEIGHT
            },
{
}

/// Tells whether a grid of `rows` by `columns` tiles lies within the full grid.
pub fn grid_fits(rows: usize, columns: usize) -> (fits: bool)
    ensures
        fits == fits_grid(rows as nat, columns as nat),
{
    rows <= TILES_PER_COLUMN && columns <= TILES_PER_ROW
}

/// The position `(x, y)` of the tile at `row` and `column`.
pub fn tile_position(row: usize, column: usize) -> (position: (i32, i32))
    requires
        row < TILES_PER_COLUMN,
        column < TILES_PER_ROW,
    ensures
        position.0 == tile_x(column as nat),
        position.1 == tile_y(row as nat),
        0 <= position.0 < SCREEN_WIDTH,
        0 <= position.1 < SCREEN_HEIGHT,
{
    let x: u32 = BOARD_LEFT_MARGIN + COLUMN_PITCH * (column as u32);
    let y: u32 = BOARD_TOP_MARGIN + ROW_PITCH * (row as u32);
    (x as i32, y as i32)
}

} // verus!
