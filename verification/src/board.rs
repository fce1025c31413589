//! The board: a grid of tile slots in row order, and what can be written to it.
//!
//! The grid slots come first, row after row, so that the slot at `row` and
//! `column` stands at index `row * columns + column`. Slots that are no tiles
//! (pits and spawners) follow the grid. The grid is never resized: every
//! operation rewrites payloads in place and leaves positions and kinds alone.

use vstd::prelude::*;
use vstd::arithmetic::mul::lemma_mul_inequality;
use vstd::arithmetic::mul::lemma_mul_is_commutative;
use vstd::arithmetic::div_mod::lemma_fundamental_div_mod_converse;
use crate::clock::DepartureTime;
use crate::clock::hour_of;
use crate::clock::minute_of;
use crate::geometry::fits_grid;
use crate::geometry::tile_x;
use crate::geometry::tile_y;
use crate::glyph::GlyphId;
use crate::glyph::char_to_payload;
use crate::glyph::digit_glyph;
use crate::glyph::payload_of;
use crate::slot::SlotKind;
use crate::slot::TileSlot;
use crate::text::chars_of;

verus! {

/// The longest station name that a row shows.
pub const MAX_STATION_NAME_LENGTH: usize = 31;

/// How many tiles at the end of a row show the departure time: two for the hour,
/// the separator, two for the minute.
pub const TIME_FIELD_WIDTH: usize = 5;

/// Where the separator of the time stands, counted back from the end of the row.
pub const SEPARATOR_OFFSET: usize = 3;

/// Index of the first slot of `row` in a grid `columns` wide.
pub open spec fn row_start(columns: nat, row: nat) -> int {
    (row * columns) as int
}

/// Index one past the last slot of `row` in a grid `columns` wide.
pub open spec fn row_end(columns: nat, row: nat) -> int {
    (row * columns + columns) as int
}

/// Whether index `i` belongs to `row` of a grid `columns` wide.
pub open spec fn in_row(columns: nat, row: nat, i: int) -> bool {
    row_start(columns, row) <= i < row_end(columns, row)
}

/// What a slot sequence must be to be a board of `rows` by `columns` tiles: the
/// grid lies within the full grid, its slots come first and are exactly the
/// classic ones, and each stands where the geometry puts its row and column.
pub open spec fn is_board(slots: Seq<TileSlot>, rows: nat, columns: nat) -> bool {
    &&& fits_grid(rows, columns)
    &&& rows * columns <= slots.len()
    &&& forall|i: int|
        0 <= i < slots.len() ==> ((#[trigger] slots[i]).kind == SlotKind::Classic <==> i < rows
            * columns)
    &&& forall|row: nat, column: nat|
        row < rows && column < columns ==> {
            &&& (#[trigger] slots[row_start(columns, row) + column]).x == tile_x(column)
            &&& slots[row_start(columns, row) + column].y == tile_y(row)
        }
}

/// A row of the grid lies inside the grid.
pub proof fn lemma_row_in_grid(rows: nat, columns: nat, row: nat)
    requires
        row < rows,
    ensures
        0 <= row_start(columns, row),
        row_end(columns, row) == row_start(columns, row) + columns,
        row_end(columns, row) <= rows * columns,
        row_start(columns, row + 1) == row_end(columns, row),
        row + 1 == rows ==> row_end(columns, row) == rows * columns,
{
    lemma_mul_inequality(row as int + 1, rows as int, columns as int);
    assert((row + 1) * columns == row * columns + columns) by (nonlinear_arith);
}

/// The index of the slot at `column` of `row` names no other row and column.
pub proof fn lemma_slot_in_grid(rows: nat, columns: nat, row: nat, column: nat)
    requires
        row < rows,
        column < columns,
    ensures
        0 <= row_start(columns, row) + column < rows * columns,
        in_row(columns, row, row_start(columns, row) + column),
        (row_start(columns, row) + column) / (columns as int) == row,
        (row_start(columns, row) + column) % (columns as int) == column,
{
    lemma_row_in_grid(rows, columns, row);
    lemma_mul_is_commutative(row as int, columns as int);
    lemma_fundamental_div_mod_converse(
        row_start(columns, row) + column,
        columns as int,
        row as int,
        column as int,
    );
}

/// How many characters of `text` a row `columns` wide shows: all of them, unless
/// the row or the longest station name is shorter.
pub open spec fn shown_len(columns: nat, text: Seq<char>) -> nat {
    if text.len() <= columns && text.len() <= MAX_STATION_NAME_LENGTH {
        text.len()
    } else if columns <= MAX_STATION_NAME_LENGTH {
        columns
    } else {
        MAX_STATION_NAME_LENGTH as nat
    }
}

/// What the tile at `column` of a row `columns` wide holds when the row shows
/// `text`: the payload of the character at `column` as far as the text is shown,
/// and nothing behind it.
pub open spec fn text_payload(columns: nat, text: Seq<char>, column: int) -> Option<GlyphId> {
    if 0 <= column < shown_len(columns, text) {
        payload_of(text[column])
    } else {
        None
    }
}

/// The slots after `text` was written to `row`: every slot of the row has the
/// payload that the text gives its column, as its target if `target_only` and as
/// its current payload if not; its other payload and all other slots stay.
pub open spec fn with_row_text(
    slots: Seq<TileSlot>,
    columns: nat,
    row: nat,
    text: Seq<char>,
    target_only: bool,
) -> Seq<TileSlot> {
    Seq::new(
        slots.len(),
        |i: int|
            if in_row(columns, row, i) {
                slots[i].with_payload(
                    text_payload(columns, text, i - row_start(columns, row)),
                    target_only,
                )
            } else {
                slots[i]
            },
    )
}

/// Whether a tile `offset` places before the end of its row shows a digit of the
/// departure time: the tens and units of the hour stand five and four places
/// before the end, those of the minute two and one.
pub open spec fn is_time_digit_offset(offset: int) -> bool {
    offset == 5 || offset == 4 || offset == 2 || offset == 1
}

/// The digit of the moment `secs` that is shown `offset` places before the end of
/// the row.
pub open spec fn time_digit(secs: int, offset: int) -> int {
    if offset == 5 {
        hour_of(secs) / 10
    } else if offset == 4 {
        hour_of(secs) % 10
    } else if offset == 2 {
        minute_of(secs) / 10
    } else {
        minute_of(secs) % 10
    }
}

/// The slots after the departure time `secs` was written to `row`: the four
/// digit tiles of the row have the glyphs of the hour and the minute, as their
/// target if `target_only` and as their current payload if not; their other
/// payload and all other slots stay, the separator between them included.
pub open spec fn with_row_time(
    slots: Seq<TileSlot>,
    columns: nat,
    row: nat,
    secs: int,
    target_only: bool,
) -> Seq<TileSlot> {
    Seq::new(
        slots.len(),
        |i: int|
            if is_time_digit_offset(row_end(columns, row) - i) {
                slots[i].with_payload(
                    Some(digit_glyph(time_digit(secs, row_end(columns, row) - i) as nat)),
                    target_only,
                )
            } else {
                slots[i]
            },
    )
}

/// The slots after the separator of the time was stamped on `row`: the tile three
/// places before the end of the row holds the colon as both of its payloads, so
/// that it is at rest; all other slots stay.
pub open spec fn with_separator(slots: Seq<TileSlot>, columns: nat, row: nat) -> Seq<TileSlot> {
    Seq::new(
        slots.len(),
        |i: int|
            if i == row_end(columns, row) - SEPARATOR_OFFSET {
                slots[i].with_payloads(Some(GlyphId::Colon))
            } else {
                slots[i]
            },
    )
}

/// The slots after the separator was stamped on each of the first `rows` rows.
pub open spec fn with_separators(slots: Seq<TileSlot>, columns: nat, rows: nat) -> Seq<TileSlot>
    decreases rows,
{
    if rows == 0 {
        slots
    } else {
        with_separator(with_separators(slots, columns, (rows - 1) as nat), columns, (rows - 1) as nat)
    }
}

/// The slots after every row took over, as its targets, what the row below holds
/// now: each tile that has a tile below it gets that tile's current payload as
/// its target. Current payloads stay, and so do the targets of the last row.
pub open spec fn rows_moved_up(slots: Seq<TileSlot>, rows: nat, columns: nat) -> Seq<TileSlot> {
    Seq::new(
        slots.len(),
        |i: int|
            if 0 <= i && i + columns < rows * columns {
                slots[i].with_payload(slots[i + columns].current_payload, true)
            } else {
                slots[i]
            },
    )
}

/// After the rows moved up, the target of every tile above the last row is what
/// the tile below it held before, and no current payload has changed.
pub proof fn lemma_rows_moved_up(slots: Seq<TileSlot>, rows: nat, columns: nat)
    requires
        rows * columns <= slots.len(),
    ensures
        rows_moved_up(slots, rows, columns).len() == slots.len(),
        forall|row: nat, column: nat|
            row + 1 < rows && column < columns ==> (#[trigger] rows_moved_up(
                slots,
                rows,
                columns,
            )[row_start(columns, row) + column]).target_payload == slots[row_start(
                columns,
                row + 1,
            ) + column].current_payload,
        forall|i: int|
            0 <= i < slots.len() ==> (#[trigger] rows_moved_up(
                slots,
                rows,
                columns,
            )[i]).current_payload == slots[i].current_payload,
        forall|column: nat|
            rows > 0 && column < columns ==> (#[trigger] rows_moved_up(
                slots,
                rows,
                columns,
            )[row_start(columns, (rows - 1) as nat) + column]) == slots[row_start(
                columns,
                (rows - 1) as nat,
            ) + column],
{
    let moved = rows_moved_up(slots, rows, columns);
    assert forall|row: nat, column: nat| row + 1 < rows && column < columns implies (
    #[trigger] moved[row_start(columns, row) + column]).target_payload == slots[row_start(
        columns,
        row + 1,
    ) + column].current_payload by {
        lemma_slot_in_grid(rows, columns, row + 1, column);
        lemma_row_in_grid(rows, columns, row);
    }
    assert forall|column: nat| rows > 0 && column < columns implies (#[trigger] moved[row_start(
        columns,
        (rows - 1) as nat,
    ) + column]) == slots[row_start(columns, (rows - 1) as nat) + column] by {
        lemma_slot_in_grid(rows, columns, (rows - 1) as nat, column);
        lemma_row_in_grid(rows, columns, (rows - 1) as nat);
    }
}

/// A text written to a row stays in the row: no slot of another row changes,
/// however long the text is, and of the slots of the row only the payload that
/// was asked for. A text longer than the row and than the longest station name is
/// cut off there: the row shows its first characters and nothing else of it.
pub proof fn lemma_row_text_is_truncated(
    slots: Seq<TileSlot>,
    columns: nat,
    row: nat,
    text: Seq<char>,
    target_only: bool,
)
    requires
        row_end(columns, row) <= slots.len(),
    ensures
        with_row_text(slots, columns, row, text, target_only).len() == slots.len(),
        shown_len(columns, text) <= columns,
        shown_len(columns, text) <= MAX_STATION_NAME_LENGTH,
        shown_len(columns, text) <= text.len(),
        forall|i: int|
            0 <= i < slots.len() && !in_row(columns, row, i) ==> #[trigger] with_row_text(
                slots,
                columns,
                row,
                text,
                target_only,
            )[i] == slots[i],
        forall|i: int|
            in_row(columns, row, i) ==> (#[trigger] with_row_text(
                slots,
                columns,
                row,
                text,
                target_only,
            )[i]).payload(!target_only) == slots[i].payload(!target_only),
        forall|column: int|
            0 <= column < shown_len(columns, text) ==> (#[trigger] with_row_text(
                slots,
                columns,
                row,
                text,
                target_only,
            )[row_start(columns, row) + column]).payload(target_only) == payload_of(text[column]),
        forall|column: int|
            shown_len(columns, text) <= column < columns ==> (#[trigger] with_row_text(
                slots,
                columns,
                row,
                text,
                target_only,
            )[row_start(columns, row) + column]).payload(target_only) is None,
{
    assert(0 <= row * columns) by (nonlinear_arith);
}

/// A text written to a row replaces the text that was written there before:
/// the row is as if the earlier text had never been written. So where the later
/// text is shorter, every tile behind it is empty, whatever the earlier text had
/// put there.
pub proof fn lemma_row_text_replaces(
    slots: Seq<TileSlot>,
    columns: nat,
    row: nat,
    earlier: Seq<char>,
    later: Seq<char>,
    target_only: bool,
)
    requires
        row_end(columns, row) <= slots.len(),
    ensures
        with_row_text(
            with_row_text(slots, columns, row, earlier, target_only),
            columns,
            row,
            later,
            target_only,
        ) == with_row_text(slots, columns, row, later, target_only),
        forall|column: int|
            shown_len(columns, later) <= column < columns ==> (#[trigger] with_row_text(
                with_row_text(slots, columns, row, earlier, target_only),
                columns,
                row,
                later,
                target_only,
            )[row_start(columns, row) + column]).payload(target_only) is None,
{
    assert(0 <= row * columns) by (nonlinear_arith);
    assert(with_row_text(
        with_row_text(slots, columns, row, earlier, target_only),
        columns,
        row,
        later,
        target_only,
    ) =~= with_row_text(slots, columns, row, later, target_only));
}

/// Rewriting payloads keeps a board a board.
pub proof fn lemma_payloads_keep_board(
    before: Seq<TileSlot>,
    after: Seq<TileSlot>,
    rows: nat,
    columns: nat,
)
    requires
        is_board(before, rows, columns),
        after.len() == before.len(),
        forall|i: int|
            0 <= i < before.len() ==> {
                &&& (#[trigger] after[i]).x == before[i].x
                &&& after[i].y == before[i].y
                &&& after[i].kind == before[i].kind
            },
    ensures
        is_board(after, rows, columns),
{
    assert forall|row: nat, column: nat| row < rows && column < columns implies {
        &&& (#[trigger] after[row_start(columns, row) + column]).x == tile_x(column)
        &&& after[row_start(columns, row) + column].y == tile_y(row)
    } by {
        lemma_slot_in_grid(rows, columns, row, column);
        assert(before[row_start(columns, row) + column].x == tile_x(column));
    }
}

/// The board.
#[derive(Clone, Debug)]
pub struct BoardGrid {
    slots: Vec<TileSlot>,
    rows: usize,
    columns: usize,
}

impl View for BoardGrid {
    type V = Seq<TileSlot>;

    /// All slots: the grid in row order, then the pits and spawners.
    closed spec fn view(&self) -> Seq<TileSlot> {
        self.slots@
    }
}

impl BoardGrid {
    /// How many rows the grid has.
    pub closed spec fn rows(&self) -> nat {
        self.rows as nat
    }

    /// How many tiles a row has.
    pub closed spec fn columns(&self) -> nat {
        self.columns as nat
    }

    /// The invariant of the board.
    pub open spec fn wf(&self) -> bool {
        is_board(self@, self.rows(), self.columns())
    }

    /// Whether `other` is this board with nothing changed but payloads.
    pub open spec fn same_frame(&self, other: &BoardGrid) -> bool {
        &&& other.rows() == self.rows()
        &&& other.columns() == self.columns()
        &&& other@.len() == self@.len()
        &&& forall|i: int|
            0 <= i < self@.len() ==> {
                &&& (#[trigger] other@[i]).x == self@[i].x
                &&& other@[i].y == self@[i].y
                &&& other@[i].kind == self@[i].kind
            }
    }

    /// The slots of a board can be counted in a `usize`.
    pub proof fn lemma_len_fits(&self)
        ensures
            self@.len() <= usize::MAX,
    {
        assert(self.slots@.len() == self.slots.len());
    }

    /// Makes a board of slots that are known to form one.
    pub(crate) fn from_slots(slots: Vec<TileSlot>, rows: usize, columns: usize) -> (board: BoardGrid)
        requires
            is_board(slots@, rows as nat, columns as nat),
        ensures
            board.wf(),
            board@ == slots@,
            board.rows() == rows,
            board.columns() == columns,
    {
        BoardGrid { slots, rows, columns }
    }

    /// How many rows the grid has.
    pub fn row_count(&self) -> (rows: usize)
        ensures
            rows == self.rows(),
    {
        self.rows
    }

    /// How many tiles a row has.
    pub fn column_count(&self) -> (columns: usize)
        ensures
            columns == self.columns(),
    {
        self.columns
    }

    /// How many slots the board has, pits and spawners included.
    pub fn len(&self) -> (n: usize)
        ensures
            n == self@.len(),
    {
        self.slots.len()
    }

    /// The slot at `index`.
    pub fn slot(&self, index: usize) -> (slot: TileSlot)
        requires
            index < self@.len(),
        ensures
            slot == self@[index as int],
    {
        self.slots[index]
    }

    /// Index of the first slot of `row`.
    pub fn row_start_index(&self, row: usize) -> (index: usize)
        requires
            self.wf(),
            row < self.rows(),
        ensures
            index == row_start(self.columns(), row as nat),
            index + self.columns() <= self.rows() * self.columns() <= self@.len(),
    {
        proof {
            self.lemma_len_fits();
            lemma_row_in_grid(self.rows as nat, self.columns as nat, row as nat);
        }
        row * self.columns
    }

    /// Index one past the last slot of `row`.
    pub fn row_end_index(&self, row: usize) -> (index: usize)
        requires
            self.wf(),
            row < self.rows(),
        ensures
            index == row_end(self.columns(), row as nat),
            index <= self.rows() * self.columns() <= self@.len(),
    {
        proof {
            self.lemma_len_fits();
        }
        self.row_start_index(row) + self.columns
    }

    /// Index of the slot at column `x` of row `y`.
    pub fn slot_index(&self, x: usize, y: usize) -> (index: usize)
        requires
            self.wf(),
            x < self.columns(),
            y < self.rows(),
        ensures
            index == row_start(self.columns(), y as nat) + x,
            index < self.rows() * self.columns() <= self@.len(),
    {
        proof {
            self.lemma_len_fits();
        }
        self.row_start_index(y) + x
    }
    /// Writes `text` to `row`, from the left, one character to a tile. The text
    /// is cut off at the end of the row and at the longest station name; the
    /// tiles behind it are emptied, so that nothing of an earlier text is left.
    /// Only one payload of each tile is written: the target if `target_only`,
    /// the current payload if not.
    pub fn fill_row_with_text(&mut self, row: usize, text: &str, target_only: bool)
        requires
            old(self).wf(),
            row < old(self).rows(),
        ensures
            final(self).wf(),
            old(self).same_frame(final(self)),
            final(self)@ == with_row_text(
                old(self)@,
                old(self).columns(),
                row as nat,
                text@,
                target_only,
            ),
    {
        let chars = chars_of(text);
        let start = self.row_start_index(row);
        let columns = self.columns;
        let mut shown = chars.len();
        if shown > columns {
            shown = columns;
        }
        if shown > MAX_STATION_NAME_LENGTH {
            shown = MAX_STATION_NAME_LENGTH;
        }
        proof {
            self.lemma_len_fits();
        }
        let mut column: usize = 0;
        while column < columns
            invariant
                column <= columns,
                columns == self.columns,
                self.rows == old(self).rows,
                self.columns == old(self).columns,
                chars@ == text@,
                shown == shown_len(columns as nat, text@),
                start == row_start(columns as nat, row as nat),
                start + columns <= self.slots@.len() <= usize::MAX,
                self.slots@.len() == old(self)@.len(),
                forall|i: int|
                    0 <= i < self.slots@.len() ==> #[trigger] self.slots@[i] == (if start <= i < start
                        + column {
                        old(self)@[i].with_payload(
                            text_payload(columns as nat, text@, i - start),
                            target_only,
                        )
                    } else {
                        old(self)@[i]
                    }),
            decreases columns - column,
        {
            let payload = if column < shown {
                char_to_payload(chars[column])
            } else {
                None
            };
            if target_only {
                self.slots[start + column].set_target_payload(payload);
            } else {
                self.slots[start + column].set_current_payload(payload);
            }
            column += 1;
        }
        proof {
            assert(self@ =~= with_row_text(
                old(self)@,
                old(self).columns(),
                row as nat,
                text@,
                target_only,
            ));
            lemma_payloads_keep_board(old(self)@, self@, self.rows(), self.columns());
        }
    }
    /// Writes the hour and the minute of `time` to the time field at the end of
    /// `row`, two digits each, and passes over the separator between them. Only
    /// one payload of each tile is written: the target if `target_only`, the
    /// current payload if not.
    pub fn fill_row_departure_time(&mut self, row: usize, time: DepartureTime, target_only: bool)
        requires
            old(self).wf(),
            row < old(self).rows(),
            old(self).columns() >= TIME_FIELD_WIDTH,
            time.wf(),
        ensures
            final(self).wf(),
            old(self).same_frame(final(self)),
            final(self)@ == with_row_time(
                old(self)@,
                old(self).columns(),
                row as nat,
                time@,
                target_only,
            ),
    {
        let end = self.row_end_index(row);
        let hour = time.hour();
        let minute = time.minute();
        let minute_tens = Some(GlyphId::from_digit(minute / 10));
        let minute_units = Some(GlyphId::from_digit(minute % 10));
        let hour_tens = Some(GlyphId::from_digit(hour / 10));
        let hour_units = Some(GlyphId::from_digit(hour % 10));
        proof {
            lemma_row_in_grid(self.rows(), self.columns(), row as nat);
        }
        if target_only {
            self.slots[end - 2].set_target_payload(minute_tens);
            self.slots[end - 1].set_target_payload(minute_units);
            self.slots[end - 5].set_target_payload(hour_tens);
            self.slots[end - 4].set_target_payload(hour_units);
        } else {
            self.slots[end - 2].set_current_payload(minute_tens);
            self.slots[end - 1].set_current_payload(minute_units);
            self.slots[end - 5].set_current_payload(hour_tens);
            self.slots[end - 4].set_current_payload(hour_units);
        }
        proof {
            assert(self@ =~= with_row_time(
                old(self)@,
                old(self).columns(),
                row as nat,
                time@,
                target_only,
            ));
            lemma_payloads_keep_board(old(self)@, self@, self.rows(), self.columns());
        }
    }

    /// Stamps the separator of the time on `row`: the colon, as both payloads of
    /// the tile three places before the end of the row.
    pub fn fill_time_comma(&mut self, row: usize)
        requires
            old(self).wf(),
            row < old(self).rows(),
            old(self).columns() >= SEPARATOR_OFFSET,
        ensures
            final(self).wf(),
            old(self).same_frame(final(self)),
            final(self)@ == with_separator(old(self)@, old(self).columns(), row as nat),
    {
        let end = self.row_end_index(row);
        proof {
            lemma_row_in_grid(self.rows(), self.columns(), row as nat);
        }
        self.slots[end - SEPARATOR_OFFSET].set_payloads(char_to_payload(':'));
        proof {
            assert(self@ =~= with_separator(old(self)@, old(self).columns(), row as nat));
            lemma_payloads_keep_board(old(self)@, self@, self.rows(), self.columns());
        }
    }

    /// Stamps the separator of the time on every row.
    pub fn fill_time_commas(&mut self)
        requires
            old(self).wf(),
            old(self).columns() >= SEPARATOR_OFFSET,
        ensures
            final(self).wf(),
            old(self).same_frame(final(self)),
            final(self)@ == with_separators(old(self)@, old(self).columns(), old(self).rows()),
    {
        let rows = self.rows;
        let mut row: usize = 0;
        while row < rows
            invariant
                row <= rows,
                rows == self.rows,
                self.wf(),
                self.columns() >= SEPARATOR_OFFSET,
                old(self).same_frame(self),
                self@ == with_separators(old(self)@, old(self).columns(), row as nat),
            decreases rows - row,
        {
            self.fill_time_comma(row);
            row += 1;
        }
    }

    /// Hands every row on to the row above: each tile that has a tile below it
    /// takes that tile's current payload as its own target. Current payloads are
    /// read and never written, so the result does not depend on the order in
    /// which the tiles are visited.
    pub fn move_all_rows_up(&mut self)
        requires
            old(self).wf(),
        ensures
            final(self).wf(),
            old(self).same_frame(final(self)),
            final(self)@ == rows_moved_up(old(self)@, old(self).rows(), old(self).columns()),
    {
        if self.rows == 0 {
            proof {
                assert(0 * self.columns() == 0) by (nonlinear_arith);
                assert(self@ =~= rows_moved_up(old(self)@, old(self).rows(), old(self).columns()));
            }
            return ;
        }
        let columns = self.columns;
        let last_start = self.row_start_index(self.rows - 1);
        proof {
            self.lemma_len_fits();
            lemma_row_in_grid(self.rows(), self.columns(), (self.rows - 1) as nat);
        }
        let mut index: usize = 0;
        while index < last_start
            invariant
                index <= last_start,
                columns == self.columns,
                self.rows == old(self).rows,
                self.columns == old(self).columns,
                last_start + columns == self.rows * self.columns,
                last_start + columns <= self.slots@.len() <= usize::MAX,
                self.slots@.len() == old(self)@.len(),
                forall|i: int|
                    0 <= i < self.slots@.len() ==> #[trigger] self.slots@[i] == (if i < index {
                        old(self)@[i].with_payload(old(self)@[i + columns].current_payload, true)
                    } else {
                        old(self)@[i]
                    }),
            decreases last_start - index,
        {
            let payloads = self.slots[index + columns].get_payloads();
            self.slots[index].set_target_payload(payloads[0]);
            index += 1;
        }
        proof {
            assert(self@ =~= rows_moved_up(old(self)@, old(self).rows(), old(self).columns()));
            lemma_payloads_keep_board(old(self)@, self@, self.rows(), self.columns());
        }
    }
    /// Adds a pit behind the slots that are there, and returns its index. A pit
    /// is no tile: it holds nothing and the grid is as before.
    pub fn add_pit(&mut self, x: i32, y: i32) -> (index: usize)
        requires
            old(self).wf(),
        ensures
            final(self).wf(),
            final(self).rows() == old(self).rows(),
            final(self).columns() == old(self).columns(),
            index == old(self)@.len(),
            final(self)@ == old(self)@.push(
                TileSlot { x, y, current_payload: None, target_payload: None, kind: SlotKind::Pit },
            ),
    {
        self.add_outer_slot(TileSlot::new(x, y, None, None, SlotKind::Pit))
    }

    /// Adds a spawner behind the slots that are there, and returns its index. A
    /// spawner is no tile: it holds nothing and the grid is as before.
    pub fn add_spawner(&mut self, x: i32, y: i32) -> (index: usize)
        requires
            old(self).wf(),
        ensures
            final(self).wf(),
            final(self).rows() == old(self).rows(),
            final(self).columns() == old(self).columns(),
            index == old(self)@.len(),
            final(self)@ == old(self)@.push(
                TileSlot {
                    x,
                    y,
                    current_payload: None,
                    target_payload: None,
                    kind: SlotKind::Spawner,
                },
            ),
    {
        self.add_outer_slot(TileSlot::new(x, y, None, None, SlotKind::Spawner))
    }

    /// Adds a slot that is no tile behind the slots that are there.
    fn add_outer_slot(&mut self, slot: TileSlot) -> (index: usize)
        requires
            old(self).wf(),
            slot.kind != SlotKind::Classic,
        ensures
            final(self).wf(),
            final(self).rows() == old(self).rows(),
            final(self).columns() == old(self).columns(),
            index == old(self)@.len(),
            final(self)@ == old(self)@.push(slot),
    {
        self.slots.push(slot);
        proof {
            assert forall|row: nat, column: nat| row < self.rows() && column < self.columns() implies {
                &&& (#[trigger] self@[row_start(self.columns(), row) + column]).x == tile_x(column)
                &&& self@[row_start(self.columns(), row) + column].y == tile_y(row)
            } by {
                lemma_slot_in_grid(self.rows(), self.columns(), row, column);
                assert(old(self)@[row_start(self.columns(), row) + column].x == tile_x(column));
            }
        }
        self.slots.len() - 1
    }

    /// Records what the animation has brought to the slot at `index`: `payload`
    /// becomes what the slot holds now. The target of the slot stays.
    pub fn set_current_payload(&mut self, index: usize, payload: Option<GlyphId>)
        requires
            old(self).wf(),
            index < old(self)@.len(),
        ensures
            final(self).wf(),
            old(self).same_frame(final(self)),
            final(self)@ == old(self)@.update(
                index as int,
                old(self)@[index as int].with_payload(payload, false),
            ),
    {
        self.slots[index].set_current_payload(payload);
        proof {
            assert(self@ =~= old(self)@.update(
                index as int,
                old(self)@[index as int].with_payload(payload, false),
            ));
            lemma_payloads_keep_board(old(self)@, self@, self.rows(), self.columns());
        }
    }
}

} // verus!
