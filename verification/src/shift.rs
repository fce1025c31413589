//! The row shift: a train departs, every row moves up by one, and the next
//! train takes the last row.
//!
//! A shift writes targets only. Bringing what a tile holds in line with its
//! target is the work of the animation, which reports on every tick whether it
//! has finished. The engine here decides when a shift may start: not before the
//! animation has reported that the last one was carried out.

use vstd::prelude::*;
use vstd::arithmetic::mul::lemma_mul_inequality;
use crate::board::BoardGrid;
use crate::board::SEPARATOR_OFFSET;
use crate::board::TIME_FIELD_WIDTH;
use crate::board::is_time_digit_offset;
use crate::board::lemma_row_in_grid;
use crate::board::lemma_rows_moved_up;
use crate::board::lemma_slot_in_grid;
use crate::board::row_start;
use crate::board::text_payload;
use crate::board::time_digit;
use crate::board::rows_moved_up;
use crate::board::with_row_text;
use crate::board::with_row_time;
use crate::board::with_separator;
use crate::clock::DepartureTime;
use crate::glyph::GlyphId;
use crate::glyph::digit_glyph;
use crate::schedule::has_room;
use crate::schedule::increase_departure_time;
use crate::schedule::is_next_departure;
use crate::slot::TileSlot;
use crate::stations::StationCatalog;

verus! {

/// The slots after the train to `station` at the moment `secs` was put in `row`:
/// the targets of the row show the station and the time, and the separator of the
/// time is at rest. Current payloads other than that of the separator stay.
pub open spec fn with_next_train(
    slots: Seq<TileSlot>,
    columns: nat,
    row: nat,
    station: Seq<char>,
    secs: int,
) -> Seq<TileSlot> {
    with_separator(
        with_row_time(with_row_text(slots, columns, row, station, true), columns, row, secs, true),
        columns,
        row,
    )
}

/// The slots after a departure: all rows have moved up, and the train to
/// `station` at the moment `secs` has taken the last row.
pub open spec fn with_departure(
    slots: Seq<TileSlot>,
    rows: nat,
    columns: nat,
    station: Seq<char>,
    secs: int,
) -> Seq<TileSlot> {
    with_next_train(rows_moved_up(slots, rows, columns), columns, (rows - 1) as nat, station, secs)
}

/// What a departure leaves on the board. Every row above the last is to show
/// what the row below it held before. The last row is to show the station from
/// its left end, cut off where the time field begins, then the hour, the
/// separator and the minute of the train. Nothing that a tile holds now has
/// changed but the separator of the last row, which is in place at once.
pub proof fn lemma_departure_shows_next_train(
    slots: Seq<TileSlot>,
    rows: nat,
    columns: nat,
    station: Seq<char>,
    secs: int,
)
    requires
        rows >= 1,
        columns >= TIME_FIELD_WIDTH,
        rows * columns <= slots.len(),
    ensures
        with_departure(slots, rows, columns, station, secs).len() == slots.len(),
        forall|row: nat, column: nat|
            row + 1 < rows && column < columns ==> (#[trigger] with_departure(
                slots,
                rows,
                columns,
                station,
                secs,
            )[row_start(columns, row) + column]).target_payload == slots[row_start(
                columns,
                row + 1,
            ) + column].current_payload,
        forall|column: nat|
            column + TIME_FIELD_WIDTH < columns ==> (#[trigger] with_departure(
                slots,
                rows,
                columns,
                station,
                secs,
            )[row_start(columns, (rows - 1) as nat) + column]).target_payload == text_payload(
                columns,
                station,
                column as int,
            ),
        forall|offset: int|
            is_time_digit_offset(offset) ==> (#[trigger] with_departure(
                slots,
                rows,
                columns,
                station,
                secs,
            )[rows * columns - offset]).target_payload == Some(
                digit_glyph(time_digit(secs, offset) as nat),
            ),
        with_departure(slots, rows, columns, station, secs)[rows * columns
            - SEPARATOR_OFFSET].target_payload == Some(GlyphId::Colon),
        with_departure(slots, rows, columns, station, secs)[rows * columns
            - SEPARATOR_OFFSET].current_payload == Some(GlyphId::Colon),
        forall|i: int|
            0 <= i < slots.len() && i != rows * columns - SEPARATOR_OFFSET ==> (
            #[trigger] with_departure(slots, rows, columns, station, secs)[i]).current_payload
                == slots[i].current_payload,
{
    let last = (rows - 1) as nat;
    let moved = rows_moved_up(slots, rows, columns);
    let shifted = with_departure(slots, rows, columns, station, secs);
    lemma_rows_moved_up(slots, rows, columns);
    lemma_row_in_grid(rows, columns, last);
    assert forall|row: nat, column: nat| row + 1 < rows && column < columns implies (
    #[trigger] shifted[row_start(columns, row) + column]).target_payload == slots[row_start(
        columns,
        row + 1,
    ) + column].current_payload by {
        lemma_slot_in_grid(rows, columns, row, column);
        lemma_row_in_grid(rows, columns, row);
        lemma_mul_inequality(row as int + 1, last as int, columns as int);
        assert(moved[row_start(columns, row) + column].target_payload == slots[row_start(
            columns,
            row + 1,
        ) + column].current_payload);
    }
}

/// Puts the train to `new_station` at `time` in the last row: its name and its
/// time as targets, and the separator of the time as both payloads.
pub fn put_next_train_in_last_row(board: &mut BoardGrid, time: DepartureTime, new_station: &str)
    requires
        old(board).wf(),
        old(board).rows() >= 1,
        old(board).columns() >= TIME_FIELD_WIDTH,
        time.wf(),
    ensures
        final(board).wf(),
        old(board).same_frame(final(board)),
        final(board)@ == with_next_train(
            old(board)@,
            old(board).columns(),
            (old(board).rows() - 1) as nat,
            new_station@,
            time@,
        ),
{
    let last_row = board.row_count() - 1;
    board.fill_row_with_text(last_row, new_station, true);
    board.fill_row_departure_time(last_row, time, true);
    // The separator is not to be animated: it is set in place.
    board.fill_time_comma(last_row);
}

/// Lets a train depart: draws the time of the next train from `last_time`, moves
/// all rows up and puts the train to `new_station` at that time in the last row.
/// Returns the time drawn.
pub fn train_departure(board: &mut BoardGrid, last_time: DepartureTime, new_station: &str) -> (next_time:
    DepartureTime)
    requires
        old(board).wf(),
        old(board).rows() >= 1,
        old(board).columns() >= TIME_FIELD_WIDTH,
        last_time.wf(),
        has_room(last_time@, 1),
    ensures
        final(board).wf(),
        old(board).same_frame(final(board)),
        next_time.wf(),
        is_next_departure(last_time@, next_time@),
        final(board)@ == with_departure(
            old(board)@,
            old(board).rows(),
            old(board).columns(),
            new_station@,
            next_time@,
        ),
{
    let next_time = increase_departure_time(last_time);
    board.move_all_rows_up();
    put_next_train_in_last_row(board, next_time, new_station);
    next_time
}

/// Whether a shift may start.
#[derive(Clone, Copy, Debug, PartialEq, Eq, Structural)]
pub enum ShiftState {
    /// No shift is under way: the next request starts one.
    Idle,
    /// A shift was started and the animation has not yet reported that it was
    /// carried out: requests are ignored.
    ShiftInFlight,
}

/// What can happen to the engine.
#[derive(Clone, Copy, Debug, PartialEq, Eq)]
pub enum ShiftEvent {
    /// A train is asked to depart.
    Request,
    /// The animation reports on one tick whether it has finished.
    Tick { finished: bool },
}

/// The state that follows `state` on `event`. After a request a shift is under
/// way: the request has started one, or one was under way and the request was
/// dropped. A tick that reports the animation finished ends the shift, and any
/// other tick leaves the state as it is.
pub open spec fn state_after(state: ShiftState, event: ShiftEvent) -> ShiftState {
    match event {
        ShiftEvent::Request => ShiftState::ShiftInFlight,
        ShiftEvent::Tick { finished } => if finished {
            ShiftState::Idle
        } else {
            state
        },
    }
}

/// The state that follows `state` on all of `events`, in order.
pub open spec fn state_after_all(state: ShiftState, events: Seq<ShiftEvent>) -> ShiftState
    decreases events.len(),
{
    if events.len() == 0 {
        state
    } else {
        state_after(state_after_all(state, events.drop_last()), events.last())
    }
}

/// Whether a request in `state` starts a shift.
pub open spec fn starts_shift(state: ShiftState) -> bool {
    state == ShiftState::Idle
}

/// Once a shift has started, no request starts another until the animation has
/// reported that it finished: whatever requests and unfinished ticks follow the
/// first request, and however many, a shift is still under way after them and
/// the next request is dropped. The first tick that reports the animation
/// finished ends the shift, and the request after it starts the next one.
pub proof fn lemma_no_shift_until_finished(state: ShiftState, events: Seq<ShiftEvent>)
    requires
        forall|i: int| 0 <= i < events.len() ==> events[i] != (ShiftEvent::Tick { finished: true }),
    ensures
        state_after_all(state_after(state, ShiftEvent::Request), events)
            == ShiftState::ShiftInFlight,
        !starts_shift(state_after_all(state_after(state, ShiftEvent::Request), events)),
        starts_shift(
            state_after(
                state_after_all(state_after(state, ShiftEvent::Request), events),
                ShiftEvent::Tick { finished: true },
            ),
        ),
    decreases events.len(),
{
    if events.len() > 0 {
        lemma_no_shift_until_finished(state, events.drop_last());
        assert(events.last() == events[events.len() - 1]);
    }
}

/// Whether a shift may start, and the time of the last train scheduled.
#[derive(Clone, Copy, Debug)]
pub struct RowShiftEngine {
    state: ShiftState,
    last_time: DepartureTime,
}

impl RowShiftEngine {
    /// Whether a shift is under way.
    pub closed spec fn spec_state(&self) -> ShiftState {
        self.state
    }

    /// The time of the last train scheduled, from which the next is drawn.
    pub closed spec fn spec_last_time(&self) -> DepartureTime {
        self.last_time
    }

    /// Whether the next request starts a shift: it does exactly while no shift is
    /// under way.
    pub open spec fn spec_allow_next_departure(&self) -> bool {
        starts_shift(self.state())
    }

    /// The engine never holds a time that cannot be held.
    pub open spec fn wf(&self) -> bool {
        self.last_time().wf()
    }

    /// An engine for a board that was just filled and whose last scheduled time
    /// is `last_time`. It allows no departure until the animation reports that
    /// the filling was carried out.
    pub fn new(last_time: DepartureTime) -> (engine: RowShiftEngine)
        requires
            last_time.wf(),
        ensures
            engine.wf(),
            engine.state() == ShiftState::ShiftInFlight,
            engine.last_time() == last_time,
    {
        RowShiftEngine { state: ShiftState::ShiftInFlight, last_time }
    }

    /// Whether a shift is under way.
    #[verifier::when_used_as_spec(spec_state)]
    pub fn state(&self) -> (state: ShiftState)
        ensures
            state == self.state(),
    {
        self.state
    }

    /// Tells whether the next request starts a shift.
    #[verifier::when_used_as_spec(spec_allow_next_departure)]
    pub fn allow_next_departure(&self) -> (allowed: bool)
        ensures
            allowed == self.allow_next_departure(),
    {
        match self.state {
            ShiftState::Idle => true,
            ShiftState::ShiftInFlight => false,
        }
    }

    /// The time of the last train scheduled.
    #[verifier::when_used_as_spec(spec_last_time)]
    pub fn last_time(&self) -> (time: DepartureTime)
        ensures
            time == self.last_time(),
    {
        self.last_time
    }

    /// Takes the report of one tick of the animation. A report that the
    /// animation has finished allows the next departure; any other leaves the
    /// engine as it is. Nothing else allows a departure.
    pub fn tick(&mut self, finished: bool)
        ensures
            final(self).last_time() == old(self).last_time(),
            final(self).state() == state_after(old(self).state(), ShiftEvent::Tick { finished }),
    {
        if finished {
            self.state = ShiftState::Idle;
        }
    }

    /// Takes a request to let a train depart to `new_station`. While departures
    /// are allowed the train departs: the board is shifted, the time drawn
    /// becomes the last scheduled one, and no further departure is allowed.
    /// Otherwise the request is dropped and nothing changes. Returns whether the
    /// board was shifted, which is when the animation has to be told that slots
    /// have changed.
    pub fn request_departure(&mut self, board: &mut BoardGrid, new_station: &str) -> (shifted: bool)
        requires
            old(self).wf(),
            old(board).wf(),
            old(self).allow_next_departure() ==> {
                &&& old(board).rows() >= 1
                &&& old(board).columns() >= TIME_FIELD_WIDTH
                &&& has_room(old(self).last_time()@, 1)
            },
        ensures
            final(self).wf(),
            final(board).wf(),
            old(board).same_frame(final(board)),
            shifted == old(self).allow_next_departure(),
            final(self).state() == state_after(old(self).state(), ShiftEvent::Request),
            shifted ==> {
                &&& is_next_departure(old(self).last_time()@, final(self).last_time()@)
                &&& final(board)@ == with_departure(
                    old(board)@,
                    old(board).rows(),
                    old(board).columns(),
                    new_station@,
                    final(self).last_time()@,
                )
            },
            !shifted ==> {
                &&& final(self).last_time() == old(self).last_time()
                &&& final(board)@ == old(board)@
            },
    {
        if self.allow_next_departure() {
            self.last_time = train_departure(board, self.last_time, new_station);
            self.state = ShiftState::ShiftInFlight;
            true
        } else {
            false
        }
    }

    /// Takes a request to let a train depart to a station drawn from `stations`.
    /// The station is drawn only if the train departs.
    pub fn request_random_departure(&mut self, board: &mut BoardGrid, stations: &StationCatalog) -> (shifted:
        bool)
        requires
            old(self).wf(),
            old(board).wf(),
            stations.wf(),
            old(self).allow_next_departure() ==> {
                &&& old(board).rows() >= 1
                &&& old(board).columns() >= TIME_FIELD_WIDTH
                &&& has_room(old(self).last_time()@, 1)
            },
        ensures
            final(self).wf(),
            final(board).wf(),
            old(board).same_frame(final(board)),
            shifted == old(self).allow_next_departure(),
            final(self).state() == state_after(old(self).state(), ShiftEvent::Request),
            shifted ==> {
                &&& is_next_departure(old(self).last_time()@, final(self).last_time()@)
                &&& exists|station: Seq<char>|
                    stations@.contains(station) && final(board)@ == #[trigger] with_departure(
                        old(board)@,
                        old(board).rows(),
                        old(board).columns(),
                        station,
                        final(self).last_time()@,
                    )
            },
            !shifted ==> {
                &&& final(self).last_time() == old(self).last_time()
                &&& final(board)@ == old(board)@
            },
    {
        if self.allow_next_departure() {
            let station = stations.get_random_station_name();
            self.request_departure(board, station)
        } else {
            false
        }
    }
}

} // verus!
