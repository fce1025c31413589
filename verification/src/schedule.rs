//! The departure scheduler: when the next train leaves, and the first filling of
//! a board with station names and departure times.
//!
//! Departures follow one another at random intervals of 13 to 89 minutes. A
//! schedule starts at some moment, and every further time in it is drawn from
//! the time before.

use vstd::prelude::*;
use crate::board::BoardGrid;
use crate::board::TIME_FIELD_WIDTH;
use crate::board::with_row_text;
use crate::board::with_row_time;
use crate::chance::random_in_range;
use crate::clock::DepartureTime;
use crate::clock::SECONDS_PER_MINUTE;
use crate::clock::is_timestamp;
use crate::slot::TileSlot;
use crate::stations::StationCatalog;

verus! {

/// The shortest interval between two departures, in minutes.
pub const TIME_DIFFERENCE_MINIMUM: i64 = 13;

/// The bound that the interval between two departures stays below, in minutes.
pub const TIME_DIFFERENCE_MAXIMUM: i64 = 90;

/// Whether `next` can follow `previous` in a schedule: it lies a whole number of
/// minutes later, at least the shortest interval and less than the bound.
pub open spec fn is_next_departure(previous: int, next: int) -> bool {
    &&& (next - previous) % (SECONDS_PER_MINUTE as int) == 0
    &&& TIME_DIFFERENCE_MINIMUM <= (next - previous) / (SECONDS_PER_MINUTE as int)
        < TIME_DIFFERENCE_MAXIMUM
}

/// Whether `departures` further departures can be scheduled after the moment
/// `secs`, whatever intervals are drawn: the latest moment that they can reach
/// can still be held.
pub open spec fn has_room(secs: int, departures: nat) -> bool {
    is_timestamp(secs + departures * (SECONDS_PER_MINUTE * (TIME_DIFFERENCE_MAXIMUM - 1)))
}

/// Whether `times` is a schedule that starts at `start`: each time after the
/// first follows the time before it.
pub open spec fn is_schedule(start: int, times: Seq<int>) -> bool {
    &&& times.len() > 0
    &&& times[0] == start
    &&& forall|i: int|
        0 <= i < times.len() - 1 ==> is_next_departure(#[trigger] times[i], times[i + 1])
}

/// The slots after the first `rows` rows were given the first `rows` times of
/// `times` as their current time, one row after the other.
pub open spec fn with_departure_times(
    slots: Seq<TileSlot>,
    columns: nat,
    times: Seq<int>,
    rows: nat,
) -> Seq<TileSlot>
    decreases rows,
{
    if rows == 0 {
        slots
    } else {
        with_row_time(
            with_departure_times(slots, columns, times, (rows - 1) as nat),
            columns,
            (rows - 1) as nat,
            times[rows - 1],
            false,
        )
    }
}

/// The slots after the first `rows` rows were given the first `rows` names of
/// `names` as their current text, one row after the other.
pub open spec fn with_station_names(
    slots: Seq<TileSlot>,
    columns: nat,
    names: Seq<Seq<char>>,
    rows: nat,
) -> Seq<TileSlot>
    decreases rows,
{
    if rows == 0 {
        slots
    } else {
        with_row_text(
            with_station_names(slots, columns, names, (rows - 1) as nat),
            columns,
            (rows - 1) as nat,
            names[rows - 1],
            false,
        )
    }
}

/// A time that follows another is strictly later, by 13 minutes at least and by
/// less than 90.
pub proof fn lemma_next_departure_is_later(previous: int, next: int)
    requires
        is_next_departure(previous, next),
    ensures
        previous < next,
        TIME_DIFFERENCE_MINIMUM * SECONDS_PER_MINUTE <= next - previous < TIME_DIFFERENCE_MAXIMUM
            * SECONDS_PER_MINUTE,
{
}

/// The times of a schedule increase strictly.
pub proof fn lemma_schedule_increases(start: int, times: Seq<int>, i: int, j: int)
    requires
        is_schedule(start, times),
        0 <= i < j < times.len(),
    ensures
        times[i] < times[j],
    decreases j - i,
{
    lemma_next_departure_is_later(times[j - 1], times[j]);
    if i < j - 1 {
        lemma_schedule_increases(start, times, i, j - 1);
    }
}

/// The filling of the first `rows` rows looks at the first `rows` names only.
pub proof fn lemma_station_names_prefix(
    slots: Seq<TileSlot>,
    columns: nat,
    names: Seq<Seq<char>>,
    longer: Seq<Seq<char>>,
    rows: nat,
)
    requires
        rows <= names.len() <= longer.len(),
        forall|i: int| 0 <= i < names.len() ==> names[i] == longer[i],
    ensures
        with_station_names(slots, columns, names, rows) == with_station_names(
            slots,
            columns,
            longer,
            rows,
        ),
    decreases rows,
{
    if rows > 0 {
        lemma_station_names_prefix(slots, columns, names, longer, (rows - 1) as nat);
    }
}

/// The filling of the first `rows` rows looks at the first `rows` times only.
pub proof fn lemma_departure_times_prefix(
    slots: Seq<TileSlot>,
    columns: nat,
    times: Seq<int>,
    longer: Seq<int>,
    rows: nat,
)
    requires
        rows <= times.len() <= longer.len(),
        forall|i: int| 0 <= i < times.len() ==> times[i] == longer[i],
    ensures
        with_departure_times(slots, columns, times, rows) == with_departure_times(
            slots,
            columns,
            longer,
            rows,
        ),
    decreases rows,
{
    if rows > 0 {
        lemma_departure_times_prefix(slots, columns, times, longer, (rows - 1) as nat);
    }
}

/// Tells whether `departures` further departures can be scheduled after `time`.
pub fn can_schedule(time: DepartureTime, departures: usize) -> (possible: bool)
    requires
        time.wf(),
    ensures
        possible == has_room(time@, departures as nat),
{
    let longest: i64 = TIME_DIFFERENCE_MAXIMUM - 1;
    assert(departures * longest == 89 * departures && departures * (SECONDS_PER_MINUTE * (
        TIME_DIFFERENCE_MAXIMUM - 1)) == 5340 * departures) by (nonlinear_arith)
        requires
            longest == 89,
            SECONDS_PER_MINUTE == 60,
            TIME_DIFFERENCE_MAXIMUM == 90,
    ;
    // No schedule that can be held is longer than this many departures.
    if departures > 4_000_000_000 {
        return false;
    }
    time.can_add_minutes((departures as i64) * longest)
}

/// Draws the time of the next departure: `time` and a random number of minutes,
/// at least 13 and less than 90.
pub fn increase_departure_time(time: DepartureTime) -> (next: DepartureTime)
    requires
        time.wf(),
        has_room(time@, 1),
    ensures
        next.wf(),
        is_next_departure(time@, next@),
{
    let minutes = random_in_range(TIME_DIFFERENCE_MINIMUM as u64, TIME_DIFFERENCE_MAXIMUM as u64);
    time.plus_minutes(minutes as i64)
}

/// Room for several departures is room for one and then for the rest.
pub proof fn lemma_room_for_next(secs: int, next: int, departures: nat)
    requires
        is_timestamp(secs),
        departures > 0,
        has_room(secs, departures),
        is_next_departure(secs, next),
    ensures
        has_room(secs, 1),
        is_timestamp(next),
        has_room(next, (departures - 1) as nat),
{
    let longest = SECONDS_PER_MINUTE * (TIME_DIFFERENCE_MAXIMUM - 1);
    assert(departures * longest == (departures - 1) * longest + longest) by (nonlinear_arith);
    assert(0 <= (departures - 1) * longest) by (nonlinear_arith)
        requires
            departures >= 1,
            longest >= 0,
    ;
    assert(1 * longest == longest);
}

/// Shows a station name in every row, each drawn from `stations` on its own.
/// The names are written as current payloads; every target stays.
pub fn fill_with_station_names(board: &mut BoardGrid, stations: &StationCatalog)
    requires
        old(board).wf(),
        stations.wf(),
    ensures
        final(board).wf(),
        old(board).same_frame(final(board)),
        exists|names: Seq<Seq<char>>|
            {
                &&& names.len() == old(board).rows()
                &&& forall|row: int| 0 <= row < names.len() ==> stations@.contains(#[trigger] names[row])
                &&& final(board)@ == #[trigger] with_station_names(
                    old(board)@,
                    old(board).columns(),
                    names,
                    old(board).rows(),
                )
            },
{
    let rows = board.row_count();
    let ghost mut names: Seq<Seq<char>> = Seq::empty();
    let mut row: usize = 0;
    while row < rows
        invariant
            row <= rows,
            rows == board.rows(),
            board.wf(),
            stations.wf(),
            old(board).same_frame(board),
            names.len() == row,
            forall|r: int| 0 <= r < names.len() ==> stations@.contains(#[trigger] names[r]),
            board@ == with_station_names(old(board)@, old(board).columns(), names, row as nat),
        decreases rows - row,
    {
        let name = stations.get_random_station_name();
        board.fill_row_with_text(row, name, false);
        proof {
            let before = names;
            names = names.push(name@);
            lemma_station_names_prefix(old(board)@, board.columns(), before, names, row as nat);
        }
        row += 1;
    }
    proof {
        assert(board@ == with_station_names(old(board)@, old(board).columns(), names, rows as nat));
    }
}

/// Shows a departure time in every row, from the top down: the first row shows
/// `start`, and every further row a time drawn from that of the row above. The
/// times are written as current payloads; every target stays. Returns the time
/// drawn after that of the last row, from which the next train is scheduled.
pub fn fill_departure_times_from(board: &mut BoardGrid, start: DepartureTime) -> (last: DepartureTime)
    requires
        old(board).wf(),
        old(board).columns() >= TIME_FIELD_WIDTH,
        start.wf(),
        has_room(start@, old(board).rows()),
    ensures
        final(board).wf(),
        old(board).same_frame(final(board)),
        last.wf(),
        exists|times: Seq<int>|
            {
                &&& times.len() == old(board).rows() + 1
                &&& is_schedule(start@, times)
                &&& last@ == times[old(board).rows() as int]
                &&& final(board)@ == #[trigger] with_departure_times(
                    old(board)@,
                    old(board).columns(),
                    times,
                    old(board).rows(),
                )
            },
{
    let rows = board.row_count();
    let mut departure_time = start;
    let ghost mut times: Seq<int> = seq![start@];
    let mut row: usize = 0;
    while row < rows
        invariant
            row <= rows,
            rows == board.rows(),
            board.wf(),
            board.columns() >= TIME_FIELD_WIDTH,
            old(board).same_frame(board),
            departure_time.wf(),
            has_room(departure_time@, (rows - row) as nat),
            times.len() == row + 1,
            is_schedule(start@, times),
            times[row as int] == departure_time@,
            board@ == with_departure_times(old(board)@, old(board).columns(), times, row as nat),
        decreases rows - row,
    {
        board.fill_row_departure_time(row, departure_time, false);
        let ghost shown = departure_time@;
        proof {
            assert(1 * (SECONDS_PER_MINUTE * (TIME_DIFFERENCE_MAXIMUM - 1)) == SECONDS_PER_MINUTE * (
                TIME_DIFFERENCE_MAXIMUM - 1));
            assert((rows - row) * (SECONDS_PER_MINUTE * (TIME_DIFFERENCE_MAXIMUM - 1)) >= 1 * (
                SECONDS_PER_MINUTE * (TIME_DIFFERENCE_MAXIMUM - 1))) by (nonlinear_arith)
                requires
                    rows - row >= 1,
            ;
        }
        departure_time = increase_departure_time(departure_time);
        proof {
            lemma_room_for_next(shown, departure_time@, (rows - row) as nat);
            let before = times;
            times = times.push(departure_time@);
            lemma_departure_times_prefix(old(board)@, board.columns(), before, times, row as nat);
            lemma_departure_times_prefix(
                old(board)@,
                board.columns(),
                before,
                times,
                (row + 1) as nat,
            );
        }
        row += 1;
    }
    proof {
        assert(board@ == with_departure_times(old(board)@, old(board).columns(), times, rows as nat));
    }
    departure_time
}

/// Shows a departure time in every row, from the top down and starting at
/// `clock`, the time that the caller has read from its clock, and returns the
/// time drawn after that of the last row, from which the next train is
/// scheduled. It does so exactly when that many departures can be scheduled
/// after `clock`; when they cannot, the board stays as it is and nothing is
/// returned.
pub fn fill_departure_times(board: &mut BoardGrid, clock: DepartureTime) -> (last: Option<DepartureTime>)
    requires
        old(board).wf(),
        old(board).columns() >= TIME_FIELD_WIDTH,
        clock.wf(),
    ensures
        final(board).wf(),
        old(board).same_frame(final(board)),
        last is Some <==> has_room(clock@, old(board).rows()),
        last matches Some(time) ==> time.wf(),
        is_filling_from(
            old(board)@,
            final(board)@,
            old(board).columns(),
            old(board).rows(),
            clock@,
            moment_of(last),
        ),
{
    if can_schedule(clock, board.row_count()) {
        Some(fill_departure_times_from(board, clock))
    } else {
        None
    }
}

/// The moment of a departure time that may be missing.
pub open spec fn moment_of(time: Option<DepartureTime>) -> Option<int> {
    match time {
        Some(time) => Some(time@),
        None => None,
    }
}

/// Whether `after` and `last` are what comes of showing a schedule that starts
/// at the moment `start` on the `rows` rows of `before`. Where there is room for
/// that many departures after `start`, there is a last time: the rows show a
/// schedule that starts at `start`, one time each, and `last` is the time that
/// follows that of the last row. Where there is no room, there is no last time
/// and the slots are as before.
pub open spec fn is_filling_from(
    before: Seq<TileSlot>,
    after: Seq<TileSlot>,
    columns: nat,
    rows: nat,
    start: int,
    last: Option<int>,
) -> bool {
    match last {
        Some(last) => has_room(start, rows) && exists|times: Seq<int>|
            {
                &&& times.len() == rows + 1
                &&& is_schedule(start, times)
                &&& last == times[rows as int]
                &&& after == #[trigger] with_departure_times(before, columns, times, rows)
            },
        None => !has_room(start, rows) && after == before,
    }
}

} // verus!
