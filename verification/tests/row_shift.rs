use timetable::board::BoardGrid;
use timetable::clock::DepartureTime;
use timetable::layout::load_layout;
use timetable::schedule::fill_departure_times_from;
use timetable::schedule::fill_with_station_names;
use timetable::shift::put_next_train_in_last_row;
use timetable::shift::train_departure;
use timetable::shift::RowShiftEngine;
use timetable::shift::ShiftState;
use timetable::slot::TileSlot;
use timetable::stations::StationCatalog;

fn board_of(text: &[&str]) -> BoardGrid {
    let lines: Vec<String> = text.iter().map(|line| line.to_string()).collect();
    load_layout(&lines)
}

fn snapshot(board: &BoardGrid) -> Vec<TileSlot> {
    (0..board.len()).map(|i| board.slot(i)).collect()
}

fn current_text(board: &BoardGrid, row: usize) -> String {
    (board.row_start_index(row)..board.row_end_index(row))
        .map(|i| match board.slot(i).current_payload {
            Some(glyph) => glyph.to_char(),
            None => '_',
        })
        .collect()
}

fn target_text(board: &BoardGrid, row: usize) -> String {
    (board.row_start_index(row)..board.row_end_index(row))
        .map(|i| match board.slot(i).target_payload {
            Some(glyph) => glyph.to_char(),
            None => '_',
        })
        .collect()
}

fn minutes_of(text: &str) -> i64 {
    let digits: Vec<i64> = text.chars().map(|c| i64::from(c.to_digit(10).unwrap_or(0))).collect();
    (digits[0] * 10 + digits[1]) * 60 + digits[3] * 10 + digits[4]
}

#[test]
fn next_train_takes_the_last_row_as_targets() {
    let mut board = board_of(&["AzBzCzDzEzFzGzHz", "IyJyKyLyMyNyOyPy"]);
    // 1970-01-01 07:08 UTC.
    let time = DepartureTime::from_timestamp(7 * 3600 + 8 * 60).unwrap();
    put_next_train_in_last_row(&mut board, time, "Ely");
    assert_eq!(target_text(&board, 1), "ELY07:08");
    // Only the separator is set in place.
    assert_eq!(current_text(&board, 1), "IJKLM:OP");
    assert_eq!(current_text(&board, 0), "ABCDEFGH");
    assert_eq!(target_text(&board, 0), "ZZZZZZZZ");
}

#[test]
fn long_name_gives_way_to_the_time() {
    let mut board = board_of(&["AzBzCzDzEzFzGzHz"]);
    let time = DepartureTime::from_timestamp(23 * 3600 + 59 * 60).unwrap();
    put_next_train_in_last_row(&mut board, time, "Paddington");
    assert_eq!(target_text(&board, 0), "PAD23:59");
}

#[test]
fn departure_moves_rows_up_and_adds_the_next_train() {
    let mut board = board_of(&["AzBzCzDzEzFzGzHz", "IyJyKyLyMyNyOyPy", "QxRxSxTxUxVxWxXx"]);
    let before = snapshot(&board);
    let last = DepartureTime::from_timestamp(10 * 3600).unwrap();
    let next = train_departure(&mut board, last, "Ayr");
    let minutes = (next.timestamp() - last.timestamp()) / 60;
    assert_eq!((next.timestamp() - last.timestamp()) % 60, 0);
    assert!(13 <= minutes && minutes < 90);
    assert_eq!(target_text(&board, 0), "IJKLMNOP");
    assert_eq!(target_text(&board, 1), "QRSTUVWX");
    let bottom = target_text(&board, 2);
    assert_eq!(&bottom[0..3], "AYR");
    assert_eq!(&bottom[5..6], ":");
    assert_eq!(minutes_of(&bottom[3..8]), 600 + minutes);
    assert_eq!(current_text(&board, 0), "ABCDEFGH");
    assert_eq!(current_text(&board, 1), "IJKLMNOP");
    assert_eq!(current_text(&board, 2), "QRSTU:WX");
    let after = snapshot(&board);
    for i in 0..board.len() {
        assert_eq!((after[i].x, after[i].y, after[i].kind), (before[i].x, before[i].y, before[i].kind));
    }
}

#[test]
fn new_engine_waits_for_the_animation() {
    let time = DepartureTime::from_timestamp(0).unwrap();
    let engine = RowShiftEngine::new(time);
    assert_eq!(engine.state(), ShiftState::ShiftInFlight);
    assert!(!engine.allow_next_departure());
    assert_eq!(engine.last_time(), time);
}

#[test]
fn only_a_finished_tick_allows_a_departure() {
    let mut engine = RowShiftEngine::new(DepartureTime::from_timestamp(0).unwrap());
    engine.tick(false);
    assert!(!engine.allow_next_departure());
    engine.tick(true);
    assert!(engine.allow_next_departure());
    assert_eq!(engine.state(), ShiftState::Idle);
    engine.tick(false);
    assert!(engine.allow_next_departure());
    engine.tick(true);
    assert!(engine.allow_next_departure());
}

#[test]
fn request_is_dropped_while_a_shift_is_under_way() {
    let mut board = board_of(&["AzBzCzDzEzFzGzHz", "IyJyKyLyMyNyOyPy"]);
    let before = snapshot(&board);
    let time = DepartureTime::from_timestamp(1_000_000_000).unwrap();
    let mut engine = RowShiftEngine::new(time);
    assert!(!engine.request_departure(&mut board, "Ely"));
    assert_eq!(snapshot(&board), before);
    assert_eq!(engine.last_time(), time);
    assert!(!engine.allow_next_departure());
}

#[test]
fn second_request_waits_for_the_first_to_be_carried_out() {
    let mut board = board_of(&["AzBzCzDzEzFzGzHz", "IyJyKyLyMyNyOyPy"]);
    let time = DepartureTime::from_timestamp(1_000_000_000).unwrap();
    let mut engine = RowShiftEngine::new(time);
    engine.tick(true);
    assert!(engine.request_departure(&mut board, "Ely"));
    let first = engine.last_time();
    assert!(first.timestamp() > time.timestamp());
    assert!(!engine.allow_next_departure());
    let shifted = snapshot(&board);
    assert!(!engine.request_departure(&mut board, "Ayr"));
    assert_eq!(snapshot(&board), shifted);
    assert_eq!(engine.last_time(), first);
    engine.tick(false);
    assert!(!engine.request_departure(&mut board, "Ayr"));
    engine.tick(true);
    assert!(engine.request_departure(&mut board, "Ayr"));
    assert!(engine.last_time().timestamp() >= first.timestamp() + 13 * 60);
    assert_eq!(&target_text(&board, 1)[0..3], "AYR");
}

#[test]
fn one_shift_of_a_small_board_from_end_to_end() {
    // Two rows of eight tiles: a name of up to eight tiles, of which the time
    // takes the last five.
    let mut board = board_of(&["                ", "                "]);
    let stations = StationCatalog::load_station_names(vec!["Abc".to_string()]).unwrap();
    fill_with_station_names(&mut board, &stations);
    board.fill_time_commas();
    let start = DepartureTime::from_timestamp(1_700_000_000).unwrap();
    let initial = fill_departure_times_from(&mut board, start);
    assert_eq!(&current_text(&board, 0)[0..3], "ABC");
    assert_eq!(&current_text(&board, 1)[0..3], "ABC");
    let second_row = current_text(&board, 1);

    let mut engine = RowShiftEngine::new(initial);
    engine.tick(true);
    assert!(engine.allow_next_departure());
    assert!(engine.request_random_departure(&mut board, &stations));

    // Row 0 is to show what row 1 showed, and row 1 the new train.
    assert_eq!(target_text(&board, 0), second_row);
    assert_eq!(&target_text(&board, 0)[0..3], "ABC");
    let bottom = target_text(&board, 1);
    assert_eq!(&bottom[0..3], "ABC");
    assert_eq!(&bottom[5..6], ":");
    let minutes = (engine.last_time().timestamp() - initial.timestamp()) / 60;
    assert_eq!((engine.last_time().timestamp() - initial.timestamp()) % 60, 0);
    assert!(13 <= minutes && minutes < 90);
    assert_eq!(
        minutes_of(&bottom[3..8]),
        (engine.last_time().timestamp() / 60).rem_euclid(1440)
    );

    // No further shift until the animation reports that it has finished.
    assert!(!engine.allow_next_departure());
    let shifted = snapshot(&board);
    assert!(!engine.request_random_departure(&mut board, &stations));
    assert_eq!(snapshot(&board), shifted);
    engine.tick(true);
    assert!(engine.allow_next_departure());
}

#[test]
fn name_fills_a_row_of_four_tiles() {
    // Four tiles hold a name and no time: the time field needs five.
    let mut board = board_of(&["        ", "        "]);
    let stations = StationCatalog::load_station_names(vec!["Abc".to_string()]).unwrap();
    fill_with_station_names(&mut board, &stations);
    assert_eq!(current_text(&board, 0), "ABC_");
    assert_eq!(current_text(&board, 1), "ABC_");
    board.move_all_rows_up();
    assert_eq!(target_text(&board, 0), "ABC_");
    board.fill_row_with_text(1, "Abcdefgh", true);
    assert_eq!(target_text(&board, 1), "ABCD");
}
