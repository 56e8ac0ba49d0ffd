use crabtype::{end_area, fits, round_area, Area, Game, GameMode, Stats};

#[test]
fn minimum_frame_size() {
    assert!(fits(21, 6));
    assert!(!fits(20, 6));
    assert!(!fits(21, 5));
    assert!(!fits(0, 0));
}

#[test]
fn prompt_area_between_margins_centred() {
    // width 100: margins of 20, 60 columns; 130 characters take 3 rows
    assert_eq!(round_area(100, 30, 130), Area { x: 20, y: 13, width: 60, height: 3 });
    // exactly two rows
    assert_eq!(round_area(100, 30, 120), Area { x: 20, y: 14, width: 60, height: 2 });
    // an empty text still takes one row
    assert_eq!(round_area(100, 30, 0), Area { x: 20, y: 14, width: 60, height: 1 });
}

#[test]
fn prompt_area_never_taller_than_frame() {
    assert_eq!(round_area(21, 6, 10_000), Area { x: 4, y: 0, width: 13, height: 6 });
}

#[test]
fn end_area_two_rows_at_middle() {
    assert_eq!(end_area(80, 24), Area { x: 0, y: 12, width: 80, height: 2 });
}

#[test]
fn round_area_counts_prompt_and_errors() {
    let game = Game { game_mode: GameMode::single("abcdefghij"), stats_path: String::new(), stats: Stats::new() };
    let mut r = game.next_round();
    r.error = vec!['x'; 5];
    // width 30: margins of 6, 18 columns; 15 characters fit one row
    assert_eq!(r.area(30, 10), Area { x: 6, y: 4, width: 18, height: 1 });
    r.error = vec!['x'; 9];
    assert_eq!(r.area(30, 10), Area { x: 6, y: 4, width: 18, height: 2 });
}
