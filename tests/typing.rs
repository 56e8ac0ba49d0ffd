use crabtype::{Event, Game, GameMode, KeyCode, KeyEvent, RoundStage, Stage, Stats};

fn key(code: KeyCode) -> Event {
    Event::Key(KeyEvent { code, control: false })
}

fn ch(c: char) -> Event {
    key(KeyCode::Char(c))
}

fn round_on(prompt: &str) -> Stage {
    let game = Game {
        game_mode: GameMode::single(prompt),
        stats_path: String::from("stats.toml"),
        stats: Stats::new(),
    };
    Stage::Round(game.next_round())
}

fn feed(stage: Stage, events: &[Event]) -> Stage {
    let mut s = stage;
    for e in events {
        s = s.handle_event(*e).expect("the stage should go on");
    }
    s
}

fn round(stage: &Stage) -> &RoundStage {
    match stage {
        Stage::Round(r) => r,
        Stage::End(_) => panic!("expected the typing screen"),
    }
}

#[test]
fn perfect_run_ends_and_restarts() {
    let s = feed(round_on("ab"), &[ch('a')]);
    assert_eq!(round(&s).index, 1);
    let s = feed(s, &[ch('b')]);
    match &s {
        Stage::End(e) => {
            assert_eq!(e.game.stats.attempts, 1);
            assert!(!e.failed_to_save);
            // two characters and one word: the character rate is twice the word rate
            let t = e.game.stats.tpm.last;
            let w = e.game.stats.wpm.last;
            assert!(t == 2 * w || t == 2 * w + 1);
            assert_eq!(e.game.stats.tpm.average, t);
        }
        Stage::Round(_) => panic!("expected the results screen"),
    }
    let s = feed(s, &[key(KeyCode::Enter)]);
    let r = round(&s);
    assert_eq!(r.index, 0);
    assert!(r.error.is_empty());
    assert!(r.start_time.is_none());
    assert_eq!(r.game.stats.attempts, 1);
}

#[test]
fn error_then_correct() {
    let s = feed(round_on("ab"), &[ch('a')]);
    assert_eq!(round(&s).index, 1);
    let s = feed(s, &[ch('x')]);
    assert_eq!(round(&s).index, 1);
    assert_eq!(round(&s).error, vec!['x']);
    let s = feed(s, &[key(KeyCode::Backspace)]);
    assert_eq!(round(&s).index, 1);
    assert!(round(&s).error.is_empty());
    let s = feed(s, &[ch('b')]);
    assert!(matches!(s, Stage::End(_)));
}

#[test]
fn space_is_shown_as_underscore() {
    let s = feed(round_on("ab"), &[ch('a'), ch(' ')]);
    assert_eq!(round(&s).index, 1);
    assert_eq!(round(&s).error, vec!['_']);
}

#[test]
fn backspace_steps_back_over_correct_text() {
    let s = feed(round_on("ab"), &[ch('a'), key(KeyCode::Backspace)]);
    assert_eq!(round(&s).index, 0);
    let s = feed(s, &[key(KeyCode::Backspace)]);
    assert_eq!(round(&s).index, 0);
    assert!(round(&s).error.is_empty());
    let s = feed(s, &[ch('a'), ch('b')]);
    assert!(matches!(s, Stage::End(_)));
}

#[test]
fn ctrl_c_exits_from_either_screen() {
    let ctrl_c = Event::Key(KeyEvent { code: KeyCode::Char('c'), control: true });
    assert!(round_on("ab").handle_event(ctrl_c).is_none());
    let s = feed(round_on("ab"), &[ch('a'), ch('x')]);
    assert!(s.handle_event(ctrl_c).is_none());
    let s = feed(round_on("ab"), &[ch('a'), ch('b')]);
    assert!(matches!(s, Stage::End(_)));
    assert!(s.handle_event(ctrl_c).is_none());
}

#[test]
fn plain_c_is_typing() {
    let s = feed(round_on("cd"), &[ch('c')]);
    assert_eq!(round(&s).index, 1);
}

#[test]
fn no_progress_while_errors_pending() {
    let s = feed(round_on("abc"), &[ch('x'), ch('a')]);
    assert_eq!(round(&s).index, 0);
    assert_eq!(round(&s).error, vec!['x', 'a']);
    let s = feed(s, &[key(KeyCode::Backspace), key(KeyCode::Backspace), ch('a')]);
    assert_eq!(round(&s).index, 1);
    assert!(round(&s).error.is_empty());
}

#[test]
fn clock_starts_on_first_character_only() {
    let s = round_on("abc");
    assert!(round(&s).start_time.is_none());
    let s = feed(s, &[key(KeyCode::Backspace), key(KeyCode::Other), key(KeyCode::Enter)]);
    assert!(round(&s).start_time.is_none());
    let s = feed(s, &[ch('z')]);
    let first = round(&s).start_time.expect("started");
    let s = feed(s, &[key(KeyCode::Backspace), ch('a'), ch('q')]);
    assert_eq!(round(&s).start_time, Some(first));
}

#[test]
fn other_events_change_nothing() {
    let s = feed(round_on("ab"), &[ch('a'), ch('x'), Event::Other, key(KeyCode::Other)]);
    assert_eq!(round(&s).index, 1);
    assert_eq!(round(&s).error, vec!['x']);
    let s = feed(s, &[key(KeyCode::Backspace), ch('b')]);
    let s = feed(s, &[ch('q'), Event::Other, key(KeyCode::Backspace)]);
    assert!(matches!(s, Stage::End(_)));
}

#[test]
fn end_only_on_last_character() {
    let s = feed(round_on("a b"), &[ch('a'), ch(' ')]);
    assert_eq!(round(&s).index, 2);
    let s = feed(s, &[ch('b')]);
    match s {
        Stage::End(e) => assert_eq!(e.game.stats.attempts, 1),
        Stage::Round(_) => panic!("expected the results screen"),
    }
}

#[test]
fn multibyte_prompt_is_indexed_by_character() {
    let s = feed(round_on("é✓x"), &[ch('é'), ch('✓')]);
    let r = round(&s);
    assert_eq!(r.index, 2);
    assert_eq!(r.done(), "é✓");
    assert_eq!(r.rest(), "x");
}

#[test]
fn display_parts_split_at_cursor() {
    let s = feed(round_on("hello"), &[ch('h'), ch('e')]);
    let r = round(&s);
    assert_eq!(r.done(), "he");
    assert_eq!(r.rest(), "llo");
    assert_eq!(r.text(), "hello");
}

#[test]
fn finish_records_exact_rates() {
    let game = Game {
        game_mode: GameMode::single("a b c"),
        stats_path: String::from("stats.toml"),
        stats: Stats::new(),
    };
    let mut r = game.next_round();
    r.index = 5;
    let e = r.finish(1000);
    // five characters and three words in one second, in hundredths per minute
    assert_eq!(e.game.stats.attempts, 1);
    assert_eq!(e.game.stats.tpm.last, 30_000);
    assert_eq!(e.game.stats.wpm.last, 18_000);
    assert_eq!(e.game.stats.tpm.average, 30_000);
    assert!(!e.failed_to_save);
    assert_eq!(e.game.stats_path, "stats.toml");
}

#[test]
fn empty_prompt_ends_on_first_key_without_dividing_by_zero() {
    let s = feed(round_on(""), &[ch('x')]);
    match s {
        Stage::End(e) => {
            assert_eq!(e.game.stats.attempts, 1);
            assert_eq!(e.game.stats.tpm.last, 0);
        }
        Stage::Round(_) => panic!("expected the results screen"),
    }
}
