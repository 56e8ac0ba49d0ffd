use std::time::Instant;
use crate::clock::{clock_now, millis_since};
use crate::end::EndStage;
use crate::event::{KeyCode, KeyEvent};
use crate::game::Game;
use crate::stage::Stage;
use vstd::prelude::*;

verus! {

/// How a mistyped character is shown in the error buffer: a space as `_`.
pub open spec fn shown(c: char) -> char {
    if c == ' ' { '_' } else { c }
}

/// The number of spaces in `p`.
pub open spec fn spaces(p: Seq<char>) -> nat
    decreases p.len(),
{
    if p.len() == 0 {
        0
    } else {
        spaces(p.drop_last()) + if p.last() == ' ' { 1nat } else { 0nat }
    }
}

/// Whether typing `c` advances the cursor: nothing is pending in the error
/// buffer and `c` is the character under the cursor.
pub open spec fn advances(prompt: Seq<char>, index: nat, error: Seq<char>, c: char) -> bool {
    error.len() == 0 && index < prompt.len() && prompt[index as int] == c
}

/// Cursor and error buffer after the character `c` is typed.
pub open spec fn typed(prompt: Seq<char>, index: nat, error: Seq<char>, c: char) -> (nat, Seq<char>) {
    if advances(prompt, index, error, c) {
        (index + 1, error)
    } else {
        (index, error.push(shown(c)))
    }
}

/// Cursor and error buffer after Backspace: the last mistyped character goes
/// first; with none pending, the cursor steps back, never below zero.
pub open spec fn erased(index: nat, error: Seq<char>) -> (nat, Seq<char>) {
    if error.len() > 0 {
        (index, error.drop_last())
    } else if index > 0 {
        ((index - 1) as nat, error)
    } else {
        (0, error)
    }
}

/// The number of spaces in `s`.
fn count_spaces(s: &str) -> (r: usize)
    ensures
        r == spaces(s@),
{
    let len = s.unicode_len();
    let mut i: usize = 0;
    let mut n: usize = 0;
    while i < len
        invariant
            len == s@.len(),
            i <= len,
            n == spaces(s@.take(i as int)),
            n <= i,
        decreases len - i,
    {
        assert(s@.take(i as int + 1).drop_last() =~= s@.take(i as int));
        if s.get_char(i) == ' ' {
            n = n + 1;
        }
        i = i + 1;
    }
    assert(s@.take(len as int) =~= s@);
    n
}

/// The typing screen: a prompt of the pool, the cursor into it, the
/// mistyped characters not yet erased, and when typing began.
pub struct RoundStage {
    pub game: Game,
    pub text: usize,
    pub error: Vec<char>,
    pub index: usize,
    pub start_time: Option<Instant>,
}

impl Game {
    /// Starts a round on a freshly drawn prompt, with the cursor at its start.
    pub fn next_round(self) -> (r: RoundStage)
        requires
            self.wf(),
        ensures
            r.wf(),
            r.game == self,
            r.index == 0,
            r.error@.len() == 0,
            r.start_time is None,
    {
        let text = self.game_mode.next_text();
        RoundStage { game: self, text, error: Vec::new(), index: 0, start_time: None }
    }
}

impl RoundStage {
    /// The prompt being typed.
    pub open spec fn prompt(&self) -> Seq<char> {
        self.game.game_mode.prompts()[self.text as int]
    }

    /// The prompt is one of the pool, and the cursor never passes its end.
    pub open spec fn wf(&self) -> bool {
        &&& self.game.wf()
        &&& self.text < self.game.game_mode.prompts().len()
        &&& self.index <= self.prompt().len()
    }

    /// The results screen after `typed` characters of this round took
    /// `elapsed_ms` milliseconds.
    pub open spec fn ended(self, typed: nat, elapsed_ms: nat) -> EndStage {
        EndStage {
            game: Game {
                stats: self.game.stats.after_round(typed, spaces(self.prompt()) + 1, elapsed_ms),
                ..self.game
            },
            failed_to_save: false,
        }
    }

    /// `next` is what this round becomes on `key`: characters are checked
    /// against the prompt and the round ends once the cursor reaches its end;
    /// Backspace erases; the clock starts on the first character; other keys
    /// change nothing.
    pub open spec fn step(self, key: KeyEvent, next: Stage) -> bool {
        match key.code {
            KeyCode::Char(c) => {
                let (i, e) = typed(self.prompt(), self.index as nat, self.error@, c);
                if i == self.prompt().len() {
                    exists|ms: u64| next == Stage::End(#[trigger] self.ended(i, ms as nat))
                } else {
                    &&& next is Round
                    &&& next->Round_0.game == self.game
                    &&& next->Round_0.text == self.text
                    &&& next->Round_0.index == i
                    &&& next->Round_0.error@ == e
                    &&& next->Round_0.start_time is Some
                    &&& (self.start_time is Some ==> next->Round_0.start_time == self.start_time)
                }
            },
            KeyCode::Backspace => {
                let (i, e) = erased(self.index as nat, self.error@);
                &&& next is Round
                &&& next->Round_0.game == self.game
                &&& next->Round_0.text == self.text
                &&& next->Round_0.index == i
                &&& next->Round_0.error@ == e
                &&& next->Round_0.start_time == self.start_time
            },
            _ => next == Stage::Round(self),
        }
    }

    /// The prompt being typed.
    pub fn text(&self) -> (r: &str)
        requires
            self.wf(),
        ensures
            r@ == self.prompt(),
    {
        self.game.game_mode.text(self.text)
    }

    /// The part of the prompt typed correctly so far.
    pub fn done(&self) -> (r: &str)
        requires
            self.wf(),
        ensures
            r@ == self.prompt().take(self.index as int),
    {
        let t = self.text();
        t.substring_char(0, self.index)
    }

    /// The part of the prompt still to be typed.
    pub fn rest(&self) -> (r: &str)
        requires
            self.wf(),
        ensures
            r@ == self.prompt().skip(self.index as int),
    {
        let t = self.text();
        let r = t.substring_char(self.index, t.unicode_len());
        assert(r@ =~= self.prompt().skip(self.index as int));
        r
    }

    /// Ends the round after `elapsed_ms` milliseconds: its rates are folded
    /// into the scores.
    pub fn finish(self, elapsed_ms: u64) -> (r: EndStage)
        requires
            self.wf(),
        ensures
            r == self.ended(self.index as nat, elapsed_ms as nat),
    {
        let spaces = count_spaces(self.text());
        let mut game = self.game;
        game.stats.record_round(self.index, spaces, elapsed_ms);
        EndStage { game, failed_to_save: false }
    }

    /// Ends the round, timed from its first keystroke.
    fn end(self) -> (r: EndStage)
        requires
            self.wf(),
        ensures
            exists|ms: u64| r == #[trigger] self.ended(self.index as nat, ms as nat),
    {
        let ms = match &self.start_time {
            Some(t) => millis_since(t),
            None => 0,
        };
        self.finish(ms)
    }

    /// Consumes one keystroke.
    pub fn handle_key(self, key_event: KeyEvent) -> (r: Stage)
        requires
            self.wf(),
        ensures
            r.wf(),
            self.step(key_event, r),
    {
        let mut s = self;
        match key_event.code {
            KeyCode::Char(c) => {
                if s.start_time.is_none() {
                    s.start_time = Some(clock_now());
                }
                let len = s.text().unicode_len();
                let advance = s.error.len() == 0 && s.index < len && s.text().get_char(s.index) == c;
                if advance {
                    s.index = s.index + 1;
                } else {
                    let shown_c = if c == ' ' { '_' } else { c };
                    s.error.push(shown_c);
                }
                if s.index == len {
                    let r = s.end();
                    proof {
                        let ms = choose|ms: u64| r == #[trigger] s.ended(s.index as nat, ms as nat);
                        assert(s.ended(s.index as nat, ms as nat) == self.ended(s.index as nat, ms as nat));
                    }
                    Stage::End(r)
                } else {
                    Stage::Round(s)
                }
            },
            KeyCode::Backspace => {
                if s.error.len() > 0 {
                    s.error.pop();
                } else if s.index > 0 {
                    s.index = s.index - 1;
                }
                Stage::Round(s)
            },
            _ => Stage::Round(s),
        }
    }
}

/// The cursor moves forward exactly on a character that matches the prompt
/// under the cursor while no mistyped character is pending, and a step that
/// moves it forward leaves the error buffer empty.
pub proof fn lemma_progress_iff_expected(s: RoundStage, key: KeyEvent, next: Stage)
    requires
        s.wf(),
        s.step(key, next),
        next is Round,
    ensures
        next->Round_0.index == s.index + 1 <==> (key.code is Char && advances(
            s.prompt(),
            s.index as nat,
            s.error@,
            key.code->Char_0,
        )),
        next->Round_0.index == s.index + 1 ==> next->Round_0.error@.len() == 0,
{
}

/// A round ends exactly on a character that brings the cursor to the end of
/// the prompt; no other key ends it.
pub proof fn lemma_end_iff_complete(s: RoundStage, key: KeyEvent, next: Stage)
    requires
        s.wf(),
        s.step(key, next),
    ensures
        next is End <==> (key.code is Char && typed(
            s.prompt(),
            s.index as nat,
            s.error@,
            key.code->Char_0,
        ).0 == s.prompt().len()),
{
}

/// The clock of a round starts on its first character and is never reset
/// while the round lasts.
pub proof fn lemma_clock_starts_once(s: RoundStage, key: KeyEvent, next: Stage)
    requires
        s.wf(),
        s.step(key, next),
        next is Round,
    ensures
        key.code is Char ==> next->Round_0.start_time is Some,
        s.start_time is Some ==> next->Round_0.start_time == s.start_time,
{
}

} // verus!
