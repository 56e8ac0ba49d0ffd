use crate::stats::Stats;
use vstd::prelude::*;

verus! {

/// The lines of `ls` that are not empty, in order.
pub open spec fn non_empty(ls: Seq<Seq<char>>) -> Seq<Seq<char>>
    decreases ls.len(),
{
    if ls.len() == 0 {
        Seq::empty()
    } else if ls.last().len() == 0 {
        non_empty(ls.drop_last())
    } else {
        non_empty(ls.drop_last()).push(ls.last())
    }
}

/// The text of each string of `v`.
pub open spec fn texts(v: Seq<String>) -> Seq<Seq<char>> {
    v.map_values(|s: String| s@)
}

/// Relies on `rand::Rng::gen_range` with `rand::thread_rng`: a value of the
/// half-open range `0..n`, which panics when the range is empty.
#[verifier::external_body]
fn random_below(n: usize) -> (r: usize)
    requires
        n > 0,
    ensures
        r < n,
{
    rand::Rng::gen_range(&mut rand::thread_rng(), 0..n)
}

/// A prompt source that could not be read.
#[derive(Debug)]
pub struct LoadError {
    pub path: String,
}

impl LoadError {
    /// The text shown in place of prompts that could not be read from `path`.
    pub open spec fn message_of(path: Seq<char>) -> Seq<char> {
        "Something is wrong with your "@ + path
    }

    pub fn new(path: &str) -> (r: LoadError)
        ensures
            r.path@ == path@,
    {
        LoadError { path: path.to_owned() }
    }

    /// The diagnostic for this failure.
    pub fn message(&self) -> (r: String)
        ensures
            r@ == Self::message_of(self.path@),
    {
        String::from_str("Something is wrong with your ").concat(self.path.as_str())
    }
}

/// The pool of prompts a round picks from.
pub struct GameMode {
    pub text: Vec<String>,
}

impl GameMode {
    /// The prompts, as character sequences.
    pub open spec fn prompts(&self) -> Seq<Seq<char>> {
        texts(self.text@)
    }

    /// A pool is never empty, so that a round can always pick a prompt.
    pub open spec fn wf(&self) -> bool {
        self.text@.len() > 0
    }

    /// The pool of a single prompt.
    pub fn single(value: &str) -> (r: GameMode)
        ensures
            r.wf(),
            r.prompts() == seq![value@],
    {
        let r = GameMode { text: vec![value.to_owned()] };
        assert(r.prompts() =~= seq![value@]);
        r
    }

    /// The pool that stands for a failed load: the diagnostic alone.
    pub fn from_error(value: LoadError) -> (r: GameMode)
        ensures
            r.wf(),
            r.prompts() == seq![LoadError::message_of(value.path@)],
    {
        let m = value.message();
        let r = GameMode { text: vec![m] };
        assert(r.prompts() =~= seq![LoadError::message_of(value.path@)]);
        r
    }

    /// The pool of the non-empty lines read from `path`, in order; where
    /// there is none, the pool holds the diagnostic for `path`.
    pub fn from_lines(lines: &Vec<String>, path: &str) -> (r: GameMode)
        ensures
            r.wf(),
            non_empty(texts(lines@)).len() > 0 ==> r.prompts() == non_empty(texts(lines@)),
            non_empty(texts(lines@)).len() == 0 ==> r.prompts() == seq![LoadError::message_of(path@)],
    {
        let mut kept: Vec<String> = Vec::new();
        let mut i: usize = 0;
        while i < lines.len()
            invariant
                i <= lines@.len(),
                texts(kept@) == non_empty(texts(lines@.take(i as int))),
            decreases lines@.len() - i,
        {
            let line = &lines[i];
            proof {
                assert(lines@.take(i as int + 1).drop_last() =~= lines@.take(i as int));
                assert(texts(lines@.take(i as int + 1)).drop_last() =~= texts(lines@.take(i as int)));
            }
            if line.as_str().unicode_len() > 0 {
                let ghost before = kept@;
                kept.push(line.clone());
                proof {
                    assert(texts(kept@) =~= texts(before).push(line@));
                }
            }
            i = i + 1;
        }
        assert(lines@.take(i as int) =~= lines@);
        if kept.len() == 0 {
            GameMode::from_error(LoadError::new(path))
        } else {
            GameMode { text: kept }
        }
    }

    /// A uniformly drawn index of a prompt.
    pub fn next_text(&self) -> (r: usize)
        requires
            self.wf(),
        ensures
            r < self.prompts().len(),
    {
        random_below(self.text.len())
    }

    /// The prompt at `index`.
    pub fn text(&self, index: usize) -> (r: &str)
        requires
            index < self.prompts().len(),
        ensures
            r@ == self.prompts()[index as int],
    {
        self.text[index].as_str()
    }
}

/// A session: the prompt pool, the scores so far, and where they are kept.
pub struct Game {
    pub game_mode: GameMode,
    pub stats_path: String,
    pub stats: Stats,
}

impl Game {
    pub open spec fn wf(&self) -> bool {
        self.game_mode.wf()
    }
}

} // verus!
