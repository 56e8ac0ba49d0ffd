use vstd::prelude::*;

verus! {

/// The result of `v` moved toward `x` by `1/k` of the distance, with the
/// quotient truncated toward zero.
pub open spec fn moved_toward(v: u64, x: u64, k: nat) -> u64
    recommends
        k >= 1,
{
    if x >= v {
        (v + (x - v) as nat / k) as u64
    } else {
        (v - (v - x) as nat / k) as u64
    }
}

/// A speed measurement, kept in hundredths of a unit: the latest value and
/// the running mean of all values recorded so far.
#[derive(Clone, Copy, Debug, PartialEq, Eq, Structural)]
pub struct Stat {
    pub last: u64,
    pub average: u64,
}

impl Stat {
    /// The zero measurement.
    pub fn new() -> (r: Stat)
        ensures
            r.last == 0,
            r.average == 0,
    {
        Stat { last: 0, average: 0 }
    }

    /// The measurement after `new` is recorded as the `attempts`-th value.
    pub open spec fn added(self, new: u64, attempts: nat) -> Stat {
        Stat { last: new, average: moved_toward(self.average, new, attempts) }
    }

    /// Records `new` as the `attempts`-th value: the incremental mean
    /// `average + (new - average) / attempts`.
    pub fn add_value(&mut self, new: u64, attempts: usize)
        requires
            attempts >= 1,
        ensures
            *final(self) == old(self).added(new, attempts as nat),
    {
        self.last = new;
        if new >= self.average {
            self.average = self.average + (new - self.average) / (attempts as u64);
        } else {
            self.average = self.average - (self.average - new) / (attempts as u64);
        }
    }
}


impl Default for Stat {
    fn default() -> (r: Stat)
        ensures
            r == (Stat { last: 0, average: 0 }),
    {
        Stat::new()
    }
}

/// Hundredths per minute of `count` items done in `elapsed_ms` milliseconds,
/// with the time taken as at least one millisecond, truncated, and capped at
/// the largest `u64`.
pub open spec fn rate(count: nat, elapsed_ms: nat) -> u64 {
    let ms: nat = if elapsed_ms == 0 { 1 } else { elapsed_ms };
    let r: nat = 6_000_000 * count / ms;
    if r > u64::MAX { u64::MAX } else { r as u64 }
}

/// Hundredths per minute of `count` items done in `elapsed_ms` milliseconds.
pub fn per_minute(count: u128, elapsed_ms: u64) -> (r: u64)
    requires
        count <= u64::MAX as nat + 1,
    ensures
        r == rate(count as nat, elapsed_ms as nat),
{
    let ms: u128 = if elapsed_ms == 0 { 1 } else { elapsed_ms as u128 };
    assert(6_000_000 * count <= 6_000_000 * (u64::MAX as nat + 1)) by (nonlinear_arith)
        requires count <= u64::MAX as nat + 1;
    let scaled: u128 = 6_000_000u128 * count;
    let q: u128 = scaled / ms;
    if q > u64::MAX as u128 { u64::MAX } else { q as u64 }
}

/// The scores of all completed rounds: how many there were, and the typing
/// and word rates, both in hundredths per minute.
#[derive(Clone, Copy, Debug, PartialEq, Eq, Structural)]
pub struct Stats {
    pub attempts: usize,
    pub tpm: Stat,
    pub wpm: Stat,
}

impl Stats {
    /// The scores before any round.
    pub open spec fn new_spec() -> Stats {
        Stats {
            attempts: 0,
            tpm: Stat { last: 0, average: 0 },
            wpm: Stat { last: 0, average: 0 },
        }
    }

    /// No rounds recorded.
    pub fn new() -> (r: Stats)
        ensures
            r == Stats::new_spec(),
    {
        Stats { attempts: 0, tpm: Stat::new(), wpm: Stat::new() }
    }

    /// The attempt count after one more round; it stops at the largest
    /// `usize`.
    pub open spec fn next_attempt(self) -> nat {
        if self.attempts == usize::MAX { usize::MAX as nat } else { (self.attempts + 1) as nat }
    }

    /// The scores after one more round with the given rates.
    pub open spec fn recorded(self, tpm: u64, wpm: u64) -> Stats {
        Stats {
            attempts: self.next_attempt() as usize,
            tpm: self.tpm.added(tpm, self.next_attempt()),
            wpm: self.wpm.added(wpm, self.next_attempt()),
        }
    }

    /// The scores after a round in which `typed` characters and `words`
    /// words took `elapsed_ms` milliseconds.
    pub open spec fn after_round(self, typed: nat, words: nat, elapsed_ms: nat) -> Stats {
        self.recorded(rate(typed, elapsed_ms), rate(words, elapsed_ms))
    }

    /// Counts one more round and folds its rates into both measurements.
    pub fn record(&mut self, tpm: u64, wpm: u64)
        ensures
            *final(self) == old(self).recorded(tpm, wpm),
    {
        if self.attempts < usize::MAX {
            self.attempts = self.attempts + 1;
        }
        let n = self.attempts;
        self.tpm.add_value(tpm, n);
        self.wpm.add_value(wpm, n);
    }

    /// Records a round in which `typed` characters, among them `spaces`
    /// spaces and so `spaces + 1` words, took `elapsed_ms` milliseconds.
    pub fn record_round(&mut self, typed: usize, spaces: usize, elapsed_ms: u64)
        ensures
            *final(self) == old(self).after_round(typed as nat, (spaces + 1) as nat, elapsed_ms as nat),
    {
        let tpm = per_minute(typed as u128, elapsed_ms);
        let wpm = per_minute(spaces as u128 + 1, elapsed_ms);
        self.record(tpm, wpm);
    }
}

impl Default for Stats {
    fn default() -> (r: Stats)
        ensures
            r == Stats::new_spec(),
    {
        Stats::new()
    }
}

/// The sum of a sequence of values.
pub open spec fn total(xs: Seq<u64>) -> int
    decreases xs.len(),
{
    if xs.len() == 0 { 0 } else { total(xs.drop_last()) + xs.last() }
}

/// The measurement after the values of `xs` are added in order, the `i`-th
/// (from one) as attempt `i`.
pub open spec fn stat_after(xs: Seq<u64>) -> Stat
    decreases xs.len(),
{
    if xs.len() == 0 {
        Stat { last: 0, average: 0 }
    } else {
        stat_after(xs.drop_last()).added(xs.last(), xs.len())
    }
}

proof fn lemma_moved_toward(v: u64, x: u64, k: nat)
    requires
        k >= 1,
    ensures
        ({
            let m = moved_toward(v, x, k) as int;
            let r = k * m - (k - 1) * v - x;
            -(k - 1) <= r <= k - 1
        }),
{
    if x >= v {
        let d = (x - v) as nat;
        let q = d / k;
        assert(d == q * k + d % k) by (nonlinear_arith)
            requires k >= 1, q == d / k;
        assert(q <= d) by (nonlinear_arith)
            requires k >= 1, d == q * k + d % k, d % k >= 0;
        assert(moved_toward(v, x, k) as int == v + q);
        let r = d % k;
        assert(k * (v + q) - (k - 1) * v - x == -r) by (nonlinear_arith)
            requires d == q * k + r, d == x - v;
    } else {
        let d = (v - x) as nat;
        let q = d / k;
        assert(d == q * k + d % k) by (nonlinear_arith)
            requires k >= 1, q == d / k;
        assert(q <= d) by (nonlinear_arith)
            requires k >= 1, d == q * k + d % k, d % k >= 0;
        assert(moved_toward(v, x, k) as int == v - q);
        let r = d % k;
        assert(k * (v - q) - (k - 1) * v - x == r) by (nonlinear_arith)
            requires d == q * k + r, d == v - x;
    }
}

/// The running average of `N >= 1` values added as attempts `1..N` stays
/// within `(N - 1) / 2` hundredths of their exact mean, that is
/// `|N * average - sum| <= N * (N - 1) / 2`; the latest value is the last one
/// added.
pub proof fn lemma_average_tracks_mean(xs: Seq<u64>)
    requires
        xs.len() >= 1,
    ensures
        stat_after(xs).last == xs.last(),
        ({
            let n = xs.len() as int;
            let d = n * stat_after(xs).average - total(xs);
            -(n * (n - 1) / 2) <= d <= n * (n - 1) / 2
        }),
    decreases xs.len(),
{
    let n = xs.len() as int;
    let prev = xs.drop_last();
    let a = stat_after(prev).average;
    let x = xs.last();
    lemma_moved_toward(a, x, n as nat);
    let m = stat_after(xs).average as int;
    if n == 1 {
        assert(prev.len() == 0);
        assert(total(prev) == 0);
        assert(m - x == 0) by (nonlinear_arith)
            requires 1 * m - (1 - 1) * a - x == 1 * m - x, -0int <= 1 * m - 0 * a - x <= 0;
    } else {
        lemma_average_tracks_mean(prev);
        let dp = (n - 1) * a - total(prev);
        let r = n * m - (n - 1) * a - x;
        assert(n * m - total(xs) == dp + r);
        assert((n - 1) * (n - 2) / 2 + (n - 1) == n * (n - 1) / 2) by (nonlinear_arith)
            requires n >= 2;
    }
}

} // verus!
