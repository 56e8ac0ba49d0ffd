use crabtype::{Stat, Stats};

#[test]
fn first_value_is_the_average() {
    let mut s = Stat::new();
    s.add_value(1234, 1);
    assert_eq!(s, Stat { last: 1234, average: 1234 });
}

#[test]
fn incremental_mean_of_several_values() {
    let mut s = Stat::default();
    let xs = [100u64, 200, 600];
    for (i, x) in xs.iter().enumerate() {
        s.add_value(*x, i + 1);
    }
    assert_eq!(s.last, 600);
    assert_eq!(s.average, 300);
}

#[test]
fn incremental_mean_stays_near_exact_mean() {
    let xs = [7u64, 3, 10, 1, 9, 2, 8, 5, 4, 6, 11, 13];
    let mut s = Stat::new();
    let mut sum: i128 = 0;
    for (i, x) in xs.iter().enumerate() {
        s.add_value(*x, i + 1);
        sum += *x as i128;
        let n = (i + 1) as i128;
        let d = n * s.average as i128 - sum;
        assert!(d.abs() <= n * (n - 1) / 2);
    }
    assert_eq!(s.last, 13);
}

#[test]
fn falling_value_moves_average_down() {
    let mut s = Stat { last: 500, average: 500 };
    s.add_value(100, 2);
    assert_eq!(s, Stat { last: 100, average: 300 });
    s.add_value(0, 3);
    assert_eq!(s, Stat { last: 0, average: 200 });
}

#[test]
fn record_counts_attempts_and_updates_both() {
    let mut st = Stats::new();
    st.record(1000, 200);
    st.record(3000, 400);
    assert_eq!(st.attempts, 2);
    assert_eq!(st.tpm, Stat { last: 3000, average: 2000 });
    assert_eq!(st.wpm, Stat { last: 400, average: 300 });
}

#[test]
fn record_round_uses_spaces_plus_one_words() {
    let mut st = Stats::default();
    st.record_round(10, 1, 60_000);
    // ten characters and two words in one minute
    assert_eq!(st.tpm.last, 1000);
    assert_eq!(st.wpm.last, 200);
    assert_eq!(st.attempts, 1);
}

#[test]
fn per_minute_rates() {
    assert_eq!(crabtype::per_minute(2, 1000), 12_000);
    assert_eq!(crabtype::per_minute(1, 3), 2_000_000);
    assert_eq!(crabtype::per_minute(7, 0), 42_000_000);
    assert_eq!(crabtype::per_minute(0, 5), 0);
    assert_eq!(crabtype::per_minute(1, 7), 857_142);
}

#[test]
fn attempts_stop_at_the_largest_count() {
    let mut st = Stats { attempts: usize::MAX, tpm: Stat::new(), wpm: Stat::new() };
    st.record(100, 100);
    assert_eq!(st.attempts, usize::MAX);
}
