use std::cell::Cell;

use iter_progress::NoHintSource;
use iter_progress::OptionalProgressableIter;
use iter_progress::ProgressRecord;
use iter_progress::ProgressSource;
use iter_progress::ProgressableIter;
use iter_progress::Ratio;
use iter_progress::VecSource;

fn ratio(num: u128, den: u128) -> Ratio {
    Ratio { num, den }
}

#[test]
fn items_trigger_pattern() {
    let items: Vec<u32> = (0..8).collect();
    let mut it = VecSource::new(items).progress();
    let mut fired: Vec<bool> = Vec::new();
    while let Some((state, _)) = it.next() {
        fired.push(state.should_do_every_n_items(3));
    }
    // Fires on the first record and every third record thereafter.
    assert_eq!(fired, vec![true, false, false, true, false, false, true, false]);

    let items: Vec<u32> = (0..4).collect();
    let mut it = VecSource::new(items).progress();
    while let Some((state, _)) = it.next() {
        assert!(state.should_do_every_n_items(1));
    }
}

#[test]
fn seconds_trigger_pattern() {
    // Records at t = 0.5s, 1.0s, 1.5s, 2.0s with a period of one second
    // fire exactly on the boundary crossings: false, true, false, true.
    let items: Vec<u32> = (0..4).collect();
    let mut it = VecSource::new(items).progress();
    let mut fired: Vec<bool> = Vec::new();
    let mut t: u64 = 0;
    for _ in 0..4 {
        t += 500_000_000;
        it.set_fake_now(Some(t));
        let (state, _) = it.next().unwrap();
        fired.push(state.should_do_every_n_sec(ratio(1, 1)));
    }
    assert_eq!(fired, vec![false, true, false, true]);
}

#[test]
fn seconds_trigger_slow_first_step() {
    // With no previous record the trigger fires iff more than n seconds
    // have already passed.
    let items: Vec<u32> = vec![1, 2];
    let mut it = VecSource::new(items).progress();
    it.set_fake_now(Some(3_000_000_000));
    let (state, _) = it.next().unwrap();
    assert_eq!(state.should_do_every_n_sec(ratio(1, 1)), true);
    assert_eq!(state.should_do_every_n_sec(ratio(3, 1)), false);
    assert_eq!(state.should_do_every_n_sec(ratio(4, 1)), false);
}

#[test]
fn rolling_average_window() {
    let items: Vec<u32> = (0..5).collect();
    let mut it = VecSource::new(items).optional_progress(1).with_rolling_average(Some(3));
    let times: [u64; 5] = [0, 100, 300, 600, 1000];
    let mut avgs: Vec<Option<Ratio>> = Vec::new();
    for t in times {
        it.set_fake_now(Some(t));
        let (state, _) = it.next().unwrap();
        avgs.push(state.unwrap().rolling_average_duration());
    }
    // Inter-record durations are 100, 200, 300, 400. Before the window
    // fills, the mean is over everything seen; once full, over the last 3.
    assert_eq!(avgs[0], None);
    assert_eq!(avgs[1], Some(ratio(100, 1)));
    assert_eq!(avgs[2], Some(ratio(300, 2)));
    assert_eq!(avgs[3], Some(ratio(600, 3)));
    assert_eq!(avgs[4], Some(ratio(900, 3)));
}

#[test]
fn rolling_average_rate_is_inverse() {
    let items: Vec<u32> = (0..4).collect();
    let mut it = VecSource::new(items).optional_progress(1).with_rolling_average(Some(3));
    let times: [u64; 4] = [0, 100, 300, 600];
    let mut last: Option<ProgressRecord> = None;
    for t in times {
        it.set_fake_now(Some(t));
        let (state, _) = it.next().unwrap();
        last = state;
    }
    let state = last.unwrap();
    assert_eq!(state.rolling_average_duration(), Some(ratio(600, 3)));
    // 3 records per 600 nanoseconds, scaled to items per second.
    assert_eq!(state.rolling_average_rate(), Some(ratio(3_000_000_000, 600)));
}

#[test]
fn exp_average_recurrence() {
    let items: Vec<u32> = (0..4).collect();
    let mut it = VecSource::new(items).optional_progress(1).with_exp_average(Some(ratio(1, 2)));
    let times: [u64; 4] = [0, 100, 300, 700];
    let mut avgs: Vec<Option<u64>> = Vec::new();
    let mut rates: Vec<Option<Ratio>> = Vec::new();
    for t in times {
        it.set_fake_now(Some(t));
        let (state, _) = it.next().unwrap();
        let state = state.unwrap();
        avgs.push(state.exp_average_duration());
        rates.push(state.exp_average_rate());
    }
    // Durations 100, 200, 400 with rate 1/2:
    //   avg_1 = 100, avg_2 = 200/2 + 100/2 = 150, avg_3 = 400/2 + 150/2 = 275.
    assert_eq!(avgs, vec![None, Some(100), Some(150), Some(275)]);
    assert_eq!(rates[2], Some(ratio(1_000_000_000, 150)));
}

#[test]
fn exp_average_truncates_whole_nanoseconds() {
    let items: Vec<u32> = (0..3).collect();
    let mut it = VecSource::new(items).optional_progress(1).with_exp_average(Some(ratio(1, 3)));
    let times: [u64; 3] = [0, 100, 300];
    let mut last: Option<ProgressRecord> = None;
    for t in times {
        it.set_fake_now(Some(t));
        let (state, _) = it.next().unwrap();
        last = state;
    }
    // avg_2 = (200 * 1 + 100 * 2) / 3 = 133 after truncation.
    assert_eq!(last.unwrap().exp_average_duration(), Some(133));
}

#[test]
fn sampled_record_positions() {
    let items: Vec<u32> = (0..10).collect();
    let mut it = VecSource::new(items).optional_progress(3);
    let mut seen: Vec<bool> = Vec::new();
    let mut present: usize = 0;
    while let Some((state, _)) = it.next() {
        seen.push(state.is_some());
        if let Some(state) = state {
            present += 1;
            // Records land exactly on the multiples of the factor.
            assert_eq!(state.num_done() % 3, 0);
        }
    }
    // floor(10 / 3) records are present, the other pulls yield none.
    assert_eq!(present, 3);
    assert_eq!(seen.len(), 10);
    assert_eq!(
        seen,
        vec![false, false, true, false, false, true, false, false, true, false]
    );
}

#[test]
fn unwrap_resumes_where_decorator_left_off() {
    let items: Vec<u8> = vec![10, 20, 30, 40, 50];
    let mut it = VecSource::new(items).optional_progress(1);
    let (_, a) = it.next().unwrap();
    let (_, b) = it.next().unwrap();
    assert_eq!(a, 10);
    assert_eq!(b, 20);
    let mut source = it.into_inner();
    assert_eq!(source.next(), Some(30));
    assert_eq!(source.next(), Some(40));
    assert_eq!(source.next(), Some(50));
    assert_eq!(source.next(), None);
}

#[test]
fn inner_reads_the_wrapped_source() {
    let items: Vec<u8> = vec![1, 2, 3];
    let mut it = VecSource::new(items).optional_progress(1);
    let (_, _) = it.next().unwrap();
    assert_eq!(it.inner().size_hint(), (2, Some(2)));
}

#[test]
fn assumed_size_fills_in_for_missing_hints() {
    let items: Vec<u32> = (0..8).collect();
    let mut it = NoHintSource::new(items).optional_progress(1).assume_size(Some(4));
    let (state, _) = it.next().unwrap();
    let state = state.unwrap();
    assert_eq!(state.fraction(), Some(ratio(1, 4)));
    assert_eq!(state.percent(), Some(ratio(100, 4)));

    // An exact hint from the source wins over the assumed size.
    let items: Vec<u32> = (0..5).collect();
    let mut it = VecSource::new(items).optional_progress(1).assume_size(Some(100));
    let (state, _) = it.next().unwrap();
    assert_eq!(state.unwrap().fraction(), Some(ratio(1, 5)));

    // Clearing the assumed size gives unknown fractions back.
    let items: Vec<u32> = (0..5).collect();
    let mut it = NoHintSource::new(items)
        .optional_progress(1)
        .assume_size(Some(4))
        .assume_size(None);
    let (state, _) = it.next().unwrap();
    let state = state.unwrap();
    assert_eq!(state.fraction(), None);
    assert_eq!(state.percent(), None);
}

#[test]
fn eta_and_estimated_total() {
    let items: Vec<u32> = (0..5).collect();
    let mut it = VecSource::new(items).progress();
    it.set_fake_now(Some(1_000_000_000));
    let (state, _) = it.next().unwrap();
    // One of five done after one second: one item per second, four
    // seconds left, five seconds in all.
    assert_eq!(state.rate(), ratio(1_000_000_000, 1_000_000_000));
    assert_eq!(state.eta(), Some(ratio(4_000_000_000, 1)));
    assert_eq!(state.estimated_total_time(), Some(ratio(5_000_000_000, 1)));

    // Unknown fraction: no estimates.
    let items: Vec<u32> = (0..5).collect();
    let mut it = NoHintSource::new(items).progress();
    it.set_fake_now(Some(1_000_000_000));
    let (state, _) = it.next().unwrap();
    assert_eq!(state.eta(), None);
    assert_eq!(state.estimated_total_time(), None);

    // A zero assumed fraction gives no estimates either.
    let items: Vec<u32> = (0..5).collect();
    let mut it = NoHintSource::new(items).progress();
    it.set_fake_now(Some(1_000_000_000));
    let (mut state, _) = it.next().unwrap();
    state.assume_fraction(ratio(0, 1));
    assert_eq!(state.eta(), None);
    assert_eq!(state.estimated_total_time(), None);

    // Past completion there is no time remaining to estimate, but the
    // total still extrapolates.
    let items: Vec<u32> = (0..5).collect();
    let mut it = NoHintSource::new(items).progress();
    it.set_fake_now(Some(1_000_000_000));
    let (mut state, _) = it.next().unwrap();
    state.assume_fraction(ratio(2, 1));
    assert_eq!(state.eta(), None);
    assert_eq!(state.estimated_total_time(), Some(ratio(1_000_000_000, 2)));
}

#[test]
fn do_every_gates_the_action() {
    let items: Vec<u32> = (0..6).collect();
    let mut it = VecSource::new(items).progress();
    let fired_items = Cell::new(0u32);
    let fired_secs = Cell::new(0u32);
    let mut t: u64 = 0;
    while let Some((state, _)) = it.next() {
        state.do_every_n_items(2, |_state: &ProgressRecord| {
            fired_items.set(fired_items.get() + 1);
        });
        state.do_every_n_sec(ratio(1, 1), |_state: &ProgressRecord| {
            fired_secs.set(fired_secs.get() + 1);
        });
        t += 500_000_000;
        it.set_fake_now(Some(t));
    }
    // Six records fire the count-based action at 1, 3 and 5; the records
    // sit at t = 0, 0.5, ..., 2.5 and cross a one-second boundary twice.
    assert_eq!(fired_items.get(), 3);
    assert_eq!(fired_secs.get(), 2);
}
