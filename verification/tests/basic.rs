use iter_progress::NoHintSource;
use iter_progress::OptionalProgressableIter;
use iter_progress::ProgressRecord;
use iter_progress::ProgressableIter;
use iter_progress::Ratio;
use iter_progress::VecSource;

fn ratio(num: u128, den: u128) -> Ratio {
    Ratio { num, den }
}

fn value_f64(r: Ratio) -> f64 {
    r.num as f64 / r.den as f64
}

#[test]
fn test_simple() {
    let items: Vec<u32> = (0..1000).collect();
    let mut progressor = NoHintSource::new(items).progress();

    // 0
    let (state, _) = progressor.next().unwrap();
    let mut fake_now: u64 = state.started_iterating();

    // It'll always fire on the first one
    assert_eq!(state.should_do_every_n_items(2), true);
    assert_eq!(state.should_do_every_n_items(3), true);
    assert_eq!(state.should_do_every_n_items(5), true);
    // First run, so there should be nothing here
    assert!(state.previous_record_tm().is_none());

    // 1 +500ms
    fake_now += 500_000_000;
    progressor.set_fake_now(Some(fake_now));
    let (state, _) = progressor.next().unwrap();

    assert_eq!(value_f64(state.rate()).round(), 4.0);

    assert_eq!(state.should_do_every_n_sec(ratio(1, 1)), false);
    assert_eq!(state.should_do_every_n_sec(ratio(2, 1)), false);
    assert_eq!(state.should_do_every_n_sec(ratio(3, 10)), true);

    // 2 +1sec
    fake_now += 500_000_000;
    progressor.set_fake_now(Some(fake_now));
    let (state, _) = progressor.next().unwrap();

    assert_eq!(state.should_do_every_n_items(2), true);
    assert_eq!(state.should_do_every_n_items(3), false);
    assert_eq!(state.should_do_every_n_items(5), false);
    assert_eq!(value_f64(state.rate()).round(), 3.0);
    assert_eq!(state.should_do_every_n_sec(ratio(1, 1)), true);
    assert_eq!(state.should_do_every_n_sec(ratio(2, 1)), false);
    assert_eq!(state.should_do_every_n_sec(ratio(4, 5)), true);

    // 3 +1.5sec
    fake_now += 500_000_000;
    progressor.set_fake_now(Some(fake_now));
    let (state, _) = progressor.next().unwrap();
    assert_eq!(state.should_do_every_n_items(2), false);
    assert_eq!(state.should_do_every_n_items(3), true);
    assert_eq!(state.should_do_every_n_items(5), false);
    assert_eq!(value_f64(state.rate()).round(), 3.0);
    assert_eq!(state.should_do_every_n_sec(ratio(1, 1)), false);
    assert_eq!(state.should_do_every_n_sec(ratio(2, 1)), false);
    assert_eq!(state.should_do_every_n_sec(ratio(4, 5)), false);
    assert_eq!(state.should_do_every_n_sec(ratio(3, 2)), true);

    // 4 +2sec
    fake_now += 500_000_000;
    progressor.set_fake_now(Some(fake_now));
    let (state, _) = progressor.next().unwrap();
    assert_eq!(state.should_do_every_n_items(2), true);
    assert_eq!(state.should_do_every_n_items(3), false);
    assert_eq!(state.should_do_every_n_items(4), true);
    assert_eq!(state.should_do_every_n_items(5), false);
    assert_eq!(value_f64(state.rate()).round(), 3.0);
}

#[test]
fn test_size_hint() {
    let items: Vec<u8> = vec![0, 1, 2, 3, 4];
    let mut progressor = VecSource::new(items).progress();

    let (state, _) = progressor.next().unwrap();
    assert_eq!(state.fraction(), Some(ratio(1, 5)));
    assert_eq!(value_f64(state.fraction().unwrap()), 0.2);
    assert_eq!(state.percent(), Some(ratio(100, 5)));
    assert_eq!(value_f64(state.percent().unwrap()), 20.0);

    let (state, _) = progressor.next().unwrap();
    assert_eq!(state.fraction(), Some(ratio(2, 5)));
    assert_eq!(value_f64(state.fraction().unwrap()), 0.4);
    assert_eq!(state.percent(), Some(ratio(200, 5)));
    assert_eq!(value_f64(state.percent().unwrap()), 40.0);

    let endless: Vec<u32> = (0..100).collect();
    let mut progressor = NoHintSource::new(endless).progress();

    let (state, val) = progressor.next().unwrap();
    assert_eq!(val, 0);
    assert_eq!(state.fraction(), None);
    let (state, val) = progressor.next().unwrap();
    assert_eq!(val, 1);
    assert_eq!(state.fraction(), None);
}

#[test]
fn assume_fraction1() {
    let items: Vec<u8> = vec![0, 1, 2, 3, 4];
    let mut progressor = VecSource::new(items).progress();

    let (mut state, _) = progressor.next().unwrap();
    assert_eq!(state.fraction(), Some(ratio(1, 5)));
    assert_eq!(value_f64(state.percent().unwrap()), 20.0);
    state.assume_fraction(ratio(1, 2));
    assert_eq!(state.fraction(), Some(ratio(1, 2)));
    assert_eq!(state.percent(), Some(ratio(100, 2)));
    assert_eq!(value_f64(state.percent().unwrap()), 50.0);

    let (state, _) = progressor.next().unwrap();
    assert_eq!(state.fraction(), Some(ratio(2, 5)));
    assert_eq!(value_f64(state.percent().unwrap()), 40.0);

    let endless: Vec<u32> = (0..100).collect();
    let mut progressor = NoHintSource::new(endless).progress();

    let (mut state, val) = progressor.next().unwrap();
    assert_eq!(val, 0);
    assert_eq!(state.fraction(), None);
    state.assume_fraction(ratio(1, 5));
    assert_eq!(state.fraction(), Some(ratio(1, 5)));
    let (state, val) = progressor.next().unwrap();
    assert_eq!(val, 1);
    assert_eq!(state.fraction(), None);
}

#[test]
fn optional() {
    let items: Vec<u8> = vec![0, 1, 2, 3, 4];
    let mut it = VecSource::new(items).optional_progress(3);
    let mut collected: Vec<(Option<ProgressRecord>, u8)> = Vec::new();
    while let Some(pair) = it.next() {
        collected.push(pair);
    }
    assert!(collected[0].0.is_none());
    assert!(collected[1].0.is_none());
    assert!(collected[2].0.is_some());
    assert!(collected[3].0.is_none());
    assert!(collected[4].0.is_none());
}

#[test]
fn getters_and_passthrough() {
    let items: Vec<u8> = vec![7, 8, 9];
    let mut it = VecSource::new(items).progress();
    it.set_fake_now(Some(250_000_000));
    let (state, val) = it.next().unwrap();
    assert_eq!(val, 7);
    assert_eq!(state.num_done(), 1);
    assert_eq!(state.started_iterating(), 0);
    assert_eq!(state.duration_since_start(), 250_000_000);
    assert_eq!(state.previous_record_tm(), None);
    // The hint was captured after the pull: two elements left.
    assert_eq!(it.size_hint(), (2, Some(2)));
    assert_eq!(it.count(), 2);

    let items: Vec<u8> = vec![7, 8, 9];
    let mut it = VecSource::new(items).progress();
    it.set_fake_now(Some(100));
    let (_, _) = it.next().unwrap();
    it.set_fake_now(Some(300));
    let (state, _) = it.next().unwrap();
    assert_eq!(state.previous_record_tm(), Some(100));
    assert_eq!(state.duration_since_start(), 300);
}

#[test]
fn exhaustion_and_empty_source() {
    let items: Vec<u8> = Vec::new();
    let mut it = VecSource::new(items).progress();
    assert!(it.next().is_none());

    let items: Vec<u8> = vec![1];
    let mut it = VecSource::new(items).optional_progress(1);
    assert!(it.next().is_some());
    assert!(it.next().is_none());
    assert!(it.next().is_none());
}

#[test]
fn rate_with_no_elapsed_time_is_infinite() {
    let items: Vec<u8> = vec![1, 2];
    let mut it = VecSource::new(items).progress();
    it.set_fake_now(Some(0));
    let (state, _) = it.next().unwrap();
    let r = state.rate();
    assert!(r.is_infinite());
    assert_eq!(r, ratio(1_000_000_000, 0));
}
