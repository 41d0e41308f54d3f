use simple_lib::instant::Instant;
use simple_lib::sequencer::PeriodSequencer;

#[test]
fn yields_increasing_instants_from_start() {
    let start = Instant::new(1, 1, 0);
    let end = start.add_seconds(1800);
    let mut seq = PeriodSequencer::new(&start, &end, 300);

    let mut collected: Vec<Instant> = Vec::new();
    while let Some(i) = seq.next_instant() {
        collected.push(i);
    }

    assert_eq!(collected.len(), 6);
    assert_eq!(collected[0], start);
    for k in 0..collected.len() {
        assert_eq!(collected[k].second, (k as u32) * 300);
        if k > 0 {
            assert!(collected[k].is_later(&collected[k - 1]));
        }
        // Strictly before the end bound.
        assert!(end.is_later(&collected[k]));
    }
    // Exhausted for good.
    assert!(seq.next_instant().is_none());
    assert!(seq.next_instant().is_none());
}

#[test]
fn end_bound_itself_is_never_yielded() {
    let start = Instant::new(1, 1, 0);
    let end = start.add_seconds(600);
    let mut seq = PeriodSequencer::new(&start, &end, 300);
    assert_eq!(seq.next_instant().unwrap().second, 0);
    assert_eq!(seq.next_instant().unwrap().second, 300);
    assert!(seq.next_instant().is_none());
}

#[test]
fn never_overshoots_end_by_more_than_one_step() {
    let start = Instant::new(1, 1, 0);
    let end = start.add_seconds(700);
    let mut seq = PeriodSequencer::new(&start, &end, 300);
    let mut last: u32 = 0;
    let mut count: usize = 0;
    while let Some(i) = seq.next_instant() {
        last = i.second;
        count += 1;
    }
    assert_eq!(count, 3);
    assert_eq!(last, 600);
    // The next step after the last yielded instant lies less than one full
    // step past the end bound.
    assert!(last + 300 < 700 + 300);
}

#[test]
fn empty_and_inverted_periods_yield_nothing() {
    let start = Instant::new(5, 10, 3600);
    let mut seq = PeriodSequencer::new(&start, &start, 60);
    assert!(seq.next_instant().is_none());

    let earlier = Instant::new(5, 9, 3600);
    let mut inverted = PeriodSequencer::new(&start, &earlier, 60);
    assert!(inverted.next_instant().is_none());
}

#[test]
fn reset_restarts_the_sequence() {
    let start = Instant::new(1, 2, 0);
    let end = start.add_seconds(900);
    let mut seq = PeriodSequencer::new(&start, &end, 300);
    assert_eq!(seq.next_instant().unwrap(), start);
    assert_eq!(seq.next_instant().unwrap().second, 300);
    seq.reset();
    assert_eq!(seq.next_instant().unwrap(), start);
}

#[test]
fn crosses_day_boundaries() {
    let start = Instant::new(1, 1, 82800);
    let end = start.add_seconds(2 * 3600);
    let mut seq = PeriodSequencer::new(&start, &end, 3600);
    assert_eq!(seq.next_instant().unwrap(), Instant::new(1, 1, 82800));
    assert_eq!(seq.next_instant().unwrap(), Instant::new(1, 2, 0));
    assert!(seq.next_instant().is_none());
}
