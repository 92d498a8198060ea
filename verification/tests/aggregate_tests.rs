use bullhorn::aggregate::AggregatorState;
use bullhorn::aggregate::ZapAggregator;

#[test]
fn burst_aggregates_into_one_total_after_quiet_period() {
    // the accumulator driven directly, amounts 100, 200, 50 at t=0, t=10,
    // t=170 with a 120 s debounce: each arrival grows the total and resets
    // the deadline to a full debounce from its own arrival time, and the
    // wake-up at the last deadline closes the window with one total
    // (a driver that wakes at every deadline would have closed the window
    // at t=130 already; see deadline_wakeup_between_arrivals_splits_the_burst)
    let mut a = ZapAggregator::new(120);
    a.on_amount(100, 0);
    assert_eq!(a.current_deadline(), Some(120));
    a.on_amount(200, 10);
    assert_eq!(a.current_deadline(), Some(130));
    a.on_amount(50, 170);
    assert_eq!(a.current_deadline(), Some(290));
    assert_eq!(a.on_deadline(290), Some(350));
    assert_eq!(a.current_deadline(), None);
}

#[test]
fn deadline_wakeup_between_arrivals_splits_the_burst() {
    // with the driver waking the accumulator at each deadline, a pause
    // longer than the debounce splits the burst: 300 goes out at t=130,
    // and the late 50 opens a window of its own
    let mut a = ZapAggregator::new(120);
    a.on_amount(100, 0);
    a.on_amount(200, 10);
    assert_eq!(a.on_deadline(130), Some(300));
    a.on_amount(50, 170);
    assert_eq!(a.current_deadline(), Some(290));
    assert_eq!(a.on_deadline(290), Some(50));
}

#[test]
fn without_third_arrival_window_closes_earlier() {
    // with no arrival after t=10 the notification fires at 130 with 300
    let mut a = ZapAggregator::new(120);
    a.on_amount(100, 0);
    a.on_amount(200, 10);
    assert_eq!(a.on_deadline(130), Some(300));
}

#[test]
fn wakeup_before_deadline_emits_nothing() {
    let mut a = ZapAggregator::new(120);
    a.on_amount(100, 0);
    assert_eq!(a.on_deadline(119), None);
    assert_eq!(a.current_deadline(), Some(120));
}

#[test]
fn stale_wakeup_after_deadline_moved_emits_nothing() {
    let mut a = ZapAggregator::new(120);
    a.on_amount(100, 0);
    // a second amount pushes the deadline from 120 out to 230
    a.on_amount(5, 110);
    assert_eq!(a.on_deadline(120), None);
    assert_eq!(a.on_deadline(230), Some(105));
}

#[test]
fn idle_wakeup_emits_nothing() {
    let mut a = ZapAggregator::new(120);
    assert_eq!(a.on_deadline(1000), None);
    assert!(matches!(a.state, AggregatorState::Idle));
}

#[test]
fn closure_flushes_open_window() {
    let mut a = ZapAggregator::new(120);
    a.on_amount(100, 0);
    a.on_amount(23, 10);
    assert_eq!(a.on_closed(), Some(123));
    assert!(matches!(a.state, AggregatorState::Idle));
}

#[test]
fn closure_while_idle_emits_nothing() {
    let mut a = ZapAggregator::new(120);
    assert_eq!(a.on_closed(), None);
}

#[test]
fn window_reopens_after_emitting() {
    let mut a = ZapAggregator::new(60);
    a.on_amount(1, 0);
    assert_eq!(a.on_deadline(60), Some(1));
    a.on_amount(2, 100);
    assert_eq!(a.current_deadline(), Some(160));
    assert_eq!(a.on_deadline(160), Some(2));
}

#[test]
fn total_saturates_instead_of_wrapping() {
    let mut a = ZapAggregator::new(60);
    a.on_amount(u32::MAX, 0);
    a.on_amount(10, 1);
    assert_eq!(a.on_deadline(61), Some(u32::MAX));
}
