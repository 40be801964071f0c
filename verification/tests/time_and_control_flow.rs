use ios_event_loop::control_flow::{run_slice, ControlFlow};
use ios_event_loop::run_loop::RunLoopMode;
use ios_event_loop::time::{Duration, Instant};

#[test]
fn span_borrows_a_second() {
    let earlier = Instant::new(5, 900_000_000);
    let later = Instant::new(7, 100_000_000);
    assert_eq!(later.saturating_duration_since(earlier), Duration::new(1, 200_000_000));
}

#[test]
fn span_without_borrow() {
    let earlier = Instant::new(5, 1);
    let later = Instant::new(7, 3);
    assert_eq!(later.saturating_duration_since(earlier), Duration::new(2, 2));
}

#[test]
fn span_saturates() {
    let earlier = Instant::new(5, 0);
    let later = Instant::new(5, 1);
    assert_eq!(earlier.saturating_duration_since(later), Duration::zero());
    assert_eq!(Instant::new(0, 9).saturating_duration_since(earlier), Duration::zero());
    assert_eq!(later.saturating_duration_since(later), Duration::zero());
}

#[test]
fn span_at_the_limits() {
    let last = Instant::new(u64::MAX, 999_999_999);
    let span = last.saturating_duration_since(Instant::new(0, 0));
    assert_eq!(span.as_secs(), u64::MAX);
    assert_eq!(span.subsec_nanos(), 999_999_999);
}

#[test]
fn span_agrees_with_std() {
    let a = std::time::Duration::new(12, 345_678_901);
    let b = std::time::Duration::new(3, 999_999_999);
    let span = Instant::new(a.as_secs(), a.subsec_nanos())
        .saturating_duration_since(Instant::new(b.as_secs(), b.subsec_nanos()));
    let expected = a.saturating_sub(b);
    assert_eq!(span, Duration::new(expected.as_secs(), expected.subsec_nanos()));
}

#[test]
fn polling_does_not_block() {
    let now = Instant::new(3, 0);
    assert_eq!(ControlFlow::Poll.slice_timeout(now), Some(Duration::zero()));
    assert_eq!(run_slice(Some(Duration::zero())).duration, Duration::zero());
}

#[test]
fn waiting_is_capped_at_a_second() {
    let now = Instant::new(3, 0);
    assert_eq!(ControlFlow::Wait.slice_timeout(now), None);
    assert_eq!(run_slice(None).duration, Duration::from_secs(1));
    assert_eq!(run_slice(None).duration, Duration::new(1, 0));
}

#[test]
fn waiting_until_a_time_ends_then() {
    let flow = ControlFlow::WaitUntil(Instant::new(10, 5));
    assert_eq!(flow.slice_timeout(Instant::new(4, 5)), Some(Duration::from_secs(6)));
    assert_eq!(flow.slice_timeout(Instant::new(9, 5)), Some(Duration::from_secs(1)));
    assert_eq!(flow.slice_timeout(Instant::new(10, 5)), Some(Duration::zero()));
    assert_eq!(flow.slice_timeout(Instant::new(11, 0)), Some(Duration::zero()));
}

#[test]
fn a_timeout_is_kept_as_it_is() {
    let slice = run_slice(Some(Duration::new(5, 250_000_000)));
    assert_eq!(slice.duration, Duration::new(5, 250_000_000));
    assert_eq!(slice.mode, RunLoopMode::Default);
    assert!(!slice.return_after_source_handled);
}
