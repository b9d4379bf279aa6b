use orchestrator::pacing::{loop_speed, time_to_rest, Span, LOOP_SPEED_SECS, NANOS_PER_SEC};
use std::time::Duration;

fn span(secs: u64, nanos: u32) -> Span {
    Span::new(secs, nanos).unwrap()
}

#[test]
fn new_span_keeps_its_parts() {
    let s = span(3, 500);
    assert_eq!(s.secs(), 3);
    assert_eq!(s.subsec_nanos(), 500);
}

#[test]
fn new_span_refuses_a_full_second_of_nanos() {
    assert_eq!(Span::new(0, NANOS_PER_SEC), None);
    assert_eq!(Span::new(7, u32::MAX), None);
    assert!(Span::new(7, NANOS_PER_SEC - 1).is_some());
}

#[test]
fn from_secs_has_no_nanos() {
    assert_eq!(Span::from_secs(10), span(10, 0));
    assert_eq!(Span::from_secs(u64::MAX).secs(), u64::MAX);
}

#[test]
fn loop_speed_is_ten_seconds() {
    assert_eq!(LOOP_SPEED_SECS, 10);
    assert_eq!(loop_speed(), span(10, 0));
}

#[test]
fn short_iteration_rests_the_remainder() {
    assert_eq!(time_to_rest(span(10, 0), span(3, 0)), Some(span(7, 0)));
    assert_eq!(time_to_rest(span(10, 0), span(0, 0)), Some(span(10, 0)));
}

#[test]
fn remainder_borrows_from_the_seconds() {
    assert_eq!(time_to_rest(span(10, 0), span(3, 500)), Some(span(6, 999_999_500)));
    assert_eq!(time_to_rest(span(10, 250), span(9, 999_999_999)), Some(span(0, 251)));
    assert_eq!(time_to_rest(span(10, 0), span(9, 999_999_999)), Some(span(0, 1)));
}

#[test]
fn iteration_that_meets_the_target_does_not_rest() {
    assert_eq!(time_to_rest(span(10, 0), span(10, 0)), None);
}

#[test]
fn iteration_that_passes_the_target_does_not_rest() {
    assert_eq!(time_to_rest(span(10, 0), span(10, 1)), None);
    assert_eq!(time_to_rest(span(10, 0), span(3600, 0)), None);
    assert_eq!(time_to_rest(span(0, 0), span(0, 0)), None);
}

#[test]
fn rest_and_elapsed_add_up_to_the_target() {
    let target = span(10, 123);
    let mut nanos: u32 = 0;
    for secs in 0..10u64 {
        let elapsed = span(secs, nanos);
        let rest = time_to_rest(target, elapsed).unwrap();
        let total = Duration::new(rest.secs(), rest.subsec_nanos())
            + Duration::new(elapsed.secs(), elapsed.subsec_nanos());
        assert_eq!(total, Duration::new(10, 123));
        nanos += 99_999_999;
    }
}

#[test]
fn rest_agrees_with_the_clock_type() {
    let target = Duration::from_secs(10);
    let cases = [
        Duration::new(0, 1),
        Duration::new(4, 999_999_999),
        Duration::new(9, 1),
        Duration::new(10, 0),
        Duration::new(11, 5),
    ];
    for elapsed in cases {
        let expected = if elapsed < target { Some(target - elapsed) } else { None };
        let got = time_to_rest(
            span(target.as_secs(), target.subsec_nanos()),
            span(elapsed.as_secs(), elapsed.subsec_nanos()),
        )
        .map(|rest| Duration::new(rest.secs(), rest.subsec_nanos()));
        assert_eq!(got, expected);
    }
}
