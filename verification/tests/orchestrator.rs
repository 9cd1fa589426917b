use quorum_time::orchestrator::READY_POLL_MILLIS;
use quorum_time::runner::TICK_INTERVAL_MILLIS;
use quorum_time::{
    get_date_time, next_step, ClockHandle, Resolution, SoftClock, Source, Step, TimestampSample,
    UtcReading,
};

fn runner() -> ClockHandle {
    ClockHandle::with_clock(SoftClock::from_reading(UtcReading {
        year: 2030,
        month: 7,
        day: 4,
        hour: 3,
        minute: 2,
        second: 1,
    }))
}

fn shown() -> TimestampSample {
    TimestampSample { day: 4, month: 7, year: 2030, hour: 3, minute: 2 }
}

fn at(minute: u8) -> TimestampSample {
    TimestampSample { day: 1, month: 1, year: 2024, hour: 10, minute }
}

#[test]
fn intervals() {
    assert_eq!(TICK_INTERVAL_MILLIS, 1000);
    assert_eq!(READY_POLL_MILLIS, 10);
}

#[test]
fn new_runner_is_not_ready() {
    let handle = runner();
    assert!(!handle.is_ready());
    assert_eq!(handle.get_time().timestamp(), shown());
}

#[test]
fn started_runner_is_not_ready_and_shows_a_valid_time() {
    let handle = ClockHandle::start();
    assert!(!handle.is_ready());
    let clock = handle.get_time();
    assert!(clock.second() < 60 && clock.minute() < 60 && clock.hour() < 24);
    assert!(1 <= clock.day() && clock.day() <= 31);
    assert!(1 <= clock.month() && clock.month() <= 12);
}

#[test]
fn mark_ready_sets_the_flag_and_keeps_the_clock() {
    let mut handle = runner();
    handle.mark_ready();
    assert!(handle.is_ready());
    assert_eq!(handle.get_time(), runner().get_time());
    handle.mark_ready();
    assert!(handle.is_ready());
}

#[test]
fn advance_ticks_the_clock_and_keeps_the_flag() {
    let mut handle = runner();
    handle.advance();
    assert!(!handle.is_ready());
    assert_eq!(handle.get_time().second(), 2);
    handle.mark_ready();
    handle.advance();
    assert!(handle.is_ready());
    assert_eq!(handle.get_time().second(), 3);
}

#[test]
fn agreement_is_reported_as_reconciled() {
    let handle = runner();
    let out = get_date_time(&handle, Some(at(20)), Some(at(25)), Some(at(28)));
    assert_eq!(out, Resolution::Reconciled(at(24)));
    assert!(!out.used_fallback());
    assert_eq!(out.timestamp(), at(24));
}

#[test]
fn absent_source_falls_back_on_the_clock() {
    let handle = runner();
    let out = get_date_time(&handle, Some(at(30)), None, Some(at(30)));
    assert_eq!(out, Resolution::Fallback(shown()));
    assert!(out.used_fallback());
    assert_eq!(out.timestamp(), shown());
}

#[test]
fn disagreement_falls_back_on_the_clock() {
    let handle = runner();
    let other_day = TimestampSample { day: 2, ..at(30) };
    let out = get_date_time(&handle, Some(at(30)), Some(other_day), Some(at(30)));
    assert_eq!(out, Resolution::Fallback(shown()));
    let out = get_date_time(&handle, Some(at(0)), Some(at(20)), Some(at(40)));
    assert_eq!(out, Resolution::Fallback(shown()));
}

#[test]
fn fallback_differs_from_agreement_on_the_same_timestamp() {
    let handle = runner();
    let agreed = get_date_time(&handle, Some(shown()), Some(shown()), Some(shown()));
    let fallen = get_date_time(&handle, None, None, None);
    assert_eq!(agreed.timestamp(), fallen.timestamp());
    assert_ne!(agreed, fallen);
}

#[test]
fn fallback_reads_the_clock_as_it_stands() {
    let mut handle = runner();
    for _ in 0..59 {
        handle.advance();
    }
    let out = get_date_time(&handle, None, None, None);
    assert_eq!(out.timestamp(), TimestampSample { minute: 3, ..shown() });
}

#[test]
fn steps_wait_until_the_runner_is_ready() {
    let mut handle = runner();
    let answers = Vec::new();
    assert_eq!(next_step(&handle, &answers), Step::Wait { millis: 10 });
    handle.mark_ready();
    assert_eq!(next_step(&handle, &answers), Step::Fetch { source: Source::A });
}

#[test]
fn steps_ask_the_sources_in_order_and_then_report() {
    let mut handle = runner();
    handle.mark_ready();
    let mut answers = Vec::new();
    assert_eq!(next_step(&handle, &answers), Step::Fetch { source: Source::A });
    answers.push(Some(at(5)));
    assert_eq!(next_step(&handle, &answers), Step::Fetch { source: Source::B });
    answers.push(Some(at(50)));
    assert_eq!(next_step(&handle, &answers), Step::Fetch { source: Source::C });
    answers.push(Some(at(8)));
    assert_eq!(
        next_step(&handle, &answers),
        Step::Report { resolution: Resolution::Reconciled(at(6)) }
    );
}

#[test]
fn steps_report_the_fallback_when_a_source_failed() {
    let mut handle = runner();
    handle.mark_ready();
    let answers = vec![Some(at(5)), None, Some(at(8))];
    assert_eq!(
        next_step(&handle, &answers),
        Step::Report { resolution: Resolution::Fallback(shown()) }
    );
}

#[test]
fn source_urls() {
    assert_eq!(Source::A.url(), "https://worldtimeapi.org/api/timezone/Europe/London");
    assert_eq!(Source::B.url(), "https://timeapi.io/api/Time/current/zone?timeZone=Europe/London");
    assert_eq!(Source::C.url(), "http://worldclockapi.com/api/json/utc/now");
}
