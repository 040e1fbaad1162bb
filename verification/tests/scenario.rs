use rsplay::data::{ExitKind, Pace, Validation};
use rsplay::pace::Rate;
use rsplay::Scenario;

const SEC: u64 = 1_000_000_000;

fn scenario(exit: ExitKind, pace: Pace) -> Scenario {
    Scenario {
        name: "test-scenario".to_string(),
        url: "http://localhost:8080/test?q=1".to_string(),
        exit,
        pace,
        idle_timeout: None,
        validation: None,
    }
}

#[test]
fn period_duration_is_taken_as_given() {
    let s = scenario(ExitKind::Period(10 * SEC), Pace::default());
    assert_eq!(s.duration(), 10 * SEC);
}

#[test]
fn count_duration_is_count_over_rate() {
    // 100 requests at 1/s take 100 s.
    let s = scenario(ExitKind::Count(100), Pace::Rate { freq: 1, per: SEC });
    assert_eq!(s.duration(), 100 * SEC);

    // 100 requests at 2/s take 50 s.
    let s = scenario(ExitKind::Count(100), Pace::Rate { freq: 2, per: SEC });
    assert_eq!(s.duration(), 50 * SEC);

    // 100 requests at 3/s take 33.33 s, floored to whole nanoseconds.
    let s = scenario(ExitKind::Count(100), Pace::Rate { freq: 3, per: SEC });
    assert_eq!(s.duration(), 33_333_333_333);

    // 1 request at a 1.5 s interval takes exactly 1.5 s.
    let s = scenario(
        ExitKind::Count(1),
        Pace::Rate {
            freq: 1,
            per: 1_500_000_000,
        },
    );
    assert_eq!(s.duration(), 1_500_000_000);

    // 60 requests at 2 per minute take 30 minutes.
    let s = scenario(
        ExitKind::Count(60),
        Pace::Rate {
            freq: 2,
            per: 60 * SEC,
        },
    );
    assert_eq!(s.duration(), 30 * 60 * SEC);
}

#[test]
fn count_duration_degenerate_rates() {
    // No events per interval: the count is never reached.
    let s = scenario(ExitKind::Count(1), Pace::Rate { freq: 0, per: SEC });
    assert_eq!(s.duration(), u64::MAX);

    // A zero count needs no time at all.
    let s = scenario(ExitKind::Count(0), Pace::Rate { freq: 0, per: SEC });
    assert_eq!(s.duration(), 0);

    // A zero interval is an unlimited rate: any count takes no time.
    let s = scenario(ExitKind::Count(1000), Pace::Rate { freq: 1, per: 0 });
    assert_eq!(s.duration(), 0);
}

#[test]
fn defaults() {
    assert_eq!(
        Rate::default(),
        Rate {
            freq: 1,
            per: SEC,
        }
    );
    assert_eq!(Pace::default(), Pace::Rate { freq: 1, per: SEC });
    assert_eq!(ExitKind::default(), ExitKind::Period(60 * SEC));
}

#[test]
fn pacer_carries_the_pace_fields() {
    let s = scenario(
        ExitKind::default(),
        Pace::Rate {
            freq: 7,
            per: 2 * SEC,
        },
    );
    let pacer = s.pacer();
    assert_eq!(
        pacer,
        Rate {
            freq: 7,
            per: 2 * SEC,
        }
    );
}

#[test]
fn accessors_return_the_fields() {
    let s = scenario(ExitKind::default(), Pace::default());
    assert_eq!(s.name(), "test-scenario");
    assert_eq!(s.url(), "http://localhost:8080/test?q=1");
}

#[test]
fn validations_are_copied_out() {
    let rules = vec![
        Validation {
            name: "status = 200".to_string(),
            status_code: 200,
        },
        Validation {
            name: "other".to_string(),
            status_code: 301,
        },
    ];
    let mut s = scenario(ExitKind::default(), Pace::default());
    s.validation = Some(rules.clone());
    assert_eq!(s.validations(), Some(rules));

    s.validation = None;
    assert_eq!(s.validations(), None);
}
