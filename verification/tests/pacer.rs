use rsplay::pace::Rate;

const SEC: u64 = 1_000_000_000;

#[test]
fn pacer_pace_test() {
    let sec = SEC;
    let immediately = 0u64;

    let table = vec![
        ((1, sec), (1 * sec, 0), (immediately, false)),
        ((1, sec), (2 * sec, 0), (immediately, false)),
        ((1, sec), (1 * sec, 1), (sec, false)),
        ((1, sec), (1 * sec, 2), (2 * sec, false)),
        ((1, sec), (1 * sec, 10), (10 * sec, false)),
        ((1, sec), (11 * sec, 10), (immediately, false)),
        ((2, sec), (49 * sec / 10, 9), (100_000_000, false)),
        ((0, sec), (sec, 0), (immediately, false)),
        ((1, 0), (sec, 0), (immediately, false)),
        ((0, 0), (sec, 0), (immediately, false)),
    ];

    for ((freq, per), (elapsed, hits), (wait, stop)) in table {
        let r = Rate { freq, per };
        let (gwait, gstop) = r.pace(elapsed, hits);
        assert_eq!(gstop, stop);
        assert_eq!(gwait, wait);
    }
}

#[test]
fn pace_is_deterministic() {
    let r = Rate {
        freq: 7,
        per: 3 * SEC,
    };
    let first = r.pace(5 * SEC, 20);
    let second = r.pace(5 * SEC, 20);
    assert_eq!(first, second);
}

#[test]
fn try_pace_matches_pace_when_representable() {
    let r = Rate { freq: 2, per: SEC };
    let elapsed = 49 * SEC / 10;
    assert_eq!(r.try_pace(elapsed, 9), Some(r.pace(elapsed, 9)));
    assert_eq!(r.try_pace(elapsed, 9), Some((100_000_000, false)));
}

#[test]
fn try_pace_rejects_unrepresentable_wait() {
    // Ten nanoseconds split three ways: the first event is due at
    // nanosecond 10/3 = 3, so by nanosecond 9 with no hits the next due
    // instant already lies in the past.
    let r = Rate { freq: 3, per: 10 };
    assert_eq!(r.try_pace(9, 0), None);

    // A schedule whose next tick does not fit in 64-bit nanoseconds.
    let r = Rate {
        freq: 1,
        per: u64::MAX,
    };
    assert_eq!(r.try_pace(0, 2), None);
}

#[test]
fn degenerate_rate_fires_immediately() {
    for (freq, per) in [(0, SEC), (1, 0), (0, 0)] {
        let r = Rate { freq, per };
        for (elapsed, hits) in [(0, 0), (SEC, 5), (u64::MAX, u64::MAX)] {
            assert_eq!(r.pace(elapsed, hits), (0, false));
        }
    }
}

#[test]
fn behind_schedule_fires_immediately() {
    // freq=1, per=1s, elapsed=11s: eleven events are expected, only ten
    // have fired.
    let r = Rate { freq: 1, per: SEC };
    assert_eq!(r.pace(11 * SEC, 10), (0, false));
}

#[test]
fn caught_up_waits_until_next_tick() {
    // freq=2, per=1s, elapsed=4.9s, hits=9: eight events expected by 4s,
    // nine fired, so wait for the tenth tick at 5s: 100ms.
    let r = Rate { freq: 2, per: SEC };
    let (wait, stop) = r.pace(4_900_000_000, 9);
    assert_eq!(wait, 100_000_000);
    assert!(!stop);
    // The wait lands exactly on the next scheduled instant.
    assert_eq!(4_900_000_000 + wait, (10 * SEC) / 2);
}

#[test]
fn schedule_does_not_drift_when_freq_divides_unevenly() {
    // Three events per second: the third is due exactly at the second's
    // end, not at 3 * floor(1s / 3) = 999,999,999 ns.
    let r = Rate { freq: 3, per: SEC };
    let (wait, _) = r.pace(SEC - 2, 2);
    assert_eq!(wait, 2);
    assert_eq!((SEC - 2) + wait, SEC);
}
