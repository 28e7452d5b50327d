use stanley::timer::{plan_pause, Pause};

const MS: u64 = 1_000_000;

#[test]
fn test_pause_for_too_long() {
    // twenty milliseconds of lateness cover a ten millisecond pause
    assert_eq!(
        plan_pause(10 * MS, 0, 20 * MS),
        Pause {
            sleep: 0,
            runover: 10 * MS
        }
    );
}

#[test]
fn pause_sleeps_what_lateness_does_not_cover() {
    assert_eq!(
        plan_pause(10 * MS, 4 * MS, 2 * MS),
        Pause {
            sleep: 4 * MS,
            runover: 0
        }
    );
}

#[test]
fn overshoot_is_carried() {
    assert_eq!(
        plan_pause(10 * MS, 15 * MS, MS),
        Pause {
            sleep: 0,
            runover: 6 * MS
        }
    );
    assert_eq!(
        plan_pause(0, u64::MAX, u64::MAX),
        Pause {
            sleep: 0,
            runover: u64::MAX
        }
    );
}
