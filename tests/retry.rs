use tibber_status::retry::{backoff_secs, RetrySchedule, RetryStep};

fn drive(max_attempts: u32, outcomes: &[bool]) -> (u32, bool, Vec<u64>) {
    let mut schedule = RetrySchedule::new(max_attempts);
    let mut attempts: u32 = 0;
    let mut delays = Vec::new();
    while schedule.can_attempt() {
        let ok = outcomes[attempts as usize];
        attempts += 1;
        match schedule.record(ok) {
            RetryStep::Done => return (attempts, true, delays),
            RetryStep::Retry { delay_secs } => delays.push(delay_secs),
            RetryStep::GiveUp { delay_secs } => delays.push(delay_secs),
        }
    }
    (attempts, false, delays)
}

#[test]
fn backoff_is_power_of_two() {
    assert_eq!(backoff_secs(0), 1);
    assert_eq!(backoff_secs(1), 2);
    assert_eq!(backoff_secs(9), 512);
    assert_eq!(backoff_secs(63), 1u64 << 63);
}

#[test]
fn fails_three_times_then_succeeds() {
    let outcomes = [false, false, false, true, false, false, false, false, false, false];
    let (attempts, ok, delays) = drive(10, &outcomes);
    assert_eq!(attempts, 4);
    assert!(ok);
    assert_eq!(delays, vec![1, 2, 4]);
}

#[test]
fn first_attempt_succeeds() {
    let (attempts, ok, delays) = drive(10, &[true; 10]);
    assert_eq!(attempts, 1);
    assert!(ok);
    assert!(delays.is_empty());
}

#[test]
fn always_failing_exhausts_attempts() {
    let (attempts, ok, delays) = drive(10, &[false; 10]);
    assert_eq!(attempts, 10);
    assert!(!ok);
    assert_eq!(delays, vec![1, 2, 4, 8, 16, 32, 64, 128, 256, 512]);
}

#[test]
fn last_failure_gives_up() {
    let mut schedule = RetrySchedule::new(2);
    assert!(matches!(schedule.record(false), RetryStep::Retry { delay_secs: 1 }));
    assert!(matches!(schedule.record(false), RetryStep::GiveUp { delay_secs: 2 }));
    assert!(!schedule.can_attempt());
}

#[test]
fn zero_attempts_make_none() {
    let (attempts, ok, _) = drive(0, &[]);
    assert_eq!(attempts, 0);
    assert!(!ok);
}
