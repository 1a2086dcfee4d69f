use assimilator::retry::{RetryDecision, RetryPolicy, RetryState};

fn run(policy: &RetryPolicy, failures: usize) -> (usize, Vec<u64>, Option<u32>) {
    let mut state = RetryState::start(policy);
    let mut delays = Vec::new();
    let mut attempts = 0;
    loop {
        attempts += 1;
        if attempts > failures {
            return (attempts, delays, None);
        }
        match state.on_failure(policy) {
            RetryDecision::Retry { delay_ms } => delays.push(delay_ms),
            RetryDecision::GiveUp { retries } => return (attempts, delays, Some(retries)),
        }
    }
}

#[test]
fn recovers_after_two_failures() {
    let p = RetryPolicy { max_retries: 3, initial_delay_ms: 1000 };
    let (attempts, delays, gave_up) = run(&p, 2);
    assert_eq!(attempts, 3);
    assert_eq!(delays, vec![1000, 2000]);
    assert_eq!(gave_up, None);
}

#[test]
fn succeeds_at_once() {
    let p = RetryPolicy { max_retries: 3, initial_delay_ms: 1000 };
    assert_eq!(run(&p, 0), (1, vec![], None));
}

#[test]
fn always_failing_gives_up_after_every_retry() {
    let p = RetryPolicy { max_retries: 3, initial_delay_ms: 1000 };
    let (attempts, delays, gave_up) = run(&p, usize::MAX);
    assert_eq!(attempts, 4);
    assert_eq!(delays, vec![1000, 2000, 4000]);
    assert_eq!(gave_up, Some(3));
}

#[test]
fn no_retries_means_one_attempt() {
    let p = RetryPolicy { max_retries: 0, initial_delay_ms: 5 };
    assert_eq!(run(&p, usize::MAX), (1, vec![], Some(0)));
}

#[test]
fn pause_stops_growing_at_the_largest_value() {
    let p = RetryPolicy { max_retries: 3, initial_delay_ms: u64::MAX / 2 + 1 };
    let (_, delays, _) = run(&p, usize::MAX);
    assert_eq!(delays, vec![u64::MAX / 2 + 1, u64::MAX, u64::MAX]);
}
