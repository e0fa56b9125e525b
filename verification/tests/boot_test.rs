use polterdesk::boot::{font_wait_report, PollStep, ProbePoller, FONT_WAIT_ATTEMPTS, FONT_WAIT_DELAY_MS};
use std::cell::Cell;
use std::time::Duration;

// The readiness poller decides when to probe, when to sleep and when to
// give up; this driver performs the probes it asks for and skips the
// sleeps, so the control flow is exercised deterministically.
fn poll_until_ready<F>(max_attempts: u32, _delay: Duration, mut probe: F) -> Result<u32, String>
where
    F: FnMut() -> Result<(), String>,
{
    let (mut poller, mut step) = ProbePoller::start(max_attempts);
    loop {
        match step {
            PollStep::Probe | PollStep::SleepThenProbe => step = poller.record(probe()),
            PollStep::Done(result) => return result,
        }
    }
}

#[test]
fn returns_on_first_success_without_retrying() {
    let calls = Cell::new(0);
    let result = poll_until_ready(5, Duration::ZERO, || {
        calls.set(calls.get() + 1);
        Ok(())
    });
    assert_eq!(result, Ok(1));
    assert_eq!(calls.get(), 1, "must not probe again after first success");
}

#[test]
fn retries_until_probe_succeeds() {
    let calls = Cell::new(0);
    let result = poll_until_ready(10, Duration::ZERO, || {
        let n = calls.get() + 1;
        calls.set(n);
        if n >= 3 {
            Ok(())
        } else {
            Err(format!("font subsystem not ready (attempt {n})"))
        }
    });
    assert_eq!(result, Ok(3));
    assert_eq!(calls.get(), 3);
}

#[test]
fn gives_up_after_max_attempts_returning_last_error() {
    let calls = Cell::new(0);
    let result = poll_until_ready(4, Duration::ZERO, || {
        let n = calls.get() + 1;
        calls.set(n);
        Err(format!("boom {n}"))
    });
    assert_eq!(result, Err("boom 4".to_string()));
    assert_eq!(calls.get(), 4, "must attempt exactly max_attempts times");
}

#[test]
fn zero_max_attempts_never_probes() {
    let calls = Cell::new(0);
    let result = poll_until_ready(0, Duration::ZERO, || {
        calls.set(calls.get() + 1);
        Ok(())
    });
    assert!(result.is_err());
    assert_eq!(calls.get(), 0);
}

#[test]
fn zero_attempts_reports_probe_never_ran() {
    let (_, step) = ProbePoller::start(0);
    match step {
        PollStep::Done(Err(e)) => assert_eq!(e, "probe never ran"),
        other => panic!("unexpected step {other:?}"),
    }
}

#[test]
fn failure_before_last_attempt_asks_for_sleep() {
    let (mut poller, step) = ProbePoller::start(2);
    assert!(matches!(step, PollStep::Probe));
    let step = poller.record(Err("x".to_string()));
    assert!(matches!(step, PollStep::SleepThenProbe));
    assert_eq!(poller.attempt, 2);
    let step = poller.record(Err("y".to_string()));
    assert!(matches!(step, PollStep::Done(Err(ref e)) if e == "y"));
}

#[test]
fn report_is_silent_on_first_attempt() {
    assert_eq!(font_wait_report(&Ok(1), FONT_WAIT_DELAY_MS, FONT_WAIT_ATTEMPTS), None);
}

#[test]
fn report_counts_attempts_and_wait() {
    let line = font_wait_report(&Ok(5), FONT_WAIT_DELAY_MS, FONT_WAIT_ATTEMPTS).unwrap();
    assert_eq!(line, "Font subsystem ready after 5 attempt(s) (~1000ms wait).");
    let line = font_wait_report(&Ok(120), FONT_WAIT_DELAY_MS, FONT_WAIT_ATTEMPTS).unwrap();
    assert_eq!(line, "Font subsystem ready after 120 attempt(s) (~29750ms wait).");
}

#[test]
fn report_gives_timeout_and_last_error() {
    let line =
        font_wait_report(&Err("boom".to_string()), FONT_WAIT_DELAY_MS, FONT_WAIT_ATTEMPTS).unwrap();
    assert_eq!(
        line,
        "Font subsystem NOT ready after ~30s; constructing GPUI anyway. Last error: boom"
    );
}
