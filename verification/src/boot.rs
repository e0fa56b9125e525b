//! Boot-time readiness gating: probing the font subsystem with retries, and
//! the startup log line that reports how it went.
//!
//! At logon the font cache service may not be ready yet; the app probes it
//! until it answers, sleeping between attempts. The probe and the sleep are
//! the caller's; this module decides when to probe, when to give up and
//! what to report.

use vstd::prelude::*;

use crate::text::{append_decimal, decimal};

verus! {

/// Number of probe attempts before giving up (120 × 250 ms ≈ 30 s).
pub const FONT_WAIT_ATTEMPTS: u32 = 120;
/// Delay between probe attempts, in milliseconds.
pub const FONT_WAIT_DELAY_MS: u32 = 250;

/// What the caller must do next.
#[derive(Debug)]
pub enum PollStep {
    /// Probe now.
    Probe,
    /// Sleep for the delay, then probe.
    SleepThenProbe,
    /// Polling is over: the number of the successful attempt, or the last
    /// error.
    Done(Result<u32, String>),
}

/// Polls a probe until it succeeds, up to a number of attempts.
pub struct ProbePoller {
    pub max_attempts: u32,
    /// The number of the attempt in progress (1 for the first probe).
    pub attempt: u32,
}

/// The error reported when no probe was ever made.
pub open spec fn never_ran() -> Seq<char> {
    "probe never ran"@
}

impl ProbePoller {
    /// Starts polling: the first probe is made at once, unless no attempt
    /// is allowed at all.
    pub fn start(max_attempts: u32) -> (r: (ProbePoller, PollStep))
        ensures
            r.0.max_attempts == max_attempts,
            r.0.attempt == 1,
            max_attempts == 0 ==> (r.1 matches PollStep::Done(Err(e)) && e@ == never_ran()),
            max_attempts > 0 ==> r.1 is Probe,
    {
        let poller = ProbePoller { max_attempts, attempt: 1 };
        if max_attempts == 0 {
            (poller, PollStep::Done(Err(String::from_str("probe never ran"))))
        } else {
            (poller, PollStep::Probe)
        }
    }

    /// Takes in the result of the probe of the current attempt. A success
    /// ends polling with the attempt's number; a failure ends it with that
    /// error when it was the last attempt allowed, and otherwise asks for a
    /// sleep and another attempt.
    pub fn record(&mut self, probe: Result<(), String>) -> (r: PollStep)
        requires
            1 <= old(self).attempt <= old(self).max_attempts,
        ensures
            final(self).max_attempts == old(self).max_attempts,
            1 <= final(self).attempt <= final(self).max_attempts,
            match probe {
                Ok(()) => r matches PollStep::Done(Ok(n)) && n == old(self).attempt
                    && final(self).attempt == old(self).attempt,
                Err(e) => if old(self).attempt < old(self).max_attempts {
                    r is SleepThenProbe && final(self).attempt == old(self).attempt + 1
                } else {
                    r matches PollStep::Done(Err(last)) && last == e
                        && final(self).attempt == old(self).attempt
                },
            },
    {
        match probe {
            Ok(()) => PollStep::Done(Ok(self.attempt)),
            Err(e) => {
                if self.attempt < self.max_attempts {
                    self.attempt = self.attempt + 1;
                    PollStep::SleepThenProbe
                } else {
                    PollStep::Done(Err(e))
                }
            },
        }
    }
}

/// The startup log line after a successful probe on attempt `attempts`,
/// `waited_ms` after the first.
pub open spec fn ready_line(attempts: u32, waited_ms: nat) -> Seq<char> {
    "Font subsystem ready after "@ + decimal(attempts as nat) + " attempt(s) (~"@ + decimal(
        waited_ms,
    ) + "ms wait)."@
}

/// The startup log line after polling gave up, `timeout_s` seconds in.
pub open spec fn gave_up_line(timeout_s: nat, last_error: Seq<char>) -> Seq<char> {
    "Font subsystem NOT ready after ~"@ + decimal(timeout_s)
        + "s; constructing GPUI anyway. Last error: "@ + last_error
}

/// What to write to the startup log once polling is over: nothing when the
/// first probe succeeded, the attempts and the time waited when a later
/// one did, the timeout and the last error when polling gave up.
pub fn font_wait_report(outcome: &Result<u32, String>, delay_ms: u32, max_attempts: u32) -> (r:
    Option<String>)
    requires
        outcome matches Ok(n) ==> n >= 1 && (n - 1) * delay_ms <= u32::MAX,
        max_attempts * delay_ms <= u32::MAX,
    ensures
        match outcome {
            Ok(n) => if *n == 1 {
                r is None
            } else {
                r matches Some(line) && line@ == ready_line(*n, ((*n - 1) * delay_ms) as nat)
            },
            Err(e) => r matches Some(line) && line@ == gave_up_line(
                (max_attempts * delay_ms / 1000) as nat,
                e@,
            ),
        },
{
    match outcome {
        Ok(n) => {
            if *n == 1 {
                None
            } else {
                let waited_ms = (*n - 1) * delay_ms;
                let mut line = String::from_str("Font subsystem ready after ");
                append_decimal(&mut line, *n);
                line.append(" attempt(s) (~");
                append_decimal(&mut line, waited_ms);
                line.append("ms wait).");
                Some(line)
            }
        },
        Err(e) => {
            let timeout_s = max_attempts * delay_ms / 1000;
            let mut line = String::from_str("Font subsystem NOT ready after ~");
            append_decimal(&mut line, timeout_s);
            line.append("s; constructing GPUI anyway. Last error: ");
            line.append(e.as_str());
            Some(line)
        },
    }
}

} // verus!
