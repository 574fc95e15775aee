//! The polling state machine of the login flow. The caller performs each step
//! that it hands out (a wait, a poll) and reports back; the machine decides
//! the cadence and when the flow is over.
use vstd::prelude::*;
use crate::json::{json_str_member, opt_str_view, str_member};
use crate::records::DeviceAuthBinary;
use crate::token::TwitchTokenError;

verus! {

/// Seconds added to the polling gap each time the platform asks to slow down.
pub const SLOW_DOWN_STEP: u64 = 5;

/// The phases of a login attempt.
#[derive(Clone, Copy, Debug, PartialEq, Eq, Structural)]
pub enum FlowPhase {
    Requesting,
    Pending,
    Authorized,
    Expired,
    Denied,
    Failed,
}

/// What one poll of the token endpoint said.
#[derive(Clone, Copy, Debug, PartialEq, Eq, Structural)]
pub enum PollOutcome {
    /// The user has not confirmed the code yet.
    AuthorizationPending,
    /// Polls come too often.
    SlowDown,
    /// The device code has expired.
    ExpiredToken,
    /// The user refused the request.
    AccessDenied,
    /// Any other refusal.
    Failed,
    /// The token was granted.
    Granted,
}

/// What the caller is to do next.
#[derive(Clone, Copy, Debug, PartialEq, Eq, Structural)]
pub enum PollStep {
    /// Wait this many seconds, then ask again.
    Wait(u64),
    /// Poll the token endpoint once and report the outcome.
    Poll,
    /// The flow is over, in this phase.
    Done(FlowPhase),
}

/// The state of the polling loop of one session. Time is counted in seconds
/// since the session was issued, as the waits that were handed out add up.
#[derive(Clone, Copy, Debug, PartialEq, Eq, Structural)]
pub struct PollLoop {
    /// The session's polling interval.
    pub interval: u64,
    /// The current gap between polls.
    pub delay: u64,
    /// The session's lifetime.
    pub expires_in: u64,
    /// Seconds waited so far.
    pub elapsed: u64,
    /// Polls reported so far.
    pub polls: u64,
    /// Whether a wait has been handed out since the last poll.
    pub due: bool,
    pub phase: FlowPhase,
}

impl PollLoop {
    /// Every poll follows a full gap of at least the interval, and no time is
    /// counted past the session's lifetime.
    pub open spec fn wf(&self) -> bool {
        &&& 0 < self.interval <= self.delay
        &&& self.elapsed <= self.expires_in
        &&& self.phase != FlowPhase::Requesting
        &&& if self.due && self.elapsed < self.expires_in {
            (self.polls + 1) * self.interval <= self.elapsed
        } else {
            self.polls * self.interval <= self.elapsed
        }
    }

    /// The step that follows `self`, and the state after it.
    pub open spec fn next_spec(self) -> (PollLoop, PollStep) {
        if self.phase != FlowPhase::Pending {
            (self, PollStep::Done(self.phase))
        } else if self.elapsed >= self.expires_in {
            (PollLoop { phase: FlowPhase::Expired, ..self }, PollStep::Done(FlowPhase::Expired))
        } else if self.due {
            (self, PollStep::Poll)
        } else {
            let w = if self.delay <= self.expires_in - self.elapsed {
                self.delay
            } else {
                (self.expires_in - self.elapsed) as u64
            };
            (PollLoop { elapsed: (self.elapsed + w) as u64, due: true, ..self }, PollStep::Wait(w))
        }
    }

    /// The phase that a poll's outcome leads to.
    pub open spec fn phase_after(outcome: PollOutcome) -> FlowPhase {
        match outcome {
            PollOutcome::AuthorizationPending => FlowPhase::Pending,
            PollOutcome::SlowDown => FlowPhase::Pending,
            PollOutcome::ExpiredToken => FlowPhase::Expired,
            PollOutcome::AccessDenied => FlowPhase::Denied,
            PollOutcome::Failed => FlowPhase::Failed,
            PollOutcome::Granted => FlowPhase::Authorized,
        }
    }

    /// The state after a poll with the given outcome.
    pub open spec fn poll_spec(self, outcome: PollOutcome) -> PollLoop {
        PollLoop {
            polls: (self.polls + 1) as u64,
            due: false,
            phase: Self::phase_after(outcome),
            delay: if outcome == PollOutcome::SlowDown && self.delay <= u64::MAX - SLOW_DOWN_STEP {
                (self.delay + SLOW_DOWN_STEP) as u64
            } else {
                self.delay
            },
            ..self
        }
    }

    /// The loop of a freshly issued session, whose interval and lifetime are positive.
    pub fn start(session: &DeviceAuthBinary) -> (r: PollLoop)
        requires
            session.interval > 0,
            session.expires_in > 0,
        ensures
            r.wf(),
            r == (PollLoop {
                interval: session.interval as u64,
                delay: session.interval as u64,
                expires_in: session.expires_in as u64,
                elapsed: 0,
                polls: 0,
                due: false,
                phase: FlowPhase::Pending,
            }),
    {
        PollLoop {
            interval: session.interval as u64,
            delay: session.interval as u64,
            expires_in: session.expires_in as u64,
            elapsed: 0,
            polls: 0,
            due: false,
            phase: FlowPhase::Pending,
        }
    }

    /// The next thing to do: wait out the gap (never past the session's
    /// lifetime), poll once the gap is over, or stop. A session whose lifetime
    /// has run out ends as `Expired`.
    pub fn next_step(&mut self) -> (r: PollStep)
        requires
            old(self).wf(),
        ensures
            final(self).wf(),
            (*final(self), r) == old(self).next_spec(),
    {
        if self.phase != FlowPhase::Pending {
            PollStep::Done(self.phase)
        } else if self.elapsed >= self.expires_in {
            self.phase = FlowPhase::Expired;
            PollStep::Done(FlowPhase::Expired)
        } else if self.due {
            PollStep::Poll
        } else {
            let w = if self.delay <= self.expires_in - self.elapsed {
                self.delay
            } else {
                self.expires_in - self.elapsed
            };
            proof {
                let (p, i) = (self.polls as int, self.interval as int);
                assert((p + 1) * i == p * i + i) by (nonlinear_arith);
            }
            self.elapsed = self.elapsed + w;
            self.due = true;
            PollStep::Wait(w)
        }
    }

    /// Records the outcome of the poll that `next_step` asked for.
    pub fn on_poll(&mut self, outcome: PollOutcome)
        requires
            old(self).wf(),
            old(self).next_spec().1 == PollStep::Poll,
        ensures
            final(self).wf(),
            *final(self) == old(self).poll_spec(outcome),
    {
        proof {
            let (p, i, e) = (self.polls as int, self.interval as int, self.elapsed as int);
            assert(p + 1 <= e) by (nonlinear_arith)
                requires
                    (p + 1) * i <= e,
                    i > 0,
                    p >= 0,
            ;
        }
        self.polls = self.polls + 1;
        self.due = false;
        if outcome == PollOutcome::SlowDown && self.delay <= u64::MAX - SLOW_DOWN_STEP {
            self.delay = self.delay + SLOW_DOWN_STEP;
        }
        self.phase = match outcome {
            PollOutcome::AuthorizationPending => FlowPhase::Pending,
            PollOutcome::SlowDown => FlowPhase::Pending,
            PollOutcome::ExpiredToken => FlowPhase::Expired,
            PollOutcome::AccessDenied => FlowPhase::Denied,
            PollOutcome::Failed => FlowPhase::Failed,
            PollOutcome::Granted => FlowPhase::Authorized,
        };
    }
}

/// A loop of a well-formed state has made no more polls than its session's
/// lifetime divided by its interval, and counts no time past that lifetime.
pub proof fn law_poll_budget(s: PollLoop)
    requires
        s.wf(),
    ensures
        s.polls <= s.expires_in / s.interval,
        s.elapsed <= s.expires_in,
{
    let (p, i, e, x) = (s.polls as int, s.interval as int, s.elapsed as int, s.expires_in as int);
    assert(p * i <= x) by (nonlinear_arith)
        requires
            (p + 1) * i <= e || p * i <= e,
            e <= x,
            i > 0,
    ;
    vstd::arithmetic::div_mod::lemma_div_is_ordered(p * i, x, i);
    vstd::arithmetic::div_mod::lemma_div_multiples_vanish(p, i);
}

/// A session whose lifetime has run out is over at the next step, as `Expired`.
pub proof fn law_expiry_ends_the_loop(s: PollLoop)
    requires
        s.wf(),
        s.phase == FlowPhase::Pending,
        s.elapsed >= s.expires_in,
    ensures
        s.next_spec().1 == PollStep::Done(FlowPhase::Expired),
        s.next_spec().0.phase == FlowPhase::Expired,
{
}

/// After a request to slow down, the gap between polls is longer than before.
pub proof fn law_slow_down_lengthens_gap(s: PollLoop)
    requires
        s.wf(),
        s.delay <= u64::MAX - SLOW_DOWN_STEP,
    ensures
        s.poll_spec(PollOutcome::SlowDown).delay > s.delay,
        s.poll_spec(PollOutcome::AuthorizationPending).delay == s.delay,
{
}

/// Each wait that the loop hands out is at least a second long and is counted,
/// so a session that stays pending reaches its lifetime and ends.
pub proof fn law_waits_advance_time(s: PollLoop)
    requires
        s.wf(),
    ensures
        s.next_spec().1 matches PollStep::Wait(w) ==> (w > 0 && s.next_spec().0.elapsed == s.elapsed
            + w),
        s.next_spec().0.wf(),
{
    let (p, i) = (s.polls as int, s.interval as int);
    assert((p + 1) * i == p * i + i) by (nonlinear_arith);
}

/// The outcome named by a refusal's error code.
pub open spec fn outcome_of_code(code: Option<Seq<char>>) -> PollOutcome {
    match code {
        Some(c) => if c == "authorization_pending"@ {
            PollOutcome::AuthorizationPending
        } else if c == "slow_down"@ {
            PollOutcome::SlowDown
        } else if c == "expired_token"@ {
            PollOutcome::ExpiredToken
        } else if c == "access_denied"@ {
            PollOutcome::AccessDenied
        } else {
            PollOutcome::Failed
        },
        None => PollOutcome::Failed,
    }
}

/// The outcome that a refusal's error code names.
pub fn classify_code(code: Option<String>) -> (r: PollOutcome)
    ensures
        r == outcome_of_code(opt_str_view(code)),
{
    match code {
        None => PollOutcome::Failed,
        Some(c) => {
            if c == "authorization_pending".to_owned() {
                PollOutcome::AuthorizationPending
            } else if c == "slow_down".to_owned() {
                PollOutcome::SlowDown
            } else if c == "expired_token".to_owned() {
                PollOutcome::ExpiredToken
            } else if c == "access_denied".to_owned() {
                PollOutcome::AccessDenied
            } else {
                PollOutcome::Failed
            }
        },
    }
}

/// The error code of a refusal's body: its `error` member, or else its
/// `message` member.
pub open spec fn error_code_in(body: Seq<char>) -> Option<Seq<char>> {
    match json_str_member(body, "error"@) {
        Some(c) => Some(c),
        None => json_str_member(body, "message"@),
    }
}

/// The outcome of one poll of the token endpoint.
pub fn poll_outcome<T>(r: &Result<T, TwitchTokenError>) -> (o: PollOutcome)
    ensures
        r is Ok ==> o == PollOutcome::Granted,
        r matches Err(TwitchTokenError::ApiError(b)) ==> o == outcome_of_code(error_code_in(b@)),
        r matches Err(e) && !(e is ApiError) ==> o == PollOutcome::Failed,
{
    match r {
        Ok(_) => PollOutcome::Granted,
        Err(TwitchTokenError::ApiError(b)) => {
            let code = match str_member(b.as_str(), "error") {
                Some(c) => Some(c),
                None => str_member(b.as_str(), "message"),
            };
            classify_code(code)
        },
        Err(_) => PollOutcome::Failed,
    }
}

} // verus!
