use vstd::prelude::*;

use crate::error::Error;

verus! {

/// How many times a failed connect or disconnect is retried.
#[derive(Debug, Clone, Copy, PartialEq, Eq)]
pub struct RetryBudget {
    pub max_attempts: u8,
}

/// The link state a session operation drives the device to.
#[derive(Debug, Clone, Copy, PartialEq, Eq)]
pub enum Goal {
    Connected,
    Disconnected,
}

/// Whether a device that reports `connected` is already where `goal` wants it.
pub open spec fn reached(goal: Goal, connected: bool) -> bool {
    connected == (goal == Goal::Connected)
}

pub struct SessionState {
    pub goal: Goal,
    pub max_attempts: u8,
    pub attempts: u16,
}

pub enum SessionStepView {
    CheckStatus(SessionState),
    Attempt(SessionState),
    Finished(Result<(), Error>),
}

/// The state of a fresh connect or disconnect under `budget`.
pub open spec fn session_start(goal: Goal, budget: RetryBudget) -> SessionState {
    SessionState { goal, max_attempts: budget.max_attempts, attempts: 0 }
}

/// How the operation answers the transport's report of the link state.
pub open spec fn session_on_status(
    s: SessionState,
    status: Result<bool, String>,
) -> SessionStepView {
    match status {
        Err(cause) => SessionStepView::Finished(Err(Error::CommandFailed { cause })),
        Ok(connected) => if reached(s.goal, connected) {
            SessionStepView::Finished(Ok(()))
        } else {
            SessionStepView::Attempt(s)
        },
    }
}

/// How the operation answers the outcome of one connect or disconnect call:
/// a failure counts one attempt, and once the count exceeds the budget the
/// operation gives up with the last cause.
pub open spec fn session_on_attempt(
    s: SessionState,
    outcome: Result<(), String>,
) -> SessionStepView {
    match outcome {
        Ok(()) => SessionStepView::Finished(Ok(())),
        Err(cause) => if s.attempts + 1 > s.max_attempts {
            SessionStepView::Finished(
                Err(Error::TooManyRetries { attempts: (s.attempts + 1) as u16, cause }),
            )
        } else {
            SessionStepView::CheckStatus(SessionState { attempts: (s.attempts + 1) as u16, ..s })
        },
    }
}

/// A connect or disconnect with bounded, immediate retries.
///
/// The caller first asks the transport for the link state and hands it to
/// `on_status`; when that asks for an attempt, the caller makes the connect
/// (or disconnect) call and hands its outcome to `on_attempt`, which either
/// finishes or sends the caller back to the link state.
pub struct SessionRetry {
    goal: Goal,
    max_attempts: u8,
    attempts: u16,
}

impl View for SessionRetry {
    type V = SessionState;

    closed spec fn view(&self) -> SessionState {
        SessionState { goal: self.goal, max_attempts: self.max_attempts, attempts: self.attempts }
    }
}

/// What a connect or disconnect asks for next, or how it ended.
pub enum SessionStep {
    /// Ask the transport whether the device is connected.
    CheckStatus(SessionRetry),
    /// Make one connect (or disconnect) call.
    Attempt(SessionRetry),
    Finished(Result<(), Error>),
}

impl View for SessionStep {
    type V = SessionStepView;

    open spec fn view(&self) -> SessionStepView {
        match self {
            SessionStep::CheckStatus(m) => SessionStepView::CheckStatus(m@),
            SessionStep::Attempt(m) => SessionStepView::Attempt(m@),
            SessionStep::Finished(r) => SessionStepView::Finished(*r),
        }
    }
}

impl SessionRetry {
    #[verifier::type_invariant]
    spec fn within_budget(self) -> bool {
        self.attempts <= self.max_attempts
    }

    /// Starts driving the device to `goal`; the first thing to do is check
    /// the link state.
    pub fn new(goal: Goal, budget: RetryBudget) -> (r: SessionRetry)
        ensures
            r@ == session_start(goal, budget),
    {
        SessionRetry { goal, max_attempts: budget.max_attempts, attempts: 0 }
    }

    /// Starts a connect.
    pub fn connect(budget: RetryBudget) -> (r: SessionRetry)
        ensures
            r@ == session_start(Goal::Connected, budget),
    {
        SessionRetry::new(Goal::Connected, budget)
    }

    /// Starts a disconnect.
    pub fn disconnect(budget: RetryBudget) -> (r: SessionRetry)
        ensures
            r@ == session_start(Goal::Disconnected, budget),
    {
        SessionRetry::new(Goal::Disconnected, budget)
    }

    /// Failed attempts so far.
    pub fn attempts(&self) -> (r: u16)
        ensures
            r == self@.attempts,
    {
        self.attempts
    }

    /// Feeds the transport's report of the link state.
    pub fn on_status(self, status: Result<bool, String>) -> (r: SessionStep)
        ensures
            r@ == session_on_status(self@, status),
    {
        match status {
            Err(cause) => SessionStep::Finished(Err(Error::CommandFailed { cause })),
            Ok(connected) => {
                let wanted = match self.goal {
                    Goal::Connected => true,
                    Goal::Disconnected => false,
                };
                if connected == wanted {
                    SessionStep::Finished(Ok(()))
                } else {
                    SessionStep::Attempt(self)
                }
            },
        }
    }

    /// Feeds the outcome of one connect (or disconnect) call.
    pub fn on_attempt(self, outcome: Result<(), String>) -> (r: SessionStep)
        ensures
            r@ == session_on_attempt(self@, outcome),
    {
        proof {
            use_type_invariant(&self);
        }
        match outcome {
            Ok(()) => SessionStep::Finished(Ok(())),
            Err(cause) => {
                let attempts = self.attempts + 1;
                if attempts > self.max_attempts as u16 {
                    SessionStep::Finished(Err(Error::TooManyRetries { attempts, cause }))
                } else {
                    SessionStep::CheckStatus(
                        SessionRetry { goal: self.goal, max_attempts: self.max_attempts, attempts },
                    )
                }
            },
        }
    }
}

/// A device already in the wanted link state needs no connect or disconnect
/// call: the operation succeeds on the first status report.
pub proof fn settled_link_needs_no_attempt(goal: Goal, budget: RetryBudget, connected: bool)
    requires
        reached(goal, connected),
    ensures
        session_on_status(session_start(goal, budget), Ok(connected))
            == SessionStepView::Finished(Ok(())),
{
}

/// Against a transport that always reports the device away from the goal and
/// fails every call with `cause`: the number of calls made, and the result.
pub open spec fn failing_run(s: SessionState, cause: String) -> (nat, Result<(), Error>)
    decreases s.max_attempts + 1 - s.attempts,
{
    match session_on_status(s, Ok(s.goal != Goal::Connected)) {
        SessionStepView::Attempt(s1) => match session_on_attempt(s1, Err(cause)) {
            SessionStepView::CheckStatus(s2) => {
                // the test always holds after a failed call; it bounds the recursion
                if s2.attempts > s.attempts && s2.attempts <= s.max_attempts {
                    let (n, r) = failing_run(s2, cause);
                    (n + 1, r)
                } else {
                    (1, Ok(()))
                }
            },
            SessionStepView::Finished(r) => (1, r),
            SessionStepView::Attempt(_) => (1, Ok(())),
        },
        SessionStepView::Finished(r) => (0, r),
        SessionStepView::CheckStatus(_) => (0, Ok(())),
    }
}

proof fn lemma_failing_run(s: SessionState, cause: String)
    requires
        s.attempts <= s.max_attempts,
    ensures
        failing_run(s, cause) == (
            (s.max_attempts + 1 - s.attempts) as nat,
            Err::<(), Error>(
                Error::TooManyRetries { attempts: (s.max_attempts + 1) as u16, cause },
            ),
        ),
    decreases s.max_attempts + 1 - s.attempts,
{
    if s.attempts + 1 <= s.max_attempts {
        lemma_failing_run(SessionState { attempts: (s.attempts + 1) as u16, ..s }, cause);
    }
}

/// With a transport whose every connect (or disconnect) fails, the operation
/// makes exactly `max_attempts + 1` calls, the first and one per retry, and
/// then fails with `TooManyRetries` counting them and carrying the cause.
pub proof fn failing_transport_exhausts_budget(goal: Goal, budget: RetryBudget, cause: String)
    ensures
        failing_run(session_start(goal, budget), cause) == (
            (budget.max_attempts + 1) as nat,
            Err::<(), Error>(
                Error::TooManyRetries { attempts: (budget.max_attempts + 1) as u16, cause },
            ),
        ),
{
    lemma_failing_run(session_start(goal, budget), cause);
}

} // verus!
