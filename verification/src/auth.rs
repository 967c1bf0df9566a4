//! Polling discipline of the OAuth device flow: how often the token
//! endpoint is asked, when to give up, and what each answer means.
use vstd::prelude::*;

verus! {

/// How one poll of the device-flow token endpoint ended.
#[derive(Debug, Clone, PartialEq)]
pub enum PollOutcome {
    /// The user authorized the app; a token was issued.
    Authorized,
    AuthorizationPending,
    SlowDown,
    ExpiredToken,
    AccessDenied,
    RequestFailed(String),
    Unknown(String),
}

/// What to do after a poll.
#[derive(Debug, Clone, PartialEq)]
pub enum PollAction {
    /// Poll again after the usual interval.
    PollAgain,
    /// Wait one extra interval, then poll again.
    BackOffThenPollAgain,
    /// Authorization succeeded.
    Succeeded,
    /// Authorization failed with this message.
    Failed(String),
}

pub open spec fn failed_with(a: PollAction, message: Seq<char>) -> bool {
    match a {
        PollAction::Failed(m) => m@ == message,
        _ => false,
    }
}

/// The action an outcome calls for: keep polling while authorization is
/// pending, back off when asked to slow down, stop on success or any
/// failure.
pub open spec fn poll_action_for(outcome: PollOutcome, a: PollAction) -> bool {
    match outcome {
        PollOutcome::Authorized => a == PollAction::Succeeded,
        PollOutcome::AuthorizationPending => a == PollAction::PollAgain,
        PollOutcome::SlowDown => a == PollAction::BackOffThenPollAgain,
        PollOutcome::ExpiredToken => failed_with(a, "Authentication timeout"@),
        PollOutcome::AccessDenied => failed_with(a, "Access denied"@),
        PollOutcome::RequestFailed(m) => failed_with(a, m@),
        PollOutcome::Unknown(m) => failed_with(a, m@),
    }
}

/// Decides what to do after a poll.
pub fn action_after_poll(outcome: PollOutcome) -> (a: PollAction)
    ensures
        poll_action_for(outcome, a),
{
    match outcome {
        PollOutcome::Authorized => PollAction::Succeeded,
        PollOutcome::AuthorizationPending => PollAction::PollAgain,
        PollOutcome::SlowDown => PollAction::BackOffThenPollAgain,
        PollOutcome::ExpiredToken => PollAction::Failed(String::from_str("Authentication timeout")),
        PollOutcome::AccessDenied => PollAction::Failed(String::from_str("Access denied")),
        PollOutcome::RequestFailed(m) => PollAction::Failed(m),
        PollOutcome::Unknown(m) => PollAction::Failed(m),
    }
}

/// The polling interval in seconds: the server's, but at least one.
pub open spec fn effective_interval(interval: u64) -> u64 {
    if interval < 1 {
        1
    } else {
        interval
    }
}

/// How many polls fit in the code's lifetime: `expires_in / interval`, but
/// at least one.
pub open spec fn attempt_budget(expires_in: u64, interval: u64) -> u64 {
    let n = expires_in / effective_interval(interval);
    if n < 1 {
        1
    } else {
        n
    }
}

/// A device code is polled as often as its lifetime allows, and at least
/// once: with `d` the interval (at least one second), the budget `n` fits
/// `n` whole intervals into the lifetime and not `n + 1`, unless the
/// lifetime is shorter than one interval, when it is one poll.
pub proof fn law_poll_budget_fills_the_lifetime(expires_in: u64, interval: u64)
    ensures
        ({
            let d: int = if interval < 1 {
                1
            } else {
                interval as int
            };
            let n: int = attempt_budget(expires_in, interval) as int;
            &&& n >= 1
            &&& (expires_in >= d ==> n * d <= expires_in < (n + 1) * d)
            &&& (expires_in < d ==> n == 1)
        }),
{
    let d: int = if interval < 1 {
        1
    } else {
        interval as int
    };
    let q: int = expires_in as int / d;
    assert(q * d <= expires_in < (q + 1) * d) by (nonlinear_arith)
        requires
            d >= 1,
            q == expires_in as int / d,
            expires_in >= 0,
    ;
    assert(expires_in >= d ==> q >= 1) by (nonlinear_arith)
        requires
            d >= 1,
            q == expires_in as int / d,
            expires_in >= 0,
    ;
    assert(expires_in < d ==> q == 0) by (nonlinear_arith)
        requires
            d >= 1,
            q == expires_in as int / d,
            expires_in >= 0,
    ;
}

pub fn poll_interval_secs(interval: u64) -> (secs: u64)
    ensures
        secs == effective_interval(interval),
{
    if interval < 1 {
        1
    } else {
        interval
    }
}

/// The OAuth app the device flow signs in with.
pub const GITHUB_CLIENT_ID: &'static str = "Iv1.b507a08c87ecfe98";

/// What the device flow is started with: the app's client id and the
/// scopes asked for.
pub struct DeviceFlowRequest {
    pub client_id: String,
    pub scopes: Vec<String>,
}

/// The device-flow request: the app's client id, asking for the `repo` and
/// `workflow` scopes.
pub fn device_flow_request() -> (r: DeviceFlowRequest)
    ensures
        r.client_id@ == GITHUB_CLIENT_ID@,
        r.scopes@.len() == 2,
        r.scopes@[0]@ == "repo"@,
        r.scopes@[1]@ == "workflow"@,
{
    let mut scopes: Vec<String> = Vec::new();
    scopes.push(String::from_str("repo"));
    scopes.push(String::from_str("workflow"));
    DeviceFlowRequest { client_id: String::from_str(GITHUB_CLIENT_ID), scopes }
}

/// What drives the polling loop forward.
#[derive(Debug, Clone, PartialEq)]
pub enum PollEvent {
    /// The code was issued, or a requested wait is over.
    Ready,
    /// A poll of the token endpoint ended so.
    Polled(PollOutcome),
}

/// What the polling loop does next.
#[derive(Debug, Clone, PartialEq)]
pub enum PollInstruction {
    /// Wait this many seconds, then poll the token endpoint once.
    WaitThenPoll(u64),
    /// Wait this many seconds, then go on (`Ready`).
    Wait(u64),
    /// Stop with this result (`Succeeded` or `Failed`).
    Finish(PollAction),
}

/// Counts polls against the budget of a device code.
pub struct DevicePoll {
    attempts: u64,
    max_attempts: u64,
    interval: u64,
}

impl DevicePoll {
    pub closed spec fn spec_attempts(&self) -> u64 {
        self.attempts
    }

    pub closed spec fn spec_max_attempts(&self) -> u64 {
        self.max_attempts
    }

    /// Seconds between polls.
    pub closed spec fn spec_interval(&self) -> u64 {
        self.interval
    }

    /// A fresh budget for a code valid `expires_in` seconds, polled every
    /// `interval` seconds.
    pub fn new(expires_in: u64, interval: u64) -> (p: DevicePoll)
        ensures
            p.spec_attempts() == 0,
            p.spec_max_attempts() == attempt_budget(expires_in, interval),
            p.spec_interval() == effective_interval(interval),
    {
        let every = poll_interval_secs(interval);
        let n = expires_in / every;
        DevicePoll {
            interval: every,
            attempts: 0,
            max_attempts: if n < 1 {
                1
            } else {
                n
            },
        }
    }

    /// Starts the next poll if the budget allows it; once it is spent, the
    /// flow times out.
    pub fn begin_attempt(&mut self) -> (allowed: bool)
        requires
            old(self).spec_attempts() <= old(self).spec_max_attempts(),
        ensures
            allowed == (old(self).spec_attempts() < old(self).spec_max_attempts()),
            final(self).spec_max_attempts() == old(self).spec_max_attempts(),
            final(self).spec_interval() == old(self).spec_interval(),
            final(self).spec_attempts() == (if allowed {
                old(self).spec_attempts() + 1
            } else {
                old(self).spec_attempts() as int
            }),
            final(self).spec_attempts() <= final(self).spec_max_attempts(),
    {
        if self.attempts >= self.max_attempts {
            false
        } else {
            self.attempts = self.attempts + 1;
            true
        }
    }

    /// One step of the polling loop. When the code is issued, a wait is over
    /// or authorization is still pending, the next poll is due after one
    /// interval if the budget allows it, else the flow times out. When asked
    /// to slow down, one extra interval is waited first. Any other answer
    /// ends the flow: success on authorization, else the failure message.
    pub fn step(&mut self, event: PollEvent) -> (i: PollInstruction)
        requires
            old(self).spec_attempts() <= old(self).spec_max_attempts(),
        ensures
            final(self).spec_max_attempts() == old(self).spec_max_attempts(),
            final(self).spec_interval() == old(self).spec_interval(),
            final(self).spec_attempts() <= final(self).spec_max_attempts(),
            match event {
                PollEvent::Ready | PollEvent::Polled(PollOutcome::AuthorizationPending) => if old(
                    self,
                ).spec_attempts() < old(self).spec_max_attempts() {
                    &&& final(self).spec_attempts() == old(self).spec_attempts() + 1
                    &&& i == PollInstruction::WaitThenPoll(old(self).spec_interval())
                } else {
                    &&& final(self).spec_attempts() == old(self).spec_attempts()
                    &&& i matches PollInstruction::Finish(a) && failed_with(a, "Authentication timeout"@)
                },
                PollEvent::Polled(PollOutcome::SlowDown) => {
                    &&& final(self).spec_attempts() == old(self).spec_attempts()
                    &&& i == PollInstruction::Wait(old(self).spec_interval())
                },
                PollEvent::Polled(o) => {
                    &&& final(self).spec_attempts() == old(self).spec_attempts()
                    &&& i matches PollInstruction::Finish(a) && poll_action_for(o, a)
                },
            },
    {
        match event {
            PollEvent::Ready | PollEvent::Polled(PollOutcome::AuthorizationPending) => {
                if self.begin_attempt() {
                    PollInstruction::WaitThenPoll(self.interval)
                } else {
                    PollInstruction::Finish(PollAction::Failed(DevicePoll::timeout_message()))
                }
            },
            PollEvent::Polled(PollOutcome::SlowDown) => PollInstruction::Wait(self.interval),
            PollEvent::Polled(o) => PollInstruction::Finish(action_after_poll(o)),
        }
    }

    /// The message shown when the budget is spent.
    pub fn timeout_message() -> (m: String)
        ensures
            m@ == "Authentication timeout"@,
    {
        String::from_str("Authentication timeout")
    }
}

} // verus!
