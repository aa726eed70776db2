use vstd::prelude::*;

use crate::error::SeriaError;
use crate::gateway::config::GatewayConfig;
use crate::gateway::heartbeat::HeartbeatClock;
use crate::gateway::policy::ReconnectPolicy;
use crate::models::ClientEvent;

verus! {

/// Where a session stands.
#[derive(Debug, Clone, Copy, PartialEq, Eq, Structural)]
pub enum SessionPhase {
    /// Not started.
    Idle,
    /// Opening the socket.
    Opening,
    /// The socket is open; the credential is being sent.
    Authenticating,
    /// Heartbeat, writer and reader run.
    Active,
    /// Waiting out the backoff before the next attempt.
    Waiting,
    /// The attempts are spent; no further attempt is made.
    Exhausted,
    /// Torn down.
    Closed,
}

/// The three tasks of an active attempt.
#[derive(Debug, Clone, Copy, PartialEq, Eq, Structural)]
pub enum SessionTask {
    Heartbeat,
    Writer,
    Reader,
}

/// What happened to a session.
#[derive(Debug)]
pub enum SessionEvent {
    /// The consumer asked to connect.
    Connect,
    /// The socket opened.
    Opened,
    /// The socket did not open.
    OpenFailed(SeriaError),
    /// The credential was sent.
    AuthQueued,
    /// The credential could not be sent.
    AuthQueueFailed,
    /// The first of the attempt's tasks ended.
    TaskEnded(SessionTask),
    /// The backoff delay has passed.
    BackoffElapsed,
    /// The consumer tore the session down.
    TearDown,
}

/// What the session asks its driver to do next.
#[derive(Debug)]
pub enum SessionAction {
    /// Nothing.
    Nothing,
    /// Open the socket.
    Open,
    /// Send this intent on the new socket, before any task starts and before anything
    /// queued, then signal `AuthQueued` (or `AuthQueueFailed` if it could not be sent).
    Authenticate(ClientEvent),
    /// Start heartbeat, writer and reader together.
    StartTasks,
    /// Cancel the attempt's tasks, report `cause` to the consumer, wait `delay`
    /// milliseconds, then signal `BackoffElapsed`.
    Retry { delay: u64, cause: SeriaError },
    /// Cancel the attempt's tasks and report `cause` to the consumer as the final error:
    /// no further attempt is made.
    GiveUp(SeriaError),
    /// Cancel every task and close both queues.
    Shutdown,
}

/// The reason reported when one of an active attempt's tasks ends.
pub open spec fn task_end_reason(task: SessionTask) -> Seq<char> {
    match task {
        SessionTask::Heartbeat => "Heartbeat task terminated"@,
        SessionTask::Writer => "Write task terminated"@,
        SessionTask::Reader => "Read task terminated"@,
    }
}

/// The state of one logical gateway session across its connection attempts.
#[derive(Debug)]
pub struct Session {
    /// Where the session stands.
    pub phase: SessionPhase,
    /// The credential sent on each attempt.
    pub token: String,
    /// Count of consecutive failed attempts, and when to stop.
    pub policy: ReconnectPolicy,
    /// Times of the last heartbeat ping and pong.
    pub heartbeat: HeartbeatClock,
}

/// Whether `action` and the session after it are what a failed attempt leads to, from the
/// policy `p`: wait and retry while attempts remain, else stop and report once.
pub open spec fn fails_to(p: ReconnectPolicy, cause: SeriaError, post: Session, action: SessionAction) -> bool {
    &&& post.policy == p.after_failure().0
    &&& match p.after_failure().1 {
        Some(delay) => post.phase is Waiting && action == SessionAction::Retry { delay, cause },
        None => post.phase is Exhausted && action == SessionAction::GiveUp(cause),
    }
}

impl Session {
    pub open spec fn wf(self) -> bool {
        &&& self.policy.wf()
        &&& self.phase is Exhausted ==> self.policy.exhausted
        &&& self.policy.exhausted ==> (self.phase is Exhausted || self.phase is Closed)
    }

    /// A session that has not started, for the configuration `config`; `now` is the time
    /// on the heartbeat clock.
    pub fn new(config: &GatewayConfig, now: u64) -> (r: Session)
        ensures
            r.wf(),
            r.phase is Idle,
            r.token@ == config.token@,
            r.policy.attempts == if config.reconnect_attempts <= config.max_reconnect_attempts {
                config.reconnect_attempts
            } else {
                config.max_reconnect_attempts
            },
            r.policy.max_attempts == config.max_reconnect_attempts,
            r.policy.base_delay == config.reconnect_delay,
            !r.policy.exhausted,
            r.heartbeat.last_ping == now,
            r.heartbeat.last_pong == now,
    {
        Session {
            phase: SessionPhase::Idle,
            token: config.token.clone(),
            policy: config.policy(),
            heartbeat: HeartbeatClock::new(now),
        }
    }

    /// Whether an attempt is under way or running.
    pub fn is_connected(&self) -> (r: bool)
        ensures
            r == (self.phase is Opening || self.phase is Authenticating || self.phase is Active
                || self.phase is Waiting),
    {
        match self.phase {
            SessionPhase::Opening | SessionPhase::Authenticating | SessionPhase::Active
            | SessionPhase::Waiting => true,
            _ => false,
        }
    }

    /// Whether the session still accepts intents.
    pub fn accepts_intents(&self) -> (r: bool)
        ensures
            r == !(self.phase is Closed),
    {
        match self.phase {
            SessionPhase::Closed => false,
            _ => true,
        }
    }

    fn fail(&mut self, cause: SeriaError) -> (r: SessionAction)
        requires
            old(self).wf(),
            !old(self).policy.exhausted,
        ensures
            final(self).wf(),
            fails_to(old(self).policy, cause, *final(self), r),
            final(self).token == old(self).token,
            final(self).heartbeat == old(self).heartbeat,
    {
        match self.policy.on_failure() {
            Some(delay) => {
                self.phase = SessionPhase::Waiting;
                SessionAction::Retry { delay, cause }
            },
            None => {
                self.phase = SessionPhase::Exhausted;
                SessionAction::GiveUp(cause)
            },
        }
    }

    /// Advances the session by one event and returns what its driver does next.
    ///
    /// Connecting is idempotent: `Connect` acts only on a session that has not started.
    /// A successful open resets the attempt count and queues the credential before any
    /// task starts. A failed open, a failed queueing of the credential, or the end of any
    /// task of an active attempt counts one failure: the session then waits
    /// `base × attempts` (capped) and retries, or, with the attempts spent, reports the
    /// final error once and stops. After that, and after a teardown, nothing happens.
    pub fn step(&mut self, event: SessionEvent) -> (r: SessionAction)
        requires
            old(self).wf(),
        ensures
            final(self).wf(),
            final(self).token == old(self).token,
            final(self).heartbeat == old(self).heartbeat,
            old(self).phase is Closed ==> (*final(self) == *old(self) && r is Nothing),
            !(old(self).phase is Closed) && event is TearDown ==> (final(self).phase is Closed
                && final(self).policy == old(self).policy && r is Shutdown),
            old(self).phase is Exhausted && !(event is TearDown) ==> (*final(self) == *old(self)
                && r is Nothing),
            r is GiveUp ==> !(old(self).phase is Exhausted) && final(self).phase is Exhausted,
            ({
                let pre = *old(self);
                let post = *final(self);
                match (pre.phase, event) {
                    (SessionPhase::Idle, SessionEvent::Connect) => post.phase is Opening
                        && post.policy == pre.policy && r is Open,
                    (SessionPhase::Opening, SessionEvent::Opened) => post.phase is Authenticating
                        && post.policy == pre.policy.after_success()
                        && (r matches SessionAction::Authenticate(ClientEvent::Authenticate { token })
                        && token@ == pre.token@),
                    (SessionPhase::Opening, SessionEvent::OpenFailed(e)) => fails_to(pre.policy, e, post, r),
                    (SessionPhase::Authenticating, SessionEvent::AuthQueued) => post.phase is Active
                        && post.policy == pre.policy && r is StartTasks,
                    (SessionPhase::Authenticating, SessionEvent::AuthQueueFailed) =>
                        (r matches SessionAction::Retry { cause: SeriaError::Other(m), .. }
                            ==> m@ == "Failed to send authentication event"@)
                        && (r matches SessionAction::GiveUp(SeriaError::Other(m))
                            ==> m@ == "Failed to send authentication event"@),
                    (SessionPhase::Active, SessionEvent::TaskEnded(t)) =>
                        (r matches SessionAction::Retry { cause: SeriaError::Other(m), .. }
                            ==> m@ == task_end_reason(t))
                        && (r matches SessionAction::GiveUp(SeriaError::Other(m))
                            ==> m@ == task_end_reason(t)),
                    (SessionPhase::Waiting, SessionEvent::BackoffElapsed) => post.phase is Opening
                        && post.policy == pre.policy && r is Open,
                    (_, SessionEvent::TearDown) => true,
                    (SessionPhase::Authenticating, _) | (SessionPhase::Active, _) => true,
                    _ => *final(self) == *old(self) && r is Nothing,
                }
            }),
            ({
                let pre = *old(self);
                let post = *final(self);
                (pre.phase is Authenticating && event is AuthQueueFailed)
                    || (pre.phase is Active && event is TaskEnded)
                    ==> (post.policy == pre.policy.after_failure().0
                        && (r is Retry || r is GiveUp)
                        && (r is Retry <==> pre.policy.after_failure().1 is Some)
                        && (r matches SessionAction::Retry { delay, .. }
                            ==> pre.policy.after_failure().1 == Some(delay))
                        && (post.phase is Waiting || post.phase is Exhausted))
            }),
            ({
                let pre = *old(self);
                (pre.phase is Authenticating && !(event is AuthQueued) && !(event is AuthQueueFailed)
                    && !(event is TearDown))
                    || (pre.phase is Active && !(event is TaskEnded) && !(event is TearDown))
                    ==> *final(self) == *old(self) && r is Nothing
            }),
    {
        match self.phase {
            SessionPhase::Closed => {
                return SessionAction::Nothing;
            },
            _ => {},
        }
        match event {
            SessionEvent::TearDown => {
                self.phase = SessionPhase::Closed;
                return SessionAction::Shutdown;
            },
            _ => {},
        }
        match self.phase {
            SessionPhase::Idle => match event {
                SessionEvent::Connect => {
                    self.phase = SessionPhase::Opening;
                    SessionAction::Open
                },
                _ => SessionAction::Nothing,
            },
            SessionPhase::Opening => match event {
                SessionEvent::Opened => {
                    self.policy.on_success();
                    self.phase = SessionPhase::Authenticating;
                    SessionAction::Authenticate(ClientEvent::Authenticate { token: self.token.clone() })
                },
                SessionEvent::OpenFailed(e) => self.fail(e),
                _ => SessionAction::Nothing,
            },
            SessionPhase::Authenticating => match event {
                SessionEvent::AuthQueued => {
                    self.phase = SessionPhase::Active;
                    SessionAction::StartTasks
                },
                SessionEvent::AuthQueueFailed => {
                    let cause = SeriaError::Other(String::from_str("Failed to send authentication event"));
                    self.fail(cause)
                },
                _ => SessionAction::Nothing,
            },
            SessionPhase::Active => match event {
                SessionEvent::TaskEnded(task) => {
                    let reason = match task {
                        SessionTask::Heartbeat => String::from_str("Heartbeat task terminated"),
                        SessionTask::Writer => String::from_str("Write task terminated"),
                        SessionTask::Reader => String::from_str("Read task terminated"),
                    };
                    self.fail(SeriaError::Other(reason))
                },
                _ => SessionAction::Nothing,
            },
            SessionPhase::Waiting => match event {
                SessionEvent::BackoffElapsed => {
                    self.phase = SessionPhase::Opening;
                    SessionAction::Open
                },
                _ => SessionAction::Nothing,
            },
            _ => SessionAction::Nothing,
        }
    }

    /// Notes a heartbeat ping sent at `now`.
    pub fn record_ping(&mut self, now: u64)
        ensures
            final(self).heartbeat.last_ping == now,
            final(self).heartbeat.last_pong == old(self).heartbeat.last_pong,
            final(self).phase == old(self).phase,
            final(self).policy == old(self).policy,
            final(self).token == old(self).token,
    {
        self.heartbeat.record_ping(now);
    }

    /// Notes a heartbeat pong received at `now`.
    pub fn record_pong(&mut self, now: u64)
        ensures
            final(self).heartbeat.last_pong == now,
            final(self).heartbeat.last_ping == old(self).heartbeat.last_ping,
            final(self).phase == old(self).phase,
            final(self).policy == old(self).policy,
            final(self).token == old(self).token,
    {
        self.heartbeat.record_pong(now);
    }

    /// The latency of the last heartbeat round, in milliseconds.
    pub fn latency(&self) -> (r: u64)
        ensures
            r == crate::gateway::heartbeat::distance(self.heartbeat.last_ping, self.heartbeat.last_pong),
    {
        self.heartbeat.latency()
    }

    /// The intent that queues a heartbeat ping.
    pub fn ping_intent() -> (r: ClientEvent)
        ensures
            r == (ClientEvent::Ping { data: 0 }),
    {
        ClientEvent::Ping { data: 0 }
    }
}

} // verus!
