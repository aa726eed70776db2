use vstd::prelude::*;

verus! {

/// The times of the last heartbeat ping sent and of the last pong received, in milliseconds
/// on any clock that both share.
#[derive(Clone, Copy, Debug, PartialEq, Eq, Structural, Default)]
pub struct HeartbeatClock {
    pub last_ping: u64,
    pub last_pong: u64,
}

/// The distance between two instants.
pub open spec fn distance(a: u64, b: u64) -> nat {
    if a >= b {
        (a - b) as nat
    } else {
        (b - a) as nat
    }
}

impl HeartbeatClock {
    /// A clock on which ping and pong both happened at `now`.
    pub fn new(now: u64) -> (r: HeartbeatClock)
        ensures
            r.last_ping == now,
            r.last_pong == now,
    {
        HeartbeatClock { last_ping: now, last_pong: now }
    }

    /// Notes a ping sent at `now`.
    pub fn record_ping(&mut self, now: u64)
        ensures
            final(self).last_ping == now,
            final(self).last_pong == old(self).last_pong,
    {
        self.last_ping = now;
    }

    /// Notes a pong received at `now`.
    pub fn record_pong(&mut self, now: u64)
        ensures
            final(self).last_pong == now,
            final(self).last_ping == old(self).last_ping,
    {
        self.last_pong = now;
    }

    /// The latency of the last heartbeat round: the distance between the last ping and the
    /// last pong. It may be stale once heartbeats stop.
    pub fn latency(&self) -> (r: u64)
        ensures
            r == distance(self.last_ping, self.last_pong),
    {
        if self.last_ping >= self.last_pong {
            self.last_ping - self.last_pong
        } else {
            self.last_pong - self.last_ping
        }
    }
}

} // verus!
