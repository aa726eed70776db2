use vstd::prelude::*;

use crate::error::SeriaError;
use crate::gateway::policy::ReconnectPolicy;

verus! {

/// Default time between two heartbeat pings, in milliseconds.
pub const DEFAULT_HEARTBEAT_INTERVAL: u64 = 15_000;

/// Default unit of the reconnection backoff, in milliseconds.
pub const DEFAULT_RECONNECT_DELAY: u64 = 5_000;

/// Default number of consecutive failed attempts after which reconnection stops.
pub const DEFAULT_MAX_RECONNECT_ATTEMPTS: usize = 5;

/// Whether `s` begins with `prefix`.
pub open spec fn starts_with(s: Seq<char>, prefix: Seq<char>) -> bool {
    prefix.len() <= s.len() && s.subrange(0, prefix.len() as int) == prefix
}

/// Whether `url` can address a gateway: a WebSocket scheme, plain or secure, followed by
/// at least one character of host.
pub open spec fn valid_gateway_address(url: Seq<char>) -> bool {
    ||| starts_with(url, "ws://"@) && url.len() > 5
    ||| starts_with(url, "wss://"@) && url.len() > 6
}

/// Whether `s` begins with `prefix`.
pub fn has_prefix(s: &str, prefix: &str) -> (r: bool)
    ensures
        r == starts_with(s@, prefix@),
{
    let n = prefix.unicode_len();
    if n > s.unicode_len() {
        return false;
    }
    let mut i: usize = 0;
    while i < n
        invariant
            n == prefix@.len(),
            n <= s@.len(),
            i <= n,
            forall|j: int| 0 <= j < i ==> s@[j] == prefix@[j],
        decreases n - i,
    {
        if s.get_char(i) != prefix.get_char(i) {
            assert(s@.subrange(0, n as int)[i as int] != prefix@[i as int]);
            return false;
        }
        i += 1;
    }
    assert(s@.subrange(0, n as int) =~= prefix@);
    true
}

/// Parameters of a gateway session. Durations are in milliseconds.
#[derive(Clone, Debug)]
pub struct GatewayConfig {
    /// Time between two heartbeat pings.
    pub heartbeat_interval: u64,
    /// Consecutive failed attempts after which reconnection stops.
    pub max_reconnect_attempts: usize,
    /// Consecutive failed attempts so far.
    pub reconnect_attempts: usize,
    /// Unit of the reconnection backoff.
    pub reconnect_delay: u64,
    /// The credential sent when authenticating.
    pub token: String,
    /// Address of the gateway.
    pub ws_url: String,
}

impl GatewayConfig {
    /// The configuration with the default cadence for the credential `token`; an empty
    /// credential is refused.
    pub fn new(token: &str) -> (r: Result<GatewayConfig, SeriaError>)
        ensures
            r is Err <==> token@.len() == 0,
            r matches Err(e) ==> (e matches SeriaError::Other(m) && m@ == "Token cannot be empty"@),
            r matches Ok(c) ==> {
                &&& c.token@ == token@
                &&& c.ws_url@ == "wss://ws.revolt.chat"@
                &&& c.heartbeat_interval == DEFAULT_HEARTBEAT_INTERVAL
                &&& c.max_reconnect_attempts == DEFAULT_MAX_RECONNECT_ATTEMPTS
                &&& c.reconnect_attempts == 0
                &&& c.reconnect_delay == DEFAULT_RECONNECT_DELAY
            },
    {
        if token.is_empty() {
            return Err(SeriaError::Other(String::from_str("Token cannot be empty")));
        }
        Ok(GatewayConfig {
            heartbeat_interval: DEFAULT_HEARTBEAT_INTERVAL,
            max_reconnect_attempts: DEFAULT_MAX_RECONNECT_ATTEMPTS,
            reconnect_attempts: 0,
            reconnect_delay: DEFAULT_RECONNECT_DELAY,
            token: String::from_str(token),
            ws_url: String::from_str("wss://ws.revolt.chat"),
        })
    }

    /// Whether the configured address can address a gateway.
    pub fn has_valid_address(&self) -> (r: bool)
        ensures
            r == valid_gateway_address(self.ws_url@),
    {
        proof {
            reveal_strlit("ws://");
            reveal_strlit("wss://");
        }
        let url = self.ws_url.as_str();
        let len = url.unicode_len();
        (has_prefix(url, "ws://") && len > 5) || (has_prefix(url, "wss://") && len > 6)
    }

    /// The reconnection policy that this configuration describes, with its attempt count
    /// capped at the maximum.
    pub fn policy(&self) -> (r: ReconnectPolicy)
        ensures
            r.wf(),
            r.max_attempts == self.max_reconnect_attempts,
            r.base_delay == self.reconnect_delay,
            r.attempts == if self.reconnect_attempts <= self.max_reconnect_attempts {
                self.reconnect_attempts
            } else {
                self.max_reconnect_attempts
            },
            !r.exhausted,
    {
        let attempts = if self.reconnect_attempts <= self.max_reconnect_attempts {
            self.reconnect_attempts
        } else {
            self.max_reconnect_attempts
        };
        ReconnectPolicy {
            attempts,
            max_attempts: self.max_reconnect_attempts,
            base_delay: self.reconnect_delay,
            exhausted: false,
        }
    }
}

} // verus!
