use vstd::prelude::*;

use crate::error::SeriaError;
use crate::gateway::GatewayConfig;
use crate::http::HttpConfig;

verus! {

/// Collects what a client needs before it is built.
pub struct SeriaClientBuilder {
    token: Option<String>,
}

impl View for SeriaClientBuilder {
    /// The credential given so far, if any.
    type V = Option<Seq<char>>;

    closed spec fn view(&self) -> Option<Seq<char>> {
        match self.token {
            Some(t) => Some(t@),
            None => None,
        }
    }
}

impl SeriaClientBuilder {
    /// A builder with no credential yet.
    pub fn new() -> (r: SeriaClientBuilder)
        ensures
            r@ is None,
    {
        SeriaClientBuilder { token: None }
    }

    /// Sets the bot credential.
    pub fn token(self, token: &str) -> (r: SeriaClientBuilder)
        ensures
            r@ == Some(token@),
    {
        SeriaClientBuilder { token: Some(String::from_str(token)) }
    }

    /// The configurations of the request/response client and of the gateway session for
    /// the credential given. Without a credential, or with an empty one, building fails.
    pub fn configs(self) -> (r: Result<(HttpConfig, GatewayConfig), SeriaError>)
        ensures
            r is Ok <==> (self@ matches Some(t) && t.len() > 0),
            self@ is None ==> (r matches Err(e) && e matches SeriaError::Other(m)
                && m@ == "Token must be provided"@),
            self@ matches Some(t) && t.len() == 0 ==> (r matches Err(e)
                && e matches SeriaError::Other(m) && m@ == "Token cannot be empty"@),
            r matches Ok((h, g)) ==> (self@ == Some(h.token@) && self@ == Some(g.token@)
                && h.api_url@ == "https://api.revolt.chat"@
                && g.ws_url@ == "wss://ws.revolt.chat"@
                && g.reconnect_attempts == 0),
    {
        let token = match self.token {
            Some(t) => t,
            None => {
                return Err(SeriaError::Other(String::from_str("Token must be provided")));
            },
        };
        let http = match HttpConfig::new(token.as_str()) {
            Ok(c) => c,
            Err(e) => {
                return Err(e);
            },
        };
        let gateway = match GatewayConfig::new(token.as_str()) {
            Ok(c) => c,
            Err(e) => {
                return Err(e);
            },
        };
        Ok((http, gateway))
    }
}

} // verus!
