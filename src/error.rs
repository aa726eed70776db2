use vstd::prelude::*;

verus! {

#[verifier::external_type_specification]
#[verifier::external_body]
pub struct ExReqwestError(reqwest::Error);

#[verifier::external_type_specification]
#[verifier::external_body]
pub struct ExReqwestResponse(reqwest::Response);

#[verifier::external_type_specification]
#[verifier::external_body]
pub struct ExWsError(tokio_tungstenite::tungstenite::Error);

/// Top-level error type for all operations of the library.
#[derive(Debug)]
pub enum SeriaError {
    /// Network or HTTP-related error of the request/response client.
    Http(reqwest::Error),
    /// A response with a non-success status code.
    FailedRequest(reqwest::Response),
    /// WebSocket-level error.
    WebSocket(tokio_tungstenite::tungstenite::Error),
    /// Error reported by the server while authenticating.
    Auth(AuthError),
    /// Any other error, with a human-readable reason.
    Other(String),
}

pub type SeriaResult<T> = Result<T, SeriaError>;

/// Authentication-specific errors encountered during login or token validation.
#[derive(Debug, Clone, Copy, PartialEq, Eq, Structural)]
pub enum AuthError {
    /// Generic fallback error.
    Uncategorized,
    /// Internal issue on the server side.
    ServerError,
    /// Provided token is invalid or expired.
    InvalidToken,
    /// Attempted to authenticate while already authenticated.
    AlreadyAuthenticated,
}

/// The parts of a WebSocket error that decide how it is reported.
#[derive(Debug, Clone, Copy, PartialEq, Eq, Structural)]
pub enum SocketFault {
    /// The connection had already been closed.
    AlreadyClosed,
    /// An I/O error, with the operating system's error code when it has one.
    Io(Option<i32>),
    /// Any other WebSocket error.
    Other,
}

/// OS error code of a connection reset by the peer (Unix).
pub const ECONNRESET: i32 = 104;

/// OS error code of a connection closed by the remote host (Windows).
pub const WSAECONNRESET: i32 = 10054;

/// The reason under which a socket fault is reported as `SeriaError::Other`; `None` keeps
/// the WebSocket error itself.
pub open spec fn fault_reason_spec(fault: SocketFault) -> Option<Seq<char>> {
    match fault {
        SocketFault::AlreadyClosed => Some("WebSocket already closed"@),
        SocketFault::Io(Some(code)) => if code == ECONNRESET {
            Some("Connection reset by peer"@)
        } else if code == WSAECONNRESET {
            Some("Connection forcibly closed by remote host"@)
        } else {
            None
        },
        _ => None,
    }
}

/// The reason under which `fault` is reported, if it gets one of its own.
pub fn fault_reason(fault: SocketFault) -> (r: Option<String>)
    ensures
        r is Some <==> fault_reason_spec(fault) is Some,
        r is Some ==> fault_reason_spec(fault) == Some(r->0@),
{
    match fault {
        SocketFault::AlreadyClosed => Some(String::from_str("WebSocket already closed")),
        SocketFault::Io(Some(code)) => {
            if code == ECONNRESET {
                Some(String::from_str("Connection reset by peer"))
            } else if code == WSAECONNRESET {
                Some(String::from_str("Connection forcibly closed by remote host"))
            } else {
                None
            }
        },
        _ => None,
    }
}

/// The fault that a WebSocket error reports: its variant and, for an I/O error, the
/// operating system's error code. It depends on the error alone.
pub uninterp spec fn ws_fault(e: tokio_tungstenite::tungstenite::Error) -> SocketFault;

/// Relies on the variants of tungstenite's `Error`, and on `std::io::Error::raw_os_error`
/// for its `Io` variant.
#[verifier::external_body]
fn socket_fault_of(err: &tokio_tungstenite::tungstenite::Error) -> (r: SocketFault)
    ensures
        r == ws_fault(*err),
{
    match err {
        tokio_tungstenite::tungstenite::Error::AlreadyClosed => SocketFault::AlreadyClosed,
        tokio_tungstenite::tungstenite::Error::Io(e) => SocketFault::Io(e.raw_os_error()),
        _ => SocketFault::Other,
    }
}

/// Classifies a WebSocket error: known faults become `Other` with their reason, every other
/// error is kept as it is.
pub fn handle_websocket_error(err: tokio_tungstenite::tungstenite::Error) -> (r: SeriaError)
    ensures
        match fault_reason_spec(ws_fault(err)) {
            Some(m) => r matches SeriaError::Other(s) && s@ == m,
            None => r == SeriaError::WebSocket(err),
        },
{
    let fault = socket_fault_of(&err);
    match fault_reason(fault) {
        Some(reason) => SeriaError::Other(reason),
        None => SeriaError::WebSocket(err),
    }
}

} // verus!
