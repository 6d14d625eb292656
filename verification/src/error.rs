use vstd::prelude::*;

verus! {

/// The kinds of failure a session reports to the application.
///
/// Establishment failures (`TlsError`, `HeaderError`, `ConnectError`) are
/// returned from the connect path; `SendError` and `CloseError` come back
/// from the write path of an open session; `ReceiveError` is surfaced
/// through the error notification while the read loop keeps running.
#[derive(Clone, Copy, Debug, PartialEq, Eq, Structural)]
pub enum WebSocketError {
    TlsError,
    HeaderError,
    ConnectError,
    SendError,
    ReceiveError,
    CloseError,
}

/// The name under which each error kind is shown to the host application.
pub open spec fn error_name(e: WebSocketError) -> Seq<char> {
    match e {
        WebSocketError::TlsError => "TlsError"@,
        WebSocketError::HeaderError => "HeaderError"@,
        WebSocketError::ConnectError => "ConnectError"@,
        WebSocketError::SendError => "SendError"@,
        WebSocketError::ReceiveError => "ReceiveError"@,
        WebSocketError::CloseError => "CloseError"@,
    }
}

impl WebSocketError {
    /// The error kind's name.
    pub fn as_ref(&self) -> (r: &'static str)
        ensures
            r@ == error_name(*self),
    {
        match self {
            WebSocketError::TlsError => "TlsError",
            WebSocketError::HeaderError => "HeaderError",
            WebSocketError::ConnectError => "ConnectError",
            WebSocketError::SendError => "SendError",
            WebSocketError::ReceiveError => "ReceiveError",
            WebSocketError::CloseError => "CloseError",
        }
    }
}

} // verus!
