use vstd::prelude::*;

verus! {

/// A bad SRTP profile choice.
#[derive(Debug, Copy, Clone, PartialEq, Eq, Structural)]
pub enum SrtpProfileError {
    BadProfile,
}

impl SrtpProfileError {
    /// The failure, for display by a caller.
    pub fn description(&self) -> (r: String)
        ensures
            r@ == "bad SRTP profile"@,
    {
        String::from_str("bad SRTP profile")
    }
}

/// A failure of the secure transport. The transport stack's own error
/// values live outside this library; their rendered causes are carried
/// here.
#[derive(Clone, PartialEq, Eq, Debug)]
pub enum Error {
    /// A failure of the transport library; its cause as text.
    Normal(String),
    /// A failure of the secured session, with the peer verification
    /// result: both as text.
    Ssl(String, String),
    /// A bad SRTP profile choice.
    SrtpProfile(SrtpProfileError),
}

/// A failure of the handshake: a hard failure, or a retriable pause on a
/// nonblocking channel that is not ready yet.
#[derive(Clone, PartialEq, Eq, Debug)]
pub enum HandshakeError {
    Failure(Error),
    WouldBlock,
}

} // verus!
