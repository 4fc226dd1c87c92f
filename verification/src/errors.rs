use vstd::prelude::*;

verus! {

/// The closed taxonomy of failures: every internal failure is wrapped into
/// exactly one of these kinds at the point where it is first observed and
/// propagated unchanged to the caller.
#[derive(Debug, PartialEq, Eq, Structural)]
pub enum ErrorKind {
    /// Reading key material from the outside world failed.
    Io,
    /// The PEM structure of the private key is malformed.
    Key,
    /// The signing primitive rejected the key material or failed to sign.
    Signing,
    /// A claim string cannot be encoded into the token.
    Claim,
    /// The wall clock lies before the epoch.
    Clock,
    /// The caller handed an empty term sequence.
    InvalidArgument,
    /// The HTTP layer failed before any status was received.
    Transport,
    /// The service answered with the contained non-success status code.
    Service(u16),
    /// A success response carried a body that does not match the schema.
    Decode,
}

/// An error as surfaced to callers: a kind and nothing else.
#[derive(Debug, PartialEq, Eq, Structural)]
pub struct Error {
    pub kind: ErrorKind,
}

impl Error {
    /// Wraps a kind into an error.
    pub fn new(kind: ErrorKind) -> (r: Error)
        ensures
            r == (Error { kind }),
    {
        Error { kind }
    }

    /// The kind of failure this error reports.
    pub fn kind(&self) -> (k: &ErrorKind)
        ensures
            k == &self.kind,
    {
        &self.kind
    }
}

} // verus!
