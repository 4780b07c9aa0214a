//! What the relay needs to know about a failed socket operation.
use vstd::prelude::*;

verus! {

/// The class of a socket failure, as far as the relay's decisions go.
#[derive(Clone, Copy, PartialEq, Eq, Debug, Structural)]
pub enum TransportKind {
    /// The peer refused the connection.
    Refused,
    /// The peer reset the connection.
    Reset,
    /// The connection was aborted.
    Aborted,
    /// Writing to a peer that has gone away.
    BrokenPipe,
    /// The operation timed out.
    TimedOut,
    /// Any other failure (address resolution, permissions, ...).
    Other,
}

/// A failed socket operation: its class and a readable description.
pub struct TransportError {
    pub kind: TransportKind,
    pub detail: String,
}

impl TransportError {
    pub fn new(kind: TransportKind, detail: String) -> (r: TransportError)
        ensures
            r.kind == kind,
            r.detail == detail,
    {
        TransportError { kind, detail }
    }

    /// Whether the peer tore the connection down (reset or abort).
    pub open spec fn spec_is_abort(&self) -> bool {
        self.kind == TransportKind::Reset || self.kind == TransportKind::Aborted
    }

    pub fn is_abort(&self) -> (r: bool)
        ensures
            r == self.spec_is_abort(),
    {
        match self.kind {
            TransportKind::Reset | TransportKind::Aborted => true,
            _ => false,
        }
    }
}

} // verus!
