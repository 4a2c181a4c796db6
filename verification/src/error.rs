//! Error kinds for a dump session.

use vstd::prelude::*;

verus! {

/// A condition that terminates a dump session.
///
/// `TransportError`: the socket layer failed to deliver a message.
/// `TruncatedMessage`: fewer bytes arrived than a message header requires.
/// `ProtocolError`: the kernel answered with an error message.
///
/// An overrun is not listed here: the kernel signalling lost data is a
/// warning recorded in the session state, not a terminating error.
#[derive(Clone, Copy, PartialEq, Eq, Structural, Debug)]
pub enum SessionError {
    TransportError,
    TruncatedMessage,
    ProtocolError,
}

} // verus!
