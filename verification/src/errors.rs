//! Error taxonomy of the connection manager.
//!
//! A decode failure is scoped to one frame and is never fatal. A transport
//! failure is fatal to the session and triggers full teardown. A control
//! failure belongs to the single subscribe/unsubscribe call whose handshake
//! failed and never tears the session down. A closed-session failure is
//! returned by the handle when a command is issued with no live session.

use vstd::prelude::*;

verus! {

/// One inbound frame could not be decoded. Non-fatal: the frame is
/// discarded and the session continues.
#[derive(Clone, Copy, Debug, PartialEq, Eq, Structural)]
pub struct DecodeError;

/// The transport failed unrecoverably. Fatal to the session: it is torn
/// down and a fresh connection is required.
#[derive(Clone, Copy, Debug, PartialEq, Eq, Structural)]
pub struct TransportError;

/// Why one control handshake failed. Surfaced only to the caller that
/// issued the command; the session itself survives a rejection.
#[derive(Clone, Copy, Debug, PartialEq, Eq, Structural)]
pub enum ControlError {
    /// The data source answered the handshake with an error.
    Rejected,
    /// The session went down before the handshake could complete.
    SessionClosed,
}

/// Returned by the handle when a command is issued with no live session.
#[derive(Clone, Copy, Debug, PartialEq, Eq, Structural)]
pub struct SessionClosedError;

} // verus!
