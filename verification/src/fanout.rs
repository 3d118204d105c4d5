//! Connection lifecycle of the fan-out broker.
//!
//! A fan-out destination owns a collection of accepted connections. Sending a
//! message makes one pass over that collection. Each connection is first
//! probed with a non-blocking read; if it survives the probe the message is
//! written to it; what the transport answers decides whether the connection
//! stays. Nothing here touches a socket: the caller performs the read and the
//! write, and reports what came back.

use vstd::prelude::*;

verus! {

/// The kinds of transport failure between which the broker distinguishes.
#[derive(Clone, Copy, Debug, PartialEq, Eq, Structural)]
pub enum TransportError {
    /// A non-blocking operation found nothing to do.
    WouldBlock,
    /// The peer reset the connection.
    ConnectionReset,
    /// The connection was aborted.
    ConnectionAborted,
    /// The peer went away without a closing handshake.
    ResetWithoutClosingHandshake,
    /// Any other failure.
    Other,
}

/// What a non-blocking read on a connection came back with.
#[derive(Clone, Copy, Debug, PartialEq, Eq, Structural)]
pub enum ProbeSignal {
    /// A close frame.
    Close,
    /// Any other message from the peer.
    Message,
    /// The read failed.
    Failed(TransportError),
}

/// What writing the message to a connection came back with.
#[derive(Clone, Copy, Debug, PartialEq, Eq, Structural)]
pub enum WriteSignal {
    /// The message was accepted; `writable` tells whether the transport
    /// still permits further writes.
    Sent { writable: bool },
    /// The write failed.
    Failed(TransportError),
}

/// Why a connection left its collection.
#[derive(Clone, Copy, Debug, PartialEq, Eq, Structural)]
pub enum DropReason {
    /// The peer sent a close frame.
    Closed,
    /// The peer reset the connection.
    ConnectionReset,
    /// The connection was aborted.
    ConnectionAborted,
    /// The peer went away without a closing handshake.
    ResetWithoutClosingHandshake,
    /// The message was sent, but the transport permits no further write.
    NotWritable,
}

/// A condition that stops the whole relay.
#[derive(Clone, Copy, Debug, PartialEq, Eq, Structural)]
pub enum FatalError {
    /// A peer sent application data; the broker expects none.
    UnexpectedMessage,
    /// The probe failed in a way that does not merely end the connection.
    ProbeFailed(TransportError),
    /// The write failed in a way that does not merely end the connection.
    WriteFailed(TransportError),
}

/// What the probe of a connection leads to.
#[derive(Clone, Copy, Debug, PartialEq, Eq, Structural)]
pub enum ProbeVerdict {
    /// The connection is alive: write the message to it.
    Proceed,
    /// The connection is dead: remove it, and do not write to it.
    Drop(DropReason),
    /// The relay stops.
    Fatal(FatalError),
}

/// What the write to a connection leads to.
#[derive(Clone, Copy, Debug, PartialEq, Eq, Structural)]
pub enum WriteVerdict {
    /// The connection stays in its collection.
    Keep,
    /// The connection is dead: remove it.
    Drop(DropReason),
    /// The relay stops.
    Fatal(FatalError),
}

/// The verdict on a probe: a close frame, a reset and a missing closing
/// handshake end the connection; nothing pending is the steady state;
/// application data and every other failure are fatal.
pub open spec fn probe_verdict_of(signal: ProbeSignal) -> ProbeVerdict {
    match signal {
        ProbeSignal::Close => ProbeVerdict::Drop(DropReason::Closed),
        ProbeSignal::Message => ProbeVerdict::Fatal(FatalError::UnexpectedMessage),
        ProbeSignal::Failed(TransportError::WouldBlock) => ProbeVerdict::Proceed,
        ProbeSignal::Failed(TransportError::ConnectionReset) => ProbeVerdict::Drop(
            DropReason::ConnectionReset,
        ),
        ProbeSignal::Failed(TransportError::ResetWithoutClosingHandshake) => ProbeVerdict::Drop(
            DropReason::ResetWithoutClosingHandshake,
        ),
        ProbeSignal::Failed(error) => ProbeVerdict::Fatal(FatalError::ProbeFailed(error)),
    }
}

/// The verdict on a write: after a success the connection stays exactly if
/// the transport still permits writes; an abort, a reset and a missing
/// closing handshake end the connection; every other failure is fatal.
pub open spec fn write_verdict_of(signal: WriteSignal) -> WriteVerdict {
    match signal {
        WriteSignal::Sent { writable } => if writable {
            WriteVerdict::Keep
        } else {
            WriteVerdict::Drop(DropReason::NotWritable)
        },
        WriteSignal::Failed(TransportError::ConnectionAborted) => WriteVerdict::Drop(
            DropReason::ConnectionAborted,
        ),
        WriteSignal::Failed(TransportError::ConnectionReset) => WriteVerdict::Drop(
            DropReason::ConnectionReset,
        ),
        WriteSignal::Failed(TransportError::ResetWithoutClosingHandshake) => WriteVerdict::Drop(
            DropReason::ResetWithoutClosingHandshake,
        ),
        WriteSignal::Failed(error) => WriteVerdict::Fatal(FatalError::WriteFailed(error)),
    }
}

/// Decides what follows the liveness probe of a connection.
pub fn probe_verdict(signal: ProbeSignal) -> (verdict: ProbeVerdict)
    ensures
        verdict == probe_verdict_of(signal),
{
    match signal {
        ProbeSignal::Close => ProbeVerdict::Drop(DropReason::Closed),
        ProbeSignal::Message => ProbeVerdict::Fatal(FatalError::UnexpectedMessage),
        ProbeSignal::Failed(error) => match error {
            TransportError::WouldBlock => ProbeVerdict::Proceed,
            TransportError::ConnectionReset => ProbeVerdict::Drop(DropReason::ConnectionReset),
            TransportError::ResetWithoutClosingHandshake => ProbeVerdict::Drop(
                DropReason::ResetWithoutClosingHandshake,
            ),
            _ => ProbeVerdict::Fatal(FatalError::ProbeFailed(error)),
        },
    }
}

/// Decides what follows the attempt to write the message to a connection.
pub fn write_verdict(signal: WriteSignal) -> (verdict: WriteVerdict)
    ensures
        verdict == write_verdict_of(signal),
{
    match signal {
        WriteSignal::Sent { writable } => {
            if writable {
                WriteVerdict::Keep
            } else {
                WriteVerdict::Drop(DropReason::NotWritable)
            }
        },
        WriteSignal::Failed(error) => match error {
            TransportError::ConnectionAborted => WriteVerdict::Drop(DropReason::ConnectionAborted),
            TransportError::ConnectionReset => WriteVerdict::Drop(DropReason::ConnectionReset),
            TransportError::ResetWithoutClosingHandshake => WriteVerdict::Drop(
                DropReason::ResetWithoutClosingHandshake,
            ),
            _ => WriteVerdict::Fatal(FatalError::WriteFailed(error)),
        },
    }
}

} // verus!
