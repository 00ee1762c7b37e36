//! The client's transport session: whether a connection stands, and what
//! becomes of a message handed to it. The connection itself belongs to the
//! caller, who reports how each attempt to connect ended.

use vstd::prelude::*;

verus! {

/// Why an attempt to connect failed.
#[derive(Clone, Copy, Debug, PartialEq, Eq, Structural)]
pub enum ConnectError {
    /// The address could not be read as one.
    BadAddress,
    /// The relay did not complete the handshake.
    Handshake,
}

/// How an attempt to connect ended.
#[derive(Clone, Copy, Debug, PartialEq, Eq, Structural)]
pub enum ConnectOutcome {
    BadAddress,
    HandshakeFailed,
    Established,
}

/// Why an ordered message was not sent.
#[derive(Clone, Copy, Debug, PartialEq, Eq, Structural)]
pub enum SendError {
    /// No connection stands.
    NotConnected,
    /// The channel could not be opened, written or closed.
    Channel,
}

/// How the ordered channel opened for one message fared.
#[derive(Clone, Copy, Debug, PartialEq, Eq, Structural)]
pub enum ChannelOutcome {
    OpenFailed,
    WriteFailed,
    CloseFailed,
    Delivered,
}

/// The session of one client. It starts without a connection and never
/// connects by itself.
pub struct Session {
    connected: bool,
}

impl Session {
    /// Whether a connection stands.
    pub closed spec fn is_connected(&self) -> bool {
        self.connected
    }

    /// A session without a connection.
    pub fn new() -> (out: Self)
        ensures
            !out.is_connected(),
    {
        Session { connected: false }
    }

    /// Whether a connection stands.
    pub fn connected(&self) -> (out: bool)
        ensures
            out == self.is_connected(),
    {
        self.connected
    }

    /// Records how an attempt to connect ended. An established connection
    /// becomes the session's connection, and the caller then starts the
    /// receive duties on it. A failed attempt leaves the session as it was
    /// and is reported to the caller.
    pub fn finish_connect(&mut self, outcome: ConnectOutcome) -> (out: Result<(), ConnectError>)
        ensures
            out == connect_result(outcome),
            final(self).is_connected() == (old(self).is_connected() || outcome
                == ConnectOutcome::Established),
    {
        match outcome {
            ConnectOutcome::BadAddress => Err(ConnectError::BadAddress),
            ConnectOutcome::HandshakeFailed => Err(ConnectError::Handshake),
            ConnectOutcome::Established => {
                self.connected = true;
                Ok(())
            },
        }
    }

    /// Decides what becomes of a best-effort message: handed on as it is
    /// where a connection stands, dropped without a word where none does.
    pub fn send_unreliable(&self, data: Vec<u8>) -> (out: Option<Vec<u8>>)
        ensures
            out == if self.is_connected() {
                Some(data)
            } else {
                None::<Vec<u8>>
            },
    {
        if self.connected {
            Some(data)
        } else {
            None
        }
    }

    /// Decides whether an ordered message may be sent: it needs a
    /// connection, on which the caller then opens one fresh channel for it.
    pub fn send_reliable(&self, data: Vec<u8>) -> (out: Result<Vec<u8>, SendError>)
        ensures
            out == if self.is_connected() {
                Ok::<Vec<u8>, SendError>(data)
            } else {
                Err::<Vec<u8>, SendError>(SendError::NotConnected)
            },
    {
        if self.connected {
            Ok(data)
        } else {
            Err(SendError::NotConnected)
        }
    }
}

/// What the caller of `connect` is told for each outcome.
pub open spec fn connect_result(outcome: ConnectOutcome) -> Result<(), ConnectError> {
    match outcome {
        ConnectOutcome::BadAddress => Err(ConnectError::BadAddress),
        ConnectOutcome::HandshakeFailed => Err(ConnectError::Handshake),
        ConnectOutcome::Established => Ok(()),
    }
}

/// What the sender of an ordered message is told once its channel is done
/// with: success only where the whole payload was written and the channel
/// closed.
pub fn reliable_result(outcome: ChannelOutcome) -> (out: Result<(), SendError>)
    ensures
        out is Ok <==> outcome == ChannelOutcome::Delivered,
        out is Err ==> out == Err::<(), SendError>(SendError::Channel),
{
    match outcome {
        ChannelOutcome::Delivered => Ok(()),
        _ => Err(SendError::Channel),
    }
}

} // verus!
