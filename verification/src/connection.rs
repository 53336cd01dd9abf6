//! Per-connection lifecycle state machine.
//!
//! The embedding program runs one task per accepted connection. The task
//! allocates an identifier, announces the connection, then feeds every
//! inbound frame through this machine and performs the action it
//! returns; when reading stops, it announces the disconnection and
//! releases the identifier. The contracts here pin the lifecycle down:
//! the `Connected` packet exists before any forwarded packet, and
//! `Disconnected` is produced exactly once, at the end — the relay
//! channel preserves one producer's send order, so the consumer observes
//! `Connected`, then client packets, then `Disconnected`.

use vstd::prelude::*;
use crate::codec::{decode, spec_parse};
use crate::protocol::{AnnotatedClientPacket, ClientPacket, DecodeError, Frame, Packet, UserId};

verus! {

/// What the connection task must do with one inbound frame.
#[derive(Clone, Copy, Debug, PartialEq, Eq, Structural)]
pub enum FrameAction {
    /// Send this packet on the relay channel and keep reading.
    Forward(AnnotatedClientPacket),
    /// Drop the frame — a text frame that does not decode is not fatal —
    /// and keep reading.
    Ignore(DecodeError),
    /// Stop reading: the transport closed or sent an unsupported frame
    /// kind. The task must now call `finish` (exactly once).
    Terminate,
}

/// The lifecycle of one connection, from the announcement of `Connected`
/// to the single emission of `Disconnected`.
pub struct ConnectionFsm {
    /// The identifier allocated to this connection.
    pub user_id: UserId,
    /// Set once `finish` has produced the `Disconnected` packet; no
    /// further event is accepted after that.
    pub done: bool,
}

impl ConnectionFsm {
    /// Opens the lifecycle for a freshly allocated identifier and hands
    /// back the `Connected` packet, to be sent on the relay channel
    /// before any inbound frame is processed.
    pub fn begin(user_id: UserId) -> (r: (ConnectionFsm, AnnotatedClientPacket))
        ensures
            r.0.user_id == user_id,
            !r.0.done,
            r.1 == (AnnotatedClientPacket { user_id, packet: Packet::Connected }),
    {
        (
            ConnectionFsm { user_id, done: false },
            AnnotatedClientPacket { user_id, packet: Packet::Connected },
        )
    }

    /// Decides what to do with one inbound frame: forward the packet of
    /// a well-formed text frame, drop a malformed one and keep the
    /// connection, stop on a close or on an unsupported frame kind.
    pub fn on_frame(&self, frame: &Frame) -> (r: FrameAction)
        requires
            !self.done,
        ensures
            match *frame {
                Frame::Text(bytes) => (match spec_parse(bytes@) {
                    Some(p) => r == FrameAction::Forward(
                        (AnnotatedClientPacket {
                            user_id: self.user_id,
                            packet: Packet::Client(p),
                        }),
                    ),
                    None => r == FrameAction::Ignore(DecodeError::Malformed),
                }),
                Frame::Binary(_) => r == FrameAction::Terminate,
                Frame::Close => r == FrameAction::Terminate,
                Frame::Other => r == FrameAction::Terminate,
            },
    {
        match frame {
            Frame::Text(bytes) => {
                match decode(bytes.as_slice()) {
                    Ok(p) => FrameAction::Forward(
                        AnnotatedClientPacket {
                            user_id: self.user_id,
                            packet: Packet::Client(p),
                        },
                    ),
                    Err(e) => FrameAction::Ignore(e),
                }
            },
            Frame::Binary(_) => FrameAction::Terminate,
            Frame::Close => FrameAction::Terminate,
            Frame::Other => FrameAction::Terminate,
        }
    }

    /// Closes the lifecycle and hands back the `Disconnected` packet.
    /// The precondition admits this exactly once per connection, and
    /// only after `begin`: a disconnection can be neither lost nor
    /// duplicated.
    pub fn finish(&mut self) -> (r: AnnotatedClientPacket)
        requires
            !old(self).done,
        ensures
            final(self).done,
            final(self).user_id == old(self).user_id,
            r == (AnnotatedClientPacket {
                user_id: old(self).user_id,
                packet: Packet::Disconnected,
            }),
    {
        self.done = true;
        AnnotatedClientPacket { user_id: self.user_id, packet: Packet::Disconnected }
    }
}

} // verus!
