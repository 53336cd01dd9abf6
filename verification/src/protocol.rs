//! Packet and input value types shared by the network side and the
//! simulation side.
//!
//! `Connected` and `Disconnected` have no wire representation: the
//! connection handler synthesises them from transport lifecycle events.
//! Only `ClientPacket` travels on the wire (see the codec module).

use vstd::prelude::*;

verus! {

/// Identifies one active connection; unique among live connections and
/// reused only after the connection's teardown completes.
#[derive(Clone, Copy, Debug, Hash, PartialEq, Eq, Structural)]
pub struct UserId(pub u64);

/// Identifies a button on a controller.
#[derive(Clone, Copy, Debug, PartialEq, Eq, Structural)]
pub enum ButtonType {
    A,
    B,
    X,
    Y,
    Up,
    Down,
    Left,
    Right,
}

/// Identifies a joystick axis (a traditional joystick has two, X and Y).
#[derive(Clone, Copy, Debug, PartialEq, Eq, Structural)]
pub enum JoystickAxis {
    LeftX,
    LeftY,
    RightX,
    RightY,
}

/// A joystick deflection, stored in thousandths so that the value is a
/// plain integer. The full deflection of an axis is 1, so the stored
/// count ranges over [-1000, 1000].
#[derive(Clone, Copy, Debug, PartialEq, Eq, Structural)]
pub struct AxisValue {
    pub millis: i32,
}

impl AxisValue {
    /// True when the stored count lies in the representable range.
    pub open spec fn wf(self) -> bool {
        -1000 <= self.millis <= 1000
    }

    /// Builds a value from thousandths; rejects counts outside [-1000, 1000].
    pub fn new(millis: i32) -> (r: Option<AxisValue>)
        ensures
            match r {
                Some(v) => -1000 <= millis <= 1000 && v.millis == millis && v.wf(),
                None => !(-1000 <= millis <= 1000),
            },
    {
        if -1000 <= millis && millis <= 1000 {
            Some(AxisValue { millis })
        } else {
            None
        }
    }

    /// The rest position.
    pub fn zero() -> (r: AxisValue)
        ensures
            r.millis == 0,
            r.wf(),
    {
        AxisValue { millis: 0 }
    }

    /// The deflection in thousandths.
    pub fn millis(&self) -> (r: i32)
        ensures
            r == self.millis,
    {
        self.millis
    }
}

/// One change of controller state sent by a client.
#[derive(Clone, Copy, Debug, PartialEq, Eq, Structural)]
pub enum InputUpdate {
    Button(ButtonType, bool),
    Joystick(JoystickAxis, AxisValue),
}

impl InputUpdate {
    /// True when any joystick value carried is in range.
    pub open spec fn wf(self) -> bool {
        match self {
            InputUpdate::Button(_, _) => true,
            InputUpdate::Joystick(_, v) => v.wf(),
        }
    }
}

/// Packet going from a client to the network side; a tagged union so
/// that new packet kinds can be added as new variants.
#[derive(Clone, Copy, Debug, PartialEq, Eq, Structural)]
pub enum ClientPacket {
    Input(InputUpdate),
}

impl ClientPacket {
    /// True when any joystick value carried is in range.
    pub open spec fn wf(self) -> bool {
        match self {
            ClientPacket::Input(u) => u.wf(),
        }
    }
}

/// What one connection can report to the simulation.
#[derive(Clone, Copy, Debug, PartialEq, Eq, Structural)]
pub enum Packet {
    Connected,
    Disconnected,
    Client(ClientPacket),
}

/// Packet going from the network side to the simulation, annotated with
/// the connection it came from.
#[derive(Clone, Copy, Debug, PartialEq, Eq, Structural)]
pub struct AnnotatedClientPacket {
    pub user_id: UserId,
    pub packet: Packet,
}

/// Why an inbound frame did not decode to a packet.
#[derive(Clone, Copy, Debug, PartialEq, Eq, Structural)]
pub enum DecodeError {
    /// A text frame whose payload is not the canonical encoding of any
    /// packet.
    Malformed,
    /// Binary frames carry no packets.
    BinaryUnsupported,
    /// A control or otherwise unsupported frame kind.
    UnsupportedFrame,
}

/// Model of one inbound transport frame as the connection handler sees
/// it: the payload of a text or binary frame, a close signal, or some
/// other control frame.
#[derive(Debug)]
pub enum Frame {
    Text(Vec<u8>),
    Binary(Vec<u8>),
    Close,
    Other,
}

} // verus!
