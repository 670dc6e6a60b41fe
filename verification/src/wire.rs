//! The IPC envelope: the request and response records exchanged with
//! clients, and the wire form of a pad state with its convenience 8-bit
//! trigger encoding.

use vstd::prelude::*;
use crate::device;
use crate::device::DeviceKind;

verus! {

/// A pad state as carried over the IPC channel: triggers are one byte
/// each; everything else matches the driver-boundary form.
#[derive(Clone, Copy, Debug, PartialEq, Eq, Structural)]
pub struct PadState {
    pub buttons: u16,
    pub lx: i16,
    pub ly: i16,
    pub rx: i16,
    pub ry: i16,
    pub lt: u8,
    pub rt: u8,
}

impl PadState {
    /// The wire state with nothing pressed.
    pub fn neutral() -> (r: PadState)
        ensures
            r == (PadState { buttons: 0, lx: 0, ly: 0, rx: 0, ry: 0, lt: 0, rt: 0 }),
    {
        PadState { buttons: 0, lx: 0, ly: 0, rx: 0, ry: 0, lt: 0, rt: 0 }
    }

    /// How a wire state widens to the driver boundary: the 8-bit triggers
    /// become 16-bit values unchanged, every other field passes through.
    pub open spec fn spec_widen(self) -> device::PadState {
        device::PadState {
            buttons: self.buttons,
            lx: self.lx,
            ly: self.ly,
            rx: self.rx,
            ry: self.ry,
            lt: self.lt as u16,
            rt: self.rt as u16,
        }
    }

    /// Widens this wire state into the driver-boundary form.
    pub fn widen(&self) -> (r: device::PadState)
        ensures
            r == self.spec_widen(),
    {
        device::PadState {
            buttons: self.buttons,
            lx: self.lx,
            ly: self.ly,
            rx: self.rx,
            ry: self.ry,
            lt: self.lt as u16,
            rt: self.rt as u16,
        }
    }
}

/// One request from a client to the broker.
#[derive(Clone, Copy, Debug, PartialEq, Eq, Structural)]
pub enum BrokerRequest {
    /// A liveness probe.
    Ping,
    /// Create a device of the given kind with advisory feature bits.
    Create { kind: DeviceKind, features: u32 },
    /// Destroy the device behind a handle.
    Destroy { handle: u64 },
    /// Submit the newest pad state for a device.
    UpdateState { handle: u64, state: PadState },
}

/// One response from the broker to a client.
#[derive(Clone, Debug, PartialEq, Eq)]
pub enum BrokerResponse {
    /// The answer to a ping.
    Pong,
    /// A device was created and is reachable under this handle.
    OkCreate { handle: u64 },
    /// The request succeeded; carried as plain "ok" on the wire.
    Done,
    /// The request failed, carried as "err" on the wire; the message
    /// describes why.
    Failed { message: String },
}

} // verus!
