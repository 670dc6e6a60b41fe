//! Device kinds, feature flags, and the logical pad state shared with the
//! driver ABI.

use vstd::prelude::*;

verus! {

/// The closed set of controller kinds a virtual device can present as.
#[derive(Clone, Copy, Debug, PartialEq, Eq, Structural)]
pub enum DeviceKind {
    X360,
    DS4,
    DS5,
}

impl DeviceKind {
    /// The fixed numeric identifier of this kind in the driver ABI,
    /// matching the USB product-id conventions of each controller family.
    pub fn id(&self) -> (r: u16)
        ensures
            r == self.spec_id(),
    {
        match self {
            DeviceKind::X360 => 0x0366,
            DeviceKind::DS4 => 0x05C4,
            DeviceKind::DS5 => 0x0CE6,
        }
    }

    /// The ABI identifier of this kind.
    pub open spec fn spec_id(self) -> u16 {
        match self {
            DeviceKind::X360 => 0x0366,
            DeviceKind::DS4 => 0x05C4,
            DeviceKind::DS5 => 0x0CE6,
        }
    }

    /// The kind with a given ABI identifier, if any: the inverse of `id`.
    pub fn from_id(id: u16) -> (r: Option<DeviceKind>)
        ensures
            r == Self::spec_from_id(id),
    {
        if id == 0x0366 {
            Some(DeviceKind::X360)
        } else if id == 0x05C4 {
            Some(DeviceKind::DS4)
        } else if id == 0x0CE6 {
            Some(DeviceKind::DS5)
        } else {
            None
        }
    }

    pub open spec fn spec_from_id(id: u16) -> Option<DeviceKind> {
        if id == 0x0366 {
            Some(DeviceKind::X360)
        } else if id == 0x05C4 {
            Some(DeviceKind::DS4)
        } else if id == 0x0CE6 {
            Some(DeviceKind::DS5)
        } else {
            None
        }
    }
}

/// `id` and `from_id` are mutual inverses over the three kinds.
pub proof fn lemma_kind_id_round_trip(k: DeviceKind, id: u16)
    ensures
        DeviceKind::spec_from_id(k.spec_id()) == Some(k),
        DeviceKind::spec_from_id(id) matches Some(k2) ==> k2.spec_id() == id,
{
}

/// Advisory capability bit for force feedback.
pub const FEATURE_RUMBLE: u32 = 0x1;

/// Advisory capability bit for a touch surface.
pub const FEATURE_TOUCH: u32 = 0x2;

/// Advisory capability bit for motion sensing.
pub const FEATURE_GYRO: u32 = 0x4;

/// Advisory capability bit for a light bar or LED ring.
pub const FEATURE_LED: u32 = 0x8;

/// The advisory feature bitset attached to a device at creation.
#[derive(Clone, Copy, Debug, PartialEq, Eq, Structural)]
pub struct Features {
    pub bits: u32,
}

impl Features {
    /// The empty feature set.
    pub fn none() -> (r: Features)
        ensures
            r.bits == 0,
    {
        Features { bits: 0 }
    }

    /// Whether every bit of `flag` is set in this feature set.
    pub fn contains(&self, flag: u32) -> (r: bool)
        ensures
            r == (self.bits & flag == flag),
    {
        self.bits & flag == flag
    }

    /// This feature set with every bit of `flag` set.
    pub fn with(&self, flag: u32) -> (r: Features)
        ensures
            r.bits == self.bits | flag,
    {
        Features { bits: self.bits | flag }
    }
}

/// The logical state of a pad at the driver boundary: a button bitfield,
/// four signed stick axes, and two triggers widened to 16 bits.
#[derive(Clone, Copy, Debug, PartialEq, Eq, Structural)]
pub struct PadState {
    pub buttons: u16,
    pub lx: i16,
    pub ly: i16,
    pub rx: i16,
    pub ry: i16,
    pub lt: u16,
    pub rt: u16,
}

impl PadState {
    /// The neutral state: no buttons held, sticks centred, triggers released.
    pub fn neutral() -> (r: PadState)
        ensures
            r == Self::spec_neutral(),
    {
        PadState { buttons: 0, lx: 0, ly: 0, rx: 0, ry: 0, lt: 0, rt: 0 }
    }

    pub open spec fn spec_neutral() -> PadState {
        PadState { buttons: 0, lx: 0, ly: 0, rx: 0, ry: 0, lt: 0, rt: 0 }
    }
}

} // verus!
