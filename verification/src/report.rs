//! Report packing: the exact byte sequence each controller kind expects to
//! describe its current input state.

use vstd::prelude::*;
use crate::codec::{i16_bits, i16_le, spec_i16_le, u16_hi, u16_le, u16_lo};
use crate::device::{DeviceKind, PadState};

verus! {

/// A trigger value clamped to one byte: values above 255 saturate.
pub open spec fn clamp_trigger(t: u16) -> u8 {
    if t > 255 {
        255
    } else {
        t as u8
    }
}

/// The 14-byte XUSB (Xbox 360) report for a pad state: the button bitfield
/// little-endian at offsets 0..2, the clamped triggers at 2 and 3, the four
/// stick axes little-endian two's-complement at 4..12, and two reserved zero
/// bytes.
pub open spec fn spec_x360_report(s: PadState) -> Seq<u8> {
    seq![
        u16_lo(s.buttons),
        u16_hi(s.buttons),
        clamp_trigger(s.lt),
        clamp_trigger(s.rt),
        spec_i16_le(s.lx)[0],
        spec_i16_le(s.lx)[1],
        spec_i16_le(s.ly)[0],
        spec_i16_le(s.ly)[1],
        spec_i16_le(s.rx)[0],
        spec_i16_le(s.rx)[1],
        spec_i16_le(s.ry)[0],
        spec_i16_le(s.ry)[1],
        0u8,
        0u8,
    ]
}

/// An error raised when a pad state is packed for a kind whose report
/// layout this library does not define.
#[derive(Clone, Copy, Debug, PartialEq, Eq, Structural)]
pub enum ReportError {
    /// The kind has no report layout here; packing it must fail loudly
    /// rather than emit guessed bytes.
    UnsupportedKind(DeviceKind),
}

/// A packed Xbox 360 class report: a fixed 14-byte buffer.
#[derive(Clone, Copy, Debug, PartialEq, Eq)]
pub struct X360Report(pub [u8; 14]);

impl X360Report {
    /// Packs a pad state into the XUSB byte layout.
    ///
    /// Buttons already use XUSB bit positions; sticks pass through as
    /// little-endian `i16`; triggers saturate to the byte range.
    pub fn from(s: &PadState) -> (r: X360Report)
        ensures
            r.0@ == spec_x360_report(*s),
    {
        let btn = u16_le(s.buttons);
        let lt: u8 = if s.lt > 255 {
            255
        } else {
            s.lt as u8
        };
        let rt: u8 = if s.rt > 255 {
            255
        } else {
            s.rt as u8
        };
        let lx = i16_le(s.lx);
        let ly = i16_le(s.ly);
        let rx = i16_le(s.rx);
        let ry = i16_le(s.ry);
        let b: [u8; 14] = [
            btn.0,
            btn.1,
            lt,
            rt,
            lx.0,
            lx.1,
            ly.0,
            ly.1,
            rx.0,
            rx.1,
            ry.0,
            ry.1,
            0u8,
            0u8,
        ];
        proof {
            assert(b@ =~= spec_x360_report(*s));
        }
        X360Report(b)
    }

    /// The packed bytes.
    pub fn as_bytes(&self) -> (r: &[u8; 14])
        ensures
            r@ == self.0@,
    {
        &self.0
    }
}

/// A packed DualShock 4 report; the layout is not yet defined, so no value
/// of it can be produced from a pad state.
#[derive(Clone, Debug, PartialEq, Eq)]
pub struct DS4Report(pub Vec<u8>);

impl DS4Report {
    /// Packing a pad state for DS4 fails until the true HID report layout
    /// is sourced; guessing the bytes would be worse than failing.
    pub fn from_state(s: &PadState) -> (r: Result<DS4Report, ReportError>)
        ensures
            r == Err::<DS4Report, ReportError>(ReportError::UnsupportedKind(DeviceKind::DS4)),
    {
        let _ = s;
        Err(ReportError::UnsupportedKind(DeviceKind::DS4))
    }

    /// The packed bytes.
    pub fn as_bytes(&self) -> (r: &Vec<u8>)
        ensures
            r@ == self.0@,
    {
        &self.0
    }
}

/// A packed DualSense report; the layout is not yet defined, so no value of
/// it can be produced from a pad state.
#[derive(Clone, Debug, PartialEq, Eq)]
pub struct DS5Report(pub Vec<u8>);

impl DS5Report {
    /// Packing a pad state for DS5 fails until the true HID report layout
    /// is sourced; guessing the bytes would be worse than failing.
    pub fn from_state(s: &PadState) -> (r: Result<DS5Report, ReportError>)
        ensures
            r == Err::<DS5Report, ReportError>(ReportError::UnsupportedKind(DeviceKind::DS5)),
    {
        let _ = s;
        Err(ReportError::UnsupportedKind(DeviceKind::DS5))
    }

    /// The packed bytes.
    pub fn as_bytes(&self) -> (r: &Vec<u8>)
        ensures
            r@ == self.0@,
    {
        &self.0
    }
}

/// What packing a state for a kind yields: X360 has a fixed 14-byte layout,
/// the other kinds have none defined and must be refused.
pub open spec fn spec_pack_report(kind: DeviceKind, s: PadState) -> Result<Seq<u8>, ReportError> {
    match kind {
        DeviceKind::X360 => Ok(spec_x360_report(s)),
        _ => Err(ReportError::UnsupportedKind(kind)),
    }
}

/// Packs a pad state into the report bytes for `kind`, or refuses the kinds
/// whose layout is not defined.
pub fn pack_report(kind: DeviceKind, s: &PadState) -> (r: Result<Vec<u8>, ReportError>)
    ensures
        match r {
            Ok(bytes) => spec_pack_report(kind, *s) == Ok::<Seq<u8>, ReportError>(bytes@),
            Err(e) => spec_pack_report(kind, *s) == Err::<Seq<u8>, ReportError>(e),
        },
{
    match kind {
        DeviceKind::X360 => {
            let rep = X360Report::from(s);
            let mut out: Vec<u8> = Vec::new();
            let mut i: usize = 0;
            while i < 14
                invariant
                    i <= 14,
                    out@ == rep.0@.take(i as int),
                decreases 14 - i,
            {
                out.push(rep.0[i]);
                i = i + 1;
                proof {
                    assert(out@ =~= rep.0@.take(i as int));
                }
            }
            proof {
                assert(out@ =~= spec_x360_report(*s));
            }
            Ok(out)
        },
        DeviceKind::DS4 => Err(ReportError::UnsupportedKind(DeviceKind::DS4)),
        DeviceKind::DS5 => Err(ReportError::UnsupportedKind(DeviceKind::DS5)),
    }
}

/// The X360 report of the neutral pad state is fourteen zero bytes.
pub proof fn lemma_neutral_x360_report_is_zero()
    ensures
        spec_x360_report(PadState::spec_neutral()) =~= Seq::new(14, |i: int| 0u8),
{
    assert(u16_lo(0) == 0 && u16_hi(0) == 0) by (bit_vector);
    assert(i16_bits(0i16) == 0) by (bit_vector);
}

} // verus!
