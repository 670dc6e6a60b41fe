//! The fixed binary contract between the broker and the kernel bus driver:
//! control codes and the byte layout of each call record. These are shared
//! with kernel code and must stay byte-stable.

use vstd::prelude::*;
use crate::codec::{
    push_u32_le, push_u64_le, spec_i16_le, spec_u16_le, spec_u32_le, spec_u64_le, i16_le, u16_le,
    u64_from_le,
};
use crate::device::{DeviceKind, PadState};

verus! {

/// Device type field of the control codes; the generic "unknown" class.
pub const DEVICE_TYPE_UNKNOWN: u32 = 0x0022;

/// Access field requiring no rights.
pub const ACCESS_ANY: u32 = 0x0000;

/// Access field requiring read rights.
pub const ACCESS_READ: u32 = 0x0001;

/// Access field requiring write rights.
pub const ACCESS_WRITE: u32 = 0x0002;

/// Transfer method field for buffered transfers.
pub const METHOD_BUFFERED: u32 = 0;

/// Transfer method field for direct input transfers.
pub const METHOD_IN_DIRECT: u32 = 1;

/// Transfer method field for direct output transfers.
pub const METHOD_OUT_DIRECT: u32 = 2;

/// Transfer method field for neither-buffered-nor-direct transfers.
pub const METHOD_NEITHER: u32 = 3;

/// The device type used by the bus device.
pub const HIDRA_DEVICE_TYPE: u32 = DEVICE_TYPE_UNKNOWN;

/// The first function number of the bus device's private range.
pub const HIDRA_IOCTL_BASE: u32 = 0x800;

/// How a control code is derived from its four fields: the device type in
/// bits 16.., the required access in bits 14..16, the function number in
/// bits 2..14, and the transfer method in bits 0..2.
pub open spec fn spec_ctl_code(device_type: u32, function: u32, method: u32, access: u32) -> u32 {
    (device_type << 16) | (access << 14) | (function << 2) | method
}

/// Derives a control code from its device type, function number, transfer
/// method, and required access.
pub fn ctl_code(device_type: u32, function: u32, method: u32, access: u32) -> (r: u32)
    ensures
        r == spec_ctl_code(device_type, function, method, access),
{
    (device_type << 16) | (access << 14) | (function << 2) | method
}

/// The control code of the create call.
pub const IOCTL_HIDRA_CREATE: u32 = 0x0022A000;

/// The control code of the update call.
pub const IOCTL_HIDRA_UPDATE: u32 = 0x0022A004;

/// The control code of the destroy call.
pub const IOCTL_HIDRA_DESTROY: u32 = 0x0022A008;

/// The three control codes are exactly the derivation of `ctl_code` from
/// the device type, the private function range, buffered transfer, and
/// write access; changing any of them breaks driver compatibility.
pub proof fn lemma_control_codes_derived()
    ensures
        IOCTL_HIDRA_CREATE == spec_ctl_code(
            HIDRA_DEVICE_TYPE,
            (HIDRA_IOCTL_BASE + 0) as u32,
            METHOD_BUFFERED,
            ACCESS_WRITE,
        ),
        IOCTL_HIDRA_UPDATE == spec_ctl_code(
            HIDRA_DEVICE_TYPE,
            (HIDRA_IOCTL_BASE + 1) as u32,
            METHOD_BUFFERED,
            ACCESS_WRITE,
        ),
        IOCTL_HIDRA_DESTROY == spec_ctl_code(
            HIDRA_DEVICE_TYPE,
            (HIDRA_IOCTL_BASE + 2) as u32,
            METHOD_BUFFERED,
            ACCESS_WRITE,
        ),
{
    assert((0x0022u32 << 16) | (0x0002u32 << 14) | (0x800u32 << 2) | 0u32 == 0x0022A000u32)
        by (bit_vector);
    assert((0x0022u32 << 16) | (0x0002u32 << 14) | (0x801u32 << 2) | 0u32 == 0x0022A004u32)
        by (bit_vector);
    assert((0x0022u32 << 16) | (0x0002u32 << 14) | (0x802u32 << 2) | 0u32 == 0x0022A008u32)
        by (bit_vector);
}

/// The version tag of this binary contract.
pub const HIDRA_FFI_ABI_VERSION: u32 = 1;

/// The input record of the create call.
#[derive(Clone, Copy, Debug, PartialEq, Eq, Structural)]
pub struct CreateIn {
    pub kind: DeviceKind,
    pub features: u32,
}

/// The output record of the create call: the driver-side device identifier.
#[derive(Clone, Copy, Debug, PartialEq, Eq, Structural)]
pub struct CreateOut {
    pub handle: u64,
}

/// The input record of the destroy call.
#[derive(Clone, Copy, Debug, PartialEq, Eq, Structural)]
pub struct DestroyIn {
    pub handle: u64,
}

/// The input record of the update call.
#[derive(Clone, Copy, Debug, PartialEq, Eq, Structural)]
pub struct UpdateIn {
    pub handle: u64,
    pub state: PadState,
}

/// The 14 bytes of a pad state at the driver boundary: every field
/// little-endian in declaration order, two bytes each, at two-byte
/// alignment with no padding.
pub open spec fn spec_pad_state_bytes(s: PadState) -> Seq<u8> {
    spec_u16_le(s.buttons) + spec_i16_le(s.lx) + spec_i16_le(s.ly) + spec_i16_le(s.rx)
        + spec_i16_le(s.ry) + spec_u16_le(s.lt) + spec_u16_le(s.rt)
}

/// The pad state record always occupies 14 bytes.
pub proof fn lemma_pad_state_record_size(s: PadState)
    ensures
        spec_pad_state_bytes(s).len() == 14,
{
}

/// Appends the driver-boundary bytes of a pad state.
pub fn push_pad_state(out: &mut Vec<u8>, s: &PadState)
    ensures
        final(out)@ == old(out)@ + spec_pad_state_bytes(*s),
{
    let b = u16_le(s.buttons);
    out.push(b.0);
    out.push(b.1);
    let lx = i16_le(s.lx);
    out.push(lx.0);
    out.push(lx.1);
    let ly = i16_le(s.ly);
    out.push(ly.0);
    out.push(ly.1);
    let rx = i16_le(s.rx);
    out.push(rx.0);
    out.push(rx.1);
    let ry = i16_le(s.ry);
    out.push(ry.0);
    out.push(ry.1);
    let lt = u16_le(s.lt);
    out.push(lt.0);
    out.push(lt.1);
    let rt = u16_le(s.rt);
    out.push(rt.0);
    out.push(rt.1);
    proof {
        assert(out@ =~= old(out)@ + spec_pad_state_bytes(*s));
    }
}

/// The 8-byte create record: the kind identifier little-endian at offset 0,
/// two alignment padding bytes, and the feature bits little-endian at 4.
pub open spec fn spec_create_in_bytes(c: CreateIn) -> Seq<u8> {
    spec_u16_le(c.kind.spec_id()) + seq![0u8, 0u8] + spec_u32_le(c.features)
}

/// Serializes the create record; the result is always 8 bytes.
pub fn encode_create_in(c: &CreateIn) -> (r: Vec<u8>)
    ensures
        r@ == spec_create_in_bytes(*c),
        r@.len() == 8,
{
    let mut out: Vec<u8> = Vec::new();
    let id = u16_le(c.kind.id());
    out.push(id.0);
    out.push(id.1);
    out.push(0u8);
    out.push(0u8);
    push_u32_le(&mut out, c.features);
    proof {
        assert(out@ =~= spec_create_in_bytes(*c));
    }
    out
}

/// The 8-byte destroy record: the handle little-endian.
pub open spec fn spec_destroy_in_bytes(d: DestroyIn) -> Seq<u8> {
    spec_u64_le(d.handle)
}

/// Serializes the destroy record; the result is always 8 bytes.
pub fn encode_destroy_in(d: &DestroyIn) -> (r: Vec<u8>)
    ensures
        r@ == spec_destroy_in_bytes(*d),
        r@.len() == 8,
{
    let mut out: Vec<u8> = Vec::new();
    push_u64_le(&mut out, d.handle);
    proof {
        assert(out@ =~= spec_destroy_in_bytes(*d));
    }
    out
}

/// The 24-byte update record: the handle little-endian at offset 0, the pad
/// state at 8..22, and two tail padding bytes that round the record to its
/// 8-byte alignment.
pub open spec fn spec_update_in_bytes(u: UpdateIn) -> Seq<u8> {
    spec_u64_le(u.handle) + spec_pad_state_bytes(u.state) + seq![0u8, 0u8]
}

/// Serializes the update record; the result is always 24 bytes.
pub fn encode_update_in(u: &UpdateIn) -> (r: Vec<u8>)
    ensures
        r@ == spec_update_in_bytes(*u),
        r@.len() == 24,
{
    let mut out: Vec<u8> = Vec::new();
    push_u64_le(&mut out, u.handle);
    push_pad_state(&mut out, &u.state);
    out.push(0u8);
    out.push(0u8);
    proof {
        assert(out@ =~= spec_update_in_bytes(*u));
    }
    out
}

/// Reads a create output record back from its 8 little-endian bytes.
pub fn decode_create_out(b: &[u8]) -> (r: Option<CreateOut>)
    ensures
        match r {
            Some(c) => b@.len() == 8 && spec_u64_le(c.handle) == b@,
            None => b@.len() != 8,
        },
{
    if b.len() == 8 {
        let h = u64_from_le(b, 0);
        proof {
            assert(b@.subrange(0, 8) =~= b@);
        }
        Some(CreateOut { handle: h })
    } else {
        None
    }
}

} // verus!
