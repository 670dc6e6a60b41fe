//! Wire-level details: control codes, ABI record layouts, little-endian
//! helpers, decimal rendering, and the client-side response handling.

use hidra::backend::BackendError;
use hidra::client::{expect_created, expect_done, expect_pong, ClientError, GamepadHandle};
use hidra::codec::{i16_le, u16_le, u64_from_le};
use hidra::decimal::u64_to_dec;
use hidra::device::{DeviceKind, Features, PadState, FEATURE_GYRO, FEATURE_RUMBLE};
use hidra::ioctl::{
    ctl_code, decode_create_out, encode_create_in, encode_destroy_in, encode_update_in, CreateIn,
    DestroyIn, UpdateIn, ACCESS_WRITE, HIDRA_DEVICE_TYPE, HIDRA_IOCTL_BASE, IOCTL_HIDRA_CREATE,
    IOCTL_HIDRA_DESTROY, IOCTL_HIDRA_UPDATE, METHOD_BUFFERED,
};
use hidra::wire::BrokerResponse;

#[test]
fn control_codes_match_their_derivation() {
    assert_eq!(
        ctl_code(HIDRA_DEVICE_TYPE, HIDRA_IOCTL_BASE, METHOD_BUFFERED, ACCESS_WRITE),
        IOCTL_HIDRA_CREATE
    );
    assert_eq!(
        ctl_code(HIDRA_DEVICE_TYPE, HIDRA_IOCTL_BASE + 1, METHOD_BUFFERED, ACCESS_WRITE),
        IOCTL_HIDRA_UPDATE
    );
    assert_eq!(
        ctl_code(HIDRA_DEVICE_TYPE, HIDRA_IOCTL_BASE + 2, METHOD_BUFFERED, ACCESS_WRITE),
        IOCTL_HIDRA_DESTROY
    );
    assert_eq!(IOCTL_HIDRA_CREATE, 0x0022A000);
    assert_eq!(IOCTL_HIDRA_UPDATE, 0x0022A004);
    assert_eq!(IOCTL_HIDRA_DESTROY, 0x0022A008);
}

#[test]
fn create_record_layout() {
    let c = CreateIn { kind: DeviceKind::DS5, features: 0x01020304 };
    let bytes = encode_create_in(&c);
    // kind id 0x0CE6 little-endian, two padding bytes, features little-endian.
    assert_eq!(bytes, vec![0xE6, 0x0C, 0, 0, 0x04, 0x03, 0x02, 0x01]);
}

#[test]
fn destroy_record_layout() {
    let d = DestroyIn { handle: 0x0102030405060708 };
    let bytes = encode_destroy_in(&d);
    assert_eq!(bytes, vec![0x08, 0x07, 0x06, 0x05, 0x04, 0x03, 0x02, 0x01]);
}

#[test]
fn update_record_layout() {
    let u = UpdateIn {
        handle: 2,
        state: PadState { buttons: 0x8001, lx: -1, ly: 256, rx: 0, ry: 0, lt: 7, rt: 8 },
    };
    let bytes = encode_update_in(&u);
    assert_eq!(bytes.len(), 24);
    assert_eq!(&bytes[0..8], &[2, 0, 0, 0, 0, 0, 0, 0]);
    assert_eq!(&bytes[8..10], &0x8001u16.to_le_bytes());
    assert_eq!(&bytes[10..12], &(-1i16).to_le_bytes());
    assert_eq!(&bytes[12..14], &256i16.to_le_bytes());
    assert_eq!(&bytes[18..20], &7u16.to_le_bytes());
    assert_eq!(&bytes[20..22], &8u16.to_le_bytes());
    assert_eq!(&bytes[22..24], &[0, 0]);
}

#[test]
fn create_out_round_trips() {
    let d = DestroyIn { handle: 0xDEADBEEF01234567 };
    let bytes = encode_destroy_in(&d);
    let out = decode_create_out(bytes.as_slice()).expect("eight bytes decode");
    assert_eq!(out.handle, 0xDEADBEEF01234567);
    assert!(decode_create_out(&bytes[..7]).is_none());
}

#[test]
fn little_endian_helpers() {
    assert_eq!(u16_le(0xABCD), (0xCD, 0xAB));
    assert_eq!(i16_le(-2), (0xFE, 0xFF));
    let bytes = [0x08, 0x07, 0x06, 0x05, 0x04, 0x03, 0x02, 0x01];
    assert_eq!(u64_from_le(&bytes, 0), 0x0102030405060708);
}

#[test]
fn decimal_rendering() {
    assert_eq!(u64_to_dec(0), "0");
    assert_eq!(u64_to_dec(7), "7");
    assert_eq!(u64_to_dec(10), "10");
    assert_eq!(u64_to_dec(1234567890), "1234567890");
    assert_eq!(u64_to_dec(u64::MAX), "18446744073709551615");
}

#[test]
fn backend_error_messages() {
    assert_eq!(BackendError::InvalidHandle(42).message(), "invalid handle: 42");
    assert_eq!(BackendError::Exhausted.message(), "device handles exhausted");
    assert_eq!(BackendError::Device(5).message(), "device error: 5");
}

#[test]
fn kind_ids_round_trip() {
    for kind in [DeviceKind::X360, DeviceKind::DS4, DeviceKind::DS5] {
        assert_eq!(DeviceKind::from_id(kind.id()), Some(kind));
    }
    assert_eq!(DeviceKind::X360.id(), 0x0366);
    assert_eq!(DeviceKind::DS4.id(), 0x05C4);
    assert_eq!(DeviceKind::DS5.id(), 0x0CE6);
    assert_eq!(DeviceKind::from_id(0x1234), None);
}

#[test]
fn feature_bits() {
    let f = Features::none().with(FEATURE_RUMBLE).with(FEATURE_GYRO);
    assert!(f.contains(FEATURE_RUMBLE));
    assert!(f.contains(FEATURE_GYRO));
    assert!(!f.contains(hidra::device::FEATURE_TOUCH));
    assert_eq!(f.bits, FEATURE_RUMBLE | FEATURE_GYRO);
}

#[test]
fn wire_state_widens_triggers() {
    let w = hidra::wire::PadState { buttons: 1, lx: -5, ly: 6, rx: -7, ry: 8, lt: 200, rt: 255 };
    let s = w.widen();
    assert_eq!(s.lt, 200u16);
    assert_eq!(s.rt, 255u16);
    assert_eq!(s.buttons, 1);
    assert_eq!(s.lx, -5);
}

#[test]
fn client_response_interpretation() {
    assert_eq!(expect_pong(Some(BrokerResponse::Pong)), Ok(()));
    assert_eq!(expect_pong(None), Err(ClientError::NoResponse));
    assert_eq!(
        expect_pong(Some(BrokerResponse::Done)),
        Err(ClientError::Unexpected)
    );
    assert_eq!(
        expect_created(Some(BrokerResponse::OkCreate { handle: 3 })),
        Ok(GamepadHandle(3))
    );
    assert_eq!(
        expect_created(Some(BrokerResponse::Failed { message: "no device".to_string() })),
        Err(ClientError::Broker("no device".to_string()))
    );
    assert_eq!(expect_done(Some(BrokerResponse::Done)), Ok(()));
    assert_eq!(
        expect_done(Some(BrokerResponse::Pong)),
        Err(ClientError::Unexpected)
    );
}
