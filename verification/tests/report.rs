//! Report packing: byte-exact checks of the X360 layout and the refusal of
//! the kinds whose layout is not defined.

use hidra::device::{DeviceKind, PadState};
use hidra::report::{pack_report, DS4Report, DS5Report, ReportError, X360Report};

#[test]
fn x360_zeroed_report() {
    let s = PadState { buttons: 0, lx: 0, ly: 0, rx: 0, ry: 0, lt: 0, rt: 0 };
    let r = X360Report::from(&s);
    assert_eq!(r.as_bytes().len(), 14);
    assert_eq!(r.as_bytes()[0], 0);
    assert_eq!(r.as_bytes()[1], 0);
    assert_eq!(r.as_bytes()[2], 0);
    assert_eq!(r.as_bytes()[3], 0);
    assert_eq!(&r.as_bytes()[4..6], &0i16.to_le_bytes());
    assert_eq!(&r.as_bytes()[6..8], &0i16.to_le_bytes());
    assert_eq!(&r.as_bytes()[8..10], &0i16.to_le_bytes());
    assert_eq!(&r.as_bytes()[10..12], &0i16.to_le_bytes());
}

#[test]
fn x360_buttons_and_axes() {
    let s = PadState {
        buttons: 0b1010_0000_0000_0011, // sample bits
        lx: 123,
        ly: -456,
        rx: 32767,
        ry: -32768,
        lt: 255,
        rt: 4096, // rt will clamp to 255 in the simple path
    };
    let r = X360Report::from(&s);
    let bytes = r.as_bytes();

    // buttons little-endian
    let expected_btn = s.buttons.to_le_bytes();
    assert_eq!(bytes[0], expected_btn[0]);
    assert_eq!(bytes[1], expected_btn[1]);

    // triggers (clamped)
    assert_eq!(bytes[2], 255);
    assert_eq!(bytes[3], 255);

    // sticks LE
    assert_eq!(&bytes[4..6], &s.lx.to_le_bytes());
    assert_eq!(&bytes[6..8], &s.ly.to_le_bytes());
    assert_eq!(&bytes[8..10], &s.rx.to_le_bytes());
    assert_eq!(&bytes[10..12], &s.ry.to_le_bytes());
}

#[test]
fn x360_trigger_saturation() {
    let s = PadState { buttons: 0, lx: 0, ly: 0, rx: 0, ry: 0, lt: 300, rt: 1000 };
    let r = X360Report::from(&s);
    assert_eq!(r.as_bytes()[2], 255);
    assert_eq!(r.as_bytes()[3], 255);
    let t = PadState { buttons: 0, lx: 0, ly: 0, rx: 0, ry: 0, lt: 254, rt: 255 };
    let q = X360Report::from(&t);
    assert_eq!(q.as_bytes()[2], 254);
    assert_eq!(q.as_bytes()[3], 255);
}

#[test]
fn x360_minimum_stick_two_complement_pair() {
    let s = PadState { buttons: 0, lx: -32768, ly: 0, rx: 0, ry: 0, lt: 0, rt: 0 };
    let r = X360Report::from(&s);
    assert_eq!(&r.as_bytes()[4..6], &[0x00u8, 0x80u8]);
    assert_eq!(&r.as_bytes()[4..6], &(-32768i16).to_le_bytes());
}

#[test]
fn pack_report_x360_matches_report_type() {
    let s = PadState { buttons: 7, lx: 1, ly: -2, rx: 3, ry: -4, lt: 5, rt: 6 };
    let packed = pack_report(DeviceKind::X360, &s).expect("X360 layout is defined");
    assert_eq!(packed.as_slice(), &X360Report::from(&s).as_bytes()[..]);
    assert_eq!(packed.len(), 14);
}

#[test]
fn pack_report_refuses_undefined_layouts() {
    let s = PadState { buttons: 0, lx: 0, ly: 0, rx: 0, ry: 0, lt: 0, rt: 0 };
    assert_eq!(
        pack_report(DeviceKind::DS4, &s),
        Err(ReportError::UnsupportedKind(DeviceKind::DS4))
    );
    assert_eq!(
        pack_report(DeviceKind::DS5, &s),
        Err(ReportError::UnsupportedKind(DeviceKind::DS5))
    );
    assert_eq!(
        DS4Report::from_state(&s),
        Err(ReportError::UnsupportedKind(DeviceKind::DS4))
    );
    assert_eq!(
        DS5Report::from_state(&s),
        Err(ReportError::UnsupportedKind(DeviceKind::DS5))
    );
}
