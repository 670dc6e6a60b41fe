//! The broker over the simulated backend: lifecycle, handle allocation,
//! unknown-handle handling, pump coalescing, and the session protocol.

use hidra::backend::Backend;
use hidra::broker::{Broker, SessionAction, SessionEvent};
use hidra::device::DeviceKind;
use hidra::mock::Mock;
use hidra::wire::{BrokerRequest, BrokerResponse, PadState};

fn wire_state(buttons: u16) -> PadState {
    PadState { buttons, lx: 0, ly: 0, rx: 0, ry: 0, lt: 0, rt: 0 }
}

fn created_handle(resp: BrokerResponse) -> u64 {
    match resp {
        BrokerResponse::OkCreate { handle } => handle,
        other => panic!("create did not succeed: {:?}", other),
    }
}

#[test]
fn create_then_destroy_clears_registries() {
    for kind in [DeviceKind::X360, DeviceKind::DS4, DeviceKind::DS5] {
        let mut broker = Broker::new(Mock::new());
        let h = created_handle(broker.handle_create(kind, 0));
        assert!(broker.is_live(h));
        assert!(broker.has_pump(h));
        assert_eq!(broker.handle_destroy(h), BrokerResponse::Done);
        assert!(!broker.is_live(h));
        assert!(!broker.has_pump(h));
    }
}

#[test]
fn handles_never_reused_and_strictly_increase() {
    let mut broker = Broker::new(Mock::new());
    let kinds = [
        DeviceKind::X360,
        DeviceKind::DS4,
        DeviceKind::DS5,
        DeviceKind::X360,
        DeviceKind::DS4,
    ];
    let mut handles: Vec<u64> = Vec::new();
    for kind in kinds {
        handles.push(created_handle(broker.handle_create(kind, 0)));
    }
    for i in 0..handles.len() {
        for j in (i + 1)..handles.len() {
            assert!(handles[i] < handles[j]);
            assert_ne!(handles[i], handles[j]);
        }
    }
    assert_eq!(handles, vec![1, 2, 3, 4, 5]);
}

#[test]
fn update_on_unknown_handle_never_reaches_backend() {
    let mut broker = Broker::new(Mock::new());
    // No create at all.
    let resp = broker.handle_update(1, wire_state(9));
    assert_eq!(
        resp,
        BrokerResponse::Failed { message: "invalid handle: 1".to_string() }
    );
    assert!(broker.backend().deliveries().is_empty());

    // After a create and a destroy the handle is unknown again.
    let h = created_handle(broker.handle_create(DeviceKind::X360, 0));
    assert_eq!(broker.handle_destroy(h), BrokerResponse::Done);
    let resp = broker.handle_update(h, wire_state(9));
    assert_eq!(
        resp,
        BrokerResponse::Failed { message: format!("invalid handle: {}", h) }
    );
    assert!(broker.backend().deliveries().is_empty());
}

#[test]
fn pump_coalesces_rapid_updates() {
    let mut broker = Broker::new(Mock::new());
    let h = created_handle(broker.handle_create(DeviceKind::X360, 0));
    let s1 = wire_state(1);
    let s2 = wire_state(2);
    let s3 = wire_state(3);
    assert_eq!(broker.handle_update(h, s1), BrokerResponse::Done);
    assert_eq!(broker.handle_update(h, s2), BrokerResponse::Done);
    assert_eq!(broker.handle_update(h, s3), BrokerResponse::Done);
    // Nothing delivered until the tick.
    assert!(broker.backend().deliveries().is_empty());
    assert_eq!(broker.tick_pump(h), Ok(true));
    // The tick delivered exactly the last submitted state, widened.
    assert_eq!(broker.backend().deliveries().as_slice(), &[(h, s3.widen())]);
    // A further tick without new submissions delivers nothing more.
    assert_eq!(broker.tick_pump(h), Ok(false));
    assert_eq!(broker.backend().deliveries().len(), 1);
}

#[test]
fn fresh_pump_is_clean_until_first_submission() {
    let mut broker = Broker::new(Mock::new());
    let h = created_handle(broker.handle_create(DeviceKind::X360, 0));
    assert_eq!(broker.tick_pump(h), Ok(false));
    assert!(broker.backend().deliveries().is_empty());
}

#[test]
fn protocol_scenario() {
    let mut broker = Broker::new(Mock::new());

    let act = broker.session_step(SessionEvent::Frame(BrokerRequest::Ping));
    assert_eq!(act, SessionAction::Respond(BrokerResponse::Pong));

    let act = broker.session_step(SessionEvent::Frame(BrokerRequest::Create {
        kind: DeviceKind::X360,
        features: 0,
    }));
    assert_eq!(act, SessionAction::Respond(BrokerResponse::OkCreate { handle: 1 }));

    // A second client's create, over the same shared broker context.
    let act = broker.session_step(SessionEvent::Frame(BrokerRequest::Create {
        kind: DeviceKind::DS4,
        features: 0,
    }));
    assert_eq!(act, SessionAction::Respond(BrokerResponse::OkCreate { handle: 2 }));

    let act = broker.session_step(SessionEvent::Frame(BrokerRequest::Destroy { handle: 1 }));
    assert_eq!(act, SessionAction::Respond(BrokerResponse::Done));

    let act = broker.session_step(SessionEvent::Frame(BrokerRequest::UpdateState {
        handle: 1,
        state: wire_state(5),
    }));
    assert_eq!(
        act,
        SessionAction::Respond(BrokerResponse::Failed {
            message: "invalid handle: 1".to_string()
        })
    );
}

#[test]
fn disconnect_terminates_without_leaking() {
    // A session that sends zero bytes: its only event is the disconnect.
    let mut broker = Broker::new(Mock::new());
    assert_eq!(broker.session_step(SessionEvent::Disconnected), SessionAction::Close);
    assert!(!broker.is_live(1));
    assert!(!broker.has_pump(1));
    assert!(broker.backend().deliveries().is_empty());

    // Another client's devices survive a disconnect elsewhere.
    let h = created_handle(broker.handle_create(DeviceKind::X360, 0));
    assert_eq!(broker.session_step(SessionEvent::Disconnected), SessionAction::Close);
    assert!(broker.is_live(h));
    assert!(broker.has_pump(h));
}

#[test]
fn malformed_frame_answers_and_closes() {
    let mut broker = Broker::new(Mock::new());
    let act = broker.session_step(SessionEvent::Malformed("invalid JSON frame".to_string()));
    assert_eq!(
        act,
        SessionAction::RespondAndClose(BrokerResponse::Failed {
            message: "invalid JSON frame".to_string()
        })
    );
    assert!(!broker.is_live(1));
}

#[test]
fn destroying_an_unknown_handle_is_refused() {
    let mut broker = Broker::new(Mock::new());
    assert_eq!(
        broker.handle_destroy(4),
        BrokerResponse::Failed { message: "invalid handle: 4".to_string() }
    );
    let h = created_handle(broker.handle_create(DeviceKind::DS5, 0));
    assert_eq!(broker.handle_destroy(h), BrokerResponse::Done);
    assert_eq!(
        broker.handle_destroy(h),
        BrokerResponse::Failed { message: format!("invalid handle: {}", h) }
    );
}

#[test]
fn mock_backend_records_reports() {
    let mut mock = Mock::new();
    let h = mock.create(DeviceKind::X360, 0x3).expect("create succeeds");
    let entry = mock.entry(h).expect("the created handle is recorded");
    assert_eq!(entry.kind, DeviceKind::X360);
    assert_eq!(entry.features, 0x3);
    assert_eq!(mock.entry(h + 1), None);
    let s = hidra::device::PadState { buttons: 0x8003, lx: 1, ly: 2, rx: 3, ry: 4, lt: 5, rt: 6 };
    mock.update(h, s).expect("update succeeds for a live handle");
    let report = mock.last_report().clone().expect("X360 has a packed report");
    assert_eq!(report.as_slice(), &hidra::report::X360Report::from(&s).as_bytes()[..]);

    let h2 = mock.create(DeviceKind::DS4, 0).expect("create succeeds");
    mock.update(h2, s).expect("the simulation still records undefined layouts");
    assert!(mock.last_report().is_none());
    assert_eq!(mock.deliveries().as_slice(), &[(h, s), (h2, s)]);

    let missing = mock.update(77, s);
    assert_eq!(missing, Err(hidra::backend::BackendError::InvalidHandle(77)));
}
