use pinecil2mqtt::bulk::DecodeError;
use pinecil2mqtt::manager::{
    get_first_adapter, DeviceEvent, Failure, LifecycleController, Phase, Reaction, Request, SetupError,
};
use pinecil2mqtt::protocol::{DeviceSnapshot, BULK_SERVICE_UUID, LIVE_SERVICE_UUID, SETTINGS_SERVICE_UUID};
use pinecil2mqtt::session::{PollingSession, ReadOutcome, SessionAction};

const X: u64 = 0xA1B2_C3D4_E5F6;
const Y: u64 = 0x0102_0304_0506;
const HEART_RATE: u128 = 0x0000180d_0000_1000_8000_00805f9b34fb;

fn pinecil(address: u64, connected: bool) -> DeviceSnapshot {
    DeviceSnapshot { address, advertised: Some(vec![HEART_RATE, BULK_SERVICE_UUID]), connected }
}

fn stranger(address: u64, connected: bool) -> DeviceSnapshot {
    DeviceSnapshot { address, advertised: Some(vec![HEART_RATE]), connected }
}

fn nameless(address: u64) -> DeviceSnapshot {
    DeviceSnapshot { address, advertised: None, connected: false }
}

fn full_manifest() -> Vec<u128> {
    vec![BULK_SERVICE_UUID, LIVE_SERVICE_UUID, SETTINGS_SERVICE_UUID]
}

fn only(request: Request) -> Reaction {
    Reaction { cancel: None, request }
}

fn nothing() -> Reaction {
    only(Request::Nothing)
}

fn identity(address: u64) -> DeviceEvent {
    DeviceEvent::IdentityRead { address, build: b"2.21".to_vec(), device_id: vec![0xEF, 0xBE, 0xAD, 0xDE] }
}

fn polling(address: u64) -> LifecycleController {
    let mut controller = LifecycleController::new();
    controller.process_event(DeviceEvent::Discovered(pinecil(address, false)));
    controller.process_event(DeviceEvent::Connected(pinecil(address, true)));
    controller.process_event(DeviceEvent::ServicesDiscovered { address, manifest: full_manifest() });
    controller.process_event(identity(address));
    assert!(controller.is_polling(address));
    controller
}

#[test]
fn startup_fails_without_an_adapter() {
    assert_eq!(get_first_adapter(0), Err(SetupError::NoAdaptersFound));
}

#[test]
fn startup_takes_the_first_adapter() {
    assert_eq!(get_first_adapter(1), Ok(0));
    assert_eq!(get_first_adapter(3), Ok(0));
}

#[test]
fn new_controller_knows_no_device() {
    let controller = LifecycleController::new();
    assert_eq!(controller.phase(X), None);
    assert!(!controller.is_polling(X));
}

#[test]
fn discovery_leads_to_polling_tagged_with_the_device_id() {
    let mut controller = LifecycleController::new();

    let reaction = controller.process_event(DeviceEvent::Discovered(pinecil(X, false)));
    assert_eq!(reaction, only(Request::Connect(X)));
    assert_eq!(controller.phase(X), Some(Phase::Connecting));

    let reaction = controller.process_event(DeviceEvent::Connected(pinecil(X, true)));
    assert_eq!(reaction, only(Request::DiscoverServices(X)));
    assert_eq!(controller.phase(X), Some(Phase::Connected));

    let reaction = controller.process_event(DeviceEvent::ServicesDiscovered { address: X, manifest: full_manifest() });
    assert_eq!(reaction, only(Request::ReadIdentity(X)));
    assert_eq!(controller.phase(X), Some(Phase::Validated));

    let reaction = controller.process_event(DeviceEvent::IdentityRead {
        address: X,
        build: b"2.21".to_vec(),
        device_id: 0xDEAD_BEEFu32.to_le_bytes().to_vec(),
    });
    assert_eq!(
        reaction,
        only(Request::StartPolling { address: X, build: "2.21".to_string(), device_id: "DEADBEEF".to_string() })
    );
    assert_eq!(controller.phase(X), Some(Phase::Polling));
    assert!(controller.is_polling(X));

    let tag = match reaction.request {
        Request::StartPolling { device_id, .. } => device_id,
        other => panic!("expected a session, got {:?}", other),
    };
    let mut session = PollingSession::new(tag);
    match session.poll_bulk_data(ReadOutcome::Data(vec![0u8; 56])) {
        SessionAction::Send(message) => assert_eq!(message.id, "DEADBEEF"),
        other => panic!("expected a message, got {:?}", other),
    }
}

#[test]
fn incomplete_manifest_starts_no_session_and_the_controller_goes_on() {
    let mut controller = LifecycleController::new();
    controller.process_event(DeviceEvent::Discovered(pinecil(X, false)));
    controller.process_event(DeviceEvent::Connected(pinecil(X, true)));

    let reaction = controller.process_event(DeviceEvent::ServicesDiscovered {
        address: X,
        manifest: vec![BULK_SERVICE_UUID, HEART_RATE, SETTINGS_SERVICE_UUID],
    });
    assert_eq!(reaction, only(Request::Abandon { address: X, failure: Failure::ServiceValidationFailed }));
    assert_eq!(controller.phase(X), Some(Phase::Failed(Failure::ServiceValidationFailed)));
    assert!(!controller.is_polling(X));

    assert_eq!(controller.process_event(identity(X)), nothing());
    assert!(!controller.is_polling(X));

    let reaction = controller.process_event(DeviceEvent::Discovered(pinecil(Y, false)));
    assert_eq!(reaction, only(Request::Connect(Y)));
}

#[test]
fn devices_that_are_not_the_target_are_ignored() {
    let mut controller = LifecycleController::new();
    assert_eq!(controller.process_event(DeviceEvent::Discovered(stranger(X, false))), nothing());
    assert_eq!(controller.process_event(DeviceEvent::Updated(stranger(X, false))), nothing());
    assert_eq!(controller.process_event(DeviceEvent::Connected(stranger(X, true))), nothing());
    assert_eq!(controller.process_event(DeviceEvent::Disconnected(stranger(X, false))), nothing());
    assert_eq!(controller.phase(X), None);
}

#[test]
fn devices_without_advertised_data_are_ignored() {
    let mut controller = LifecycleController::new();
    assert_eq!(controller.process_event(DeviceEvent::Discovered(nameless(X))), nothing());
    assert_eq!(controller.process_event(DeviceEvent::Connected(nameless(X))), nothing());
    assert_eq!(controller.phase(X), None);
}

#[test]
fn other_events_are_ignored() {
    let mut controller = polling(X);
    assert_eq!(controller.process_event(DeviceEvent::Other), nothing());
    assert!(controller.is_polling(X));
}

#[test]
fn discovered_device_that_is_connected_gets_no_connect_request() {
    let mut controller = LifecycleController::new();
    assert_eq!(controller.process_event(DeviceEvent::Discovered(pinecil(X, true))), nothing());
    assert_eq!(controller.phase(X), Some(Phase::Discovered));
}

#[test]
fn readvertisement_while_disconnected_retries_the_connect() {
    let mut controller = LifecycleController::new();
    assert_eq!(controller.process_event(DeviceEvent::Discovered(pinecil(X, false))), only(Request::Connect(X)));
    assert_eq!(controller.process_event(DeviceEvent::Updated(pinecil(X, false))), only(Request::Connect(X)));
    assert_eq!(controller.process_event(DeviceEvent::Updated(pinecil(X, false))), only(Request::Connect(X)));
    assert_eq!(controller.phase(X), Some(Phase::Connecting));
}

#[test]
fn readvertisement_while_connected_asks_for_nothing() {
    let mut controller = polling(X);
    assert_eq!(controller.process_event(DeviceEvent::Updated(pinecil(X, true))), nothing());
    assert!(controller.is_polling(X));
}

#[test]
fn device_first_seen_in_an_update_is_connected_to() {
    let mut controller = LifecycleController::new();
    assert_eq!(controller.process_event(DeviceEvent::Updated(pinecil(X, false))), only(Request::Connect(X)));
}

#[test]
fn disconnect_cancels_the_session() {
    let mut controller = polling(X);
    let reaction = controller.process_event(DeviceEvent::Disconnected(pinecil(X, false)));
    assert_eq!(reaction, Reaction { cancel: Some(X), request: Request::Nothing });
    assert_eq!(controller.phase(X), Some(Phase::Disconnected));
    assert!(!controller.is_polling(X));
}

#[test]
fn disconnect_without_session_cancels_nothing() {
    let mut controller = LifecycleController::new();
    controller.process_event(DeviceEvent::Discovered(pinecil(X, false)));
    controller.process_event(DeviceEvent::Connected(pinecil(X, true)));
    assert_eq!(controller.process_event(DeviceEvent::Disconnected(pinecil(X, false))), nothing());
    assert_eq!(controller.phase(X), Some(Phase::Disconnected));
}

#[test]
fn readvertisement_of_a_polled_device_that_lost_its_connection() {
    let mut controller = polling(X);
    let reaction = controller.process_event(DeviceEvent::Updated(pinecil(X, false)));
    assert_eq!(reaction, Reaction { cancel: Some(X), request: Request::Connect(X) });
    assert_eq!(controller.phase(X), Some(Phase::Connecting));
}

#[test]
fn second_connected_event_starts_no_second_session() {
    let mut controller = polling(X);
    assert_eq!(controller.process_event(DeviceEvent::Connected(pinecil(X, true))), nothing());
    assert_eq!(
        controller.process_event(DeviceEvent::ServicesDiscovered { address: X, manifest: full_manifest() }),
        nothing()
    );
    assert_eq!(controller.process_event(identity(X)), nothing());
    assert!(controller.is_polling(X));
}

#[test]
fn at_most_one_session_is_open_over_a_long_run() {
    let mut controller = LifecycleController::new();
    let mut open = 0i32;
    for round in 0..20 {
        let events = vec![
            DeviceEvent::Discovered(pinecil(X, false)),
            DeviceEvent::Connected(pinecil(X, true)),
            DeviceEvent::ServicesDiscovered { address: X, manifest: full_manifest() },
            identity(X),
            DeviceEvent::Connected(pinecil(X, true)),
            identity(X),
            if round % 2 == 0 {
                DeviceEvent::Disconnected(pinecil(X, false))
            } else {
                DeviceEvent::SessionEnded { address: X }
            },
            DeviceEvent::SessionEnded { address: X },
        ];
        for event in events {
            let reaction = controller.process_event(event);
            if let Request::StartPolling { address, .. } = &reaction.request {
                assert_eq!(*address, X);
                assert_eq!(open, 0);
                open += 1;
            }
            if reaction.cancel == Some(X) {
                open -= 1;
            }
            if reaction.request == (Request::Abandon { address: X, failure: Failure::SessionEnded }) {
                open -= 1;
            }
            assert!(open == 0 || open == 1);
            assert_eq!(open == 1, controller.is_polling(X));
        }
    }
}

#[test]
fn reconnect_after_disconnect_goes_through_validation_again() {
    let mut controller = polling(X);
    controller.process_event(DeviceEvent::Disconnected(pinecil(X, false)));
    assert_eq!(controller.process_event(identity(X)), nothing());
    assert_eq!(controller.process_event(DeviceEvent::Updated(pinecil(X, false))), only(Request::Connect(X)));
    assert_eq!(
        controller.process_event(DeviceEvent::Connected(pinecil(X, true))),
        only(Request::DiscoverServices(X))
    );
    assert_eq!(controller.process_event(identity(X)), nothing());
    assert_eq!(
        controller.process_event(DeviceEvent::ServicesDiscovered { address: X, manifest: full_manifest() }),
        only(Request::ReadIdentity(X))
    );
}

#[test]
fn manifest_for_a_device_that_is_not_connected_is_ignored() {
    let mut controller = LifecycleController::new();
    assert_eq!(
        controller.process_event(DeviceEvent::ServicesDiscovered { address: X, manifest: full_manifest() }),
        nothing()
    );
    controller.process_event(DeviceEvent::Discovered(pinecil(X, false)));
    assert_eq!(
        controller.process_event(DeviceEvent::ServicesDiscovered { address: X, manifest: full_manifest() }),
        nothing()
    );
    assert_eq!(controller.phase(X), Some(Phase::Connecting));
}

#[test]
fn unreadable_identity_abandons_the_device() {
    let mut controller = LifecycleController::new();
    controller.process_event(DeviceEvent::Discovered(pinecil(X, false)));
    controller.process_event(DeviceEvent::Connected(pinecil(X, true)));
    controller.process_event(DeviceEvent::ServicesDiscovered { address: X, manifest: full_manifest() });
    let reaction = controller.process_event(DeviceEvent::IdentityUnavailable { address: X });
    assert_eq!(reaction, only(Request::Abandon { address: X, failure: Failure::IdentityReadFailed }));
    assert_eq!(controller.phase(X), Some(Phase::Failed(Failure::IdentityReadFailed)));
    assert_eq!(controller.process_event(identity(X)), nothing());
}

#[test]
fn malformed_device_id_abandons_the_device() {
    let mut controller = LifecycleController::new();
    controller.process_event(DeviceEvent::Discovered(pinecil(X, false)));
    controller.process_event(DeviceEvent::Connected(pinecil(X, true)));
    controller.process_event(DeviceEvent::ServicesDiscovered { address: X, manifest: full_manifest() });
    let reaction = controller.process_event(DeviceEvent::IdentityRead {
        address: X,
        build: b"2.21".to_vec(),
        device_id: vec![1, 2, 3],
    });
    let failure = Failure::IdentityInvalid(DecodeError::MalformedIdentity);
    assert_eq!(reaction, only(Request::Abandon { address: X, failure }));
    assert_eq!(controller.phase(X), Some(Phase::Failed(failure)));
}

#[test]
fn build_string_that_is_not_utf8_abandons_the_device() {
    let mut controller = LifecycleController::new();
    controller.process_event(DeviceEvent::Discovered(pinecil(X, false)));
    controller.process_event(DeviceEvent::Connected(pinecil(X, true)));
    controller.process_event(DeviceEvent::ServicesDiscovered { address: X, manifest: full_manifest() });
    let reaction = controller.process_event(DeviceEvent::IdentityRead {
        address: X,
        build: vec![0xFF, 0xFE],
        device_id: vec![1, 2, 3, 4],
    });
    let failure = Failure::IdentityInvalid(DecodeError::EncodingError);
    assert_eq!(reaction, only(Request::Abandon { address: X, failure }));
}

#[test]
fn transport_failure_touches_one_device_only() {
    let mut controller = polling(Y);
    controller.process_event(DeviceEvent::Discovered(pinecil(X, false)));
    let reaction = controller.process_event(DeviceEvent::TransportFailed { address: X });
    assert_eq!(reaction, only(Request::Abandon { address: X, failure: Failure::TransportFailed }));
    assert_eq!(controller.phase(X), Some(Phase::Failed(Failure::TransportFailed)));
    assert!(controller.is_polling(Y));
    assert_eq!(controller.process_event(DeviceEvent::Updated(pinecil(X, false))), only(Request::Connect(X)));
}

#[test]
fn transport_failure_during_service_discovery_abandons_the_device() {
    let mut controller = LifecycleController::new();
    controller.process_event(DeviceEvent::Discovered(pinecil(X, false)));
    controller.process_event(DeviceEvent::Connected(pinecil(X, true)));
    let reaction = controller.process_event(DeviceEvent::TransportFailed { address: X });
    assert_eq!(reaction, only(Request::Abandon { address: X, failure: Failure::TransportFailed }));
}

#[test]
fn transport_failure_of_an_unknown_or_polled_device_is_ignored() {
    let mut controller = polling(X);
    assert_eq!(controller.process_event(DeviceEvent::TransportFailed { address: X }), nothing());
    assert_eq!(controller.process_event(DeviceEvent::TransportFailed { address: Y }), nothing());
    assert!(controller.is_polling(X));
    assert_eq!(controller.phase(Y), None);
}

#[test]
fn session_that_stopped_by_itself_is_recorded() {
    let mut controller = polling(X);
    let reaction = controller.process_event(DeviceEvent::SessionEnded { address: X });
    assert_eq!(reaction, only(Request::Abandon { address: X, failure: Failure::SessionEnded }));
    assert_eq!(controller.phase(X), Some(Phase::Failed(Failure::SessionEnded)));
    assert_eq!(controller.process_event(DeviceEvent::SessionEnded { address: X }), nothing());
}

#[test]
fn two_devices_are_followed_independently() {
    let mut controller = LifecycleController::new();
    controller.process_event(DeviceEvent::Discovered(pinecil(X, false)));
    controller.process_event(DeviceEvent::Discovered(pinecil(Y, false)));
    controller.process_event(DeviceEvent::Connected(pinecil(X, true)));
    controller.process_event(DeviceEvent::ServicesDiscovered { address: X, manifest: full_manifest() });
    controller.process_event(identity(X));
    assert!(controller.is_polling(X));
    assert_eq!(controller.phase(Y), Some(Phase::Connecting));

    assert_eq!(
        controller.process_event(DeviceEvent::Connected(pinecil(Y, true))),
        only(Request::DiscoverServices(Y))
    );
    controller.process_event(DeviceEvent::ServicesDiscovered { address: Y, manifest: full_manifest() });
    controller.process_event(identity(Y));
    assert!(controller.is_polling(Y));

    let reaction = controller.process_event(DeviceEvent::Disconnected(pinecil(X, false)));
    assert_eq!(reaction.cancel, Some(X));
    assert!(controller.is_polling(Y));
}
