use futures::executor::block_on;

use esp_ble::err::BleError;
use esp_ble::event::CommandOutcome;
use esp_ble::event::Event;
use esp_ble::facade::EspBle;
use esp_ble::facade::GattApplication;
use esp_ble::registry::SlotKind;
use esp_ble::registry::WaiterRegistry;
use esp_ble::router::RouteOutcome;
use esp_ble::router::route_event;

struct TestBleApp {}

impl GattApplication for TestBleApp {
    fn get_application_id(&self) -> u16 {
        2
    }
}

fn new_ble() -> EspBle<TestBleApp> {
    EspBle::new(String::from("Test device"))
}

// Scenario: reserve the "advertising started" slot, the stack accepts the
// command, the router receives the success completion, the caller resolves Ok.
#[test]
fn start_advertise_success_round_trip() {
    let mut ble = new_ble();
    let rx = ble.begin_start_advertise().expect("slot was free");
    assert!(ble.slot_pending(SlotKind::AdvertisingStart));

    let routed = ble.route_event(Event::AdvertisingStartComplete { status: 0 });
    assert_eq!(routed, RouteOutcome::Delivered);
    assert!(!ble.slot_pending(SlotKind::AdvertisingStart));

    let outcome = block_on(rx).expect("notifier was signalled, not dropped");
    assert_eq!(outcome, CommandOutcome::Success);
    assert_eq!(ble.finish_start_advertise(Some(outcome)), Ok(()));
}

#[test]
fn stack_reported_failure_is_returned() {
    let mut ble = new_ble();
    let rx = ble.begin_start_advertise().expect("slot was free");

    let routed = ble.route_event(Event::AdvertisingStartComplete { status: 0x85 });
    assert_eq!(routed, RouteOutcome::Delivered);

    let outcome = block_on(rx).expect("notifier was signalled, not dropped");
    assert_eq!(outcome, CommandOutcome::StackFailure(0x85));
    assert_eq!(
        ble.finish_start_advertise(Some(outcome)),
        Err(BleError::StackReportedFailure(0x85))
    );
}

// Scenario: reserve application id 2, the router receives the registration
// completion with assigned interface 7, the caller resolves Ok(7) and the
// application table records the object under handle 7.
#[test]
fn register_application_round_trip() {
    let mut ble = new_ble();
    let app = TestBleApp {};
    let app_id = app.get_application_id();

    let rx = ble.begin_register_application(app_id).expect("id was free");
    assert!(ble.registration_pending(app_id));

    let routed = ble.route_event(Event::ApplicationRegistered {
        app_id,
        assigned_interface: 7,
    });
    assert_eq!(routed, RouteOutcome::Delivered);
    assert!(!ble.registration_pending(app_id));

    let handle = block_on(rx).expect("notifier was signalled, not dropped");
    assert_eq!(handle, 7);
    assert_eq!(ble.finish_register_application(app_id, app, Some(handle)), Ok(7));
    assert!(ble.has_application(7));
    assert_eq!(ble.application_count(), 1);
}

// Keyed independence: registrations under distinct ids resolve each with its
// own assigned handle; completing one leaves the other pending.
#[test]
fn keyed_registrations_do_not_interfere() {
    let mut ble = new_ble();
    let rx_a = ble.begin_register_application(2).expect("id 2 was free");
    let mut rx_b = ble.begin_register_application(3).expect("id 3 was free");

    let routed = ble.route_event(Event::ApplicationRegistered {
        app_id: 2,
        assigned_interface: 7,
    });
    assert_eq!(routed, RouteOutcome::Delivered);

    assert_eq!(block_on(rx_a), Ok(7));
    assert!(rx_b.try_recv().expect("b's channel is intact").is_none());
    assert!(ble.registration_pending(3));
    assert!(!ble.registration_pending(2));

    let routed = ble.route_event(Event::ApplicationRegistered {
        app_id: 3,
        assigned_interface: 9,
    });
    assert_eq!(routed, RouteOutcome::Delivered);
    assert_eq!(block_on(rx_b), Ok(9));
}

// Scenario: a second reservation of the "advertising data configured" slot
// while the first is unresolved is refused with SlotBusy, and the first
// waiter is untouched, never displaced.
#[test]
fn second_reservation_is_refused_not_displaced() {
    let mut ble = new_ble();
    let cfg = esp_ble::advertise::AdvertiseConfiguration::default();
    let rx_first = ble.begin_configure_advertising(&cfg).expect("slot was free");

    let second = ble.begin_configure_advertising(&cfg);
    assert!(matches!(second, Err(BleError::SlotBusy)));
    assert!(ble.slot_pending(SlotKind::AdvertisingData));

    // The first caller still completes normally.
    let routed = ble.route_event(Event::AdvertisingDatasetComplete { status: 0 });
    assert_eq!(routed, RouteOutcome::Delivered);
    assert_eq!(block_on(rx_first), Ok(CommandOutcome::Success));
}

#[test]
fn same_id_registration_is_refused() {
    let mut ble = new_ble();
    let _rx = ble.begin_register_application(2).expect("id was free");
    assert!(matches!(ble.begin_register_application(2), Err(BleError::SlotBusy)));
    // A different id is still accepted.
    assert!(ble.begin_register_application(3).is_ok());
}

// Scenario: no completion arrives in time; the caller resolves Timeout and a
// late completion is unroutable, observable, and not misattributed.
#[test]
fn timeout_then_late_completion_is_unroutable() {
    let mut ble = new_ble();
    let cfg = esp_ble::advertise::AdvertiseConfiguration::default();
    let rx = ble.begin_configure_advertising(&cfg).expect("slot was free");

    // The waiting window closed without a completion.
    assert_eq!(
        ble.finish_configure_advertising(false, None),
        Err(BleError::Timeout)
    );
    assert!(!ble.slot_pending(SlotKind::AdvertisingData));
    // The abandoned receiver resolves with a cancellation, not a hang.
    assert!(block_on(rx).is_err());

    // The completion arrives after the timeout: unroutable, counted, no crash.
    let routed = ble.route_event(Event::AdvertisingDatasetComplete { status: 0 });
    assert_eq!(routed, RouteOutcome::Unroutable);
    assert_eq!(ble.unroutable_completions(), 1);

    // The subsystem stays usable: a fresh request on the same slot works and
    // the late completion was not misattributed to it.
    let rx2 = ble.begin_configure_advertising(&cfg).expect("slot free again");
    let routed = ble.route_event(Event::AdvertisingDatasetComplete { status: 0 });
    assert_eq!(routed, RouteOutcome::Delivered);
    assert_eq!(block_on(rx2), Ok(CommandOutcome::Success));
}

#[test]
fn rejected_issuance_tears_the_waiter_down() {
    let mut ble = new_ble();
    let rx = ble.begin_start_advertise().expect("slot was free");

    // The stack refused the command outright: teardown, then the error.
    let err = ble.abort_start_advertise(0x101);
    assert_eq!(err, BleError::StackRejected(0x101));
    assert!(!ble.slot_pending(SlotKind::AdvertisingStart));
    assert!(block_on(rx).is_err());

    // No orphan: the slot can be reserved again at once.
    assert!(ble.begin_start_advertise().is_ok());
}

#[test]
fn rejected_registration_tears_the_waiter_down() {
    let mut ble = new_ble();
    let rx = ble.begin_register_application(2).expect("id was free");
    let err = ble.abort_register_application(2, 0x102);
    assert_eq!(err, BleError::StackRejected(0x102));
    assert!(!ble.registration_pending(2));
    assert!(block_on(rx).is_err());
}

#[test]
fn registration_timeout_releases_the_id() {
    let mut ble = new_ble();
    let _rx = ble.begin_register_application(2).expect("id was free");
    let app = TestBleApp {};
    assert_eq!(
        ble.finish_register_application(2, app, None),
        Err(BleError::Timeout)
    );
    assert!(!ble.registration_pending(2));
    assert_eq!(ble.application_count(), 0);
}

#[test]
fn unhandled_events_are_ignored_not_counted() {
    let mut ble = new_ble();
    let routed = ble.route_event(Event::Unhandled { code: 17 });
    assert_eq!(routed, RouteOutcome::Ignored);
    assert_eq!(ble.unroutable_completions(), 0);
}

#[test]
fn unroutable_completions_accumulate_per_kind() {
    let mut registry = WaiterRegistry::new();
    assert_eq!(
        route_event(&mut registry, Event::AdvertisingDatasetComplete { status: 0 }),
        RouteOutcome::Unroutable
    );
    assert_eq!(
        route_event(&mut registry, Event::ScanResponseDatasetComplete { status: 0 }),
        RouteOutcome::Unroutable
    );
    assert_eq!(
        route_event(
            &mut registry,
            Event::ApplicationRegistered { app_id: 5, assigned_interface: 1 }
        ),
        RouteOutcome::Unroutable
    );
    assert_eq!(registry.unroutable_count(), 3);
}

#[test]
fn scan_response_uses_its_own_slot() {
    let mut ble = new_ble();
    let mut cfg = esp_ble::advertise::AdvertiseConfiguration::default();
    cfg.set_scan_rsp = true;
    let rx = ble.begin_configure_advertising(&cfg).expect("slot was free");
    assert!(ble.slot_pending(SlotKind::ScanResponseData));
    assert!(!ble.slot_pending(SlotKind::AdvertisingData));

    // The advertising-data slot is independent and still free.
    let cfg_adv = esp_ble::advertise::AdvertiseConfiguration::default();
    assert!(ble.begin_configure_advertising(&cfg_adv).is_ok());

    let routed = ble.route_event(Event::ScanResponseDatasetComplete { status: 0 });
    assert_eq!(routed, RouteOutcome::Delivered);
    assert_eq!(block_on(rx), Ok(CommandOutcome::Success));
    assert_eq!(ble.finish_configure_advertising(true, Some(CommandOutcome::Success)), Ok(()));
}

#[test]
fn device_name_is_kept() {
    let ble = new_ble();
    assert_eq!(ble.device_name().as_str(), "Test device");
}
