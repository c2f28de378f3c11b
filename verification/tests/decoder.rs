use esp_ble::event::CommandOutcome;
use esp_ble::event::Event;
use esp_ble::event::GAP_ADV_DATA_SET_COMPLETE;
use esp_ble::event::GAP_ADV_START_COMPLETE;
use esp_ble::event::GAP_SCAN_RSP_DATA_SET_COMPLETE;
use esp_ble::event::GATTS_REGISTER;
use esp_ble::event::decode_gap_event;
use esp_ble::event::decode_gatts_event;
use esp_ble::event::outcome_of_status;

#[test]
fn gap_decoder_modeled_codes() {
    assert_eq!(
        decode_gap_event(GAP_ADV_DATA_SET_COMPLETE, 0),
        Event::AdvertisingDatasetComplete { status: 0 }
    );
    assert_eq!(
        decode_gap_event(GAP_SCAN_RSP_DATA_SET_COMPLETE, 4),
        Event::ScanResponseDatasetComplete { status: 4 }
    );
    assert_eq!(
        decode_gap_event(GAP_ADV_START_COMPLETE, 1),
        Event::AdvertisingStartComplete { status: 1 }
    );
}

#[test]
fn gap_decoder_total_over_unknown_codes() {
    // Every representable code yields a defined variant; unknown ones decode
    // to the catch-all, never to an error.
    for code in [2u32, 3, 4, 5, 7, 99, u32::MAX] {
        assert_eq!(decode_gap_event(code, 0), Event::Unhandled { code });
    }
}

#[test]
fn gatts_decoder_register_event() {
    assert_eq!(
        decode_gatts_event(GATTS_REGISTER, 7, 2),
        Event::ApplicationRegistered { app_id: 2, assigned_interface: 7 }
    );
}

#[test]
fn gatts_decoder_total_over_unknown_codes() {
    for code in [1u32, 2, 14, 1000, u32::MAX] {
        assert_eq!(decode_gatts_event(code, 7, 2), Event::Unhandled { code });
    }
}

#[test]
fn status_maps_to_outcome() {
    assert_eq!(outcome_of_status(0), CommandOutcome::Success);
    assert_eq!(outcome_of_status(1), CommandOutcome::StackFailure(1));
    assert_eq!(outcome_of_status(0x85), CommandOutcome::StackFailure(0x85));
}
