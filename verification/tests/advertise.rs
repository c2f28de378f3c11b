use esp_ble::advertise::ADV_FLAG_NON_LIMIT_DISC;
use esp_ble::advertise::AdvertiseConfiguration;
use esp_ble::advertise::AppearanceCategory;
use esp_ble::advertise::category_code;

#[test]
fn appearance_values_are_codes_shifted_into_the_category_field() {
    assert_eq!(i32::from(AppearanceCategory::Unknown), 0);
    assert_eq!(i32::from(AppearanceCategory::Watch), 0x03 * 64);
    assert_eq!(i32::from(AppearanceCategory::Signage), 0x2b * 64);
    assert_eq!(i32::from(AppearanceCategory::PulseOximeter), 0x31 * 64);
    assert_eq!(i32::from(AppearanceCategory::OutdoorSportsActivity), 0x51 * 64);
}

#[test]
fn category_codes_match_the_assignment() {
    assert_eq!(category_code(AppearanceCategory::Unknown), 0x00);
    assert_eq!(category_code(AppearanceCategory::Phone), 0x01);
    assert_eq!(category_code(AppearanceCategory::Gaming), 0x2a);
    assert_eq!(category_code(AppearanceCategory::WeightScale), 0x32);
}

#[test]
fn default_configuration_is_empty() {
    let cfg = AdvertiseConfiguration::default();
    assert!(!cfg.set_scan_rsp);
    assert!(!cfg.include_name);
    assert!(!cfg.include_txpower);
    assert_eq!(cfg.min_interval, 0);
    assert_eq!(cfg.max_interval, 0);
    assert!(cfg.manufacturer.is_none());
    assert!(cfg.service.is_none());
    assert!(cfg.service_uuid.is_none());
    assert!(matches!(cfg.appearance, AppearanceCategory::Unknown));
    assert_eq!(cfg.flag, ADV_FLAG_NON_LIMIT_DISC);
}
