use vstd::prelude::*;

verus! {

/// The standard appearance categories an advertisement can announce.
///
/// Each category has a fixed code (see `spec_category_code`); the value
/// placed in the advertisement is that code shifted into the category field,
/// i.e. multiplied by 64.
#[derive(Clone, Copy, Debug, PartialEq, Eq, Structural)]
pub enum AppearanceCategory {
    Unknown,
    Phone,
    Computer,
    Watch,
    Clock,
    Display,
    RemoteControl,
    EyeGlass,
    Tag,
    Keyring,
    MediaPlayer,
    BarcodeScanner,
    Thermometer,
    HeartRateSensor,
    BloodPressure,
    HumanInterfaceDevice,
    GlucoseMeter,
    RunningWalkingSensor,
    Cycling,
    ControlDevice,
    NetworkDevice,
    Sensor,
    LightFixtures,
    Fan,
    HVAC,
    AirConditionning,
    Humidifier,
    Heating,
    AccessControl,
    MotorizedDevice,
    PowerDevice,
    LightSource,
    WindowCovering,
    AudioSink,
    AudioSource,
    MotorizedVehicle,
    DomesticAppliance,
    WearableAudioDevice,
    Aircraft,
    AVEquipment,
    DisplayEquipment,
    HearingAid,
    Gaming,
    Signage,
    PulseOximeter,
    WeightScale,
    PersonalMobilityDevice,
    ContinuousGlucoseMonitor,
    InsulinPump,
    MedicationDelivery,
    OutdoorSportsActivity,
}

/// The category code assigned to each appearance category.
pub open spec fn spec_category_code(cat: AppearanceCategory) -> u16 {
    match cat {
        AppearanceCategory::Unknown => 0x00,
        AppearanceCategory::Phone => 0x01,
        AppearanceCategory::Computer => 0x02,
        AppearanceCategory::Watch => 0x03,
        AppearanceCategory::Clock => 0x04,
        AppearanceCategory::Display => 0x05,
        AppearanceCategory::RemoteControl => 0x06,
        AppearanceCategory::EyeGlass => 0x07,
        AppearanceCategory::Tag => 0x08,
        AppearanceCategory::Keyring => 0x09,
        AppearanceCategory::MediaPlayer => 0x0a,
        AppearanceCategory::BarcodeScanner => 0x0b,
        AppearanceCategory::Thermometer => 0x0c,
        AppearanceCategory::HeartRateSensor => 0x0d,
        AppearanceCategory::BloodPressure => 0x0e,
        AppearanceCategory::HumanInterfaceDevice => 0x0f,
        AppearanceCategory::GlucoseMeter => 0x10,
        AppearanceCategory::RunningWalkingSensor => 0x11,
        AppearanceCategory::Cycling => 0x12,
        AppearanceCategory::ControlDevice => 0x13,
        AppearanceCategory::NetworkDevice => 0x14,
        AppearanceCategory::Sensor => 0x15,
        AppearanceCategory::LightFixtures => 0x16,
        AppearanceCategory::Fan => 0x17,
        AppearanceCategory::HVAC => 0x18,
        AppearanceCategory::AirConditionning => 0x19,
        AppearanceCategory::Humidifier => 0x1a,
        AppearanceCategory::Heating => 0x1b,
        AppearanceCategory::AccessControl => 0x1c,
        AppearanceCategory::MotorizedDevice => 0x1d,
        AppearanceCategory::PowerDevice => 0x1e,
        AppearanceCategory::LightSource => 0x1f,
        AppearanceCategory::WindowCovering => 0x20,
        AppearanceCategory::AudioSink => 0x21,
        AppearanceCategory::AudioSource => 0x22,
        AppearanceCategory::MotorizedVehicle => 0x23,
        AppearanceCategory::DomesticAppliance => 0x24,
        AppearanceCategory::WearableAudioDevice => 0x25,
        AppearanceCategory::Aircraft => 0x26,
        AppearanceCategory::AVEquipment => 0x27,
        AppearanceCategory::DisplayEquipment => 0x28,
        AppearanceCategory::HearingAid => 0x29,
        AppearanceCategory::Gaming => 0x2a,
        AppearanceCategory::Signage => 0x2b,
        AppearanceCategory::PulseOximeter => 0x31,
        AppearanceCategory::WeightScale => 0x32,
        AppearanceCategory::PersonalMobilityDevice => 0x33,
        AppearanceCategory::ContinuousGlucoseMonitor => 0x34,
        AppearanceCategory::InsulinPump => 0x35,
        AppearanceCategory::MedicationDelivery => 0x36,
        AppearanceCategory::OutdoorSportsActivity => 0x51,
    }
}

/// The appearance value carried in the advertisement: the category code
/// shifted into the category field.
pub open spec fn spec_appearance_value(cat: AppearanceCategory) -> i32 {
    (spec_category_code(cat) * 64) as i32
}

/// The category code of `cat`, as executable code.
pub fn category_code(cat: AppearanceCategory) -> (c: u16)
    ensures
        c == spec_category_code(cat),
{
    match cat {
        AppearanceCategory::Unknown => 0x00,
        AppearanceCategory::Phone => 0x01,
        AppearanceCategory::Computer => 0x02,
        AppearanceCategory::Watch => 0x03,
        AppearanceCategory::Clock => 0x04,
        AppearanceCategory::Display => 0x05,
        AppearanceCategory::RemoteControl => 0x06,
        AppearanceCategory::EyeGlass => 0x07,
        AppearanceCategory::Tag => 0x08,
        AppearanceCategory::Keyring => 0x09,
        AppearanceCategory::MediaPlayer => 0x0a,
        AppearanceCategory::BarcodeScanner => 0x0b,
        AppearanceCategory::Thermometer => 0x0c,
        AppearanceCategory::HeartRateSensor => 0x0d,
        AppearanceCategory::BloodPressure => 0x0e,
        AppearanceCategory::HumanInterfaceDevice => 0x0f,
        AppearanceCategory::GlucoseMeter => 0x10,
        AppearanceCategory::RunningWalkingSensor => 0x11,
        AppearanceCategory::Cycling => 0x12,
        AppearanceCategory::ControlDevice => 0x13,
        AppearanceCategory::NetworkDevice => 0x14,
        AppearanceCategory::Sensor => 0x15,
        AppearanceCategory::LightFixtures => 0x16,
        AppearanceCategory::Fan => 0x17,
        AppearanceCategory::HVAC => 0x18,
        AppearanceCategory::AirConditionning => 0x19,
        AppearanceCategory::Humidifier => 0x1a,
        AppearanceCategory::Heating => 0x1b,
        AppearanceCategory::AccessControl => 0x1c,
        AppearanceCategory::MotorizedDevice => 0x1d,
        AppearanceCategory::PowerDevice => 0x1e,
        AppearanceCategory::LightSource => 0x1f,
        AppearanceCategory::WindowCovering => 0x20,
        AppearanceCategory::AudioSink => 0x21,
        AppearanceCategory::AudioSource => 0x22,
        AppearanceCategory::MotorizedVehicle => 0x23,
        AppearanceCategory::DomesticAppliance => 0x24,
        AppearanceCategory::WearableAudioDevice => 0x25,
        AppearanceCategory::Aircraft => 0x26,
        AppearanceCategory::AVEquipment => 0x27,
        AppearanceCategory::DisplayEquipment => 0x28,
        AppearanceCategory::HearingAid => 0x29,
        AppearanceCategory::Gaming => 0x2a,
        AppearanceCategory::Signage => 0x2b,
        AppearanceCategory::PulseOximeter => 0x31,
        AppearanceCategory::WeightScale => 0x32,
        AppearanceCategory::PersonalMobilityDevice => 0x33,
        AppearanceCategory::ContinuousGlucoseMonitor => 0x34,
        AppearanceCategory::InsulinPump => 0x35,
        AppearanceCategory::MedicationDelivery => 0x36,
        AppearanceCategory::OutdoorSportsActivity => 0x51,
    }
}

impl From<AppearanceCategory> for i32 {
    /// The appearance value carried in the advertisement for `cat`.
    fn from(cat: AppearanceCategory) -> (r: i32) {
        (category_code(cat) as i32) * 64
    }
}

impl vstd::std_specs::convert::FromSpecImpl<AppearanceCategory> for i32 {
    open spec fn obeys_from_spec() -> bool {
        true
    }

    open spec fn from_spec(cat: AppearanceCategory) -> i32 {
        spec_appearance_value(cat)
    }
}

/// The advertisement flag for general, non-limited discoverability.
pub const ADV_FLAG_NON_LIMIT_DISC: u8 = 0;

/// What one "configure advertising" request asks the stack to advertise.
///
/// Plain data consumed by the request façade; `set_scan_rsp` decides whether
/// the payload configures the advertisement itself or the scan response, and
/// with that which correlation slot the request completes on.
#[derive(Debug)]
pub struct AdvertiseConfiguration {
    pub set_scan_rsp: bool,
    pub include_name: bool,
    pub include_txpower: bool,
    pub min_interval: i32,
    pub max_interval: i32,
    pub manufacturer: Option<String>,
    pub service: Option<String>,
    pub service_uuid: Option<String>,
    pub appearance: AppearanceCategory,
    pub flag: u8,
}

impl Default for AdvertiseConfiguration {
    /// An advertisement payload with nothing set: no scan response, no name,
    /// no transmit power, zero intervals, no data fields, unknown appearance,
    /// non-limited discoverability.
    fn default() -> (c: AdvertiseConfiguration)
        ensures
            !c.set_scan_rsp,
            !c.include_name,
            !c.include_txpower,
            c.min_interval == 0,
            c.max_interval == 0,
            c.manufacturer is None,
            c.service is None,
            c.service_uuid is None,
            c.appearance == AppearanceCategory::Unknown,
            c.flag == ADV_FLAG_NON_LIMIT_DISC,
    {
        AdvertiseConfiguration {
            set_scan_rsp: false,
            include_name: false,
            include_txpower: false,
            min_interval: 0,
            max_interval: 0,
            manufacturer: None,
            service: None,
            service_uuid: None,
            appearance: AppearanceCategory::Unknown,
            flag: ADV_FLAG_NON_LIMIT_DISC,
        }
    }
}

} // verus!
