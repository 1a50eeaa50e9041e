//! Discovery and power control for Lighthouse base stations over Bluetooth LE.
//!
//! The crate holds the decisions of the engine: the byte protocol of the power
//! characteristic, the registry of known devices, the name filter, and the state
//! machines that drive one device or one scan. It performs no I/O. A driver
//! carries out each requested action on the radio and hands the outcome back as
//! an event.

pub mod constants;
pub mod device;
pub mod device_list;
pub mod discovery;
pub mod dto;
pub mod error;
pub mod first_match;
pub mod flow;
pub mod gatt;
pub mod policy;
pub mod power;
pub mod session;
pub mod status;
pub mod trace;

pub use constants::{
    CHANNEL_CAPACITY, DEFAULT_NOTIFICATION_WAIT_SECS, LHV2_GATT_POWER_CHARACTERISTIC,
    LHV2_GATT_POWER_SERVICE,
};
pub use device::{Device, DeviceIdentity, DeviceView};
pub use device_list::DeviceList;
pub use discovery::{enroll, has_managed_name, should_inspect, Sighting};
pub use dto::{
    decode_remote_status, encode_command, DeviceCommand, DeviceInfo, DeviceInfoView,
    DeviceLocalStatus, DevicePowerStatus, DeviceRemoteStatus, FromDeviceStatus, LocalStatusView,
    RemoteStatusView,
};
pub use error::{select_adapter, AdapterFault, Error, MissingPart};
pub use flow::{DeviceFlow, Event, Purpose, Request, Stage, Step};
pub use gatt::{
    assert_power_characteristic, get_power_characteristic, GattCharacteristic, GattService,
};
pub use policy::{StatusSet, TerminalPolicy};
pub use session::{Opening, ScanEvent, ScanPhase, ScanRequest, ScanSession};
pub use status::StatusPayload;
