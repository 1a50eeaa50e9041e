//! Values exchanged with a device and with the consumer of the engine.

pub mod command;
pub mod info;
pub mod local;
pub mod power;
pub mod remote;

pub use command::{encode_command, DeviceCommand};
pub use info::{DeviceInfo, DeviceInfoView, FromDeviceStatus};
pub use local::{DeviceLocalStatus, LocalStatusView};
pub use power::{DevicePowerStatus, PowerStatusView};
pub use remote::{decode_remote_status, hex_string, DeviceRemoteStatus, RemoteStatusView};
