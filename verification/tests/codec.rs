use vrlh_power_manager_core::dto::remote::hex_string;
use vrlh_power_manager_core::{
    decode_remote_status, encode_command, select_adapter, AdapterFault, DeviceCommand,
    DeviceLocalStatus, DevicePowerStatus, DeviceRemoteStatus, Error, MissingPart,
};

#[test]
fn decodes_the_six_known_bytes() {
    assert_eq!(decode_remote_status(vec![0x00]), DeviceRemoteStatus::Stopped);
    assert_eq!(decode_remote_status(vec![0x01]), DeviceRemoteStatus::Initiated);
    assert_eq!(decode_remote_status(vec![0x02]), DeviceRemoteStatus::Standby);
    assert_eq!(decode_remote_status(vec![0x08]), DeviceRemoteStatus::Acknowledged);
    assert_eq!(decode_remote_status(vec![0x09]), DeviceRemoteStatus::Spinup);
    assert_eq!(decode_remote_status(vec![0x0B]), DeviceRemoteStatus::Active);
}

#[test]
fn unknown_single_bytes_keep_their_payload() {
    for byte in 0u8..=255 {
        let known = matches!(byte, 0x00 | 0x01 | 0x02 | 0x08 | 0x09 | 0x0B);
        let status = decode_remote_status(vec![byte]);
        if known {
            assert!(!matches!(status, DeviceRemoteStatus::Unknown(_)));
        } else {
            assert_eq!(status, DeviceRemoteStatus::Unknown(vec![byte]));
        }
    }
}

#[test]
fn empty_payload_is_unknown() {
    assert_eq!(decode_remote_status(vec![]), DeviceRemoteStatus::Unknown(vec![]));
}

#[test]
fn longer_payloads_are_unknown_even_if_they_start_with_a_known_byte() {
    assert_eq!(
        decode_remote_status(vec![0x0B, 0x00]),
        DeviceRemoteStatus::Unknown(vec![0x0B, 0x00])
    );
    assert_eq!(
        decode_remote_status(vec![0x00, 0x00, 0x00]),
        DeviceRemoteStatus::Unknown(vec![0x00, 0x00, 0x00])
    );
}

#[test]
fn decoding_never_yields_unavailable() {
    for byte in 0u8..=255 {
        assert_ne!(decode_remote_status(vec![byte]), DeviceRemoteStatus::Unavailable);
    }
}

#[test]
fn from_bytes_is_the_decoder() {
    assert_eq!(DeviceRemoteStatus::from(vec![0x09]), DeviceRemoteStatus::Spinup);
    assert_eq!(DeviceRemoteStatus::from(vec![0x07]), DeviceRemoteStatus::Unknown(vec![0x07]));
    let status: DeviceRemoteStatus = vec![0x02].into();
    assert_eq!(status, DeviceRemoteStatus::Standby);
}

#[test]
fn commands_encode_to_their_bytes() {
    assert_eq!(encode_command(DeviceCommand::Sleep), 0x00);
    assert_eq!(encode_command(DeviceCommand::Activate), 0x01);
    assert_eq!(encode_command(DeviceCommand::Standby), 0x02);
}

#[test]
fn command_bytes_are_distinct() {
    let bytes = [
        encode_command(DeviceCommand::Sleep),
        encode_command(DeviceCommand::Activate),
        encode_command(DeviceCommand::Standby),
    ];
    assert_ne!(bytes[0], bytes[1]);
    assert_ne!(bytes[0], bytes[2]);
    assert_ne!(bytes[1], bytes[2]);
}

#[test]
fn command_bytes_mean_something_else_as_statuses() {
    assert_eq!(
        decode_remote_status(DeviceCommand::Sleep.to_bytes()),
        DeviceRemoteStatus::Stopped
    );
    assert_eq!(
        decode_remote_status(DeviceCommand::Activate.to_bytes()),
        DeviceRemoteStatus::Initiated
    );
    assert_eq!(
        decode_remote_status(DeviceCommand::Standby.to_bytes()),
        DeviceRemoteStatus::Standby
    );
}

#[test]
fn command_payload_is_one_byte() {
    assert_eq!(DeviceCommand::Sleep.to_bytes(), vec![0x00]);
    assert_eq!(DeviceCommand::Activate.to_bytes(), vec![0x01]);
    assert_eq!(DeviceCommand::Standby.to_bytes(), vec![0x02]);
}

#[test]
fn commands_are_read_from_their_codes() {
    assert_eq!(DeviceCommand::from_code(0), Some(DeviceCommand::Sleep));
    assert_eq!(DeviceCommand::from_code(1), Some(DeviceCommand::Activate));
    assert_eq!(DeviceCommand::from_code(2), Some(DeviceCommand::Standby));
    assert_eq!(DeviceCommand::from_code(3), None);
    assert_eq!(DeviceCommand::from_code(255), None);
}

#[test]
fn code_and_byte_round_trip() {
    for command in [DeviceCommand::Sleep, DeviceCommand::Activate, DeviceCommand::Standby] {
        assert_eq!(DeviceCommand::from_code(encode_command(command)), Some(command));
    }
}

#[test]
fn command_labels() {
    assert_eq!(DeviceCommand::Activate.label(), "ACTIVATE");
    assert_eq!(DeviceCommand::Sleep.label(), "SLEEP");
    assert_eq!(DeviceCommand::Standby.label(), "STANDBY");
}

#[test]
fn remote_status_codes() {
    assert_eq!(DeviceRemoteStatus::Unavailable.code(), "--");
    assert_eq!(DeviceRemoteStatus::Stopped.code(), "00");
    assert_eq!(DeviceRemoteStatus::Initiated.code(), "01");
    assert_eq!(DeviceRemoteStatus::Standby.code(), "02");
    assert_eq!(DeviceRemoteStatus::Acknowledged.code(), "08");
    assert_eq!(DeviceRemoteStatus::Spinup.code(), "09");
    assert_eq!(DeviceRemoteStatus::Active.code(), "0B");
}

#[test]
fn unknown_status_code_is_upper_case_hex() {
    assert_eq!(DeviceRemoteStatus::Unknown(vec![0xAB, 0x01, 0xF0]).code(), "AB01F0");
    assert_eq!(DeviceRemoteStatus::Unknown(vec![0x0a]).code(), "0A");
    assert_eq!(DeviceRemoteStatus::Unknown(vec![]).code(), "");
}

#[test]
fn hex_string_matches_the_standard_formatting() {
    for byte in 0u8..=255 {
        assert_eq!(hex_string(&vec![byte]), format!("{byte:02X}"));
    }
    assert_eq!(hex_string(&vec![0x00, 0xFF, 0x10]), "00FF10");
}

#[test]
fn named_status_code_is_the_hex_of_its_byte() {
    for byte in [0x00u8, 0x01, 0x02, 0x08, 0x09, 0x0B] {
        assert_eq!(decode_remote_status(vec![byte]).code(), hex_string(&vec![byte]));
    }
}

#[test]
fn remote_status_clone_is_equal() {
    let status = DeviceRemoteStatus::Unknown(vec![1, 2, 3]);
    assert_eq!(status.clone(), status);
    assert_eq!(DeviceRemoteStatus::Active.clone(), DeviceRemoteStatus::Active);
}

#[test]
fn local_status_labels() {
    assert_eq!(DeviceLocalStatus::Initializing.label(), "INITIALIZING");
    assert_eq!(DeviceLocalStatus::Disconnected.label(), "DISCONNECTED");
    assert_eq!(DeviceLocalStatus::Connected.label(), "CONNECTED");
    assert_eq!(DeviceLocalStatus::Ignored.label(), "IGNORED");
    assert_eq!(DeviceLocalStatus::FailConnection.label(), "FAIL_CONNECTION");
    assert_eq!(DeviceLocalStatus::FailVerify.label(), "FAIL_VERIFY");
    assert_eq!(DeviceLocalStatus::Error("radio off".to_string()).label(), "radio off");
}

#[test]
fn local_status_clone_is_equal() {
    let status = DeviceLocalStatus::Error("boom".to_string());
    assert_eq!(status.clone(), status);
}

#[test]
fn power_status_decodes_four_steps() {
    assert_eq!(DevicePowerStatus::from(vec![0]), DevicePowerStatus::PoweredOff);
    assert_eq!(DevicePowerStatus::from(vec![1]), DevicePowerStatus::PowerInitiated);
    assert_eq!(DevicePowerStatus::from(vec![9]), DevicePowerStatus::PowerPending);
    assert_eq!(DevicePowerStatus::from(vec![11]), DevicePowerStatus::PoweredOn);
    assert_eq!(DevicePowerStatus::from(vec![2]), DevicePowerStatus::Unknown(vec![2]));
    assert_eq!(DevicePowerStatus::from(vec![8]), DevicePowerStatus::Unknown(vec![8]));
    assert_eq!(DevicePowerStatus::from(vec![]), DevicePowerStatus::Unknown(vec![]));
    assert_eq!(DevicePowerStatus::from_bytes(vec![11, 0]), DevicePowerStatus::Unknown(vec![11, 0]));
}

#[test]
fn power_status_codes() {
    assert_eq!(DevicePowerStatus::Loading.code(), "LOADING");
    assert_eq!(DevicePowerStatus::Error("x".to_string()).code(), "ERROR");
    assert_eq!(DevicePowerStatus::PoweredOn.code(), "POWERED_ON");
    assert_eq!(DevicePowerStatus::PoweredOff.code(), "POWERED_OFF");
    assert_eq!(DevicePowerStatus::PowerPending.code(), "POWER_PENDING");
    assert_eq!(DevicePowerStatus::PowerInitiated.code(), "POWER_INITIATED");
    assert_eq!(DevicePowerStatus::Unknown(vec![7]).code(), "POWER_UNKNOWN");
}

#[test]
fn power_status_detail() {
    assert_eq!(DevicePowerStatus::Loading.detail(), None);
    assert_eq!(DevicePowerStatus::PoweredOn.detail(), None);
    assert_eq!(
        DevicePowerStatus::Error("no radio".to_string()).detail(),
        Some("no radio".to_string())
    );
    assert_eq!(DevicePowerStatus::Unknown(vec![1, 2]).detail(), Some("[1, 2]".to_string()));
    assert_eq!(DevicePowerStatus::Unknown(vec![]).detail(), Some("[]".to_string()));
    assert_eq!(DevicePowerStatus::Unknown(vec![255]).detail(), Some("[255]".to_string()));
}

#[test]
fn error_messages() {
    assert_eq!(
        Error::AdapterUnavailable(AdapterFault::SessionFailed).message(),
        "Failed to create bluetooth session!"
    );
    assert_eq!(
        Error::AdapterUnavailable(AdapterFault::AccessFailed).message(),
        "Could not access bluetooth adapter!"
    );
    assert_eq!(
        Error::AdapterUnavailable(AdapterFault::NoneAvailable).message(),
        "No bluetooth adapter available!"
    );
    assert_eq!(Error::ConnectionFailed.message(), "Could not connect to device!");
    assert_eq!(
        Error::ProtocolVerificationFailed(MissingPart::Service).message(),
        "Could not verify power service!"
    );
    assert_eq!(
        Error::ProtocolVerificationFailed(MissingPart::Characteristic).message(),
        "Could not verify power characteristic!"
    );
    assert_eq!(Error::TransportError.message(), "Bluetooth transfer failed!");
    assert_eq!(Error::ChannelClosed.message(), "Channel closed early, cannot send event!");
    assert_eq!(Error::DeviceNotFound.message(), "Device not found");
}

#[test]
fn only_a_missing_adapter_is_fatal() {
    assert!(Error::AdapterUnavailable(AdapterFault::NoneAvailable).is_fatal());
    assert!(Error::AdapterUnavailable(AdapterFault::SessionFailed).is_fatal());
    assert!(!Error::ConnectionFailed.is_fatal());
    assert!(!Error::ProtocolVerificationFailed(MissingPart::Service).is_fatal());
    assert!(!Error::TransportError.is_fatal());
    assert!(!Error::ChannelClosed.is_fatal());
    assert!(!Error::DeviceNotFound.is_fatal());
}

#[test]
fn the_first_adapter_is_selected() {
    assert_eq!(select_adapter(1), Ok(0));
    assert_eq!(select_adapter(3), Ok(0));
    assert_eq!(
        select_adapter(0),
        Err(Error::AdapterUnavailable(AdapterFault::NoneAvailable))
    );
}
