use vrlh_power_manager_core::{
    DeviceCommand, DeviceRemoteStatus, StatusPayload, StatusSet, TerminalPolicy,
};

fn every_status() -> Vec<DeviceRemoteStatus> {
    vec![
        DeviceRemoteStatus::Unavailable,
        DeviceRemoteStatus::Stopped,
        DeviceRemoteStatus::Initiated,
        DeviceRemoteStatus::Standby,
        DeviceRemoteStatus::Acknowledged,
        DeviceRemoteStatus::Spinup,
        DeviceRemoteStatus::Active,
        DeviceRemoteStatus::Unknown(vec![0x42]),
    ]
}

#[test]
fn the_empty_set_holds_nothing() {
    let set = StatusSet::empty();
    for status in every_status() {
        assert!(!set.contains(&status));
    }
}

#[test]
fn a_set_holds_what_is_switched_on() {
    let set = StatusSet { spinup: true, unknown: true, ..StatusSet::empty() };
    assert!(set.contains(&DeviceRemoteStatus::Spinup));
    assert!(set.contains(&DeviceRemoteStatus::Unknown(vec![])));
    assert!(!set.contains(&DeviceRemoteStatus::Active));
    assert!(!set.contains(&DeviceRemoteStatus::Unavailable));
}

#[test]
fn each_command_ends_on_its_own_state() {
    let policy = TerminalPolicy::per_command();
    for status in every_status() {
        assert_eq!(
            policy.is_terminal(DeviceCommand::Sleep, &status),
            status == DeviceRemoteStatus::Stopped
        );
        assert_eq!(
            policy.is_terminal(DeviceCommand::Activate, &status),
            status == DeviceRemoteStatus::Active
        );
        assert_eq!(
            policy.is_terminal(DeviceCommand::Standby, &status),
            status == DeviceRemoteStatus::Standby
        );
    }
    assert_eq!(policy.wait_secs, 30);
}

#[test]
fn the_default_policy_is_per_command() {
    assert_eq!(TerminalPolicy::default(), TerminalPolicy::per_command());
}

#[test]
fn resting_states_end_every_command() {
    let policy = TerminalPolicy::any_resting_state();
    for command in [DeviceCommand::Sleep, DeviceCommand::Activate, DeviceCommand::Standby] {
        for status in every_status() {
            let resting = matches!(
                status,
                DeviceRemoteStatus::Stopped | DeviceRemoteStatus::Standby | DeviceRemoteStatus::Active
            );
            assert_eq!(policy.is_terminal(command, &status), resting);
        }
    }
    assert_eq!(policy.wait_secs, 30);
}

#[test]
fn a_policy_can_be_set_per_command() {
    let mut policy = TerminalPolicy::per_command();
    policy.activate = StatusSet { active: true, unknown: true, ..StatusSet::empty() };
    assert!(policy.is_terminal(DeviceCommand::Activate, &DeviceRemoteStatus::Unknown(vec![1, 2])));
    assert!(!policy.is_terminal(DeviceCommand::Sleep, &DeviceRemoteStatus::Unknown(vec![1, 2])));
}

#[test]
fn status_lines() {
    assert_eq!(StatusPayload::new("hello".to_string()).message(), "hello");
    assert_eq!(StatusPayload::scanning().message(), "Scanning for lighthouses...");
    assert_eq!(StatusPayload::done_scanning().message(), "Done scanning for devices!");
    assert_eq!(
        StatusPayload::disconnecting().message(),
        "Disconnecting from current devices..."
    );
    assert_eq!(
        StatusPayload::sending(DeviceCommand::Activate, "LHB-base1").message(),
        "Sending \"ACTIVATE\" command to \"LHB-base1\""
    );
    assert_eq!(
        StatusPayload::finished(DeviceCommand::Sleep, "LHB-base1").message(),
        "Finished \"SLEEP\" for \"LHB-base1\""
    );
    let line = StatusPayload::sending(DeviceCommand::Standby, "");
    assert_eq!(line.clone(), line);
    assert_eq!(line.message(), "Sending \"STANDBY\" command to \"\"");
}
