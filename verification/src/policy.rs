//! Which reported states end a power command.

use crate::constants::DEFAULT_NOTIFICATION_WAIT_SECS;
use crate::dto::{DeviceCommand, DeviceRemoteStatus, RemoteStatusView};
use vstd::prelude::*;

verus! {

/// A set of remote statuses. `Unavailable` is in no set: no device reports it.
#[derive(Clone, Copy, Debug, PartialEq, Eq, Structural)]
pub struct StatusSet {
    pub stopped: bool,
    pub initiated: bool,
    pub standby: bool,
    pub acknowledged: bool,
    pub spinup: bool,
    pub active: bool,
    pub unknown: bool,
}

impl StatusSet {
    /// Whether the set holds a status.
    pub open spec fn holds(self, status: RemoteStatusView) -> bool {
        match status {
            RemoteStatusView::Unavailable => false,
            RemoteStatusView::Stopped => self.stopped,
            RemoteStatusView::Initiated => self.initiated,
            RemoteStatusView::Standby => self.standby,
            RemoteStatusView::Acknowledged => self.acknowledged,
            RemoteStatusView::Spinup => self.spinup,
            RemoteStatusView::Active => self.active,
            RemoteStatusView::Unknown(_) => self.unknown,
        }
    }

    /// The set without members.
    pub open spec fn nothing() -> StatusSet {
        StatusSet {
            stopped: false,
            initiated: false,
            standby: false,
            acknowledged: false,
            spinup: false,
            active: false,
            unknown: false,
        }
    }

    /// The set without members.
    pub fn empty() -> (set: Self)
        ensures
            set == StatusSet::nothing(),
    {
        StatusSet {
            stopped: false,
            initiated: false,
            standby: false,
            acknowledged: false,
            spinup: false,
            active: false,
            unknown: false,
        }
    }

    /// Whether the set holds a status.
    pub fn contains(&self, status: &DeviceRemoteStatus) -> (member: bool)
        ensures
            member == self.holds(status@),
    {
        match status {
            DeviceRemoteStatus::Unavailable => false,
            DeviceRemoteStatus::Stopped => self.stopped,
            DeviceRemoteStatus::Initiated => self.initiated,
            DeviceRemoteStatus::Standby => self.standby,
            DeviceRemoteStatus::Acknowledged => self.acknowledged,
            DeviceRemoteStatus::Spinup => self.spinup,
            DeviceRemoteStatus::Active => self.active,
            DeviceRemoteStatus::Unknown(_) => self.unknown,
        }
    }
}

/// For each command the statuses that end it, and how long to wait for the next
/// notification before giving up.
#[derive(Clone, Copy, Debug, PartialEq, Eq, Structural)]
pub struct TerminalPolicy {
    pub sleep: StatusSet,
    pub activate: StatusSet,
    pub standby: StatusSet,
    pub wait_secs: u64,
}

impl TerminalPolicy {
    /// The statuses that end a command.
    pub open spec fn terminal_set(self, command: DeviceCommand) -> StatusSet {
        match command {
            DeviceCommand::Sleep => self.sleep,
            DeviceCommand::Activate => self.activate,
            DeviceCommand::Standby => self.standby,
        }
    }

    /// Whether a status ends a command.
    pub open spec fn ends(self, command: DeviceCommand, status: RemoteStatusView) -> bool {
        self.terminal_set(command).holds(status)
    }

    /// The policy under which each command ends on the state it asks for.
    pub open spec fn own_state() -> TerminalPolicy {
        TerminalPolicy {
            sleep: StatusSet { stopped: true, ..StatusSet::nothing() },
            activate: StatusSet { active: true, ..StatusSet::nothing() },
            standby: StatusSet { standby: true, ..StatusSet::nothing() },
            wait_secs: DEFAULT_NOTIFICATION_WAIT_SECS,
        }
    }

    /// The policy under which every command ends on any state of rest.
    pub open spec fn resting_state() -> TerminalPolicy {
        let resting = StatusSet { stopped: true, standby: true, active: true, ..StatusSet::nothing() };
        TerminalPolicy {
            sleep: resting,
            activate: resting,
            standby: resting,
            wait_secs: DEFAULT_NOTIFICATION_WAIT_SECS,
        }
    }

    /// Each command ends on the state it asks for: `Sleep` on `Stopped`,
    /// `Activate` on `Active`, `Standby` on `Standby`.
    pub fn per_command() -> (policy: Self)
        ensures
            policy == TerminalPolicy::own_state(),
            forall|command: DeviceCommand, status: RemoteStatusView|
                #[trigger] policy.ends(command, status) <==> (match command {
                    DeviceCommand::Sleep => status is Stopped,
                    DeviceCommand::Activate => status is Active,
                    DeviceCommand::Standby => status is Standby,
                }),
    {
        let none = StatusSet::empty();
        TerminalPolicy {
            sleep: StatusSet { stopped: true, ..none },
            activate: StatusSet { active: true, ..none },
            standby: StatusSet { standby: true, ..none },
            wait_secs: DEFAULT_NOTIFICATION_WAIT_SECS,
        }
    }

    /// Every command ends on any state in which a device rests: `Stopped`,
    /// `Standby` or `Active`.
    pub fn any_resting_state() -> (policy: Self)
        ensures
            policy == TerminalPolicy::resting_state(),
            forall|command: DeviceCommand, status: RemoteStatusView|
                #[trigger] policy.ends(command, status) <==> (status is Stopped || status is Standby
                    || status is Active),
    {
        let none = StatusSet::empty();
        let resting = StatusSet { stopped: true, standby: true, active: true, ..none };
        TerminalPolicy {
            sleep: resting,
            activate: resting,
            standby: resting,
            wait_secs: DEFAULT_NOTIFICATION_WAIT_SECS,
        }
    }

    /// Whether a status ends a command.
    pub fn is_terminal(&self, command: DeviceCommand, status: &DeviceRemoteStatus) -> (terminal: bool)
        ensures
            terminal == self.ends(command, status@),
    {
        match command {
            DeviceCommand::Sleep => self.sleep.contains(status),
            DeviceCommand::Activate => self.activate.contains(status),
            DeviceCommand::Standby => self.standby.contains(status),
        }
    }
}

impl Default for TerminalPolicy {
    fn default() -> (policy: Self)
        ensures
            policy == TerminalPolicy::own_state(),
    {
        TerminalPolicy::per_command()
    }
}

} // verus!
