//! Commanding a known device.
//!
//! The controller keeps no state. It looks the device up, starts the flow of the
//! command on a copy of it, and afterwards puts the device back with what the
//! flow has recorded.

use crate::device::DeviceIdentity;
use crate::device_list::{distinct_keys, entry_of, has_key, with_replaced, DeviceList};
use crate::dto::DeviceCommand;
use crate::error::Error;
use crate::flow::{initial_flow, DeviceFlow, FlowView, Purpose};
use crate::policy::TerminalPolicy;
use vstd::prelude::*;

verus! {

/// What a request to command the device under `id` comes to: the flow of the
/// command on the device as the registry knows it, or `DeviceNotFound`.
pub open spec fn commanded(
    found: Option<crate::device::DeviceView>,
    purpose: Purpose,
    policy: TerminalPolicy,
) -> Result<FlowView, Error> {
    match found {
        Some(device) => Ok(initial_flow(device, purpose, policy)),
        None => Err(Error::DeviceNotFound),
    }
}

/// The view of the outcome of a request.
pub open spec fn flow_result_view(result: Result<DeviceFlow, Error>) -> Result<FlowView, Error> {
    match result {
        Ok(flow) => Ok(flow@),
        Err(error) => Err(error),
    }
}

impl DeviceList {
    /// Starts a power command for the device known under `id`. A device must
    /// have been discovered before it can be commanded.
    pub fn power_set(
        &self,
        id: DeviceIdentity,
        command: DeviceCommand,
        policy: TerminalPolicy,
    ) -> (started: Result<DeviceFlow, Error>)
        ensures
            flow_result_view(started) == commanded(
                entry_of(self@, id),
                Purpose::Power(command),
                policy,
            ),
    {
        match self.get_device(id) {
            Some(device) => Ok(DeviceFlow::power_set(device, command, policy)),
            None => Err(Error::DeviceNotFound),
        }
    }

    /// Starts the command that wakes the device known under `id`.
    pub fn power_on(&self, id: DeviceIdentity) -> (started: Result<DeviceFlow, Error>)
        ensures
            flow_result_view(started) == commanded(
                entry_of(self@, id),
                Purpose::Power(DeviceCommand::Activate),
                TerminalPolicy::own_state(),
            ),
    {
        self.power_set(id, DeviceCommand::Activate, TerminalPolicy::per_command())
    }

    /// Starts the command that puts the device known under `id` to sleep.
    pub fn power_off(&self, id: DeviceIdentity) -> (started: Result<DeviceFlow, Error>)
        ensures
            flow_result_view(started) == commanded(
                entry_of(self@, id),
                Purpose::Power(DeviceCommand::Sleep),
                TerminalPolicy::own_state(),
            ),
    {
        self.power_set(id, DeviceCommand::Sleep, TerminalPolicy::per_command())
    }

    /// Starts the verification of the device known under `id` anew.
    pub fn fetch_remote_status(&self, id: DeviceIdentity) -> (started: Result<DeviceFlow, Error>)
        ensures
            flow_result_view(started) == commanded(
                entry_of(self@, id),
                Purpose::Verify,
                TerminalPolicy::own_state(),
            ),
    {
        match self.get_device(id) {
            Some(device) => Ok(DeviceFlow::verification(device)),
            None => Err(Error::DeviceNotFound),
        }
    }

    /// Puts the device of a flow back under `id`, with the statuses that the
    /// flow has recorded, and says whether the registry still knew the identity.
    pub fn settle(&mut self, id: DeviceIdentity, flow: DeviceFlow) -> (kept: bool)
        ensures
            kept <==> has_key(old(self)@, id),
            final(self)@ == with_replaced(old(self)@, id, flow@.device),
            distinct_keys(final(self)@),
    {
        self.replace(id, flow.into_device())
    }
}

} // verus!
