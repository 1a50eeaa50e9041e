//! One discovered peripheral as the engine knows it.

use crate::dto::{DeviceLocalStatus, DeviceRemoteStatus, LocalStatusView, RemoteStatusView};
use crate::error::Error;
use crate::gatt::{
    assert_power_characteristic, resolved_characteristic, GattCharacteristic, GattService,
};
use vstd::prelude::*;

verus! {

/// The identity of a peripheral: the handle under which the adapter knows it for
/// the length of a session, and the key of the registry. It says nothing of the
/// peripheral and does not outlive the session.
pub type DeviceIdentity = u64;

/// A managed peripheral: who it is, what it last reported, and the handle of its
/// power characteristic while a connection lasts.
#[derive(Debug, PartialEq, Eq)]
pub struct Device {
    id: DeviceIdentity,
    address: String,
    name: String,
    local: DeviceLocalStatus,
    remote: DeviceRemoteStatus,
    characteristic: Option<GattCharacteristic>,
}

/// Mathematical form of a [`Device`].
pub struct DeviceView {
    pub id: DeviceIdentity,
    pub address: Seq<char>,
    pub name: Seq<char>,
    pub local: LocalStatusView,
    pub remote: RemoteStatusView,
    pub characteristic: Option<GattCharacteristic>,
}

impl View for Device {
    type V = DeviceView;

    closed spec fn view(&self) -> DeviceView {
        DeviceView {
            id: self.id,
            address: self.address@,
            name: self.name@,
            local: self.local@,
            remote: self.remote@,
            characteristic: self.characteristic,
        }
    }
}

/// A device that has just been discovered: nothing is known of it but its
/// identity, address and name.
pub open spec fn fresh_device(
    id: DeviceIdentity,
    address: Seq<char>,
    name: Seq<char>,
) -> DeviceView {
    DeviceView {
        id,
        address,
        name,
        local: LocalStatusView::Initializing,
        remote: RemoteStatusView::Unavailable,
        characteristic: None,
    }
}

impl Device {
    /// A newly discovered device.
    pub fn new(id: DeviceIdentity, address: String, name: String) -> (device: Self)
        ensures
            device@ == fresh_device(id, address@, name@),
    {
        Device {
            id,
            address,
            name,
            local: DeviceLocalStatus::Initializing,
            remote: DeviceRemoteStatus::Unavailable,
            characteristic: None,
        }
    }

    /// The identity under which the adapter knows the peripheral.
    pub fn id(&self) -> (id: DeviceIdentity)
        ensures
            id == self@.id,
    {
        self.id
    }

    /// The address of the peripheral, as text.
    pub fn address(&self) -> (address: String)
        ensures
            address@ == self@.address,
    {
        self.address.clone()
    }

    /// The advertised name.
    pub fn name(&self) -> (name: &str)
        ensures
            name@ == self@.name,
    {
        self.name.as_str()
    }

    /// The statuses last recorded for the device.
    pub fn get_last_statuses(&self) -> (statuses: (DeviceLocalStatus, DeviceRemoteStatus))
        ensures
            statuses.0@ == self@.local,
            statuses.1@ == self@.remote,
    {
        (self.local.clone(), self.remote.clone())
    }

    /// The handle resolved during the current connection, if any.
    pub fn cached_characteristic(&self) -> (cached: Option<GattCharacteristic>)
        ensures
            cached == self@.characteristic,
    {
        self.characteristic
    }

    /// Records a new local status.
    pub fn record_local_status(&mut self, status: DeviceLocalStatus)
        ensures
            final(self)@ == (DeviceView { local: status@, ..old(self)@ }),
    {
        self.local = status;
    }

    /// Records a new remote status.
    pub fn record_remote_status(&mut self, status: DeviceRemoteStatus)
        ensures
            final(self)@ == (DeviceView { remote: status@, ..old(self)@ }),
    {
        self.remote = status;
    }

    /// Keeps the handle of the power characteristic for the rest of the
    /// connection.
    pub fn cache_characteristic(&mut self, characteristic: GattCharacteristic)
        ensures
            final(self)@ == (DeviceView { characteristic: Some(characteristic), ..old(self)@ }),
    {
        self.characteristic = Some(characteristic);
    }

    /// Resolves the power characteristic. A handle held from earlier in the
    /// connection is returned as it is. Otherwise the handle is looked for among
    /// `services`, which the peripheral has just listed, and kept if found.
    pub fn get_power_characteristic(&mut self, services: &Vec<GattService>) -> (found: Result<
        GattCharacteristic,
        Error,
    >)
        ensures
            found == resolved_characteristic(old(self)@.characteristic, services@),
            final(self)@ == (DeviceView {
                characteristic: match found {
                    Ok(characteristic) => Some(characteristic),
                    Err(_) => None,
                },
                ..old(self)@
            }),
    {
        match self.characteristic {
            Some(characteristic) => Ok(characteristic),
            None => {
                let found = assert_power_characteristic(services);
                if let Ok(characteristic) = found {
                    self.characteristic = Some(characteristic);
                }
                found
            },
        }
    }

    /// Drops the handle: it does not outlive the connection it was resolved in.
    pub fn forget_characteristic(&mut self)
        ensures
            final(self)@ == (DeviceView { characteristic: None, ..old(self)@ }),
    {
        self.characteristic = None;
    }
}

impl Clone for Device {
    fn clone(&self) -> (copy: Self)
        ensures
            copy@ == self@,
    {
        Device {
            id: self.id,
            address: self.address.clone(),
            name: self.name.clone(),
            local: self.local.clone(),
            remote: self.remote.clone(),
            characteristic: self.characteristic,
        }
    }
}

} // verus!
