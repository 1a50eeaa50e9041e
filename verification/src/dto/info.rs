//! The message that reports one change of one device to the consumer.

use crate::device::{Device, DeviceIdentity, DeviceView};
use crate::dto::{DeviceLocalStatus, DeviceRemoteStatus, LocalStatusView, RemoteStatusView};
use vstd::prelude::*;
use vstd::string::*;

verus! {

/// A snapshot of a device with the status that changed. A message carries a
/// local status, a remote status, or both.
#[derive(Debug, PartialEq, Eq)]
pub struct DeviceInfo {
    pub id: DeviceIdentity,
    pub addr: String,
    pub name: String,
    pub local: Option<DeviceLocalStatus>,
    pub remote: Option<DeviceRemoteStatus>,
}

/// Mathematical form of a [`DeviceInfo`].
pub struct DeviceInfoView {
    pub id: DeviceIdentity,
    pub addr: Seq<char>,
    pub name: Seq<char>,
    pub local: Option<LocalStatusView>,
    pub remote: Option<RemoteStatusView>,
}

impl View for DeviceInfo {
    type V = DeviceInfoView;

    open spec fn view(&self) -> DeviceInfoView {
        DeviceInfoView {
            id: self.id,
            addr: self.addr@,
            name: self.name@,
            local: match self.local {
                Some(status) => Some(status@),
                None => None,
            },
            remote: match self.remote {
                Some(status) => Some(status@),
                None => None,
            },
        }
    }
}

/// The message that reports both statuses of a device.
pub open spec fn statuses_info(
    device: DeviceView,
    local: LocalStatusView,
    remote: RemoteStatusView,
) -> DeviceInfoView {
    DeviceInfoView {
        id: device.id,
        addr: device.address,
        name: device.name,
        local: Some(local),
        remote: Some(remote),
    }
}

/// The message that reports a local status of a device.
pub open spec fn local_info(device: DeviceView, status: LocalStatusView) -> DeviceInfoView {
    DeviceInfoView {
        id: device.id,
        addr: device.address,
        name: device.name,
        local: Some(status),
        remote: None,
    }
}

/// The message that reports a remote status of a device.
pub open spec fn remote_info(device: DeviceView, status: RemoteStatusView) -> DeviceInfoView {
    DeviceInfoView {
        id: device.id,
        addr: device.address,
        name: device.name,
        local: None,
        remote: Some(status),
    }
}

/// The name under which a filtered-out peripheral is reported: its own where it
/// advertises one, else its address in square brackets.
pub open spec fn display_name(addr: Seq<char>, name: Option<Seq<char>>) -> Seq<char> {
    match name {
        Some(name) => name,
        None => seq!['['] + addr + seq![']'],
    }
}

/// The message that reports a peripheral as filtered out.
pub open spec fn ignored_info(
    id: DeviceIdentity,
    addr: Seq<char>,
    name: Option<Seq<char>>,
) -> DeviceInfoView {
    DeviceInfoView {
        id,
        addr,
        name: display_name(addr, name),
        local: Some(LocalStatusView::Ignored),
        remote: None,
    }
}

/// What every message of the engine satisfies: it reports at least one status,
/// and a filtered-out peripheral has no remote status.
pub open spec fn is_report(info: DeviceInfoView) -> bool {
    &&& info.local is Some || info.remote is Some
    &&& info.local == Some(LocalStatusView::Ignored) ==> info.remote is None
}

impl DeviceInfo {
    /// Reports both statuses of a device.
    pub fn from_device_statuses(
        device: &Device,
        local: DeviceLocalStatus,
        remote: DeviceRemoteStatus,
    ) -> (info: Self)
        ensures
            info@ == statuses_info(device@, local@, remote@),
    {
        DeviceInfo {
            id: device.id(),
            addr: device.address(),
            name: device.name().to_string(),
            local: Some(local),
            remote: Some(remote),
        }
    }

    /// Reports a local status of a device.
    pub fn from_device_local_status(device: &Device, status: DeviceLocalStatus) -> (info: Self)
        ensures
            info@ == local_info(device@, status@),
            is_report(info@),
    {
        DeviceInfo {
            id: device.id(),
            addr: device.address(),
            name: device.name().to_string(),
            local: Some(status),
            remote: None,
        }
    }

    /// Reports a remote status of a device.
    pub fn from_device_remote_status(device: &Device, status: DeviceRemoteStatus) -> (info: Self)
        ensures
            info@ == remote_info(device@, status@),
            is_report(info@),
    {
        DeviceInfo {
            id: device.id(),
            addr: device.address(),
            name: device.name().to_string(),
            local: None,
            remote: Some(status),
        }
    }

    /// Reports a peripheral that the name filter turned away.
    pub fn ignored(id: DeviceIdentity, addr: String, name: Option<String>) -> (info: Self)
        ensures
            info@ == ignored_info(
                id,
                addr@,
                match name {
                    Some(name) => Some(name@),
                    None => None,
                },
            ),
            is_report(info@),
    {
        let shown = match name {
            Some(name) => name,
            None => {
                proof {
                    reveal_strlit("[");
                    reveal_strlit("]");
                }
                let mut shown = "[".to_string();
                shown.append(addr.as_str());
                shown.append("]");
                assert(shown@ =~= seq!['['] + addr@ + seq![']']);
                shown
            },
        };
        DeviceInfo { id, addr, name: shown, local: Some(DeviceLocalStatus::Ignored), remote: None }
    }
}

impl Clone for DeviceInfo {
    fn clone(&self) -> (copy: Self)
        ensures
            copy@ == self@,
    {
        DeviceInfo {
            id: self.id,
            addr: self.addr.clone(),
            name: self.name.clone(),
            local: match &self.local {
                Some(status) => Some(status.clone()),
                None => None,
            },
            remote: match &self.remote {
                Some(status) => Some(status.clone()),
                None => None,
            },
        }
    }
}

/// Builds a message from a device and one status of either kind.
pub trait FromDeviceStatus<T>: Sized {
    fn from_device_status(device: &Device, status: T) -> Self;
}

impl FromDeviceStatus<DeviceLocalStatus> for DeviceInfo {
    fn from_device_status(device: &Device, status: DeviceLocalStatus) -> (info: Self)
        ensures
            info@ == local_info(device@, status@),
    {
        DeviceInfo::from_device_local_status(device, status)
    }
}

impl FromDeviceStatus<DeviceRemoteStatus> for DeviceInfo {
    fn from_device_status(device: &Device, status: DeviceRemoteStatus) -> (info: Self)
        ensures
            info@ == remote_info(device@, status@),
    {
        DeviceInfo::from_device_remote_status(device, status)
    }
}

} // verus!
