//! The engine's own view of the connection lifecycle of a device.

use vstd::prelude::*;

verus! {

/// Where the engine stands with a device. A device passes through these states
/// once per connection attempt, and may do so many times.
#[derive(Debug, PartialEq, Eq)]
pub enum DeviceLocalStatus {
    Initializing,
    Disconnected,
    Connected,
    /// The peripheral was seen and filtered out by its name.
    Ignored,
    FailConnection,
    FailVerify,
    Error(String),
}

/// Mathematical form of a [`DeviceLocalStatus`].
pub enum LocalStatusView {
    Initializing,
    Disconnected,
    Connected,
    Ignored,
    FailConnection,
    FailVerify,
    Error(Seq<char>),
}

impl View for DeviceLocalStatus {
    type V = LocalStatusView;

    open spec fn view(&self) -> LocalStatusView {
        match self {
            DeviceLocalStatus::Initializing => LocalStatusView::Initializing,
            DeviceLocalStatus::Disconnected => LocalStatusView::Disconnected,
            DeviceLocalStatus::Connected => LocalStatusView::Connected,
            DeviceLocalStatus::Ignored => LocalStatusView::Ignored,
            DeviceLocalStatus::FailConnection => LocalStatusView::FailConnection,
            DeviceLocalStatus::FailVerify => LocalStatusView::FailVerify,
            DeviceLocalStatus::Error(message) => LocalStatusView::Error(message@),
        }
    }
}

/// The text shown for a local status: a fixed upper-case word, or the message of
/// an `Error`.
pub open spec fn local_label(status: LocalStatusView) -> Seq<char> {
    match status {
        LocalStatusView::Initializing => "INITIALIZING"@,
        LocalStatusView::Disconnected => "DISCONNECTED"@,
        LocalStatusView::Connected => "CONNECTED"@,
        LocalStatusView::Ignored => "IGNORED"@,
        LocalStatusView::FailConnection => "FAIL_CONNECTION"@,
        LocalStatusView::FailVerify => "FAIL_VERIFY"@,
        LocalStatusView::Error(message) => message,
    }
}

impl DeviceLocalStatus {
    /// The text shown for this status.
    pub fn label(&self) -> (text: String)
        ensures
            text@ == local_label(self@),
    {
        match self {
            DeviceLocalStatus::Initializing => "INITIALIZING".to_string(),
            DeviceLocalStatus::Disconnected => "DISCONNECTED".to_string(),
            DeviceLocalStatus::Connected => "CONNECTED".to_string(),
            DeviceLocalStatus::Ignored => "IGNORED".to_string(),
            DeviceLocalStatus::FailConnection => "FAIL_CONNECTION".to_string(),
            DeviceLocalStatus::FailVerify => "FAIL_VERIFY".to_string(),
            DeviceLocalStatus::Error(message) => message.clone(),
        }
    }
}

impl Clone for DeviceLocalStatus {
    fn clone(&self) -> (copy: Self)
        ensures
            copy@ == self@,
    {
        match self {
            DeviceLocalStatus::Initializing => DeviceLocalStatus::Initializing,
            DeviceLocalStatus::Disconnected => DeviceLocalStatus::Disconnected,
            DeviceLocalStatus::Connected => DeviceLocalStatus::Connected,
            DeviceLocalStatus::Ignored => DeviceLocalStatus::Ignored,
            DeviceLocalStatus::FailConnection => DeviceLocalStatus::FailConnection,
            DeviceLocalStatus::FailVerify => DeviceLocalStatus::FailVerify,
            DeviceLocalStatus::Error(message) => DeviceLocalStatus::Error(message.clone()),
        }
    }
}

} // verus!
