//! What can go wrong, and the text shown for it.

use vstd::prelude::*;

verus! {

/// Why no adapter could be used.
#[derive(Clone, Copy, Debug, PartialEq, Eq, Structural)]
pub enum AdapterFault {
    /// The Bluetooth session could not be created.
    SessionFailed,
    /// The session exists, but its adapters could not be listed.
    AccessFailed,
    /// The host has no adapter.
    NoneAvailable,
}

/// Which part of the vendor protocol a peripheral lacks.
#[derive(Clone, Copy, Debug, PartialEq, Eq, Structural)]
pub enum MissingPart {
    Service,
    Characteristic,
}

/// Failures of the engine. Only `AdapterUnavailable` ends a session; the others
/// concern one device and are reported while the rest goes on.
#[derive(Clone, Copy, Debug, PartialEq, Eq, Structural)]
pub enum Error {
    AdapterUnavailable(AdapterFault),
    ConnectionFailed,
    ProtocolVerificationFailed(MissingPart),
    TransportError,
    ChannelClosed,
    DeviceNotFound,
}

/// The text of an error.
pub open spec fn error_message(error: Error) -> Seq<char> {
    match error {
        Error::AdapterUnavailable(AdapterFault::SessionFailed) => {
            "Failed to create bluetooth session!"@
        },
        Error::AdapterUnavailable(AdapterFault::AccessFailed) => {
            "Could not access bluetooth adapter!"@
        },
        Error::AdapterUnavailable(AdapterFault::NoneAvailable) => {
            "No bluetooth adapter available!"@
        },
        Error::ConnectionFailed => "Could not connect to device!"@,
        Error::ProtocolVerificationFailed(MissingPart::Service) => {
            "Could not verify power service!"@
        },
        Error::ProtocolVerificationFailed(MissingPart::Characteristic) => {
            "Could not verify power characteristic!"@
        },
        Error::TransportError => "Bluetooth transfer failed!"@,
        Error::ChannelClosed => "Channel closed early, cannot send event!"@,
        Error::DeviceNotFound => "Device not found"@,
    }
}

impl Error {
    /// The text shown for this error.
    pub fn message(&self) -> (text: String)
        ensures
            text@ == error_message(*self),
    {
        match self {
            Error::AdapterUnavailable(AdapterFault::SessionFailed) => {
                "Failed to create bluetooth session!".to_string()
            },
            Error::AdapterUnavailable(AdapterFault::AccessFailed) => {
                "Could not access bluetooth adapter!".to_string()
            },
            Error::AdapterUnavailable(AdapterFault::NoneAvailable) => {
                "No bluetooth adapter available!".to_string()
            },
            Error::ConnectionFailed => "Could not connect to device!".to_string(),
            Error::ProtocolVerificationFailed(MissingPart::Service) => {
                "Could not verify power service!".to_string()
            },
            Error::ProtocolVerificationFailed(MissingPart::Characteristic) => {
                "Could not verify power characteristic!".to_string()
            },
            Error::TransportError => "Bluetooth transfer failed!".to_string(),
            Error::ChannelClosed => "Channel closed early, cannot send event!".to_string(),
            Error::DeviceNotFound => "Device not found".to_string(),
        }
    }

    /// Whether the error ends the whole session instead of one device's task.
    pub fn is_fatal(&self) -> (fatal: bool)
        ensures
            fatal <==> *self is AdapterUnavailable,
    {
        match self {
            Error::AdapterUnavailable(_) => true,
            _ => false,
        }
    }
}

/// Picks the adapter to use among `available` enumerated ones: the first. With
/// none, no session can start.
pub fn select_adapter(available: usize) -> (choice: Result<usize, Error>)
    ensures
        available > 0 ==> choice == Ok::<usize, Error>(0),
        available == 0 ==> choice == Err::<usize, Error>(
            Error::AdapterUnavailable(AdapterFault::NoneAvailable),
        ),
{
    if available > 0 {
        Ok(0)
    } else {
        Err(Error::AdapterUnavailable(AdapterFault::NoneAvailable))
    }
}

} // verus!
