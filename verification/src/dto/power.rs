//! The power state of a device in four steps, with the code and detail under
//! which a front end receives it.

use vstd::prelude::*;

verus! {

/// Power state of a device in four steps, or what stands in for it.
#[derive(Debug, PartialEq, Eq)]
pub enum DevicePowerStatus {
    Loading,
    Error(String),
    PoweredOn,
    PoweredOff,
    PowerPending,
    PowerInitiated,
    Unknown(Vec<u8>),
}

/// Mathematical form of a [`DevicePowerStatus`].
pub enum PowerStatusView {
    Loading,
    Error(Seq<char>),
    PoweredOn,
    PoweredOff,
    PowerPending,
    PowerInitiated,
    Unknown(Seq<u8>),
}

impl View for DevicePowerStatus {
    type V = PowerStatusView;

    open spec fn view(&self) -> PowerStatusView {
        match self {
            DevicePowerStatus::Loading => PowerStatusView::Loading,
            DevicePowerStatus::Error(message) => PowerStatusView::Error(message@),
            DevicePowerStatus::PoweredOn => PowerStatusView::PoweredOn,
            DevicePowerStatus::PoweredOff => PowerStatusView::PoweredOff,
            DevicePowerStatus::PowerPending => PowerStatusView::PowerPending,
            DevicePowerStatus::PowerInitiated => PowerStatusView::PowerInitiated,
            DevicePowerStatus::Unknown(bytes) => PowerStatusView::Unknown(bytes@),
        }
    }
}

/// What a payload of the power characteristic means in four steps. The bytes
/// `0x02` and `0x08` have no step of their own and stay unknown.
pub open spec fn decoded_power(bytes: Seq<u8>) -> PowerStatusView {
    if bytes.len() != 1 {
        PowerStatusView::Unknown(bytes)
    } else if bytes[0] == 0 {
        PowerStatusView::PoweredOff
    } else if bytes[0] == 1 {
        PowerStatusView::PowerInitiated
    } else if bytes[0] == 9 {
        PowerStatusView::PowerPending
    } else if bytes[0] == 11 {
        PowerStatusView::PoweredOn
    } else {
        PowerStatusView::Unknown(bytes)
    }
}

/// The code under which a status is sent to a front end.
pub open spec fn power_code(status: PowerStatusView) -> Seq<char> {
    match status {
        PowerStatusView::Loading => "LOADING"@,
        PowerStatusView::Error(_) => "ERROR"@,
        PowerStatusView::PoweredOn => "POWERED_ON"@,
        PowerStatusView::PoweredOff => "POWERED_OFF"@,
        PowerStatusView::PowerPending => "POWER_PENDING"@,
        PowerStatusView::PowerInitiated => "POWER_INITIATED"@,
        PowerStatusView::Unknown(_) => "POWER_UNKNOWN"@,
    }
}

/// The text in which the standard library shows a vector of bytes for
/// debugging.
pub uninterp spec fn debug_text(bytes: Seq<u8>) -> Seq<char>;

/// The detail that goes with a status: the message of an error, the bytes of an
/// unknown payload as the standard library shows them, else none.
pub open spec fn power_detail(status: PowerStatusView) -> Option<Seq<char>> {
    match status {
        PowerStatusView::Error(message) => Some(message),
        PowerStatusView::Unknown(bytes) => Some(debug_text(bytes)),
        _ => None,
    }
}

/// Calls the standard library's `format!` with `{:?}` on a vector of bytes.
/// Trusted: the text is a function of the bytes alone, and is given the name
/// [`debug_text`]. Nothing else is claimed of it.
#[verifier::external_body]
fn debug_bytes(bytes: &Vec<u8>) -> (text: String)
    ensures
        text@ == debug_text(bytes@),
{
    format!("{bytes:?}")
}

impl DevicePowerStatus {
    /// Decodes a payload of the power characteristic.
    pub fn from_bytes(bytes: Vec<u8>) -> (status: Self)
        ensures
            status@ == decoded_power(bytes@),
            status == decoded_power_status(bytes),
    {
        if bytes.len() != 1 {
            return DevicePowerStatus::Unknown(bytes);
        }
        match bytes[0] {
            0 => DevicePowerStatus::PoweredOff,
            1 => DevicePowerStatus::PowerInitiated,
            9 => DevicePowerStatus::PowerPending,
            11 => DevicePowerStatus::PoweredOn,
            _ => DevicePowerStatus::Unknown(bytes),
        }
    }

    /// The code under which this status is sent to a front end.
    pub fn code(&self) -> (text: String)
        ensures
            text@ == power_code(self@),
    {
        match self {
            DevicePowerStatus::Loading => "LOADING".to_string(),
            DevicePowerStatus::Error(_) => "ERROR".to_string(),
            DevicePowerStatus::PoweredOn => "POWERED_ON".to_string(),
            DevicePowerStatus::PoweredOff => "POWERED_OFF".to_string(),
            DevicePowerStatus::PowerPending => "POWER_PENDING".to_string(),
            DevicePowerStatus::PowerInitiated => "POWER_INITIATED".to_string(),
            DevicePowerStatus::Unknown(_) => "POWER_UNKNOWN".to_string(),
        }
    }

    /// The detail that goes with this status.
    pub fn detail(&self) -> (text: Option<String>)
        ensures
            match power_detail(self@) {
                Some(detail) => text matches Some(given) && given@ == detail,
                None => text is None,
            },
    {
        match self {
            DevicePowerStatus::Error(message) => Some(message.clone()),
            DevicePowerStatus::Unknown(bytes) => Some(debug_bytes(bytes)),
            _ => None,
        }
    }
}

/// The status that a payload decodes to, holding the payload itself where it is
/// unknown.
pub open spec fn decoded_power_status(value: Vec<u8>) -> DevicePowerStatus {
    if value@.len() != 1 {
        DevicePowerStatus::Unknown(value)
    } else if value@[0] == 0 {
        DevicePowerStatus::PoweredOff
    } else if value@[0] == 1 {
        DevicePowerStatus::PowerInitiated
    } else if value@[0] == 9 {
        DevicePowerStatus::PowerPending
    } else if value@[0] == 11 {
        DevicePowerStatus::PoweredOn
    } else {
        DevicePowerStatus::Unknown(value)
    }
}

impl From<Vec<u8>> for DevicePowerStatus {
    /// Decodes a payload, as [`DevicePowerStatus::from_bytes`] does.
    fn from(value: Vec<u8>) -> (status: Self) {
        DevicePowerStatus::from_bytes(value)
    }
}

impl vstd::std_specs::convert::FromSpecImpl<Vec<u8>> for DevicePowerStatus {
    open spec fn obeys_from_spec() -> bool {
        true
    }

    open spec fn from_spec(value: Vec<u8>) -> Self {
        decoded_power_status(value)
    }
}

impl Clone for DevicePowerStatus {
    fn clone(&self) -> (copy: Self)
        ensures
            copy@ == self@,
    {
        match self {
            DevicePowerStatus::Loading => DevicePowerStatus::Loading,
            DevicePowerStatus::Error(message) => DevicePowerStatus::Error(message.clone()),
            DevicePowerStatus::PoweredOn => DevicePowerStatus::PoweredOn,
            DevicePowerStatus::PoweredOff => DevicePowerStatus::PoweredOff,
            DevicePowerStatus::PowerPending => DevicePowerStatus::PowerPending,
            DevicePowerStatus::PowerInitiated => DevicePowerStatus::PowerInitiated,
            DevicePowerStatus::Unknown(bytes) => DevicePowerStatus::Unknown(bytes.clone()),
        }
    }
}

} // verus!
