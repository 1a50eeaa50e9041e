//! The power state that a device reports, and its decoding from GATT bytes.

use crate::dto::command::command_byte;
use crate::dto::DeviceCommand;
use vstd::prelude::*;
use vstd::string::*;

verus! {

/// Power state reported by a device.
#[derive(Debug, PartialEq, Eq)]
pub enum DeviceRemoteStatus {
    /// No value has been read yet.
    Unavailable,
    Stopped,
    Initiated,
    Standby,
    Acknowledged,
    Spinup,
    Active,
    /// A payload that is not one of the six known single bytes.
    Unknown(Vec<u8>),
}

/// Mathematical form of a [`DeviceRemoteStatus`].
pub enum RemoteStatusView {
    Unavailable,
    Stopped,
    Initiated,
    Standby,
    Acknowledged,
    Spinup,
    Active,
    Unknown(Seq<u8>),
}

impl View for DeviceRemoteStatus {
    type V = RemoteStatusView;

    open spec fn view(&self) -> RemoteStatusView {
        match self {
            DeviceRemoteStatus::Unavailable => RemoteStatusView::Unavailable,
            DeviceRemoteStatus::Stopped => RemoteStatusView::Stopped,
            DeviceRemoteStatus::Initiated => RemoteStatusView::Initiated,
            DeviceRemoteStatus::Standby => RemoteStatusView::Standby,
            DeviceRemoteStatus::Acknowledged => RemoteStatusView::Acknowledged,
            DeviceRemoteStatus::Spinup => RemoteStatusView::Spinup,
            DeviceRemoteStatus::Active => RemoteStatusView::Active,
            DeviceRemoteStatus::Unknown(bytes) => RemoteStatusView::Unknown(bytes@),
        }
    }
}

/// What a payload read from the power characteristic means.
pub open spec fn decoded_status(bytes: Seq<u8>) -> RemoteStatusView {
    if bytes.len() != 1 {
        RemoteStatusView::Unknown(bytes)
    } else if bytes[0] == 0x00 {
        RemoteStatusView::Stopped
    } else if bytes[0] == 0x01 {
        RemoteStatusView::Initiated
    } else if bytes[0] == 0x02 {
        RemoteStatusView::Standby
    } else if bytes[0] == 0x08 {
        RemoteStatusView::Acknowledged
    } else if bytes[0] == 0x09 {
        RemoteStatusView::Spinup
    } else if bytes[0] == 0x0B {
        RemoteStatusView::Active
    } else {
        RemoteStatusView::Unknown(bytes)
    }
}

/// The status that a payload decodes to, holding the payload itself where it is
/// unknown.
pub open spec fn decoded(value: Vec<u8>) -> DeviceRemoteStatus {
    if value@.len() != 1 {
        DeviceRemoteStatus::Unknown(value)
    } else if value@[0] == 0x00 {
        DeviceRemoteStatus::Stopped
    } else if value@[0] == 0x01 {
        DeviceRemoteStatus::Initiated
    } else if value@[0] == 0x02 {
        DeviceRemoteStatus::Standby
    } else if value@[0] == 0x08 {
        DeviceRemoteStatus::Acknowledged
    } else if value@[0] == 0x09 {
        DeviceRemoteStatus::Spinup
    } else if value@[0] == 0x0B {
        DeviceRemoteStatus::Active
    } else {
        DeviceRemoteStatus::Unknown(value)
    }
}

/// Decodes a payload of the power characteristic. Never fails: what is not one
/// of the six known single bytes comes back as `Unknown` with the payload intact.
pub fn decode_remote_status(bytes: Vec<u8>) -> (status: DeviceRemoteStatus)
    ensures
        status@ == decoded_status(bytes@),
        status == decoded(bytes),
{
    if bytes.len() != 1 {
        return DeviceRemoteStatus::Unknown(bytes);
    }
    match bytes[0] {
        0x00 => DeviceRemoteStatus::Stopped,
        0x01 => DeviceRemoteStatus::Initiated,
        0x02 => DeviceRemoteStatus::Standby,
        0x08 => DeviceRemoteStatus::Acknowledged,
        0x09 => DeviceRemoteStatus::Spinup,
        0x0B => DeviceRemoteStatus::Active,
        _ => DeviceRemoteStatus::Unknown(bytes),
    }
}

/// Whether a payload is one of the six single bytes that name a status.
pub open spec fn names_status(bytes: Seq<u8>) -> bool {
    bytes.len() == 1 && (bytes[0] == 0x00 || bytes[0] == 0x01 || bytes[0] == 0x02 || bytes[0]
        == 0x08 || bytes[0] == 0x09 || bytes[0] == 0x0B)
}

/// Each of the six known bytes decodes to its status. Every other payload, the
/// empty one and the longer ones included, decodes to `Unknown` with the payload
/// unchanged.
pub proof fn lemma_decoding_table(bytes: Seq<u8>)
    ensures
        decoded_status(seq![0x00u8]) == RemoteStatusView::Stopped,
        decoded_status(seq![0x01u8]) == RemoteStatusView::Initiated,
        decoded_status(seq![0x02u8]) == RemoteStatusView::Standby,
        decoded_status(seq![0x08u8]) == RemoteStatusView::Acknowledged,
        decoded_status(seq![0x09u8]) == RemoteStatusView::Spinup,
        decoded_status(seq![0x0Bu8]) == RemoteStatusView::Active,
        !names_status(bytes) ==> decoded_status(bytes) == RemoteStatusView::Unknown(bytes),
        names_status(bytes) ==> !(decoded_status(bytes) is Unknown),
        !(decoded_status(bytes) is Unavailable),
{
}

/// The bytes of the commands are also bytes of statuses, and mean something else
/// there: read back as a status, the byte of `Sleep` is `Stopped`, that of
/// `Activate` is `Initiated`, that of `Standby` is `Standby`.
pub proof fn lemma_command_byte_as_status(command: DeviceCommand)
    ensures
        decoded_status(seq![command_byte(command)]) == match command {
            DeviceCommand::Sleep => RemoteStatusView::Stopped,
            DeviceCommand::Activate => RemoteStatusView::Initiated,
            DeviceCommand::Standby => RemoteStatusView::Standby,
        },
{
}

impl From<Vec<u8>> for DeviceRemoteStatus {
    /// Decodes a payload, as [`decode_remote_status`] does.
    fn from(value: Vec<u8>) -> (status: Self) {
        decode_remote_status(value)
    }
}

impl vstd::std_specs::convert::FromSpecImpl<Vec<u8>> for DeviceRemoteStatus {
    open spec fn obeys_from_spec() -> bool {
        true
    }

    open spec fn from_spec(value: Vec<u8>) -> Self {
        decoded(value)
    }
}

/// The status that `from` gives for a payload is the decoded one.
pub proof fn lemma_from_decodes(value: Vec<u8>)
    ensures
        decoded(value)@ == decoded_status(value@),
{
}

impl Clone for DeviceRemoteStatus {
    fn clone(&self) -> (copy: Self)
        ensures
            copy@ == self@,
    {
        match self {
            DeviceRemoteStatus::Unavailable => DeviceRemoteStatus::Unavailable,
            DeviceRemoteStatus::Stopped => DeviceRemoteStatus::Stopped,
            DeviceRemoteStatus::Initiated => DeviceRemoteStatus::Initiated,
            DeviceRemoteStatus::Standby => DeviceRemoteStatus::Standby,
            DeviceRemoteStatus::Acknowledged => DeviceRemoteStatus::Acknowledged,
            DeviceRemoteStatus::Spinup => DeviceRemoteStatus::Spinup,
            DeviceRemoteStatus::Active => DeviceRemoteStatus::Active,
            DeviceRemoteStatus::Unknown(bytes) => DeviceRemoteStatus::Unknown(bytes.clone()),
        }
    }
}

/// The upper-case hexadecimal digit of a value below sixteen.
pub open spec fn hex_digit(nibble: int) -> char {
    if nibble == 0 {
        '0'
    } else if nibble == 1 {
        '1'
    } else if nibble == 2 {
        '2'
    } else if nibble == 3 {
        '3'
    } else if nibble == 4 {
        '4'
    } else if nibble == 5 {
        '5'
    } else if nibble == 6 {
        '6'
    } else if nibble == 7 {
        '7'
    } else if nibble == 8 {
        '8'
    } else if nibble == 9 {
        '9'
    } else if nibble == 10 {
        'A'
    } else if nibble == 11 {
        'B'
    } else if nibble == 12 {
        'C'
    } else if nibble == 13 {
        'D'
    } else if nibble == 14 {
        'E'
    } else {
        'F'
    }
}

/// Two upper-case hexadecimal digits per byte, high digit first, nothing between
/// the bytes.
pub open spec fn hex_text(bytes: Seq<u8>) -> Seq<char> {
    Seq::new(
        2 * bytes.len(),
        |i: int|
            if i % 2 == 0 {
                hex_digit(bytes[i / 2] as int / 16)
            } else {
                hex_digit(bytes[i / 2] as int % 16)
            },
    )
}

/// The short code of a status: the hexadecimal text of the payload that stands
/// for it, and two dashes where there is none yet.
pub open spec fn status_code(status: RemoteStatusView) -> Seq<char> {
    match status {
        RemoteStatusView::Unavailable => seq!['-', '-'],
        RemoteStatusView::Stopped => seq!['0', '0'],
        RemoteStatusView::Initiated => seq!['0', '1'],
        RemoteStatusView::Standby => seq!['0', '2'],
        RemoteStatusView::Acknowledged => seq!['0', '8'],
        RemoteStatusView::Spinup => seq!['0', '9'],
        RemoteStatusView::Active => seq!['0', 'B'],
        RemoteStatusView::Unknown(bytes) => hex_text(bytes),
    }
}

fn hex_digit_text(nibble: u8) -> (text: &'static str)
    requires
        nibble < 16,
    ensures
        text@ == seq![hex_digit(nibble as int)],
{
    proof {
        reveal_strlit("0");
        reveal_strlit("1");
        reveal_strlit("2");
        reveal_strlit("3");
        reveal_strlit("4");
        reveal_strlit("5");
        reveal_strlit("6");
        reveal_strlit("7");
        reveal_strlit("8");
        reveal_strlit("9");
        reveal_strlit("A");
        reveal_strlit("B");
        reveal_strlit("C");
        reveal_strlit("D");
        reveal_strlit("E");
        reveal_strlit("F");
    }
    let text = match nibble {
        0 => "0",
        1 => "1",
        2 => "2",
        3 => "3",
        4 => "4",
        5 => "5",
        6 => "6",
        7 => "7",
        8 => "8",
        9 => "9",
        10 => "A",
        11 => "B",
        12 => "C",
        13 => "D",
        14 => "E",
        _ => "F",
    };
    assert(text@ =~= seq![hex_digit(nibble as int)]);
    text
}

/// Renders bytes as upper-case hexadecimal text.
pub fn hex_string(bytes: &Vec<u8>) -> (text: String)
    ensures
        text@ == hex_text(bytes@),
{
    let mut text = String::new();
    let mut i: usize = 0;
    while i < bytes.len()
        invariant
            0 <= i <= bytes.len(),
            text@ == hex_text(bytes@.subrange(0, i as int)),
        decreases bytes.len() - i,
    {
        let byte = bytes[i];
        let ghost before = text@;
        text.append(hex_digit_text(byte / 16));
        text.append(hex_digit_text(byte % 16));
        proof {
            let shorter = bytes@.subrange(0, i as int);
            let longer = bytes@.subrange(0, i as int + 1);
            assert(longer =~= shorter.push(byte));
            assert(text@ =~= hex_text(longer)) by {
                assert forall|k: int| 0 <= k < 2 * longer.len() implies text@[k] == hex_text(
                    longer,
                )[k] by {
                    if k < 2 * shorter.len() {
                        assert(text@[k] == before[k]);
                        assert(longer[k / 2] == shorter[k / 2]);
                    }
                }
            }
        }
        i += 1;
    }
    assert(bytes@.subrange(0, i as int) =~= bytes@);
    text
}

impl DeviceRemoteStatus {
    /// The short code of this status.
    pub fn code(&self) -> (text: String)
        ensures
            text@ == status_code(self@),
    {
        proof {
            reveal_strlit("--");
            reveal_strlit("00");
            reveal_strlit("01");
            reveal_strlit("02");
            reveal_strlit("08");
            reveal_strlit("09");
            reveal_strlit("0B");
        }
        match self {
            DeviceRemoteStatus::Unavailable => {
                let text = "--".to_string();
                assert(text@ =~= seq!['-', '-']);
                text
            },
            DeviceRemoteStatus::Stopped => {
                let text = "00".to_string();
                assert(text@ =~= seq!['0', '0']);
                text
            },
            DeviceRemoteStatus::Initiated => {
                let text = "01".to_string();
                assert(text@ =~= seq!['0', '1']);
                text
            },
            DeviceRemoteStatus::Standby => {
                let text = "02".to_string();
                assert(text@ =~= seq!['0', '2']);
                text
            },
            DeviceRemoteStatus::Acknowledged => {
                let text = "08".to_string();
                assert(text@ =~= seq!['0', '8']);
                text
            },
            DeviceRemoteStatus::Spinup => {
                let text = "09".to_string();
                assert(text@ =~= seq!['0', '9']);
                text
            },
            DeviceRemoteStatus::Active => {
                let text = "0B".to_string();
                assert(text@ =~= seq!['0', 'B']);
                text
            },
            DeviceRemoteStatus::Unknown(bytes) => hex_string(bytes),
        }
    }
}

/// Each named status is shown as the hexadecimal text of the one byte that
/// decodes to it.
pub proof fn lemma_code_of_decoded_byte(byte: u8)
    requires
        !(decoded_status(seq![byte]) is Unknown),
    ensures
        status_code(decoded_status(seq![byte])) == hex_text(seq![byte]),
{
    assert(status_code(decoded_status(seq![byte])) =~= hex_text(seq![byte]));
}

} // verus!
