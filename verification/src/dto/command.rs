//! Power commands and their wire encoding.

use vstd::prelude::*;

verus! {

/// A power command that can be written to the power characteristic.
#[derive(Clone, Copy, Debug, PartialEq, Eq, Structural)]
pub enum DeviceCommand {
    Sleep,
    Activate,
    Standby,
}

/// The byte that stands for `command` on the wire.
pub open spec fn command_byte(command: DeviceCommand) -> u8 {
    match command {
        DeviceCommand::Sleep => 0x00,
        DeviceCommand::Activate => 0x01,
        DeviceCommand::Standby => 0x02,
    }
}

/// The command that a numeric code selects, if any.
pub open spec fn command_of_code(code: u8) -> Option<DeviceCommand> {
    if code == 0 {
        Some(DeviceCommand::Sleep)
    } else if code == 1 {
        Some(DeviceCommand::Activate)
    } else if code == 2 {
        Some(DeviceCommand::Standby)
    } else {
        None
    }
}

/// Encodes a command as the single byte written to the power characteristic.
pub fn encode_command(command: DeviceCommand) -> (byte: u8)
    ensures
        byte == command_byte(command),
{
    match command {
        DeviceCommand::Sleep => 0x00,
        DeviceCommand::Activate => 0x01,
        DeviceCommand::Standby => 0x02,
    }
}

impl DeviceCommand {
    /// The payload of a write: exactly one byte, the encoded command.
    pub fn to_bytes(self) -> (bytes: Vec<u8>)
        ensures
            bytes@ == seq![command_byte(self)],
    {
        let mut bytes: Vec<u8> = Vec::new();
        bytes.push(encode_command(self));
        bytes
    }

    /// Reads a command from its numeric code. Codes other than 0, 1 and 2 select
    /// no command.
    pub fn from_code(code: u8) -> (command: Option<DeviceCommand>)
        ensures
            command == command_of_code(code),
    {
        match code {
            0 => Some(DeviceCommand::Sleep),
            1 => Some(DeviceCommand::Activate),
            2 => Some(DeviceCommand::Standby),
            _ => None,
        }
    }

    /// The upper-case name shown to the user.
    pub fn label(&self) -> (text: String)
        ensures
            text@ == command_label(*self),
    {
        match self {
            DeviceCommand::Activate => "ACTIVATE".to_string(),
            DeviceCommand::Sleep => "SLEEP".to_string(),
            DeviceCommand::Standby => "STANDBY".to_string(),
        }
    }
}

/// The text of a command's label.
pub open spec fn command_label(command: DeviceCommand) -> Seq<char> {
    match command {
        DeviceCommand::Activate => "ACTIVATE"@,
        DeviceCommand::Sleep => "SLEEP"@,
        DeviceCommand::Standby => "STANDBY"@,
    }
}

/// Encoding is injective: two commands with the same byte are the same command.
pub proof fn lemma_encode_injective(a: DeviceCommand, b: DeviceCommand)
    ensures
        command_byte(a) == command_byte(b) <==> a == b,
{
}

/// Reading a command back from its byte gives the command, and every code that
/// selects a command is that command's byte.
pub proof fn lemma_code_round_trip(command: DeviceCommand, code: u8)
    ensures
        command_of_code(command_byte(command)) == Some(command),
        command_of_code(code) == Some(command) <==> code == command_byte(command),
{
}

} // verus!
