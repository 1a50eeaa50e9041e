//! Free-text status lines for the consumer.

use crate::dto::command::command_label;
use crate::dto::DeviceCommand;
use vstd::prelude::*;
use vstd::string::*;

verus! {

/// A line of text that tells the user what the engine is doing.
#[derive(Debug, PartialEq, Eq)]
pub struct StatusPayload(String);

impl View for StatusPayload {
    type V = Seq<char>;

    closed spec fn view(&self) -> Seq<char> {
        self.0@
    }
}

/// The line that announces a command: `Sending "<command>" command to "<name>"`.
pub open spec fn sending_text(command: DeviceCommand, name: Seq<char>) -> Seq<char> {
    "Sending \""@ + command_label(command) + "\" command to \""@ + name + "\""@
}

/// The line that closes a command: `Finished "<command>" for "<name>"`.
pub open spec fn finished_text(command: DeviceCommand, name: Seq<char>) -> Seq<char> {
    "Finished \""@ + command_label(command) + "\" for \""@ + name + "\""@
}

impl StatusPayload {
    /// A status line with this text.
    pub fn new(msg: String) -> (payload: Self)
        ensures
            payload@ == msg@,
    {
        return Self(msg);
    }

    /// The text of the line.
    pub fn message(&self) -> (text: &str)
        ensures
            text@ == self@,
    {
        self.0.as_str()
    }

    /// The line shown when a scan starts.
    pub fn scanning() -> (payload: Self)
        ensures
            payload@ == "Scanning for lighthouses..."@,
    {
        StatusPayload("Scanning for lighthouses...".to_string())
    }

    /// The line shown when a scan is over.
    pub fn done_scanning() -> (payload: Self)
        ensures
            payload@ == "Done scanning for devices!"@,
    {
        StatusPayload("Done scanning for devices!".to_string())
    }

    /// The line shown while the devices of an earlier scan are let go.
    pub fn disconnecting() -> (payload: Self)
        ensures
            payload@ == "Disconnecting from current devices..."@,
    {
        StatusPayload("Disconnecting from current devices...".to_string())
    }

    /// The line that announces a command to a device.
    pub fn sending(command: DeviceCommand, name: &str) -> (payload: Self)
        ensures
            payload@ == sending_text(command, name@),
    {
        let mut text = "Sending \"".to_string();
        let label = command.label();
        text.append(label.as_str());
        text.append("\" command to \"");
        text.append(name);
        text.append("\"");
        StatusPayload(text)
    }

    /// The line that says a command to a device is done.
    pub fn finished(command: DeviceCommand, name: &str) -> (payload: Self)
        ensures
            payload@ == finished_text(command, name@),
    {
        let mut text = "Finished \"".to_string();
        let label = command.label();
        text.append(label.as_str());
        text.append("\" for \"");
        text.append(name);
        text.append("\"");
        StatusPayload(text)
    }
}

impl Clone for StatusPayload {
    fn clone(&self) -> (copy: Self)
        ensures
            copy@ == self@,
    {
        StatusPayload(self.0.clone())
    }
}

} // verus!
