//! The task that drives one device: verification after discovery, or a power
//! command.
//!
//! A flow decides; a driver acts. The driver hands the flow an [`Event`], the
//! flow answers with a [`Step`]: at most one message for the consumer, and the
//! next [`Request`] to carry out on the radio. The outcome of that request is the
//! next event. An event that the flow does not await changes nothing and is
//! answered with [`Request::Nothing`].

use crate::device::{Device, DeviceView};
use crate::dto::command::{command_byte, encode_command};
use crate::dto::info::{local_info, remote_info, DeviceInfo, DeviceInfoView};
use crate::dto::remote::{decode_remote_status, decoded_status};
use crate::dto::{
    DeviceCommand, DeviceLocalStatus, DeviceRemoteStatus, LocalStatusView, RemoteStatusView,
};
use crate::error::Error;
use crate::gatt::{resolved_characteristic, GattCharacteristic, GattService};
use crate::policy::TerminalPolicy;
use vstd::prelude::*;

verus! {

/// What a flow is for.
#[derive(Clone, Copy, Debug, PartialEq, Eq, Structural)]
pub enum Purpose {
    /// Read the power state once, to see that the device speaks the protocol.
    Verify,
    /// Write a command and relay what the device reports until it is done.
    Power(DeviceCommand),
}

/// What the driver is asked to do on the radio.
#[derive(Clone, Copy, Debug, PartialEq, Eq)]
pub enum Request {
    /// Nothing: the event was not awaited.
    Nothing,
    /// Ask whether the peripheral is connected.
    QueryConnection,
    Connect,
    /// Discover the services and list them.
    DiscoverServices,
    Read(GattCharacteristic),
    /// Subscribe to the characteristic and open the stream of notifications.
    Subscribe(GattCharacteristic),
    Write { characteristic: GattCharacteristic, value: u8, with_response: bool },
    /// Wait for the next notification, no longer than this many seconds.
    AwaitNotification { within_secs: u64 },
    Unsubscribe(GattCharacteristic),
    Disconnect,
    /// The flow is over, with this result.
    Finish(Result<(), Error>),
}

/// What the driver reports. Where an operation can fail, `None` or `false`
/// stands for the failure.
#[derive(Debug, PartialEq, Eq)]
pub enum Event {
    /// The flow is started.
    Begin,
    /// Answer to `QueryConnection`.
    ConnectionState(Option<bool>),
    /// Outcome of `Connect`.
    Connected(bool),
    /// Outcome of `DiscoverServices`.
    Services(Option<Vec<GattService>>),
    /// Outcome of `Read`.
    Value(Option<Vec<u8>>),
    /// Outcome of `Subscribe`.
    Subscribed(bool),
    /// Outcome of `Write`.
    Written(bool),
    /// A notification arrived while one was awaited.
    Notification(Vec<u8>),
    /// The stream of notifications ended while one was awaited.
    NotificationsEnded,
    /// No notification arrived within the time allowed.
    WaitElapsed,
    /// Outcome of `Unsubscribe`.
    Unsubscribed(bool),
    /// Outcome of `Disconnect`.
    Disconnected(bool),
}

/// Where a flow stands: the outcome it awaits.
#[derive(Clone, Copy, Debug, PartialEq, Eq, Structural)]
pub enum Stage {
    Idle,
    QueryingConnection,
    Connecting,
    DiscoveringServices,
    Reading,
    Subscribing(GattCharacteristic),
    Writing { characteristic: GattCharacteristic, subscribed: bool },
    Relaying(GattCharacteristic),
    Unsubscribing,
    Disconnecting,
    Finished,
}

/// A flow's answer to an event.
#[derive(Debug, PartialEq, Eq)]
pub struct Step {
    pub message: Option<DeviceInfo>,
    pub request: Request,
}

/// Mathematical form of a [`Step`].
pub struct StepView {
    pub message: Option<DeviceInfoView>,
    pub request: Request,
}

impl View for Step {
    type V = StepView;

    open spec fn view(&self) -> StepView {
        StepView {
            message: match self.message {
                Some(info) => Some(info@),
                None => None,
            },
            request: self.request,
        }
    }
}

/// Mathematical form of a [`DeviceFlow`].
pub struct FlowView {
    pub device: DeviceView,
    pub purpose: Purpose,
    pub policy: TerminalPolicy,
    pub stage: Stage,
    pub outcome: Result<(), Error>,
}

/// A flow that has not begun.
pub open spec fn initial_flow(
    device: DeviceView,
    purpose: Purpose,
    policy: TerminalPolicy,
) -> FlowView {
    FlowView { device, purpose, policy, stage: Stage::Idle, outcome: Ok(()) }
}

/// An answer without a message.
pub open spec fn quiet(flow: FlowView, request: Request) -> (FlowView, StepView) {
    (flow, StepView { message: None, request })
}

/// An answer that reports a local status, which the device then carries.
pub open spec fn saying(flow: FlowView, status: LocalStatusView, request: Request) -> (
    FlowView,
    StepView,
) {
    (
        FlowView { device: DeviceView { local: status, ..flow.device }, ..flow },
        StepView { message: Some(local_info(flow.device, status)), request },
    )
}

/// An answer that reports a remote status, which the device then carries.
pub open spec fn relaying(flow: FlowView, status: RemoteStatusView, request: Request) -> (
    FlowView,
    StepView,
) {
    (
        FlowView { device: DeviceView { remote: status, ..flow.device }, ..flow },
        StepView { message: Some(remote_info(flow.device, status)), request },
    )
}

/// The use that a flow makes of the power characteristic: a verification reads
/// it; a command subscribes to it first, so that no notification is missed
/// between the write and the subscription.
pub open spec fn employ(purpose: Purpose, characteristic: GattCharacteristic) -> (Stage, Request) {
    match purpose {
        Purpose::Verify => (Stage::Reading, Request::Read(characteristic)),
        Purpose::Power(_) => (
            Stage::Subscribing(characteristic),
            Request::Subscribe(characteristic),
        ),
    }
}

/// What follows once the device is connected: the cached handle is used where
/// there is one, else the services are discovered.
pub open spec fn engage(flow: FlowView) -> (Stage, Request) {
    match flow.device.characteristic {
        Some(characteristic) => employ(flow.purpose, characteristic),
        None => (Stage::DiscoveringServices, Request::DiscoverServices),
    }
}

/// The connection could not be had: the flow reports it and ends, without a
/// disconnect.
pub open spec fn give_up_connection(flow: FlowView) -> (FlowView, StepView) {
    let failed = Err::<(), Error>(Error::ConnectionFailed);
    saying(
        FlowView { stage: Stage::Finished, outcome: failed, ..flow },
        LocalStatusView::FailConnection,
        Request::Finish(failed),
    )
}

/// The work on a connected device failed: the flow reports it and goes on to
/// disconnect.
pub open spec fn fail_verify(flow: FlowView, outcome: Result<(), Error>) -> (FlowView, StepView) {
    saying(
        FlowView { stage: Stage::Disconnecting, outcome, ..flow },
        LocalStatusView::FailVerify,
        Request::Disconnect,
    )
}

/// The disconnect was attempted: the flow reports how it went and ends with the
/// outcome of the work before it. The cached handle does not outlive the
/// connection.
pub open spec fn close(flow: FlowView, disconnected: bool) -> (FlowView, StepView) {
    saying(
        FlowView {
            stage: Stage::Finished,
            device: DeviceView { characteristic: None, ..flow.device },
            ..flow
        },
        if disconnected {
            LocalStatusView::Disconnected
        } else {
            LocalStatusView::FailConnection
        },
        Request::Finish(flow.outcome),
    )
}

/// The command of a flow; a verification has none and this is `Sleep` for it.
pub open spec fn command_of(purpose: Purpose) -> DeviceCommand {
    match purpose {
        Purpose::Power(command) => command,
        Purpose::Verify => DeviceCommand::Sleep,
    }
}

/// The transition function of a flow: the flow after an event, and its answer.
pub open spec fn flow_step(flow: FlowView, event: Event) -> (FlowView, StepView) {
    match (flow.stage, event) {
        (Stage::Idle, Event::Begin) => saying(
            FlowView { stage: Stage::QueryingConnection, ..flow },
            LocalStatusView::Initializing,
            Request::QueryConnection,
        ),
        (Stage::QueryingConnection, Event::ConnectionState(Some(true))) => {
            let (stage, request) = engage(flow);
            let next = FlowView { stage, ..flow };
            match flow.purpose {
                Purpose::Verify => saying(next, LocalStatusView::Connected, request),
                Purpose::Power(_) => quiet(next, request),
            }
        },
        (Stage::QueryingConnection, Event::ConnectionState(Some(false))) => quiet(
            FlowView {
                stage: Stage::Connecting,
                device: DeviceView { characteristic: None, ..flow.device },
                ..flow
            },
            Request::Connect,
        ),
        (Stage::QueryingConnection, Event::ConnectionState(None)) => give_up_connection(flow),
        (Stage::Connecting, Event::Connected(true)) => {
            let (stage, request) = engage(flow);
            saying(FlowView { stage, ..flow }, LocalStatusView::Connected, request)
        },
        (Stage::Connecting, Event::Connected(false)) => give_up_connection(flow),
        (Stage::DiscoveringServices, Event::Services(Some(services))) => {
            match resolved_characteristic(flow.device.characteristic, services@) {
                Ok(characteristic) => {
                    let (stage, request) = employ(flow.purpose, characteristic);
                    quiet(
                        FlowView {
                            stage,
                            device: DeviceView {
                                characteristic: Some(characteristic),
                                ..flow.device
                            },
                            ..flow
                        },
                        request,
                    )
                },
                Err(error) => fail_verify(flow, Err(error)),
            }
        },
        (Stage::DiscoveringServices, Event::Services(None)) => fail_verify(
            flow,
            Err(Error::TransportError),
        ),
        (Stage::Reading, Event::Value(Some(bytes))) => relaying(
            FlowView { stage: Stage::Disconnecting, outcome: Ok(()), ..flow },
            decoded_status(bytes@),
            Request::Disconnect,
        ),
        (Stage::Reading, Event::Value(None)) => fail_verify(flow, Err(Error::TransportError)),
        (Stage::Subscribing(characteristic), Event::Subscribed(subscribed)) => quiet(
            FlowView { stage: Stage::Writing { characteristic, subscribed }, ..flow },
            Request::Write {
                characteristic,
                value: command_byte(command_of(flow.purpose)),
                with_response: true,
            },
        ),
        (Stage::Writing { characteristic, subscribed }, Event::Written(true)) => {
            if subscribed {
                quiet(
                    FlowView { stage: Stage::Relaying(characteristic), ..flow },
                    Request::AwaitNotification { within_secs: flow.policy.wait_secs },
                )
            } else {
                fail_verify(flow, Ok(()))
            }
        },
        (Stage::Writing { characteristic, subscribed }, Event::Written(false)) => fail_verify(
            flow,
            Err(Error::TransportError),
        ),
        (Stage::Relaying(characteristic), Event::Notification(bytes)) => {
            let status = decoded_status(bytes@);
            if flow.policy.ends(command_of(flow.purpose), status) {
                relaying(
                    FlowView { stage: Stage::Unsubscribing, ..flow },
                    status,
                    Request::Unsubscribe(characteristic),
                )
            } else {
                relaying(
                    flow,
                    status,
                    Request::AwaitNotification { within_secs: flow.policy.wait_secs },
                )
            }
        },
        (Stage::Relaying(characteristic), Event::NotificationsEnded) => quiet(
            FlowView { stage: Stage::Disconnecting, ..flow },
            Request::Disconnect,
        ),
        (Stage::Relaying(characteristic), Event::WaitElapsed) => quiet(
            FlowView {
                stage: Stage::Unsubscribing,
                outcome: Err(Error::TransportError),
                ..flow
            },
            Request::Unsubscribe(characteristic),
        ),
        (Stage::Unsubscribing, Event::Unsubscribed(_)) => quiet(
            FlowView { stage: Stage::Disconnecting, ..flow },
            Request::Disconnect,
        ),
        (Stage::Disconnecting, Event::Disconnected(disconnected)) => close(flow, disconnected),
        _ => quiet(flow, Request::Nothing),
    }
}

/// The task that drives one device.
#[derive(Debug)]
pub struct DeviceFlow {
    device: Device,
    purpose: Purpose,
    policy: TerminalPolicy,
    stage: Stage,
    outcome: Result<(), Error>,
}

impl View for DeviceFlow {
    type V = FlowView;

    closed spec fn view(&self) -> FlowView {
        FlowView {
            device: self.device@,
            purpose: self.purpose,
            policy: self.policy,
            stage: self.stage,
            outcome: self.outcome,
        }
    }
}

impl Device {
    /// The flow that sends a power command to this device, on a copy of it.
    pub fn power_set(&self, command: DeviceCommand, policy: TerminalPolicy) -> (flow: DeviceFlow)
        ensures
            flow@ == initial_flow(self@, Purpose::Power(command), policy),
    {
        DeviceFlow::power_set(self.clone(), command, policy)
    }

    /// The flow that verifies this device, on a copy of it.
    pub fn fetch_remote_status(&self) -> (flow: DeviceFlow)
        ensures
            flow@ == initial_flow(self@, Purpose::Verify, TerminalPolicy::own_state()),
    {
        DeviceFlow::verification(self.clone())
    }
}

impl DeviceFlow {
    /// The verification of a device: connect, read the power state once,
    /// disconnect.
    pub fn verification(device: Device) -> (flow: Self)
        ensures
            flow@ == initial_flow(device@, Purpose::Verify, TerminalPolicy::own_state()),
    {
        DeviceFlow {
            device,
            purpose: Purpose::Verify,
            policy: TerminalPolicy::per_command(),
            stage: Stage::Idle,
            outcome: Ok(()),
        }
    }

    /// A power command for a device: connect, subscribe, write the command,
    /// relay what the device reports until `policy` says it is done, disconnect.
    pub fn power_set(device: Device, command: DeviceCommand, policy: TerminalPolicy) -> (flow: Self)
        ensures
            flow@ == initial_flow(device@, Purpose::Power(command), policy),
    {
        DeviceFlow {
            device,
            purpose: Purpose::Power(command),
            policy,
            stage: Stage::Idle,
            outcome: Ok(()),
        }
    }

    /// The device as the flow has left it so far.
    pub fn device(&self) -> (device: &Device)
        ensures
            device@ == self@.device,
    {
        &self.device
    }

    /// Hands the device back, with the statuses recorded on the way.
    pub fn into_device(self) -> (device: Device)
        ensures
            device@ == self@.device,
    {
        self.device
    }

    /// What the flow is for.
    pub fn purpose(&self) -> (purpose: Purpose)
        ensures
            purpose == self@.purpose,
    {
        self.purpose
    }

    /// Where the flow stands.
    pub fn stage(&self) -> (stage: Stage)
        ensures
            stage == self@.stage,
    {
        self.stage
    }

    /// The result so far: that of the work on the connected device, or the
    /// failure to connect.
    pub fn outcome(&self) -> (outcome: Result<(), Error>)
        ensures
            outcome == self@.outcome,
    {
        self.outcome
    }

    /// Whether the flow is over.
    pub fn is_finished(&self) -> (finished: bool)
        ensures
            finished <==> self@.stage is Finished,
    {
        match self.stage {
            Stage::Finished => true,
            _ => false,
        }
    }

    fn say(&mut self, status: DeviceLocalStatus, request: Request) -> (step: Step)
        ensures
            (final(self)@, step@) == saying(old(self)@, status@, request),
    {
        let info = DeviceInfo::from_device_local_status(&self.device, status.clone());
        self.device.record_local_status(status);
        Step { message: Some(info), request }
    }

    fn relay(&mut self, status: DeviceRemoteStatus, request: Request) -> (step: Step)
        ensures
            (final(self)@, step@) == relaying(old(self)@, status@, request),
    {
        let info = DeviceInfo::from_device_remote_status(&self.device, status.clone());
        self.device.record_remote_status(status);
        Step { message: Some(info), request }
    }

    fn silent(&self, request: Request) -> (step: Step)
        ensures
            step@ == (StepView { message: None, request }),
    {
        Step { message: None, request }
    }

    fn employ(&mut self, characteristic: GattCharacteristic) -> (request: Request)
        ensures
            (final(self)@.stage, request) == employ(old(self)@.purpose, characteristic),
            final(self)@ == (FlowView { stage: final(self)@.stage, ..old(self)@ }),
    {
        match self.purpose {
            Purpose::Verify => {
                self.stage = Stage::Reading;
                Request::Read(characteristic)
            },
            Purpose::Power(_) => {
                self.stage = Stage::Subscribing(characteristic);
                Request::Subscribe(characteristic)
            },
        }
    }

    fn engage(&mut self) -> (request: Request)
        ensures
            (final(self)@.stage, request) == engage(old(self)@),
            final(self)@ == (FlowView { stage: final(self)@.stage, ..old(self)@ }),
    {
        match self.device.cached_characteristic() {
            Some(characteristic) => self.employ(characteristic),
            None => {
                self.stage = Stage::DiscoveringServices;
                Request::DiscoverServices
            },
        }
    }

    fn give_up_connection(&mut self) -> (step: Step)
        ensures
            (final(self)@, step@) == give_up_connection(old(self)@),
    {
        let failed: Result<(), Error> = Err(Error::ConnectionFailed);
        self.stage = Stage::Finished;
        self.outcome = failed;
        self.say(DeviceLocalStatus::FailConnection, Request::Finish(failed))
    }

    fn fail_verify(&mut self, outcome: Result<(), Error>) -> (step: Step)
        ensures
            (final(self)@, step@) == fail_verify(old(self)@, outcome),
    {
        self.stage = Stage::Disconnecting;
        self.outcome = outcome;
        self.say(DeviceLocalStatus::FailVerify, Request::Disconnect)
    }

    fn close(&mut self, disconnected: bool) -> (step: Step)
        ensures
            (final(self)@, step@) == close(old(self)@, disconnected),
    {
        self.stage = Stage::Finished;
        self.device.forget_characteristic();
        let status = if disconnected {
            DeviceLocalStatus::Disconnected
        } else {
            DeviceLocalStatus::FailConnection
        };
        let outcome = self.outcome;
        self.say(status, Request::Finish(outcome))
    }

    fn command(&self) -> (command: DeviceCommand)
        ensures
            command == command_of(self@.purpose),
    {
        match self.purpose {
            Purpose::Power(command) => command,
            Purpose::Verify => DeviceCommand::Sleep,
        }
    }

    /// Takes an event and answers with the next step, as [`flow_step`] says.
    pub fn step(&mut self, event: Event) -> (step: Step)
        ensures
            (final(self)@, step@) == flow_step(old(self)@, event),
    {
        match self.stage {
            Stage::Idle => match event {
                Event::Begin => {
                    self.stage = Stage::QueryingConnection;
                    self.say(DeviceLocalStatus::Initializing, Request::QueryConnection)
                },
                _ => self.silent(Request::Nothing),
            },
            Stage::QueryingConnection => match event {
                Event::ConnectionState(Some(true)) => {
                    let request = self.engage();
                    match self.purpose {
                        Purpose::Verify => self.say(DeviceLocalStatus::Connected, request),
                        Purpose::Power(_) => self.silent(request),
                    }
                },
                Event::ConnectionState(Some(false)) => {
                    self.stage = Stage::Connecting;
                    self.device.forget_characteristic();
                    self.silent(Request::Connect)
                },
                Event::ConnectionState(None) => self.give_up_connection(),
                _ => self.silent(Request::Nothing),
            },
            Stage::Connecting => match event {
                Event::Connected(true) => {
                    let request = self.engage();
                    self.say(DeviceLocalStatus::Connected, request)
                },
                Event::Connected(false) => self.give_up_connection(),
                _ => self.silent(Request::Nothing),
            },
            Stage::DiscoveringServices => match event {
                Event::Services(Some(services)) => {
                    match self.device.get_power_characteristic(&services) {
                        Ok(characteristic) => {
                            let request = self.employ(characteristic);
                            self.silent(request)
                        },
                        Err(error) => self.fail_verify(Err(error)),
                    }
                },
                Event::Services(None) => self.fail_verify(Err(Error::TransportError)),
                _ => self.silent(Request::Nothing),
            },
            Stage::Reading => match event {
                Event::Value(Some(bytes)) => {
                    self.stage = Stage::Disconnecting;
                    self.outcome = Ok(());
                    self.relay(decode_remote_status(bytes), Request::Disconnect)
                },
                Event::Value(None) => self.fail_verify(Err(Error::TransportError)),
                _ => self.silent(Request::Nothing),
            },
            Stage::Subscribing(characteristic) => match event {
                Event::Subscribed(subscribed) => {
                    self.stage = Stage::Writing { characteristic, subscribed };
                    let value = encode_command(self.command());
                    self.silent(Request::Write { characteristic, value, with_response: true })
                },
                _ => self.silent(Request::Nothing),
            },
            Stage::Writing { characteristic, subscribed } => match event {
                Event::Written(true) => {
                    if subscribed {
                        self.stage = Stage::Relaying(characteristic);
                        self.silent(
                            Request::AwaitNotification { within_secs: self.policy.wait_secs },
                        )
                    } else {
                        self.fail_verify(Ok(()))
                    }
                },
                Event::Written(false) => self.fail_verify(Err(Error::TransportError)),
                _ => self.silent(Request::Nothing),
            },
            Stage::Relaying(characteristic) => match event {
                Event::Notification(bytes) => {
                    let status = decode_remote_status(bytes);
                    if self.policy.is_terminal(self.command(), &status) {
                        self.stage = Stage::Unsubscribing;
                        self.relay(status, Request::Unsubscribe(characteristic))
                    } else {
                        let within_secs = self.policy.wait_secs;
                        self.relay(status, Request::AwaitNotification { within_secs })
                    }
                },
                Event::NotificationsEnded => {
                    self.stage = Stage::Disconnecting;
                    self.silent(Request::Disconnect)
                },
                Event::WaitElapsed => {
                    self.stage = Stage::Unsubscribing;
                    self.outcome = Err(Error::TransportError);
                    self.silent(Request::Unsubscribe(characteristic))
                },
                _ => self.silent(Request::Nothing),
            },
            Stage::Unsubscribing => match event {
                Event::Unsubscribed(_) => {
                    self.stage = Stage::Disconnecting;
                    self.silent(Request::Disconnect)
                },
                _ => self.silent(Request::Nothing),
            },
            Stage::Disconnecting => match event {
                Event::Disconnected(disconnected) => self.close(disconnected),
                _ => self.silent(Request::Nothing),
            },
            Stage::Finished => self.silent(Request::Nothing),
        }
    }
}

} // verus!
