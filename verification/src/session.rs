//! One scan, from its start to the closing of the channel.
//!
//! A session is idle, scanning, or draining; starting up and stopping are the two
//! ends of scanning. It listens to the adapter's events before it starts the
//! scan, so that no early event is lost. While it scans,
//! each discovered peripheral is handed to a task of its own. The deadline ends
//! the scan and nothing else: tasks under way run to their end, and only when
//! the last one is done is the channel closed.

use crate::device::{Device, DeviceIdentity};
use crate::device_list::{status_reports, DeviceList, Entries};
use crate::dto::DeviceInfo;
use crate::error::Error;
use crate::trace::{lemma_occurrences_push, occurrences};
use vstd::prelude::*;

verus! {

/// Where a session stands.
#[derive(Clone, Copy, Debug, PartialEq, Eq, Structural)]
pub enum ScanPhase {
    /// No session is under way.
    Idle,
    /// Starting up: the stream of adapter events is being opened.
    Listening,
    /// Starting up: the scan is being started.
    Starting,
    /// Events are taken until the deadline.
    Scanning,
    /// The scan is being stopped.
    Stopping,
    /// The scan has stopped; tasks are still at work.
    Draining,
}

/// What the driver reports to a session. Times are whole seconds since the scan
/// started.
#[derive(Clone, Copy, Debug, PartialEq, Eq, Structural)]
pub enum ScanEvent {
    /// Outcome of `Listen`.
    Listening(bool),
    /// Outcome of `StartScan`.
    ScanStarted(bool),
    /// The adapter has discovered a peripheral.
    Discovered { id: DeviceIdentity, elapsed_secs: u64 },
    /// The adapter has reported something else.
    Unrelated { elapsed_secs: u64 },
    /// The timer has fired.
    Deadline { elapsed_secs: u64 },
    /// The adapter's stream of events has ended.
    StreamEnded,
    /// Outcome of `StopScan`.
    ScanStopped(bool),
    /// A task that inspected a peripheral is done.
    TaskFinished,
}

/// What a session asks of the driver.
#[derive(Clone, Copy, Debug, PartialEq, Eq)]
pub enum ScanRequest {
    /// Nothing but to go on as before.
    Nothing,
    /// Open the adapter's stream of events.
    Listen,
    /// Start the scan, and a timer of this many seconds with it.
    StartScan { secs: u64 },
    /// Hand this peripheral to a task of its own.
    Inspect(DeviceIdentity),
    StopScan,
    /// Close the channel to the consumer: the session is over, with this result.
    Close(Result<(), Error>),
}

/// Mathematical form of a [`ScanSession`].
pub struct SessionView {
    pub phase: ScanPhase,
    /// The length of the scan in seconds.
    pub duration_secs: u64,
    /// The tasks handed out and not yet done.
    pub outstanding: u64,
    /// How the scan itself went.
    pub result: Result<(), Error>,
}

/// A session that has just been opened.
pub open spec fn opened_session(duration_secs: u64) -> SessionView {
    SessionView { phase: ScanPhase::Listening, duration_secs, outstanding: 0, result: Ok(()) }
}

/// The session once the scan has ended with `result`: over if no task is at
/// work, else draining.
pub open spec fn wind_down(session: SessionView, result: Result<(), Error>) -> (
    SessionView,
    ScanRequest,
) {
    if session.outstanding == 0 {
        (SessionView { phase: ScanPhase::Idle, result, ..session }, ScanRequest::Close(result))
    } else {
        (SessionView { phase: ScanPhase::Draining, result, ..session }, ScanRequest::Nothing)
    }
}

/// Whether an event stamped `elapsed_secs` comes at or after the deadline. Such
/// an event is dropped and the scan is stopped.
pub open spec fn past_deadline(session: SessionView, elapsed_secs: u64) -> bool {
    elapsed_secs >= session.duration_secs
}

/// The session that stops its scan.
pub open spec fn stopping(session: SessionView) -> (SessionView, ScanRequest) {
    (SessionView { phase: ScanPhase::Stopping, ..session }, ScanRequest::StopScan)
}

/// The transition function of a session: the session after an event, and what
/// it asks for.
pub open spec fn scan_step(session: SessionView, event: ScanEvent) -> (SessionView, ScanRequest) {
    match (session.phase, event) {
        (ScanPhase::Listening, ScanEvent::Listening(true)) => (
            SessionView { phase: ScanPhase::Starting, ..session },
            ScanRequest::StartScan { secs: session.duration_secs },
        ),
        (ScanPhase::Listening, ScanEvent::Listening(false)) => wind_down(
            session,
            Err(Error::TransportError),
        ),
        (ScanPhase::Starting, ScanEvent::ScanStarted(true)) => (
            SessionView { phase: ScanPhase::Scanning, ..session },
            ScanRequest::Nothing,
        ),
        (ScanPhase::Starting, ScanEvent::ScanStarted(false)) => wind_down(
            session,
            Err(Error::TransportError),
        ),
        (ScanPhase::Scanning, ScanEvent::Discovered { id, elapsed_secs }) => {
            if past_deadline(session, elapsed_secs) {
                stopping(session)
            } else if session.outstanding == u64::MAX {
                (session, ScanRequest::Nothing)
            } else {
                (
                    SessionView { outstanding: (session.outstanding + 1) as u64, ..session },
                    ScanRequest::Inspect(id),
                )
            }
        },
        (ScanPhase::Scanning, ScanEvent::Unrelated { elapsed_secs }) => {
            if past_deadline(session, elapsed_secs) {
                stopping(session)
            } else {
                (session, ScanRequest::Nothing)
            }
        },
        (ScanPhase::Scanning, ScanEvent::Deadline { elapsed_secs }) => {
            if past_deadline(session, elapsed_secs) {
                stopping(session)
            } else {
                (session, ScanRequest::Nothing)
            }
        },
        (ScanPhase::Scanning, ScanEvent::StreamEnded) => stopping(session),
        (ScanPhase::Stopping, ScanEvent::ScanStopped(stopped)) => wind_down(
            session,
            if stopped {
                Ok(())
            } else {
                Err(Error::TransportError)
            },
        ),
        (ScanPhase::Scanning, ScanEvent::TaskFinished) | (
            ScanPhase::Stopping,
            ScanEvent::TaskFinished,
        ) => {
            if session.outstanding == 0 {
                (session, ScanRequest::Nothing)
            } else {
                (
                    SessionView { outstanding: (session.outstanding - 1) as u64, ..session },
                    ScanRequest::Nothing,
                )
            }
        },
        (ScanPhase::Draining, ScanEvent::TaskFinished) => {
            if session.outstanding == 0 {
                (session, ScanRequest::Nothing)
            } else {
                wind_down(
                    SessionView { outstanding: (session.outstanding - 1) as u64, ..session },
                    session.result,
                )
            }
        },
        _ => (session, ScanRequest::Nothing),
    }
}

/// One scan.
#[derive(Clone, Copy, Debug, PartialEq, Eq)]
pub struct ScanSession {
    phase: ScanPhase,
    duration_secs: u64,
    outstanding: u64,
    result: Result<(), Error>,
}

impl View for ScanSession {
    type V = SessionView;

    closed spec fn view(&self) -> SessionView {
        SessionView {
            phase: self.phase,
            duration_secs: self.duration_secs,
            outstanding: self.outstanding,
            result: self.result,
        }
    }
}

/// What the driver does first when a session is opened.
#[derive(Debug)]
pub struct Opening {
    pub session: ScanSession,
    /// Devices of an earlier session that the registry has let go. The driver
    /// may disconnect them.
    pub stale: Vec<Device>,
    /// The last statuses of the devices that the registry has kept, to be sent
    /// before the scan starts, so that a consumer that attaches late sees the
    /// current state.
    pub reports: Vec<DeviceInfo>,
    pub request: ScanRequest,
}

impl ScanSession {
    /// Opens a session of `duration_secs` seconds. A fresh session forgets the
    /// devices of earlier ones and hands them back; otherwise the registry stays
    /// and the statuses of its devices are reported anew. Either way the first
    /// request is to listen.
    pub fn open(devices: &mut DeviceList, duration_secs: u64, fresh: bool) -> (opening: Opening)
        ensures
            opening.session@ == opened_session(duration_secs),
            opening.request == ScanRequest::Listen,
            fresh ==> {
                &&& final(devices)@ == Entries::empty()
                &&& opening.reports@.len() == 0
                &&& opening.stale@.len() == old(devices)@.len()
                &&& forall|k: int|
                    0 <= k < opening.stale@.len() ==> (#[trigger] opening.stale@[k])@ == old(
                        devices,
                    )@[k].1
            },
            !fresh ==> {
                &&& final(devices)@ == old(devices)@
                &&& opening.stale@.len() == 0
                &&& opening.reports@.len() == old(devices)@.len()
                &&& forall|k: int|
                    0 <= k < opening.reports@.len() ==> (#[trigger] opening.reports@[k])@
                        == status_reports(old(devices)@)[k]
            },
    {
        let session = ScanSession {
            phase: ScanPhase::Listening,
            duration_secs,
            outstanding: 0,
            result: Ok(()),
        };
        if fresh {
            let stale = devices.snapshot_values();
            devices.clear();
            Opening { session, stale, reports: Vec::new(), request: ScanRequest::Listen }
        } else {
            let reports = devices.status_report();
            Opening { session, stale: Vec::new(), reports, request: ScanRequest::Listen }
        }
    }

    /// Where the session stands.
    pub fn phase(&self) -> (phase: ScanPhase)
        ensures
            phase == self@.phase,
    {
        self.phase
    }

    /// The length of the scan in seconds.
    pub fn duration_secs(&self) -> (secs: u64)
        ensures
            secs == self@.duration_secs,
    {
        self.duration_secs
    }

    /// The number of tasks handed out and not yet done.
    pub fn outstanding(&self) -> (count: u64)
        ensures
            count == self@.outstanding,
    {
        self.outstanding
    }

    /// Whether the session is over.
    pub fn is_idle(&self) -> (idle: bool)
        ensures
            idle <==> self@.phase is Idle,
    {
        match self.phase {
            ScanPhase::Idle => true,
            _ => false,
        }
    }

    fn wind_down(&mut self, result: Result<(), Error>) -> (request: ScanRequest)
        ensures
            (final(self)@, request) == wind_down(old(self)@, result),
    {
        self.result = result;
        if self.outstanding == 0 {
            self.phase = ScanPhase::Idle;
            ScanRequest::Close(result)
        } else {
            self.phase = ScanPhase::Draining;
            ScanRequest::Nothing
        }
    }

    fn stop(&mut self) -> (request: ScanRequest)
        ensures
            (final(self)@, request) == stopping(old(self)@),
    {
        self.phase = ScanPhase::Stopping;
        ScanRequest::StopScan
    }

    fn task_done(&mut self)
        ensures
            final(self)@ == (SessionView {
                outstanding: if old(self)@.outstanding == 0 {
                    0
                } else {
                    (old(self)@.outstanding - 1) as u64
                },
                ..old(self)@
            }),
    {
        if self.outstanding > 0 {
            self.outstanding = self.outstanding - 1;
        }
    }

    /// Takes an event and answers with what to do, as [`scan_step`] says.
    pub fn step(&mut self, event: ScanEvent) -> (request: ScanRequest)
        ensures
            (final(self)@, request) == scan_step(old(self)@, event),
    {
        match self.phase {
            ScanPhase::Idle => ScanRequest::Nothing,
            ScanPhase::Listening => match event {
                ScanEvent::Listening(true) => {
                    self.phase = ScanPhase::Starting;
                    ScanRequest::StartScan { secs: self.duration_secs }
                },
                ScanEvent::Listening(false) => self.wind_down(Err(Error::TransportError)),
                _ => ScanRequest::Nothing,
            },
            ScanPhase::Starting => match event {
                ScanEvent::ScanStarted(true) => {
                    self.phase = ScanPhase::Scanning;
                    ScanRequest::Nothing
                },
                ScanEvent::ScanStarted(false) => self.wind_down(Err(Error::TransportError)),
                _ => ScanRequest::Nothing,
            },
            ScanPhase::Scanning => match event {
                ScanEvent::Discovered { id, elapsed_secs } => {
                    if elapsed_secs >= self.duration_secs {
                        self.stop()
                    } else if self.outstanding == u64::MAX {
                        ScanRequest::Nothing
                    } else {
                        self.outstanding = self.outstanding + 1;
                        ScanRequest::Inspect(id)
                    }
                },
                ScanEvent::Unrelated { elapsed_secs } => {
                    if elapsed_secs >= self.duration_secs {
                        self.stop()
                    } else {
                        ScanRequest::Nothing
                    }
                },
                ScanEvent::Deadline { elapsed_secs } => {
                    if elapsed_secs >= self.duration_secs {
                        self.stop()
                    } else {
                        ScanRequest::Nothing
                    }
                },
                ScanEvent::StreamEnded => self.stop(),
                ScanEvent::TaskFinished => {
                    self.task_done();
                    ScanRequest::Nothing
                },
                _ => ScanRequest::Nothing,
            },
            ScanPhase::Stopping => match event {
                ScanEvent::ScanStopped(stopped) => {
                    let result = if stopped {
                        Ok(())
                    } else {
                        Err(Error::TransportError)
                    };
                    self.wind_down(result)
                },
                ScanEvent::TaskFinished => {
                    self.task_done();
                    ScanRequest::Nothing
                },
                _ => ScanRequest::Nothing,
            },
            ScanPhase::Draining => match event {
                ScanEvent::TaskFinished => {
                    if self.outstanding == 0 {
                        ScanRequest::Nothing
                    } else {
                        self.outstanding = self.outstanding - 1;
                        let result = self.result;
                        self.wind_down(result)
                    }
                },
                _ => ScanRequest::Nothing,
            },
        }
    }
}

/// The time that an event carries, if it carries one.
pub open spec fn event_time(event: ScanEvent) -> Option<u64> {
    match event {
        ScanEvent::Discovered { id, elapsed_secs } => Some(elapsed_secs),
        ScanEvent::Unrelated { elapsed_secs } => Some(elapsed_secs),
        ScanEvent::Deadline { elapsed_secs } => Some(elapsed_secs),
        _ => None,
    }
}

/// The scan is stopped only while it runs, and only when the deadline has been
/// reached or the adapter has no more events to give.
pub proof fn lemma_stop_not_before_deadline(session: SessionView, event: ScanEvent)
    requires
        scan_step(session, event).1 == ScanRequest::StopScan,
    ensures
        session.phase is Scanning,
        event is StreamEnded || (event_time(event) matches Some(elapsed_secs) && elapsed_secs
            >= session.duration_secs),
{
}

/// A peripheral is handed to a task only when it is discovered while the scan
/// runs and before the deadline, and the session then counts one task more.
pub proof fn lemma_inspect_only_while_scanning(
    session: SessionView,
    event: ScanEvent,
    id: DeviceIdentity,
)
    requires
        scan_step(session, event).1 == ScanRequest::Inspect(id),
    ensures
        session.phase is Scanning,
        event matches ScanEvent::Discovered { id: found, elapsed_secs } && found == id
            && elapsed_secs < session.duration_secs,
        scan_step(session, event).0.outstanding == session.outstanding + 1,
{
}

/// The channel is closed only when no task is at work, and the session is then
/// idle.
pub proof fn lemma_close_when_drained(session: SessionView, event: ScanEvent)
    requires
        scan_step(session, event).1 is Close,
    ensures
        scan_step(session, event).0.outstanding == 0,
        scan_step(session, event).0.phase is Idle,
        scan_step(session, event).1 == ScanRequest::Close(scan_step(session, event).0.result),
{
}

/// The deadline touches nothing but the scan: a task under way is not called
/// off by it, and the count of tasks changes only when a task is handed out or
/// is done.
pub proof fn lemma_deadline_spares_tasks(session: SessionView, event: ScanEvent)
    requires
        !(event is TaskFinished),
        !(scan_step(session, event).1 is Inspect),
    ensures
        scan_step(session, event).0.outstanding == session.outstanding,
{
}

/// A session after some events, with all it has asked for: one request per
/// event.
pub struct ScanTrace {
    pub session: SessionView,
    pub requests: Seq<ScanRequest>,
}

/// The run of a session over a sequence of events.
pub open spec fn scan_run(session: SessionView, events: Seq<ScanEvent>) -> ScanTrace
    decreases events.len(),
{
    if events.len() == 0 {
        ScanTrace { session, requests: Seq::empty() }
    } else {
        let before = scan_run(session, events.drop_last());
        let (after, request) = scan_step(before.session, events.last());
        ScanTrace { session: after, requests: before.requests.push(request) }
    }
}

/// How many peripherals have been handed to tasks.
pub open spec fn inspections(requests: Seq<ScanRequest>) -> nat
    decreases requests.len(),
{
    if requests.len() == 0 {
        0
    } else {
        inspections(requests.drop_last()) + if requests.last() is Inspect {
            1nat
        } else {
            0nat
        }
    }
}

/// How many times the channel has been closed.
pub open spec fn closings(requests: Seq<ScanRequest>) -> nat
    decreases requests.len(),
{
    if requests.len() == 0 {
        0
    } else {
        closings(requests.drop_last()) + if requests.last() is Close {
            1nat
        } else {
            0nat
        }
    }
}

/// The place of a phase in the course of a session.
pub open spec fn phase_order(phase: ScanPhase) -> int {
    match phase {
        ScanPhase::Listening => 0,
        ScanPhase::Starting => 1,
        ScanPhase::Scanning => 2,
        ScanPhase::Stopping => 3,
        ScanPhase::Draining => 4,
        ScanPhase::Idle => 5,
    }
}

/// What links a run of a session to the phase it has reached.
spec fn scan_consistent(duration_secs: u64, trace: ScanTrace) -> bool {
    let session = trace.session;
    let requests = trace.requests;
    &&& session.duration_secs == duration_secs
    &&& session.outstanding <= inspections(requests)
    &&& phase_order(session.phase) <= 1 ==> inspections(requests) == 0
    &&& closings(requests) == if session.phase is Idle {
        1nat
    } else {
        0nat
    }
    &&& session.phase is Idle ==> session.outstanding == 0
    &&& occurrences(requests, ScanRequest::StopScan) <= 1
    &&& phase_order(session.phase) <= 2 ==> occurrences(requests, ScanRequest::StopScan) == 0
    &&& (session.phase is Stopping || session.phase is Draining) ==> occurrences(
        requests,
        ScanRequest::StopScan,
    ) == 1
    &&& occurrences(requests, ScanRequest::StartScan { secs: duration_secs }) <= 1
    &&& session.phase is Listening ==> occurrences(
        requests,
        ScanRequest::StartScan { secs: duration_secs },
    ) == 0
    &&& 1 <= phase_order(session.phase) <= 4 ==> occurrences(
        requests,
        ScanRequest::StartScan { secs: duration_secs },
    ) == 1
    &&& occurrences(requests, ScanRequest::StopScan) <= occurrences(
        requests,
        ScanRequest::StartScan { secs: duration_secs },
    )
}

proof fn lemma_scan_consistent(duration_secs: u64, events: Seq<ScanEvent>)
    ensures
        scan_consistent(duration_secs, scan_run(opened_session(duration_secs), events)),
    decreases events.len(),
{
    let start = opened_session(duration_secs);
    if events.len() > 0 {
        let earlier = events.drop_last();
        lemma_scan_consistent(duration_secs, earlier);
        let before = scan_run(start, earlier);
        let (after, request) = scan_step(before.session, events.last());
        assert(before.requests.push(request).drop_last() =~= before.requests);
        lemma_occurrences_push(before.requests, request, ScanRequest::StopScan);
        lemma_occurrences_push(
            before.requests,
            request,
            ScanRequest::StartScan { secs: duration_secs },
        );
    }
}

/// Whether an event is a possible outcome of a request of a session.
pub open spec fn scan_answers(request: ScanRequest, event: ScanEvent) -> bool {
    match request {
        ScanRequest::Listen => event is Listening,
        ScanRequest::StartScan { .. } => event is ScanStarted,
        ScanRequest::StopScan => event is ScanStopped,
        _ => false,
    }
}

/// No outcome is lost: a session that has asked to listen, to start or to stop
/// the scan takes whatever comes of it and moves on.
pub proof fn lemma_scan_answer_is_taken(session: SessionView, event: ScanEvent, answer: ScanEvent)
    requires
        scan_answers(scan_step(session, event).1, answer),
    ensures
        phase_order(scan_step(scan_step(session, event).0, answer).0.phase) > phase_order(
            scan_step(session, event).0.phase,
        ),
{
}

/// A session that was just opened takes the outcome of listening.
pub proof fn lemma_opened_session_listens(duration_secs: u64, answer: ScanEvent)
    requires
        scan_answers(ScanRequest::Listen, answer),
    ensures
        phase_order(scan_step(opened_session(duration_secs), answer).0.phase) > phase_order(
            ScanPhase::Listening,
        ),
{
}

/// A session never goes back: from starting up to scanning, to stopping, to
/// draining, to idle.
pub proof fn lemma_phases_in_order(session: SessionView, event: ScanEvent)
    ensures
        phase_order(session.phase) <= phase_order(scan_step(session, event).0.phase),
        session.phase is Idle ==> scan_step(session, event) == (session, ScanRequest::Nothing),
{
}

/// In every run of a session the scan is started at most once, and stopped at
/// most once and only if it was started. The channel is closed exactly when the
/// session has become idle, once, with no task at work. No peripheral is handed out before the scan
/// has started, and the session waits for no more tasks than it has handed out.
pub proof fn lemma_session_closes_once(duration_secs: u64, events: Seq<ScanEvent>)
    ensures
        ({
            let trace = scan_run(opened_session(duration_secs), events);
            &&& occurrences(trace.requests, ScanRequest::StartScan { secs: duration_secs }) <= 1
            &&& occurrences(trace.requests, ScanRequest::StopScan) <= occurrences(
                trace.requests,
                ScanRequest::StartScan { secs: duration_secs },
            )
            &&& closings(trace.requests) <= 1
            &&& closings(trace.requests) == 1 <==> trace.session.phase is Idle
            &&& trace.session.phase is Idle ==> trace.session.outstanding == 0
            &&& trace.session.outstanding <= inspections(trace.requests)
            &&& phase_order(trace.session.phase) <= 1 ==> inspections(trace.requests) == 0
            &&& trace.session.duration_secs == duration_secs
        }),
{
    lemma_scan_consistent(duration_secs, events);
}

} // verus!
