//! What holds of every run of a flow, whatever the radio does.
//!
//! A run is a flow that starts idle and takes a sequence of events. The laws
//! here are proved for all sequences, the ones no honest driver would produce
//! included.

use crate::dto::info::{is_report, DeviceInfoView};
use crate::dto::LocalStatusView;
use crate::error::Error;
use crate::flow::{command_of, flow_step, Event, FlowView, Request, Stage};
use vstd::prelude::*;

verus! {

/// A flow after some events, with all it has said and asked for.
pub struct Trace {
    pub flow: FlowView,
    pub messages: Seq<DeviceInfoView>,
    /// One request per event, `Nothing` for an event that was not awaited.
    pub requests: Seq<Request>,
}

/// The run of a flow over a sequence of events.
pub open spec fn run(flow: FlowView, events: Seq<Event>) -> Trace
    decreases events.len(),
{
    if events.len() == 0 {
        Trace { flow, messages: Seq::empty(), requests: Seq::empty() }
    } else {
        let before = run(flow, events.drop_last());
        let (after, step) = flow_step(before.flow, events.last());
        Trace {
            flow: after,
            messages: match step.message {
                Some(info) => before.messages.push(info),
                None => before.messages,
            },
            requests: before.requests.push(step.request),
        }
    }
}

/// Whether a flow is one that has not begun.
pub open spec fn is_initial(flow: FlowView) -> bool {
    flow.stage is Idle && flow.outcome is Ok
}

/// The place of a message in the course of a flow: the start, the connection,
/// a remote status, a failed verification, the end.
pub open spec fn rank(info: DeviceInfoView) -> int {
    match info.local {
        None => 2,
        Some(LocalStatusView::Initializing) => 0,
        Some(LocalStatusView::Connected) => 1,
        Some(LocalStatusView::FailVerify) => 3,
        Some(LocalStatusView::Disconnected) => 4,
        Some(LocalStatusView::FailConnection) => 4,
        Some(LocalStatusView::Ignored) => 5,
        Some(LocalStatusView::Error(_)) => 5,
    }
}

/// Messages in causal order: each comes later in the course of the flow than
/// those before it, and only remote statuses follow one another.
pub open spec fn causal_order(messages: Seq<DeviceInfoView>) -> bool {
    forall|i: int, j: int|
        0 <= i < j < messages.len() ==> {
            &&& rank(#[trigger] messages[i]) <= rank(#[trigger] messages[j])
            &&& rank(messages[i]) == rank(messages[j]) ==> rank(messages[i]) == 2
        }
}

/// How many times an item occurs in a sequence.
pub open spec fn occurrences<T>(items: Seq<T>, wanted: T) -> nat
    decreases items.len(),
{
    if items.len() == 0 {
        0
    } else {
        occurrences(items.drop_last(), wanted) + if items.last() == wanted {
            1nat
        } else {
            0nat
        }
    }
}

/// Whether a message relays a status that ends the command of the flow.
pub open spec fn is_final_report(flow: FlowView, info: DeviceInfoView) -> bool {
    &&& rank(info) == 2
    &&& info.remote matches Some(status)
    &&& flow.policy.ends(command_of(flow.purpose), status)
}

/// The highest rank that a flow at this stage can have spoken at.
spec fn reached(stage: Stage) -> int {
    match stage {
        Stage::Idle => -1,
        Stage::QueryingConnection => 0,
        Stage::Connecting => 0,
        Stage::DiscoveringServices => 1,
        Stage::Reading => 1,
        Stage::Subscribing(_) => 1,
        Stage::Writing { .. } => 1,
        Stage::Relaying(_) => 2,
        Stage::Unsubscribing => 2,
        Stage::Disconnecting => 3,
        Stage::Finished => 4,
    }
}

/// Whether a flow has asked for the disconnect.
spec fn past_disconnect(flow: FlowView) -> bool {
    flow.stage is Disconnecting || (flow.stage is Finished && flow.outcome != Err::<(), Error>(
        Error::ConnectionFailed,
    ))
}

/// What links a run to the stage it has reached.
spec fn consistent(start: FlowView, trace: Trace) -> bool {
    let flow = trace.flow;
    let messages = trace.messages;
    &&& flow.purpose == start.purpose
    &&& flow.policy == start.policy
    &&& flow.device.id == start.device.id
    &&& flow.device.address == start.device.address
    &&& flow.device.name == start.device.name
    &&& !(flow.stage is Finished) ==> flow.outcome != Err::<(), Error>(Error::ConnectionFailed)
    &&& forall|i: int|
        0 <= i < messages.len() ==> {
            &&& 0 <= rank(#[trigger] messages[i]) <= reached(flow.stage)
            &&& is_report(messages[i])
            &&& messages[i].id == start.device.id
            &&& messages[i].addr == start.device.address
            &&& messages[i].name == start.device.name
        }
    &&& causal_order(messages)
    &&& messages.len() > 0 ==> rank(messages[0]) == 0
    &&& reached(flow.stage) >= 0 ==> messages.len() > 0
    &&& occurrences(trace.requests, Request::Disconnect) == if past_disconnect(flow) {
        1nat
    } else {
        0nat
    }
    &&& occurrences(trace.requests, Request::Connect) <= 1
    &&& (flow.stage is Idle || flow.stage is QueryingConnection) ==> occurrences(
        trace.requests,
        Request::Connect,
    ) == 0
    &&& (flow.stage is Relaying || reached(flow.stage) <= 1) ==> forall|i: int|
        0 <= i < messages.len() ==> !is_final_report(start, #[trigger] messages[i])
    &&& forall|i: int, j: int|
        0 <= i < j < messages.len() && rank(#[trigger] messages[j]) == 2 ==> !is_final_report(
            start,
            #[trigger] messages[i],
        )
    &&& flow.purpose is Verify ==> {
        &&& !(flow.stage is Subscribing) && !(flow.stage is Writing) && !(flow.stage is Relaying)
            && !(flow.stage is Unsubscribing)
        &&& forall|i: int, j: int|
            0 <= i < j < messages.len() ==> {
                &&& rank(#[trigger] messages[i]) < rank(#[trigger] messages[j])
                &&& rank(messages[i]) == 2 ==> rank(messages[j]) == 4
            }
    }
    &&& past_disconnect(flow) && flow.stage is Finished ==> flow.device.characteristic is None
    &&& flow.stage is Connecting ==> flow.device.characteristic is None
}

/// Appending an item adds one occurrence of it and none of any other.
pub proof fn lemma_occurrences_push<T>(items: Seq<T>, last: T, wanted: T)
    ensures
        occurrences(items.push(last), wanted) == occurrences(items, wanted) + if last == wanted {
            1nat
        } else {
            0nat
        },
{
    assert(items.push(last).drop_last() =~= items);
}

proof fn lemma_consistent(start: FlowView, events: Seq<Event>)
    requires
        is_initial(start),
    ensures
        consistent(start, run(start, events)),
    decreases events.len(),
{
    if events.len() > 0 {
        let earlier = events.drop_last();
        lemma_consistent(start, earlier);
        let before = run(start, earlier);
        let (after, step) = flow_step(before.flow, events.last());
        let trace = run(start, events);
        lemma_occurrences_push(before.requests, step.request, Request::Disconnect);
        lemma_occurrences_push(before.requests, step.request, Request::Connect);
        match step.message {
            Some(info) => {
                assert(trace.messages == before.messages.push(info));
                assert(reached(before.flow.stage) < rank(info) || (rank(info) == 2
                    && before.flow.stage is Relaying));
                assert(0 <= rank(info) <= reached(after.stage));
                assert forall|i: int| 0 <= i < trace.messages.len() implies {
                    &&& 0 <= rank(#[trigger] trace.messages[i]) <= reached(after.stage)
                    &&& is_report(trace.messages[i])
                    &&& trace.messages[i].id == start.device.id
                    &&& trace.messages[i].addr == start.device.address
                    &&& trace.messages[i].name == start.device.name
                } by {
                    if i < before.messages.len() {
                        assert(trace.messages[i] == before.messages[i]);
                    }
                }
            },
            None => {
                assert(trace.messages == before.messages);
            },
        }
    }
}

/// The messages of a run come in causal order, and the first one says that the
/// flow has begun.
pub proof fn lemma_messages_in_causal_order(start: FlowView, events: Seq<Event>)
    requires
        is_initial(start),
    ensures
        causal_order(run(start, events).messages),
        run(start, events).messages.len() > 0 ==> run(start, events).messages[0].local == Some(
            LocalStatusView::Initializing,
        ),
{
    lemma_consistent(start, events);
}

/// Every message of a run reports a status of the device of the flow, under the
/// identity, address and name that the device had at the start.
pub proof fn lemma_messages_report_the_device(start: FlowView, events: Seq<Event>, at: int)
    requires
        is_initial(start),
        0 <= at < run(start, events).messages.len(),
    ensures
        is_report(run(start, events).messages[at]),
        run(start, events).messages[at].id == start.device.id,
        run(start, events).messages[at].addr == start.device.address,
        run(start, events).messages[at].name == start.device.name,
        0 <= rank(run(start, events).messages[at]) <= 4,
{
    lemma_consistent(start, events);
}

/// A run asks for the disconnect at most once, and a run that is over has asked
/// for it exactly once unless the connection could not be had. It asks to
/// connect at most once.
pub proof fn lemma_disconnect_once(start: FlowView, events: Seq<Event>)
    requires
        is_initial(start),
    ensures
        occurrences(run(start, events).requests, Request::Disconnect) <= 1,
        occurrences(run(start, events).requests, Request::Connect) <= 1,
        run(start, events).flow.stage is Finished ==> (occurrences(
            run(start, events).requests,
            Request::Disconnect,
        ) == 1 <==> run(start, events).flow.outcome != Err::<(), Error>(Error::ConnectionFailed)),
{
    lemma_consistent(start, events);
}

/// Once a status that ends the command has been relayed, no other status is
/// relayed: among the remote statuses of a run only the last can be final.
pub proof fn lemma_final_report_is_last(start: FlowView, events: Seq<Event>, i: int, j: int)
    requires
        is_initial(start),
        0 <= i < j < run(start, events).messages.len(),
        rank(run(start, events).messages[j]) == 2,
    ensures
        !is_final_report(start, run(start, events).messages[i]),
{
    lemma_consistent(start, events);
}

/// In a verification every message comes strictly later in the course of the
/// flow than those before it, so each kind occurs at most once; and after a
/// remote status nothing follows but the end, so a verification that failed has
/// reported no remote status.
pub proof fn lemma_verification_reports_once(start: FlowView, events: Seq<Event>, i: int, j: int)
    requires
        is_initial(start),
        start.purpose is Verify,
        0 <= i < j < run(start, events).messages.len(),
    ensures
        rank(run(start, events).messages[i]) < rank(run(start, events).messages[j]),
        !(rank(run(start, events).messages[i]) == 2 && rank(run(start, events).messages[j]) == 3),
        !(rank(run(start, events).messages[i]) == 3 && rank(run(start, events).messages[j]) == 2),
{
    lemma_consistent(start, events);
}

/// The handle of the power characteristic does not outlive the connection: a
/// run that ended with a disconnect leaves the device without one.
pub proof fn lemma_handle_dropped_at_disconnect(start: FlowView, events: Seq<Event>)
    requires
        is_initial(start),
        run(start, events).flow.stage is Finished,
        run(start, events).flow.outcome != Err::<(), Error>(Error::ConnectionFailed),
    ensures
        run(start, events).flow.device.characteristic is None,
{
    lemma_consistent(start, events);
}

/// A flow asks to connect only when the peripheral has said that it is not
/// connected.
pub proof fn lemma_connect_only_when_disconnected(flow: FlowView, event: Event)
    requires
        flow_step(flow, event).1.request == Request::Connect,
    ensures
        flow.stage is QueryingConnection,
        event == Event::ConnectionState(Some(false)),
{
}

/// A flow that is over stays as it is, says nothing and asks for nothing.
pub proof fn lemma_finished_stays(flow: FlowView, event: Event)
    requires
        flow.stage is Finished,
    ensures
        flow_step(flow, event).0 == flow,
        flow_step(flow, event).1.message is None,
        flow_step(flow, event).1.request == Request::Nothing,
{
}

/// Whether an event is a possible outcome of a request.
pub open spec fn answers(request: Request, event: Event) -> bool {
    match request {
        Request::Nothing => false,
        Request::QueryConnection => event is ConnectionState,
        Request::Connect => event is Connected,
        Request::DiscoverServices => event is Services,
        Request::Read(_) => event is Value,
        Request::Subscribe(_) => event is Subscribed,
        Request::Write { .. } => event is Written,
        Request::AwaitNotification { .. } => event is Notification || event is NotificationsEnded
            || event is WaitElapsed,
        Request::Unsubscribe(_) => event is Unsubscribed,
        Request::Disconnect => event is Disconnected,
        Request::Finish(_) => false,
    }
}

/// How far a flow at this stage is from its end, in steps at most.
pub open spec fn remaining(stage: Stage) -> nat {
    match stage {
        Stage::Idle => 9,
        Stage::QueryingConnection => 8,
        Stage::Connecting => 7,
        Stage::DiscoveringServices => 6,
        Stage::Reading => 5,
        Stage::Subscribing(_) => 5,
        Stage::Writing { .. } => 4,
        Stage::Relaying(_) => 3,
        Stage::Unsubscribing => 2,
        Stage::Disconnecting => 1,
        Stage::Finished => 0,
    }
}

/// No outcome is lost: whatever a flow asks for, it takes every possible outcome
/// of it, and answers with a request of its own or with the end of the flow. A
/// driver that carries out each request and reports its outcome never finds the
/// flow deaf.
pub proof fn lemma_every_answer_is_taken(flow: FlowView, event: Event, answer: Event)
    requires
        answers(flow_step(flow, event).1.request, answer),
    ensures
        flow_step(flow_step(flow, event).0, answer).1.request != Request::Nothing,
{
}

/// Every outcome that a flow takes brings it nearer to its end, but for one: a
/// notification of a status that does not end the command, after which the flow
/// waits for the next. That wait is bounded, and its expiry is an outcome like
/// any other. So no device can hold a flow for ever.
pub proof fn lemma_flow_advances(flow: FlowView, event: Event)
    requires
        flow_step(flow, event).1.request != Request::Nothing,
    ensures
        remaining(flow_step(flow, event).0.stage) < remaining(flow.stage) || (flow.stage is Relaying
            && event is Notification && flow_step(flow, event).1.request
            == Request::AwaitNotification { within_secs: flow.policy.wait_secs }),
        flow_step(flow, event).1.request is Finish <==> flow_step(flow, event).0.stage is Finished,
{
}

/// A flow never changes who its device is: identity, address and name stay as
/// they were at the start, and so do the purpose and the policy of the flow.
pub proof fn lemma_flow_keeps_identity(start: FlowView, events: Seq<Event>)
    requires
        is_initial(start),
    ensures
        run(start, events).flow.device.id == start.device.id,
        run(start, events).flow.device.address == start.device.address,
        run(start, events).flow.device.name == start.device.name,
        run(start, events).flow.purpose == start.purpose,
        run(start, events).flow.policy == start.policy,
{
    lemma_consistent(start, events);
}

} // verus!
