use vstd::prelude::*;

use crate::error::{FaceTimeIdsQuicError, NativeSignalError};
use crate::identity::FaceTimeIdsQuicConfiguration;
use crate::text::push_str;
use vstd::string::*;

verus! {

/// Which way a native signal travels.
#[derive(Clone, Copy, Debug, PartialEq, Eq)]
pub enum FTNativeSignalDirection {
    Inbound,
    Outbound,
}

/// One inbound datagram handed to the SKE receiver, with what the receiver
/// is told about it.
pub struct SkeDatagramDelivery {
    pub guid: String,
    pub ns_since_epoch: Option<u64>,
    pub participant_id: Option<u64>,
    pub direction: FTNativeSignalDirection,
    pub datagram: Vec<u8>,
}

/// What happened since the last action of the receive loop.
pub enum ReceiveEvent {
    /// The connection gave the next inbound datagram, or `None` once it closed.
    Received(Option<Vec<u8>>),
    /// The connection failed to receive.
    ReceiveFailed(FaceTimeIdsQuicError),
    /// The SKE receiver accepted the datagram it was handed.
    Delivered,
    /// The SKE receiver refused the datagram it was handed.
    DeliveryFailed(NativeSignalError),
}

/// What the receive loop does next.
pub enum ReceiveAction {
    /// Receive the next datagram from the connection.
    ReceiveNext,
    /// Hand this datagram to the SKE receiver, and nothing else until it answers.
    Deliver(SkeDatagramDelivery),
    /// Stop, with the number of datagrams delivered or the error that ended it.
    Finish(Result<usize, FaceTimeIdsQuicError>),
}

/// The number of delivered datagrams after an event: one more, saturating,
/// once the receiver accepted one; unchanged otherwise.
pub open spec fn received_after(received: usize, event: ReceiveEvent) -> usize {
    match event {
        ReceiveEvent::Delivered => if received == usize::MAX {
            received
        } else {
            (received + 1) as usize
        },
        _ => received,
    }
}

/// The number of delivered datagrams after a run of events.
pub open spec fn received_after_all(received: usize, events: Seq<ReceiveEvent>) -> usize
    decreases events.len(),
{
    if events.len() == 0 {
        received
    } else {
        received_after(received_after_all(received, events.drop_last()), events.last())
    }
}

/// How many of the events are accepted deliveries.
pub open spec fn accepted_deliveries(events: Seq<ReceiveEvent>) -> nat
    decreases events.len(),
{
    if events.len() == 0 {
        0
    } else {
        accepted_deliveries(events.drop_last()) + if events.last() is Delivered {
            1nat
        } else {
            0nat
        }
    }
}

/// Counting from zero, the receive loop's count is the number of datagrams
/// the SKE receiver accepted, held at `usize::MAX` once it gets there.
pub proof fn lemma_received_counts_accepted_deliveries(events: Seq<ReceiveEvent>)
    ensures
        received_after_all(0, events) == if accepted_deliveries(events) <= usize::MAX {
            accepted_deliveries(events)
        } else {
            usize::MAX as nat
        },
    decreases events.len(),
{
    if events.len() > 0 {
        lemma_received_counts_accepted_deliveries(events.drop_last());
    }
}

/// What one step of the receive loop does with an event, for the session
/// `guid` and the participant `participant_id`: it counts as
/// `received_after` says; it hands a received datagram, unchanged, to the SKE
/// receiver as an inbound signal of that session and participant; it
/// receives again after an accepted delivery; and it finishes with the count
/// once the connection is closed, or with the failure that ended the loop.
pub open spec fn step_outcome(
    guid: Seq<char>,
    participant_id: u64,
    received: usize,
    ns_since_epoch: Option<u64>,
    event: ReceiveEvent,
    r: (usize, ReceiveAction),
) -> bool {
    &&& r.0 == received_after(received, event)
    &&& match event {
        ReceiveEvent::Received(Some(datagram)) => r.1 matches ReceiveAction::Deliver(delivery)
            && delivery.guid@ == guid && delivery.ns_since_epoch == ns_since_epoch
            && delivery.participant_id == Some(participant_id) && delivery.direction
            == FTNativeSignalDirection::Inbound && delivery.datagram@ == datagram@,
        ReceiveEvent::Received(None) => r.1 == ReceiveAction::Finish(Ok(received)),
        ReceiveEvent::ReceiveFailed(error) => r.1 == ReceiveAction::Finish(Err(error)),
        ReceiveEvent::Delivered => r.1 == ReceiveAction::ReceiveNext,
        ReceiveEvent::DeliveryFailed(error) => r.1 == ReceiveAction::Finish(
            Err(FaceTimeIdsQuicError::NativeSignal(error)),
        ),
    }
}

/// A received datagram is handed on at once, unchanged, with the session as
/// guid, the timestamp the loop was given (absent or not), the participant
/// and the inbound direction; the count does not change.
pub proof fn lemma_received_datagram_is_handed_on(
    guid: Seq<char>,
    participant_id: u64,
    received: usize,
    ns_since_epoch: Option<u64>,
    datagram: Vec<u8>,
    r: (usize, ReceiveAction),
)
    requires
        step_outcome(
            guid,
            participant_id,
            received,
            ns_since_epoch,
            ReceiveEvent::Received(Some(datagram)),
            r,
        ),
    ensures
        r.0 == received,
        r.1 is Deliver,
        r.1->Deliver_0.guid@ == guid,
        r.1->Deliver_0.ns_since_epoch == ns_since_epoch,
        r.1->Deliver_0.participant_id == Some(participant_id),
        r.1->Deliver_0.direction == FTNativeSignalDirection::Inbound,
        r.1->Deliver_0.datagram@ == datagram@,
{
}

/// A failure to receive ends the loop with that very failure; the count does
/// not change.
pub proof fn lemma_receive_failure_is_passed_on(
    guid: Seq<char>,
    participant_id: u64,
    received: usize,
    ns_since_epoch: Option<u64>,
    error: FaceTimeIdsQuicError,
    r: (usize, ReceiveAction),
)
    requires
        step_outcome(
            guid,
            participant_id,
            received,
            ns_since_epoch,
            ReceiveEvent::ReceiveFailed(error),
            r,
        ),
    ensures
        r.0 == received,
        r.1 == ReceiveAction::Finish(Err(error)),
{
}

/// A refusal by the SKE receiver ends the loop with that refusal as a
/// native-signal error; the count does not change.
pub proof fn lemma_delivery_failure_is_passed_on(
    guid: Seq<char>,
    participant_id: u64,
    received: usize,
    ns_since_epoch: Option<u64>,
    error: NativeSignalError,
    r: (usize, ReceiveAction),
)
    requires
        step_outcome(
            guid,
            participant_id,
            received,
            ns_since_epoch,
            ReceiveEvent::DeliveryFailed(error),
            r,
        ),
    ensures
        r.0 == received,
        r.1 == ReceiveAction::Finish(Err(FaceTimeIdsQuicError::NativeSignal(error))),
{
}

/// A closed connection ends the loop with the count so far; an accepted
/// delivery adds one to the count, up to `usize::MAX`, and receives again.
pub proof fn lemma_close_and_acceptance(
    guid: Seq<char>,
    participant_id: u64,
    received: usize,
    ns_since_epoch: Option<u64>,
    closed: (usize, ReceiveAction),
    accepted: (usize, ReceiveAction),
)
    requires
        step_outcome(
            guid,
            participant_id,
            received,
            ns_since_epoch,
            ReceiveEvent::Received(None),
            closed,
        ),
        step_outcome(
            guid,
            participant_id,
            received,
            ns_since_epoch,
            ReceiveEvent::Delivered,
            accepted,
        ),
    ensures
        closed.0 == received,
        closed.1 == ReceiveAction::Finish(Ok(received)),
        received < usize::MAX ==> accepted.0 == received + 1,
        received == usize::MAX ==> accepted.0 == received,
        accepted.1 == ReceiveAction::ReceiveNext,
{
}

/// The datagrams that a run of events brought in from the connection, in order.
pub open spec fn received_datagrams(events: Seq<ReceiveEvent>) -> Seq<Seq<u8>>
    decreases events.len(),
{
    if events.len() == 0 {
        Seq::empty()
    } else {
        let before = received_datagrams(events.drop_last());
        match events.last() {
            ReceiveEvent::Received(Some(datagram)) => before.push(datagram@),
            _ => before,
        }
    }
}

/// The datagrams that a run of steps handed to the SKE receiver, in order.
pub open spec fn handed_datagrams(steps: Seq<(usize, ReceiveAction)>) -> Seq<Seq<u8>>
    decreases steps.len(),
{
    if steps.len() == 0 {
        Seq::empty()
    } else {
        let before = handed_datagrams(steps.drop_last());
        match steps.last().1 {
            ReceiveAction::Deliver(delivery) => before.push(delivery.datagram@),
            _ => before,
        }
    }
}

/// Over any run of the receive loop, the SKE receiver is handed exactly the
/// datagrams that the connection gave, each once, unchanged and in the order
/// they arrived.
pub proof fn lemma_datagrams_reach_receiver_in_order(
    guid: Seq<char>,
    participant_id: u64,
    ns_since_epoch: Option<u64>,
    counts: Seq<usize>,
    events: Seq<ReceiveEvent>,
    steps: Seq<(usize, ReceiveAction)>,
)
    requires
        counts.len() == events.len(),
        steps.len() == events.len(),
        forall|i: int|
            0 <= i < events.len() ==> step_outcome(
                guid,
                participant_id,
                #[trigger] counts[i],
                ns_since_epoch,
                events[i],
                steps[i],
            ),
    ensures
        handed_datagrams(steps) == received_datagrams(events),
    decreases events.len(),
{
    if events.len() > 0 {
        let n = events.len() - 1;
        assert(step_outcome(guid, participant_id, counts[n], ns_since_epoch, events[n], steps[n]));
        lemma_datagrams_reach_receiver_in_order(
            guid,
            participant_id,
            ns_since_epoch,
            counts.drop_last(),
            events.drop_last(),
            steps.drop_last(),
        );
    }
}

/// The IDS datagram transport of one configured identity.
#[derive(Clone)]
pub struct FaceTimeIdsQuicTransport {
    configuration: FaceTimeIdsQuicConfiguration,
}

impl FaceTimeIdsQuicTransport {
    /// The configuration that the transport was made with.
    pub closed spec fn spec_configuration(&self) -> FaceTimeIdsQuicConfiguration {
        self.configuration
    }

    /// A transport for this configuration.
    pub fn new(configuration: FaceTimeIdsQuicConfiguration) -> (transport: Self)
        ensures
            transport.spec_configuration() == configuration,
    {
        FaceTimeIdsQuicTransport { configuration }
    }

    /// The configuration that the transport was made with.
    pub fn configuration(&self) -> (configuration: &FaceTimeIdsQuicConfiguration)
        ensures
            *configuration == self.spec_configuration(),
    {
        &self.configuration
    }

    /// The text that the transport shows of itself: its configuration's
    /// text, with the local address as `local_address_text` has it.
    pub open spec fn spec_debug_text(&self, local_address_text: Seq<char>) -> Seq<char> {
        "FaceTimeIdsQuicTransport { configuration: "@ + self.spec_configuration().spec_debug_text(
            local_address_text,
        ) + " }"@
    }

    /// The text that the transport shows of itself, given the text of its
    /// configuration's local address.
    pub fn debug_text(&self, local_address_text: &str) -> (text: String)
        ensures
            text@ == self.spec_debug_text(local_address_text@),
    {
        let mut text = String::from_str("FaceTimeIdsQuicTransport { configuration: ");
        let configuration = self.configuration.debug_text(local_address_text);
        push_str(&mut text, configuration.as_str());
        push_str(&mut text, " }");
        text
    }

    /// One step of the inbound receive loop, which starts by receiving with a
    /// count of zero. A received datagram is handed, unchanged, to the SKE
    /// receiver as an inbound signal of this session and participant before
    /// anything else is received, so datagrams reach the receiver in the
    /// order they arrived; each accepted one is counted; a closed connection
    /// ends the loop with the count, and any failure ends it with that failure.
    pub fn receive_step(&self, received: usize, ns_since_epoch: Option<u64>, event: ReceiveEvent) -> (r: (
        usize,
        ReceiveAction,
    ))
        ensures
            step_outcome(
                self.spec_configuration().identity.session_id@,
                self.spec_configuration().identity.participant_id,
                received,
                ns_since_epoch,
                event,
                r,
            ),
    {
        match event {
            ReceiveEvent::Received(Some(datagram)) => (
                received,
                ReceiveAction::Deliver(
                    SkeDatagramDelivery {
                        guid: self.configuration.identity.session_id.clone(),
                        ns_since_epoch,
                        participant_id: Some(self.configuration.identity.participant_id),
                        direction: FTNativeSignalDirection::Inbound,
                        datagram,
                    },
                ),
            ),
            ReceiveEvent::Received(None) => (received, ReceiveAction::Finish(Ok(received))),
            ReceiveEvent::ReceiveFailed(error) => (received, ReceiveAction::Finish(Err(error))),
            ReceiveEvent::Delivered => (received.saturating_add(1), ReceiveAction::ReceiveNext),
            ReceiveEvent::DeliveryFailed(error) => (
                received,
                ReceiveAction::Finish(Err(FaceTimeIdsQuicError::NativeSignal(error))),
            ),
        }
    }
}

} // verus!
