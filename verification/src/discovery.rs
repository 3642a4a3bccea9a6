//! The broadcast discovery engine.
//!
//! Discovery sends one WHO-IS probe to a broadcast address and then
//! collects I-AM replies from unknown peers for as long as datagrams keep
//! arriving within the inactivity window. The engine here is the decision
//! core: a state machine from probe to collection to close, and a step
//! function that says for every observed event — a datagram, a receive
//! failure, an elapsed window — what is delivered, reported, skipped, or
//! ended. The embedding program owns the socket, the background task and
//! the result channel, and drives the engine with the events it sees.

use vstd::prelude::*;

use crate::addr::PeerAddr;
use crate::codec::{encode_who_is_broadcast, who_is_broadcast_frame, BUF_SIZE};
use crate::error::{Error, TransportFault};
use crate::frame::{classify_bytes, frame_class, ReplyKind};

verus! {

/// A device found during discovery: one record per accepted reply, no
/// deduplication.
#[derive(Clone, Copy, Debug, PartialEq, Eq)]
pub struct Device {
    /// The instance number of the device object that announced itself.
    pub id: u32,
    /// The device's vendor identifier.
    pub vendor_id: u16,
    /// The address the reply came from.
    pub addr: PeerAddr,
}

/// The discovery lifecycle: a probe is sent once, then replies are
/// collected until the window closes or the consumer leaves.
#[derive(Clone, Copy, Debug, PartialEq, Eq, Structural)]
pub enum DiscoveryState {
    /// Nothing sent yet.
    Idle,
    /// The probe went out; collection has not started.
    ProbeSent,
    /// The collection loop is running.
    Collecting,
    /// Terminal: no further reply will be delivered.
    Closed,
}

/// What the transport observed while the collection loop waited.
#[derive(Debug, PartialEq, Eq)]
pub enum RecvEvent {
    /// No datagram arrived within the inactivity window.
    TimedOut,
    /// The receive itself failed underneath the window.
    Failed(TransportFault),
    /// One datagram arrived from the given address.
    Datagram(Vec<u8>, PeerAddr),
}

/// An event whose datagram, if any, fits the MTU-sized receive buffer.
pub open spec fn event_wf(event: RecvEvent) -> bool {
    match event {
        RecvEvent::Datagram(bytes, from) => bytes@.len() <= BUF_SIZE,
        _ => true,
    }
}

/// What the collection loop does with one event.
#[derive(Clone, Copy, Debug, PartialEq, Eq)]
pub enum CollectAction {
    /// End collection normally: the window elapsed.
    Finish,
    /// Forward this error to the consumer and keep collecting.
    Report(Error),
    /// Deliver this device record to the consumer.
    Deliver(Device),
    /// Ignore the datagram and keep collecting.
    Skip,
}

/// The decision the collection loop takes on one event: an elapsed window
/// ends collection; a receive failure is reported and tolerated; a
/// matching reply becomes a device record carrying the sender's address;
/// any other well-formed message is ignored; undecodable bytes are
/// reported.
pub open spec fn collect_step(event: RecvEvent) -> CollectAction {
    match event {
        RecvEvent::TimedOut => CollectAction::Finish,
        RecvEvent::Failed(fault) => CollectAction::Report(Error::for_fault_spec(fault)),
        RecvEvent::Datagram(bytes, from) => match frame_class(bytes@) {
            ReplyKind::IAm { device_instance, vendor_id } => CollectAction::Deliver(Device {
                id: device_instance,
                vendor_id,
                addr: from,
            }),
            ReplyKind::Malformed => CollectAction::Report(Error::Codec),
            _ => CollectAction::Skip,
        },
    }
}

/// An event carrying a well-formed reply of the matching kind.
pub open spec fn is_matching_datagram(event: RecvEvent) -> bool {
    match event {
        RecvEvent::Datagram(bytes, from) => frame_class(bytes@) matches ReplyKind::IAm { .. },
        _ => false,
    }
}

/// The record a matching reply is delivered as: the decoded identifiers
/// with the sender's address attached.
pub open spec fn delivered_record(event: RecvEvent) -> Result<Device, Error>
    recommends
        is_matching_datagram(event),
{
    match event {
        RecvEvent::Datagram(bytes, from) => match frame_class(bytes@) {
            ReplyKind::IAm { device_instance, vendor_id } => Ok(Device {
                id: device_instance,
                vendor_id,
                addr: from,
            }),
            _ => Err(Error::Codec),
        },
        _ => Err(Error::Codec),
    }
}

/// Everything the collection loop sends on the result channel for a given
/// sequence of observed events, in arrival order, up to the first elapsed
/// window.
pub open spec fn collection_trace(events: Seq<RecvEvent>) -> Seq<Result<Device, Error>>
    decreases events.len(),
{
    if events.len() == 0 {
        Seq::empty()
    } else {
        match collect_step(events.first()) {
            CollectAction::Finish => Seq::empty(),
            CollectAction::Deliver(d) => seq![Ok::<Device, Error>(d)] + collection_trace(
                events.drop_first(),
            ),
            CollectAction::Report(e) => seq![Err::<Device, Error>(e)] + collection_trace(
                events.drop_first(),
            ),
            CollectAction::Skip => collection_trace(events.drop_first()),
        }
    }
}

/// The discovery engine's state machine. The embedding program performs
/// each send and receive and reports what happened; the engine decides,
/// and its state says which steps remain possible.
pub struct DiscoveryEngine {
    state: DiscoveryState,
}

impl View for DiscoveryEngine {
    type V = DiscoveryState;

    closed spec fn view(&self) -> DiscoveryState {
        self.state
    }
}

impl DiscoveryEngine {
    /// A fresh engine, nothing sent yet.
    pub fn new() -> (e: DiscoveryEngine)
        ensures
            e@ == DiscoveryState::Idle,
    {
        DiscoveryEngine { state: DiscoveryState::Idle }
    }

    /// The probe to broadcast: the WHO-IS query addressed to every
    /// network.
    pub fn probe_frame(&self) -> (frame: Vec<u8>)
        requires
            self@ == DiscoveryState::Idle,
        ensures
            frame@ == who_is_broadcast_frame(),
    {
        encode_who_is_broadcast()
    }

    /// Records that the probe went out; collection may start.
    pub fn probe_sent(&mut self)
        requires
            old(self)@ == DiscoveryState::Idle,
        ensures
            final(self)@ == DiscoveryState::ProbeSent,
    {
        self.state = DiscoveryState::ProbeSent;
    }

    /// Records that the probe could not be sent: the fault is tagged and
    /// returned to the caller synchronously, and the engine closes without
    /// ever collecting — no channel, no background task.
    pub fn probe_failed(&mut self, fault: TransportFault) -> (e: Error)
        requires
            old(self)@ == DiscoveryState::Idle,
        ensures
            final(self)@ == DiscoveryState::Closed,
            e == Error::for_fault_spec(fault),
    {
        self.state = DiscoveryState::Closed;
        Error::for_fault(fault)
    }

    /// Enters the collection loop; from here on the engine decides one
    /// event at a time.
    pub fn start_collecting(&mut self)
        requires
            old(self)@ == DiscoveryState::ProbeSent,
        ensures
            final(self)@ == DiscoveryState::Collecting,
    {
        self.state = DiscoveryState::Collecting;
    }

    /// Decides one event of the collection loop. The action is exactly
    /// [`collect_step`] of the event, and the engine stays collecting
    /// unless the window elapsed.
    pub fn on_event(&mut self, event: RecvEvent) -> (act: CollectAction)
        requires
            old(self)@ == DiscoveryState::Collecting,
            event_wf(event),
        ensures
            act == collect_step(event),
            final(self)@ == (if collect_step(event) is Finish {
                DiscoveryState::Closed
            } else {
                DiscoveryState::Collecting
            }),
    {
        match event {
            RecvEvent::TimedOut => {
                self.state = DiscoveryState::Closed;
                CollectAction::Finish
            },
            RecvEvent::Failed(fault) => CollectAction::Report(Error::for_fault(fault)),
            RecvEvent::Datagram(bytes, from) => match classify_bytes(bytes.as_slice()) {
                ReplyKind::IAm { device_instance, vendor_id } => CollectAction::Deliver(Device {
                    id: device_instance,
                    vendor_id,
                    addr: from,
                }),
                ReplyKind::Malformed => CollectAction::Report(Error::Codec),
                _ => CollectAction::Skip,
            },
        }
    }

    /// Records that the consumer dropped the receiving end: collection
    /// ends at once, and the `Collecting` precondition of
    /// [`DiscoveryEngine::on_event`] rules every further step out.
    pub fn consumer_gone(&mut self)
        requires
            old(self)@ == DiscoveryState::Collecting,
        ensures
            final(self)@ == DiscoveryState::Closed,
    {
        self.state = DiscoveryState::Closed;
    }

    /// Whether the engine has reached its terminal state.
    pub fn is_closed(&self) -> (r: bool)
        ensures
            r == (self@ is Closed),
    {
        matches!(self.state, DiscoveryState::Closed)
    }

    /// Drives the collection loop over a scripted sequence of events, as
    /// the background task does against live traffic, delivering into a
    /// consumer that accepts at most `accepted` records before dropping
    /// the receiving end.
    ///
    /// The consumer receives the collection trace of the events, in
    /// arrival order. When the trace holds more records than the consumer
    /// accepts, the drop is detected on the very next send: the engine
    /// closes there, and nothing beyond the accepted records is ever
    /// sent.
    pub fn run_collection(&mut self, events: Vec<RecvEvent>, accepted: usize) -> (out: Vec<
        Result<Device, Error>,
    >)
        requires
            old(self)@ == DiscoveryState::Collecting,
            forall|i: int| 0 <= i < events@.len() ==> #[trigger] event_wf(events@[i]),
        ensures
            collection_trace(events@).len() <= accepted ==> out@ == collection_trace(events@),
            collection_trace(events@).len() > accepted ==> out@ == collection_trace(
                events@,
            ).subrange(0, accepted as int) && final(self)@ == DiscoveryState::Closed,
    {
        let ghost all = events@;
        let mut remaining = events;
        let mut out: Vec<Result<Device, Error>> = Vec::new();
        proof {
            assert(out@ + collection_trace(remaining@) =~= collection_trace(all));
        }
        while remaining.len() > 0
            invariant
                all == events@,
                self@ == DiscoveryState::Collecting,
                out@.len() <= accepted,
                collection_trace(all) == out@ + collection_trace(remaining@),
                forall|i: int| 0 <= i < remaining@.len() ==> #[trigger] event_wf(remaining@[i]),
            decreases remaining@.len(),
        {
            let ghost before = remaining@;
            let event = remaining.remove(0);
            proof {
                assert(before.remove(0) =~= before.drop_first());
                assert(before.first() == event);
                assert(event_wf(before[0]));
                assert forall|i: int| 0 <= i < remaining@.len() implies #[trigger] event_wf(
                    remaining@[i],
                ) by {
                    assert(remaining@[i] == before[i + 1]);
                }
            }
            match self.on_event(event) {
                CollectAction::Finish => {
                    assert(collection_trace(before) =~= Seq::<Result<Device, Error>>::empty());
                    assert(collection_trace(all) =~= out@);
                    return out;
                },
                CollectAction::Deliver(device) => {
                    assert(collection_trace(before) == seq![Ok::<Device, Error>(device)]
                        + collection_trace(remaining@));
                    if out.len() < accepted {
                        out.push(Ok(device));
                        proof {
                            assert(out@ + collection_trace(remaining@) =~= collection_trace(all));
                        }
                    } else {
                        self.consumer_gone();
                        proof {
                            assert(collection_trace(all).len() >= out@.len() + 1);
                            assert(collection_trace(all).subrange(0, accepted as int) =~= out@);
                        }
                        return out;
                    }
                },
                CollectAction::Report(error) => {
                    assert(collection_trace(before) == seq![Err::<Device, Error>(error)]
                        + collection_trace(remaining@));
                    if out.len() < accepted {
                        out.push(Err(error));
                        proof {
                            assert(out@ + collection_trace(remaining@) =~= collection_trace(all));
                        }
                    } else {
                        self.consumer_gone();
                        proof {
                            assert(collection_trace(all).len() >= out@.len() + 1);
                            assert(collection_trace(all).subrange(0, accepted as int) =~= out@);
                        }
                        return out;
                    }
                },
                CollectAction::Skip => {
                    assert(collection_trace(before) == collection_trace(remaining@));
                },
            }
        }
        assert(collection_trace(remaining@) =~= Seq::<Result<Device, Error>>::empty());
        assert(collection_trace(all) =~= out@);
        out
    }
}

/// Every well-formed matching reply is delivered: for a run of events that
/// are all matching replies, the channel carries exactly one record per
/// reply, in arrival order, each with its sender's address attached.
pub proof fn law_all_matching_replies_delivered(events: Seq<RecvEvent>)
    requires
        forall|i: int| 0 <= i < events.len() ==> #[trigger] is_matching_datagram(events[i]),
    ensures
        collection_trace(events).len() == events.len(),
        forall|i: int|
            0 <= i < events.len() ==> #[trigger] collection_trace(events)[i] == delivered_record(
                events[i],
            ),
    decreases events.len(),
{
    if events.len() > 0 {
        let first = events.first();
        let rest = events.drop_first();
        assert(is_matching_datagram(events[0]));
        assert(collect_step(first) is Deliver);
        assert forall|i: int| 0 <= i < rest.len() implies #[trigger] is_matching_datagram(
            rest[i],
        ) by {
            assert(rest[i] == events[i + 1]);
        }
        law_all_matching_replies_delivered(rest);
        assert forall|i: int|
            0 <= i < events.len() implies #[trigger] collection_trace(events)[i]
                == delivered_record(events[i]) by {
            if i > 0 {
                assert(collection_trace(events)[i] == collection_trace(rest)[i - 1]);
                assert(rest[i - 1] == events[i]);
            }
        }
    }
}

/// A reply of a non-matching message kind is silently ignored: it neither
/// ends the collection loop nor changes what the remaining events deliver.
pub proof fn law_non_matching_reply_ignored(event: RecvEvent, rest: Seq<RecvEvent>)
    requires
        collect_step(event) == CollectAction::Skip,
    ensures
        collection_trace(seq![event] + rest) == collection_trace(rest),
{
    let events = seq![event] + rest;
    assert(events.first() == event);
    assert(events.drop_first() =~= rest);
}

} // verus!
