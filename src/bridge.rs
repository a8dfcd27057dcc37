use crate::session::PtyEvent;
use vstd::prelude::*;

verus! {

/// The result of one blocking read from a session's output.
#[derive(Debug, Clone, PartialEq, Eq)]
pub enum ReadOutcome {
    /// The bytes the read produced; none means end of stream.
    Read(Vec<u8>),
    /// The read failed.
    Failed(String),
}

/// Whether the reading thread stops after this outcome.
pub open spec fn ends_stream(outcome: ReadOutcome) -> bool {
    match outcome {
        ReadOutcome::Read(bytes) => bytes@.len() == 0,
        ReadOutcome::Failed(_) => true,
    }
}

/// The event forwarded for one read: its bytes, or its failure.
pub open spec fn event_of_read(outcome: ReadOutcome) -> Option<PtyEvent> {
    match outcome {
        ReadOutcome::Read(bytes) => if bytes@.len() == 0 {
            None
        } else {
            Some(PtyEvent::Data(bytes))
        },
        ReadOutcome::Failed(msg) => Some(PtyEvent::Error(msg)),
    }
}

/// Turns one read into the event to forward, and says whether to keep reading.
pub fn forward_read(outcome: ReadOutcome) -> (r: (Option<PtyEvent>, bool))
    ensures
        r.0 == event_of_read(outcome),
        r.1 == !ends_stream(outcome),
{
    match outcome {
        ReadOutcome::Read(bytes) => {
            if bytes.len() == 0 {
                (None, false)
            } else {
                (Some(PtyEvent::Data(bytes)), true)
            }
        },
        ReadOutcome::Failed(msg) => (Some(PtyEvent::Error(msg)), false),
    }
}

pub open spec fn option_seq(e: Option<PtyEvent>) -> Seq<PtyEvent> {
    match e {
        Some(e) => seq![e],
        None => Seq::empty(),
    }
}

/// The events forwarded while the reads arrive in order, up to the read that
/// ends the stream.
pub open spec fn bridge_events(reads: Seq<ReadOutcome>) -> Seq<PtyEvent>
    decreases reads.len(),
{
    if reads.len() == 0 {
        Seq::empty()
    } else if ends_stream(reads[0]) {
        option_seq(event_of_read(reads[0]))
    } else {
        option_seq(event_of_read(reads[0])) + bridge_events(reads.drop_first())
    }
}

/// The bytes the reads produced, in order, up to the end of the stream.
pub open spec fn bytes_read(reads: Seq<ReadOutcome>) -> Seq<u8>
    decreases reads.len(),
{
    if reads.len() == 0 {
        Seq::empty()
    } else {
        match reads[0] {
            ReadOutcome::Read(bytes) => if bytes@.len() == 0 {
                Seq::empty()
            } else {
                bytes@ + bytes_read(reads.drop_first())
            },
            ReadOutcome::Failed(_) => Seq::empty(),
        }
    }
}

/// The payload bytes of the `Data` events of a sequence, concatenated in order.
pub open spec fn data_payload(events: Seq<PtyEvent>) -> Seq<u8>
    decreases events.len(),
{
    if events.len() == 0 {
        Seq::empty()
    } else {
        (match events[0] {
            PtyEvent::Data(bytes) => bytes@,
            _ => Seq::empty(),
        }) + data_payload(events.drop_first())
    }
}

pub proof fn lemma_data_payload_add(a: Seq<PtyEvent>, b: Seq<PtyEvent>)
    ensures
        data_payload(a + b) == data_payload(a) + data_payload(b),
    decreases a.len(),
{
    if a.len() == 0 {
        assert(a + b =~= b);
        assert(data_payload(a) + data_payload(b) =~= data_payload(b));
    } else {
        assert((a + b).drop_first() =~= a.drop_first() + b);
        lemma_data_payload_add(a.drop_first(), b);
        let head = match a[0] {
            PtyEvent::Data(bytes) => bytes@,
            _ => Seq::<u8>::empty(),
        };
        assert(head + (data_payload(a.drop_first()) + data_payload(b)) =~= (head + data_payload(
            a.drop_first(),
        )) + data_payload(b));
    }
}

/// The `Data` events forwarded for a session carry, concatenated in order,
/// exactly the bytes read from it: nothing reordered, repeated or lost.
pub proof fn lemma_bridge_preserves_bytes(reads: Seq<ReadOutcome>)
    ensures
        data_payload(bridge_events(reads)) == bytes_read(reads),
    decreases reads.len(),
{
    if reads.len() > 0 {
        let here = option_seq(event_of_read(reads[0]));
        match reads[0] {
            ReadOutcome::Read(bytes) => {
                if bytes@.len() == 0 {
                    assert(here.len() == 0);
                } else {
                    lemma_bridge_preserves_bytes(reads.drop_first());
                    lemma_data_payload_add(here, bridge_events(reads.drop_first()));
                    assert(data_payload(here.drop_first()) == Seq::<u8>::empty());
                    assert(data_payload(here) =~= bytes@);
                }
            },
            ReadOutcome::Failed(msg) => {
                assert(data_payload(here.drop_first()) == Seq::<u8>::empty());
                assert(data_payload(here) =~= Seq::<u8>::empty());
            },
        }
    }
}

} // verus!
