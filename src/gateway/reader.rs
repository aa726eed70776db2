use vstd::prelude::*;

use crate::error::SeriaError;
use crate::models::GatewayEvent;

verus! {

/// One frame read from the socket, as the transport hands it over.
#[derive(Debug)]
pub enum InboundFrame {
    /// A text frame that decoded to an event; an unknown tag decodes to `Unknown`.
    Event(GatewayEvent),
    /// A text frame that did not decode, with the decoder's message.
    Malformed(String),
    /// A frame that carries no event (binary, ping, pong of the transport itself).
    Ignored,
    /// The peer closed the socket, or the stream ended.
    Closed,
    /// Reading the socket failed.
    Failed(SeriaError),
}

/// What the reader does with one frame.
#[derive(Debug)]
pub enum ReaderStep {
    /// Hand the item to the consumer and read on.
    Deliver(Result<GatewayEvent, SeriaError>),
    /// A heartbeat acknowledgement: note the time of the pong, hand nothing on, read on.
    Pong,
    /// Nothing to do; read on.
    Skip,
    /// The attempt is over: report the error and stop reading.
    Stop(SeriaError),
}

/// Whether a frame ends the reader's loop.
pub open spec fn ends_reading(frame: InboundFrame) -> bool {
    frame is Closed || frame is Failed
}

/// Whether `step` is what the reader does with `frame`.
pub open spec fn reads_as(frame: InboundFrame, step: ReaderStep) -> bool {
    match frame {
        InboundFrame::Event(e) => if e is Pong {
            step is Pong
        } else {
            step == ReaderStep::Deliver(Ok(e))
        },
        InboundFrame::Malformed(m) => step matches ReaderStep::Deliver(Err(SeriaError::Other(s)))
            && s@ == "Deserialization error: "@ + m@,
        InboundFrame::Ignored => step is Skip,
        InboundFrame::Closed => step matches ReaderStep::Stop(SeriaError::Other(s))
            && s@ == "WebSocket disconnected"@,
        InboundFrame::Failed(e) => step == ReaderStep::Stop(e),
    }
}

/// Decides what the reader does with one frame. A pong is never handed to the consumer;
/// every other event is, unknown ones included, and only a close or a socket failure stops
/// the loop: a frame that does not decode is reported and reading goes on.
pub fn read_step(frame: InboundFrame) -> (r: ReaderStep)
    ensures
        reads_as(frame, r),
        r is Stop <==> ends_reading(frame),
        r matches ReaderStep::Deliver(Ok(e)) ==> !(e is Pong),
        frame matches InboundFrame::Event(e) ==> (e is Unknown ==> r == ReaderStep::Deliver(Ok(e))),
{
    match frame {
        InboundFrame::Event(e) => {
            match e {
                GatewayEvent::Pong => ReaderStep::Pong,
                _ => ReaderStep::Deliver(Ok(e)),
            }
        },
        InboundFrame::Malformed(m) => {
            let reason = String::from_str("Deserialization error: ").concat(m.as_str());
            ReaderStep::Deliver(Err(SeriaError::Other(reason)))
        },
        InboundFrame::Ignored => ReaderStep::Skip,
        InboundFrame::Closed => ReaderStep::Stop(SeriaError::Other(String::from_str("WebSocket disconnected"))),
        InboundFrame::Failed(e) => ReaderStep::Stop(e),
    }
}

/// What reading a run of frames produced.
#[derive(Debug)]
pub struct ReadOutcome {
    /// The items handed to the consumer, in the order of their frames.
    pub delivered: Vec<Result<GatewayEvent, SeriaError>>,
    /// The number of heartbeat pongs seen.
    pub pongs: usize,
    /// The number of frames consumed.
    pub consumed: usize,
    /// The error that ended reading, if a frame ended it.
    pub stopped: Option<SeriaError>,
}

/// Whether the reader hands something to the consumer for `frame`.
pub open spec fn delivers(frame: InboundFrame) -> bool {
    match frame {
        InboundFrame::Event(e) => !(e is Pong),
        InboundFrame::Malformed(_) => true,
        _ => false,
    }
}

/// Whether `frame` is a heartbeat pong.
pub open spec fn is_pong(frame: InboundFrame) -> bool {
    frame matches InboundFrame::Event(e) && e is Pong
}

/// The positions, in order, of the frames of `frames` that hand something to the consumer.
pub open spec fn delivery_positions(frames: Seq<InboundFrame>) -> Seq<int>
    decreases frames.len(),
{
    if frames.len() == 0 {
        Seq::empty()
    } else {
        let before = delivery_positions(frames.drop_last());
        if delivers(frames.last()) {
            before.push(frames.len() - 1)
        } else {
            before
        }
    }
}

/// The number of heartbeat pongs among `frames`.
pub open spec fn pong_count(frames: Seq<InboundFrame>) -> nat
    decreases frames.len(),
{
    if frames.len() == 0 {
        0
    } else {
        pong_count(frames.drop_last()) + if is_pong(frames.last()) {
            1nat
        } else {
            0nat
        }
    }
}

/// Reads a run of frames in order, as the reader's loop does, until one ends reading.
pub fn read_frames(frames: Vec<InboundFrame>) -> (r: ReadOutcome)
    ensures
        r.consumed <= frames@.len(),
        r.stopped is Some <==> exists|i: int| 0 <= i < frames@.len() && ends_reading(#[trigger] frames@[i]),
        r.stopped is None ==> r.consumed == frames@.len(),
        forall|i: int| 0 <= i < r.consumed - 1 ==> !ends_reading(#[trigger] frames@[i]),
        forall|i: int| 0 <= i < r.delivered@.len() ==> !(#[trigger] r.delivered@[i] matches Ok(e) && e is Pong),
        ({
            let read = frames@.take(r.consumed as int);
            let at = delivery_positions(read);
            &&& r.delivered@.len() == at.len()
            &&& forall|k: int| 0 <= k < at.len() ==> 0 <= #[trigger] at[k] < read.len()
                && reads_as(read[at[k]], ReaderStep::Deliver(r.delivered@[k]))
            &&& r.pongs == pong_count(read)
        }),
{
    let mut delivered: Vec<Result<GatewayEvent, SeriaError>> = Vec::new();
    let mut pongs: usize = 0;
    let mut consumed: usize = 0;
    let ghost all = frames@;
    let total = frames.len();
    let mut rest = frames;
    assert(rest@ =~= all.subrange(0, all.len() as int));
    while rest.len() > 0
        invariant
            consumed + rest@.len() == all.len(),
            all.len() == total,
            all == frames@,
            pongs <= consumed,
            rest@ =~= all.subrange(consumed as int, all.len() as int),
            forall|i: int| 0 <= i < consumed ==> !ends_reading(#[trigger] all[i]),
            forall|i: int| 0 <= i < delivered@.len() ==> !(#[trigger] delivered@[i] matches Ok(e) && e is Pong),
            delivered@.len() == delivery_positions(all.take(consumed as int)).len(),
            forall|k: int| 0 <= k < delivered@.len() ==> 0 <= #[trigger] delivery_positions(all.take(consumed as int))[k] < consumed
                && reads_as(all[delivery_positions(all.take(consumed as int))[k]], ReaderStep::Deliver(delivered@[k])),
            pongs == pong_count(all.take(consumed as int)),
        decreases rest@.len(),
    {
        let frame = rest.remove(0);
        assert(frame == all[consumed as int]);
        assert(rest@ =~= all.subrange(consumed + 1, all.len() as int));
        let ghost before = all.take(consumed as int);
        let ghost after = all.take(consumed + 1);
        assert(after.drop_last() =~= before);
        assert(after.last() == frame);
        assert(forall|j: int| 0 <= j < consumed ==> #[trigger] after[j] == before[j]);
        consumed = consumed + 1;
        match read_step(frame) {
            ReaderStep::Deliver(item) => {
                delivered.push(item);
            },
            ReaderStep::Pong => {
                pongs = pongs + 1;
            },
            ReaderStep::Skip => {},
            ReaderStep::Stop(e) => {
                assert(ends_reading(all[consumed - 1]));
                return ReadOutcome { delivered, pongs, consumed, stopped: Some(e) };
            },
        }
    }
    ReadOutcome { delivered, pongs, consumed, stopped: None }
}

} // verus!
