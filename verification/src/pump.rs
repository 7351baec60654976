//! The forwarding loop.
//!
//! One loop owns one read half and the opposite write half and pumps frames
//! one direction until it is interrupted: it blocks for the next read, exits
//! on end-of-stream or read error, otherwise normalizes the frame and writes
//! it, and exits on write failure. Frames are relayed strictly in the order
//! received. The blocking reads and writes themselves belong to the host
//! program; the decisions ([`next_step`], [`after_write`]) and the resulting
//! input/output relation ([`forwarded`], [`outcome`], [`pump`]) live here.

use vstd::prelude::*;

use crate::frame::canonical;
use crate::frame::clone_frame;
use crate::frame::Frame;
use crate::frame::FrameModel;

verus! {

/// What one blocking read on the owned read half produced.
#[derive(Debug)]
pub enum ReadEvent {
    /// A frame arrived.
    Received(Frame),
    /// The read half signalled a clean end-of-stream.
    EndOfStream,
    /// The read half failed.
    Failed,
}

/// Mathematical image of a [`ReadEvent`].
pub enum EventModel {
    Received(FrameModel),
    EndOfStream,
    Failed,
}

impl View for ReadEvent {
    type V = EventModel;

    open spec fn view(&self) -> EventModel {
        match self {
            ReadEvent::Received(f) => EventModel::Received(f@),
            ReadEvent::EndOfStream => EventModel::EndOfStream,
            ReadEvent::Failed => EventModel::Failed,
        }
    }
}

impl EventModel {
    /// The frame this read produced.
    pub open spec fn frame(self) -> FrameModel
        recommends
            self is Received,
    {
        match self {
            EventModel::Received(m) => m,
            _ => arbitrary(),
        }
    }
}

/// Why a forwarding loop stopped. Every cause is terminal for the owning loop
/// alone; nothing is retried and nothing is escalated to the sibling loop.
#[derive(Clone, Copy, Debug, PartialEq, Eq, Structural)]
pub enum ExitCause {
    /// The read half ended cleanly.
    EndOfStream,
    /// The read half failed.
    ReadFailed,
    /// The write half rejected a frame.
    WriteFailed,
}

/// The loop's reaction to one read: forward a frame (already normalized), or
/// stop for the given cause.
#[derive(Debug)]
pub enum Step {
    Forward(Frame),
    Stop(ExitCause),
}

/// Mathematical image of a [`Step`].
pub enum StepModel {
    Forward(FrameModel),
    Stop(ExitCause),
}

impl View for Step {
    type V = StepModel;

    open spec fn view(&self) -> StepModel {
        match self {
            Step::Forward(f) => StepModel::Forward(f@),
            Step::Stop(c) => StepModel::Stop(*c),
        }
    }
}

/// Decide what the loop does with one read: a received frame is forwarded in
/// its canonical form; end-of-stream and read failure stop the loop, each
/// under its own cause.
pub fn next_step(ev: ReadEvent) -> (s: Step)
    ensures
        (ev@ matches EventModel::Received(m) ==> s@ == StepModel::Forward(canonical(m))),
        ev@ is EndOfStream ==> s@ == StepModel::Stop(ExitCause::EndOfStream),
        ev@ is Failed ==> s@ == StepModel::Stop(ExitCause::ReadFailed),
{
    match ev {
        ReadEvent::Received(f) => Step::Forward(crate::frame::normalize(f)),
        ReadEvent::EndOfStream => Step::Stop(ExitCause::EndOfStream),
        ReadEvent::Failed => Step::Stop(ExitCause::ReadFailed),
    }
}

/// Decide what the loop does after one write attempt: keep pumping when the
/// frame was delivered, stop with `WriteFailed` when it was not.
pub fn after_write(delivered: bool) -> (r: Option<ExitCause>)
    ensures
        delivered ==> r is None,
        !delivered ==> r == Some(ExitCause::WriteFailed),
{
    if delivered {
        None
    } else {
        Some(ExitCause::WriteFailed)
    }
}

/// The frames a forwarding loop delivers, in order, when its reads produce
/// `events` and `writes[i]` says whether the write attempted at iteration `i`
/// is accepted by the write half.
pub open spec fn forwarded(events: Seq<EventModel>, writes: Seq<bool>) -> Seq<FrameModel>
    decreases events.len(),
{
    if events.len() == 0 || writes.len() == 0 {
        Seq::empty()
    } else {
        match events[0] {
            EventModel::Received(m) => if writes[0] {
                seq![canonical(m)] + forwarded(events.skip(1), writes.skip(1))
            } else {
                Seq::empty()
            },
            _ => Seq::empty(),
        }
    }
}

/// Why the loop is no longer running after those reads and writes, or `None`
/// while it is still pumping (blocked on the next read).
pub open spec fn outcome(events: Seq<EventModel>, writes: Seq<bool>) -> Option<ExitCause>
    decreases events.len(),
{
    if events.len() == 0 || writes.len() == 0 {
        None
    } else {
        match events[0] {
            EventModel::Received(_) => if writes[0] {
                outcome(events.skip(1), writes.skip(1))
            } else {
                Some(ExitCause::WriteFailed)
            },
            EventModel::EndOfStream => Some(ExitCause::EndOfStream),
            EventModel::Failed => Some(ExitCause::ReadFailed),
        }
    }
}

/// The views of a sequence of read events.
pub open spec fn views_of(events: Seq<ReadEvent>) -> Seq<EventModel> {
    events.map_values(|e: ReadEvent| e@)
}

/// Run one forwarding loop over a finite trace of reads; `writes[i]` says
/// whether the write attempted at iteration `i` is accepted. Returns the
/// frames delivered, in order, and why the loop stopped (`None`: the trace
/// ended with the loop still waiting for its next read).
pub fn pump(events: &Vec<ReadEvent>, writes: &Vec<bool>) -> (r: (Vec<Frame>, Option<ExitCause>))
    requires
        events@.len() == writes@.len(),
    ensures
        r.0@.map_values(|f: Frame| f@) == forwarded(views_of(events@), writes@),
        r.1 == outcome(views_of(events@), writes@),
{
    let r = pump_from(events, writes, 0);
    proof {
        assert(views_of(events@).skip(0) =~= views_of(events@));
        assert(writes@.skip(0) =~= writes@);
    }
    r
}

/// The tail of [`pump`] starting at iteration `i`.
fn pump_from(events: &Vec<ReadEvent>, writes: &Vec<bool>, i: usize) -> (r: (
    Vec<Frame>,
    Option<ExitCause>,
))
    requires
        events@.len() == writes@.len(),
        i <= events@.len(),
    ensures
        r.0@.map_values(|f: Frame| f@) == forwarded(views_of(events@).skip(i as int), writes@.skip(i as int)),
        r.1 == outcome(views_of(events@).skip(i as int), writes@.skip(i as int)),
    decreases events@.len() - i,
{
    proof {
        assert(views_of(events@).len() == events@.len());
    }
    if i == events.len() {
        let out: Vec<Frame> = Vec::new();
        proof {
            assert(out@.map_values(|f: Frame| f@) =~= Seq::<FrameModel>::empty());
        }
        (out, None)
    } else {
        proof {
            assert(views_of(events@).skip(i as int)[0] == events@[i as int]@);
            assert(views_of(events@).skip(i as int).skip(1) =~= views_of(events@).skip(
                i as int + 1,
            ));
            assert(writes@.skip(i as int).skip(1) =~= writes@.skip(i as int + 1));
        }
        match &events[i] {
            ReadEvent::EndOfStream => {
                let out: Vec<Frame> = Vec::new();
                proof {
                    assert(out@.map_values(|f: Frame| f@) =~= Seq::<FrameModel>::empty());
                }
                (out, Some(ExitCause::EndOfStream))
            },
            ReadEvent::Failed => {
                let out: Vec<Frame> = Vec::new();
                proof {
                    assert(out@.map_values(|f: Frame| f@) =~= Seq::<FrameModel>::empty());
                }
                (out, Some(ExitCause::ReadFailed))
            },
            ReadEvent::Received(f) => {
                if writes[i] {
                    let head = crate::frame::normalize(clone_frame(f));
                    let (mut rest, cause) = pump_from(events, writes, i + 1);
                    let ghost tail_frames = rest@.map_values(|g: Frame| g@);
                    rest.insert(0, head);
                    proof {
                        assert(rest@.map_values(|g: Frame| g@) =~= seq![head@] + tail_frames);
                    }
                    (rest, cause)
                } else {
                    let out: Vec<Frame> = Vec::new();
                    proof {
                        assert(out@.map_values(|f: Frame| f@) =~= Seq::<FrameModel>::empty());
                    }
                    (out, Some(ExitCause::WriteFailed))
                }
            },
        }
    }
}

/// Ordered delivery: when every read yields a frame and every write is
/// accepted, the loop delivers exactly the canonical image of each input
/// frame, in the order received — no reordering, coalescing or batching —
/// and keeps running.
pub proof fn lemma_ordered_delivery(events: Seq<EventModel>, writes: Seq<bool>)
    requires
        events.len() == writes.len(),
        forall|i: int| 0 <= i < events.len() ==> events[i] is Received,
        forall|i: int| 0 <= i < writes.len() ==> writes[i],
    ensures
        forwarded(events, writes).len() == events.len(),
        forall|i: int| 0 <= i < events.len() ==> forwarded(events, writes)[i] == canonical(
            #[trigger] events[i].frame(),
        ),
        outcome(events, writes) is None,
    decreases events.len(),
{
    if events.len() > 0 {
        lemma_ordered_delivery(events.skip(1), writes.skip(1));
        assert forall|i: int| 0 <= i < events.len() implies forwarded(events, writes)[i]
            == canonical(#[trigger] events[i].frame()) by {
            if i > 0 {
                assert(events.skip(1)[i - 1] == events[i]);
                assert(forwarded(events, writes)[i] == forwarded(events.skip(1), writes.skip(1))[i
                    - 1]);
            }
        }
    }
}

/// Lossless pass-through: under the same conditions, if no input frame is a
/// `Close`, the delivered sequence is the input frames themselves, unmodified
/// and in the same order. `Text`, `Binary`, `Ping` and `Pong` payloads all
/// pass through unchanged.
pub proof fn lemma_non_close_pass_through(events: Seq<EventModel>, writes: Seq<bool>)
    requires
        events.len() == writes.len(),
        forall|i: int| 0 <= i < events.len() ==> events[i] is Received,
        forall|i: int| 0 <= i < events.len() ==> !(#[trigger] events[i].frame() is Close),
        forall|i: int| 0 <= i < writes.len() ==> writes[i],
    ensures
        forwarded(events, writes) == events.map_values(|e: EventModel| e.frame()),
        outcome(events, writes) is None,
{
    lemma_ordered_delivery(events, writes);
    assert forall|i: int| 0 <= i < events.len() implies forwarded(events, writes)[i]
        == events.map_values(|e: EventModel| e.frame())[i] by {
        crate::frame::lemma_canonical_keeps_non_close(events[i].frame());
    }
    assert(forwarded(events, writes) =~= events.map_values(|e: EventModel| e.frame()));
}

/// A close frame sent from either side, whatever code and reason it carries,
/// arrives at the peer as a bare close with no metadata.
pub proof fn lemma_close_arrives_bare(events: Seq<EventModel>, writes: Seq<bool>, i: int)
    requires
        events.len() == writes.len(),
        forall|k: int| 0 <= k < events.len() ==> events[k] is Received,
        forall|k: int| 0 <= k < writes.len() ==> writes[k],
        0 <= i < events.len(),
        events[i].frame() is Close,
    ensures
        forwarded(events, writes)[i] == FrameModel::Close(None),
{
    lemma_ordered_delivery(events, writes);
    crate::frame::lemma_canonical_bares_close(events[i].frame());
}

/// A read failure is terminal for the owning loop alone: every frame read
/// before the failure is still delivered, in order, and the loop then stops
/// with `ReadFailed`. Nothing here touches the sibling loop.
pub proof fn lemma_read_failure_is_terminal(events: Seq<EventModel>, writes: Seq<bool>, k: int)
    requires
        events.len() == writes.len(),
        0 <= k < events.len(),
        events[k] is Failed,
        forall|i: int| 0 <= i < k ==> events[i] is Received,
        forall|i: int| 0 <= i < k ==> writes[i],
    ensures
        outcome(events, writes) == Some(ExitCause::ReadFailed),
        forwarded(events, writes).len() == k,
        forall|i: int| 0 <= i < k ==> forwarded(events, writes)[i] == canonical(
            #[trigger] events[i].frame(),
        ),
    decreases k,
{
    if k > 0 {
        lemma_read_failure_is_terminal(events.skip(1), writes.skip(1), k - 1);
        assert forall|i: int| 0 <= i < k implies forwarded(events, writes)[i] == canonical(
            #[trigger] events[i].frame(),
        ) by {
            if i > 0 {
                assert(events.skip(1)[i - 1] == events[i]);
                assert(forwarded(events, writes)[i] == forwarded(events.skip(1), writes.skip(1))[i
                    - 1]);
            }
        }
    }
}

/// A clean end-of-stream is likewise terminal for the owning loop alone:
/// everything read before it is delivered, and the loop stops cleanly.
pub proof fn lemma_end_of_stream_is_clean(events: Seq<EventModel>, writes: Seq<bool>, k: int)
    requires
        events.len() == writes.len(),
        0 <= k < events.len(),
        events[k] is EndOfStream,
        forall|i: int| 0 <= i < k ==> events[i] is Received,
        forall|i: int| 0 <= i < k ==> writes[i],
    ensures
        outcome(events, writes) == Some(ExitCause::EndOfStream),
        forwarded(events, writes).len() == k,
    decreases k,
{
    if k > 0 {
        lemma_end_of_stream_is_clean(events.skip(1), writes.skip(1), k - 1);
    }
}

/// A write failure is terminal too: the frames delivered are exactly those
/// written before the failing write, and the loop stops with `WriteFailed`.
pub proof fn lemma_write_failure_is_terminal(events: Seq<EventModel>, writes: Seq<bool>, k: int)
    requires
        events.len() == writes.len(),
        0 <= k < events.len(),
        events[k] is Received,
        !writes[k],
        forall|i: int| 0 <= i < k ==> events[i] is Received,
        forall|i: int| 0 <= i < k ==> writes[i],
    ensures
        outcome(events, writes) == Some(ExitCause::WriteFailed),
        forwarded(events, writes).len() == k,
    decreases k,
{
    if k > 0 {
        lemma_write_failure_is_terminal(events.skip(1), writes.skip(1), k - 1);
    }
}

} // verus!
