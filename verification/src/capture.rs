//! The capture loop: read a frame, scan it for a QR code, publish a preview,
//! wait, and read again.
//!
//! The loop is a state machine. `start` names the first operation; the caller
//! performs each operation and reports how it went with `step`, which names
//! the next one. A session is the sequence of reports, and `run` is what the
//! machine makes of a whole session.

use vstd::prelude::*;
use crate::codec::{
    encodable, lossy_utf8, payload_text, standard_decoding, standard_encoding, text_safe,
    Decoding,
};
use crate::event::{Notice, NoticeView};

verus! {

/// Quality at which previews are compressed, on the encoder's scale of 0 to 100.
pub const JPEG_QUALITY: i32 = 70;

/// Pause after each published preview, in milliseconds.
pub const THROTTLE_MILLIS: u64 = 100;

/// Width and height of a captured frame, in pixels.
#[derive(Clone, Copy, Debug, PartialEq, Eq)]
pub struct FrameSize {
    pub width: i32,
    pub height: i32,
}

impl FrameSize {
    /// A frame without pixels: the device had nothing to give.
    pub open spec fn spec_is_empty(self) -> bool {
        self.width == 0 || self.height == 0
    }

    /// A frame without pixels: the device had nothing to give.
    #[verifier::when_used_as_spec(spec_is_empty)]
    pub fn is_empty(self) -> (empty: bool)
        ensures
            empty == self.spec_is_empty(),
    {
        self.width == 0 || self.height == 0
    }
}

/// Why the loop ended.
#[derive(Clone, Copy, Debug, PartialEq, Eq)]
pub enum StopReason {
    /// The video device could not be acquired.
    DeviceUnavailable,
    /// The device was acquired but reports that it is not open.
    DeviceNotOpened,
    /// The device failed to deliver a frame.
    ReadFailed,
    /// A frame could not be compressed.
    EncodeFailed,
    /// A compressed frame is too long to be put in text-safe form.
    PreviewTooLarge,
}

/// Where the loop stands: the operation whose outcome it waits for.
#[derive(Clone, Copy, Debug, PartialEq, Eq)]
pub enum CaptureState {
    /// The device is being acquired.
    Opening,
    /// A frame is being read.
    Reading,
    /// The current frame is being scanned for a QR code.
    Decoding,
    /// The scanned code is being published.
    Announcing,
    /// The current frame is being compressed.
    Encoding,
    /// The preview of the current frame is being published.
    Publishing,
    /// The loop pauses before the next frame.
    Throttling,
    /// The loop has ended.
    Stopped(StopReason),
}

/// How an operation went.
#[derive(Debug, PartialEq, Eq)]
pub enum CaptureEvent {
    /// The device could not be acquired.
    OpenFailed,
    /// The device was acquired; `is_open` is what it reports of itself.
    Opened { is_open: bool },
    /// The device failed to deliver a frame.
    ReadFailed,
    /// A frame was read.
    FrameRead { size: FrameSize },
    /// The scan failed.
    DecodeFailed,
    /// The scan ended; `payload` is empty where the frame shows no code.
    Decoded { payload: Vec<u8> },
    /// The frame could not be compressed.
    EncodeFailed,
    /// The frame was compressed to `jpeg`.
    Encoded { jpeg: Vec<u8> },
    /// An event was handed to the sink, which took it or not.
    Published { delivered: bool },
    /// The pause is over.
    Slept,
}

/// What a `CaptureEvent` is, over mathematical sequences.
pub enum CaptureEventView {
    OpenFailed,
    Opened { is_open: bool },
    ReadFailed,
    FrameRead { size: FrameSize },
    DecodeFailed,
    Decoded { payload: Seq<u8> },
    EncodeFailed,
    Encoded { jpeg: Seq<u8> },
    Published { delivered: bool },
    Slept,
}

impl View for CaptureEvent {
    type V = CaptureEventView;

    open spec fn view(&self) -> CaptureEventView {
        match self {
            CaptureEvent::OpenFailed => CaptureEventView::OpenFailed,
            CaptureEvent::Opened { is_open } => CaptureEventView::Opened { is_open: *is_open },
            CaptureEvent::ReadFailed => CaptureEventView::ReadFailed,
            CaptureEvent::FrameRead { size } => CaptureEventView::FrameRead { size: *size },
            CaptureEvent::DecodeFailed => CaptureEventView::DecodeFailed,
            CaptureEvent::Decoded { payload } => CaptureEventView::Decoded { payload: payload@ },
            CaptureEvent::EncodeFailed => CaptureEventView::EncodeFailed,
            CaptureEvent::Encoded { jpeg } => CaptureEventView::Encoded { jpeg: jpeg@ },
            CaptureEvent::Published { delivered } => CaptureEventView::Published {
                delivered: *delivered,
            },
            CaptureEvent::Slept => CaptureEventView::Slept,
        }
    }
}

/// The operation to perform next.
#[derive(Debug, PartialEq, Eq)]
pub enum CaptureAction {
    /// Acquire the default video device and ask whether it is open.
    OpenDevice,
    /// Read the next frame from the device.
    ReadFrame,
    /// Scan the current frame for a QR code.
    DecodeFrame,
    /// Compress the current frame to JPEG at `quality`.
    EncodeFrame { quality: i32 },
    /// Hand the event to the sink.
    Publish(Notice),
    /// Pause for `millis` milliseconds.
    Sleep { millis: u64 },
    /// End the loop.
    Halt(StopReason),
}

/// What a `CaptureAction` is, over mathematical text.
pub enum CaptureActionView {
    OpenDevice,
    ReadFrame,
    DecodeFrame,
    EncodeFrame { quality: i32 },
    Publish(NoticeView),
    Sleep { millis: u64 },
    Halt(StopReason),
}

impl View for CaptureAction {
    type V = CaptureActionView;

    open spec fn view(&self) -> CaptureActionView {
        match self {
            CaptureAction::OpenDevice => CaptureActionView::OpenDevice,
            CaptureAction::ReadFrame => CaptureActionView::ReadFrame,
            CaptureAction::DecodeFrame => CaptureActionView::DecodeFrame,
            CaptureAction::EncodeFrame { quality } => CaptureActionView::EncodeFrame {
                quality: *quality,
            },
            CaptureAction::Publish(notice) => CaptureActionView::Publish(notice@),
            CaptureAction::Sleep { millis } => CaptureActionView::Sleep { millis: *millis },
            CaptureAction::Halt(reason) => CaptureActionView::Halt(*reason),
        }
    }
}

/// Whether `event` reports on the operation that `state` waits for.
pub open spec fn awaits(state: CaptureState, event: CaptureEventView) -> bool {
    match state {
        CaptureState::Opening => event is OpenFailed || event is Opened,
        CaptureState::Reading => event is ReadFailed || event is FrameRead,
        CaptureState::Decoding => event is DecodeFailed || event is Decoded,
        CaptureState::Announcing => event is Published,
        CaptureState::Encoding => event is EncodeFailed || event is Encoded,
        CaptureState::Publishing => event is Published,
        CaptureState::Throttling => event is Slept,
        CaptureState::Stopped(_) => false,
    }
}

/// The loop ends for `reason`.
pub open spec fn halt(reason: StopReason) -> (CaptureState, CaptureActionView) {
    (CaptureState::Stopped(reason), CaptureActionView::Halt(reason))
}

/// The frame at hand is compressed next.
pub open spec fn encode_frame() -> (CaptureState, CaptureActionView) {
    (CaptureState::Encoding, CaptureActionView::EncodeFrame { quality: JPEG_QUALITY })
}

/// The next frame is read.
pub open spec fn read_frame() -> (CaptureState, CaptureActionView) {
    (CaptureState::Reading, CaptureActionView::ReadFrame)
}

/// The state after `event` and the operation to perform then, for an event
/// that `state` waits for.
pub open spec fn next(state: CaptureState, event: CaptureEventView) -> (
    CaptureState,
    CaptureActionView,
)
    recommends
        awaits(state, event),
{
    match event {
        CaptureEventView::OpenFailed => halt(StopReason::DeviceUnavailable),
        CaptureEventView::Opened { is_open } => if is_open {
            read_frame()
        } else {
            halt(StopReason::DeviceNotOpened)
        },
        CaptureEventView::ReadFailed => halt(StopReason::ReadFailed),
        CaptureEventView::FrameRead { size } => if size.is_empty() {
            read_frame()
        } else {
            (CaptureState::Decoding, CaptureActionView::DecodeFrame)
        },
        CaptureEventView::DecodeFailed => encode_frame(),
        CaptureEventView::Decoded { payload } => if payload.len() == 0 {
            encode_frame()
        } else {
            (
                CaptureState::Announcing,
                CaptureActionView::Publish(
                    NoticeView::CodeDetected { text: lossy_utf8(payload) },
                ),
            )
        },
        CaptureEventView::EncodeFailed => halt(StopReason::EncodeFailed),
        CaptureEventView::Encoded { jpeg } => if encodable(jpeg.len()) {
            (
                CaptureState::Publishing,
                CaptureActionView::Publish(
                    NoticeView::CameraFrame { preview: standard_encoding(jpeg) },
                ),
            )
        } else {
            halt(StopReason::PreviewTooLarge)
        },
        CaptureEventView::Published { .. } => if state is Announcing {
            encode_frame()
        } else {
            (CaptureState::Throttling, CaptureActionView::Sleep { millis: THROTTLE_MILLIS })
        },
        CaptureEventView::Slept => read_frame(),
    }
}

/// Where `action` publishes the preview of the frame that `event` brings
/// compressed, the preview decodes back to exactly that compressed frame.
pub open spec fn preview_decodes_back(event: CaptureEventView, action: CaptureActionView) -> bool {
    match (event, action) {
        (
            CaptureEventView::Encoded { jpeg },
            CaptureActionView::Publish(NoticeView::CameraFrame { preview }),
        ) => standard_decoding(preview) == Decoding::Ok(jpeg),
        _ => true,
    }
}

/// The loop before anything has happened, and its first operation.
pub fn start() -> (begun: (CaptureState, CaptureAction))
    ensures
        begun.0 == CaptureState::Opening,
        begun.1@ == CaptureActionView::OpenDevice,
{
    (CaptureState::Opening, CaptureAction::OpenDevice)
}

/// Takes the report of the operation that `state` waits for, and names the
/// next one.
///
/// Returns `None`, and nothing changes, for an event that `state` does not
/// wait for; a stopped loop waits for none.
pub fn step(state: CaptureState, event: &CaptureEvent) -> (moved: Option<
    (CaptureState, CaptureAction),
>)
    ensures
        moved.is_some() == awaits(state, event@),
        moved matches Some((after, action)) ==> (after, action@) == next(state, event@),
        moved matches Some((_, action)) ==> preview_decodes_back(event@, action@),
{
    match (state, event) {
        (CaptureState::Opening, CaptureEvent::OpenFailed) => Some(
            stop(StopReason::DeviceUnavailable),
        ),
        (CaptureState::Opening, CaptureEvent::Opened { is_open }) => if *is_open {
            Some((CaptureState::Reading, CaptureAction::ReadFrame))
        } else {
            Some(stop(StopReason::DeviceNotOpened))
        },
        (CaptureState::Reading, CaptureEvent::ReadFailed) => Some(stop(StopReason::ReadFailed)),
        (CaptureState::Reading, CaptureEvent::FrameRead { size }) => if size.is_empty() {
            Some((CaptureState::Reading, CaptureAction::ReadFrame))
        } else {
            Some((CaptureState::Decoding, CaptureAction::DecodeFrame))
        },
        (CaptureState::Decoding, CaptureEvent::DecodeFailed) => Some(
            (CaptureState::Encoding, CaptureAction::EncodeFrame { quality: JPEG_QUALITY }),
        ),
        (CaptureState::Decoding, CaptureEvent::Decoded { payload }) => if payload.len() == 0 {
            Some((CaptureState::Encoding, CaptureAction::EncodeFrame { quality: JPEG_QUALITY }))
        } else {
            let text = payload_text(payload.as_slice());
            Some((CaptureState::Announcing, CaptureAction::Publish(Notice::CodeDetected { text })))
        },
        (CaptureState::Announcing, CaptureEvent::Published { .. }) => Some(
            (CaptureState::Encoding, CaptureAction::EncodeFrame { quality: JPEG_QUALITY }),
        ),
        (CaptureState::Encoding, CaptureEvent::EncodeFailed) => Some(
            stop(StopReason::EncodeFailed),
        ),
        (CaptureState::Encoding, CaptureEvent::Encoded { jpeg }) => match text_safe(
            jpeg.as_slice(),
        ) {
            Some(preview) => Some(
                (CaptureState::Publishing, CaptureAction::Publish(Notice::CameraFrame { preview })),
            ),
            None => Some(stop(StopReason::PreviewTooLarge)),
        },
        (CaptureState::Publishing, CaptureEvent::Published { .. }) => Some(
            (CaptureState::Throttling, CaptureAction::Sleep { millis: THROTTLE_MILLIS }),
        ),
        (CaptureState::Throttling, CaptureEvent::Slept) => Some(
            (CaptureState::Reading, CaptureAction::ReadFrame),
        ),
        _ => None,
    }
}

/// The stopped loop and the operation that ends it.
fn stop(reason: StopReason) -> (ended: (CaptureState, CaptureAction))
    ensures
        (ended.0, ended.1@) == halt(reason),
{
    (CaptureState::Stopped(reason), CaptureAction::Halt(reason))
}

/// The events of a recorded session, over mathematical sequences.
pub open spec fn event_views(events: Seq<CaptureEvent>) -> Seq<CaptureEventView> {
    events.map_values(|event: CaptureEvent| event@)
}

/// The operations of a session, over mathematical text.
pub open spec fn action_views(actions: Seq<CaptureAction>) -> Seq<CaptureActionView> {
    actions.map_values(|action: CaptureAction| action@)
}

/// What the loop makes of a session that begins in `state`: the state it
/// ends in and the operations it names, one for each event, in order; `None`
/// where the session holds an event that the loop does not wait for when it
/// comes.
pub open spec fn run(state: CaptureState, events: Seq<CaptureEventView>) -> Option<
    (CaptureState, Seq<CaptureActionView>),
>
    decreases events.len(),
{
    if events.len() == 0 {
        Some((state, Seq::empty()))
    } else {
        match run(state, events.drop_last()) {
            Some((before, actions)) => if awaits(before, events.last()) {
                let (after, action) = next(before, events.last());
                Some((after, actions.push(action)))
            } else {
                None
            },
            None => None,
        }
    }
}

/// A session that is refused after some of its events is refused as a whole.
pub proof fn lemma_run_refused_early(state: CaptureState, events: Seq<CaptureEventView>, n: int)
    requires
        0 <= n <= events.len(),
        run(state, events.take(n)).is_none(),
    ensures
        run(state, events).is_none(),
    decreases events.len() - n,
{
    if n < events.len() {
        assert(events.take(n + 1).drop_last() == events.take(n));
        lemma_run_refused_early(state, events, n + 1);
    } else {
        assert(events.take(n) == events);
    }
}

/// Feeds a recorded session to the loop, beginning in `start`.
///
/// Returns the state that the loop ends in and the operations that it named,
/// one for each event, or `None` where it refuses an event. Every preview
/// among the operations decodes back to the compressed frame that it was
/// made from.
pub fn replay(start: CaptureState, events: &Vec<CaptureEvent>) -> (outcome: Option<
    (CaptureState, Vec<CaptureAction>),
>)
    ensures
        match outcome {
            Some((state, actions)) => {
                &&& run(start, event_views(events@)) == Some((state, action_views(actions@)))
                &&& actions@.len() == events@.len()
                &&& forall|i: int|
                    0 <= i < events@.len() ==> preview_decodes_back(
                        #[trigger] events@[i]@,
                        actions@[i]@,
                    )
            },
            None => run(start, event_views(events@)).is_none(),
        },
{
    let ghost session = event_views(events@);
    let mut state = start;
    let mut actions: Vec<CaptureAction> = Vec::new();
    let mut i: usize = 0;
    assert(session.take(0) == Seq::<CaptureEventView>::empty());
    assert(action_views(actions@) == Seq::<CaptureActionView>::empty());
    while i < events.len()
        invariant
            i <= events.len(),
            session == event_views(events@),
            run(start, session.take(i as int)) == Some((state, action_views(actions@))),
            actions@.len() == i,
            forall|j: int|
                0 <= j < i ==> preview_decodes_back(#[trigger] events@[j]@, actions@[j]@),
        decreases events.len() - i,
    {
        proof {
            assert(session.take(i + 1).drop_last() == session.take(i as int));
            assert(session.take(i + 1).last() == events@[i as int]@);
        }
        match step(state, &events[i]) {
            Some((after, action)) => {
                proof {
                    assert(action_views(actions@.push(action)) == action_views(actions@).push(
                        action@,
                    ));
                }
                state = after;
                actions.push(action);
            },
            None => {
                proof {
                    lemma_run_refused_early(start, session, i + 1);
                }
                return None;
            },
        }
        i += 1;
    }
    assert(session.take(i as int) == session);
    Some((state, actions))
}

} // verus!
