//! What holds of every session of the capture loop.

use vstd::prelude::*;
use crate::capture::{
    awaits, next, run, CaptureActionView, CaptureEventView, CaptureState, FrameSize,
    JPEG_QUALITY, THROTTLE_MILLIS,
};
use crate::codec::{encodable, lossy_utf8, standard_encoding};
use crate::event::NoticeView;

verus! {

/// Everything that happens to one frame: what the device read, what the scan
/// and the compression made of it, and whether the sink took its events.
pub struct FrameOutcome {
    /// Size of the frame as read.
    pub size: FrameSize,
    /// Payload that the scan found, empty where the frame shows no code;
    /// `None` where the scan failed.
    pub scan: Option<Seq<u8>>,
    /// The compressed frame.
    pub jpeg: Seq<u8>,
    /// Whether the sink took the scanned code.
    pub code_delivered: bool,
    /// Whether the sink took the preview.
    pub preview_delivered: bool,
}

impl FrameOutcome {
    /// The frame shows a QR code.
    pub open spec fn has_code(self) -> bool {
        self.scan matches Some(payload) && payload.len() > 0
    }

    /// The payload of the code that the frame shows.
    pub open spec fn payload(self) -> Seq<u8> {
        self.scan->0
    }

    /// The frame can be handled to the end: it is empty and skipped, or its
    /// compressed form can be put in text-safe form.
    pub open spec fn passable(self) -> bool {
        self.size.is_empty() || encodable(self.jpeg.len())
    }

    /// How the scan of the frame went.
    pub open spec fn scan_event(self) -> CaptureEventView {
        match self.scan {
            Some(payload) => CaptureEventView::Decoded { payload },
            None => CaptureEventView::DecodeFailed,
        }
    }

    /// The event that announces the code of the frame.
    pub open spec fn code_notice(self) -> NoticeView {
        NoticeView::CodeDetected { text: lossy_utf8(self.payload()) }
    }

    /// The event that carries the preview of the frame.
    pub open spec fn preview_notice(self) -> NoticeView {
        NoticeView::CameraFrame { preview: standard_encoding(self.jpeg) }
    }

    /// The reports that the loop receives while it handles the frame, from
    /// the read on.
    pub open spec fn events(self) -> Seq<CaptureEventView> {
        if self.size.is_empty() {
            seq![CaptureEventView::FrameRead { size: self.size }]
        } else if self.has_code() {
            seq![
                CaptureEventView::FrameRead { size: self.size },
                self.scan_event(),
                CaptureEventView::Published { delivered: self.code_delivered },
                CaptureEventView::Encoded { jpeg: self.jpeg },
                CaptureEventView::Published { delivered: self.preview_delivered },
                CaptureEventView::Slept,
            ]
        } else {
            seq![
                CaptureEventView::FrameRead { size: self.size },
                self.scan_event(),
                CaptureEventView::Encoded { jpeg: self.jpeg },
                CaptureEventView::Published { delivered: self.preview_delivered },
                CaptureEventView::Slept,
            ]
        }
    }

    /// The operations that handling the frame takes, from the scan to the
    /// read of the next frame.
    pub open spec fn actions(self) -> Seq<CaptureActionView> {
        if self.size.is_empty() {
            seq![CaptureActionView::ReadFrame]
        } else if self.has_code() {
            seq![
                CaptureActionView::DecodeFrame,
                CaptureActionView::Publish(self.code_notice()),
                CaptureActionView::EncodeFrame { quality: JPEG_QUALITY },
                CaptureActionView::Publish(self.preview_notice()),
                CaptureActionView::Sleep { millis: THROTTLE_MILLIS },
                CaptureActionView::ReadFrame,
            ]
        } else {
            seq![
                CaptureActionView::DecodeFrame,
                CaptureActionView::EncodeFrame { quality: JPEG_QUALITY },
                CaptureActionView::Publish(self.preview_notice()),
                CaptureActionView::Sleep { millis: THROTTLE_MILLIS },
                CaptureActionView::ReadFrame,
            ]
        }
    }

    /// The events that the frame gives rise to, in the order of publication.
    pub open spec fn notices(self) -> Seq<NoticeView> {
        if self.size.is_empty() {
            Seq::empty()
        } else if self.has_code() {
            seq![self.code_notice(), self.preview_notice()]
        } else {
            seq![self.preview_notice()]
        }
    }
}

/// The events that a sequence of operations publishes, in order.
pub open spec fn published(actions: Seq<CaptureActionView>) -> Seq<NoticeView>
    decreases actions.len(),
{
    if actions.len() == 0 {
        Seq::empty()
    } else {
        let earlier = published(actions.drop_last());
        match actions.last() {
            CaptureActionView::Publish(notice) => earlier.push(notice),
            _ => earlier,
        }
    }
}

/// The reports of a session in which the device yields `frames`, one after
/// the other.
pub open spec fn session_events(frames: Seq<FrameOutcome>) -> Seq<CaptureEventView>
    decreases frames.len(),
{
    if frames.len() == 0 {
        Seq::empty()
    } else {
        session_events(frames.drop_last()) + frames.last().events()
    }
}

/// The operations that handling `frames` takes, frame after frame.
pub open spec fn session_actions(frames: Seq<FrameOutcome>) -> Seq<CaptureActionView>
    decreases frames.len(),
{
    if frames.len() == 0 {
        Seq::empty()
    } else {
        session_actions(frames.drop_last()) + frames.last().actions()
    }
}

/// The events that `frames` give rise to, frame after frame.
pub open spec fn session_notices(frames: Seq<FrameOutcome>) -> Seq<NoticeView>
    decreases frames.len(),
{
    if frames.len() == 0 {
        Seq::empty()
    } else {
        session_notices(frames.drop_last()) + frames.last().notices()
    }
}

/// One more event extends a session by one step of the loop.
pub proof fn lemma_run_push(
    state: CaptureState,
    events: Seq<CaptureEventView>,
    event: CaptureEventView,
)
    ensures
        run(state, events.push(event)) == match run(state, events) {
            Some((before, actions)) => if awaits(before, event) {
                Some((next(before, event).0, actions.push(next(before, event).1)))
            } else {
                None
            },
            None => None,
        },
{
    assert(events.push(event).drop_last() == events);
}

/// A session made of two parts is the first part, then the second from the
/// state that the first ends in.
pub proof fn lemma_run_concat(
    state: CaptureState,
    first: Seq<CaptureEventView>,
    second: Seq<CaptureEventView>,
)
    ensures
        run(state, first + second) == match run(state, first) {
            Some((middle, begun)) => match run(middle, second) {
                Some((end, rest)) => Some((end, begun + rest)),
                None => None,
            },
            None => None,
        },
    decreases second.len(),
{
    if second.len() == 0 {
        assert(first + second == first);
        if let Some((middle, begun)) = run(state, first) {
            assert(begun + Seq::<CaptureActionView>::empty() == begun);
        }
    } else {
        lemma_run_concat(state, first, second.drop_last());
        assert((first + second).drop_last() == first + second.drop_last());
        assert((first + second).last() == second.last());
        if let Some((middle, begun)) = run(state, first) {
            if let Some((before, rest)) = run(middle, second.drop_last()) {
                assert((begun + rest).push(next(before, second.last()).1) == begun + rest.push(
                    next(before, second.last()).1,
                ));
            }
        }
    }
}

/// What two sequences of operations publish is what the first publishes, then
/// what the second does.
pub proof fn lemma_published_concat(first: Seq<CaptureActionView>, second: Seq<CaptureActionView>)
    ensures
        published(first + second) == published(first) + published(second),
    decreases second.len(),
{
    if second.len() == 0 {
        assert(first + second == first);
        assert(published(first) + Seq::<NoticeView>::empty() == published(first));
    } else {
        lemma_published_concat(first, second.drop_last());
        assert((first + second).drop_last() == first + second.drop_last());
        assert((first + second).last() == second.last());
        if let CaptureActionView::Publish(notice) = second.last() {
            assert((published(first) + published(second.drop_last())).push(notice) == published(
                first,
            ) + published(second.drop_last()).push(notice));
        }
    }
}

/// One more operation adds what it publishes, if anything.
pub proof fn lemma_published_push(actions: Seq<CaptureActionView>, action: CaptureActionView)
    ensures
        published(actions.push(action)) == match action {
            CaptureActionView::Publish(notice) => published(actions).push(notice),
            _ => published(actions),
        },
{
    assert(actions.push(action).drop_last() == actions);
}

/// An empty frame is read again at once: the loop neither scans nor publishes
/// nor pauses, whatever the height of the frame.
pub proof fn law_empty_frame_is_read_again(size: FrameSize)
    requires
        size.width == 0,
    ensures
        awaits(CaptureState::Reading, CaptureEventView::FrameRead { size }),
        next(CaptureState::Reading, CaptureEventView::FrameRead { size }) == (
            CaptureState::Reading,
            CaptureActionView::ReadFrame,
        ),
{
}

/// A frame whose scan fails is compressed and published like one without a
/// code.
pub proof fn law_failed_scan_goes_on()
    ensures
        awaits(CaptureState::Decoding, CaptureEventView::DecodeFailed),
        next(CaptureState::Decoding, CaptureEventView::DecodeFailed) == (
            CaptureState::Encoding,
            CaptureActionView::EncodeFrame { quality: JPEG_QUALITY },
        ),
{
}

/// Whether the sink took an event does not matter to the loop: it goes on
/// the same way, and does not stop.
pub proof fn law_publish_outcome_is_ignored(state: CaptureState, delivered: bool)
    requires
        state is Announcing || state is Publishing,
    ensures
        awaits(state, CaptureEventView::Published { delivered }),
        next(state, CaptureEventView::Published { delivered }) == next(
            state,
            CaptureEventView::Published { delivered: !delivered },
        ),
        !(next(state, CaptureEventView::Published { delivered }).0 is Stopped),
{
}

/// Nothing is read from a device that could not be acquired or that reports
/// that it is not open: the loop ends at once.
pub proof fn law_unopened_device_ends_the_loop(event: CaptureEventView)
    requires
        event is OpenFailed || event == (CaptureEventView::Opened { is_open: false }),
    ensures
        awaits(CaptureState::Opening, event),
        next(CaptureState::Opening, event).0 is Stopped,
        next(CaptureState::Opening, event).1 is Halt,
{
}

/// A stopped loop stays stopped: it takes no further event.
pub proof fn law_stopped_is_final(state: CaptureState, events: Seq<CaptureEventView>)
    requires
        state is Stopped,
        events.len() > 0,
    ensures
        run(state, events).is_none(),
    decreases events.len(),
{
    if events.len() > 1 {
        law_stopped_is_final(state, events.drop_last());
    } else {
        reveal_with_fuel(run, 2);
    }
}

/// Handling one frame: from the read of a frame the loop names exactly the
/// operations of `frame.actions()` and then waits for the next frame.
///
/// For a frame that is not empty they hold one preview, published once,
/// whether the scan succeeded or failed; where the frame shows a code they
/// also hold its announcement, once, before the preview. An empty frame
/// leads to no announcement, no preview and no pause.
pub proof fn law_frame_cycle(frame: FrameOutcome)
    requires
        frame.passable(),
    ensures
        run(CaptureState::Reading, frame.events()) == Some(
            (CaptureState::Reading, frame.actions()),
        ),
        published(frame.actions()) == frame.notices(),
        frame.size.is_empty() ==> frame.notices().len() == 0,
        !frame.size.is_empty() && frame.has_code() ==> frame.notices() == seq![
            NoticeView::CodeDetected { text: lossy_utf8(frame.payload()) },
            NoticeView::CameraFrame { preview: standard_encoding(frame.jpeg) },
        ],
        !frame.size.is_empty() && !frame.has_code() ==> frame.notices() == seq![
            NoticeView::CameraFrame { preview: standard_encoding(frame.jpeg) },
        ],
{
    let start = CaptureState::Reading;
    let none = Seq::<CaptureEventView>::empty();
    let idle = Seq::<CaptureActionView>::empty();
    let read = CaptureEventView::FrameRead { size: frame.size };
    let scanned = frame.scan_event();
    let announced = CaptureEventView::Published { delivered: frame.code_delivered };
    let encoded = CaptureEventView::Encoded { jpeg: frame.jpeg };
    let shown = CaptureEventView::Published { delivered: frame.preview_delivered };
    let slept = CaptureEventView::Slept;
    let scan = CaptureActionView::DecodeFrame;
    let announce = CaptureActionView::Publish(frame.code_notice());
    let encode = CaptureActionView::EncodeFrame { quality: JPEG_QUALITY };
    let show = CaptureActionView::Publish(frame.preview_notice());
    let sleep = CaptureActionView::Sleep { millis: THROTTLE_MILLIS };
    let again = CaptureActionView::ReadFrame;
    lemma_run_push(start, none, read);
    if frame.size.is_empty() {
        assert(frame.events() == none.push(read));
        assert(frame.actions() == idle.push(again));
        lemma_published_push(idle, again);
    } else if frame.has_code() {
        let e1 = none.push(read);
        let e2 = e1.push(scanned);
        let e3 = e2.push(announced);
        let e4 = e3.push(encoded);
        let e5 = e4.push(shown);
        lemma_run_push(start, e1, scanned);
        lemma_run_push(start, e2, announced);
        lemma_run_push(start, e3, encoded);
        lemma_run_push(start, e4, shown);
        lemma_run_push(start, e5, slept);
        assert(frame.events() == e5.push(slept));
        let a1 = idle.push(scan);
        let a2 = a1.push(announce);
        let a3 = a2.push(encode);
        let a4 = a3.push(show);
        let a5 = a4.push(sleep);
        assert(frame.actions() == a5.push(again));
        lemma_published_push(idle, scan);
        lemma_published_push(a1, announce);
        lemma_published_push(a2, encode);
        lemma_published_push(a3, show);
        lemma_published_push(a4, sleep);
        lemma_published_push(a5, again);
        assert(frame.notices() == Seq::<NoticeView>::empty().push(frame.code_notice()).push(
            frame.preview_notice(),
        ));
    } else {
        let e1 = none.push(read);
        let e2 = e1.push(scanned);
        let e3 = e2.push(encoded);
        let e4 = e3.push(shown);
        lemma_run_push(start, e1, scanned);
        lemma_run_push(start, e2, encoded);
        lemma_run_push(start, e3, shown);
        lemma_run_push(start, e4, slept);
        assert(frame.events() == e4.push(slept));
        let a1 = idle.push(scan);
        let a2 = a1.push(encode);
        let a3 = a2.push(show);
        let a4 = a3.push(sleep);
        assert(frame.actions() == a4.push(again));
        lemma_published_push(idle, scan);
        lemma_published_push(a1, encode);
        lemma_published_push(a2, show);
        lemma_published_push(a3, sleep);
        lemma_published_push(a4, again);
    }
}

/// A whole session: while the device yields frames that can be handled, the
/// loop handles them one after the other and is ready for the next. What it
/// publishes is, frame by frame and in the order of the frames, what each
/// frame gives rise to.
pub proof fn law_session(frames: Seq<FrameOutcome>)
    requires
        forall|i: int| 0 <= i < frames.len() ==> (#[trigger] frames[i]).passable(),
    ensures
        run(CaptureState::Reading, session_events(frames)) == Some(
            (CaptureState::Reading, session_actions(frames)),
        ),
        published(session_actions(frames)) == session_notices(frames),
    decreases frames.len(),
{
    if frames.len() > 0 {
        let earlier = frames.drop_last();
        law_session(earlier);
        law_frame_cycle(frames.last());
        lemma_run_concat(CaptureState::Reading, session_events(earlier), frames.last().events());
        lemma_published_concat(session_actions(earlier), frames.last().actions());
    }
}

/// A session publishes as many previews as it has frames that are not empty,
/// and as many announcements as it has such frames that show a code.
pub proof fn law_session_counts(frames: Seq<FrameOutcome>)
    ensures
        session_notices(frames).filter(|notice: NoticeView| notice is CameraFrame).len()
            == frames.filter(|frame: FrameOutcome| !frame.size.is_empty()).len(),
        session_notices(frames).filter(|notice: NoticeView| notice is CodeDetected).len()
            == frames.filter(
            |frame: FrameOutcome| !frame.size.is_empty() && frame.has_code(),
        ).len(),
    decreases frames.len(),
{
    let preview = |notice: NoticeView| notice is CameraFrame;
    let code = |notice: NoticeView| notice is CodeDetected;
    let shown = |frame: FrameOutcome| !frame.size.is_empty();
    let scanned = |frame: FrameOutcome| !frame.size.is_empty() && frame.has_code();
    reveal_with_fuel(Seq::filter, 3);
    if frames.len() > 0 {
        let earlier = frames.drop_last();
        let last = frames.last();
        law_session_counts(earlier);
        Seq::filter_distributes_over_add(session_notices(earlier), last.notices(), preview);
        Seq::filter_distributes_over_add(session_notices(earlier), last.notices(), code);
        let none = Seq::<NoticeView>::empty();
        if last.size.is_empty() {
        } else if last.has_code() {
            assert(last.notices() == none.push(last.code_notice()).push(last.preview_notice()));
            assert(none.push(last.code_notice()).push(last.preview_notice()).drop_last()
                == none.push(last.code_notice()));
            assert(none.push(last.code_notice()).drop_last() == none);
        } else {
            assert(last.notices() == none.push(last.preview_notice()));
            assert(none.push(last.preview_notice()).drop_last() == none);
        }
    }
}

/// A session from the very start: once the device is open, the loop reads
/// the first frame and handles the frames as `law_session` says.
pub proof fn law_session_from_start(frames: Seq<FrameOutcome>)
    requires
        forall|i: int| 0 <= i < frames.len() ==> (#[trigger] frames[i]).passable(),
    ensures
        run(
            CaptureState::Opening,
            seq![CaptureEventView::Opened { is_open: true }] + session_events(frames),
        ) == Some(
            (CaptureState::Reading, seq![CaptureActionView::ReadFrame] + session_actions(frames)),
        ),
        published(seq![CaptureActionView::ReadFrame] + session_actions(frames))
            == session_notices(frames),
{
    let opened = CaptureEventView::Opened { is_open: true };
    let read = CaptureActionView::ReadFrame;
    lemma_run_push(CaptureState::Opening, Seq::empty(), opened);
    assert(seq![opened] == Seq::<CaptureEventView>::empty().push(opened));
    assert(seq![read] == Seq::<CaptureActionView>::empty().push(read));
    law_session(frames);
    lemma_run_concat(CaptureState::Opening, seq![opened], session_events(frames));
    lemma_published_push(Seq::empty(), read);
    lemma_published_concat(seq![read], session_actions(frames));
    assert(Seq::<NoticeView>::empty() + session_notices(frames) == session_notices(frames));
}

/// Whether the loop takes every event of a round, a session that begins
/// with the loop waiting for a frame.
pub open spec fn taken(events: Seq<CaptureEventView>) -> bool {
    run(CaptureState::Reading, events).is_some()
}

/// The state of the loop after a round.
pub open spec fn state_after(events: Seq<CaptureEventView>) -> CaptureState {
    match run(CaptureState::Reading, events) {
        Some((state, _)) => state,
        None => CaptureState::Reading,
    }
}

/// The last event of a round was taken in the state that the events before
/// it led to.
proof fn lemma_last_step(events: Seq<CaptureEventView>)
    requires
        taken(events),
        events.len() > 0,
    ensures
        taken(events.drop_last()),
        awaits(state_after(events.drop_last()), events.last()),
        state_after(events) == next(state_after(events.drop_last()), events.last()).0,
{
}

/// A round never brings the loop back to acquiring the device.
proof fn lemma_never_opening_again(events: Seq<CaptureEventView>)
    requires
        taken(events),
    ensures
        !(state_after(events) is Opening),
{
    if events.len() > 0 {
        lemma_last_step(events);
    }
}

/// Every round that leaves the loop waiting for a frame is made of whole
/// frames: its events are those of a sequence of frames, each handled to the
/// end, and of nothing else. So what `law_session` says of sequences of
/// frames holds of every such round.
pub proof fn law_every_round_is_made_of_frames(events: Seq<CaptureEventView>) -> (frames: Seq<
    FrameOutcome,
>)
    requires
        taken(events),
        state_after(events) is Reading,
    ensures
        events == session_events(frames),
        forall|i: int| 0 <= i < frames.len() ==> (#[trigger] frames[i]).passable(),
    decreases events.len(),
{
    if events.len() == 0 {
        Seq::empty()
    } else {
        let e1 = events.drop_last();
        lemma_last_step(events);
        lemma_never_opening_again(e1);
        if state_after(e1) is Reading {
            let earlier = law_every_round_is_made_of_frames(e1);
            let frame = FrameOutcome {
                size: events.last()->FrameRead_size,
                scan: None,
                jpeg: Seq::empty(),
                code_delivered: false,
                preview_delivered: false,
            };
            let frames = earlier.push(frame);
            assert(frames.drop_last() == earlier);
            assert(events == e1 + frame.events());
            frames
        } else {
            // The pause, the preview and the compression end the frame.
            lemma_last_step(e1);
            let e2 = e1.drop_last();
            lemma_last_step(e2);
            let e3 = e2.drop_last();
            let jpeg = e2.last()->Encoded_jpeg;
            let preview_delivered = e1.last()->Published_delivered;
            // Before them comes the scan, with or without an announcement.
            lemma_last_step(e3);
            let e4 = e3.drop_last();
            lemma_last_step(e4);
            let e5 = e4.drop_last();
            if state_after(e4) is Decoding {
                let scan = match e3.last() {
                    CaptureEventView::Decoded { payload } => Some(payload),
                    _ => None,
                };
                let earlier = law_every_round_is_made_of_frames(e5);
                let frame = FrameOutcome {
                    size: e4.last()->FrameRead_size,
                    scan,
                    jpeg,
                    code_delivered: false,
                    preview_delivered,
                };
                let frames = earlier.push(frame);
                assert(frames.drop_last() == earlier);
                assert(events == e5 + frame.events());
                frames
            } else {
                lemma_last_step(e5);
                let e6 = e5.drop_last();
                let earlier = law_every_round_is_made_of_frames(e6);
                let frame = FrameOutcome {
                    size: e5.last()->FrameRead_size,
                    scan: Some(e4.last()->Decoded_payload),
                    jpeg,
                    code_delivered: e3.last()->Published_delivered,
                    preview_delivered,
                };
                let frames = earlier.push(frame);
                assert(frames.drop_last() == earlier);
                assert(events == e6 + frame.events());
                frames
            }
        }
    }
}

/// Every round that leaves the loop waiting for a frame publishes, frame by
/// frame, one announcement for each frame that shows a code and, after it,
/// one preview for each frame that is not empty: `frames` are the frames of
/// the round.
pub proof fn law_every_round_publishes_its_frames(events: Seq<CaptureEventView>) -> (frames: Seq<
    FrameOutcome,
>)
    requires
        taken(events),
        state_after(events) is Reading,
    ensures
        events == session_events(frames),
        run(CaptureState::Reading, events) == Some(
            (CaptureState::Reading, session_actions(frames)),
        ),
        published(session_actions(frames)) == session_notices(frames),
{
    let frames = law_every_round_is_made_of_frames(events);
    law_session(frames);
    frames
}

} // verus!
