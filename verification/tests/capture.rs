use badge_station::capture::{
    replay, start, step, CaptureAction, CaptureEvent, CaptureState, FrameSize, StopReason,
    JPEG_QUALITY, THROTTLE_MILLIS,
};
use badge_station::event::Notice;

fn full_size() -> FrameSize {
    FrameSize { width: 640, height: 480 }
}

fn encode_frame() -> CaptureAction {
    CaptureAction::EncodeFrame { quality: 70 }
}

#[test]
fn constants_have_their_values() {
    assert_eq!(JPEG_QUALITY, 70);
    assert_eq!(THROTTLE_MILLIS, 100);
}

#[test]
fn start_asks_for_the_device() {
    assert_eq!(start(), (CaptureState::Opening, CaptureAction::OpenDevice));
}

#[test]
fn frame_size_knows_when_it_is_empty() {
    assert!(FrameSize { width: 0, height: 0 }.is_empty());
    assert!(FrameSize { width: 0, height: 480 }.is_empty());
    assert!(FrameSize { width: 640, height: 0 }.is_empty());
    assert!(!FrameSize { width: 1, height: 1 }.is_empty());
    assert!(!full_size().is_empty());
}

#[test]
fn an_open_device_is_read() {
    assert_eq!(
        step(CaptureState::Opening, &CaptureEvent::Opened { is_open: true }),
        Some((CaptureState::Reading, CaptureAction::ReadFrame))
    );
}

#[test]
fn a_device_that_cannot_be_acquired_ends_the_loop() {
    assert_eq!(
        step(CaptureState::Opening, &CaptureEvent::OpenFailed),
        Some((
            CaptureState::Stopped(StopReason::DeviceUnavailable),
            CaptureAction::Halt(StopReason::DeviceUnavailable)
        ))
    );
}

#[test]
fn a_device_that_is_not_open_ends_the_loop() {
    assert_eq!(
        step(CaptureState::Opening, &CaptureEvent::Opened { is_open: false }),
        Some((
            CaptureState::Stopped(StopReason::DeviceNotOpened),
            CaptureAction::Halt(StopReason::DeviceNotOpened)
        ))
    );
}

#[test]
fn a_failed_read_ends_the_loop() {
    assert_eq!(
        step(CaptureState::Reading, &CaptureEvent::ReadFailed),
        Some((
            CaptureState::Stopped(StopReason::ReadFailed),
            CaptureAction::Halt(StopReason::ReadFailed)
        ))
    );
}

#[test]
fn an_empty_frame_is_read_again_at_once() {
    for size in [
        FrameSize { width: 0, height: 0 },
        FrameSize { width: 0, height: 480 },
        FrameSize { width: 640, height: 0 },
    ] {
        assert_eq!(
            step(CaptureState::Reading, &CaptureEvent::FrameRead { size }),
            Some((CaptureState::Reading, CaptureAction::ReadFrame))
        );
    }
}

#[test]
fn a_frame_with_pixels_is_scanned() {
    assert_eq!(
        step(CaptureState::Reading, &CaptureEvent::FrameRead { size: full_size() }),
        Some((CaptureState::Decoding, CaptureAction::DecodeFrame))
    );
}

#[test]
fn a_scanned_code_is_announced() {
    assert_eq!(
        step(CaptureState::Decoding, &CaptureEvent::Decoded { payload: b"BADGE-001".to_vec() }),
        Some((
            CaptureState::Announcing,
            CaptureAction::Publish(Notice::CodeDetected { text: String::from("BADGE-001") })
        ))
    );
}

#[test]
fn a_scanned_code_that_is_not_text_is_announced_with_replacements() {
    assert_eq!(
        step(CaptureState::Decoding, &CaptureEvent::Decoded { payload: vec![b'A', 0xff, b'B'] }),
        Some((
            CaptureState::Announcing,
            CaptureAction::Publish(Notice::CodeDetected { text: String::from("A\u{fffd}B") })
        ))
    );
}

#[test]
fn a_frame_without_code_is_compressed() {
    assert_eq!(
        step(CaptureState::Decoding, &CaptureEvent::Decoded { payload: vec![] }),
        Some((CaptureState::Encoding, encode_frame()))
    );
}

#[test]
fn a_failed_scan_does_not_keep_the_frame_from_being_compressed() {
    assert_eq!(
        step(CaptureState::Decoding, &CaptureEvent::DecodeFailed),
        Some((CaptureState::Encoding, encode_frame()))
    );
}

#[test]
fn the_frame_is_compressed_after_the_announcement_whether_delivered_or_not() {
    for delivered in [true, false] {
        assert_eq!(
            step(CaptureState::Announcing, &CaptureEvent::Published { delivered }),
            Some((CaptureState::Encoding, encode_frame()))
        );
    }
}

#[test]
fn a_compressed_frame_is_published_in_text_safe_form() {
    assert_eq!(
        step(CaptureState::Encoding, &CaptureEvent::Encoded { jpeg: vec![0xff, 0xd8, 0xff, 0xe0] }),
        Some((
            CaptureState::Publishing,
            CaptureAction::Publish(Notice::CameraFrame { preview: String::from("/9j/4A==") })
        ))
    );
}

#[test]
fn a_frame_that_cannot_be_compressed_ends_the_loop() {
    assert_eq!(
        step(CaptureState::Encoding, &CaptureEvent::EncodeFailed),
        Some((
            CaptureState::Stopped(StopReason::EncodeFailed),
            CaptureAction::Halt(StopReason::EncodeFailed)
        ))
    );
}

#[test]
fn the_loop_pauses_after_the_preview_whether_delivered_or_not() {
    for delivered in [true, false] {
        assert_eq!(
            step(CaptureState::Publishing, &CaptureEvent::Published { delivered }),
            Some((CaptureState::Throttling, CaptureAction::Sleep { millis: 100 }))
        );
    }
}

#[test]
fn the_next_frame_is_read_after_the_pause() {
    assert_eq!(
        step(CaptureState::Throttling, &CaptureEvent::Slept),
        Some((CaptureState::Reading, CaptureAction::ReadFrame))
    );
}

#[test]
fn a_capture_event_out_of_turn_is_refused() {
    assert_eq!(step(CaptureState::Reading, &CaptureEvent::Slept), None);
    assert_eq!(step(CaptureState::Opening, &CaptureEvent::FrameRead { size: full_size() }), None);
    assert_eq!(step(CaptureState::Decoding, &CaptureEvent::Encoded { jpeg: vec![1] }), None);
    assert_eq!(step(CaptureState::Encoding, &CaptureEvent::Decoded { payload: vec![1] }), None);
    assert_eq!(step(CaptureState::Throttling, &CaptureEvent::Published { delivered: true }), None);
    assert_eq!(step(CaptureState::Publishing, &CaptureEvent::Slept), None);
}

#[test]
fn a_stopped_loop_takes_no_event() {
    let stopped = CaptureState::Stopped(StopReason::ReadFailed);
    let events = vec![
        CaptureEvent::OpenFailed,
        CaptureEvent::Opened { is_open: true },
        CaptureEvent::ReadFailed,
        CaptureEvent::FrameRead { size: full_size() },
        CaptureEvent::DecodeFailed,
        CaptureEvent::Decoded { payload: vec![1] },
        CaptureEvent::EncodeFailed,
        CaptureEvent::Encoded { jpeg: vec![1] },
        CaptureEvent::Published { delivered: true },
        CaptureEvent::Slept,
    ];
    for event in &events {
        assert_eq!(step(stopped, event), None);
    }
}

#[test]
fn replay_of_nothing_changes_nothing() {
    assert_eq!(replay(CaptureState::Decoding, &vec![]), Some((CaptureState::Decoding, vec![])));
}

#[test]
fn replay_refuses_a_session_with_an_event_out_of_turn() {
    let events = vec![
        CaptureEvent::Opened { is_open: true },
        CaptureEvent::FrameRead { size: full_size() },
        CaptureEvent::Slept,
        CaptureEvent::DecodeFailed,
    ];
    assert_eq!(replay(CaptureState::Opening, &events), None);
}

#[test]
fn replay_stops_with_the_device() {
    let events = vec![CaptureEvent::Opened { is_open: true }, CaptureEvent::ReadFailed];
    assert_eq!(
        replay(CaptureState::Opening, &events),
        Some((
            CaptureState::Stopped(StopReason::ReadFailed),
            vec![CaptureAction::ReadFrame, CaptureAction::Halt(StopReason::ReadFailed)]
        ))
    );
}

#[test]
fn one_frame_with_a_code_is_announced_once_before_its_preview() {
    let events = vec![
        CaptureEvent::FrameRead { size: full_size() },
        CaptureEvent::Decoded { payload: b"BADGE-001".to_vec() },
        CaptureEvent::Published { delivered: true },
        CaptureEvent::Encoded { jpeg: b"foo".to_vec() },
        CaptureEvent::Published { delivered: false },
        CaptureEvent::Slept,
    ];
    assert_eq!(
        replay(CaptureState::Reading, &events),
        Some((
            CaptureState::Reading,
            vec![
                CaptureAction::DecodeFrame,
                CaptureAction::Publish(Notice::CodeDetected { text: String::from("BADGE-001") }),
                CaptureAction::EncodeFrame { quality: 70 },
                CaptureAction::Publish(Notice::CameraFrame { preview: String::from("Zm9v") }),
                CaptureAction::Sleep { millis: 100 },
                CaptureAction::ReadFrame,
            ]
        ))
    );
}

#[test]
fn ten_frames_three_of_them_with_a_badge() {
    let with_badge = [1usize, 4, 8];
    let mut state = start().0;
    let mut notices: Vec<Notice> = Vec::new();
    let mut sleeps = 0;
    let mut pending = step(state, &CaptureEvent::Opened { is_open: true });
    for frame in 0..10usize {
        let jpeg = vec![0xff, 0xd8, frame as u8];
        loop {
            let (after, action) = pending.take().unwrap();
            state = after;
            let event = match action {
                CaptureAction::ReadFrame => CaptureEvent::FrameRead { size: full_size() },
                CaptureAction::DecodeFrame => {
                    if with_badge.contains(&frame) {
                        CaptureEvent::Decoded { payload: b"BADGE-001".to_vec() }
                    } else {
                        CaptureEvent::Decoded { payload: vec![] }
                    }
                }
                CaptureAction::EncodeFrame { quality } => {
                    assert_eq!(quality, 70);
                    CaptureEvent::Encoded { jpeg: jpeg.clone() }
                }
                CaptureAction::Publish(notice) => {
                    notices.push(notice);
                    CaptureEvent::Published { delivered: true }
                }
                CaptureAction::Sleep { millis } => {
                    assert_eq!(millis, 100);
                    sleeps += 1;
                    CaptureEvent::Slept
                }
                other => panic!("unexpected operation {:?}", other),
            };
            let slept = event == CaptureEvent::Slept;
            pending = step(state, &event);
            if slept {
                break;
            }
        }
    }
    assert_eq!(pending, Some((CaptureState::Reading, CaptureAction::ReadFrame)));
    assert_eq!(sleeps, 10);

    let codes: Vec<&Notice> = notices.iter().filter(|n| n.name() == "qrcode_detected").collect();
    let previews: Vec<&Notice> = notices.iter().filter(|n| n.name() == "camera_frame").collect();
    assert_eq!(codes.len(), 3);
    assert_eq!(previews.len(), 10);
    assert_eq!(notices.len(), 13);
    for code in &codes {
        assert_eq!(**code, Notice::CodeDetected { text: String::from("BADGE-001") });
    }

    let mut expected: Vec<Notice> = Vec::new();
    for frame in 0..10usize {
        if with_badge.contains(&frame) {
            expected.push(Notice::CodeDetected { text: String::from("BADGE-001") });
        }
        let preview = badge_station::codec::text_safe(&[0xff, 0xd8, frame as u8]).unwrap();
        expected.push(Notice::CameraFrame { preview });
    }
    assert_eq!(notices, expected);
}

#[test]
fn empty_frames_between_real_ones_cost_no_pause() {
    let events = vec![
        CaptureEvent::Opened { is_open: true },
        CaptureEvent::FrameRead { size: FrameSize { width: 0, height: 0 } },
        CaptureEvent::FrameRead { size: FrameSize { width: 0, height: 0 } },
        CaptureEvent::FrameRead { size: full_size() },
        CaptureEvent::DecodeFailed,
        CaptureEvent::Encoded { jpeg: vec![] },
        CaptureEvent::Published { delivered: true },
        CaptureEvent::Slept,
        CaptureEvent::FrameRead { size: FrameSize { width: 0, height: 0 } },
    ];
    assert_eq!(
        replay(CaptureState::Opening, &events),
        Some((
            CaptureState::Reading,
            vec![
                CaptureAction::ReadFrame,
                CaptureAction::ReadFrame,
                CaptureAction::ReadFrame,
                CaptureAction::DecodeFrame,
                CaptureAction::EncodeFrame { quality: 70 },
                CaptureAction::Publish(Notice::CameraFrame { preview: String::new() }),
                CaptureAction::Sleep { millis: 100 },
                CaptureAction::ReadFrame,
                CaptureAction::ReadFrame,
            ]
        ))
    );
}
