use frame_relay::frame::CloseInfo;
use frame_relay::frame::Frame;
use frame_relay::frame::clone_frame;
use frame_relay::frame::normalize;
use frame_relay::pump::ExitCause;
use frame_relay::pump::ReadEvent;
use frame_relay::pump::Step;
use frame_relay::pump::after_write;
use frame_relay::pump::next_step;
use frame_relay::pump::pump;

fn text(s: &str) -> Frame {
    Frame::Text(String::from(s))
}

#[test]
fn normalize_keeps_text() {
    assert_eq!(normalize(text("hello")), text("hello"));
}

#[test]
fn normalize_keeps_binary() {
    assert_eq!(
        normalize(Frame::Binary(vec![0, 1, 2, 255])),
        Frame::Binary(vec![0, 1, 2, 255])
    );
}

#[test]
fn normalize_keeps_ping_and_pong_payloads() {
    assert_eq!(normalize(Frame::Ping(vec![7, 8])), Frame::Ping(vec![7, 8]));
    assert_eq!(normalize(Frame::Pong(vec![9])), Frame::Pong(vec![9]));
    assert_eq!(normalize(Frame::Ping(vec![])), Frame::Ping(vec![]));
}

#[test]
fn normalize_bares_close_with_metadata() {
    let sent = Frame::Close(Some(CloseInfo {
        code: 1000,
        reason: String::from("bye"),
    }));
    assert_eq!(normalize(sent), Frame::Close(None));
}

#[test]
fn normalize_keeps_bare_close_bare() {
    assert_eq!(normalize(Frame::Close(None)), Frame::Close(None));
}

#[test]
fn clone_frame_copies_payloads() {
    let f = Frame::Binary(vec![1, 2, 3]);
    assert_eq!(clone_frame(&f), f);
    let c = Frame::Close(Some(CloseInfo {
        code: 1001,
        reason: String::from("going away"),
    }));
    assert_eq!(clone_frame(&c), c);
}

#[test]
fn next_step_forwards_normalized_frames() {
    match next_step(ReadEvent::Received(text("x"))) {
        Step::Forward(f) => assert_eq!(f, text("x")),
        Step::Stop(_) => panic!("a received frame must be forwarded"),
    }
    match next_step(ReadEvent::Received(Frame::Close(Some(CloseInfo {
        code: 1000,
        reason: String::from("bye"),
    })))) {
        Step::Forward(f) => assert_eq!(f, Frame::Close(None)),
        Step::Stop(_) => panic!("a received close must still be forwarded"),
    }
}

#[test]
fn next_step_stops_on_end_and_failure() {
    assert!(matches!(
        next_step(ReadEvent::EndOfStream),
        Step::Stop(ExitCause::EndOfStream)
    ));
    assert!(matches!(
        next_step(ReadEvent::Failed),
        Step::Stop(ExitCause::ReadFailed)
    ));
}

#[test]
fn after_write_stops_only_on_failure() {
    assert_eq!(after_write(true), None);
    assert_eq!(after_write(false), Some(ExitCause::WriteFailed));
}

#[test]
fn pump_delivers_in_order_and_keeps_running() {
    let events = vec![
        ReadEvent::Received(text("one")),
        ReadEvent::Received(Frame::Binary(vec![1, 2])),
        ReadEvent::Received(Frame::Ping(vec![3])),
        ReadEvent::Received(Frame::Pong(vec![4])),
    ];
    let writes = vec![true, true, true, true];
    let (delivered, stopped) = pump(&events, &writes);
    assert_eq!(
        delivered,
        vec![
            text("one"),
            Frame::Binary(vec![1, 2]),
            Frame::Ping(vec![3]),
            Frame::Pong(vec![4]),
        ]
    );
    assert_eq!(stopped, None);
}

#[test]
fn pump_delivers_close_bare() {
    let events = vec![
        ReadEvent::Received(text("last words")),
        ReadEvent::Received(Frame::Close(Some(CloseInfo {
            code: 1000,
            reason: String::from("bye"),
        }))),
    ];
    let writes = vec![true, true];
    let (delivered, stopped) = pump(&events, &writes);
    assert_eq!(delivered, vec![text("last words"), Frame::Close(None)]);
    assert_eq!(stopped, None);
}

#[test]
fn pump_stops_at_read_failure_keeping_earlier_frames() {
    let events = vec![
        ReadEvent::Received(text("a")),
        ReadEvent::Received(text("b")),
        ReadEvent::Failed,
        ReadEvent::Received(text("never")),
    ];
    let writes = vec![true, true, true, true];
    let (delivered, stopped) = pump(&events, &writes);
    assert_eq!(delivered, vec![text("a"), text("b")]);
    assert_eq!(stopped, Some(ExitCause::ReadFailed));
}

#[test]
fn pump_stops_cleanly_at_end_of_stream() {
    let events = vec![ReadEvent::Received(text("a")), ReadEvent::EndOfStream];
    let writes = vec![true, true];
    let (delivered, stopped) = pump(&events, &writes);
    assert_eq!(delivered, vec![text("a")]);
    assert_eq!(stopped, Some(ExitCause::EndOfStream));
}

#[test]
fn pump_stops_at_write_failure() {
    let events = vec![
        ReadEvent::Received(text("sent")),
        ReadEvent::Received(text("rejected")),
        ReadEvent::Received(text("never")),
    ];
    let writes = vec![true, false, true];
    let (delivered, stopped) = pump(&events, &writes);
    assert_eq!(delivered, vec![text("sent")]);
    assert_eq!(stopped, Some(ExitCause::WriteFailed));
}

#[test]
fn pump_on_empty_trace_is_still_running() {
    let (delivered, stopped) = pump(&Vec::new(), &Vec::new());
    assert_eq!(delivered, Vec::<Frame>::new());
    assert_eq!(stopped, None);
}
