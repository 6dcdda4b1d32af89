use rust_video_playground::bridge::{
    worker_on_pull, worker_on_send, Received, UiBridge, WorkerAction,
};
use rust_video_playground::camera::PullError;
use rust_video_playground::frame::Frame;
use rust_video_playground::pixel::PixelFormat;
use std::collections::VecDeque;

fn frame(seed: u8) -> Frame {
    Frame::new(2, 2, PixelFormat::Rgba8, 8, vec![seed; 16]).unwrap()
}

/// What a window does at one repaint: it takes from the channel until the
/// bridge has enough, and returns what it draws.
fn repaint(bridge: &mut UiBridge<u32>, channel: &mut VecDeque<u32>, open: bool) -> Option<u32> {
    if bridge.begin_repaint() {
        loop {
            let received = match channel.pop_front() {
                Some(handle) => Received::Handle(handle),
                None if open => Received::Empty,
                None => Received::Closed,
            };
            if !bridge.on_receive(received) {
                break;
            }
        }
    }
    bridge.latest().copied()
}

#[test]
fn gui_latest_wins() {
    let mut bridge: UiBridge<u32> = UiBridge::new();
    bridge.start_worker();
    let mut channel = VecDeque::new();
    let mut rendered = Vec::new();
    // The worker sends 100 handles while the window repaints ten times.
    for ordinal in 0..100u32 {
        channel.push_back(ordinal);
        if ordinal % 10 == 9 {
            rendered.push(repaint(&mut bridge, &mut channel, true).unwrap());
        }
    }
    assert_eq!(rendered.len(), 10);
    assert!(rendered.windows(2).all(|pair| pair[0] < pair[1]));
    assert!(*rendered.last().unwrap() >= 90);
    assert_eq!(rendered, vec![9, 19, 29, 39, 49, 59, 69, 79, 89, 99]);
    assert!(channel.is_empty());
}

#[test]
fn a_slow_window_sees_only_the_newest_handle() {
    let mut bridge: UiBridge<u32> = UiBridge::new();
    bridge.start_worker();
    let mut channel: VecDeque<u32> = (0..100).collect();
    assert_eq!(repaint(&mut bridge, &mut channel, true), Some(99));
    // Nothing new: the handle stays.
    assert_eq!(repaint(&mut bridge, &mut channel, true), Some(99));
    assert!(bridge.receiving);
}

#[test]
fn worker_dies_on_device_loss() {
    let mut bridge: UiBridge<u32> = UiBridge::new();
    bridge.start_worker();
    let mut channel = VecDeque::new();
    let mut worker_alive = true;
    let mut pulls = 0;
    let mut log = Vec::new();
    while worker_alive {
        pulls += 1;
        let outcome = if pulls == 5 { Err(PullError::IoError) } else { Ok(frame(pulls as u8)) };
        match worker_on_pull(outcome) {
            WorkerAction::Deliver(delivered) => {
                channel.push_back(delivered.plane(0)[0] as u32);
                assert!(matches!(worker_on_send(true), WorkerAction::Pull));
            }
            WorkerAction::Pull => {}
            WorkerAction::Exit { log: line } => {
                log.push(line);
                worker_alive = false;
            }
        }
    }
    assert_eq!(pulls, 5);
    assert_eq!(log, vec!["reading a packet from the device failed"]);
    // The worker is gone, so the channel is closed once it is empty. One
    // repaint takes what is left and finds the channel closed.
    assert_eq!(repaint(&mut bridge, &mut channel, false), None);
    assert_eq!(bridge.latest, None);
    assert!(!bridge.receiving);
    assert!(channel.is_empty());
}

#[test]
fn the_worker_delivers_frames_and_repeats_empty_pulls() {
    match worker_on_pull(Ok(frame(3))) {
        WorkerAction::Deliver(delivered) => assert_eq!(delivered.plane(0), &[3u8; 16][..]),
        other => panic!("expected a delivery, got {:?}", other),
    }
    assert!(matches!(worker_on_pull(Err(PullError::Again)), WorkerAction::Pull));
}

#[test]
fn every_other_error_ends_the_worker() {
    for error in [
        PullError::EndOfStream,
        PullError::IoError,
        PullError::DecodeError,
        PullError::ConversionError,
    ] {
        match worker_on_pull(Err(error)) {
            WorkerAction::Exit { log } => assert_eq!(log, error.message()),
            other => panic!("expected the end, got {:?}", other),
        }
    }
}

#[test]
fn a_closed_channel_ends_the_worker() {
    assert!(matches!(worker_on_send(true), WorkerAction::Pull));
    match worker_on_send(false) {
        WorkerAction::Exit { log } => assert_eq!(log, "the window no longer takes frames"),
        other => panic!("expected the end, got {:?}", other),
    }
}

#[test]
fn a_new_bridge_shows_nothing() {
    let mut bridge: UiBridge<u32> = UiBridge::new();
    assert_eq!(bridge.latest(), None);
    assert!(!bridge.receiving);
    assert!(!bridge.begin_repaint());
}

#[test]
fn a_handle_takes_the_place_of_the_one_before() {
    let mut bridge: UiBridge<&str> = UiBridge::new();
    bridge.start_worker();
    assert!(bridge.on_receive(Received::Handle("first")));
    assert_eq!(bridge.latest(), Some(&"first"));
    assert!(bridge.on_receive(Received::Handle("second")));
    assert_eq!(bridge.latest(), Some(&"second"));
    assert!(!bridge.on_receive(Received::Empty));
    assert_eq!(bridge.latest(), Some(&"second"));
    assert!(bridge.receiving);
}

#[test]
fn a_closed_channel_clears_the_bridge() {
    let mut bridge: UiBridge<u32> = UiBridge::new();
    bridge.start_worker();
    bridge.on_receive(Received::Handle(1));
    assert!(!bridge.on_receive(Received::Closed));
    assert_eq!(bridge.latest(), None);
    assert!(!bridge.receiving);
    // Without a channel nothing is taken.
    assert!(!bridge.on_receive(Received::Handle(2)));
    assert_eq!(bridge.latest(), None);
}

#[test]
fn a_new_worker_keeps_what_is_shown() {
    let mut bridge: UiBridge<u32> = UiBridge::new();
    bridge.start_worker();
    bridge.on_receive(Received::Handle(7));
    bridge.start_worker();
    assert!(bridge.receiving);
    assert_eq!(bridge.latest(), Some(&7));
    assert!(bridge.begin_repaint());
    assert_eq!(bridge.latest(), Some(&7));
}

#[test]
fn a_repaint_without_worker_shows_nothing() {
    let mut bridge = UiBridge { latest: Some(4u32), receiving: false };
    assert!(!bridge.begin_repaint());
    assert_eq!(bridge.latest(), None);
}
