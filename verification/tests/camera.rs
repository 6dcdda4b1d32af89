use rust_video_playground::camera::{
    CameraStream, OutputSpec, Pull, PullError, Reply, Request, StreamState,
};
use rust_video_playground::frame::RawFrame;
use rust_video_playground::open::{open_camera, OpenReply, Opening, Platform, StreamKind};
use rust_video_playground::options::OpenOptions;
use rust_video_playground::pixel::PixelFormat;

fn open_stream(format: PixelFormat, width: u32, height: u32) -> CameraStream {
    let options = OpenOptions {
        device_selector: "default".to_string(),
        framerate: 30,
        video_size: None,
        pixel_format: format,
    };
    let mut opener = open_camera(options, Platform::MacOs);
    assert!(matches!(opener.begin(), Opening::Need(_)));
    let backends = vec!["avfoundation".to_string()];
    assert!(matches!(opener.resume(OpenReply::Backends(backends)), Opening::Need(_)));
    assert!(matches!(opener.resume(OpenReply::DeviceOpened), Opening::Need(_)));
    let kinds = vec![StreamKind::Video];
    assert!(matches!(opener.resume(OpenReply::Streams(kinds)), Opening::Need(_)));
    assert!(matches!(opener.resume(OpenReply::DecoderBuilt { width, height }), Opening::Need(_)));
    match opener.resume(OpenReply::ConverterBuilt) {
        Opening::Ready(stream) => stream,
        other => panic!("the camera did not open: {:?}", other),
    }
}

fn raw(format: &str, width: u32, height: u32, bytes_per_pixel: usize) -> RawFrame {
    let stride = width as usize * bytes_per_pixel;
    let data: Vec<u8> = (0..stride * height as usize).map(|i| (i % 251) as u8).collect();
    RawFrame { width, height, format: format.to_string(), stride, data }
}

fn need(pull: Pull) -> Request {
    match pull {
        Pull::Need(request) => request,
        other => panic!("expected a request, got {:?}", other),
    }
}

fn failure(pull: Pull) -> PullError {
    match pull {
        Pull::Done(Err(error)) => error,
        other => panic!("expected an error, got {:?}", other),
    }
}

/// Runs one pull on a device that has a packet and a decoder that has a
/// frame, and hands the converter's output over.
fn pull_with(stream: &mut CameraStream, converted: RawFrame) -> Pull {
    assert_eq!(need(stream.pull_frame()), Request::ReadPacket);
    assert_eq!(need(stream.resume(Reply::Packet { stream: 0 })), Request::SendPacket);
    assert_eq!(need(stream.resume(Reply::Sent)), Request::ReceiveFrame);
    let output = stream.output();
    assert_eq!(need(stream.resume(Reply::Decoded)), Request::Convert { output });
    stream.resume(Reply::Converted(converted))
}

#[test]
fn a_pull_delivers_one_frame_of_the_negotiated_output() {
    let mut stream = open_stream(PixelFormat::Rgb24, 4, 3);
    assert_eq!(
        stream.output(),
        OutputSpec { format: PixelFormat::Rgb24, width: 4, height: 3 }
    );
    match pull_with(&mut stream, raw("rgb24", 4, 3, 3)) {
        Pull::Done(Ok(frame)) => {
            assert_eq!(frame.width(), 4);
            assert_eq!(frame.height(), 3);
            assert_eq!(frame.pixel_format(), PixelFormat::Rgb24);
            assert_eq!(frame.plane(0).len(), 4 * 3 * 3);
            assert_eq!(frame.plane(0)[5], 5);
        }
        other => panic!("expected a frame, got {:?}", other),
    }
    assert_eq!(stream.state(), StreamState::Open);
    assert_eq!(stream.frames_delivered(), 1);
}

#[test]
fn a_padded_plane_is_at_least_as_long_as_its_pixels() {
    let mut stream = open_stream(PixelFormat::Rgb24, 5, 2);
    let converted = RawFrame {
        width: 5,
        height: 2,
        format: "rgb24".to_string(),
        stride: 32,
        data: vec![7; 64],
    };
    match pull_with(&mut stream, converted) {
        Pull::Done(Ok(frame)) => {
            assert_eq!(frame.stride(0), 32);
            assert_eq!(frame.plane(0).len(), 64);
            assert!(frame.plane(0).len() >= 5 * 2 * 3);
            assert!(!frame.is_packed());
        }
        other => panic!("expected a frame, got {:?}", other),
    }
}

#[test]
fn format_honoured() {
    let mut stream = open_stream(PixelFormat::Rgba8, 6, 4);
    for _ in 0..3 {
        match pull_with(&mut stream, raw("rgba", 6, 4, 4)) {
            Pull::Done(Ok(frame)) => {
                assert_eq!(frame.pixel_format(), PixelFormat::Rgba8);
                assert_eq!(frame.plane(0).len(), 4 * 6 * 4);
            }
            other => panic!("expected a frame, got {:?}", other),
        }
    }
}

#[test]
fn frames_are_counted_in_the_order_of_delivery() {
    let mut stream = open_stream(PixelFormat::Bgr0, 2, 2);
    let mut ordinals = Vec::new();
    for _ in 0..4 {
        let ordinal = stream.frames_delivered();
        assert!(matches!(pull_with(&mut stream, raw("bgr0", 2, 2, 4)), Pull::Done(Ok(_))));
        ordinals.push(ordinal);
        // A pull without a frame does not count.
        assert_eq!(need(stream.pull_frame()), Request::ReadPacket);
        assert_eq!(need(stream.resume(Reply::Packet { stream: 0 })), Request::SendPacket);
        assert_eq!(need(stream.resume(Reply::Sent)), Request::ReceiveFrame);
        assert_eq!(failure(stream.resume(Reply::NotReady)), PullError::Again);
    }
    assert_eq!(ordinals, vec![0, 1, 2, 3]);
    assert_eq!(stream.frames_delivered(), 4);
}

#[test]
fn a_decoder_that_is_not_ready_asks_for_another_pull() {
    let mut stream = open_stream(PixelFormat::Rgb24, 2, 2);
    assert_eq!(need(stream.pull_frame()), Request::ReadPacket);
    assert_eq!(need(stream.resume(Reply::Packet { stream: 0 })), Request::SendPacket);
    assert_eq!(need(stream.resume(Reply::Sent)), Request::ReceiveFrame);
    assert_eq!(failure(stream.resume(Reply::NotReady)), PullError::Again);
    assert_eq!(stream.state(), StreamState::Open);
    assert_eq!(need(stream.pull_frame()), Request::ReadPacket);
}

#[test]
fn zero_packet_input_closes_the_stream_after_one_eof() {
    let mut stream = open_stream(PixelFormat::Rgb24, 2, 2);
    assert_eq!(stream.state(), StreamState::Open);
    assert_eq!(need(stream.pull_frame()), Request::ReadPacket);
    assert_eq!(need(stream.resume(Reply::NoMorePackets)), Request::SendEof);
    assert_eq!(stream.state(), StreamState::Draining);
    assert_eq!(need(stream.resume(Reply::Sent)), Request::ReceiveFrame);
    assert_eq!(failure(stream.resume(Reply::Drained)), PullError::EndOfStream);
    assert_eq!(stream.state(), StreamState::Closed);
    assert_eq!(failure(stream.pull_frame()), PullError::EndOfStream);
    assert_eq!(stream.frames_delivered(), 0);
}

#[test]
fn a_draining_stream_hands_out_what_the_decoder_still_holds() {
    let mut stream = open_stream(PixelFormat::Rgb24, 2, 1);
    assert_eq!(need(stream.pull_frame()), Request::ReadPacket);
    assert_eq!(need(stream.resume(Reply::NoMorePackets)), Request::SendEof);
    assert_eq!(need(stream.resume(Reply::Sent)), Request::ReceiveFrame);
    let output = stream.output();
    assert_eq!(need(stream.resume(Reply::Decoded)), Request::Convert { output });
    assert!(matches!(
        stream.resume(Reply::Converted(raw("rgb24", 2, 1, 3))),
        Pull::Done(Ok(_))
    ));
    assert_eq!(stream.state(), StreamState::Draining);
    // No packet is read and no second end-of-input mark is sent.
    assert_eq!(need(stream.pull_frame()), Request::ReceiveFrame);
    assert_eq!(failure(stream.resume(Reply::Drained)), PullError::EndOfStream);
    assert_eq!(stream.state(), StreamState::Closed);
}

#[test]
fn end_of_stream_is_terminal() {
    let mut stream = open_stream(PixelFormat::Rgb24, 2, 2);
    stream.pull_frame();
    stream.resume(Reply::NoMorePackets);
    stream.resume(Reply::Sent);
    assert_eq!(failure(stream.resume(Reply::Drained)), PullError::EndOfStream);
    for _ in 0..5 {
        assert_eq!(failure(stream.pull_frame()), PullError::EndOfStream);
        assert_eq!(failure(stream.resume(Reply::Packet { stream: 0 })), PullError::EndOfStream);
        assert_eq!(
            failure(stream.resume(Reply::Converted(raw("rgb24", 2, 2, 3)))),
            PullError::EndOfStream
        );
        assert_eq!(stream.state(), StreamState::Closed);
    }
}

#[test]
fn a_failed_read_is_an_io_error() {
    let mut stream = open_stream(PixelFormat::Rgb24, 2, 2);
    assert_eq!(need(stream.pull_frame()), Request::ReadPacket);
    assert_eq!(failure(stream.resume(Reply::ReadFailed)), PullError::IoError);
    assert_eq!(stream.state(), StreamState::Open);
}

#[test]
fn a_refused_packet_is_a_decode_error() {
    let mut stream = open_stream(PixelFormat::Rgb24, 2, 2);
    stream.pull_frame();
    assert_eq!(need(stream.resume(Reply::Packet { stream: 0 })), Request::SendPacket);
    assert_eq!(failure(stream.resume(Reply::SendFailed)), PullError::DecodeError);
}

#[test]
fn a_refused_end_mark_is_a_decode_error() {
    let mut stream = open_stream(PixelFormat::Rgb24, 2, 2);
    stream.pull_frame();
    assert_eq!(need(stream.resume(Reply::NoMorePackets)), Request::SendEof);
    assert_eq!(failure(stream.resume(Reply::SendFailed)), PullError::DecodeError);
    assert_eq!(stream.state(), StreamState::Draining);
}

#[test]
fn a_failing_decoder_is_a_decode_error() {
    let mut stream = open_stream(PixelFormat::Rgb24, 2, 2);
    stream.pull_frame();
    stream.resume(Reply::Packet { stream: 0 });
    assert_eq!(need(stream.resume(Reply::Sent)), Request::ReceiveFrame);
    assert_eq!(failure(stream.resume(Reply::ReceiveFailed)), PullError::DecodeError);
}

#[test]
fn a_decoder_that_ends_before_the_input_is_a_decode_error() {
    let mut stream = open_stream(PixelFormat::Rgb24, 2, 2);
    stream.pull_frame();
    stream.resume(Reply::Packet { stream: 0 });
    stream.resume(Reply::Sent);
    assert_eq!(failure(stream.resume(Reply::Drained)), PullError::DecodeError);
    assert_eq!(stream.state(), StreamState::Open);
}

#[test]
fn a_failing_converter_is_a_conversion_error() {
    let mut stream = open_stream(PixelFormat::Rgb24, 2, 2);
    stream.pull_frame();
    stream.resume(Reply::Packet { stream: 0 });
    stream.resume(Reply::Sent);
    stream.resume(Reply::Decoded);
    assert_eq!(failure(stream.resume(Reply::ConvertFailed)), PullError::ConversionError);
    assert_eq!(stream.frames_delivered(), 0);
}

#[test]
fn a_frame_of_another_output_is_a_conversion_error() {
    let mut stream = open_stream(PixelFormat::Rgb24, 4, 3);
    let wrong_width = raw("rgb24", 5, 3, 3);
    assert_eq!(failure(pull_with(&mut stream, wrong_width)), PullError::ConversionError);
    let wrong_height = raw("rgb24", 4, 2, 3);
    assert_eq!(failure(pull_with(&mut stream, wrong_height)), PullError::ConversionError);
    let wrong_format = raw("rgba", 4, 3, 4);
    assert_eq!(failure(pull_with(&mut stream, wrong_format)), PullError::ConversionError);
    let unknown_format = raw("yuv420p", 4, 3, 3);
    assert_eq!(failure(pull_with(&mut stream, unknown_format)), PullError::ConversionError);
    let mut short = raw("rgb24", 4, 3, 3);
    short.data.pop();
    assert_eq!(failure(pull_with(&mut stream, short)), PullError::ConversionError);
    let mut narrow = raw("rgb24", 4, 3, 3);
    narrow.stride = 11;
    narrow.data.truncate(33);
    assert_eq!(failure(pull_with(&mut stream, narrow)), PullError::ConversionError);
    assert_eq!(stream.frames_delivered(), 0);
    assert!(matches!(pull_with(&mut stream, raw("rgb24", 4, 3, 3)), Pull::Done(Ok(_))));
}

#[test]
fn an_answer_to_another_request_counts_as_a_failure() {
    let mut stream = open_stream(PixelFormat::Rgb24, 2, 2);
    assert_eq!(need(stream.pull_frame()), Request::ReadPacket);
    assert_eq!(failure(stream.resume(Reply::Decoded)), PullError::IoError);
    stream.pull_frame();
    stream.resume(Reply::Packet { stream: 0 });
    assert_eq!(failure(stream.resume(Reply::Packet { stream: 0 })), PullError::DecodeError);
    stream.pull_frame();
    stream.resume(Reply::Packet { stream: 0 });
    stream.resume(Reply::Sent);
    assert_eq!(failure(stream.resume(Reply::Sent)), PullError::DecodeError);
    stream.pull_frame();
    stream.resume(Reply::Packet { stream: 0 });
    stream.resume(Reply::Sent);
    stream.resume(Reply::Decoded);
    assert_eq!(failure(stream.resume(Reply::Decoded)), PullError::ConversionError);
}

#[test]
fn an_answer_without_a_request_starts_a_pull() {
    let mut stream = open_stream(PixelFormat::Rgb24, 2, 2);
    assert_eq!(need(stream.resume(Reply::Sent)), Request::ReadPacket);
    assert_eq!(need(stream.resume(Reply::Packet { stream: 0 })), Request::SendPacket);
}

#[test]
fn a_new_pull_gives_up_the_one_under_way() {
    let mut stream = open_stream(PixelFormat::Rgb24, 2, 2);
    stream.pull_frame();
    assert_eq!(need(stream.resume(Reply::Packet { stream: 0 })), Request::SendPacket);
    assert_eq!(need(stream.pull_frame()), Request::ReadPacket);
}

#[test]
fn messages_are_single_lines() {
    let errors = [
        PullError::Again,
        PullError::EndOfStream,
        PullError::IoError,
        PullError::DecodeError,
        PullError::ConversionError,
    ];
    for error in errors {
        assert!(!error.message().is_empty());
        assert!(!error.message().contains('\n'));
        assert_eq!(error.is_terminal(), error != PullError::Again);
    }
    assert_eq!(PullError::IoError.message(), "reading a packet from the device failed");
}

#[test]
fn only_packets_of_the_video_stream_are_decoded() {
    let options = OpenOptions {
        device_selector: "default".to_string(),
        framerate: 30,
        video_size: None,
        pixel_format: PixelFormat::Rgb24,
    };
    let mut opener = open_camera(options, Platform::MacOs);
    opener.begin();
    opener.resume(OpenReply::Backends(vec!["avfoundation".to_string()]));
    opener.resume(OpenReply::DeviceOpened);
    opener.resume(OpenReply::Streams(vec![StreamKind::Audio, StreamKind::Video]));
    opener.resume(OpenReply::DecoderBuilt { width: 2, height: 2 });
    let mut stream = match opener.resume(OpenReply::ConverterBuilt) {
        Opening::Ready(stream) => stream,
        other => panic!("the camera did not open: {:?}", other),
    };
    assert_eq!(stream.video_stream(), 1);
    assert_eq!(need(stream.pull_frame()), Request::ReadPacket);
    assert_eq!(need(stream.resume(Reply::Packet { stream: 0 })), Request::ReadPacket);
    assert_eq!(need(stream.resume(Reply::Packet { stream: 2 })), Request::ReadPacket);
    assert_eq!(need(stream.resume(Reply::Packet { stream: 1 })), Request::SendPacket);
    assert_eq!(need(stream.resume(Reply::Sent)), Request::ReceiveFrame);
    assert_eq!(failure(stream.resume(Reply::NotReady)), PullError::Again);
    // The end of the packets is noticed behind packets of other streams too.
    assert_eq!(need(stream.pull_frame()), Request::ReadPacket);
    assert_eq!(need(stream.resume(Reply::Packet { stream: 0 })), Request::ReadPacket);
    assert_eq!(need(stream.resume(Reply::NoMorePackets)), Request::SendEof);
    assert_eq!(stream.state(), StreamState::Draining);
}
