use rust_video_playground::frame::{Frame, RawFrame};
use rust_video_playground::pixel::PixelFormat;
use rust_video_playground::text::same_text;

const FORMATS: [PixelFormat; 4] =
    [PixelFormat::Rgb24, PixelFormat::Rgba8, PixelFormat::Bgr0, PixelFormat::Zrgb];

#[test]
fn a_frame_keeps_its_parts() {
    let data: Vec<u8> = (0..24).collect();
    let frame = Frame::new(3, 2, PixelFormat::Rgba8, 12, data.clone()).unwrap();
    assert_eq!(frame.width(), 3);
    assert_eq!(frame.height(), 2);
    assert_eq!(frame.pixel_format(), PixelFormat::Rgba8);
    assert_eq!(frame.planes(), 1);
    assert_eq!(frame.stride(0), 12);
    assert_eq!(frame.plane(0), &data[..]);
    assert!(frame.is_packed());
}

#[test]
fn a_padded_frame_is_a_frame() {
    let frame = Frame::new(3, 2, PixelFormat::Rgb24, 16, vec![0; 32]).unwrap();
    assert_eq!(frame.stride(0), 16);
    assert_eq!(frame.plane(0).len(), 32);
    assert!(!frame.is_packed());
}

#[test]
fn an_empty_picture_is_no_frame() {
    assert!(Frame::new(0, 2, PixelFormat::Rgb24, 6, vec![0; 12]).is_none());
    assert!(Frame::new(2, 0, PixelFormat::Rgb24, 6, Vec::new()).is_none());
    assert!(Frame::new(0, 0, PixelFormat::Rgb24, 0, Vec::new()).is_none());
}

#[test]
fn a_row_must_hold_its_pixels() {
    assert!(Frame::new(2, 2, PixelFormat::Rgb24, 5, vec![0; 10]).is_none());
    assert!(Frame::new(2, 2, PixelFormat::Rgb24, 6, vec![0; 12]).is_some());
    assert!(Frame::new(2, 2, PixelFormat::Rgba8, 7, vec![0; 14]).is_none());
    assert!(Frame::new(2, 2, PixelFormat::Bgr0, 8, vec![0; 16]).is_some());
    assert!(Frame::new(2, 2, PixelFormat::Zrgb, 6, vec![0; 12]).is_none());
}

#[test]
fn the_plane_must_hold_all_rows() {
    assert!(Frame::new(2, 2, PixelFormat::Rgb24, 6, vec![0; 11]).is_none());
    assert!(Frame::new(2, 2, PixelFormat::Rgb24, 6, vec![0; 13]).is_none());
    assert!(Frame::new(2, 2, PixelFormat::Rgb24, 8, vec![0; 12]).is_none());
    assert!(Frame::new(1, 4294967295, PixelFormat::Rgb24, usize::MAX, vec![0; 8]).is_none());
}

#[test]
fn the_plane_has_room_for_every_pixel() {
    for format in FORMATS {
        for (width, height, padding) in [(1u32, 1u32, 0usize), (7, 3, 0), (7, 3, 11), (16, 9, 32)] {
            let stride = width as usize * format.bytes_per_pixel() + padding;
            let data = vec![0; stride * height as usize];
            let frame = Frame::new(width, height, format, stride, data).unwrap();
            let pixels = (width * height) as usize * format.bytes_per_pixel();
            assert!(frame.plane(0).len() >= pixels);
            assert_eq!(frame.is_packed(), padding == 0);
            if frame.is_packed() {
                assert_eq!(frame.plane(0).len(), pixels);
            }
        }
    }
}

#[test]
fn a_raw_frame_is_checked() {
    let raw = RawFrame {
        width: 2,
        height: 1,
        format: "bgr0".to_string(),
        stride: 8,
        data: vec![9; 8],
    };
    let frame = Frame::from_raw(raw).unwrap();
    assert_eq!(frame.pixel_format(), PixelFormat::Bgr0);
    assert_eq!((frame.width(), frame.height()), (2, 1));
    let unknown = RawFrame {
        width: 2,
        height: 1,
        format: "yuv420p".to_string(),
        stride: 8,
        data: vec![9; 8],
    };
    assert!(Frame::from_raw(unknown).is_none());
    let short = RawFrame {
        width: 2,
        height: 1,
        format: "rgba".to_string(),
        stride: 8,
        data: vec![9; 7],
    };
    assert!(Frame::from_raw(short).is_none());
}

#[test]
fn formats_have_sizes_and_names() {
    assert_eq!(PixelFormat::Rgb24.bytes_per_pixel(), 3);
    assert_eq!(PixelFormat::Rgba8.bytes_per_pixel(), 4);
    assert_eq!(PixelFormat::Bgr0.bytes_per_pixel(), 4);
    assert_eq!(PixelFormat::Zrgb.bytes_per_pixel(), 4);
    assert_eq!(PixelFormat::Rgb24.name(), "rgb24");
    assert_eq!(PixelFormat::Rgba8.name(), "rgba");
    assert_eq!(PixelFormat::Bgr0.name(), "bgr0");
    assert_eq!(PixelFormat::Zrgb.name(), "0rgb");
    for format in FORMATS {
        assert_eq!(format.planes(), 1);
        assert_eq!(PixelFormat::from_name(format.name()), Some(format));
    }
    assert_eq!(PixelFormat::from_name(""), None);
    assert_eq!(PixelFormat::from_name("RGB24"), None);
    assert_eq!(PixelFormat::from_name("rgb24 "), None);
    assert_eq!(PixelFormat::from_name("rgb"), None);
}

#[test]
fn texts_are_compared_by_their_characters() {
    assert!(same_text("", ""));
    assert!(same_text("avfoundation", "avfoundation"));
    assert!(!same_text("avfoundation", "avfoundatio"));
    assert!(!same_text("a", "b"));
    assert!(!same_text("é", "e"));
}

#[test]
fn packing_drops_the_padding() {
    let data = vec![1, 2, 3, 4, 5, 6, 0, 0, 7, 8, 9, 10, 11, 12, 0, 0];
    let padded = Frame::new(2, 2, PixelFormat::Rgb24, 8, data).unwrap();
    let packed = padded.to_packed();
    assert_eq!(packed.width(), 2);
    assert_eq!(packed.height(), 2);
    assert_eq!(packed.pixel_format(), PixelFormat::Rgb24);
    assert_eq!(packed.stride(0), 6);
    assert!(packed.is_packed());
    assert_eq!(packed.plane(0), &[1u8, 2, 3, 4, 5, 6, 7, 8, 9, 10, 11, 12][..]);
    assert_eq!(packed.plane(0).len(), 3 * 2 * 2);
}

#[test]
fn packing_a_packed_frame_changes_nothing() {
    let data: Vec<u8> = (0..32).collect();
    let frame = Frame::new(4, 2, PixelFormat::Bgr0, 16, data.clone()).unwrap();
    let packed = frame.to_packed();
    assert_eq!(packed.stride(0), 16);
    assert_eq!(packed.plane(0), &data[..]);
}

#[test]
fn a_converter_that_keeps_the_size_gives_pixels_times_bytes() {
    // The same picture in each format: the byte count follows the format.
    for format in FORMATS {
        let bytes = format.bytes_per_pixel();
        for padding in [0usize, 5, 32] {
            let stride = 6 * bytes + padding;
            let frame = Frame::new(6, 4, format, stride, vec![0; stride * 4]).unwrap();
            assert_eq!(frame.to_packed().plane(0).len(), bytes * 6 * 4);
        }
    }
}
