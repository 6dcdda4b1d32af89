//! Portable pixmaps in the raw (`P6`) form with a maximum value of 255.
//!
//! A file is the header `P6\n<width> <height>\n255\n`, both numbers in
//! decimal notation, followed by the bytes of the picture.

use vstd::prelude::*;
use vstd::slice::{slice_subrange, slice_to_vec};
use crate::decimal::{
    canonical, decimal, digits_end, is_digit, lemma_decimal_canonical, lemma_decimal_of_value,
    lemma_digits_end, lemma_digits_end_at, lemma_value_of_decimal, push_decimal, read,
    read_decimal, value,
};
use crate::frame::{Frame, FrameView};
use crate::pixel::PixelFormat;

verus! {

/// The bytes `P6\n`.
pub open spec fn magic() -> Seq<u8> {
    seq![80u8, 54u8, 10u8]
}

/// The bytes `\n255\n`, which end the header.
pub open spec fn max_value_line() -> Seq<u8> {
    seq![10u8, 50u8, 53u8, 53u8, 10u8]
}

/// The header of a picture of the given size.
pub open spec fn ppm_header(width: nat, height: nat) -> Seq<u8> {
    magic() + decimal(width) + seq![32u8] + decimal(height) + max_value_line()
}

/// The file of a picture: its header, then its bytes as they are.
pub open spec fn ppm_file(width: nat, height: nat, data: Seq<u8>) -> Seq<u8> {
    ppm_header(width, height) + data
}

/// The file that a frame is written as.
pub open spec fn frame_file(frame: FrameView) -> Seq<u8> {
    ppm_file(frame.width, frame.height, frame.data)
}

/// A picture read from a file.
#[derive(Debug)]
pub struct PpmImage {
    pub width: u32,
    pub height: u32,
    /// Everything that follows the header.
    pub data: Vec<u8>,
}

/// What a picture read from a file holds.
pub struct PpmImageView {
    pub width: nat,
    pub height: nat,
    pub data: Seq<u8>,
}

impl View for PpmImage {
    type V = PpmImageView;

    open spec fn view(&self) -> PpmImageView {
        PpmImageView { width: self.width as nat, height: self.height as nat, data: self.data@ }
    }
}

/// Whether `bytes` is the file of `image`: the header of a picture whose
/// width and height are positive and fit in 32 bits, followed by at least
/// three bytes for each pixel.
pub open spec fn is_ppm(bytes: Seq<u8>, image: PpmImageView) -> bool {
    &&& bytes == ppm_file(image.width, image.height, image.data)
    &&& 0 < image.width <= u32::MAX
    &&& 0 < image.height <= u32::MAX
    &&& image.data.len() >= 3 * image.width * image.height
}

/// Reading a file from left to right: the magic bytes, the width, a space,
/// the height and the line of the maximum value; the rest is the picture.
spec fn scan(bytes: Seq<u8>) -> Option<PpmImageView> {
    if bytes.len() >= 3 && bytes.subrange(0, 3) == magic() {
        match read(bytes, 3) {
            Some((width, e1)) => if e1 < bytes.len() && bytes[e1] == 32 {
                match read(bytes, e1 + 1) {
                    Some((height, e2)) => {
                        let data = bytes.subrange(e2 + 5, bytes.len() as int);
                        if e2 + 5 <= bytes.len() && bytes.subrange(e2, e2 + 5) == max_value_line()
                            && 0 < width <= u32::MAX && 0 < height <= u32::MAX && data.len() >= 3
                            * width * height {
                            Some(PpmImageView { width, height, data })
                        } else {
                            None
                        }
                    },
                    None => None,
                }
            } else {
                None
            },
            None => None,
        }
    } else {
        None
    }
}

/// What the scan accepts is the file of the picture it returns.
proof fn lemma_scan_sound(bytes: Seq<u8>)
    ensures
        scan(bytes) matches Some(image) ==> is_ppm(bytes, image),
{
    if let Some(image) = scan(bytes) {
        let (width, e1) = read(bytes, 3).unwrap();
        let (height, e2) = read(bytes, e1 + 1).unwrap();
        lemma_digits_end(bytes, 3);
        lemma_digits_end(bytes, e1 + 1);
        lemma_decimal_of_value(bytes.subrange(3, e1));
        lemma_decimal_of_value(bytes.subrange(e1 + 1, e2));
        assert(bytes =~= ppm_file(image.width, image.height, image.data));
    }
}

/// Where the parts of a file lie.
proof fn lemma_file_layout(image: PpmImageView)
    ensures
        ({
            let bytes = ppm_file(image.width, image.height, image.data);
            let e1: int = 3 + decimal(image.width).len() as int;
            let e2: int = e1 + 1 + decimal(image.height).len();
            &&& bytes.len() == e2 + 5 + image.data.len()
            &&& bytes.subrange(0, 3) == magic()
            &&& bytes.subrange(3, e1) == decimal(image.width)
            &&& bytes[e1] == 32
            &&& bytes.subrange(e1 + 1, e2) == decimal(image.height)
            &&& bytes.subrange(e2, e2 + 5) == max_value_line()
            &&& bytes.subrange(e2 + 5, bytes.len() as int) == image.data
        }),
{
    let bytes = ppm_file(image.width, image.height, image.data);
    let e1: int = 3 + decimal(image.width).len() as int;
    let e2: int = e1 + 1 + decimal(image.height).len();
    assert(bytes.subrange(0, 3) =~= magic());
    assert(bytes.subrange(3, e1) =~= decimal(image.width));
    assert(bytes.subrange(e1 + 1, e2) =~= decimal(image.height));
    assert(bytes.subrange(e2, e2 + 5) =~= max_value_line());
    assert(bytes.subrange(e2 + 5, bytes.len() as int) =~= image.data);
}

/// The scan accepts every file, and returns the picture it is the file of.
proof fn lemma_scan_complete(bytes: Seq<u8>, image: PpmImageView)
    requires
        is_ppm(bytes, image),
    ensures
        scan(bytes) == Some(image),
{
    let e1: int = 3 + decimal(image.width).len() as int;
    let e2: int = e1 + 1 + decimal(image.height).len();
    lemma_file_layout(image);
    lemma_decimal_canonical(image.width);
    lemma_decimal_canonical(image.height);
    lemma_value_of_decimal(image.width);
    lemma_value_of_decimal(image.height);
    assert forall|i: int| 3 <= i < e1 implies is_digit(#[trigger] bytes[i]) by {
        assert(bytes[i] == bytes.subrange(3, e1)[i - 3]);
    }
    lemma_digits_end_at(bytes, 3, e1);
    assert(read(bytes, 3) == Some((image.width, e1)));
    assert forall|i: int| e1 + 1 <= i < e2 implies is_digit(#[trigger] bytes[i]) by {
        assert(bytes[i] == bytes.subrange(e1 + 1, e2)[i - (e1 + 1)]);
    }
    assert(bytes[e2] == bytes.subrange(e2, e2 + 5)[0]);
    lemma_digits_end_at(bytes, e1 + 1, e2);
    assert(read(bytes, e1 + 1) == Some((image.height, e2)));
}

/// A sequence of bytes is the file of at most one picture.
pub proof fn lemma_ppm_unique(bytes: Seq<u8>, a: PpmImageView, b: PpmImageView)
    requires
        is_ppm(bytes, a),
        is_ppm(bytes, b),
    ensures
        a == b,
{
    lemma_scan_complete(bytes, a);
    lemma_scan_complete(bytes, b);
}

/// Writing a frame and reading the file back gives the frame's width and
/// height and the bytes of its plane: the file of a frame is the file of
/// exactly that picture.
pub proof fn lemma_ppm_round_trip(frame: FrameView)
    requires
        frame.wf(),
        frame.format == PixelFormat::Rgb24,
    ensures
        is_ppm(
            frame_file(frame),
            PpmImageView { width: frame.width, height: frame.height, data: frame.data },
        ),
        forall|image: PpmImageView| #[trigger]
            is_ppm(frame_file(frame), image) ==> image.width == frame.width && image.height
                == frame.height && image.data == frame.data,
{
    let written = PpmImageView { width: frame.width, height: frame.height, data: frame.data };
    crate::frame::lemma_plane_holds_all_pixels(frame);
    assert(3 * frame.width * frame.height == frame.width * frame.height * 3) by (nonlinear_arith);
    assert forall|image: PpmImageView| #[trigger] is_ppm(frame_file(frame), image) implies image
        == written by {
        lemma_ppm_unique(frame_file(frame), image, written);
    }
}

/// Appends the header of a picture of the given size to `out`.
pub fn write_ppm_header(out: &mut Vec<u8>, width: u32, height: u32)
    ensures
        final(out)@ == old(out)@ + ppm_header(width as nat, height as nat),
{
    out.push(80);
    out.push(54);
    out.push(10);
    push_decimal(out, width as u64);
    out.push(32);
    push_decimal(out, height as u64);
    out.push(10);
    out.push(50);
    out.push(53);
    out.push(53);
    out.push(10);
    assert(out@ =~= old(out)@ + ppm_header(width as nat, height as nat));
}

/// Appends the file of an `Rgb24` frame to `out`: the header, then the
/// bytes of plane 0 as they are. Rows are not repacked, so the picture is
/// the frame's only if the frame is packed.
pub fn write_video_frame_as_ppm(out: &mut Vec<u8>, frame: &Frame)
    requires
        frame@.format == PixelFormat::Rgb24,
    ensures
        final(out)@ == old(out)@ + frame_file(frame@),
{
    write_ppm_header(out, frame.width(), frame.height());
    out.extend_from_slice(frame.plane(0));
    assert(out@ =~= old(out)@ + frame_file(frame@));
}

/// Reads a file back. `None` exactly when the bytes are the file of no
/// picture.
pub fn parse_ppm(bytes: &[u8]) -> (image: Option<PpmImage>)
    ensures
        match image {
            Some(found) => is_ppm(bytes@, found@),
            None => forall|other: PpmImageView| !is_ppm(bytes@, other),
        },
{
    let found = scan_bytes(bytes);
    proof {
        lemma_scan_sound(bytes@);
        if found.is_none() {
            assert forall|other: PpmImageView| !is_ppm(bytes@, other) by {
                if is_ppm(bytes@, other) {
                    lemma_scan_complete(bytes@, other);
                }
            }
        }
    }
    found
}

fn scan_bytes(bytes: &[u8]) -> (image: Option<PpmImage>)
    ensures
        match image {
            Some(found) => scan(bytes@) == Some(found@),
            None => scan(bytes@).is_none(),
        },
{
    let len = bytes.len();
    if len < 3 || bytes[0] != 80 || bytes[1] != 54 || bytes[2] != 10 {
        assert(len >= 3 ==> bytes@.subrange(0, 3)[0] == bytes@[0] && bytes@.subrange(0, 3)[1]
            == bytes@[1] && bytes@.subrange(0, 3)[2] == bytes@[2]);
        return None;
    }
    assert(bytes@.subrange(0, 3) =~= magic());
    let (width, e1) = match read_decimal(bytes, 3) {
        Some(found) => found,
        None => {
            return None;
        },
    };
    if e1 >= len || bytes[e1] != 32 {
        return None;
    }
    let (height, e2) = match read_decimal(bytes, e1 + 1) {
        Some(found) => found,
        None => {
            return None;
        },
    };
    if len - e2 < 5 || bytes[e2] != 10 || bytes[e2 + 1] != 50 || bytes[e2 + 2] != 53 || bytes[e2
        + 3] != 53 || bytes[e2 + 4] != 10 {
        proof {
            if e2 + 5 <= len {
                let line = bytes@.subrange(e2 as int, e2 + 5);
                assert(line[0] == bytes@[e2 as int] && line[1] == bytes@[e2 + 1] && line[2]
                    == bytes@[e2 + 2] && line[3] == bytes@[e2 + 3] && line[4] == bytes@[e2 + 4]);
            }
        }
        return None;
    }
    assert(bytes@.subrange(e2 as int, e2 + 5) =~= max_value_line());
    if width == 0 || width > 0xffff_ffff || height == 0 || height > 0xffff_ffff {
        return None;
    }
    let rest = len - (e2 + 5);
    assert(3 * width * height <= 3 * 0xffff_ffff * 0xffff_ffff) by (nonlinear_arith)
        requires
            width <= 0xffff_ffff,
            height <= 0xffff_ffff,
    ;
    let needed: u128 = 3 * (width as u128) * (height as u128);
    if (rest as u128) < needed {
        return None;
    }
    let data = slice_to_vec(slice_subrange(bytes, e2 + 5, len));
    Some(PpmImage { width: width as u32, height: height as u32, data })
}

} // verus!
