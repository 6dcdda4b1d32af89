//! Decoded pictures.
//!
//! A [`Frame`] owns one packed plane of pixels together with its geometry.
//! A [`RawFrame`] is the same data as a backend hands it over, before anything
//! about it has been checked.

use vstd::prelude::*;
use crate::pixel::PixelFormat;

verus! {

/// What a frame is: its geometry and the bytes of plane 0.
pub struct FrameView {
    pub width: nat,
    pub height: nat,
    pub format: PixelFormat,
    /// Distance in bytes between the starts of two consecutive rows.
    pub stride: nat,
    pub data: Seq<u8>,
}

impl FrameView {
    /// Number of bytes of a row that hold pixels.
    pub open spec fn row_bytes(self) -> nat {
        self.width * self.format.spec_bytes_per_pixel()
    }

    /// Number of bytes the pixels occupy when no row is padded.
    pub open spec fn packed_len(self) -> nat {
        self.format.spec_bytes_per_pixel() * self.width * self.height
    }

    /// The invariant of every frame: both dimensions are positive, a row has
    /// room for its pixels, and the plane holds `height` rows.
    pub open spec fn wf(self) -> bool {
        &&& 0 < self.width <= u32::MAX
        &&& 0 < self.height <= u32::MAX
        &&& self.row_bytes() <= self.stride <= usize::MAX
        &&& self.data.len() == self.stride * self.height
    }

    /// Whether the rows follow each other without padding.
    pub open spec fn is_packed(self) -> bool {
        self.stride == self.row_bytes()
    }

    /// The bytes of the pixels of row `y`.
    pub open spec fn row(self, y: int) -> Seq<u8> {
        self.data.subrange(y * self.stride, y * self.stride + self.row_bytes())
    }

    /// The pixels of the first `n` rows, one row after the other.
    pub open spec fn rows(self, n: nat) -> Seq<u8>
        decreases n,
    {
        if n == 0 {
            Seq::empty()
        } else {
            self.rows((n - 1) as nat) + self.row(n - 1)
        }
    }

    /// The same picture without padding between its rows.
    pub open spec fn packed(self) -> FrameView {
        FrameView { stride: self.row_bytes(), data: self.rows(self.height), ..self }
    }
}

/// A picture as a backend delivers it. Nothing is known of its fields.
#[derive(Debug)]
pub struct RawFrame {
    pub width: u32,
    pub height: u32,
    /// The toolkit's name of the pixel format.
    pub format: String,
    /// Distance in bytes between the starts of two consecutive rows.
    pub stride: usize,
    /// The bytes of plane 0.
    pub data: Vec<u8>,
}

/// What a raw frame holds.
pub struct RawFrameView {
    pub width: nat,
    pub height: nat,
    pub format: Seq<char>,
    pub stride: nat,
    pub data: Seq<u8>,
}

impl View for RawFrame {
    type V = RawFrameView;

    open spec fn view(&self) -> RawFrameView {
        RawFrameView {
            width: self.width as nat,
            height: self.height as nat,
            format: self.format@,
            stride: self.stride as nat,
            data: self.data@,
        }
    }
}

impl RawFrameView {
    /// The frame that these raw parts describe, provided the format's name is
    /// known and the parts satisfy the frame invariant.
    pub open spec fn checked(self) -> Option<FrameView> {
        match PixelFormat::spec_from_name(self.format) {
            Some(format) => {
                let frame = FrameView {
                    width: self.width,
                    height: self.height,
                    format,
                    stride: self.stride,
                    data: self.data,
                };
                if frame.wf() {
                    Some(frame)
                } else {
                    None
                }
            },
            None => None,
        }
    }
}

/// A decoded picture in a packed pixel format.
#[derive(Debug)]
pub struct Frame {
    width: u32,
    height: u32,
    format: PixelFormat,
    stride: usize,
    data: Vec<u8>,
}

impl View for Frame {
    type V = FrameView;

    closed spec fn view(&self) -> FrameView {
        FrameView {
            width: self.width as nat,
            height: self.height as nat,
            format: self.format,
            stride: self.stride as nat,
            data: self.data@,
        }
    }
}

impl Frame {
    #[verifier::type_invariant]
    spec fn inv(self) -> bool {
        self@.wf()
    }

    /// Builds a frame from its parts. `None` exactly when the parts break
    /// the frame invariant.
    pub fn new(width: u32, height: u32, format: PixelFormat, stride: usize, data: Vec<u8>) -> (frame:
        Option<Frame>)
        ensures
            match frame {
                Some(f) => f@.wf() && f@ == (FrameView {
                    width: width as nat,
                    height: height as nat,
                    format,
                    stride: stride as nat,
                    data: data@,
                }),
                None => !(FrameView {
                    width: width as nat,
                    height: height as nat,
                    format,
                    stride: stride as nat,
                    data: data@,
                }).wf(),
            },
    {
        if width == 0 || height == 0 {
            return None;
        }
        let bpp = format.bytes_per_pixel();
        assert(width * bpp <= 4 * u32::MAX) by (nonlinear_arith)
            requires
                width <= u32::MAX,
                bpp <= 4,
        ;
        let row_bytes: u64 = (width as u64) * (bpp as u64);
        if (stride as u64) < row_bytes {
            return None;
        }
        let rows = height as usize;
        assert((stride as nat) * (height as nat) == stride * rows) by (nonlinear_arith)
            requires
                rows == height,
        ;
        let data_len = data.len();
        match stride.checked_mul(rows) {
            Some(len) => {
                if data_len == len {
                    Some(Frame { width, height, format, stride, data })
                } else {
                    None
                }
            },
            None => None,
        }
    }

    /// Checks what a backend delivered and turns it into a frame.
    pub fn from_raw(raw: RawFrame) -> (frame: Option<Frame>)
        ensures
            match frame {
                Some(f) => f@.wf() && raw@.checked() == Some(f@),
                None => raw@.checked().is_none(),
            },
    {
        match PixelFormat::from_name(raw.format.as_str()) {
            Some(format) => Frame::new(raw.width, raw.height, format, raw.stride, raw.data),
            None => None,
        }
    }

    /// Width in pixels; never zero.
    pub fn width(&self) -> (width: u32)
        ensures
            width == self@.width,
            self@.wf(),
    {
        proof {
            use_type_invariant(self);
        }
        self.width
    }

    /// Height in pixels; never zero.
    pub fn height(&self) -> (height: u32)
        ensures
            height == self@.height,
            self@.wf(),
    {
        proof {
            use_type_invariant(self);
        }
        self.height
    }

    /// The format of the pixels.
    pub fn pixel_format(&self) -> (format: PixelFormat)
        ensures
            format == self@.format,
            self@.wf(),
    {
        proof {
            use_type_invariant(self);
        }
        self.format
    }

    /// Number of planes.
    pub fn planes(&self) -> (n: usize)
        ensures
            n == self@.format.spec_planes(),
    {
        self.format.planes()
    }

    /// Distance in bytes between the starts of two consecutive rows of the
    /// plane with the given index.
    pub fn stride(&self, index: usize) -> (stride: usize)
        requires
            index < self@.format.spec_planes(),
        ensures
            stride == self@.stride,
            self@.wf(),
    {
        proof {
            use_type_invariant(self);
        }
        self.stride
    }

    /// The bytes of the plane with the given index.
    pub fn plane(&self, index: usize) -> (bytes: &[u8])
        requires
            index < self@.format.spec_planes(),
        ensures
            bytes@ == self@.data,
            self@.wf(),
    {
        proof {
            use_type_invariant(self);
        }
        self.data.as_slice()
    }

    /// Whether the rows of plane 0 follow each other without padding.
    pub fn is_packed(&self) -> (packed: bool)
        ensures
            packed == self@.is_packed(),
            self@.wf(),
    {
        proof {
            use_type_invariant(self);
        }
        let bpp = self.format.bytes_per_pixel();
        assert(self.width * bpp <= 4 * u32::MAX) by (nonlinear_arith)
            requires
                self.width <= u32::MAX,
                bpp <= 4,
        ;
        (self.stride as u64) == (self.width as u64) * (bpp as u64)
    }

    /// A copy of the frame without padding between its rows.
    pub fn to_packed(&self) -> (packed: Frame)
        ensures
            packed@ == self@.packed(),
            packed@.wf(),
            packed@.is_packed(),
    {
        proof {
            use_type_invariant(self);
            lemma_packed_is_a_frame(self@);
        }
        let bpp = self.format.bytes_per_pixel();
        assert(self.width * bpp == self@.row_bytes());
        let row_bytes: usize = (self.width as usize) * bpp;
        let len = self.data.len();
        let mut data: Vec<u8> = Vec::new();
        let mut y: u32 = 0;
        while y < self.height
            invariant
                y <= self.height,
                self@.wf(),
                len == self@.data.len(),
                row_bytes == self@.row_bytes(),
                data@ == self@.rows(y as nat),
            decreases self.height - y,
        {
            proof {
                lemma_row_in_bounds(self@, y as int);
                assert(y * self.stride == (y as int) * self@.stride);
            }
            let start = (y as usize) * self.stride;
            let row = vstd::slice::slice_subrange(self.data.as_slice(), start, start + row_bytes);
            let ghost before = data@;
            data.extend_from_slice(row);
            assert(data@ =~= before + self@.row(y as int));
            y = y + 1;
        }
        Frame { width: self.width, height: self.height, format: self.format, stride: row_bytes, data }
    }
}

/// Row `y` of a frame lies within its plane.
pub proof fn lemma_row_in_bounds(frame: FrameView, y: int)
    requires
        frame.wf(),
        0 <= y < frame.height,
    ensures
        0 <= y * frame.stride,
        y * frame.stride + frame.row_bytes() <= frame.data.len(),
        frame.row(y).len() == frame.row_bytes(),
{
    assert(0 <= y * frame.stride) by (nonlinear_arith)
        requires
            0 <= y,
            0 <= frame.stride,
    ;
    assert(y * frame.stride + frame.stride <= frame.stride * frame.height) by (nonlinear_arith)
        requires
            0 <= y < frame.height,
            0 <= frame.stride,
    ;
}

/// The first `n` rows of a frame hold `n` times the bytes of a row.
pub proof fn lemma_rows_len(frame: FrameView, n: nat)
    requires
        frame.wf(),
        n <= frame.height,
    ensures
        frame.rows(n).len() == n * frame.row_bytes(),
    decreases n,
{
    let rb = frame.row_bytes();
    if n > 0 {
        let m = (n - 1) as nat;
        lemma_rows_len(frame, m);
        lemma_row_in_bounds(frame, n - 1);
        assert(frame.rows(n).len() == frame.rows(m).len() + rb);
        assert(m * rb + rb == n * rb) by (nonlinear_arith)
            requires
                m + 1 == n,
        ;
    } else {
        assert(frame.rows(n).len() == 0);
        assert(n * rb == 0) by (nonlinear_arith)
            requires
                n == 0,
        ;
    }
}

/// Packing a frame gives a frame of the same size and format whose rows
/// are not padded. It holds exactly bytes-per-pixel times width times height
/// bytes.
pub proof fn lemma_packed_is_a_frame(frame: FrameView)
    requires
        frame.wf(),
    ensures
        frame.packed().wf(),
        frame.packed().is_packed(),
        frame.packed().width == frame.width,
        frame.packed().height == frame.height,
        frame.packed().format == frame.format,
        frame.packed().data.len() == frame.format.spec_bytes_per_pixel() * (frame.width
            * frame.height),
{
    lemma_rows_len(frame, frame.height);
    assert(frame.height * frame.row_bytes() == frame.row_bytes() * frame.height)
        by (nonlinear_arith);
    lemma_packed_plane_len(frame.packed());
}

/// A frame without padding has the first `n` rows at the start of its plane.
proof fn lemma_rows_of_packed(frame: FrameView, n: nat)
    requires
        frame.wf(),
        frame.is_packed(),
        n <= frame.height,
    ensures
        0 <= n * frame.stride <= frame.data.len(),
        frame.rows(n) == frame.data.subrange(0, (n * frame.stride) as int),
    decreases n,
{
    if n > 0 {
        lemma_rows_of_packed(frame, (n - 1) as nat);
        lemma_row_in_bounds(frame, n - 1);
        assert((n - 1) * frame.stride + frame.stride == n * frame.stride) by (nonlinear_arith);
        assert(frame.rows(n) =~= frame.data.subrange(0, (n * frame.stride) as int));
    } else {
        assert(0 * frame.stride == 0) by (nonlinear_arith);
        assert(frame.rows(n) =~= frame.data.subrange(0, (n * frame.stride) as int));
    }
}

/// Packing changes nothing in a frame that has no padding.
pub proof fn lemma_packed_frame_is_unchanged(frame: FrameView)
    requires
        frame.wf(),
        frame.is_packed(),
    ensures
        frame.packed() == frame,
{
    lemma_rows_of_packed(frame, frame.height);
    assert(frame.height * frame.stride == frame.stride * frame.height) by (nonlinear_arith);
    assert(frame.packed().data =~= frame.data);
}

/// A frame's plane has room for every pixel: its length is at least the
/// number of pixels times the bytes one pixel takes.
pub proof fn lemma_plane_holds_all_pixels(frame: FrameView)
    requires
        frame.wf(),
    ensures
        frame.data.len() >= frame.packed_len(),
        frame.format == PixelFormat::Rgb24 ==> frame.data.len() >= frame.width * frame.height * 3,
{
    let bpp = frame.format.spec_bytes_per_pixel();
    assert(frame.row_bytes() * frame.height <= frame.stride * frame.height) by (nonlinear_arith)
        requires
            frame.row_bytes() <= frame.stride,
    ;
    assert(frame.row_bytes() * frame.height == bpp * frame.width * frame.height)
        by (nonlinear_arith)
        requires
            frame.row_bytes() == frame.width * bpp,
    ;
    assert(bpp * frame.width * frame.height == frame.width * frame.height * bpp)
        by (nonlinear_arith);
}

/// A frame whose rows are not padded holds exactly as many bytes as its
/// pixels take: bytes per pixel times the number of pixels.
pub proof fn lemma_packed_plane_len(frame: FrameView)
    requires
        frame.wf(),
        frame.is_packed(),
    ensures
        frame.data.len() == frame.format.spec_bytes_per_pixel() * (frame.width * frame.height),
{
    let bpp = frame.format.spec_bytes_per_pixel();
    assert((frame.width * bpp) * frame.height == bpp * (frame.width * frame.height))
        by (nonlinear_arith);
}

} // verus!
