//! Packed pixel formats.

use vstd::prelude::*;
use crate::text::same_text;

verus! {

/// The packed formats a frame can have. Each stores a picture in a single
/// plane with eight bits per channel.
#[derive(Clone, Copy, Debug, PartialEq, Eq, Structural)]
pub enum PixelFormat {
    /// Red, green, blue: three bytes per pixel.
    Rgb24,
    /// Red, green, blue, alpha: four bytes per pixel.
    Rgba8,
    /// Blue, green, red and one unused byte.
    Bgr0,
    /// One unused byte, then red, green, blue.
    Zrgb,
}

impl PixelFormat {
    /// Number of bytes one pixel occupies in plane 0.
    pub open spec fn spec_bytes_per_pixel(self) -> nat {
        match self {
            PixelFormat::Rgb24 => 3,
            PixelFormat::Rgba8 => 4,
            PixelFormat::Bgr0 => 4,
            PixelFormat::Zrgb => 4,
        }
    }

    /// Number of planes a frame of this format has.
    pub open spec fn spec_planes(self) -> nat {
        1
    }

    /// The name by which the multimedia toolkit knows the format.
    pub open spec fn spec_name(self) -> Seq<char> {
        match self {
            PixelFormat::Rgb24 => "rgb24"@,
            PixelFormat::Rgba8 => "rgba"@,
            PixelFormat::Bgr0 => "bgr0"@,
            PixelFormat::Zrgb => "0rgb"@,
        }
    }

    /// The format that carries the given name, if there is one.
    pub open spec fn spec_from_name(name: Seq<char>) -> Option<PixelFormat> {
        if name == PixelFormat::Rgb24.spec_name() {
            Some(PixelFormat::Rgb24)
        } else if name == PixelFormat::Rgba8.spec_name() {
            Some(PixelFormat::Rgba8)
        } else if name == PixelFormat::Bgr0.spec_name() {
            Some(PixelFormat::Bgr0)
        } else if name == PixelFormat::Zrgb.spec_name() {
            Some(PixelFormat::Zrgb)
        } else {
            None
        }
    }

    /// Number of bytes one pixel occupies in plane 0.
    pub fn bytes_per_pixel(self) -> (n: usize)
        ensures
            n == self.spec_bytes_per_pixel(),
    {
        match self {
            PixelFormat::Rgb24 => 3,
            PixelFormat::Rgba8 => 4,
            PixelFormat::Bgr0 => 4,
            PixelFormat::Zrgb => 4,
        }
    }

    /// Number of planes a frame of this format has.
    pub fn planes(self) -> (n: usize)
        ensures
            n == self.spec_planes(),
    {
        1
    }

    /// The name by which the multimedia toolkit knows the format.
    pub fn name(self) -> (name: &'static str)
        ensures
            name@ == self.spec_name(),
    {
        match self {
            PixelFormat::Rgb24 => "rgb24",
            PixelFormat::Rgba8 => "rgba",
            PixelFormat::Bgr0 => "bgr0",
            PixelFormat::Zrgb => "0rgb",
        }
    }

    /// Looks a format up by the toolkit's name for it.
    pub fn from_name(name: &str) -> (format: Option<PixelFormat>)
        ensures
            format == PixelFormat::spec_from_name(name@),
    {
        if same_text(name, PixelFormat::Rgb24.name()) {
            Some(PixelFormat::Rgb24)
        } else if same_text(name, PixelFormat::Rgba8.name()) {
            Some(PixelFormat::Rgba8)
        } else if same_text(name, PixelFormat::Bgr0.name()) {
            Some(PixelFormat::Bgr0)
        } else if same_text(name, PixelFormat::Zrgb.name()) {
            Some(PixelFormat::Zrgb)
        } else {
            None
        }
    }

    /// Every format is found again under its own name, and under no other.
    pub proof fn lemma_name_round_trip(self)
        ensures
            PixelFormat::spec_from_name(self.spec_name()) == Some(self),
            forall|other: PixelFormat| other.spec_name() == self.spec_name() ==> other == self,
    {
        reveal_strlit("rgb24");
        reveal_strlit("rgba");
        reveal_strlit("bgr0");
        reveal_strlit("0rgb");
        assert("rgb24"@.len() == 5);
        assert("rgba"@[0] == 'r' && "bgr0"@[0] == 'b' && "0rgb"@[0] == '0');
    }
}

} // verus!
