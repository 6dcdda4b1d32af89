//! What a camera is opened with.

use vstd::prelude::*;
use vstd::string::StringExecFns;
use crate::decimal::{append_decimal, decimal_text};
use crate::pixel::PixelFormat;

verus! {

/// The options of a camera stream.
#[derive(Debug)]
pub struct OpenOptions {
    /// Names the device in the way of the platform's capture backend.
    pub device_selector: String,
    /// Frames per second asked of the device.
    pub framerate: u32,
    /// Width and height asked of the device; `None` leaves the choice to the
    /// device.
    pub video_size: Option<(u32, u32)>,
    /// The format in which frames leave the stream.
    pub pixel_format: PixelFormat,
}

/// The model of [`OpenOptions`].
pub struct OpenOptionsView {
    pub device_selector: Seq<char>,
    pub framerate: nat,
    pub video_size: Option<(nat, nat)>,
    pub pixel_format: PixelFormat,
}

impl View for OpenOptions {
    type V = OpenOptionsView;

    open spec fn view(&self) -> OpenOptionsView {
        OpenOptionsView {
            device_selector: self.device_selector@,
            framerate: self.framerate as nat,
            video_size: match self.video_size {
                Some((width, height)) => Some((width as nat, height as nat)),
                None => None,
            },
            pixel_format: self.pixel_format,
        }
    }
}

/// The texts of a list of key and value pairs.
pub open spec fn texts(entries: Seq<(String, String)>) -> Seq<(Seq<char>, Seq<char>)> {
    entries.map_values(|entry: (String, String)| (entry.0@, entry.1@))
}

impl OpenOptionsView {
    /// The options that are used where none are given: the device named
    /// `default`, 30 frames per second, 640 by 360 pixels, `Rgba8`.
    pub open spec fn standard() -> OpenOptionsView {
        OpenOptionsView {
            device_selector: "default"@,
            framerate: 30,
            video_size: Some((640, 360)),
            pixel_format: PixelFormat::Rgba8,
        }
    }

    /// The entry for the size, if one is asked for: width and height in
    /// decimal notation with a comma between them.
    pub open spec fn size_entries(self) -> Seq<(Seq<char>, Seq<char>)> {
        match self.video_size {
            Some((width, height)) => seq![
                ("video_size"@, decimal_text(width) + ","@ + decimal_text(height)),
            ],
            None => Seq::empty(),
        }
    }

    /// The dictionary that the capture backend is handed: the frame rate,
    /// the size if one is asked for, and the pixel format by its name.
    pub open spec fn dictionary(self) -> Seq<(Seq<char>, Seq<char>)> {
        seq![("framerate"@, decimal_text(self.framerate))] + self.size_entries() + seq![
            ("pixel_format"@, self.pixel_format.spec_name()),
        ]
    }
}

impl Default for OpenOptions {
    fn default() -> (options: OpenOptions)
        ensures
            options@ == OpenOptionsView::standard(),
    {
        OpenOptions {
            device_selector: "default".to_owned(),
            framerate: 30,
            video_size: Some((640, 360)),
            pixel_format: PixelFormat::Rgba8,
        }
    }
}

impl OpenOptions {
    /// The dictionary that the capture backend is handed.
    pub fn dictionary(&self) -> (entries: Vec<(String, String)>)
        ensures
            texts(entries@) == self@.dictionary(),
    {
        let mut entries: Vec<(String, String)> = Vec::new();
        let mut rate = String::new();
        append_decimal(&mut rate, self.framerate as u64);
        entries.push(("framerate".to_owned(), rate));
        match self.video_size {
            Some((width, height)) => {
                let mut size = String::new();
                append_decimal(&mut size, width as u64);
                size.append(",");
                append_decimal(&mut size, height as u64);
                entries.push(("video_size".to_owned(), size));
            },
            None => {},
        }
        entries.push(("pixel_format".to_owned(), self.pixel_format.name().to_owned()));
        assert(texts(entries@) =~= self@.dictionary());
        entries
    }
}

} // verus!
