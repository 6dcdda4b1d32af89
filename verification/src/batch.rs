//! Writing every frame of a stream to a numbered file.
//!
//! A [`BatchExtractor`] is told how each pull ended and says what to do
//! next: pull again, write a file and pull again, or leave with an exit
//! code. It numbers the files from zero.

use vstd::prelude::*;
use vstd::string::StringExecFns;
use crate::camera::{lemma_pull_messages_are_single_lines, PullError};
use crate::decimal::{append_decimal, decimal, decimal_text, lemma_decimal_injective};
use crate::frame::{lemma_packed_is_a_frame, Frame, FrameView};
use crate::pixel::PixelFormat;
use crate::text::single_line;
use crate::ppm::{
    frame_file, is_ppm, lemma_ppm_round_trip, ppm_header, write_video_frame_as_ppm, PpmImageView,
};

verus! {

/// The exit code of a run that reached the end of the stream.
pub const EXIT_OK: i32 = 0;

/// The exit code of a run that an error ended.
pub const EXIT_FAILURE: i32 = 1;

/// The name of the file that holds the frame with the given number.
pub open spec fn spec_frame_file_name(index: nat) -> Seq<char> {
    "frame"@ + decimal_text(index) + ".ppm"@
}

/// Why a frame that is not `Rgb24` ends the run.
pub open spec fn wrong_format_message() -> Seq<char> {
    "the frame is not in the rgb24 format"@
}

/// Why the run ends once `u64::MAX` files are written.
pub open spec fn exhausted_message() -> Seq<char> {
    "the frame numbers are used up"@
}

/// Every line that a batch run logs is a single line.
pub proof fn lemma_batch_messages_are_single_lines(error: PullError)
    ensures
        single_line(wrong_format_message()),
        single_line(exhausted_message()),
        single_line(error.spec_message()),
{
    reveal_strlit("the frame is not in the rgb24 format");
    reveal_strlit("the frame numbers are used up");
    lemma_pull_messages_are_single_lines(error);
}

/// The name of the file that holds the frame with the given number:
/// `frame<N>.ppm`.
pub fn frame_file_name(index: u64) -> (name: String)
    ensures
        name@ == spec_frame_file_name(index as nat),
{
    let mut name = "frame".to_owned();
    append_decimal(&mut name, index);
    name.append(".ppm");
    name
}

/// Files of different numbers have different names.
pub proof fn lemma_file_names_differ(a: nat, b: nat)
    requires
        spec_frame_file_name(a) == spec_frame_file_name(b),
    ensures
        a == b,
{
    reveal_strlit("frame");
    reveal_strlit(".ppm");
    let name_a = spec_frame_file_name(a);
    let name_b = spec_frame_file_name(b);
    let text_a = decimal_text(a);
    let text_b = decimal_text(b);
    assert(name_a.len() == 9 + text_a.len());
    assert(name_b.len() == 9 + text_b.len());
    assert(decimal(a).len() == decimal(b).len());
    assert forall|i: int| 0 <= i < decimal(a).len() implies decimal(a)[i] == decimal(b)[i] by {
        assert(name_a[5 + i] == text_a[i]);
        assert(name_b[5 + i] == text_b[i]);
        assert(text_a[i] == decimal(a)[i] as char);
        assert(text_b[i] == decimal(b)[i] as char);
        assert((decimal(a)[i] as char) as u8 == decimal(a)[i]);
        assert((decimal(b)[i] as char) as u8 == decimal(b)[i]);
    }
    assert(decimal(a) =~= decimal(b));
    lemma_decimal_injective(a, b);
}

/// What the driver of a batch run does next.
#[derive(Debug)]
pub enum BatchAction {
    /// Pull the next frame.
    Pull,
    /// Create the file in the working directory, write the contents, then
    /// pull the next frame.
    Write { file_name: String, contents: Vec<u8> },
    /// Print the line, if there is one, to standard error and leave with
    /// the code.
    Exit { code: i32, log: Option<&'static str> },
}

/// The model of a [`BatchAction`].
pub enum BatchActionView {
    Pull,
    Write { file_name: Seq<char>, contents: Seq<u8> },
    Exit { code: int, log: Option<Seq<char>> },
}

impl View for BatchAction {
    type V = BatchActionView;

    open spec fn view(&self) -> BatchActionView {
        match self {
            BatchAction::Pull => BatchActionView::Pull,
            BatchAction::Write { file_name, contents } => BatchActionView::Write {
                file_name: file_name@,
                contents: contents@,
            },
            BatchAction::Exit { code, log } => BatchActionView::Exit {
                code: *code as int,
                log: match log {
                    Some(text) => Some(text@),
                    None => None,
                },
            },
        }
    }
}

/// The model of a [`BatchExtractor`]: the number of the next file.
pub struct BatchView {
    pub next_index: nat,
}

impl BatchView {
    /// The run ends with an error.
    pub open spec fn abort(self, log: Seq<char>) -> (BatchView, BatchActionView) {
        (self, BatchActionView::Exit { code: EXIT_FAILURE as int, log: Some(log) })
    }

    /// What follows a pull.
    ///
    /// A frame is written to the file with the next number, its rows
    /// packed, so that the file holds the picture whatever the frame's
    /// stride is. `Again` asks for another pull. The end of the stream ends the run with success,
    /// any other error ends it with a failure; so does a frame that is not
    /// `Rgb24`, and the one that would need the number `u64::MAX`.
    pub open spec fn on_pull(self, outcome: Result<FrameView, PullError>) -> (
        BatchView,
        BatchActionView,
    ) {
        match outcome {
            Ok(frame) => if frame.format != PixelFormat::Rgb24 {
                self.abort(wrong_format_message())
            } else if self.next_index >= u64::MAX {
                self.abort(exhausted_message())
            } else {
                (
                    BatchView { next_index: self.next_index + 1 },
                    BatchActionView::Write {
                        file_name: spec_frame_file_name(self.next_index),
                        contents: frame_file(frame.packed()),
                    },
                )
            },
            Err(PullError::Again) => (self, BatchActionView::Pull),
            Err(PullError::EndOfStream) => (
                self,
                BatchActionView::Exit { code: EXIT_OK as int, log: None },
            ),
            Err(error) => self.abort(error.spec_message()),
        }
    }

    /// The actions that a sequence of pulls leads to.
    pub open spec fn actions(self, outcomes: Seq<Result<FrameView, PullError>>) -> Seq<
        BatchActionView,
    >
        decreases outcomes.len(),
    {
        if outcomes.len() == 0 {
            Seq::empty()
        } else {
            seq![self.on_pull(outcomes.first()).1] + self.on_pull(outcomes.first()).0.actions(
                outcomes.drop_first(),
            )
        }
    }

    /// How many of the first `k` actions write a file.
    pub open spec fn files_before(
        self,
        outcomes: Seq<Result<FrameView, PullError>>,
        k: int,
    ) -> nat
        decreases k,
    {
        if k <= 0 || outcomes.len() == 0 {
            0
        } else {
            let (next, action) = self.on_pull(outcomes.first());
            let rest = next.files_before(outcomes.drop_first(), k - 1);
            if action is Write {
                rest + 1
            } else {
                rest
            }
        }
    }
}

/// A file that is written for a frame is the header of the frame's size
/// followed by exactly three bytes for each pixel, and reads back as the
/// frame's size and its packed rows.
pub proof fn lemma_written_file_holds_the_picture(frame: FrameView)
    requires
        frame.wf(),
        frame.format == PixelFormat::Rgb24,
    ensures
        frame_file(frame.packed()) == ppm_header(frame.width, frame.height) + frame.packed().data,
        frame.packed().data.len() == 3 * (frame.width * frame.height),
        is_ppm(
            frame_file(frame.packed()),
            PpmImageView {
                width: frame.width,
                height: frame.height,
                data: frame.packed().data,
            },
        ),
{
    lemma_packed_is_a_frame(frame);
    lemma_ppm_round_trip(frame.packed());
}

/// Every file gets the number that counts the files written before it: the
/// `k`-th action, if it writes a file, writes `frame<N>.ppm` where `N` is
/// the extractor's first number plus the number of files written by the
/// actions before it.
pub proof fn lemma_files_are_numbered_in_order(
    s: BatchView,
    outcomes: Seq<Result<FrameView, PullError>>,
    k: int,
)
    requires
        0 <= k < outcomes.len(),
    ensures
        s.actions(outcomes).len() == outcomes.len(),
        s.actions(outcomes)[k] matches BatchActionView::Write { file_name, .. } ==> file_name
            == spec_frame_file_name(s.next_index + s.files_before(outcomes, k)),
    decreases outcomes.len(),
{
    let (next, action) = s.on_pull(outcomes.first());
    let rest = outcomes.drop_first();
    lemma_actions_len(next, rest);
    if k > 0 {
        lemma_files_are_numbered_in_order(next, rest, k - 1);
    }
}

/// A run has one action for each pull.
pub proof fn lemma_actions_len(s: BatchView, outcomes: Seq<Result<FrameView, PullError>>)
    ensures
        s.actions(outcomes).len() == outcomes.len(),
    decreases outcomes.len(),
{
    if outcomes.len() > 0 {
        lemma_actions_len(s.on_pull(outcomes.first()).0, outcomes.drop_first());
    }
}

/// Numbers and writes the frames of a stream.
#[derive(Debug)]
pub struct BatchExtractor {
    next_index: u64,
}

impl View for BatchExtractor {
    type V = BatchView;

    closed spec fn view(&self) -> BatchView {
        BatchView { next_index: self.next_index as nat }
    }
}

impl BatchExtractor {
    /// An extractor whose first file is `frame0.ppm`.
    pub fn new() -> (extractor: BatchExtractor)
        ensures
            extractor@ == (BatchView { next_index: 0 }),
    {
        BatchExtractor { next_index: 0 }
    }

    /// The number of the next file, which is the number of files written so
    /// far.
    pub fn next_index(&self) -> (index: u64)
        ensures
            index == self@.next_index,
    {
        self.next_index
    }

    /// Takes the outcome of a pull and says what to do next.
    pub fn on_pull(&mut self, outcome: Result<Frame, PullError>) -> (action: BatchAction)
        ensures
            (final(self)@, action@) == old(self)@.on_pull(
                match outcome {
                    Ok(frame) => Ok(frame@),
                    Err(error) => Err(error),
                },
            ),
    {
        match outcome {
            Ok(frame) => {
                if frame.pixel_format() != PixelFormat::Rgb24 {
                    BatchAction::Exit {
                        code: EXIT_FAILURE,
                        log: Some("the frame is not in the rgb24 format"),
                    }
                } else if self.next_index == u64::MAX {
                    BatchAction::Exit {
                        code: EXIT_FAILURE,
                        log: Some("the frame numbers are used up"),
                    }
                } else {
                    let file_name = frame_file_name(self.next_index);
                    let packed = frame.to_packed();
                    let mut contents: Vec<u8> = Vec::new();
                    write_video_frame_as_ppm(&mut contents, &packed);
                    self.next_index = self.next_index + 1;
                    assert(contents@ =~= frame_file(frame@.packed()));
                    BatchAction::Write { file_name, contents }
                }
            },
            Err(PullError::Again) => BatchAction::Pull,
            Err(PullError::EndOfStream) => BatchAction::Exit { code: EXIT_OK, log: None },
            Err(error) => BatchAction::Exit { code: EXIT_FAILURE, log: Some(error.message()) },
        }
    }
}

} // verus!
