//! The pull protocol of a camera stream.
//!
//! A [`CameraStream`] decides; it performs no I/O. One pull is a short
//! dialogue with a driver that owns the demuxer, the decoder and the pixel
//! converter: [`CameraStream::pull_frame`] starts it, every [`Pull::Need`]
//! names the operation the driver has to perform next, and
//! [`CameraStream::resume`] takes what the operation gave until the pull ends
//! in a [`Pull::Done`].
//!
//! What the stream does is defined on its model, [`StreamView`]:
//! [`StreamView::begin`] and [`StreamView::resume`] are the two transitions,
//! and the executable methods compute exactly these.

use vstd::prelude::*;
use crate::frame::{Frame, FrameView, RawFrame, RawFrameView};
use crate::pixel::PixelFormat;
use crate::text::single_line;

verus! {

/// Where a stream is in its life.
#[derive(Clone, Copy, Debug, PartialEq, Eq, Structural)]
pub enum StreamState {
    /// Packets are still read from the device.
    Open,
    /// The device has no more packets and the decoder has been told so; it
    /// hands out the frames it still holds.
    Draining,
    /// The decoder is empty. Every pull ends in `EndOfStream`.
    Closed,
}

/// Why a pull delivered no frame.
#[derive(Clone, Copy, Debug, PartialEq, Eq, Structural)]
pub enum PullError {
    /// The decoder has no frame ready yet; pull again.
    Again,
    /// The stream has ended; no frame will come any more.
    EndOfStream,
    /// Reading a packet from the device failed.
    IoError,
    /// The decoder rejected a packet or failed.
    DecodeError,
    /// The pixel converter failed, or what it produced is not a frame of the
    /// negotiated output.
    ConversionError,
}

impl PullError {
    /// One line that says what went wrong.
    pub open spec fn spec_message(self) -> Seq<char> {
        match self {
            PullError::Again => "no frame is ready yet"@,
            PullError::EndOfStream => "the stream has ended"@,
            PullError::IoError => "reading a packet from the device failed"@,
            PullError::DecodeError => "the decoder failed"@,
            PullError::ConversionError => "the pixel converter failed"@,
        }
    }

    /// One line that says what went wrong.
    pub fn message(self) -> (text: &'static str)
        ensures
            text@ == self.spec_message(),
    {
        match self {
            PullError::Again => "no frame is ready yet",
            PullError::EndOfStream => "the stream has ended",
            PullError::IoError => "reading a packet from the device failed",
            PullError::DecodeError => "the decoder failed",
            PullError::ConversionError => "the pixel converter failed",
        }
    }

    /// Whether the error ends the work on the stream: every error does but
    /// `Again`, which asks for another pull.
    pub open spec fn spec_is_terminal(self) -> bool {
        self != PullError::Again
    }

    /// Whether the error ends the work on the stream.
    pub fn is_terminal(self) -> (terminal: bool)
        ensures
            terminal == self.spec_is_terminal(),
    {
        match self {
            PullError::Again => false,
            _ => true,
        }
    }
}

/// The message of every error is a single line.
pub proof fn lemma_pull_messages_are_single_lines(error: PullError)
    ensures
        single_line(error.spec_message()),
{
    reveal_strlit("no frame is ready yet");
    reveal_strlit("the stream has ended");
    reveal_strlit("reading a packet from the device failed");
    reveal_strlit("the decoder failed");
    reveal_strlit("the pixel converter failed");
}

/// The output that was fixed when the stream was opened.
#[derive(Clone, Copy, Debug, PartialEq, Eq, Structural)]
pub struct OutputSpec {
    pub format: PixelFormat,
    pub width: u32,
    pub height: u32,
}

/// An operation the driver performs for the stream.
#[derive(Clone, Copy, Debug, PartialEq, Eq, Structural)]
pub enum Request {
    /// Read the next packet from the device, whatever stream it belongs to.
    ReadPacket,
    /// Submit the packet just read to the decoder.
    SendPacket,
    /// Tell the decoder that no packet will follow.
    SendEof,
    /// Ask the decoder for one decoded frame.
    ReceiveFrame,
    /// Convert the frame just decoded into a fresh frame of the given output.
    Convert { output: OutputSpec },
}

/// What an operation gave.
#[derive(Debug)]
pub enum Reply {
    /// A packet was read; it belongs to the stream at the given place of the
    /// device's list.
    Packet { stream: usize },
    /// The device has no more packets.
    NoMorePackets,
    /// Reading failed.
    ReadFailed,
    /// The decoder took the packet, or the end-of-input mark.
    Sent,
    /// The decoder refused it.
    SendFailed,
    /// The decoder produced a frame.
    Decoded,
    /// The decoder needs more input before it can produce a frame.
    NotReady,
    /// The decoder is drained: it will produce no further frame.
    Drained,
    /// The decoder failed.
    ReceiveFailed,
    /// The converter filled the output frame.
    Converted(RawFrame),
    /// The converter failed.
    ConvertFailed,
}

/// The model of a [`Reply`].
pub enum ReplyView {
    Packet { stream: nat },
    NoMorePackets,
    ReadFailed,
    Sent,
    SendFailed,
    Decoded,
    NotReady,
    Drained,
    ReceiveFailed,
    Converted(RawFrameView),
    ConvertFailed,
}

impl View for Reply {
    type V = ReplyView;

    open spec fn view(&self) -> ReplyView {
        match self {
            Reply::Packet { stream } => ReplyView::Packet { stream: *stream as nat },
            Reply::NoMorePackets => ReplyView::NoMorePackets,
            Reply::ReadFailed => ReplyView::ReadFailed,
            Reply::Sent => ReplyView::Sent,
            Reply::SendFailed => ReplyView::SendFailed,
            Reply::Decoded => ReplyView::Decoded,
            Reply::NotReady => ReplyView::NotReady,
            Reply::Drained => ReplyView::Drained,
            Reply::ReceiveFailed => ReplyView::ReceiveFailed,
            Reply::Converted(raw) => ReplyView::Converted(raw@),
            Reply::ConvertFailed => ReplyView::ConvertFailed,
        }
    }
}

/// How a pull goes on.
#[derive(Debug)]
pub enum Pull {
    /// The driver performs the request and calls `resume` with what it gave.
    Need(Request),
    /// The pull is over.
    Done(Result<Frame, PullError>),
}

/// The model of a [`Pull`].
pub enum PullView {
    Need(Request),
    Done(Result<FrameView, PullError>),
}

impl View for Pull {
    type V = PullView;

    open spec fn view(&self) -> PullView {
        match self {
            Pull::Need(request) => PullView::Need(*request),
            Pull::Done(Ok(frame)) => PullView::Done(Ok(frame@)),
            Pull::Done(Err(error)) => PullView::Done(Err(*error)),
        }
    }
}

/// The request whose answer a stream is waiting for.
#[derive(Clone, Copy, Debug, PartialEq, Eq, Structural)]
pub enum Phase {
    /// No pull is under way.
    Idle,
    /// Waiting for the answer to `ReadPacket`.
    Packet,
    /// Waiting for the answer to `SendPacket`.
    Send,
    /// Waiting for the answer to `SendEof`.
    Eof,
    /// Waiting for the answer to `ReceiveFrame`.
    Frame,
    /// Waiting for the answer to `Convert`.
    Convert,
}

/// The model of a [`CameraStream`].
pub struct StreamView {
    pub state: StreamState,
    pub phase: Phase,
    pub output: OutputSpec,
    /// The place of the video stream in the device's list of streams.
    pub video_stream: nat,
    /// Number of frames delivered so far. It stops counting at `u64::MAX`.
    pub delivered: nat,
}

impl StreamView {
    /// The invariant of every stream: the negotiated picture is not empty,
    /// and the request under way is one that the state allows.
    pub open spec fn wf(self) -> bool {
        &&& self.output.width > 0
        &&& self.output.height > 0
        &&& self.delivered <= u64::MAX
        &&& self.video_stream <= usize::MAX
        &&& self.state == StreamState::Closed ==> self.phase == Phase::Idle
        &&& self.phase == Phase::Packet || self.phase == Phase::Send ==> self.state
            == StreamState::Open
        &&& self.phase == Phase::Eof ==> self.state == StreamState::Draining
    }

    /// A stream as it is right after opening.
    pub open spec fn fresh(output: OutputSpec, video_stream: nat) -> StreamView {
        StreamView {
            state: StreamState::Open,
            phase: Phase::Idle,
            output,
            video_stream,
            delivered: 0,
        }
    }

    /// The stream asks for `request` and waits in `phase`.
    pub open spec fn ask(self, phase: Phase, request: Request) -> (StreamView, PullView) {
        (StreamView { phase, ..self }, PullView::Need(request))
    }

    /// The pull ends without a frame.
    pub open spec fn fail(self, error: PullError) -> (StreamView, PullView) {
        (StreamView { phase: Phase::Idle, ..self }, PullView::Done(Err(error)))
    }

    /// The frame that a converted picture is accepted as: it must satisfy
    /// the frame invariant and have the negotiated format and size.
    pub open spec fn accept(self, raw: RawFrameView) -> Option<FrameView> {
        match raw.checked() {
            Some(frame) => if frame.format == self.output.format && frame.width
                == self.output.width && frame.height == self.output.height {
                Some(frame)
            } else {
                None
            },
            None => None,
        }
    }

    /// The count of delivered frames after one more delivery.
    pub open spec fn counted(self) -> nat {
        if self.delivered < u64::MAX {
            self.delivered + 1
        } else {
            self.delivered
        }
    }

    /// Starts a pull, giving up one that is under way.
    ///
    /// An open stream reads a packet first. A draining stream goes straight
    /// to the decoder. A closed stream answers `EndOfStream` at once.
    pub open spec fn begin(self) -> (StreamView, PullView) {
        match self.state {
            StreamState::Open => self.ask(Phase::Packet, Request::ReadPacket),
            StreamState::Draining => self.ask(Phase::Frame, Request::ReceiveFrame),
            StreamState::Closed => self.fail(PullError::EndOfStream),
        }
    }

    /// Continues a pull with the answer to the request under way.
    ///
    /// Only packets of the video stream reach the decoder: after a packet of
    /// another stream the next packet is read. An answer that does not belong
    /// to the request counts as the request having failed. Where no request is
    /// under way, or the stream is closed, the answer is dropped and a pull
    /// begins.
    pub open spec fn resume(self, reply: ReplyView) -> (StreamView, PullView) {
        if self.state == StreamState::Closed {
            self.begin()
        } else {
            match self.phase {
                Phase::Idle => self.begin(),
                Phase::Packet => match reply {
                    ReplyView::Packet { stream } => if stream == self.video_stream {
                        self.ask(Phase::Send, Request::SendPacket)
                    } else {
                        self.ask(Phase::Packet, Request::ReadPacket)
                    },
                    ReplyView::NoMorePackets => (StreamView {
                        state: StreamState::Draining,
                        ..self
                    }).ask(Phase::Eof, Request::SendEof),
                    _ => self.fail(PullError::IoError),
                },
                Phase::Send | Phase::Eof => match reply {
                    ReplyView::Sent => self.ask(Phase::Frame, Request::ReceiveFrame),
                    _ => self.fail(PullError::DecodeError),
                },
                Phase::Frame => match reply {
                    ReplyView::Decoded => self.ask(
                        Phase::Convert,
                        Request::Convert { output: self.output },
                    ),
                    ReplyView::NotReady => self.fail(PullError::Again),
                    ReplyView::Drained => if self.state == StreamState::Draining {
                        (StreamView { state: StreamState::Closed, ..self }).fail(
                            PullError::EndOfStream,
                        )
                    } else {
                        self.fail(PullError::DecodeError)
                    },
                    _ => self.fail(PullError::DecodeError),
                },
                Phase::Convert => match reply {
                    ReplyView::Converted(raw) => match self.accept(raw) {
                        Some(frame) => (
                            StreamView { phase: Phase::Idle, delivered: self.counted(), ..self },
                            PullView::Done(Ok(frame)),
                        ),
                        None => self.fail(PullError::ConversionError),
                    },
                    _ => self.fail(PullError::ConversionError),
                },
            }
        }
    }
}

/// A camera stream: the state of the pull protocol and the output that was
/// negotiated when the stream was opened.
#[derive(Debug)]
pub struct CameraStream {
    state: StreamState,
    phase: Phase,
    output: OutputSpec,
    video_stream: usize,
    delivered: u64,
}

impl View for CameraStream {
    type V = StreamView;

    closed spec fn view(&self) -> StreamView {
        StreamView {
            state: self.state,
            phase: self.phase,
            output: self.output,
            video_stream: self.video_stream as nat,
            delivered: self.delivered as nat,
        }
    }
}

impl CameraStream {
    #[verifier::type_invariant]
    spec fn inv(self) -> bool {
        self@.wf()
    }

    /// A stream that has just been opened with the given output on the
    /// video stream at the given place.
    pub(crate) fn opened(output: OutputSpec, video_stream: usize) -> (stream: CameraStream)
        requires
            output.width > 0,
            output.height > 0,
        ensures
            stream@ == StreamView::fresh(output, video_stream as nat),
    {
        CameraStream {
            state: StreamState::Open,
            phase: Phase::Idle,
            output,
            video_stream,
            delivered: 0,
        }
    }

    /// Where the stream is in its life.
    pub fn state(&self) -> (state: StreamState)
        ensures
            state == self@.state,
            self@.wf(),
    {
        proof {
            use_type_invariant(self);
        }
        self.state
    }

    /// The output that was negotiated when the stream was opened.
    pub fn output(&self) -> (output: OutputSpec)
        ensures
            output == self@.output,
            self@.wf(),
    {
        proof {
            use_type_invariant(self);
        }
        self.output
    }

    /// The place of the video stream in the device's list of streams.
    pub fn video_stream(&self) -> (stream: usize)
        ensures
            stream == self@.video_stream,
            self@.wf(),
    {
        proof {
            use_type_invariant(self);
        }
        self.video_stream
    }

    /// Number of frames delivered so far.
    pub fn frames_delivered(&self) -> (count: u64)
        ensures
            count == self@.delivered,
            self@.wf(),
    {
        proof {
            use_type_invariant(self);
        }
        self.delivered
    }

    fn ask(&mut self, phase: Phase, request: Request) -> (pull: Pull)
        requires
            old(self)@.ask(phase, request).0.wf(),
        ensures
            (final(self)@, pull@) == old(self)@.ask(phase, request),
    {
        *self = CameraStream {
            state: self.state,
            phase,
            output: self.output,
            video_stream: self.video_stream,
            delivered: self.delivered,
        };
        Pull::Need(request)
    }

    fn fail(&mut self, error: PullError) -> (pull: Pull)
        requires
            old(self)@.fail(error).0.wf(),
        ensures
            (final(self)@, pull@) == old(self)@.fail(error),
    {
        *self = CameraStream {
            state: self.state,
            phase: Phase::Idle,
            output: self.output,
            video_stream: self.video_stream,
            delivered: self.delivered,
        };
        Pull::Done(Err(error))
    }

    /// Checks a converted picture against the negotiated output.
    fn accept(&self, raw: RawFrame) -> (frame: Option<Frame>)
        ensures
            match frame {
                Some(f) => self@.accept(raw@) == Some(f@),
                None => self@.accept(raw@).is_none(),
            },
    {
        match Frame::from_raw(raw) {
            Some(frame) => {
                if frame.pixel_format() == self.output.format && frame.width()
                    == self.output.width && frame.height() == self.output.height {
                    Some(frame)
                } else {
                    None
                }
            },
            None => None,
        }
    }

    /// Starts a pull and says what the driver has to do first, or how the
    /// pull ended if nothing is to be done. A pull that was under way is
    /// given up.
    pub fn pull_frame(&mut self) -> (pull: Pull)
        ensures
            (final(self)@, pull@) == old(self)@.begin(),
            final(self)@.wf(),
    {
        proof {
            use_type_invariant(&*self);
        }
        match self.state {
            StreamState::Open => self.ask(Phase::Packet, Request::ReadPacket),
            StreamState::Draining => self.ask(Phase::Frame, Request::ReceiveFrame),
            StreamState::Closed => self.fail(PullError::EndOfStream),
        }
    }

    /// Takes the answer to the request under way and says how the pull goes
    /// on. A frame is delivered only if it is a frame of the negotiated
    /// output.
    pub fn resume(&mut self, reply: Reply) -> (pull: Pull)
        ensures
            (final(self)@, pull@) == old(self)@.resume(reply@),
            final(self)@.wf(),
            pull matches Pull::Done(Ok(frame)) ==> {
                &&& frame@.wf()
                &&& frame@.format == old(self)@.output.format
                &&& frame@.width == old(self)@.output.width
                &&& frame@.height == old(self)@.output.height
                &&& frame@.data.len() >= frame@.packed_len()
            },
    {
        proof {
            use_type_invariant(&*self);
        }
        if self.state == StreamState::Closed {
            return self.pull_frame();
        }
        match self.phase {
            Phase::Idle => self.pull_frame(),
            Phase::Packet => match reply {
                Reply::Packet { stream } => {
                    if stream == self.video_stream {
                        self.ask(Phase::Send, Request::SendPacket)
                    } else {
                        self.ask(Phase::Packet, Request::ReadPacket)
                    }
                },
                Reply::NoMorePackets => {
                    *self = CameraStream {
                        state: StreamState::Draining,
                        phase: Phase::Eof,
                        output: self.output,
                        video_stream: self.video_stream,
                        delivered: self.delivered,
                    };
                    Pull::Need(Request::SendEof)
                },
                _ => self.fail(PullError::IoError),
            },
            Phase::Send | Phase::Eof => match reply {
                Reply::Sent => self.ask(Phase::Frame, Request::ReceiveFrame),
                _ => self.fail(PullError::DecodeError),
            },
            Phase::Frame => match reply {
                Reply::Decoded => self.ask(Phase::Convert, Request::Convert { output: self.output }),
                Reply::NotReady => self.fail(PullError::Again),
                Reply::Drained => {
                    if self.state == StreamState::Draining {
                        *self = CameraStream {
                            state: StreamState::Closed,
                            phase: Phase::Idle,
                            output: self.output,
                            video_stream: self.video_stream,
                            delivered: self.delivered,
                        };
                        Pull::Done(Err(PullError::EndOfStream))
                    } else {
                        self.fail(PullError::DecodeError)
                    }
                },
                _ => self.fail(PullError::DecodeError),
            },
            Phase::Convert => match reply {
                Reply::Converted(raw) => match self.accept(raw) {
                    Some(frame) => {
                        let delivered = if self.delivered < u64::MAX {
                            self.delivered + 1
                        } else {
                            self.delivered
                        };
                        *self = CameraStream {
                            state: self.state,
                            phase: Phase::Idle,
                            output: self.output,
                            video_stream: self.video_stream,
                            delivered,
                        };
                        proof {
                            crate::frame::lemma_plane_holds_all_pixels(frame@);
                        }
                        Pull::Done(Ok(frame))
                    },
                    None => self.fail(PullError::ConversionError),
                },
                _ => self.fail(PullError::ConversionError),
            },
        }
    }
}

} // verus!
