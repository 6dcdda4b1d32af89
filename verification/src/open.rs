//! Opening a camera.
//!
//! Opening is a dialogue like pulling: a [`CameraOpener`] names the
//! operation that a driver has to perform on the multimedia toolkit, takes
//! what it gave, and ends with a [`CameraStream`] or with the reason why
//! there is none. The order is fixed: find the platform's capture backend,
//! open the device, find the first video stream, build its decoder, build
//! the pixel converter.

use vstd::prelude::*;
use crate::camera::{CameraStream, OutputSpec, StreamView};
use crate::options::{texts, OpenOptions, OpenOptionsView};
use crate::text::{same_text, single_line};

verus! {

/// The platform a program runs on.
#[derive(Clone, Copy, Debug, PartialEq, Eq, Structural)]
pub enum Platform {
    MacOs,
    Linux,
    /// A platform whose capture backend this library does not know.
    Other,
}

impl Platform {
    /// The toolkit's name of the platform's capture backend.
    pub open spec fn spec_backend_name(self) -> Option<Seq<char>> {
        match self {
            Platform::MacOs => Some("avfoundation"@),
            Platform::Linux => Some("video4linux2,v4l2"@),
            Platform::Other => None,
        }
    }

    /// The toolkit's name of the platform's capture backend.
    pub fn backend_name(self) -> (name: Option<&'static str>)
        ensures
            match name {
                Some(text) => self.spec_backend_name() == Some(text@),
                None => self.spec_backend_name().is_none(),
            },
    {
        match self {
            Platform::MacOs => Some("avfoundation"),
            Platform::Linux => Some("video4linux2,v4l2"),
            Platform::Other => None,
        }
    }
}

/// Why a camera could not be opened.
#[derive(Clone, Copy, Debug, PartialEq, Eq, Structural)]
pub enum OpenError {
    /// The platform has no capture backend that this library knows.
    Unsupported,
    /// The toolkit does not offer the platform's capture backend.
    BackendMissing,
    /// The device could not be opened.
    DeviceOpenFailed,
    /// The device has no video stream.
    NoVideoStream,
    /// No decoder could be built for the video stream.
    UnsupportedCodec,
    /// No converter to the requested output could be built.
    ConverterInitFailed,
}

impl OpenError {
    /// One line that says what went wrong.
    pub open spec fn spec_message(self) -> Seq<char> {
        match self {
            OpenError::Unsupported => "no capture backend is known for this platform"@,
            OpenError::BackendMissing => "the capture backend is missing"@,
            OpenError::DeviceOpenFailed => "the device could not be opened"@,
            OpenError::NoVideoStream => "the device has no video stream"@,
            OpenError::UnsupportedCodec => "the codec of the video stream is not supported"@,
            OpenError::ConverterInitFailed => "the pixel converter could not be set up"@,
        }
    }

    /// One line that says what went wrong.
    pub fn message(self) -> (text: &'static str)
        ensures
            text@ == self.spec_message(),
    {
        match self {
            OpenError::Unsupported => "no capture backend is known for this platform",
            OpenError::BackendMissing => "the capture backend is missing",
            OpenError::DeviceOpenFailed => "the device could not be opened",
            OpenError::NoVideoStream => "the device has no video stream",
            OpenError::UnsupportedCodec => "the codec of the video stream is not supported",
            OpenError::ConverterInitFailed => "the pixel converter could not be set up",
        }
    }
}

/// The message of every error is a single line.
pub proof fn lemma_open_messages_are_single_lines(error: OpenError)
    ensures
        single_line(error.spec_message()),
{
    reveal_strlit("no capture backend is known for this platform");
    reveal_strlit("the capture backend is missing");
    reveal_strlit("the device could not be opened");
    reveal_strlit("the device has no video stream");
    reveal_strlit("the codec of the video stream is not supported");
    reveal_strlit("the pixel converter could not be set up");
}

/// What a stream of a device carries.
#[derive(Clone, Copy, Debug, PartialEq, Eq, Structural)]
pub enum StreamKind {
    Video,
    Audio,
    Other,
}

/// An operation the driver performs for the opener.
#[derive(Debug)]
pub enum OpenRequest {
    /// Initialise the toolkit, unless the process has done so before, and
    /// list the names of its video input backends.
    ListBackends,
    /// Open the device with the backend at the given place of the list.
    OpenDevice { backend: usize, device: String, options: Vec<(String, String)> },
    /// List what each stream of the device carries.
    ListStreams,
    /// Build the decoder of the stream at the given place of the list.
    BuildDecoder { stream: usize },
    /// Build a converter from what the decoder delivers to the given output,
    /// with bilinear scaling.
    BuildConverter { output: OutputSpec },
}

/// The model of an [`OpenRequest`].
pub enum OpenRequestView {
    ListBackends,
    OpenDevice { backend: nat, device: Seq<char>, options: Seq<(Seq<char>, Seq<char>)> },
    ListStreams,
    BuildDecoder { stream: nat },
    BuildConverter { output: OutputSpec },
}

impl View for OpenRequest {
    type V = OpenRequestView;

    open spec fn view(&self) -> OpenRequestView {
        match self {
            OpenRequest::ListBackends => OpenRequestView::ListBackends,
            OpenRequest::OpenDevice { backend, device, options } => OpenRequestView::OpenDevice {
                backend: *backend as nat,
                device: device@,
                options: texts(options@),
            },
            OpenRequest::ListStreams => OpenRequestView::ListStreams,
            OpenRequest::BuildDecoder { stream } => OpenRequestView::BuildDecoder {
                stream: *stream as nat,
            },
            OpenRequest::BuildConverter { output } => OpenRequestView::BuildConverter {
                output: *output,
            },
        }
    }
}

/// What an operation gave.
#[derive(Debug)]
pub enum OpenReply {
    /// The names of the video input backends, in the toolkit's order.
    Backends(Vec<String>),
    /// The device is open.
    DeviceOpened,
    /// What each stream of the device carries, in the device's order.
    Streams(Vec<StreamKind>),
    /// The decoder is built and delivers pictures of this size.
    DecoderBuilt { width: u32, height: u32 },
    /// The converter is built.
    ConverterBuilt,
    /// The operation failed.
    Failed,
}

/// The texts of a list of names.
pub open spec fn names(list: Seq<String>) -> Seq<Seq<char>> {
    list.map_values(|name: String| name@)
}

/// The model of an [`OpenReply`].
pub enum OpenReplyView {
    Backends(Seq<Seq<char>>),
    DeviceOpened,
    Streams(Seq<StreamKind>),
    DecoderBuilt { width: nat, height: nat },
    ConverterBuilt,
    Failed,
}

impl View for OpenReply {
    type V = OpenReplyView;

    open spec fn view(&self) -> OpenReplyView {
        match self {
            OpenReply::Backends(list) => OpenReplyView::Backends(names(list@)),
            OpenReply::DeviceOpened => OpenReplyView::DeviceOpened,
            OpenReply::Streams(kinds) => OpenReplyView::Streams(kinds@),
            OpenReply::DecoderBuilt { width, height } => OpenReplyView::DecoderBuilt {
                width: *width as nat,
                height: *height as nat,
            },
            OpenReply::ConverterBuilt => OpenReplyView::ConverterBuilt,
            OpenReply::Failed => OpenReplyView::Failed,
        }
    }
}

/// How the opening goes on.
#[derive(Debug)]
pub enum Opening {
    /// The driver performs the request and calls `resume` with what it gave.
    Need(OpenRequest),
    /// The camera is open.
    Ready(CameraStream),
    /// The camera could not be opened.
    Failed(OpenError),
}

/// The model of an [`Opening`].
pub enum OpeningView {
    Need(OpenRequestView),
    Ready(StreamView),
    Failed(OpenError),
}

impl View for Opening {
    type V = OpeningView;

    open spec fn view(&self) -> OpeningView {
        match self {
            Opening::Need(request) => OpeningView::Need(request@),
            Opening::Ready(stream) => OpeningView::Ready(stream@),
            Opening::Failed(error) => OpeningView::Failed(*error),
        }
    }
}

/// The request whose answer an opener is waiting for.
#[derive(Clone, Copy, Debug, PartialEq, Eq, Structural)]
pub enum OpenPhase {
    /// No opening is under way.
    Idle,
    /// Waiting for the answer to `ListBackends`.
    Backends,
    /// Waiting for the answer to `OpenDevice`.
    Device,
    /// Waiting for the answer to `ListStreams`.
    Streams,
    /// Waiting for the answer to `BuildDecoder` for this stream.
    Decoder { stream: usize },
    /// Waiting for the answer to `BuildConverter` with this output, for this
    /// stream.
    Converter { stream: usize, output: OutputSpec },
}

/// The model of a [`CameraOpener`].
pub struct OpenerView {
    pub platform: Platform,
    pub options: OpenOptionsView,
    pub phase: OpenPhase,
}

impl OpenerView {
    /// The invariant of every opener: a converter is only ever asked for
    /// the requested format and a picture that is not empty.
    pub open spec fn wf(self) -> bool {
        self.phase matches OpenPhase::Converter { output, .. } ==> {
            &&& output.format == self.options.pixel_format
            &&& output.width > 0
            &&& output.height > 0
        }
    }

    /// An opener before its first call.
    pub open spec fn start(options: OpenOptionsView, platform: Platform) -> OpenerView {
        OpenerView { platform, options, phase: OpenPhase::Idle }
    }

    /// The opener asks for `request` and waits in `phase`.
    pub open spec fn ask(self, phase: OpenPhase, request: OpenRequestView) -> (
        OpenerView,
        OpeningView,
    ) {
        (OpenerView { phase, ..self }, OpeningView::Need(request))
    }

    /// The opening ends without a stream.
    pub open spec fn fail(self, error: OpenError) -> (OpenerView, OpeningView) {
        (OpenerView { phase: OpenPhase::Idle, ..self }, OpeningView::Failed(error))
    }

    /// Starts an opening, giving up one that is under way. On a platform
    /// without a known capture backend it fails at once; on the others the
    /// toolkit's backends are listed first.
    pub open spec fn begin(self) -> (OpenerView, OpeningView) {
        match self.platform.spec_backend_name() {
            Some(_) => self.ask(OpenPhase::Backends, OpenRequestView::ListBackends),
            None => self.fail(OpenError::Unsupported),
        }
    }

    /// The step after the backends were listed: open the device with the
    /// first backend that carries the platform's name, if there is one.
    pub open spec fn choose_backend(self, list: Seq<Seq<char>>) -> (OpenerView, OpeningView) {
        match self.platform.spec_backend_name() {
            Some(name) => match list.index_of_first(name) {
                Some(backend) => self.ask(
                    OpenPhase::Device,
                    OpenRequestView::OpenDevice {
                        backend: backend as nat,
                        device: self.options.device_selector,
                        options: self.options.dictionary(),
                    },
                ),
                None => self.fail(OpenError::BackendMissing),
            },
            None => self.fail(OpenError::Unsupported),
        }
    }

    /// The step after the streams were listed: build the decoder of the
    /// first video stream, if there is one.
    pub open spec fn choose_stream(self, kinds: Seq<StreamKind>) -> (OpenerView, OpeningView) {
        match kinds.index_of_first(StreamKind::Video) {
            Some(stream) => if stream <= usize::MAX {
                self.ask(
                    OpenPhase::Decoder { stream: stream as usize },
                    OpenRequestView::BuildDecoder { stream: stream as nat },
                )
            } else {
                self.fail(OpenError::NoVideoStream)
            },
            None => self.fail(OpenError::NoVideoStream),
        }
    }

    /// The step after the decoder was built: ask for a converter to the
    /// requested format at the decoder's size. No converter exists for an
    /// empty picture.
    pub open spec fn negotiate(self, stream: usize, width: nat, height: nat) -> (
        OpenerView,
        OpeningView,
    ) {
        if 0 < width <= u32::MAX && 0 < height <= u32::MAX {
            let output = OutputSpec {
                format: self.options.pixel_format,
                width: width as u32,
                height: height as u32,
            };
            self.ask(
                OpenPhase::Converter { stream, output },
                OpenRequestView::BuildConverter { output },
            )
        } else {
            self.fail(OpenError::ConverterInitFailed)
        }
    }

    /// Continues an opening with the answer to the request under way. An
    /// answer that does not belong to the request counts as the request
    /// having failed. Where no request is under way, the answer is dropped
    /// and an opening begins.
    pub open spec fn resume(self, reply: OpenReplyView) -> (OpenerView, OpeningView) {
        match self.phase {
            OpenPhase::Idle => self.begin(),
            OpenPhase::Backends => match reply {
                OpenReplyView::Backends(list) => self.choose_backend(list),
                _ => self.fail(OpenError::BackendMissing),
            },
            OpenPhase::Device => match reply {
                OpenReplyView::DeviceOpened => self.ask(
                    OpenPhase::Streams,
                    OpenRequestView::ListStreams,
                ),
                _ => self.fail(OpenError::DeviceOpenFailed),
            },
            OpenPhase::Streams => match reply {
                OpenReplyView::Streams(kinds) => self.choose_stream(kinds),
                _ => self.fail(OpenError::NoVideoStream),
            },
            OpenPhase::Decoder { stream } => match reply {
                OpenReplyView::DecoderBuilt { width, height } => self.negotiate(
                    stream,
                    width,
                    height,
                ),
                _ => self.fail(OpenError::UnsupportedCodec),
            },
            OpenPhase::Converter { stream, output } => match reply {
                OpenReplyView::ConverterBuilt => (
                    OpenerView { phase: OpenPhase::Idle, ..self },
                    OpeningView::Ready(StreamView::fresh(output, stream as nat)),
                ),
                _ => self.fail(OpenError::ConverterInitFailed),
            },
        }
    }
}

/// The place of the first name in `list` that reads `name`.
fn find_name(list: &Vec<String>, name: &str) -> (place: Option<usize>)
    ensures
        match place {
            Some(i) => names(list@).index_of_first(name@) == Some(i as int),
            None => names(list@).index_of_first(name@).is_none(),
        },
{
    let ghost texts = names(list@);
    let mut i: usize = 0;
    while i < list.len()
        invariant
            i <= list.len(),
            texts == names(list@),
            forall|j: int| 0 <= j < i ==> texts[j] != name@,
        decreases list.len() - i,
    {
        if same_text(list[i].as_str(), name) {
            proof {
                assert(texts[i as int] == name@);
                texts.index_of_first_ensures(name@);
            }
            return Some(i);
        }
        i = i + 1;
    }
    proof {
        assert(!texts.contains(name@));
        texts.index_of_first_ensures(name@);
    }
    None
}

/// The place of the first video stream in `kinds`.
fn find_video(kinds: &Vec<StreamKind>) -> (place: Option<usize>)
    ensures
        match place {
            Some(i) => kinds@.index_of_first(StreamKind::Video) == Some(i as int),
            None => kinds@.index_of_first(StreamKind::Video).is_none(),
        },
{
    let mut i: usize = 0;
    while i < kinds.len()
        invariant
            i <= kinds.len(),
            forall|j: int| 0 <= j < i ==> kinds@[j] != StreamKind::Video,
        decreases kinds.len() - i,
    {
        if kinds[i] == StreamKind::Video {
            proof {
                kinds@.index_of_first_ensures(StreamKind::Video);
            }
            return Some(i);
        }
        i = i + 1;
    }
    proof {
        assert(!kinds@.contains(StreamKind::Video));
        kinds@.index_of_first_ensures(StreamKind::Video);
    }
    None
}

/// Opens a camera step by step.
#[derive(Debug)]
pub struct CameraOpener {
    platform: Platform,
    options: OpenOptions,
    phase: OpenPhase,
}

impl View for CameraOpener {
    type V = OpenerView;

    closed spec fn view(&self) -> OpenerView {
        OpenerView { platform: self.platform, options: self.options@, phase: self.phase }
    }
}

impl CameraOpener {
    #[verifier::type_invariant]
    spec fn inv(self) -> bool {
        self@.wf()
    }

    fn ask(&mut self, phase: OpenPhase, request: OpenRequest) -> (opening: Opening)
        requires
            old(self)@.ask(phase, request@).0.wf(),
        ensures
            (final(self)@, opening@) == old(self)@.ask(phase, request@),
    {
        self.phase = phase;
        Opening::Need(request)
    }

    fn fail(&mut self, error: OpenError) -> (opening: Opening)
        ensures
            (final(self)@, opening@) == old(self)@.fail(error),
    {
        self.phase = OpenPhase::Idle;
        Opening::Failed(error)
    }

    /// Starts an opening and says what the driver has to do first.
    pub fn begin(&mut self) -> (opening: Opening)
        ensures
            (final(self)@, opening@) == old(self)@.begin(),
            final(self)@.wf(),
    {
        match self.platform.backend_name() {
            Some(_) => self.ask(OpenPhase::Backends, OpenRequest::ListBackends),
            None => self.fail(OpenError::Unsupported),
        }
    }

    fn choose_backend(&mut self, list: &Vec<String>) -> (opening: Opening)
        ensures
            (final(self)@, opening@) == old(self)@.choose_backend(names(list@)),
            final(self)@.wf(),
    {
        match self.platform.backend_name() {
            Some(name) => match find_name(list, name) {
                Some(backend) => {
                    let device = self.options.device_selector.clone();
                    let options = self.options.dictionary();
                    self.ask(OpenPhase::Device, OpenRequest::OpenDevice { backend, device, options })
                },
                None => self.fail(OpenError::BackendMissing),
            },
            None => self.fail(OpenError::Unsupported),
        }
    }

    fn choose_stream(&mut self, kinds: &Vec<StreamKind>) -> (opening: Opening)
        ensures
            (final(self)@, opening@) == old(self)@.choose_stream(kinds@),
            final(self)@.wf(),
    {
        match find_video(kinds) {
            Some(stream) => self.ask(
                OpenPhase::Decoder { stream },
                OpenRequest::BuildDecoder { stream },
            ),
            None => self.fail(OpenError::NoVideoStream),
        }
    }

    fn negotiate(&mut self, stream: usize, width: u32, height: u32) -> (opening: Opening)
        ensures
            (final(self)@, opening@) == old(self)@.negotiate(stream, width as nat, height as nat),
            final(self)@.wf(),
    {
        if width > 0 && height > 0 {
            let output = OutputSpec { format: self.options.pixel_format, width, height };
            self.ask(
                OpenPhase::Converter { stream, output },
                OpenRequest::BuildConverter { output },
            )
        } else {
            self.fail(OpenError::ConverterInitFailed)
        }
    }

    /// Takes the answer to the request under way and says how the opening
    /// goes on.
    pub fn resume(&mut self, reply: OpenReply) -> (opening: Opening)
        ensures
            (final(self)@, opening@) == old(self)@.resume(reply@),
            final(self)@.wf(),
    {
        proof {
            use_type_invariant(&*self);
        }
        match self.phase {
            OpenPhase::Idle => self.begin(),
            OpenPhase::Backends => match reply {
                OpenReply::Backends(list) => self.choose_backend(&list),
                _ => self.fail(OpenError::BackendMissing),
            },
            OpenPhase::Device => match reply {
                OpenReply::DeviceOpened => self.ask(OpenPhase::Streams, OpenRequest::ListStreams),
                _ => self.fail(OpenError::DeviceOpenFailed),
            },
            OpenPhase::Streams => match reply {
                OpenReply::Streams(kinds) => self.choose_stream(&kinds),
                _ => self.fail(OpenError::NoVideoStream),
            },
            OpenPhase::Decoder { stream } => match reply {
                OpenReply::DecoderBuilt { width, height } => self.negotiate(stream, width, height),
                _ => self.fail(OpenError::UnsupportedCodec),
            },
            OpenPhase::Converter { stream, output } => match reply {
                OpenReply::ConverterBuilt => {
                    self.phase = OpenPhase::Idle;
                    Opening::Ready(CameraStream::opened(output, stream))
                },
                _ => self.fail(OpenError::ConverterInitFailed),
            },
        }
    }
}

/// An opener for a camera with the given options.
pub fn open_camera(options: OpenOptions, platform: Platform) -> (opener: CameraOpener)
    ensures
        opener@ == OpenerView::start(options@, platform),
{
    CameraOpener { platform, options, phase: OpenPhase::Idle }
}

/// An opener for the default camera with the standard options.
pub fn load_camera_stream(platform: Platform) -> (opener: CameraOpener)
    ensures
        opener@ == OpenerView::start(OpenOptionsView::standard(), platform),
{
    open_camera(OpenOptions::default(), platform)
}

/// A call keeps the opener's invariant, its options and its platform.
pub proof fn lemma_opener_keeps_invariant(s: OpenerView, reply: OpenReplyView)
    requires
        s.wf(),
    ensures
        s.begin().0.wf(),
        s.resume(reply).0.wf(),
        s.resume(reply).0.options == s.options,
        s.resume(reply).0.platform == s.platform,
{
}

/// A stream that an opener hands out is freshly opened: no frame has been
/// delivered, the negotiated picture is not empty, and the output has the
/// format that the options ask for.
pub proof fn lemma_opened_stream_honours_options(s: OpenerView, reply: OpenReplyView)
    requires
        s.wf(),
    ensures
        s.resume(reply).1 matches OpeningView::Ready(stream) ==> {
            &&& stream.wf()
            &&& stream == StreamView::fresh(stream.output, stream.video_stream)
            &&& stream.output.format == s.options.pixel_format
        },
{
}

/// A device is only ever opened by the name the options select, with
/// exactly the dictionary of the options, and through a backend that the
/// toolkit listed under the platform's name.
pub proof fn lemma_device_opened_as_asked(s: OpenerView, reply: OpenReplyView)
    ensures
        s.resume(reply).1 matches OpeningView::Need(
            OpenRequestView::OpenDevice { backend, device, options },
        ) ==> {
            &&& device == s.options.device_selector
            &&& options == s.options.dictionary()
            &&& reply matches OpenReplyView::Backends(list)
            &&& backend < list.len()
            &&& Some(list[backend as int]) == s.platform.spec_backend_name()
        },
{
    if let OpenReplyView::Backends(list) = reply {
        if let Some(name) = s.platform.spec_backend_name() {
            list.index_of_first_ensures(name);
        }
    }
}

/// Where the toolkit does not list the platform's backend, the opening
/// fails with `BackendMissing` and nothing is asked of a device.
pub proof fn lemma_missing_backend_fails(s: OpenerView, list: Seq<Seq<char>>)
    requires
        s.phase == OpenPhase::Backends,
        s.platform.spec_backend_name() matches Some(name) && !list.contains(name),
    ensures
        s.resume(OpenReplyView::Backends(list)).1 == OpeningView::Failed(OpenError::BackendMissing),
        s.resume(OpenReplyView::Backends(list)).0.phase == OpenPhase::Idle,
{
    list.index_of_first_ensures(s.platform.spec_backend_name().unwrap());
}

} // verus!
