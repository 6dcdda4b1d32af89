//! Runs of the pull protocol: what holds of every sequence of calls.

use vstd::prelude::*;
use crate::camera::{Phase, PullError, PullView, ReplyView, Request, StreamState, StreamView};
use crate::pixel::PixelFormat;

verus! {

/// One call on a stream.
pub enum Call {
    /// `pull_frame`.
    Begin,
    /// `resume` with the given reply.
    Resume(ReplyView),
}

impl StreamView {
    /// The stream after one call, and what the call returned.
    pub open spec fn step(self, call: Call) -> (StreamView, PullView) {
        match call {
            Call::Begin => self.begin(),
            Call::Resume(reply) => self.resume(reply),
        }
    }

    /// The stream after a sequence of calls.
    pub open spec fn run(self, calls: Seq<Call>) -> StreamView
        decreases calls.len(),
    {
        if calls.len() == 0 {
            self
        } else {
            self.step(calls.first()).0.run(calls.drop_first())
        }
    }

    /// What each call of a sequence returned.
    pub open spec fn results(self, calls: Seq<Call>) -> Seq<PullView>
        decreases calls.len(),
    {
        if calls.len() == 0 {
            Seq::empty()
        } else {
            seq![self.step(calls.first()).1] + self.step(calls.first()).0.results(
                calls.drop_first(),
            )
        }
    }

    /// The number of frames that had been delivered before each call of a
    /// sequence: the ordinal of the frame that the call delivers, if it
    /// delivers one.
    pub open spec fn ordinals(self, calls: Seq<Call>) -> Seq<nat>
        decreases calls.len(),
    {
        if calls.len() == 0 {
            Seq::empty()
        } else {
            seq![self.delivered] + self.step(calls.first()).0.ordinals(calls.drop_first())
        }
    }

    /// How often a sequence of calls made the stream ask for the
    /// end-of-input mark to be sent.
    pub open spec fn eof_requests(self, calls: Seq<Call>) -> nat
        decreases calls.len(),
    {
        if calls.len() == 0 {
            0
        } else {
            let (next, pull) = self.step(calls.first());
            let rest = next.eof_requests(calls.drop_first());
            if pull == PullView::Need(Request::SendEof) {
                rest + 1
            } else {
                rest
            }
        }
    }
}

/// The end of the stream, as a pull reports it.
pub open spec fn end_of_stream() -> PullView {
    PullView::Done(Err(PullError::EndOfStream))
}

/// Whether a pull delivered a frame.
pub open spec fn delivers(pull: PullView) -> bool {
    pull matches PullView::Done(Ok(_))
}

/// A call keeps the stream invariant, the negotiated output and the video
/// stream, and never moves a stream back: open, then draining, then closed.
pub proof fn lemma_step_keeps_invariant(s: StreamView, call: Call)
    requires
        s.wf(),
    ensures
        s.step(call).0.wf(),
        s.step(call).0.output == s.output,
        s.step(call).0.video_stream == s.video_stream,
        s.state == StreamState::Draining ==> s.step(call).0.state != StreamState::Open,
        s.state == StreamState::Closed ==> s.step(call).0.state == StreamState::Closed,
{
}

/// Every frame that a call delivers satisfies the frame invariant, so its
/// width and height are positive, and has the format, the width and the
/// height that were negotiated. Its plane holds at least bytes-per-pixel
/// times width times height bytes: for `Rgb24`, three bytes per pixel.
pub proof fn lemma_delivered_frame_is_negotiated(s: StreamView, call: Call)
    ensures
        s.step(call).1 matches PullView::Done(Ok(frame)) ==> {
            &&& frame.wf()
            &&& frame.width > 0
            &&& frame.height > 0
            &&& frame.width == s.output.width
            &&& frame.height == s.output.height
            &&& frame.format == s.output.format
            &&& frame.data.len() >= frame.packed_len()
            &&& frame.format == PixelFormat::Rgb24 ==> frame.data.len() >= frame.width
                * frame.height * 3
        },
{
    if let PullView::Done(Ok(frame)) = s.step(call).1 {
        crate::frame::lemma_plane_holds_all_pixels(frame);
    }
}

/// A call that delivers a frame raises the count of delivered frames by one
/// (unless the count has reached `u64::MAX`); any other call leaves it as it
/// is.
pub proof fn lemma_step_counts_deliveries(s: StreamView, call: Call)
    ensures
        delivers(s.step(call).1) ==> s.step(call).0.delivered == s.counted(),
        !delivers(s.step(call).1) ==> s.step(call).0.delivered == s.delivered,
        s.step(call).0.delivered >= s.delivered,
{
}

/// A call that reports the end of the stream leaves the stream closed, and
/// a closed stream reports the end of the stream on every call.
pub proof fn lemma_end_of_stream_closes(s: StreamView, call: Call)
    ensures
        s.step(call).1 == end_of_stream() ==> s.step(call).0.state == StreamState::Closed,
        s.state == StreamState::Closed ==> s.step(call).1 == end_of_stream() && s.step(
            call,
        ).0.state == StreamState::Closed,
{
}

/// The sequences that describe a run have one entry for each call.
pub proof fn lemma_run_lengths(s: StreamView, calls: Seq<Call>)
    ensures
        s.results(calls).len() == calls.len(),
        s.ordinals(calls).len() == calls.len(),
    decreases calls.len(),
{
    if calls.len() > 0 {
        lemma_run_lengths(s.step(calls.first()).0, calls.drop_first());
    }
}

/// On a closed stream every call of a sequence reports the end of the
/// stream.
pub proof fn lemma_closed_stream_only_ends(s: StreamView, calls: Seq<Call>, j: int)
    requires
        s.state == StreamState::Closed,
        0 <= j < calls.len(),
    ensures
        s.results(calls)[j] == end_of_stream(),
    decreases calls.len(),
{
    lemma_end_of_stream_closes(s, calls.first());
    lemma_run_lengths(s.step(calls.first()).0, calls.drop_first());
    if j > 0 {
        lemma_closed_stream_only_ends(s.step(calls.first()).0, calls.drop_first(), j - 1);
    }
}

/// Once a call has reported the end of the stream, every later call reports
/// it too.
pub proof fn lemma_end_of_stream_is_terminal(s: StreamView, calls: Seq<Call>, i: int, j: int)
    requires
        0 <= i < j < calls.len(),
        s.results(calls)[i] == end_of_stream(),
    ensures
        s.results(calls)[j] == end_of_stream(),
    decreases calls.len(),
{
    let next = s.step(calls.first()).0;
    let rest = calls.drop_first();
    lemma_run_lengths(next, rest);
    if i == 0 {
        lemma_end_of_stream_closes(s, calls.first());
        lemma_closed_stream_only_ends(next, rest, j - 1);
    } else {
        lemma_end_of_stream_is_terminal(next, rest, i - 1, j - 1);
    }
}

/// Frames leave the stream in the order of their ordinals: of two calls,
/// the later one never has the smaller ordinal, and if the earlier one
/// delivered a frame while the count was below `u64::MAX`, the later one
/// has a larger ordinal.
pub proof fn lemma_ordinals_increase(s: StreamView, calls: Seq<Call>, i: int, j: int)
    requires
        0 <= i < j < calls.len(),
    ensures
        s.ordinals(calls)[i] <= s.ordinals(calls)[j],
        delivers(s.results(calls)[i]) && s.ordinals(calls)[i] < u64::MAX ==> s.ordinals(calls)[i]
            < s.ordinals(calls)[j],
    decreases calls.len(),
{
    let next = s.step(calls.first()).0;
    let rest = calls.drop_first();
    lemma_run_lengths(next, rest);
    lemma_step_counts_deliveries(s, calls.first());
    if i == 0 {
        if j > 1 {
            lemma_ordinals_increase(next, rest, 0, j - 1);
        }
    } else {
        lemma_ordinals_increase(next, rest, i - 1, j - 1);
    }
}

/// Only an open stream ever asks for the end-of-input mark to be sent.
pub proof fn lemma_no_eof_after_open(s: StreamView, calls: Seq<Call>)
    requires
        s.wf(),
        s.state != StreamState::Open,
    ensures
        s.eof_requests(calls) == 0,
    decreases calls.len(),
{
    if calls.len() > 0 {
        lemma_step_keeps_invariant(s, calls.first());
        lemma_no_eof_after_open(s.step(calls.first()).0, calls.drop_first());
    }
}

/// Whatever the calls, a stream asks at most once for the end-of-input mark
/// to be sent.
pub proof fn lemma_eof_sent_at_most_once(s: StreamView, calls: Seq<Call>)
    requires
        s.wf(),
    ensures
        s.eof_requests(calls) <= 1,
    decreases calls.len(),
{
    if calls.len() > 0 {
        let (next, pull) = s.step(calls.first());
        lemma_step_keeps_invariant(s, calls.first());
        if pull == PullView::Need(Request::SendEof) {
            lemma_no_eof_after_open(next, calls.drop_first());
        } else {
            lemma_eof_sent_at_most_once(next, calls.drop_first());
        }
    }
}

/// The calls of a pull on a device that has no packet at all.
pub open spec fn zero_packet_calls() -> Seq<Call> {
    seq![
        Call::Begin,
        Call::Resume(ReplyView::NoMorePackets),
        Call::Resume(ReplyView::Sent),
        Call::Resume(ReplyView::Drained),
    ]
}

/// On a device without packets an open stream goes to draining with the
/// one request to send the end-of-input mark, then to closed, and the pull
/// reports the end of the stream.
pub proof fn lemma_zero_packet_stream_closes(s: StreamView)
    requires
        s.wf(),
        s.state == StreamState::Open,
    ensures
        s.results(zero_packet_calls()) == seq![
            PullView::Need(Request::ReadPacket),
            PullView::Need(Request::SendEof),
            PullView::Need(Request::ReceiveFrame),
            end_of_stream(),
        ],
        s.run(zero_packet_calls().take(1)).state == StreamState::Open,
        s.run(zero_packet_calls().take(2)).state == StreamState::Draining,
        s.run(zero_packet_calls().take(3)).state == StreamState::Draining,
        s.run(zero_packet_calls()).state == StreamState::Closed,
        s.eof_requests(zero_packet_calls()) == 1,
{
    let calls = zero_packet_calls();
    let s1 = s.step(calls[0]).0;
    let s2 = s1.step(calls[1]).0;
    let s3 = s2.step(calls[2]).0;
    let c1 = calls.drop_first();
    let c2 = c1.drop_first();
    let c3 = c2.drop_first();
    assert(c1.first() == calls[1] && c2.first() == calls[2] && c3.first() == calls[3]);
    assert(c3.drop_first().len() == 0);
    reveal_with_fuel(StreamView::results, 5);
    reveal_with_fuel(StreamView::eof_requests, 5);
    reveal_with_fuel(StreamView::run, 5);
    assert(s.results(calls) =~= seq![
        PullView::Need(Request::ReadPacket),
        PullView::Need(Request::SendEof),
        PullView::Need(Request::ReceiveFrame),
        end_of_stream(),
    ]);
    assert(s.run(calls.take(1)) == s1) by {
        assert(calls.take(1).first() == calls[0]);
        assert(calls.take(1).drop_first().len() == 0);
    }
    assert(s.run(calls.take(2)) == s2) by {
        let t = calls.take(2).drop_first();
        assert(calls.take(2).first() == calls[0] && t.first() == calls[1]);
        assert(t.drop_first().len() == 0);
    }
    assert(s.run(calls.take(3)) == s3) by {
        let t = calls.take(3).drop_first();
        let u = t.drop_first();
        assert(calls.take(3).first() == calls[0] && t.first() == calls[1] && u.first()
            == calls[2]);
        assert(u.drop_first().len() == 0);
    }
}

/// The state before call `k` of a run is the state after its first `k` calls.
pub proof fn lemma_run_prefix(s: StreamView, calls: Seq<Call>, k: int)
    requires
        0 <= k < calls.len(),
    ensures
        s.ordinals(calls)[k] == s.run(calls.take(k)).delivered,
        s.results(calls)[k] == s.run(calls.take(k)).step(calls[k]).1,
    decreases calls.len(),
{
    let next = s.step(calls.first()).0;
    let rest = calls.drop_first();
    lemma_run_lengths(next, rest);
    if k == 0 {
        assert(calls.take(0).len() == 0);
    } else {
        lemma_run_prefix(next, rest, k - 1);
        assert(calls.take(k).first() == calls.first());
        assert(calls.take(k).drop_first() =~= rest.take(k - 1));
    }
}

} // verus!
