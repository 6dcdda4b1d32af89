//! The bridge between a capture worker and a repaint-driven window.
//!
//! The worker owns the camera stream and sends one handle per frame over a
//! channel; the window takes what has arrived at every repaint and shows the
//! newest. Both sides only decide here: the thread, the channel and the
//! upload belong to the program that drives them.

use vstd::prelude::*;
use crate::camera::{lemma_pull_messages_are_single_lines, PullError};
use crate::frame::{Frame, FrameView};
use crate::text::single_line;

verus! {

/// What the worker does next.
#[derive(Debug)]
pub enum WorkerAction {
    /// Pull the next frame.
    Pull,
    /// Upload the frame, send the handle on the channel, ask the window to
    /// repaint, and report whether the handle could be sent.
    Deliver(Frame),
    /// Print the line to standard error and end the thread.
    Exit { log: &'static str },
}

/// The model of a [`WorkerAction`].
pub enum WorkerActionView {
    Pull,
    Deliver(FrameView),
    Exit { log: Seq<char> },
}

impl View for WorkerAction {
    type V = WorkerActionView;

    open spec fn view(&self) -> WorkerActionView {
        match self {
            WorkerAction::Pull => WorkerActionView::Pull,
            WorkerAction::Deliver(frame) => WorkerActionView::Deliver(frame@),
            WorkerAction::Exit { log } => WorkerActionView::Exit { log: log@ },
        }
    }
}

/// Why the worker ends when a handle cannot be sent.
pub open spec fn channel_closed_message() -> Seq<char> {
    "the window no longer takes frames"@
}

/// Every line that a worker logs is a single line.
pub proof fn lemma_worker_messages_are_single_lines(error: PullError)
    ensures
        single_line(channel_closed_message()),
        single_line(error.spec_message()),
{
    reveal_strlit("the window no longer takes frames");
    lemma_pull_messages_are_single_lines(error);
}

/// What follows a pull: a frame is delivered, `Again` asks for another
/// pull, and every other error ends the worker with the error's line.
pub open spec fn spec_worker_on_pull(outcome: Result<FrameView, PullError>) -> WorkerActionView {
    match outcome {
        Ok(frame) => WorkerActionView::Deliver(frame),
        Err(PullError::Again) => WorkerActionView::Pull,
        Err(error) => WorkerActionView::Exit { log: error.spec_message() },
    }
}

/// What follows a delivery: the next pull if the handle was sent, the end
/// of the worker if the channel is closed.
pub open spec fn spec_worker_on_send(sent: bool) -> WorkerActionView {
    if sent {
        WorkerActionView::Pull
    } else {
        WorkerActionView::Exit { log: channel_closed_message() }
    }
}

/// Takes the outcome of a pull and says what the worker does next.
pub fn worker_on_pull(outcome: Result<Frame, PullError>) -> (action: WorkerAction)
    ensures
        action@ == spec_worker_on_pull(
            match outcome {
                Ok(frame) => Ok(frame@),
                Err(error) => Err(error),
            },
        ),
{
    match outcome {
        Ok(frame) => WorkerAction::Deliver(frame),
        Err(PullError::Again) => WorkerAction::Pull,
        Err(error) => WorkerAction::Exit { log: error.message() },
    }
}

/// Takes whether a handle could be sent and says what the worker does next.
pub fn worker_on_send(sent: bool) -> (action: WorkerAction)
    ensures
        action@ == spec_worker_on_send(sent),
{
    if sent {
        WorkerAction::Pull
    } else {
        WorkerAction::Exit { log: "the window no longer takes frames" }
    }
}

/// What one attempt to receive from the channel gave.
#[derive(Debug)]
pub enum Received<T> {
    /// A handle arrived.
    Handle(T),
    /// Nothing is waiting in the channel.
    Empty,
    /// The worker is gone and the channel is closed.
    Closed,
}

/// The window's side of the bridge: the newest handle, and whether a worker
/// is being listened to.
#[derive(Debug)]
pub struct UiBridge<T> {
    /// The handle to draw, if there is one.
    pub latest: Option<T>,
    /// Whether there is a channel to receive from.
    pub receiving: bool,
}

impl<T> UiBridge<T> {
    /// What one attempt to receive does to the bridge, and whether the
    /// window receives again in the same repaint.
    ///
    /// A handle takes the place of the one before it. An empty channel
    /// changes nothing. A closed channel clears the handle and ends the
    /// listening. Without a channel there is nothing to show.
    pub open spec fn spec_on_receive(self, received: Received<T>) -> (UiBridge<T>, bool) {
        if !self.receiving {
            (UiBridge { latest: None, receiving: false }, false)
        } else {
            match received {
                Received::Handle(handle) => (
                    UiBridge { latest: Some(handle), receiving: true },
                    true,
                ),
                Received::Empty => (self, false),
                Received::Closed => (UiBridge { latest: None, receiving: false }, false),
            }
        }
    }

    /// The bridge after a repaint that received `arrivals` one after the
    /// other, for as long as the bridge went on receiving.
    pub open spec fn drain(self, arrivals: Seq<Received<T>>) -> UiBridge<T>
        decreases arrivals.len(),
    {
        if arrivals.len() == 0 {
            self
        } else {
            let (next, more) = self.spec_on_receive(arrivals.first());
            if more {
                next.drain(arrivals.drop_first())
            } else {
                next
            }
        }
    }

    /// A bridge that shows nothing and listens to no worker.
    pub fn new() -> (bridge: UiBridge<T>)
        ensures
            bridge == (UiBridge::<T> { latest: None, receiving: false }),
    {
        UiBridge { latest: None, receiving: false }
    }

    /// Notes that a worker was started and its channel is listened to, in
    /// place of any earlier one. What is shown stays until the new worker's
    /// first handle arrives.
    pub fn start_worker(&mut self)
        ensures
            final(self).receiving,
            final(self).latest == old(self).latest,
    {
        self.receiving = true;
    }

    /// Whether a repaint has a channel to receive from. Where it has none,
    /// nothing is shown any more.
    pub fn begin_repaint(&mut self) -> (receive: bool)
        ensures
            receive == old(self).receiving,
            final(self).receiving == old(self).receiving,
            final(self).latest == if old(self).receiving {
                old(self).latest
            } else {
                None
            },
    {
        if !self.receiving {
            self.latest = None;
        }
        self.receiving
    }

    /// Takes what one attempt to receive gave. The result says whether to
    /// receive again in this repaint: the window empties the channel, so
    /// that what it shows is the newest frame.
    pub fn on_receive(&mut self, received: Received<T>) -> (more: bool)
        ensures
            (*final(self), more) == old(self).spec_on_receive(received),
    {
        if !self.receiving {
            self.latest = None;
            return false;
        }
        match received {
            Received::Handle(handle) => {
                self.latest = Some(handle);
                true
            },
            Received::Empty => false,
            Received::Closed => {
                self.latest = None;
                self.receiving = false;
                false
            },
        }
    }

    /// The handle to draw, if there is one.
    pub fn latest(&self) -> (handle: Option<&T>)
        ensures
            match handle {
                Some(found) => self.latest == Some(*found),
                None => self.latest.is_none(),
            },
    {
        self.latest.as_ref()
    }
}

/// The arrivals of a repaint that finds the given handles waiting.
pub open spec fn waiting<T>(handles: Seq<T>, last: Received<T>) -> Seq<Received<T>> {
    handles.map_values(|handle: T| Received::Handle(handle)).push(last)
}

/// The newest handle wins: after a repaint that found handles waiting, the
/// bridge shows the last of them, whatever it showed before and however
/// many there were. Where nothing was waiting, it shows what it showed.
pub proof fn lemma_latest_wins<T>(bridge: UiBridge<T>, handles: Seq<T>)
    requires
        bridge.receiving,
    ensures
        bridge.drain(waiting(handles, Received::Empty)).receiving,
        bridge.drain(waiting(handles, Received::Empty)).latest == if handles.len() == 0 {
            bridge.latest
        } else {
            Some(handles.last())
        },
    decreases handles.len(),
{
    let arrivals = waiting(handles, Received::Empty);
    if handles.len() == 0 {
        assert(arrivals.first() == Received::<T>::Empty);
    } else {
        let next = bridge.spec_on_receive(arrivals.first()).0;
        assert(arrivals.first() == Received::Handle(handles.first()));
        assert(arrivals.drop_first() =~= waiting(handles.drop_first(), Received::Empty));
        lemma_latest_wins(next, handles.drop_first());
        if handles.len() > 1 {
            assert(handles.drop_first().last() == handles.last());
        }
    }
}

/// When the worker has gone, the repaint that finds the channel closed
/// clears the handle and stops listening, whatever arrived before.
pub proof fn lemma_closed_channel_clears<T>(bridge: UiBridge<T>, handles: Seq<T>)
    ensures
        bridge.drain(waiting(handles, Received::Closed)) == (UiBridge::<T> {
            latest: None,
            receiving: false,
        }),
    decreases handles.len(),
{
    let arrivals = waiting(handles, Received::Closed);
    if handles.len() == 0 {
        assert(arrivals.first() == Received::<T>::Closed);
    } else {
        let next = bridge.spec_on_receive(arrivals.first()).0;
        assert(arrivals.first() == Received::Handle(handles.first()));
        assert(arrivals.drop_first() =~= waiting(handles.drop_first(), Received::Closed));
        if bridge.receiving {
            lemma_closed_channel_clears(next, handles.drop_first());
        }
    }
}

} // verus!
