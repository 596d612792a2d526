//! Subscriber bookkeeping for one capture source.
//!
//! `Frames` counts the live subscriptions and says when the capture source
//! must start (the count leaves zero) and stop (the count returns to zero);
//! each start opens a new fan-out channel, which later subscribers join.
//! `FrameStream` is one subscription: it remembers whether it was released,
//! so that releasing it twice counts once, and it turns what its receiver got
//! from the fan-out channel into what its consumer sees.
use vstd::prelude::*;
use tokio::sync::broadcast::{Receiver, Sender, WeakSender, channel};

verus! {

/// How many frames a subscriber may fall behind before its oldest unread
/// frames are dropped.
pub const MAX_BUFFERED_FRAMES: usize = 16;

/// A capture timestamp: whole seconds, and the microseconds past them.
#[derive(Clone, Copy, Debug, PartialEq, Eq, Structural)]
pub struct Timestamp {
    pub secs: u64,
    pub micros: u32,
}

impl Timestamp {
    /// The microseconds stay below one second.
    pub open spec fn wf(self) -> bool {
        self.micros < 1_000_000
    }
}

/// One encoded image and, where the source gave one, its capture time.
#[derive(Clone, Debug)]
pub struct Frame {
    pub data: Vec<u8>,
    pub timestamp: Option<Timestamp>,
}

/// What the capture source must be told after a subscription change.
#[derive(Clone, Copy, Debug, PartialEq, Eq, Structural)]
pub enum Control {
    Start,
    Stop,
    Nothing,
}

/// What a subscription's receiver got from its epoch's fan-out channel;
/// `F` is the frame as the channel carries it.
#[derive(Clone, Debug)]
pub enum Received<F> {
    /// The next frame in capture order.
    Frame(F),
    /// The subscriber fell behind: this many of its oldest unread frames
    /// were dropped.
    Lagged(u64),
    /// The capture source's frames ended.
    Closed,
}

/// What a subscription hands its consumer for one thing received.
#[derive(Clone, Debug)]
pub enum Delivery<F> {
    Frame(F),
    /// Nothing to hand out: read again.
    Retry,
    /// The sequence is over.
    End,
}

/// The bookkeeping of `Frames`: live subscriptions, and how many runs of the
/// capture source (epochs) have begun.
pub struct FramesView {
    pub count: nat,
    pub epoch: nat,
}

impl FramesView {
    /// The state after one more subscription.
    pub open spec fn subscribed(self) -> FramesView {
        FramesView {
            count: self.count + 1,
            epoch: if self.count == 0 { self.epoch + 1 } else { self.epoch },
        }
    }

    /// The command issued by a subscription: start on the first one.
    pub open spec fn subscribe_control(self) -> Control {
        if self.count == 0 { Control::Start } else { Control::Nothing }
    }

    /// The state after a live subscription went away.
    pub open spec fn released(self) -> FramesView {
        FramesView {
            count: if self.count > 0 { (self.count - 1) as nat } else { 0 },
            epoch: self.epoch,
        }
    }

    /// The command issued when a live subscription went away: stop on the last one.
    pub open spec fn release_control(self) -> Control {
        if self.count == 1 { Control::Stop } else { Control::Nothing }
    }

    /// Whether the capture source is meant to run.
    pub open spec fn running(self) -> bool {
        self.count > 0
    }
}

/// The state of one subscription. `next` is the position, counted from the
/// first frame published after it subscribed, of the next frame its receiver
/// will read; `delivered` holds the positions of the frames handed out.
pub struct StreamView {
    pub released: bool,
    pub ended: bool,
    pub epoch: nat,
    pub next: nat,
    pub delivered: Seq<nat>,
}

impl StreamView {
    /// The state of a subscription just made in `epoch`.
    pub open spec fn fresh(epoch: nat) -> StreamView {
        StreamView { released: false, ended: false, epoch, next: 0, delivered: Seq::empty() }
    }

    /// Frames are handed out in increasing position, each before `next`.
    pub open spec fn wf(self) -> bool {
        &&& forall|i: int, j: int|
            0 <= i < j < self.delivered.len() ==> self.delivered[i] < self.delivered[j]
        &&& forall|i: int| 0 <= i < self.delivered.len() ==> self.delivered[i] < self.next
    }

    /// The state after the receiver got `r`.
    pub open spec fn received<F>(self, r: Received<F>) -> StreamView {
        match r {
            Received::Frame(_) => StreamView {
                next: self.next + 1,
                delivered: self.delivered.push(self.next),
                ..self
            },
            Received::Lagged(n) => StreamView { next: self.next + n as nat, ..self },
            Received::Closed => StreamView { ended: true, ..self },
        }
    }
}

/// What the consumer is handed for `r`.
pub open spec fn delivery_of<F>(r: Received<F>) -> Delivery<F> {
    match r {
        Received::Frame(f) => Delivery::Frame(f),
        Received::Lagged(_) => Delivery::Retry,
        Received::Closed => Delivery::End,
    }
}

/// One release of subscription `s` against `f`: the new states and the
/// command for the capture source. A subscription already released changes
/// nothing.
pub open spec fn release_step(f: FramesView, s: StreamView) -> (FramesView, StreamView, Control) {
    if s.released {
        (f, s, Control::Nothing)
    } else {
        (f.released(), StreamView { released: true, ..s }, f.release_control())
    }
}

/// Counts the live subscriptions of one capture source, and reaches the
/// current epoch's fan-out channel through a weak sender: the channel stays
/// open only while the task that feeds it holds its sender, so the
/// subscribers see the end of the frames when that task ends.
#[verifier::reject_recursive_types(T)]
pub struct Frames<T> {
    count: u64,
    epoch: Ghost<nat>,
    sender: WeakSender<T>,
}

/// A new subscription: its bookkeeping, its receiver, the command for the
/// capture source, and, when that command is `Start`, the sending side of the
/// new epoch's channel, for the task that feeds it the source's frames.
#[verifier::reject_recursive_types(T)]
pub struct Subscribed<T> {
    pub stream: FrameStream,
    pub receiver: Receiver<T>,
    pub control: Control,
    pub feed: Option<Sender<T>>,
}

impl<T> View for Frames<T> {
    type V = FramesView;

    closed spec fn view(&self) -> FramesView {
        FramesView { count: self.count as nat, epoch: self.epoch@ }
    }
}

/// One subscription to the frames of a capture source.
pub struct FrameStream {
    released: bool,
    ended: bool,
    epoch: Ghost<nat>,
    next: Ghost<nat>,
    delivered: Ghost<Seq<nat>>,
}

impl View for FrameStream {
    type V = StreamView;

    closed spec fn view(&self) -> StreamView {
        StreamView {
            released: self.released,
            ended: self.ended,
            epoch: self.epoch@,
            next: self.next@,
            delivered: self.delivered@,
        }
    }
}

impl<T: Clone> Frames<T> {
    /// No subscriptions, and the capture source idle.
    pub fn new() -> (r: Frames<T>)
        ensures
            r@.count == 0,
            r@.epoch == 0,
    {
        let (sender, _) = channel(MAX_BUFFERED_FRAMES);
        Frames { count: 0, epoch: Ghost(0), sender: sender.downgrade() }
    }

    /// Subscribes to frames. The first subscription (count 0 to 1) begins a
    /// new epoch with a new channel, hands out its sender, and asks for the
    /// capture source to start; later ones subscribe to the current epoch's
    /// channel, or get a closed receiver when its frames already ended.
    pub fn stream(&mut self) -> (r: Subscribed<T>)
        requires
            old(self)@.count < u64::MAX,
        ensures
            final(self)@ == old(self)@.subscribed(),
            r.control == old(self)@.subscribe_control(),
            r.feed is Some <==> r.control == Control::Start,
            r.stream@ == StreamView::fresh(final(self)@.epoch),
            r.stream@.wf(),
    {
        let (receiver, control, feed) = if self.count == 0 {
            let (sender, receiver) = channel(MAX_BUFFERED_FRAMES);
            self.sender = sender.downgrade();
            self.epoch = Ghost(self.epoch@ + 1);
            (receiver, Control::Start, Some(sender))
        } else {
            let receiver = match self.sender.upgrade() {
                Some(sender) => sender.subscribe(),
                None => {
                    let (_ended, receiver) = channel(MAX_BUFFERED_FRAMES);
                    receiver
                },
            };
            (receiver, Control::Nothing, None)
        };
        self.count = self.count + 1;
        let stream = FrameStream {
            released: false,
            ended: false,
            epoch: Ghost(self.epoch@),
            next: Ghost(0),
            delivered: Ghost(Seq::empty()),
        };
        Subscribed { stream, receiver, control, feed }
    }
}

impl<T> Frames<T> {
    /// Releases subscription `s`. Only its first release counts: that one
    /// lowers the count, and asks for the capture source to stop when the
    /// count returns to zero.
    pub fn release(&mut self, s: &mut FrameStream) -> (r: Control)
        ensures
            (final(self)@, final(s)@, r) == release_step(old(self)@, old(s)@),
    {
        if s.released {
            return Control::Nothing;
        }
        s.released = true;
        let control = if self.count == 1 { Control::Stop } else { Control::Nothing };
        if self.count > 0 {
            self.count = self.count - 1;
        }
        control
    }

    /// The number of live subscriptions.
    pub fn count(&self) -> (r: u64)
        ensures
            r as nat == self@.count,
    {
        self.count
    }

    /// Whether the capture source is meant to run.
    pub fn is_running(&self) -> (r: bool)
        ensures
            r == self@.running(),
    {
        self.count > 0
    }
}

impl FrameStream {
    /// Takes what the receiver got and says what the consumer is handed: a
    /// frame as it came, nothing after a lag (the receiver has already moved
    /// past the dropped frames, so the consumer reads again), or the end.
    pub fn receive<F>(&mut self, r: Received<F>) -> (d: Delivery<F>)
        ensures
            final(self)@ == old(self)@.received(r),
            d == delivery_of(r),
    {
        match r {
            Received::Frame(f) => {
                self.delivered = Ghost(self.delivered@.push(self.next@));
                self.next = Ghost(self.next@ + 1);
                Delivery::Frame(f)
            },
            Received::Lagged(n) => {
                self.next = Ghost(self.next@ + n as nat);
                Delivery::Retry
            },
            Received::Closed => {
                self.ended = true;
                Delivery::End
            },
        }
    }

    /// Whether this subscription was released.
    pub fn is_released(&self) -> (r: bool)
        ensures
            r == self@.released,
    {
        self.released
    }

    /// Whether the frames of this subscription ended.
    pub fn is_ended(&self) -> (r: bool)
        ensures
            r == self@.ended,
    {
        self.ended
    }
}

} // verus!
