use crate::frame::Frame;
use crate::level_monitor::channel::RingProducer;
use crate::level_monitor::window::{
    lemma_recent_push, lemma_window_stable, recent, window_ending_at,
};
use std::collections::VecDeque;
use vstd::prelude::*;

pub mod builder;
pub mod channel;
pub mod handle;
pub mod window;

pub use builder::LevelMonitorBuilder;
pub use handle::{LevelMonitorHandle, SampleError};

verus! {

/// One full window of frames, copied out of a monitor, oldest frame first.
#[derive(Debug, Clone, Copy)]
pub struct LevelSample<const N: usize> {
    pub window: [Frame; N],
}

impl<const N: usize> View for LevelSample<N> {
    type V = Seq<Frame>;

    open spec fn view(&self) -> Seq<Frame> {
        self.window@
    }
}

/// An effect that lets audio through untouched while it keeps the most
/// recent `N` frames and offers full windows of them to a consumer on
/// another thread.
#[verifier::reject_recursive_types(N)]
pub struct LevelMonitor<const N: usize> {
    sample_producer: RingProducer<LevelSample<N>>,
    // Holds the last N frames.
    raw: VecDeque<Frame>,
    // Every frame processed so far.
    history: Ghost<Seq<Frame>>,
    // For each snapshot that the channel took, the length that the history
    // had when the snapshot was made.
    marks: Ghost<Seq<nat>>,
}

impl<const N: usize> LevelMonitor<N> {
    /// Every frame processed since construction, in arrival order.
    pub closed spec fn history(&self) -> Seq<Frame> {
        self.history@
    }

    /// The frames that the rolling window holds, oldest first.
    pub closed spec fn window(&self) -> Seq<Frame> {
        self.raw@
    }

    /// For each snapshot that the channel has accepted, in publishing order,
    /// the number of frames that had been processed when it was made.
    pub closed spec fn published_at(&self) -> Seq<nat> {
        self.marks@
    }

    /// The snapshots that the channel has accepted, in publishing order.
    pub open spec fn published(&self) -> Seq<Seq<Frame>> {
        Seq::new(
            self.published_at().len(),
            |i: int| window_ending_at(self.history(), N as nat, self.published_at()[i]),
        )
    }

    /// The invariant of a monitor: the window holds the most recent frames
    /// of the history, and every snapshot was made of a full window, each
    /// later in the history than the one before.
    pub open spec fn wf(&self) -> bool {
        &&& self.window() == recent(self.history(), N as nat)
        &&& forall|i: int|
            0 <= i < self.published_at().len() ==> N <= #[trigger] self.published_at()[i]
                <= self.history().len()
        &&& forall|i: int, j: int|
            0 <= i < j < self.published_at().len() ==> self.published_at()[i]
                < self.published_at()[j]
    }

    /// This state came after `before` without a publication.
    pub open spec fn kept_silent_after(&self, before: Self) -> bool {
        &&& self.published_at() == before.published_at()
        &&& self.published() == before.published()
    }

    /// This state came after `before` by publishing one snapshot: a copy of
    /// the window, which was full.
    pub open spec fn published_window_after(&self, before: Self) -> bool {
        &&& self.window().len() == N
        &&& self.published_at() == before.published_at().push(self.history().len())
        &&& self.published() == before.published().push(self.window())
    }

    /// Whether a snapshot was already published for the newest frame.
    pub open spec fn newest_published(&self) -> bool {
        self.published_at().len() > 0 && self.published_at().last() == self.history().len()
    }

    pub(crate) fn new(sample_producer: RingProducer<LevelSample<N>>) -> (monitor: Self)
        ensures
            monitor.wf(),
            monitor.history() == Seq::<Frame>::empty(),
            monitor.window() == Seq::<Frame>::empty(),
            monitor.published_at() == Seq::<nat>::empty(),
    {
        Self {
            sample_producer,
            // Room for a full window is made here, once: the window never
            // holds more, so it never grows on the audio thread.
            raw: VecDeque::with_capacity(N),
            history: Ghost(Seq::empty()),
            marks: Ghost(Seq::empty()),
        }
    }

    /// Copies the window into a snapshot, if the window is full.
    pub fn snapshot(&self) -> (sample: Option<LevelSample<N>>)
        requires
            self.wf(),
        ensures
            match sample {
                Some(s) => self.window().len() == N && s@ == self.window(),
                None => self.window().len() < N,
            },
    {
        if self.raw.len() < N {
            return None;
        }
        let mut window = [Frame::zero();N];
        let mut i: usize = 0;
        while i < N
            invariant
                i <= N,
                self.raw@.len() == N,
                forall|k: int| 0 <= k < i ==> window@[k] == self.raw@[k],
            decreases N - i,
        {
            window[i] = self.raw[i];
            i += 1;
        }
        assert(window@ =~= self.raw@);
        Some(LevelSample { window })
    }

    /// What the audio thread hands to the channel, given the channel's own
    /// word on whether it is full: a copy of the window where the window is
    /// full and the channel is not, and nothing otherwise.
    pub fn offer(&self, channel_full: bool) -> (sample: Option<LevelSample<N>>)
        requires
            self.wf(),
        ensures
            match sample {
                Some(s) => !channel_full && self.window().len() == N && s@ == self.window(),
                None => channel_full || self.window().len() < N,
            },
    {
        if channel_full {
            None
        } else {
            self.snapshot()
        }
    }

    // Books what the channel answered to the offer of a full window: a
    // snapshot that it took counts as published, and one that it handed
    // back is dropped.
    fn settle(&mut self, outcome: Result<(), LevelSample<N>>)
        requires
            old(self).wf(),
            old(self).window().len() == N,
            !old(self).newest_published(),
        ensures
            final(self).wf(),
            final(self).history() == old(self).history(),
            final(self).window() == old(self).window(),
            outcome is Ok ==> final(self).published_window_after(*old(self)),
            outcome is Err ==> final(self).kept_silent_after(*old(self)),
    {
        if outcome.is_ok() {
            self.marks = Ghost(self.marks@.push(self.history@.len()));
            proof {
                old(self).lemma_published_stable(*self);
                assert(self.published().last() =~= self.window());
                assert(self.published() =~= old(self).published().push(self.window()));
            }
        }
    }

    // Offers the window to the channel. A refusal is no failure: the
    // consumer has not taken the last snapshot yet, and this one is dropped.
    fn send_sample(&mut self)
        requires
            old(self).wf(),
            !old(self).newest_published(),
        ensures
            final(self).wf(),
            final(self).history() == old(self).history(),
            final(self).window() == old(self).window(),
            old(self).window().len() < N ==> final(self).kept_silent_after(*old(self)),
            final(self).kept_silent_after(*old(self)) || final(self).published_window_after(
                *old(self),
            ),
    {
        let channel_full = self.sample_producer.is_full();
        if let Some(sample) = self.offer(channel_full) {
            let outcome = self.sample_producer.try_push(sample);
            self.settle(outcome);
        }
    }

    /// Takes one frame in and hands the same frame back.
    ///
    /// The frame joins the window, for which the oldest frame leaves first
    /// where the window is full. A snapshot of the window is published only
    /// if the window is then full, and then only if the channel takes it;
    /// the window is the same either way.
    pub fn process_frame(&mut self, frame: Frame) -> (out: Frame)
        requires
            old(self).wf(),
        ensures
            out == frame,
            final(self).wf(),
            final(self).history() == old(self).history().push(frame),
            final(self).window() == recent(old(self).history().push(frame), N as nat),
            final(self).kept_silent_after(*old(self)) || final(self).published_window_after(
                *old(self),
            ),
    {
        proof {
            lemma_recent_push(self.history@, N as nat, frame);
        }
        if N > 0 {
            if self.raw.len() == N {
                self.raw.pop_front();
            }
            self.raw.push_back(frame);
        }
        assert(self.raw@ =~= recent(self.history@.push(frame), N as nat));
        self.history = Ghost(self.history@.push(frame));
        assert(self.published_at() == old(self).published_at());
        let ghost appended = *self;
        self.send_sample();
        proof {
            old(self).lemma_published_stable(appended);
            assert(appended.published() =~= old(self).published());
        }
        frame
    }

    /// Takes a block of frames in, in order, and leaves every one of them
    /// as it was.
    pub fn process(&mut self, input: &mut [Frame])
        requires
            old(self).wf(),
        ensures
            final(input)@ == old(input)@,
            final(self).wf(),
            final(self).history() == old(self).history() + old(input)@,
            final(self).window() == recent(old(self).history() + old(input)@, N as nat),
            old(input)@.len() >= N ==> final(self).window() == old(input)@.subrange(
                old(input)@.len() - N,
                old(input)@.len() as int,
            ),
            old(self).published_at().is_prefix_of(final(self).published_at()),
            old(self).published().is_prefix_of(final(self).published()),
            final(self).published_at().len() <= old(self).published_at().len() + old(input)@.len(),
            forall|i: int|
                old(self).published_at().len() <= i < final(self).published_at().len()
                    ==> old(self).history().len() < #[trigger] final(self).published_at()[i],
    {
        let count = input.len();
        let mut i: usize = 0;
        while i < count
            invariant
                i <= count,
                count == input@.len(),
                input@ == old(input)@,
                self.wf(),
                self.history() == old(self).history() + old(input)@.take(i as int),
                old(self).published_at().is_prefix_of(self.published_at()),
                self.published_at().len() <= old(self).published_at().len() + i,
                forall|k: int|
                    old(self).published_at().len() <= k < self.published_at().len()
                        ==> old(self).history().len() < #[trigger] self.published_at()[k],
            decreases count - i,
        {
            let frame = input[i];
            self.process_frame(frame);
            i += 1;
        }
        proof {
            old(self).lemma_published_stable(*self);
        }
    }

    /// Snapshots are never taken back or altered: where a later state of a
    /// monitor has all the frames and all the publications of an earlier
    /// one, the earlier snapshots are the first snapshots of the later.
    pub proof fn lemma_published_stable(self, later: Self)
        requires
            self.wf(),
            self.history().is_prefix_of(later.history()),
            self.published_at().is_prefix_of(later.published_at()),
        ensures
            self.published().is_prefix_of(later.published()),
    {
        assert forall|i: int| 0 <= i < self.published().len() implies self.published()[i]
            == later.published()[i] by {
            let end = self.published_at()[i];
            assert(later.published_at()[i] == end);
            let rest = later.history().subrange(
                self.history().len() as int,
                later.history().len() as int,
            );
            assert(later.history() =~= self.history() + rest);
            lemma_window_stable(self.history(), rest, N as nat, end);
        }
    }

    /// Once at least `N` frames have been processed, the window holds
    /// exactly the last `N` of them, in arrival order.
    pub proof fn law_window_holds_last_frames(self)
        requires
            self.wf(),
            self.history().len() >= N,
        ensures
            self.window().len() == N,
            self.window() == self.history().subrange(
                self.history().len() - N,
                self.history().len() as int,
            ),
    {
    }

    /// Nothing is published before `N` frames have been processed.
    pub proof fn law_no_snapshot_before_fill(self)
        requires
            self.wf(),
            self.history().len() < N,
        ensures
            self.published() == Seq::<Seq<Frame>>::empty(),
    {
        if self.published_at().len() > 0 {
            assert(N <= self.published_at()[0]);
        }
        assert(self.published() =~= Seq::<Seq<Frame>>::empty());
    }

    /// Every published snapshot is a full window: `N` frames that arrived
    /// one after the other, ending with the frame that was newest when the
    /// snapshot was made. Later snapshots end later.
    pub proof fn law_snapshots_are_full_windows(self, i: int)
        requires
            self.wf(),
            0 <= i < self.published().len(),
        ensures
            self.published()[i].len() == N,
            N <= self.published_at()[i] <= self.history().len(),
            self.published()[i] == self.history().subrange(
                self.published_at()[i] - N,
                self.published_at()[i] as int,
            ),
            forall|j: int|
                i < j < self.published().len() ==> self.published_at()[i]
                    < #[trigger] self.published_at()[j],
    {
    }
}

} // verus!
