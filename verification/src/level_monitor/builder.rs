use crate::frame::Frame;
use crate::level_monitor::channel::ring_channel;
use crate::level_monitor::handle::LevelMonitorHandle;
use crate::level_monitor::{LevelMonitor, LevelSample};
use vstd::layout::layout_for_type_is_valid;
use vstd::prelude::*;

verus! {

/// How many snapshots the channel between a monitor and its handle holds.
///
/// Keeping this capacity low means that the sample is updated less
/// frequently, as the audio thread skips copying the window while the
/// channel is not empty.
pub const SAMPLE_CAPACITY: usize = 1;

/// Configures a level monitor with a window of `N` frames.
#[derive(Debug, Copy, Clone, PartialEq)]
pub struct LevelMonitorBuilder<const N: usize>;

impl<const N: usize> LevelMonitorBuilder<N> {
    /// Creates a monitor and the handle that receives its snapshots.
    ///
    /// The two share one channel of `SAMPLE_CAPACITY` slots, allocated here
    /// once. The monitor starts with an empty window and nothing published.
    pub fn build(self) -> (pair: (LevelMonitor<N>, LevelMonitorHandle<N>))
        ensures
            pair.0.wf(),
            pair.0.history() == Seq::<Frame>::empty(),
            pair.0.window() == Seq::<Frame>::empty(),
            pair.0.published_at() == Seq::<nat>::empty(),
    {
        layout_for_type_is_valid::<LevelSample<N>>();
        let (sample_producer, sample_consumer) = ring_channel(SAMPLE_CAPACITY);
        (LevelMonitor::new(sample_producer), LevelMonitorHandle { sample_consumer })
    }
}

} // verus!
