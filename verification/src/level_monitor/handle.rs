use crate::level_monitor::channel::RingConsumer;
use crate::level_monitor::LevelSample;
use vstd::prelude::*;

verus! {

/// Why a poll of the monitor came back without a snapshot.
#[derive(Debug, Clone, Copy, PartialEq, Eq, Structural)]
pub enum SampleError {
    /// No snapshot is pending: none was published since the last one was
    /// taken. This is the usual answer to a consumer that polls faster than
    /// the audio thread publishes.
    NoSample,
}

impl SampleError {
    /// The text shown for this error.
    pub open spec fn message(self) -> Seq<char> {
        match self {
            SampleError::NoSample => "no sample available"@,
        }
    }

    /// Renders the error as text.
    pub fn to_string(&self) -> (text: String)
        ensures
            text@ == self.message(),
    {
        match self {
            SampleError::NoSample => "no sample available".to_owned(),
        }
    }
}

/// Receives samples from the audio thread in chunks of `N` frames.
#[verifier::reject_recursive_types(N)]
pub struct LevelMonitorHandle<const N: usize> {
    pub(super) sample_consumer: RingConsumer<LevelSample<N>>,
}

impl<const N: usize> LevelMonitorHandle<N> {
    /// Turns what the channel gave into the answer of a poll: the snapshot
    /// itself, or `NoSample` where the channel had nothing pending.
    pub fn sample_or_error(popped: Option<LevelSample<N>>) -> (answer: Result<
        LevelSample<N>,
        SampleError,
    >)
        ensures
            match popped {
                Some(sample) => answer == Ok::<LevelSample<N>, SampleError>(sample),
                None => answer == Err::<LevelSample<N>, SampleError>(SampleError::NoSample),
            },
    {
        if let Some(sample) = popped {
            Ok(sample)
        } else {
            Err(SampleError::NoSample)
        }
    }

    /// Takes the oldest pending snapshot out of the channel without ever
    /// waiting for one.
    ///
    /// Whether a snapshot is pending is decided by the audio thread; the
    /// only error there is says that none was.
    pub fn get_sample(&mut self) -> (answer: Result<LevelSample<N>, SampleError>)
        ensures
            answer matches Err(error) ==> error == SampleError::NoSample,
    {
        Self::sample_or_error(self.sample_consumer.try_pop())
    }
}

} // verus!
