use vstd::prelude::*;

verus! {

/// One instant of stereo audio.
///
/// Each channel holds the IEEE 754 bit pattern of a single-precision
/// amplitude, so that two frames are equal exactly when they are
/// bit-identical.
#[derive(Debug, Clone, Copy, PartialEq, Eq, Structural)]
pub struct Frame {
    /// Bits of the sample for the left channel.
    pub left: u32,
    /// Bits of the sample for the right channel.
    pub right: u32,
}

impl Frame {
    /// The frame with both samples at amplitude zero, whose bits are all zero.
    pub fn zero() -> (frame: Frame)
        ensures
            frame == (Frame { left: 0, right: 0 }),
    {
        Frame { left: 0, right: 0 }
    }

    /// A frame from the bit patterns of its two samples.
    pub fn from_bits(left: u32, right: u32) -> (frame: Frame)
        ensures
            frame == (Frame { left, right }),
    {
        Frame { left, right }
    }
}

} // verus!
