use crate::frame::Frame;
use vstd::prelude::*;

verus! {

/// The most recent `n` frames of `frames`, oldest first: all of `frames`
/// while it holds no more than `n`, its last `n` otherwise.
pub open spec fn recent(frames: Seq<Frame>, n: nat) -> Seq<Frame> {
    if frames.len() <= n {
        frames
    } else {
        frames.subrange(frames.len() - n, frames.len() as int)
    }
}

/// The `n` frames that end where `frames` has length `end`.
pub open spec fn window_ending_at(frames: Seq<Frame>, n: nat, end: nat) -> Seq<Frame>
    recommends
        n <= end <= frames.len(),
{
    frames.subrange(end - n, end as int)
}

/// How a window takes one more frame in without ever holding more than `n`:
/// a full window first lets its oldest frame go, and a window of no frames
/// stays empty.
pub proof fn lemma_recent_push(frames: Seq<Frame>, n: nat, frame: Frame)
    ensures
        recent(frames.push(frame), n) == if n == 0 {
            Seq::<Frame>::empty()
        } else if recent(frames, n).len() == n {
            recent(frames, n).subrange(1, n as int).push(frame)
        } else {
            recent(frames, n).push(frame)
        },
        recent(frames, n).len() <= n,
{
    let window = recent(frames, n);
    if n == 0 {
        assert(recent(frames.push(frame), n) =~= Seq::<Frame>::empty());
    } else if window.len() == n {
        assert(recent(frames.push(frame), n) =~= window.subrange(1, n as int).push(frame));
    } else {
        assert(recent(frames.push(frame), n) =~= window.push(frame));
    }
}

/// A window that ends inside a history is not changed by frames that
/// arrive later.
pub proof fn lemma_window_stable(frames: Seq<Frame>, later: Seq<Frame>, n: nat, end: nat)
    requires
        n <= end <= frames.len(),
    ensures
        window_ending_at(frames + later, n, end) == window_ending_at(frames, n, end),
{
    assert(window_ending_at(frames + later, n, end) =~= window_ending_at(frames, n, end));
}

/// A block of at least `n` frames decides the window alone: whatever came
/// before it, the most recent `n` frames are the last `n` of the block.
pub proof fn law_long_block_fills_window(prior: Seq<Frame>, block: Seq<Frame>, n: nat)
    requires
        block.len() >= n,
    ensures
        recent(prior + block, n) == block.subrange(block.len() - n, block.len() as int),
{
    assert(recent(prior + block, n) =~= block.subrange(block.len() - n, block.len() as int));
}

} // verus!
