use vstd::prelude::*;

verus! {

/// What is known of the entity that a sound was played for.
#[derive(Debug, Clone, Copy, PartialEq, Eq, Structural)]
pub enum SoundOwner {
    /// The entity is gone.
    Missing,
    /// The entity is there and keeps no list of playing sounds yet.
    WithoutSounds,
    /// The entity is there and keeps a list of playing sounds.
    WithSounds,
}

/// What becomes of the handle of a sound that has started to play.
#[derive(Debug, Clone, Copy, PartialEq, Eq, Structural)]
pub enum Attachment {
    /// It joins the entity's list, behind the handles already in it.
    Append,
    /// The entity gets a new list that holds this handle alone.
    Insert,
    /// Nothing can hold it: it is dropped, and the failure is reported.
    Discard,
}

/// The sounds that stay after a clean-up: those whose flag in `stopped` is
/// not set, in their order.
pub open spec fn playing<S>(sounds: Seq<S>, stopped: Seq<bool>) -> Seq<S>
    recommends
        sounds.len() == stopped.len(),
    decreases sounds.len(),
{
    if sounds.len() == 0 {
        Seq::empty()
    } else if stopped[0] {
        playing(sounds.skip(1), stopped.skip(1))
    } else {
        seq![sounds[0]] + playing(sounds.skip(1), stopped.skip(1))
    }
}

/// The rules of the plugin that plays sounds on request and forgets them
/// once they have stopped.
pub struct KiraEventsPlugin;

impl KiraEventsPlugin {
    /// Where the handle of a sound that has started to play goes.
    pub fn attachment(owner: SoundOwner) -> (attachment: Attachment)
        ensures
            attachment == match owner {
                SoundOwner::WithSounds => Attachment::Append,
                SoundOwner::WithoutSounds => Attachment::Insert,
                SoundOwner::Missing => Attachment::Discard,
            },
    {
        match owner {
            SoundOwner::WithSounds => Attachment::Append,
            SoundOwner::WithoutSounds => Attachment::Insert,
            SoundOwner::Missing => Attachment::Discard,
        }
    }

    /// Whether a list of sounds holds at least one that has stopped, so that
    /// a list without one is left untouched.
    pub fn needs_cleanup(stopped: &Vec<bool>) -> (needed: bool)
        ensures
            needed == exists|i: int| 0 <= i < stopped@.len() && stopped@[i],
    {
        let mut i: usize = 0;
        while i < stopped.len()
            invariant
                i <= stopped@.len(),
                forall|k: int| 0 <= k < i ==> !stopped@[k],
            decreases stopped@.len() - i,
        {
            if stopped[i] {
                return true;
            }
            i += 1;
        }
        false
    }

    /// Removes the sounds that have stopped from a list and keeps the
    /// others in their order. `stopped` says of each sound, by its place in
    /// the list, whether it has stopped.
    pub fn retain_playing<S>(sounds: &mut Vec<S>, stopped: &Vec<bool>)
        requires
            old(sounds)@.len() == stopped@.len(),
        ensures
            final(sounds)@ == playing(old(sounds)@, stopped@),
    {
        let mut i: usize = sounds.len();
        proof {
            assert(sounds@.skip(i as int) =~= Seq::<S>::empty());
            assert(sounds@.take(i as int) =~= sounds@);
        }
        while i > 0
            invariant
                i <= stopped@.len(),
                old(sounds)@.len() == stopped@.len(),
                sounds@ == old(sounds)@.take(i as int) + playing(
                    old(sounds)@.skip(i as int),
                    stopped@.skip(i as int),
                ),
            decreases i,
        {
            i -= 1;
            let ghost rest = playing(old(sounds)@.skip(i + 1), stopped@.skip(i + 1));
            proof {
                assert(old(sounds)@.skip(i as int).skip(1) =~= old(sounds)@.skip(i + 1));
                assert(stopped@.skip(i as int).skip(1) =~= stopped@.skip(i + 1));
                assert(old(sounds)@.take(i + 1) =~= old(sounds)@.take(i as int).push(
                    old(sounds)@[i as int],
                ));
            }
            if stopped[i] {
                sounds.remove(i);
                assert(sounds@ =~= old(sounds)@.take(i as int) + rest);
            } else {
                assert(sounds@ =~= old(sounds)@.take(i as int) + (seq![old(sounds)@[i as int]]
                    + rest));
            }
        }
        proof {
            assert(old(sounds)@.skip(0) =~= old(sounds)@);
            assert(stopped@.skip(0) =~= stopped@);
            assert(old(sounds)@.take(0) + playing(old(sounds)@, stopped@) =~= playing(
                old(sounds)@,
                stopped@,
            ));
        }
    }
}

} // verus!
