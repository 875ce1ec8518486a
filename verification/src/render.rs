//! How the render stage lays a stereo frame out over the channels of the
//! output device.

use vstd::prelude::*;

verus! {

/// The part of a stereo frame that an output slot carries.
#[derive(Debug, Clone, Copy, PartialEq, Eq, Structural)]
pub enum Feed {
    /// The mean of the left and the right sample.
    Mix,
    /// The left sample.
    Left,
    /// The right sample.
    Right,
}

/// What slot `slot` of an output frame of `channels` slots carries. A single
/// slot carries the mix. Of two or more, the first carries the left sample,
/// the second the right one, and the slots after them go on in turn.
pub open spec fn feed_of(channels: nat, slot: nat) -> Feed {
    if channels == 1 {
        Feed::Mix
    } else if slot % 2 == 0 {
        Feed::Left
    } else {
        Feed::Right
    }
}

/// What slot `slot` of an output frame of `channels` slots carries.
pub fn output_feed(channels: usize, slot: usize) -> (feed: Feed)
    ensures
        feed == feed_of(channels as nat, slot as nat),
{
    if channels == 1 {
        Feed::Mix
    } else if slot % 2 == 0 {
        Feed::Left
    } else {
        Feed::Right
    }
}

} // verus!
