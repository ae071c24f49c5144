//! The layout of one output frame.

use vstd::prelude::*;

verus! {

/// What a frame holds after the outputs were written to it: a frame of
/// two or more channels takes `left` and `right` in its first two slots
/// and keeps the rest; a frame of one channel takes `mono`; an empty
/// frame stays empty.
pub open spec fn spec_write_frame<T>(frame: Seq<T>, left: T, right: T, mono: T) -> Seq<T> {
    if frame.len() >= 2 {
        frame.update(0, left).update(1, right)
    } else if frame.len() == 1 {
        frame.update(0, mono)
    } else {
        frame
    }
}

/// Writes the outputs of the master bus to one frame of the device
/// buffer. `mono` is the mix of both sides, for a device with one
/// channel.
pub fn write_frame<T: Copy>(frame: &mut [T], left: T, right: T, mono: T)
    ensures
        final(frame)@ == spec_write_frame(old(frame)@, left, right, mono),
{
    if frame.len() >= 2 {
        frame[0] = left;
        frame[1] = right;
    } else if frame.len() == 1 {
        frame[0] = mono;
    }
}

} // verus!
