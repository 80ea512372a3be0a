use vstd::prelude::*;

use crate::lifecycle::ProcessStatus;

verus! {

/// The samples that channel `c` of a buffer holds.
pub open spec fn channel<S>(buffer: Seq<&mut [S]>, c: int) -> Seq<S> {
    buffer[c]@
}

/// Number of frames that the stereo transform runs over: the shorter of the first
/// two channels (the host hands channels of one length, so this is the block size).
pub open spec fn stereo_frames<S>(buffer: Seq<&mut [S]>) -> int {
    if channel(buffer, 0).len() <= channel(buffer, 1).len() {
        channel(buffer, 0).len() as int
    } else {
        channel(buffer, 1).len() as int
    }
}

/// Whether `after` is `before` with every frame of the first two channels passed
/// through `frame` and every other sample left alone.  A buffer of fewer than two
/// channels is left alone entirely.
pub open spec fn processed_by<S, F: Fn(S, S) -> (S, S)>(
    before: Seq<&mut [S]>,
    after: Seq<&mut [S]>,
    frame: F,
) -> bool {
    &&& after.len() == before.len()
    &&& forall|c: int|
        0 <= c < before.len() ==> #[trigger] channel(after, c).len() == channel(before, c).len()
    &&& forall|c: int|
        0 <= c < before.len() && (c >= 2 || before.len() < 2) ==> #[trigger] channel(after, c)
            == channel(before, c)
    &&& before.len() >= 2 ==> {
        &&& forall|i: int|
            0 <= i < stereo_frames(before) ==> frame.ensures(
                (channel(before, 0)[i], channel(before, 1)[i]),
                (#[trigger] channel(after, 0)[i], channel(after, 1)[i]),
            )
        &&& forall|i: int|
            stereo_frames(before) <= i < channel(before, 0).len() ==> #[trigger] channel(after, 0)[i]
                == channel(before, 0)[i]
        &&& forall|i: int|
            stereo_frames(before) <= i < channel(before, 1).len() ==> #[trigger] channel(after, 1)[i]
                == channel(before, 1)[i]
    }
}

/// Whether `frame` is its own inverse: whatever it makes of a frame, it turns back
/// into that frame.
pub open spec fn is_involution<S, F: Fn(S, S) -> (S, S)>(frame: F) -> bool {
    forall|l: S, r: S, a: S, b: S, x: S, y: S|
        #![trigger frame.ensures((l, r), (a, b)), frame.ensures((a, b), (x, y))]
        frame.ensures((l, r), (a, b)) && frame.ensures((a, b), (x, y)) ==> x == l && y == r
}

/// Processing a block twice with a frame transform that is its own inverse gives
/// the block back: every channel holds what it held before the first pass.
pub proof fn lemma_process_twice_restores<S, F: Fn(S, S) -> (S, S)>(
    first: Seq<&mut [S]>,
    second: Seq<&mut [S]>,
    third: Seq<&mut [S]>,
    frame: F,
)
    requires
        processed_by(first, second, frame),
        processed_by(second, third, frame),
        is_involution(frame),
    ensures
        third.len() == first.len(),
        forall|c: int| 0 <= c < first.len() ==> #[trigger] channel(third, c) == channel(first, c),
{
    assert forall|c: int| 0 <= c < first.len() implies #[trigger] channel(third, c) == channel(
        first,
        c,
    ) by {
        assert(channel(second, c).len() == channel(first, c).len());
        assert(channel(third, c).len() == channel(second, c).len());
        if c < 2 && first.len() >= 2 {
            assert(channel(second, 0).len() == channel(first, 0).len());
            assert(channel(second, 1).len() == channel(first, 1).len());
            assert(stereo_frames(second) == stereo_frames(first));
            assert forall|i: int| 0 <= i < channel(first, c).len() implies channel(third, c)[i]
                == channel(first, c)[i] by {
                if i < stereo_frames(first) {
                    assert(frame.ensures(
                        (channel(first, 0)[i], channel(first, 1)[i]),
                        (channel(second, 0)[i], channel(second, 1)[i]),
                    ));
                    assert(frame.ensures(
                        (channel(second, 0)[i], channel(second, 1)[i]),
                        (channel(third, 0)[i], channel(third, 1)[i]),
                    ));
                } else if c == 0 {
                    assert(channel(third, 0)[i] == channel(second, 0)[i]);
                } else {
                    assert(channel(third, 1)[i] == channel(second, 1)[i]);
                }
            }
            assert(channel(third, c) =~= channel(first, c));
        }
    }
}

/// Runs the stereo frame transform over one block, in place.
///
/// Each frame `i` of channels 0 and 1 becomes `frame(left[i], right[i])`.  A buffer
/// with fewer than two channels is a shape the host should not deliver; it is left
/// as it is.  Channels past the first two are never read or written.  Nothing is
/// allocated.
pub fn process_block<S: Copy, F: Fn(S, S) -> (S, S)>(
    buffer: &mut [&mut [S]],
    frame: &F,
) -> (status: ProcessStatus)
    requires
        forall|l: S, r: S| frame.requires((l, r)),
    ensures
        status == ProcessStatus::Normal,
        processed_by(old(buffer)@, final(buffer)@, *frame),
{
    if buffer.len() < 2 {
        return ProcessStatus::Normal;
    }
    let frames: usize = if buffer[0].len() <= buffer[1].len() {
        buffer[0].len()
    } else {
        buffer[1].len()
    };
    let mut i: usize = 0;
    while i < frames
        invariant
            forall|l: S, r: S| frame.requires((l, r)),
            old(buffer)@.len() >= 2,
            frames == stereo_frames(old(buffer)@),
            0 <= i <= frames,
            buffer@.len() == old(buffer)@.len(),
            channel(buffer@, 0).len() == channel(old(buffer)@, 0).len(),
            channel(buffer@, 1).len() == channel(old(buffer)@, 1).len(),
            forall|c: int|
                0 <= c < old(buffer)@.len() ==> #[trigger] channel(buffer@, c).len() == channel(
                    old(buffer)@,
                    c,
                ).len(),
            forall|c: int|
                2 <= c < old(buffer)@.len() ==> #[trigger] channel(buffer@, c) == channel(
                    old(buffer)@,
                    c,
                ),
            forall|j: int|
                0 <= j < i ==> frame.ensures(
                    (channel(old(buffer)@, 0)[j], channel(old(buffer)@, 1)[j]),
                    (#[trigger] channel(buffer@, 0)[j], channel(buffer@, 1)[j]),
                ),
            forall|j: int|
                i <= j < channel(old(buffer)@, 0).len() ==> #[trigger] channel(buffer@, 0)[j]
                    == channel(old(buffer)@, 0)[j],
            forall|j: int|
                i <= j < channel(old(buffer)@, 1).len() ==> #[trigger] channel(buffer@, 1)[j]
                    == channel(old(buffer)@, 1)[j],
        decreases frames - i,
    {
        let left: S = buffer[0][i];
        let right: S = buffer[1][i];
        let (new_left, new_right) = frame(left, right);
        let ghost start = buffer@;
        buffer[0][i] = new_left;
        buffer[1][i] = new_right;
        assert forall|c: int| 2 <= c < start.len() implies #[trigger] channel(buffer@, c) == channel(
            start,
            c,
        ) by {
            assert(channel(start, c) == channel(old(buffer)@, c));
        }
        assert forall|c: int| 0 <= c < start.len() implies #[trigger] channel(buffer@, c).len()
            == channel(old(buffer)@, c).len() by {
            assert(channel(start, c).len() == channel(old(buffer)@, c).len());
        }
        i = i + 1;
    }
    ProcessStatus::Normal
}

} // verus!
