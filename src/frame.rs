use vstd::prelude::*;

verus! {

/// Sample that channel `c` of an output frame carries: the left one on even
/// channels, the right one on odd channels. With two channels this is plain
/// stereo; other channel counts get the same alternation.
pub open spec fn channel_sample<T>(c: int, left: T, right: T) -> T {
    if c % 2 == 0 {
        left
    } else {
        right
    }
}

/// Writes one stereo sample over every channel of an interleaved output frame.
pub fn fill_frame<T: Copy>(frame: &mut [T], left: T, right: T)
    ensures
        final(frame)@.len() == old(frame)@.len(),
        forall|c: int|
            0 <= c < final(frame)@.len() ==> #[trigger] final(frame)@[c] == channel_sample(
                c,
                left,
                right,
            ),
{
    let n: usize = frame.len();
    let mut c: usize = 0;
    while c < n
        invariant
            n == frame@.len(),
            c <= n,
            forall|j: int| 0 <= j < c ==> #[trigger] frame@[j] == channel_sample(j, left, right),
        decreases n - c,
    {
        if c % 2 == 0 {
            frame[c] = left;
        } else {
            frame[c] = right;
        }
        c = c + 1;
    }
}

} // verus!
