//! Sample layout for audio export.

use vstd::prelude::*;

verus! {

/// Mono samples as interleaved stereo: each sample twice, left then right.
pub fn mono_to_stereo<T: Copy>(mono: &[T]) -> (stereo: Vec<T>)
    requires
        mono@.len() * 2 <= usize::MAX,
    ensures
        stereo@.len() == mono@.len() * 2,
        forall|i: int|
            0 <= i < mono@.len() ==> #[trigger] stereo@[2 * i] == mono@[i] && stereo@[2 * i + 1]
                == mono@[i],
{
    let mut stereo: Vec<T> = Vec::new();
    let mut i: usize = 0;
    while i < mono.len()
        invariant
            i <= mono@.len(),
            mono@.len() * 2 <= usize::MAX,
            stereo@.len() == 2 * i,
            forall|j: int|
                0 <= j < i ==> #[trigger] stereo@[2 * j] == mono@[j] && stereo@[2 * j + 1]
                    == mono@[j],
        decreases mono@.len() - i,
    {
        let s = mono[i];
        let ghost prev = stereo@;
        stereo.push(s);
        stereo.push(s);
        proof {
            assert forall|j: int| 0 <= j < i + 1 implies #[trigger] stereo@[2 * j] == mono@[j]
                && stereo@[2 * j + 1] == mono@[j] by {
                if j < i {
                    assert(stereo@[2 * j] == prev[2 * j]);
                    assert(stereo@[2 * j + 1] == prev[2 * j + 1]);
                }
            }
        }
        i = i + 1;
    }
    stereo
}

} // verus!
