//! Delay of visual snapshots, so that what is drawn matches what is heard.
//!
//! The audio ring buffer plays samples some time after they were made; the
//! snapshots taken when they were made are held back by as many batches as
//! the audio buffer holds.

use vstd::prelude::*;
use std::collections::VecDeque;
use crate::cli::VisualSnapshot;

verus! {

/// Abstract state of a delay buffer.
pub struct DelayView {
    /// Snapshots waiting, oldest first.
    pub queue: Seq<VisualSnapshot>,
    /// Number of snapshots held back.
    pub target_delay: nat,
    /// The snapshot handed to the display.
    pub current: VisualSnapshot,
}

/// Number of batches that the audio buffer holds, at least one.
pub open spec fn target_delay_for(audio_buffer_samples: nat, batch_size: nat) -> nat
    recommends
        batch_size > 0,
{
    if audio_buffer_samples / batch_size >= 1 { audio_buffer_samples / batch_size } else { 1 }
}

/// The snapshot that an empty snapshot stands for.
pub open spec fn empty_snapshot(s: VisualSnapshot) -> bool {
    &&& s.psg_count == 0
    &&& !s.sync_buzzer
    &&& forall|p: int, r: int| 0 <= p < 4 && 0 <= r < 16 ==> s.registers[p][r] == 0
    &&& forall|c: int| 0 <= c < 12 ==> !s.sid_active[c] && !s.drum_active[c]
}

/// One push: the snapshot joins the queue; once the queue holds more than
/// the target delay, its oldest snapshot leaves and becomes the current one.
pub open spec fn push_model(v: DelayView, s: VisualSnapshot) -> DelayView {
    let q = v.queue.push(s);
    if q.len() > v.target_delay {
        DelayView { queue: q.drop_first(), target_delay: v.target_delay, current: q[0] }
    } else {
        DelayView { queue: q, target_delay: v.target_delay, current: v.current }
    }
}

/// Pushes of a whole sequence of snapshots, first to last.
pub open spec fn push_all(v: DelayView, s: Seq<VisualSnapshot>) -> DelayView
    decreases s.len(),
{
    if s.len() == 0 {
        v
    } else {
        push_model(push_all(v, s.drop_last()), s.last())
    }
}

/// Delay buffer for visual snapshots.
pub struct SnapshotDelayBuffer {
    snapshots: VecDeque<VisualSnapshot>,
    target_delay: usize,
    current_delayed: VisualSnapshot,
}

impl View for SnapshotDelayBuffer {
    type V = DelayView;

    closed spec fn view(&self) -> DelayView {
        DelayView {
            queue: self.snapshots@,
            target_delay: self.target_delay as nat,
            current: self.current_delayed,
        }
    }
}

impl SnapshotDelayBuffer {
    #[verifier::type_invariant]
    closed spec fn wf(self) -> bool {
        &&& self.target_delay >= 1
        &&& self.snapshots@.len() <= self.target_delay
    }

    /// A delay buffer for an audio buffer of `audio_buffer_samples` samples
    /// filled in batches of `batch_size` samples.
    pub fn new(audio_buffer_samples: usize, batch_size: usize) -> (b: Self)
        requires
            batch_size > 0,
        ensures
            b@.queue == Seq::<VisualSnapshot>::empty(),
            b@.target_delay == target_delay_for(audio_buffer_samples as nat, batch_size as nat),
            empty_snapshot(b@.current),
            b@.target_delay >= 1,
    {
        let batches = audio_buffer_samples / batch_size;
        let target_delay = if batches >= 1 { batches } else { 1 };
        SnapshotDelayBuffer {
            snapshots: VecDeque::new(),
            target_delay,
            current_delayed: VisualSnapshot::default(),
        }
    }

    /// Pushes a new snapshot; once more than the target delay are waiting,
    /// the oldest becomes the current delayed snapshot.
    pub fn push(&mut self, snapshot: VisualSnapshot)
        ensures
            final(self)@ == push_model(old(self)@, snapshot),
            final(self)@.target_delay >= 1,
            final(self)@.queue.len() <= final(self)@.target_delay,
    {
        proof {
            use_type_invariant(&*self);
        }
        let mut queue = VecDeque::new();
        std::mem::swap(&mut queue, &mut self.snapshots);
        queue.push_back(snapshot);
        if queue.len() > self.target_delay {
            let front = queue.pop_front();
            if let Some(delayed) = front {
                self.current_delayed = delayed;
            }
        }
        self.snapshots = queue;
    }

    /// The current delayed snapshot.
    pub fn get_delayed(&self) -> (s: VisualSnapshot)
        ensures
            s == self@.current,
            self@.target_delay >= 1,
            self@.queue.len() <= self@.target_delay,
    {
        proof {
            use_type_invariant(self);
        }
        self.current_delayed
    }

    /// Empties the buffer and resets the current snapshot.
    pub fn clear(&mut self)
        ensures
            final(self)@.queue == Seq::<VisualSnapshot>::empty(),
            final(self)@.target_delay == old(self)@.target_delay,
            empty_snapshot(final(self)@.current),
            final(self)@.target_delay >= 1,
    {
        proof {
            use_type_invariant(&*self);
        }
        let mut queue = VecDeque::new();
        std::mem::swap(&mut queue, &mut self.snapshots);
        queue.clear();
        self.snapshots = queue;
        self.current_delayed = VisualSnapshot::default();
    }
}

/// After any run of pushes the queue holds the last snapshots, at most the
/// target delay of them; once more than the target delay have passed in
/// all, the current snapshot is the one pushed the target delay before the
/// last, so what is shown trails what is generated by exactly that many
/// batches.
pub proof fn lemma_push_all_delays(v: DelayView, s: Seq<VisualSnapshot>)
    requires
        v.target_delay >= 1,
        v.queue.len() <= v.target_delay,
    ensures
        ({
            let all = v.queue + s;
            let r = push_all(v, s);
            &&& r.target_delay == v.target_delay
            &&& all.len() <= v.target_delay ==> r.queue == all && r.current == v.current
            &&& all.len() > v.target_delay ==> r.queue == all.subrange(
                all.len() - v.target_delay,
                all.len() as int,
            )
            &&& all.len() > v.target_delay && s.len() > 0 ==> r.current == all[all.len() - 1
                - v.target_delay]
        }),
    decreases s.len(),
{
    let all = v.queue + s;
    if s.len() == 0 {
        assert(all =~= v.queue);
    } else {
        let p = s.drop_last();
        lemma_push_all_delays(v, p);
        let prev_all = v.queue + p;
        assert(all =~= prev_all.push(s.last()));
        let r0 = push_all(v, p);
        let t = v.target_delay;
        if prev_all.len() <= t {
            assert(r0.queue == prev_all);
            if all.len() > t {
                assert(r0.queue.push(s.last()).drop_first() =~= all.subrange(all.len() - t, all.len() as int));
            } else {
                assert(r0.queue.push(s.last()) =~= all);
            }
        } else {
            assert(r0.queue =~= prev_all.subrange(prev_all.len() - t, prev_all.len() as int));
            assert(r0.queue.push(s.last()).drop_first() =~= all.subrange(all.len() - t, all.len() as int));
            assert(r0.queue.push(s.last())[0] == all[all.len() - 1 - t]);
        }
    }
}

/// From a fresh buffer (empty queue, empty current snapshot) with target
/// delay `d`, after pushing `s[0]`, ..., `s[n - 1]` the display shows
/// `s[n - 1 - d]` once more than `d` were pushed, and the empty snapshot
/// before that; at most `d` snapshots stay queued.
pub proof fn lemma_fresh_buffer_delay(v: DelayView, s: Seq<VisualSnapshot>)
    requires
        v.target_delay >= 1,
        v.queue == Seq::<VisualSnapshot>::empty(),
        empty_snapshot(v.current),
    ensures
        ({
            let r = push_all(v, s);
            let d = v.target_delay;
            &&& s.len() > d ==> r.current == s[s.len() - 1 - d]
            &&& s.len() <= d ==> empty_snapshot(r.current)
            &&& r.queue.len() <= d
        }),
{
    lemma_push_all_delays(v, s);
    assert(v.queue + s =~= s);
}

} // verus!
