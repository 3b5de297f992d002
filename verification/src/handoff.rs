//! Single-slot frame hand-off between the audio and render timelines.
//!
//! The audio timeline decodes at its own real-time cadence and publishes the
//! most recently decoded frame; the render timeline consumes at most one
//! frame per tick, without blocking, and proceeds with stale color data when
//! nothing new has arrived. There is no queue and no back-pressure: a
//! publish overwrites whatever was pending (last write wins). This type is
//! the slot's semantics; making it linearizable across the two timelines is
//! the caller's concern.

use vstd::prelude::*;
use crate::color::AudioFrame;

verus! {

/// A single-slot, last-write-wins hand-off of decoded audio frames.
pub struct FrameSlot {
    /// The most recently published frame that has not been consumed yet.
    pub pending: Option<AudioFrame>,
}

impl FrameSlot {
    /// A slot with nothing pending.
    pub fn empty() -> (s: Self)
        ensures
            s.pending is None,
    {
        FrameSlot { pending: None }
    }

    /// Publish a freshly decoded frame. Last write wins: whatever was
    /// pending is discarded unseen.
    pub fn publish(&mut self, frame: AudioFrame)
        ensures
            final(self).pending == Some(frame),
    {
        self.pending = Some(frame);
    }

    /// Consume the pending frame, if any, leaving the slot empty. `None`
    /// means no frame arrived since the last consume: the renderer keeps
    /// its stale colors for this tick.
    pub fn consume(&mut self) -> (r: Option<AudioFrame>)
        ensures
            r == old(self).pending,
            final(self).pending is None,
    {
        self.pending.take()
    }
}

} // verus!
