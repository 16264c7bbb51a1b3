//! Control state of the observation aggregator: the bookkeeping that
//! decides, per audio block, how the observation window changes and when
//! the decoder may run.  The numeric chroma data itself lives with the
//! caller; this state machine only tracks window length and warm-up.

use vstd::prelude::*;

verus! {

/// Capacity of the observation window: one slot per HMM state.
pub const MAX_OBSERVATIONS: usize = 24;

/// Frames that must merge into the newest observation before a decode.
pub const WARMUP_FRAMES: u32 = 3;

/// The aggregator's control state.
#[derive(Clone, Copy, Debug, PartialEq, Eq, Structural)]
pub struct Aggregator {
    /// Observations currently in the window, the newest still merging.
    pub obs_len: usize,
    /// Frames merged into the newest observation since the last beat.
    /// Saturates instead of wrapping; only the warm-up test reads it.
    pub agg_count: u32,
}

/// What the audio callback must do with its numeric observation data
/// after one block is folded in.
#[derive(Clone, Copy, Debug, PartialEq, Eq, Structural)]
pub struct BlockDecision {
    /// A beat opened a fresh observation (otherwise merge into the last).
    pub push_new: bool,
    /// The window overflowed and its oldest observation is dropped.
    pub pop_front: bool,
    /// Enough frames accumulated since the last beat to decode.
    pub decode: bool,
}

/// The state after silence, and at start-up: a single (zero) observation,
/// nothing merged yet.
pub open spec fn spec_reset() -> Aggregator {
    Aggregator { obs_len: 1, agg_count: 0 }
}

/// One block folded into the window: a beat pushes a fresh observation
/// and restarts the frame count at one, any other block merges and counts
/// one more frame; the window is capped at 24 by dropping its oldest
/// entry; decoding waits for three frames since the last beat.
pub open spec fn spec_on_block(s: Aggregator, beat: bool) -> (Aggregator, BlockDecision) {
    let grown = if beat {
        s.obs_len + 1
    } else {
        s.obs_len as int
    };
    let pop = grown > 24;
    let len2 = if pop {
        grown - 1
    } else {
        grown
    };
    let count = if beat {
        1u32
    } else if s.agg_count == u32::MAX {
        u32::MAX
    } else {
        (s.agg_count + 1) as u32
    };
    (
        Aggregator { obs_len: len2 as usize, agg_count: count },
        BlockDecision { push_new: beat, pop_front: pop, decode: count >= 3 },
    )
}

impl Aggregator {
    pub open spec fn wf(self) -> bool {
        1 <= self.obs_len <= 24
    }

    /// Start with a single silent observation in the window.
    pub fn new() -> (r: Self)
        ensures
            r == spec_reset(),
            r.wf(),
    {
        Aggregator { obs_len: 1, agg_count: 0 }
    }

    /// A silent block clears the window back to a single zero observation
    /// and forgets the frames merged so far.
    pub fn on_silence(&mut self)
        ensures
            *final(self) == spec_reset(),
            final(self).wf(),
    {
        self.obs_len = 1;
        self.agg_count = 0;
    }

    /// Fold one audio block in and report what the caller must do with
    /// the numeric observation data.
    pub fn on_block(&mut self, beat: bool) -> (d: BlockDecision)
        requires
            old(self).wf(),
        ensures
            final(self).wf(),
            *final(self) == spec_on_block(*old(self), beat).0,
            d == spec_on_block(*old(self), beat).1,
    {
        let mut pop = false;
        if beat {
            if self.obs_len < MAX_OBSERVATIONS {
                self.obs_len = self.obs_len + 1;
            } else {
                pop = true;
            }
            self.agg_count = 1;
        } else {
            if self.agg_count < u32::MAX {
                self.agg_count = self.agg_count + 1;
            }
        }
        BlockDecision { push_new: beat, pop_front: pop, decode: self.agg_count >= WARMUP_FRAMES }
    }
}

/// Silence clears the aggregator: whatever the next two blocks bring,
/// neither may decode, since three merged frames must accumulate first.
pub proof fn lemma_silence_warmup(b1: bool, b2: bool)
    ensures
        !spec_on_block(spec_reset(), b1).1.decode,
        !spec_on_block(spec_on_block(spec_reset(), b1).0, b2).1.decode,
{
}

} // verus!
