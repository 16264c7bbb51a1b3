//! A real-time musical accompanist core: chord inference over a hidden-Markov
//! model, diatonic scale reduction, and note remapping.
//!
//! Pitch classes are numbered 0..12 anchored at C (the chroma stage anchors
//! bin 0 at C2, about 65.4 Hz), so 0 = C, 2 = D, 4 = E, 7 = G, 9 = A.
//! The chord-name guesser keeps its own A-anchored naming table, matching the
//! bin layout of its spectral front end.

use vstd::prelude::*;

pub mod aggregator;
pub mod chord;
pub mod chord_guesser;
pub mod decoder;
pub mod pitch;
pub mod remap;
pub mod scale;
pub mod sorting;
