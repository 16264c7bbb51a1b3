//! The note remapper: quantizes a performer's raw notes onto the inferred
//! chord or scale and remembers, per raw key, which note it emitted so the
//! matching release can be sent later.

use vstd::prelude::*;

verus! {

use crate::chord::Chord;
use crate::chord::ChordType;
use crate::chord::chord_pc_set;
use crate::pitch::pc;
use crate::scale::Scale;

/// The remapping modes, a closed set.
#[derive(Clone, Copy, Debug, PartialEq, Eq, Structural)]
pub enum SoloMode {
    /// Snap down by at most three semitones to the nearest chord tone.
    Chord,
    /// Snap the chromatic step down to the current scale's diatonic step.
    Nearest,
    /// Keep the chromatic step, shifted to the current scale's root.
    Transpose,
}

/// Chromatic-step-to-diatonic-step table of the `Nearest` mode: each of
/// the twelve positions within an octave snapped down to a major-scale
/// degree.
pub open spec fn nearest_table() -> Seq<int> {
    seq![0, 2, 2, 4, 4, 5, 7, 7, 9, 9, 11, 11]
}

/// Chord-mode snapping: the first of `note`, `note - 1`, `note - 2`,
/// `note - 3` whose pitch class the chord contains, or `note` unchanged
/// when none is (or when the three-semitone window would leave the key
/// range at the bottom).
pub open spec fn spec_chord_snap(c: Chord, note: int) -> int {
    if note < 3 {
        note
    } else if chord_pc_set(c).contains(pc(note)) {
        note
    } else if chord_pc_set(c).contains(pc(note - 1)) {
        note - 1
    } else if chord_pc_set(c).contains(pc(note - 2)) {
        note - 2
    } else if chord_pc_set(c).contains(pc(note - 3)) {
        note - 3
    } else {
        note
    }
}

/// Where a raw note lands under each mode.
pub open spec fn spec_map_note(mode: SoloMode, chord: Chord, scale: Scale, note: int) -> int {
    match mode {
        SoloMode::Chord => spec_chord_snap(chord, note),
        SoloMode::Nearest => 12 * (note / 12) + nearest_table()[note % 12] + scale.root,
        SoloMode::Transpose => 12 * (note / 12) + note % 12 + scale.root,
    }
}

/// The remapper's state: the latest decoded chord and scale, the active
/// mode, and the per-key history of emitted notes.
pub struct NoteRemapper {
    pub mode: SoloMode,
    pub chord: Chord,
    pub scale: Scale,
    /// For each raw key 0..128, the note its last note-on emitted.
    pub history: Vec<u8>,
}

impl NoteRemapper {
    pub open spec fn wf(self) -> bool {
        &&& self.chord.wf()
        &&& self.scale.wf()
        &&& self.history@.len() == 128
    }

    /// Start in chord mode on C major over the C scale, with an empty
    /// (all-zero) key history.
    pub fn new() -> (r: Self)
        ensures
            r.wf(),
            r.mode == SoloMode::Chord,
            r.chord == (Chord { root: 0, chord_type: ChordType::Major }),
            r.scale == (Scale { root: 0 }),
            forall|k: int| 0 <= k < 128 ==> (#[trigger] r.history@[k]) == 0,
    {
        let mut history: Vec<u8> = Vec::new();
        let mut k: usize = 0;
        while k < 128
            invariant
                k <= 128,
                history@.len() == k,
                forall|j: int| 0 <= j < k ==> (#[trigger] history@[j]) == 0,
            decreases 128 - k,
        {
            history.push(0);
            k = k + 1;
        }
        NoteRemapper {
            mode: SoloMode::Chord,
            chord: Chord { root: 0, chord_type: ChordType::Major },
            scale: Scale { root: 0 },
            history,
        }
    }

    pub fn set_mode(&mut self, mode: SoloMode)
        requires
            old(self).wf(),
        ensures
            final(self).wf(),
            final(self).mode == mode,
            final(self).chord == old(self).chord,
            final(self).scale == old(self).scale,
            final(self).history == old(self).history,
    {
        self.mode = mode;
    }

    pub fn set_chord(&mut self, chord: Chord)
        requires
            old(self).wf(),
            chord.wf(),
        ensures
            final(self).wf(),
            final(self).chord == chord,
            final(self).mode == old(self).mode,
            final(self).scale == old(self).scale,
            final(self).history == old(self).history,
    {
        self.chord = chord;
    }

    pub fn set_scale(&mut self, scale: Scale)
        requires
            old(self).wf(),
            scale.wf(),
        ensures
            final(self).wf(),
            final(self).scale == scale,
            final(self).mode == old(self).mode,
            final(self).chord == old(self).chord,
            final(self).history == old(self).history,
    {
        self.scale = scale;
    }

    /// Where a raw note lands under the current mode, chord and scale.
    pub fn map_note(&self, note: u8) -> (m: u8)
        requires
            self.wf(),
            note < 128,
        ensures
            m == spec_map_note(self.mode, self.chord, self.scale, note as int),
            m < 143,
    {
        match self.mode {
            SoloMode::Chord => {
                if note >= 3 {
                    if self.chord.contains_pc(note % 12) {
                        note
                    } else if self.chord.contains_pc((note - 1) % 12) {
                        note - 1
                    } else if self.chord.contains_pc((note - 2) % 12) {
                        note - 2
                    } else if self.chord.contains_pc((note - 3) % 12) {
                        note - 3
                    } else {
                        note
                    }
                } else {
                    note
                }
            },
            SoloMode::Nearest => {
                let octave = (note / 12) * 12;
                octave + nearest_step(note % 12) + self.scale.root
            },
            SoloMode::Transpose => {
                let octave = (note / 12) * 12;
                octave + note % 12 + self.scale.root
            },
        }
    }

    /// Handle a key press: emit and remember the mapped note for this key.
    pub fn note_on(&mut self, note: u8) -> (m: u8)
        requires
            old(self).wf(),
            note < 128,
        ensures
            final(self).wf(),
            m == spec_map_note(old(self).mode, old(self).chord, old(self).scale, note as int),
            final(self).history@ == old(self).history@.update(note as int, m),
            final(self).mode == old(self).mode,
            final(self).chord == old(self).chord,
            final(self).scale == old(self).scale,
    {
        let m = self.map_note(note);
        self.history.set(note as usize, m);
        m
    }

    /// Handle a key release: the note to silence is the one this key's
    /// last press emitted.
    pub fn note_off(&self, note: u8) -> (m: u8)
        requires
            self.wf(),
            note < 128,
        ensures
            m == self.history@[note as int],
    {
        self.history[note as usize]
    }
}

/// The `Nearest` snap of one chromatic step within the octave.
fn nearest_step(p: u8) -> (r: u8)
    requires
        p < 12,
    ensures
        r == nearest_table()[p as int],
        r < 12,
{
    match p {
        0 => 0,
        1 => 2,
        2 => 2,
        3 => 4,
        4 => 4,
        5 => 5,
        6 => 7,
        7 => 7,
        8 => 9,
        9 => 9,
        10 => 11,
        _ => 11,
    }
}

/// A key history with the presses of `later` applied in order, each press
/// storing its mapped note under its raw key.
pub open spec fn apply_presses(h: Seq<u8>, later: Seq<(int, u8)>) -> Seq<u8>
    decreases later.len(),
{
    if later.len() == 0 {
        h
    } else {
        apply_presses(h.update(later[0].0, later[0].1), later.drop_first())
    }
}

/// Every emitted note-on is released intact: once a press of raw key `k`
/// stores its mapped note `m`, a later release of `k` reads `m` back,
/// however many other keys were pressed in between.
pub proof fn lemma_note_off_matches_note_on(h: Seq<u8>, k: int, m: u8, later: Seq<(int, u8)>)
    requires
        0 <= k < h.len(),
        forall|i: int|
            0 <= i < later.len() ==> (#[trigger] later[i]).0 != k && 0 <= later[i].0 < h.len(),
    ensures
        apply_presses(h.update(k, m), later)[k] == m,
    decreases later.len(),
{
    if later.len() == 0 {
    } else {
        let j = later[0].0;
        let v = later[0].1;
        assert(h.update(k, m).update(j, v) =~= h.update(j, v).update(k, m));
        lemma_note_off_matches_note_on(h.update(j, v), k, m, later.drop_first());
    }
}

} // verus!
