//! Diatonic scales and the scale reducer: the most restrictive major scale
//! consistent with the recent chord history.

use vstd::prelude::*;

verus! {

use crate::chord::Chord;
use crate::chord::chord_pc_set;
use crate::pitch::pc;

/// A major (diatonic) scale, identified by its root pitch class.
#[derive(Clone, Copy, Debug, PartialEq, Eq, Structural)]
pub struct Scale {
    pub root: u8,
}

/// The pitch classes a major scale contains: the seven diatonic offsets
/// transposed to the scale's root.
pub open spec fn scale_pc_set(s: Scale) -> Set<int> {
    set![
        pc(s.root + 0),
        pc(s.root + 2),
        pc(s.root + 4),
        pc(s.root + 5),
        pc(s.root + 7),
        pc(s.root + 9),
        pc(s.root + 11),
    ]
}

/// A scale's pitch classes, listed from the root upward.
pub open spec fn spec_scale_notes(s: Scale) -> Seq<u8> {
    seq![
        pc(s.root + 0) as u8,
        pc(s.root + 2) as u8,
        pc(s.root + 4) as u8,
        pc(s.root + 5) as u8,
        pc(s.root + 7) as u8,
        pc(s.root + 9) as u8,
        pc(s.root + 11) as u8,
    ]
}

impl Scale {
    pub open spec fn wf(self) -> bool {
        self.root < 12
    }

    /// The scale's pitch classes from the root upward.
    pub fn notes(&self) -> (r: Vec<u8>)
        requires
            self.wf(),
        ensures
            r@ == spec_scale_notes(*self),
            r@.len() == 7,
    {
        let mut r: Vec<u8> = Vec::new();
        r.push((self.root + 0) % 12);
        r.push((self.root + 2) % 12);
        r.push((self.root + 4) % 12);
        r.push((self.root + 5) % 12);
        r.push((self.root + 7) % 12);
        r.push((self.root + 9) % 12);
        r.push((self.root + 11) % 12);
        proof {
            assert(r@ =~= spec_scale_notes(*self));
        }
        r
    }

    /// Whether pitch class `p` belongs to this scale.
    pub fn contains_pc(&self, p: u8) -> (b: bool)
        requires
            self.wf(),
        ensures
            b == scale_pc_set(*self).contains(p as int),
    {
        p == (self.root + 0) % 12 || p == (self.root + 2) % 12 || p == (self.root + 4) % 12
            || p == (self.root + 5) % 12 || p == (self.root + 7) % 12
            || p == (self.root + 9) % 12 || p == (self.root + 11) % 12
    }
}

/// The twelve candidate scales in canonical order, roots ascending.
pub open spec fn all_scales() -> Seq<Scale> {
    Seq::new(12, |i: int| Scale { root: i as u8 })
}

/// Whether scale `s` can accompany every pitch class in `notes`.
pub open spec fn covers(s: Scale, notes: Set<int>) -> bool {
    notes.subset_of(scale_pc_set(s))
}

/// The candidates that survive one filter step, kept in order.
pub open spec fn filtered(cands: Seq<Scale>, notes: Set<int>) -> Seq<Scale>
    decreases cands.len(),
{
    if cands.len() == 0 {
        Seq::empty()
    } else {
        filtered(cands.drop_last(), notes) + if covers(cands.last(), notes) {
            seq![cands.last()]
        } else {
            Seq::empty()
        }
    }
}

/// The reducer's walk over the chord history: `i` chords remain, newest
/// first; `cands` are the surviving candidates and `notes` the pitch
/// classes gathered so far.  An empty filter result falls back to the
/// first previous candidate; a singleton decides; otherwise the filtered
/// set carries on.
pub open spec fn spec_reduce(chords: Seq<Chord>, i: int, cands: Seq<Scale>, notes: Set<int>) -> Scale
    decreases i,
{
    if i <= 0 {
        cands[0]
    } else {
        let gathered = notes + chord_pc_set(chords[i - 1]);
        let rem = filtered(cands, gathered);
        if rem.len() == 0 {
            cands[0]
        } else if rem.len() == 1 {
            rem[0]
        } else {
            spec_reduce(chords, i - 1, rem, gathered)
        }
    }
}

/// The scale the reducer settles on for a chord history (most recent last).
pub open spec fn spec_scale_from_chords(chords: Seq<Chord>) -> Scale {
    spec_reduce(chords, chords.len() as int, all_scales(), Set::empty())
}

/// The pitch classes marked in a 12-entry membership table.
pub open spec fn marked_pcs(v: Seq<bool>) -> Set<int> {
    Set::new(|p: int| 0 <= p < 12 && v[p])
}

/// Mark a chord's three pitch classes in the membership table.
fn mark_chord(notes: &mut Vec<bool>, c: Chord)
    requires
        old(notes)@.len() == 12,
        c.wf(),
    ensures
        final(notes)@.len() == 12,
        marked_pcs(final(notes)@) == marked_pcs(old(notes)@) + chord_pc_set(c),
{
    let third: u8 = match c.chord_type {
        crate::chord::ChordType::Major => (c.root + 4) % 12,
        crate::chord::ChordType::Minor => (c.root + 3) % 12,
    };
    let fifth: u8 = (c.root + 7) % 12;
    notes.set(c.root as usize, true);
    notes.set(third as usize, true);
    notes.set(fifth as usize, true);
    proof {
        assert(marked_pcs(notes@) =~= marked_pcs(old(notes)@) + chord_pc_set(c));
    }
}

/// Whether the scale contains every marked pitch class.
fn scale_covers(s: &Scale, notes: &Vec<bool>) -> (b: bool)
    requires
        s.wf(),
        notes@.len() == 12,
    ensures
        b == covers(*s, marked_pcs(notes@)),
{
    let mut ok = true;
    let mut p: usize = 0;
    while p < 12
        invariant
            p <= 12,
            s.wf(),
            notes@.len() == 12,
            ok == (forall|q: int| 0 <= q < p ==> notes@[q] ==> scale_pc_set(*s).contains(q)),
        decreases 12 - p,
    {
        if notes[p] && !s.contains_pc(p as u8) {
            ok = false;
        }
        p = p + 1;
    }
    proof {
        if ok {
            assert forall|x: int| marked_pcs(notes@).contains(x) implies scale_pc_set(
                *s,
            ).contains(x) by {}
        } else {
            let q = choose|q: int| 0 <= q < 12 && notes@[q] && !scale_pc_set(*s).contains(q);
            assert(marked_pcs(notes@).contains(q));
        }
    }
    ok
}

/// Every survivor of a filter step covers the note set and was already a
/// candidate.
proof fn lemma_filtered_props(cands: Seq<Scale>, notes: Set<int>)
    ensures
        forall|j: int|
            0 <= j < filtered(cands, notes).len() ==> covers(
                #[trigger] filtered(cands, notes)[j],
                notes,
            ),
        forall|j: int|
            0 <= j < filtered(cands, notes).len() ==> cands.contains(
                #[trigger] filtered(cands, notes)[j],
            ),
    decreases cands.len(),
{
    if cands.len() == 0 {
    } else {
        let prev = cands.drop_last();
        lemma_filtered_props(prev, notes);
        assert forall|j: int| 0 <= j < filtered(cands, notes).len() implies covers(
            #[trigger] filtered(cands, notes)[j],
            notes,
        ) && cands.contains(filtered(cands, notes)[j]) by {
            let rest = filtered(prev, notes);
            if j < rest.len() {
                assert(filtered(cands, notes)[j] == rest[j]);
                let k = choose|k: int| 0 <= k < prev.len() && prev[k] == rest[j];
                assert(cands[k] == rest[j]);
            } else {
                assert(covers(cands.last(), notes));
                assert(filtered(cands, notes)[j] == cands.last());
                assert(cands[cands.len() - 1] == cands.last());
            }
        }
    }
}

/// A filter step keeps at least the candidate at index `k`, if it covers.
proof fn lemma_filtered_keeps(cands: Seq<Scale>, notes: Set<int>, k: int)
    requires
        0 <= k < cands.len(),
        covers(cands[k], notes),
    ensures
        filtered(cands, notes).len() >= 1,
    decreases cands.len(),
{
    if k == cands.len() - 1 {
    } else {
        lemma_filtered_keeps(cands.drop_last(), notes, k);
    }
}

/// The most restrictive major scale consistent with the chord history
/// (most recent last): walking the history newest to oldest, candidates
/// are filtered to scales containing every pitch class seen so far, until
/// the candidates are pinned down or exhausted.
pub fn scale_from_chords(chords: &Vec<Chord>) -> (s: Scale)
    requires
        forall|i: int| 0 <= i < chords@.len() ==> (#[trigger] chords@[i]).wf(),
    ensures
        s == spec_scale_from_chords(chords@),
        s.wf(),
{
    let mut candidates: Vec<Scale> = Vec::new();
    let mut r: u8 = 0;
    while r < 12
        invariant
            r <= 12,
            candidates@.len() == r,
            forall|i: int| 0 <= i < r ==> (#[trigger] candidates@[i]) == (Scale { root: i as u8 }),
        decreases 12 - r,
    {
        candidates.push(Scale { root: r });
        r = r + 1;
    }
    proof {
        assert(candidates@ =~= all_scales());
    }
    let mut notes: Vec<bool> = Vec::new();
    let mut z: usize = 0;
    while z < 12
        invariant
            z <= 12,
            notes@.len() == z,
            forall|i: int| 0 <= i < z ==> !(#[trigger] notes@[i]),
        decreases 12 - z,
    {
        notes.push(false);
        z = z + 1;
    }
    proof {
        assert(marked_pcs(notes@) =~= Set::<int>::empty());
    }
    let mut i: usize = chords.len();
    while i > 0
        invariant
            i <= chords@.len(),
            forall|t: int| 0 <= t < chords@.len() ==> (#[trigger] chords@[t]).wf(),
            candidates@.len() >= 1,
            forall|j: int| 0 <= j < candidates@.len() ==> (#[trigger] candidates@[j]).wf(),
            notes@.len() == 12,
            spec_scale_from_chords(chords@) == spec_reduce(
                chords@,
                i as int,
                candidates@,
                marked_pcs(notes@),
            ),
        decreases i,
    {
        let ghost old_notes = marked_pcs(notes@);
        let ghost old_cands = candidates@;
        let c = chords[i - 1];
        mark_chord(&mut notes, c);
        proof {
            assert(marked_pcs(notes@) == old_notes + chord_pc_set(chords@[i - 1]));
        }
        let rem = filter_candidates(&candidates, &notes);
        proof {
            lemma_filtered_props(old_cands, marked_pcs(notes@));
            assert forall|j: int| 0 <= j < rem@.len() implies (#[trigger] rem@[j]).wf() by {
                let k = choose|k: int| 0 <= k < old_cands.len() && old_cands[k] == rem@[j];
            }
        }
        if rem.len() == 0 {
            return candidates[0];
        } else if rem.len() == 1 {
            return rem[0];
        }
        candidates = rem;
        i = i - 1;
    }
    candidates[0]
}

/// The candidates whose scales contain every marked pitch class.
fn filter_candidates(cands: &Vec<Scale>, notes: &Vec<bool>) -> (r: Vec<Scale>)
    requires
        notes@.len() == 12,
        forall|j: int| 0 <= j < cands@.len() ==> (#[trigger] cands@[j]).wf(),
    ensures
        r@ == filtered(cands@, marked_pcs(notes@)),
{
    let mut r: Vec<Scale> = Vec::new();
    let mut j: usize = 0;
    while j < cands.len()
        invariant
            j <= cands@.len(),
            notes@.len() == 12,
            forall|t: int| 0 <= t < cands@.len() ==> (#[trigger] cands@[t]).wf(),
            r@ == filtered(cands@.subrange(0, j as int), marked_pcs(notes@)),
        decreases cands@.len() - j,
    {
        let keep = scale_covers(&cands[j], notes);
        proof {
            let pre = cands@.subrange(0, j as int);
            let cur = cands@.subrange(0, j + 1);
            assert(cur.drop_last() =~= pre);
            assert(cur.last() == cands@[j as int]);
        }
        if keep {
            r.push(cands[j]);
        }
        j = j + 1;
    }
    proof {
        assert(cands@.subrange(0, cands@.len() as int) =~= cands@);
    }
    r
}

/// A single-chord history is answered with a scale that contains the whole
/// chord.
pub proof fn lemma_single_chord_scale_covers(c: Chord)
    requires
        c.wf(),
    ensures
        chord_pc_set(c).subset_of(scale_pc_set(spec_scale_from_chords(seq![c]))),
{
    let chords = seq![c];
    let gathered = Set::empty() + chord_pc_set(chords[0]);
    assert(gathered =~= chord_pc_set(c));
    let w = witness_scale(c);
    lemma_witness_covers(c);
    assert(all_scales()[w.root as int] == w);
    lemma_filtered_keeps(all_scales(), gathered, w.root as int);
    let rem = filtered(all_scales(), gathered);
    lemma_filtered_props(all_scales(), gathered);
    assert(covers(rem[0], gathered));
    assert(spec_scale_from_chords(chords) == if rem.len() == 1 {
        rem[0]
    } else {
        spec_reduce(chords, 0, rem, gathered)
    });
    assert(spec_scale_from_chords(chords) == rem[0]);
}

/// A scale that always contains a chord: the chord's own root for a major
/// chord, its relative major for a minor one.
pub open spec fn witness_scale(c: Chord) -> Scale {
    match c.chord_type {
        crate::chord::ChordType::Major => Scale { root: c.root },
        crate::chord::ChordType::Minor => Scale { root: pc(c.root + 3) as u8 },
    }
}

/// The witness scale indeed covers the chord.
proof fn lemma_witness_covers(c: Chord)
    requires
        c.wf(),
    ensures
        witness_scale(c).wf(),
        covers(witness_scale(c), chord_pc_set(c)),
{
    let r = c.root as int;
    vstd::arithmetic::div_mod::lemma_small_mod(c.root as nat, 12nat);
    match c.chord_type {
        crate::chord::ChordType::Major => {
            let w = witness_scale(c);
            assert(pc(w.root + 0) == r);
            assert(scale_pc_set(w).contains(r));
            assert(scale_pc_set(w).contains(pc(r + 4)));
            assert(scale_pc_set(w).contains(pc(r + 7)));
        },
        crate::chord::ChordType::Minor => {
            let w = witness_scale(c);
            let wr = w.root as int;
            assert(wr == pc(r + 3));
            vstd::arithmetic::div_mod::lemma_mod_twice(r + 3, 12);
            assert(pc(wr + 0) == pc(r + 3));
            assert(pc(wr + 4) == pc(r + 7)) by {
                vstd::arithmetic::div_mod::lemma_add_mod_noop_right(4, r + 3, 12);
            }
            assert(pc(wr + 9) == pc(r + 12)) by {
                vstd::arithmetic::div_mod::lemma_add_mod_noop_right(9, r + 3, 12);
            }
            assert(pc(r + 12) == r) by {
                vstd::arithmetic::div_mod::lemma_mod_add_multiples_vanish(r, 12);
            }
            assert(scale_pc_set(w).contains(r));
            assert(scale_pc_set(w).contains(pc(r + 3)));
            assert(scale_pc_set(w).contains(pc(r + 7)));
        },
    }
}

} // verus!
