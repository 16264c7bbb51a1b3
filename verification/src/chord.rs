//! Triadic chords: a root pitch class paired with a major or minor quality.
//!
//! The 24 chords are canonically indexed by `2 * root + quality_bit`, the
//! state numbering of the chord HMM.

use vstd::prelude::*;

verus! {

use crate::pitch::pc;

#[derive(Clone, Copy, Debug, PartialEq, Eq, Structural)]
pub enum ChordType {
    Major,
    Minor,
}

#[derive(Clone, Copy, Debug, PartialEq, Eq, Structural)]
pub struct Chord {
    pub root: u8,
    pub chord_type: ChordType,
}

/// 0 for a major chord, 1 for a minor one: the low bit of the canonical index.
pub open spec fn quality_bit(t: ChordType) -> int {
    match t {
        ChordType::Major => 0,
        ChordType::Minor => 1,
    }
}

/// Semitones from the root up to the chord's third: 4 for major, 3 for minor.
pub open spec fn third_interval(t: ChordType) -> int {
    match t {
        ChordType::Major => 4,
        ChordType::Minor => 3,
    }
}

/// The canonical index of a chord among the 24 triads.
pub open spec fn index_of(c: Chord) -> int {
    2 * c.root + quality_bit(c.chord_type)
}

/// The chord denoted by a canonical index.
pub open spec fn chord_of_index(n: int) -> Chord {
    Chord {
        root: (n / 2) as u8,
        chord_type: if n % 2 == 0 {
            ChordType::Major
        } else {
            ChordType::Minor
        },
    }
}

/// The three pitch classes a chord sounds: root, third and fifth.
pub open spec fn chord_pc_set(c: Chord) -> Set<int> {
    set![
        c.root as int,
        pc(c.root + third_interval(c.chord_type)),
        pc(c.root + 7),
    ]
}

impl Chord {
    pub open spec fn wf(self) -> bool {
        self.root < 12
    }

    /// The canonical index of this chord.
    pub fn index(&self) -> (n: usize)
        requires
            self.wf(),
        ensures
            n == index_of(*self),
            n < 24,
    {
        let bit: usize = match self.chord_type {
            ChordType::Major => 0,
            ChordType::Minor => 1,
        };
        2 * (self.root as usize) + bit
    }

    /// The chord's pitch classes in ascending interval order:
    /// root, third, fifth.
    pub fn notes(&self) -> (r: Vec<u8>)
        requires
            self.wf(),
        ensures
            r@ == spec_chord_notes(*self),
            r@.len() == 3,
    {
        let third: u8 = match self.chord_type {
            ChordType::Major => (self.root + 4) % 12,
            ChordType::Minor => (self.root + 3) % 12,
        };
        let fifth: u8 = (self.root + 7) % 12;
        let mut r: Vec<u8> = Vec::new();
        r.push(self.root);
        r.push(third);
        r.push(fifth);
        proof {
            assert(r@ =~= spec_chord_notes(*self));
        }
        r
    }

    /// Whether pitch class `p` belongs to this chord.
    pub fn contains_pc(&self, p: u8) -> (b: bool)
        requires
            self.wf(),
        ensures
            b == chord_pc_set(*self).contains(p as int),
    {
        let third: u8 = match self.chord_type {
            ChordType::Major => (self.root + 4) % 12,
            ChordType::Minor => (self.root + 3) % 12,
        };
        let fifth: u8 = (self.root + 7) % 12;
        p == self.root || p == third || p == fifth
    }
}

/// A chord's pitch classes, listed in ascending interval order.
pub open spec fn spec_chord_notes(c: Chord) -> Seq<u8> {
    seq![
        c.root,
        pc(c.root + third_interval(c.chord_type)) as u8,
        pc(c.root + 7) as u8,
    ]
}

/// The chord at a canonical index: index `n` decodes to root `n / 2` with
/// the low bit picking major or minor.
pub fn num_to_chord(n: usize) -> (c: Chord)
    requires
        n < 24,
    ensures
        c == chord_of_index(n as int),
        c.wf(),
{
    let root: u8 = (n / 2) as u8;
    let chord_type = if n % 2 == 0 {
        ChordType::Major
    } else {
        ChordType::Minor
    };
    Chord { root, chord_type }
}

/// All 24 chords in canonical index order: each root's major chord followed
/// by its minor chord, roots ascending.
pub fn chords() -> (r: Vec<Chord>)
    ensures
        r@.len() == 24,
        forall|i: int| 0 <= i < 24 ==> (#[trigger] r@[i]) == chord_of_index(i),
{
    let mut r: Vec<Chord> = Vec::new();
    let mut n: usize = 0;
    while n < 24
        invariant
            n <= 24,
            r@.len() == n,
            forall|i: int| 0 <= i < n ==> (#[trigger] r@[i]) == chord_of_index(i),
        decreases 24 - n,
    {
        r.push(num_to_chord(n));
        n = n + 1;
    }
    r
}

/// Every chord sounds exactly the pitch classes
/// `{root, root + q, root + 7} mod 12` with `q` either 3 or 4.
pub proof fn lemma_chord_intervals(c: Chord)
    requires
        c.wf(),
    ensures
        chord_pc_set(c) == set![
            pc(c.root as int),
            pc(c.root + third_interval(c.chord_type)),
            pc(c.root + 7),
        ],
        third_interval(c.chord_type) == 3 || third_interval(c.chord_type) == 4,
{
    assert(pc(c.root as int) == c.root as int) by {
        vstd::arithmetic::div_mod::lemma_small_mod(c.root as nat, 12nat);
    }
}

/// The canonical indexing is a bijection between the 24 chords and `0..24`:
/// decoding a chord's index yields the chord back.
pub proof fn lemma_chord_index_round_trip(c: Chord)
    requires
        c.wf(),
    ensures
        chord_of_index(index_of(c)) == c,
        0 <= index_of(c) < 24,
{
}

/// The other direction of the bijection: a canonical index survives the
/// trip through its chord.
pub proof fn lemma_index_chord_round_trip(n: int)
    requires
        0 <= n < 24,
    ensures
        index_of(chord_of_index(n)) == n,
        chord_of_index(n).wf(),
{
}

} // verus!
