//! The chord-name guesser: a lookup table from sorted pitch-class lists to
//! chord names, probed with three-note subsets of a four-note spectral
//! reading.
//!
//! This component keeps its own A-anchored naming (its spectral front end
//! numbers bin 0 as A, at 55 Hz), independent of the C-anchored pitch
//! classes of the inference pipeline.

use vstd::prelude::*;

verus! {

use crate::pitch::NUM_NOTES;
use crate::sorting::sort_notes;
use crate::sorting::sort_spec;

/// The twelve note names of the guesser's front end, bin 0 anchored at A.
pub open spec fn spec_note_name(i: int) -> Seq<char> {
    if i == 0 {
        "A"@
    } else if i == 1 {
        "A#"@
    } else if i == 2 {
        "B"@
    } else if i == 3 {
        "C"@
    } else if i == 4 {
        "C#"@
    } else if i == 5 {
        "D"@
    } else if i == 6 {
        "D#"@
    } else if i == 7 {
        "E"@
    } else if i == 8 {
        "F"@
    } else if i == 9 {
        "F#"@
    } else if i == 10 {
        "G"@
    } else {
        "G#"@
    }
}

/// The name of a pitch-class bin of the guesser's front end.
pub fn note_name(i: usize) -> (r: &'static str)
    requires
        i < NUM_NOTES,
    ensures
        r@ == spec_note_name(i as int),
{
    match i {
        0 => "A",
        1 => "A#",
        2 => "B",
        3 => "C",
        4 => "C#",
        5 => "D",
        6 => "D#",
        7 => "E",
        8 => "F",
        9 => "F#",
        10 => "G",
        _ => "G#",
    }
}

/// The name suffix of the `k`-th chord kind the guesser knows:
/// major, minor, bare fifth, dominant seventh, major seventh, minor
/// seventh, and the bare root.
pub open spec fn kind_suffix(k: int) -> Seq<char> {
    if k == 0 {
        "maj"@
    } else if k == 1 {
        "m"@
    } else if k == 2 {
        "5"@
    } else if k == 3 {
        "7"@
    } else if k == 4 {
        "maj7"@
    } else if k == 5 {
        "m7"@
    } else {
        "O"@
    }
}

/// The intervals above the root that the `k`-th chord kind sounds.
pub open spec fn kind_intervals(k: int) -> Seq<usize> {
    if k == 0 {
        seq![4usize, 7]
    } else if k == 1 {
        seq![3usize, 7]
    } else if k == 2 {
        seq![7usize]
    } else if k == 3 {
        seq![4usize, 7, 10]
    } else if k == 4 {
        seq![4usize, 7, 11]
    } else if k == 5 {
        seq![3usize, 7, 10]
    } else {
        Seq::empty()
    }
}

/// The unsorted pitch classes of kind `k` rooted at bin `i`.
pub open spec fn entry_pcs(i: int, k: int) -> Seq<usize> {
    seq![i as usize] + kind_intervals(k).map_values(|x: usize| (((i + x) % 12) as usize))
}

/// The lookup key of table entry `n`: its sorted pitch classes.
pub open spec fn spec_key(n: int) -> Seq<usize> {
    sort_spec(entry_pcs(n / 7, n % 7))
}

/// The chord name of table entry `n`.
pub open spec fn spec_name(n: int) -> Seq<char> {
    spec_note_name(n / 7) + kind_suffix(n % 7)
}

/// The first table entry at or after `n` whose key equals `key`.
pub open spec fn find_entry(key: Seq<usize>, n: int) -> Option<int>
    decreases 84 - n,
{
    if n < 0 || n >= 84 {
        None
    } else if spec_key(n) == key {
        Some(n)
    } else {
        find_entry(key, n + 1)
    }
}

/// The keys of the four three-note subsets the guesser probes, in order.
pub open spec fn selection_keys(notes: Seq<usize>) -> Seq<Seq<usize>> {
    seq![
        sort_spec(seq![notes[0], notes[1], notes[2]]),
        sort_spec(seq![notes[0], notes[1], notes[3]]),
        sort_spec(seq![notes[0], notes[2], notes[3]]),
        sort_spec(seq![notes[1], notes[2], notes[3]]),
    ]
}

/// The guesser's answer, probing the subsets from `j` onward.
pub open spec fn spec_guess_from(notes: Seq<usize>, j: int) -> Option<Seq<char>>
    decreases 4 - j,
{
    if j < 0 || j >= 4 {
        None
    } else {
        match find_entry(selection_keys(notes)[j], 0) {
            Some(n) => Some(spec_name(n)),
            None => spec_guess_from(notes, j + 1),
        }
    }
}

/// The name the guesser reports for a four-note spectral reading: the
/// first probed subset with a table match decides, and within the table
/// the first matching entry names the chord.
pub open spec fn spec_guess(notes: Seq<usize>) -> Option<Seq<char>> {
    spec_guess_from(notes, 0)
}

/// Names chords from the strongest four pitch-class bins of a spectral
/// reading.
pub struct ChordGuesser {
    chords: Vec<(Vec<usize>, String)>,
}

impl ChordGuesser {
    pub closed spec fn wf(self) -> bool {
        &&& self.chords@.len() == 84
        &&& forall|n: int|
            0 <= n < 84 ==> (#[trigger] self.chords@[n]).0@ == spec_key(n)
                && self.chords@[n].1@ == spec_name(n)
    }

    /// Build a guesser over the full 84-entry table.
    pub fn new() -> (r: Self)
        ensures
            r.wf(),
    {
        Self { chords: Self::compute_chords() }
    }

    /// The lookup table: for every root bin and chord kind, the sorted
    /// pitch-class key paired with the chord's display name.
    pub fn compute_chords() -> (t: Vec<(Vec<usize>, String)>)
        ensures
            t@.len() == 84,
            forall|n: int|
                0 <= n < 84 ==> (#[trigger] t@[n]).0@ == spec_key(n) && t@[n].1@ == spec_name(n),
    {
        let mut t: Vec<(Vec<usize>, String)> = Vec::new();
        let mut i: usize = 0;
        while i < 12
            invariant
                i <= 12,
                t@.len() == 7 * i,
                forall|n: int|
                    0 <= n < 7 * i ==> (#[trigger] t@[n]).0@ == spec_key(n) && t@[n].1@
                        == spec_name(n),
            decreases 12 - i,
        {
            let mut k: usize = 0;
            while k < 7
                invariant
                    i < 12,
                    k <= 7,
                    t@.len() == 7 * i + k,
                    forall|n: int|
                        0 <= n < 7 * i + k ==> (#[trigger] t@[n]).0@ == spec_key(n) && t@[n].1@
                            == spec_name(n),
                decreases 7 - k,
            {
                let e = build_entry(i, k);
                proof {
                    vstd::arithmetic::div_mod::lemma_fundamental_div_mod_converse(
                        7 * i + k,
                        7,
                        i as int,
                        k as int,
                    );
                }
                t.push(e);
                k = k + 1;
            }
            i = i + 1;
        }
        t
    }

    /// The name stored for the first table entry whose key matches.
    fn lookup(&self, key: &Vec<usize>) -> (r: Option<String>)
        requires
            self.wf(),
        ensures
            r is Some <==> find_entry(key@, 0) is Some,
            r matches Some(s) ==> (find_entry(key@, 0) matches Some(n) && s@ == spec_name(n)),
    {
        let mut n: usize = 0;
        while n < self.chords.len()
            invariant
                self.wf(),
                n <= 84,
                find_entry(key@, 0) == find_entry(key@, n as int),
            decreases 84 - n,
        {
            if keys_equal(&self.chords[n].0, key) {
                return Some(self.chords[n].1.clone());
            }
            proof {
                assert(find_entry(key@, n as int) == find_entry(key@, n + 1));
            }
            n = n + 1;
        }
        None
    }

    /// Guess the chord name for a spectral reading of (at least) four
    /// pitch-class bins, strongest first: the four three-note subsets
    /// keeping the strongest bins are probed in order against the table.
    pub fn guess(&self, notes: &[usize]) -> (r: Option<String>)
        requires
            self.wf(),
            notes@.len() >= 4,
        ensures
            r is Some <==> spec_guess(notes@) is Some,
            r matches Some(s) ==> (spec_guess(notes@) matches Some(t) && s@ == t),
    {
        let k0 = selection_key(notes[0], notes[1], notes[2]);
        let r0 = self.lookup(&k0);
        proof {
            assert(selection_keys(notes@)[0] == k0@);
        }
        if r0.is_some() {
            return r0;
        }
        proof {
            assert(spec_guess_from(notes@, 0) == spec_guess_from(notes@, 1));
        }
        let k1 = selection_key(notes[0], notes[1], notes[3]);
        let r1 = self.lookup(&k1);
        proof {
            assert(selection_keys(notes@)[1] == k1@);
        }
        if r1.is_some() {
            return r1;
        }
        proof {
            assert(spec_guess_from(notes@, 1) == spec_guess_from(notes@, 2));
        }
        let k2 = selection_key(notes[0], notes[2], notes[3]);
        let r2 = self.lookup(&k2);
        proof {
            assert(selection_keys(notes@)[2] == k2@);
        }
        if r2.is_some() {
            return r2;
        }
        proof {
            assert(spec_guess_from(notes@, 2) == spec_guess_from(notes@, 3));
        }
        let k3 = selection_key(notes[1], notes[2], notes[3]);
        let r3 = self.lookup(&k3);
        proof {
            assert(selection_keys(notes@)[3] == k3@);
            assert(spec_guess_from(notes@, 4) is None);
        }
        r3
    }
}

impl Default for ChordGuesser {
    fn default() -> (r: Self)
        ensures
            r.wf(),
    {
        Self::new()
    }
}

/// The sorted lookup key of one three-note selection.
fn selection_key(a: usize, b: usize, c: usize) -> (r: Vec<usize>)
    ensures
        r@ == sort_spec(seq![a, b, c]),
{
    let mut sel: Vec<usize> = Vec::new();
    sel.push(a);
    sel.push(b);
    sel.push(c);
    proof {
        assert(sel@ =~= seq![a, b, c]);
    }
    sort_notes(&sel)
}

/// Element-wise equality of two note lists.
fn keys_equal(a: &Vec<usize>, b: &Vec<usize>) -> (r: bool)
    ensures
        r == (a@ == b@),
{
    if a.len() != b.len() {
        return false;
    }
    let mut i: usize = 0;
    while i < a.len()
        invariant
            i <= a@.len(),
            a@.len() == b@.len(),
            forall|j: int| 0 <= j < i ==> a@[j] == b@[j],
        decreases a@.len() - i,
    {
        if a[i] != b[i] {
            return false;
        }
        i = i + 1;
    }
    proof {
        assert(a@ =~= b@);
    }
    true
}

/// One table entry: the sorted pitch-class key and display name of kind
/// `k` rooted at bin `i`.
fn build_entry(i: usize, k: usize) -> (e: (Vec<usize>, String))
    requires
        i < 12,
        k < 7,
    ensures
        e.0@ == sort_spec(entry_pcs(i as int, k as int)),
        e.1@ == spec_note_name(i as int) + kind_suffix(k as int),
{
    let suffix: &'static str = match k {
        0 => "maj",
        1 => "m",
        2 => "5",
        3 => "7",
        4 => "maj7",
        5 => "m7",
        _ => "O",
    };
    let mut pcs: Vec<usize> = Vec::new();
    pcs.push(i);
    match k {
        0 => {
            pcs.push((i + 4) % 12);
            pcs.push((i + 7) % 12);
        },
        1 => {
            pcs.push((i + 3) % 12);
            pcs.push((i + 7) % 12);
        },
        2 => {
            pcs.push((i + 7) % 12);
        },
        3 => {
            pcs.push((i + 4) % 12);
            pcs.push((i + 7) % 12);
            pcs.push((i + 10) % 12);
        },
        4 => {
            pcs.push((i + 4) % 12);
            pcs.push((i + 7) % 12);
            pcs.push((i + 11) % 12);
        },
        5 => {
            pcs.push((i + 3) % 12);
            pcs.push((i + 7) % 12);
            pcs.push((i + 10) % 12);
        },
        _ => {},
    }
    proof {
        assert(pcs@ =~= entry_pcs(i as int, k as int));
    }
    let key = sort_notes(&pcs);
    let name = String::from_str(note_name(i)).concat(suffix);
    (key, name)
}

} // verus!
