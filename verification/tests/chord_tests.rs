use accompanist::chord::{chords, num_to_chord, Chord, ChordType};
use accompanist::pitch::pitch_class;

#[test]
fn chord_index_bijection_all_24() {
    for n in 0..24 {
        let c = num_to_chord(n);
        assert_eq!(c.index(), n);
        assert_eq!(c.root as usize, n / 2);
        match c.chord_type {
            ChordType::Major => assert_eq!(n % 2, 0),
            ChordType::Minor => assert_eq!(n % 2, 1),
        }
    }
}

#[test]
fn chord_notes_are_root_third_fifth() {
    let c_major = Chord { root: 0, chord_type: ChordType::Major };
    assert_eq!(c_major.notes(), vec![0, 4, 7]);
    let a_minor = Chord { root: 9, chord_type: ChordType::Minor };
    assert_eq!(a_minor.notes(), vec![9, 0, 4]);
    let g_major = Chord { root: 7, chord_type: ChordType::Major };
    assert_eq!(g_major.notes(), vec![7, 11, 2]);
    for n in 0..24 {
        let c = num_to_chord(n);
        let notes = c.notes();
        assert_eq!(notes.len(), 3);
        let q = if n % 2 == 0 { 4 } else { 3 };
        assert_eq!(notes[0], c.root);
        assert_eq!(notes[1], (c.root + q) % 12);
        assert_eq!(notes[2], (c.root + 7) % 12);
    }
}

#[test]
fn chord_contains_pc_matches_notes() {
    for n in 0..24 {
        let c = num_to_chord(n);
        let notes = c.notes();
        for p in 0..12u8 {
            assert_eq!(c.contains_pc(p), notes.contains(&p));
        }
    }
}

#[test]
fn chords_enumerate_all_in_index_order() {
    let all = chords();
    assert_eq!(all.len(), 24);
    for (n, c) in all.iter().enumerate() {
        assert_eq!(c.index(), n);
    }
}

#[test]
fn pitch_class_addition_folds() {
    // Shifting by a and then b lands where one shift by (a + b) mod 12 does.
    let cases = [(7u8, 11u8, 25u8), (0, 0, 0), (11, 1, 1), (5, 23, 35)];
    for (n, a, b) in cases {
        let stepped = pitch_class(pitch_class(n + a) + b);
        let folded = pitch_class(n + (a + b) % 12);
        assert_eq!(stepped, folded);
    }
    assert_eq!(pitch_class(18), 6);
    assert_eq!(pitch_class(7), 7);
}
