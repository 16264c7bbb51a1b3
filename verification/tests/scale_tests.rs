use accompanist::chord::{Chord, ChordType};
use accompanist::scale::{scale_from_chords, Scale};

#[test]
fn scale_notes_are_major_offsets() {
    let c = Scale { root: 0 };
    assert_eq!(c.notes(), vec![0, 2, 4, 5, 7, 9, 11]);
    let d = Scale { root: 2 };
    assert_eq!(d.notes(), vec![2, 4, 6, 7, 9, 11, 1]);
    for root in 0..12u8 {
        let s = Scale { root };
        for p in 0..12u8 {
            assert_eq!(s.contains_pc(p), s.notes().contains(&p));
        }
    }
}

#[test]
fn single_chord_history_yields_superset_scale() {
    // With one chord in the history, the reducer's scale covers the chord.
    for root in 0..12u8 {
        for chord_type in [ChordType::Major, ChordType::Minor] {
            let c = Chord { root, chord_type };
            let s = scale_from_chords(&vec![c]);
            for n in c.notes() {
                assert!(s.contains_pc(n), "scale {} misses {} of chord {}", s.root, n, root);
            }
        }
    }
}

#[test]
fn c_major_stack_reduces_to_c() {
    // A steady C-major history reduces to the C scale.
    let history = vec![Chord { root: 0, chord_type: ChordType::Major }; 24];
    let s = scale_from_chords(&history);
    assert_eq!(s.root, 0);
}

#[test]
fn a_minor_sequence_reduces_to_relative_major() {
    // A minor, D minor, E minor: the only scale containing all their
    // notes is C major (the relative major of A minor).
    let history = vec![
        Chord { root: 9, chord_type: ChordType::Minor },
        Chord { root: 2, chord_type: ChordType::Minor },
        Chord { root: 4, chord_type: ChordType::Minor },
    ];
    let s = scale_from_chords(&history);
    assert_eq!(s.root, 0);
    for p in [9u8, 0, 4, 2, 5, 7, 11] {
        assert!(s.contains_pc(p));
    }
}

#[test]
fn empty_history_keeps_first_candidate() {
    let s = scale_from_chords(&vec![]);
    assert_eq!(s.root, 0);
}

#[test]
fn contradictory_history_falls_back_to_previous_candidates() {
    // C-sharp major is filtered first (newest); adding C major empties
    // the candidate set, so the first previous candidate answers.
    let history = vec![
        Chord { root: 0, chord_type: ChordType::Major },
        Chord { root: 1, chord_type: ChordType::Major },
    ];
    let s = scale_from_chords(&history);
    assert_eq!(s.root, 1);
}
