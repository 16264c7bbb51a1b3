use accompanist::chord_guesser::{note_name, ChordGuesser};

#[test]
fn guesses_major_chord_from_strongest_bins() {
    // Bins 3, 7, 10 are C, E, G in the guesser's A-anchored naming.
    let g = ChordGuesser::default();
    assert_eq!(g.guess(&[3, 7, 10, 5]), Some("Cmaj".to_string()));
}

#[test]
fn guesses_minor_chord() {
    let g = ChordGuesser::new();
    // Bins 0, 3, 7 are A, C, E: an A-minor triad.
    assert_eq!(g.guess(&[0, 3, 7, 1]), Some("Am".to_string()));
}

#[test]
fn falls_back_to_later_subsets() {
    // The strongest three bins name no chord, but dropping the third
    // strongest leaves C, E, G.
    let g = ChordGuesser::new();
    assert_eq!(g.guess(&[3, 7, 11, 10]), Some("Cmaj".to_string()));
}

#[test]
fn subset_order_prefers_the_strongest_bins() {
    // All four bins together spell A7, but the first probed subset
    // already names the plain A-major triad.
    let g = ChordGuesser::new();
    assert_eq!(g.guess(&[0, 4, 7, 10]), Some("Amaj".to_string()));
}

#[test]
fn unknown_cluster_names_nothing() {
    let g = ChordGuesser::new();
    assert_eq!(g.guess(&[0, 1, 2, 3]), None);
}

#[test]
fn note_names_are_a_anchored() {
    assert_eq!(note_name(0), "A");
    assert_eq!(note_name(3), "C");
    assert_eq!(note_name(11), "G#");
}

#[test]
fn table_holds_every_root_and_kind() {
    let table = ChordGuesser::compute_chords();
    assert_eq!(table.len(), 84);
    // Spot-check a few entries: keys are sorted pitch classes.
    assert_eq!(table[0], (vec![0, 4, 7], "Amaj".to_string()));
    assert_eq!(table[1], (vec![0, 3, 7], "Am".to_string()));
    assert_eq!(table[2], (vec![0, 7], "A5".to_string()));
    assert_eq!(table[6], (vec![0], "AO".to_string()));
    // G major wraps around the octave: G, B, D are bins 10, 2, 5.
    assert_eq!(table[10 * 7], (vec![2, 5, 10], "Gmaj".to_string()));
}
