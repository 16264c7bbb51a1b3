use accompanist::chord::{Chord, ChordType};
use accompanist::remap::{NoteRemapper, SoloMode};
use accompanist::scale::Scale;

#[test]
fn chord_mode_snaps_down_to_chord_tone() {
    // Current chord C major, raw note 65 (F4): the nearest chord tone
    // within the three-semitone window below is 64 (E4).
    let mut r = NoteRemapper::new();
    r.set_chord(Chord { root: 0, chord_type: ChordType::Major });
    assert_eq!(r.note_on(65), 64);
}

#[test]
fn chord_mode_keeps_chord_tones_and_distant_notes() {
    let mut r = NoteRemapper::new();
    r.set_chord(Chord { root: 0, chord_type: ChordType::Major });
    // 60 is C4 itself: unchanged.
    assert_eq!(r.note_on(60), 60);
    // 62 (D4) snaps two steps down to 60 (C4).
    assert_eq!(r.note_on(62), 60);
    // 59 (B3) has no chord tone within three semitones below: unchanged.
    assert_eq!(r.note_on(59), 59);
    // Notes below the search window stay unchanged.
    assert_eq!(r.note_on(2), 2);
}

#[test]
fn transpose_mode_adds_scale_root() {
    // Scale root D: a raw note keeps its octave and chromatic step and
    // moves up by the scale's root offset.
    let mut r = NoteRemapper::new();
    r.set_mode(SoloMode::Transpose);
    r.set_scale(Scale { root: 2 });
    assert_eq!(r.note_on(60), (60 / 12) * 12 + (60 % 12) + 2);
    assert_eq!(r.note_on(61), 63);
}

#[test]
fn nearest_mode_snaps_to_diatonic_step() {
    let mut r = NoteRemapper::new();
    r.set_mode(SoloMode::Nearest);
    r.set_scale(Scale { root: 0 });
    // The table maps chromatic position 1 to diatonic step 2.
    assert_eq!(r.note_on(61), 62);
    // Diatonic steps stay put.
    assert_eq!(r.note_on(60), 60);
    assert_eq!(r.note_on(64), 64);
    // With a scale root the result shifts up by the root.
    r.set_scale(Scale { root: 5 });
    assert_eq!(r.note_on(60), 65);
}

#[test]
fn note_off_releases_the_mapped_note() {
    // Every emitted note-on is matched by a note-off of the same mapped
    // note when the same raw key is released, across interleaved keys.
    let mut r = NoteRemapper::new();
    r.set_chord(Chord { root: 0, chord_type: ChordType::Major });
    let on_65 = r.note_on(65);
    assert_eq!(on_65, 64);
    let on_67 = r.note_on(67);
    assert_eq!(on_67, 67);
    assert_eq!(r.note_off(65), on_65);
    assert_eq!(r.note_off(67), on_67);
    // A remap-state change between press and release does not disturb
    // the stored mapping.
    let on_62 = r.note_on(62);
    r.set_chord(Chord { root: 9, chord_type: ChordType::Minor });
    r.set_mode(SoloMode::Transpose);
    assert_eq!(r.note_off(62), on_62);
}

#[test]
fn mode_changes_apply_to_later_presses() {
    let mut r = NoteRemapper::new();
    r.set_scale(Scale { root: 2 });
    r.set_mode(SoloMode::Transpose);
    assert_eq!(r.note_on(48), 50);
    r.set_mode(SoloMode::Chord);
    // Default chord is C major; 48 is C3, already a chord tone.
    assert_eq!(r.note_on(48), 48);
}
