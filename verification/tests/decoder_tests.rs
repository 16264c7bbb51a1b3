use accompanist::aggregator::Aggregator;
use accompanist::chord::ChordType;
use accompanist::decoder::{transition_boost_target, viterbi_backtrace};

fn row(entries: &[(usize, usize)]) -> Vec<usize> {
    let mut r = vec![0; 24];
    for &(j, v) in entries {
        r[j] = v;
    }
    r
}

#[test]
fn backtrace_length_equals_window_length() {
    // Three observations: the path has exactly three chords, ending at
    // the winning state.
    let backpointer = vec![row(&[]), row(&[(7, 3)]), row(&[(5, 7)])];
    let path = viterbi_backtrace(&backpointer, 5);
    assert_eq!(path.len(), backpointer.len());
    // Walking back: state 5 at the end, then 7, then 3.
    assert_eq!(path[2].root, 2);
    assert_eq!(path[2].chord_type, ChordType::Minor);
    assert_eq!(path[1].root, 3);
    assert_eq!(path[1].chord_type, ChordType::Minor);
    assert_eq!(path[0].root, 1);
    assert_eq!(path[0].chord_type, ChordType::Minor);
}

#[test]
fn backtrace_single_observation() {
    let backpointer = vec![row(&[])];
    let path = viterbi_backtrace(&backpointer, 8);
    assert_eq!(path.len(), 1);
    assert_eq!(path[0].root, 4);
    assert_eq!(path[0].chord_type, ChordType::Major);
}

#[test]
fn boost_targets_rotate_on_minor_rows() {
    // Even (major) rows take the offsets as they are.
    for offset in [0, 5, 9, 10, 14, 17] {
        assert_eq!(transition_boost_target(0, offset), offset % 24);
        assert_eq!(transition_boost_target(2, offset), (2 + offset) % 24);
    }
    // Odd (minor) rows rotate them five steps further.
    assert_eq!(transition_boost_target(1, 0), 6);
    assert_eq!(transition_boost_target(1, 17), 23);
    assert_eq!(transition_boost_target(23, 17), 21);
}

#[test]
fn aggregator_warms_up_over_three_frames() {
    // Decoding waits for three merged frames, and silence resets the
    // warm-up.
    let mut a = Aggregator::new();
    assert!(!a.on_block(false).decode);
    assert!(!a.on_block(false).decode);
    assert!(a.on_block(false).decode);
    a.on_silence();
    assert!(!a.on_block(true).decode);
    assert!(!a.on_block(false).decode);
    assert!(a.on_block(false).decode);
}

#[test]
fn aggregator_beat_restarts_the_frame_count() {
    let mut a = Aggregator::new();
    a.on_block(false);
    a.on_block(false);
    assert!(a.on_block(false).decode);
    // A beat starts a fresh observation: one frame so far, no decode.
    let d = a.on_block(true);
    assert!(d.push_new);
    assert!(!d.decode);
}

#[test]
fn aggregator_window_is_capped() {
    let mut a = Aggregator::new();
    let mut popped = 0;
    for _ in 0..30 {
        let d = a.on_block(true);
        assert!(a.obs_len <= 24);
        if d.pop_front {
            popped += 1;
        }
    }
    // The window starts with one observation and holds 24: the 24th beat
    // and every later one overflow it.
    assert_eq!(popped, 7);
    assert_eq!(a.obs_len, 24);
}
