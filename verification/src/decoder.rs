//! The structural half of the Viterbi decode: walking the backpointer
//! table from the winning final state back to the start, and the index
//! bookkeeping of the transition-matrix construction.  The numeric
//! forward pass over log-likelihoods stays with the caller.

use vstd::prelude::*;

verus! {

use crate::chord::Chord;
use crate::chord::chord_of_index;
use crate::chord::num_to_chord;

/// A well-formed backpointer table for a 24-state decode: one row per
/// observation, each row giving, per state, the best predecessor state.
pub open spec fn backpointers_wf(bp: Seq<Vec<usize>>) -> bool {
    forall|t: int|
        0 <= t < bp.len() ==> (#[trigger] bp[t])@.len() == 24 && (forall|j: int|
            0 <= j < 24 ==> (#[trigger] bp[t]@[j]) < 24)
}

/// The state the decoded path passes through at time `t`: the final state
/// at the last observation, and before that each row's backpointer from
/// the state one step later.
pub open spec fn path_state(bp: Seq<Vec<usize>>, last: int, t: int) -> int
    decreases bp.len() - t,
{
    if t >= bp.len() - 1 {
        last
    } else {
        bp[t + 1]@[path_state(bp, last, t + 1)] as int
    }
}

/// Every state on the decoded path is one of the 24 chords.
proof fn lemma_path_state_bounded(bp: Seq<Vec<usize>>, last: int, t: int)
    requires
        backpointers_wf(bp),
        0 <= last < 24,
        0 <= t < bp.len(),
    ensures
        0 <= path_state(bp, last, t) < 24,
    decreases bp.len() - t,
{
    if t < bp.len() - 1 {
        lemma_path_state_bounded(bp, last, t + 1);
    }
}

/// Walk a Viterbi backpointer table backwards from the winning final
/// state and return the decoded chord path: exactly one chord per
/// observation, the last being the winning state's chord.
pub fn viterbi_backtrace(backpointer: &Vec<Vec<usize>>, final_state: usize) -> (path: Vec<Chord>)
    requires
        backpointer@.len() >= 1,
        backpointers_wf(backpointer@),
        final_state < 24,
    ensures
        path@.len() == backpointer@.len(),
        forall|t: int|
            0 <= t < path@.len() ==> (#[trigger] path@[t]) == chord_of_index(
                path_state(backpointer@, final_state as int, t),
            ),
        forall|t: int| 0 <= t < path@.len() ==> (#[trigger] path@[t]).wf(),
{
    let total = backpointer.len();
    let mut states: Vec<usize> = Vec::new();
    let mut z: usize = 0;
    while z < total
        invariant
            z <= total,
            states@.len() == z,
            forall|u: int| 0 <= u < z ==> (#[trigger] states@[u]) == 0,
        decreases total - z,
    {
        states.push(0);
        z = z + 1;
    }
    let mut cur = final_state;
    states.set(total - 1, cur);
    let mut t = total - 1;
    while t > 0
        invariant
            t < total,
            total == backpointer@.len(),
            backpointers_wf(backpointer@),
            states@.len() == total,
            cur < 24,
            cur == path_state(backpointer@, final_state as int, t as int),
            forall|u: int|
                t <= u < total ==> (#[trigger] states@[u]) == path_state(
                    backpointer@,
                    final_state as int,
                    u,
                ),
            forall|u: int| 0 <= u < total ==> (#[trigger] states@[u]) < 24,
        decreases t,
    {
        cur = backpointer[t][cur];
        states.set(t - 1, cur);
        t = t - 1;
    }
    let mut path: Vec<Chord> = Vec::new();
    let mut u: usize = 0;
    while u < total
        invariant
            u <= total,
            total == backpointer@.len(),
            path@.len() == u,
            states@.len() == total,
            forall|w: int| 0 <= w < total ==> (#[trigger] states@[w]) < 24,
            forall|w: int|
                0 <= w < total ==> (#[trigger] states@[w]) == path_state(
                    backpointer@,
                    final_state as int,
                    w,
                ),
            forall|w: int|
                0 <= w < u ==> (#[trigger] path@[w]) == chord_of_index(
                    path_state(backpointer@, final_state as int, w),
                ) && path@[w].wf(),
        decreases total - u,
    {
        path.push(num_to_chord(states[u]));
        u = u + 1;
    }
    path
}

/// The column that receives the `offset`-th affinity boost in row `i` of
/// the transition matrix: minor (odd) rows rotate the boost offsets five
/// steps further around the 24 states.
pub fn transition_boost_target(i: usize, offset: usize) -> (j: usize)
    requires
        i < 24,
        offset < 24,
    ensures
        j == (i + offset + (i % 2) * 5) % 24,
        j < 24,
{
    (i + offset + (i % 2) * 5) % 24
}

} // verus!
