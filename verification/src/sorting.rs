//! Insertion sort on small note lists, with an exact functional
//! specification used by the chord-name lookup keys.

use vstd::prelude::*;

verus! {

/// Insert `x` into a list just before the first element it does not exceed.
pub open spec fn insert_sorted(x: usize, s: Seq<usize>) -> Seq<usize>
    decreases s.len(),
{
    if s.len() == 0 {
        seq![x]
    } else if x <= s[0] {
        seq![x] + s
    } else {
        seq![s[0]] + insert_sorted(x, s.drop_first())
    }
}

/// The ascending reordering of a list: its elements inserted left to right.
pub open spec fn sort_spec(s: Seq<usize>) -> Seq<usize>
    decreases s.len(),
{
    if s.len() == 0 {
        Seq::empty()
    } else {
        insert_sorted(s.last(), sort_spec(s.drop_last()))
    }
}

/// Inserting at the first position whose element is not below `x` realizes
/// `insert_sorted`.
proof fn lemma_insert_at(x: usize, s: Seq<usize>, idx: int)
    requires
        0 <= idx <= s.len(),
        forall|j: int| 0 <= j < idx ==> s[j] < x,
        idx < s.len() ==> x <= s[idx],
    ensures
        insert_sorted(x, s) == s.insert(idx, x),
    decreases s.len(),
{
    if idx == 0 {
        if s.len() == 0 {
            assert(insert_sorted(x, s) =~= s.insert(0, x));
        } else {
            assert(insert_sorted(x, s) =~= s.insert(0, x));
        }
    } else {
        let rest = s.drop_first();
        lemma_insert_at(x, rest, idx - 1);
        assert(seq![s[0]] + rest.insert(idx - 1, x) =~= s.insert(idx, x));
    }
}

/// Insert `x` into the ascending vector `v`, keeping it ascending.
fn insert_into_sorted(v: &mut Vec<usize>, x: usize)
    ensures
        final(v)@ == insert_sorted(x, old(v)@),
{
    let mut idx: usize = 0;
    while idx < v.len() && v[idx] < x
        invariant
            idx <= v@.len(),
            v@ == old(v)@,
            forall|j: int| 0 <= j < idx ==> v@[j] < x,
        decreases v@.len() - idx,
    {
        idx = idx + 1;
    }
    proof {
        lemma_insert_at(x, v@, idx as int);
    }
    v.insert(idx, x);
}

/// Sort a note list ascending by repeated insertion.
pub fn sort_notes(input: &Vec<usize>) -> (r: Vec<usize>)
    ensures
        r@ == sort_spec(input@),
{
    let mut r: Vec<usize> = Vec::new();
    let mut i: usize = 0;
    while i < input.len()
        invariant
            i <= input@.len(),
            r@ == sort_spec(input@.subrange(0, i as int)),
        decreases input@.len() - i,
    {
        insert_into_sorted(&mut r, input[i]);
        proof {
            let pre = input@.subrange(0, i as int);
            let cur = input@.subrange(0, i + 1);
            assert(cur.drop_last() =~= pre);
            assert(cur.last() == input@[i as int]);
        }
        i = i + 1;
    }
    proof {
        assert(input@.subrange(0, input@.len() as int) =~= input@);
    }
    r
}

} // verus!
