//! Pitch-class arithmetic: notes modulo the 12-tone octave.

use vstd::prelude::*;

verus! {

/// Number of pitch classes in an octave.
pub const NUM_NOTES: usize = 12;

/// The pitch class of a note number: its residue modulo 12.
pub open spec fn pc(n: int) -> int {
    n % 12
}

/// Reduce a note number to its pitch class.
pub fn pitch_class(n: u8) -> (r: u8)
    ensures
        r == pc(n as int),
        r < 12,
{
    n % 12
}

/// Pitch-class arithmetic commutes with addition: shifting a note by `a`
/// and then by `b` lands on the same pitch class as shifting it once by
/// `(a + b) mod 12`.
pub proof fn lemma_pitch_class_add(n: int, a: int, b: int)
    ensures
        pc(pc(n + a) + b) == pc(n + pc(a + b)),
{
    let m = 12int;
    vstd::arithmetic::div_mod::lemma_add_mod_noop_right(b, n + a, m);
    vstd::arithmetic::div_mod::lemma_add_mod_noop_right(n, a + b, m);
}

} // verus!
