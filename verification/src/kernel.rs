//! Decision logic of the escape-time kernel.
//!
//! The fragment stage iterates `z <- z*z + c` in 64-bit floating point,
//! once per pixel, and tests after every step whether `z` has left the
//! disc of radius two.  The library cannot carry out the floating-point
//! steps, but everything the kernel *returns* is a function of the
//! sequence of escape-test outcomes alone, and that bookkeeping is
//! verified here: the kernel answers the 0-based index of the first
//! step at which escape was detected, and the same `0` when no step
//! escaped at all — the overloading of `0` is part of the kernel's
//! contract, not an accident.  The embedder runs the arithmetic and
//! feeds the test outcomes in, either step by step through
//! [`escape_step`] or as a whole through [`escape_index`].

use vstd::prelude::*;

verus! {

/// What the kernel does after one iteration step has been taken and
/// its escape test evaluated.
#[derive(Clone, Copy, Debug, PartialEq, Eq, Structural)]
pub enum KernelStep {
    /// Take another iteration step.
    Proceed,
    /// Stop and answer the given escape count.
    Done(u32),
}

/// The index of the first `true` in a sequence of escape-test
/// outcomes, if any step escaped.
pub open spec fn first_escape(esc: Seq<bool>) -> Option<int>
    decreases esc.len(),
{
    if esc.len() == 0 {
        None
    } else if esc[0] {
        Some(0)
    } else {
        match first_escape(esc.drop_first()) {
            None => None,
            Some(i) => Some(i + 1),
        }
    }
}

/// What the kernel answers for a sequence of escape-test outcomes: the
/// index of the first escaping step, and `0` when no step escaped.
pub open spec fn escape_count(esc: Seq<bool>) -> int {
    match first_escape(esc) {
        None => 0,
        Some(i) => i,
    }
}

/// `first_escape` finds exactly the first escaping step: when it
/// answers an index, that step escaped and no earlier one did; when it
/// answers nothing, no step escaped.
pub proof fn lemma_first_escape_characterizes(esc: Seq<bool>)
    ensures
        match first_escape(esc) {
            Some(i) => 0 <= i < esc.len() && esc[i] && (forall|j: int| 0 <= j < i ==> !esc[j]),
            None => forall|j: int| 0 <= j < esc.len() ==> !esc[j],
        },
    decreases esc.len(),
{
    if esc.len() == 0 {
    } else if esc[0] {
    } else {
        lemma_first_escape_characterizes(esc.drop_first());
        match first_escape(esc.drop_first()) {
            None => {
                assert(forall|j: int| 1 <= j < esc.len() ==> esc[j] == esc.drop_first()[j - 1]);
            },
            Some(i) => {
                assert(esc[i + 1] == esc.drop_first()[i]);
                assert(forall|j: int| 1 <= j < i + 1 ==> esc[j] == esc.drop_first()[j - 1]);
            },
        }
    }
}

/// An orbit that stays bounded — no step escapes — makes the kernel
/// answer `0`, whatever the iteration bound was.
pub proof fn lemma_bounded_orbit_answers_zero(esc: Seq<bool>)
    requires
        forall|j: int| 0 <= j < esc.len() ==> !esc[j],
    ensures
        first_escape(esc) is None,
        escape_count(esc) == 0,
    decreases esc.len(),
{
    if esc.len() != 0 {
        assert(forall|j: int| 0 <= j < esc.drop_first().len() ==> esc.drop_first()[j] == esc[j + 1]);
        lemma_bounded_orbit_answers_zero(esc.drop_first());
    }
}

/// A step that escapes, with no earlier escaping step, is exactly what
/// the kernel reports.
pub proof fn lemma_first_escape_at(esc: Seq<bool>, i: int)
    requires
        0 <= i < esc.len(),
        esc[i],
        forall|j: int| 0 <= j < i ==> !esc[j],
    ensures
        first_escape(esc) == Some(i),
        escape_count(esc) == i,
    decreases esc.len(),
{
    if i == 0 {
    } else {
        assert(forall|j: int| 0 <= j < esc.drop_first().len() ==> esc.drop_first()[j] == esc[j + 1]);
        lemma_first_escape_at(esc.drop_first(), i - 1);
    }
}

/// The kernel's decision after step `i` of a run bounded by
/// `iterations`: answer `i` as soon as the step escaped, answer the
/// overloaded `0` when the last step has run without any escape, and
/// proceed otherwise.
pub fn escape_step(i: u32, iterations: u32, escaped: bool) -> (s: KernelStep)
    requires
        i < iterations,
    ensures
        escaped ==> s == KernelStep::Done(i),
        !escaped && i + 1 == iterations ==> s == KernelStep::Done(0u32),
        !escaped && i + 1 < iterations ==> s == KernelStep::Proceed,
{
    if escaped {
        KernelStep::Done(i)
    } else if i + 1 == iterations {
        KernelStep::Done(0)
    } else {
        KernelStep::Proceed
    }
}

/// The kernel's answer for a whole run, from the per-step escape-test
/// outcomes: the index of the first escaping step, and `0` when no
/// step escaped.
pub fn escape_index(escaped: &Vec<bool>) -> (r: u32)
    requires
        escaped@.len() <= u32::MAX,
    ensures
        r == escape_count(escaped@),
{
    let n = escaped.len();
    let mut i: usize = 0;
    while i < n
        invariant
            0 <= i <= n,
            n == escaped@.len() <= u32::MAX,
            forall|j: int| 0 <= j < i ==> !escaped@[j],
        decreases n - i,
    {
        if escaped[i] {
            proof {
                lemma_first_escape_at(escaped@, i as int);
            }
            return i as u32;
        }
        i = i + 1;
    }
    proof {
        lemma_bounded_orbit_answers_zero(escaped@);
    }
    0
}

} // verus!
