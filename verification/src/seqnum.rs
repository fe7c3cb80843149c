//! Sequence-number arithmetic with 32-bit wraparound.
//!
//! TCP sequence numbers live on a circle of size 2^32.  Two numbers are
//! compared through the signed interpretation of their wrapping difference:
//! `a` is "before" `b` exactly when `a - b` (mod 2^32) falls in the upper
//! half of the circle.  Raw `<` / `>` on the numbers themselves would give
//! wrong answers near the wrap point.

use vstd::prelude::*;

verus! {

/// `a` is strictly before `b` on the sequence circle:
/// the wrapping difference `a - b`, read as a signed 32-bit value, is negative.
pub open spec fn spec_seq_lt(a: u32, b: u32) -> bool {
    a.wrapping_sub(b) >= 0x8000_0000
}

/// `a` is before `b` or equal to it on the sequence circle.
pub open spec fn spec_seq_leq(a: u32, b: u32) -> bool {
    a == b || spec_seq_lt(a, b)
}

/// `a` is strictly after `b` on the sequence circle:
/// the wrapping difference `a - b`, read as a signed 32-bit value, is positive.
pub open spec fn spec_seq_gt(a: u32, b: u32) -> bool {
    a.wrapping_sub(b) != 0 && a.wrapping_sub(b) < 0x8000_0000
}

/// `s` lies in the half-open window `[base, base + wnd)` on the sequence circle.
pub open spec fn spec_seq_in_window(s: u32, base: u32, wnd: u16) -> bool {
    s.wrapping_sub(base) < wnd as u32
}

#[verifier::when_used_as_spec(spec_seq_lt)]
pub fn seq_lt(a: u32, b: u32) -> (r: bool)
    ensures
        r == spec_seq_lt(a, b),
{
    a.wrapping_sub(b) >= 0x8000_0000
}

#[verifier::when_used_as_spec(spec_seq_leq)]
pub fn seq_leq(a: u32, b: u32) -> (r: bool)
    ensures
        r == spec_seq_leq(a, b),
{
    let d = a.wrapping_sub(b);
    d == 0 || d >= 0x8000_0000
}

#[verifier::when_used_as_spec(spec_seq_gt)]
pub fn seq_gt(a: u32, b: u32) -> (r: bool)
    ensures
        r == spec_seq_gt(a, b),
{
    let d = a.wrapping_sub(b);
    d != 0 && d < 0x8000_0000
}

#[verifier::when_used_as_spec(spec_seq_in_window)]
pub fn seq_in_window(s: u32, base: u32, wnd: u16) -> (r: bool)
    ensures
        r == spec_seq_in_window(s, base, wnd),
{
    s.wrapping_sub(base) < wnd as u32
}

/// Advancing by one step never moves a sequence number "backward":
/// `a <= a + 1` on the sequence circle.
pub proof fn lemma_seq_leq_succ(a: u32)
    ensures
        spec_seq_leq(a, a.wrapping_add(1)),
{
}

} // verus!
