//! Construction of null-terminated byte buffers.
//!
//! A native stream call that expects a C string reads bytes up to the first
//! zero byte. The helper here produces an exactly-sized owned buffer holding
//! the given content followed by a single trailing zero byte; the caller keeps
//! the buffer alive for the whole native call, so no pointer ever outlives its
//! owner. Content that itself contains a zero byte is passed through
//! unchanged, but the native callee will stop at that byte: a documented
//! truncation, not an error. The lemmas below pin that behaviour down.

use vstd::prelude::*;

verus! {

/// The given content followed by a single trailing zero byte.
pub open spec fn nul_terminated_spec(s: Seq<u8>) -> Seq<u8> {
    s.push(0u8)
}

/// Index of the first zero byte of `s`, or `s.len()` if there is none.
pub open spec fn first_nul(s: Seq<u8>) -> int
    decreases s.len(),
{
    if s.len() == 0 {
        0
    } else if s[0] == 0u8 {
        0
    } else {
        1 + first_nul(s.drop_first())
    }
}

/// What a native callee that stops at the first zero byte reads from `s`.
pub open spec fn c_view(s: Seq<u8>) -> Seq<u8> {
    s.take(first_nul(s))
}

/// `first_nul` is an index into `s`, or `s.len()`; everything before it is
/// nonzero, and if it is a proper index it holds a zero byte.
pub proof fn lemma_first_nul_bounds(s: Seq<u8>)
    ensures
        0 <= first_nul(s) <= s.len(),
        forall|i: int| 0 <= i < first_nul(s) ==> s[i] != 0u8,
        first_nul(s) < s.len() ==> s[first_nul(s)] == 0u8,
    decreases s.len(),
{
    if s.len() > 0 && s[0] != 0u8 {
        lemma_first_nul_bounds(s.drop_first());
        assert forall|i: int| 0 <= i < first_nul(s) implies s[i] != 0u8 by {
            if i > 0 {
                assert(s.drop_first()[i - 1] != 0u8);
            }
        }
    }
}

/// Appending the terminator never moves the first zero byte: an embedded zero
/// still wins, and zero-free content meets the terminator exactly at its end.
pub proof fn lemma_first_nul_of_terminated(s: Seq<u8>)
    ensures
        first_nul(nul_terminated_spec(s)) == first_nul(s),
    decreases s.len(),
{
    if s.len() == 0 {
        assert(nul_terminated_spec(s)[0] == 0u8);
    } else if s[0] != 0u8 {
        lemma_first_nul_of_terminated(s.drop_first());
        assert(nul_terminated_spec(s).drop_first() =~= nul_terminated_spec(s.drop_first()));
    }
}

/// Content free of zero bytes survives null termination exactly: the native
/// callee reads precisely the content, nothing truncated, nothing added.
pub proof fn lemma_nul_free_c_view(s: Seq<u8>)
    requires
        forall|i: int| 0 <= i < s.len() ==> s[i] != 0u8,
    ensures
        c_view(nul_terminated_spec(s)) == s,
{
    lemma_first_nul_of_terminated(s);
    lemma_first_nul_bounds(s);
    if first_nul(s) < s.len() {
        assert(s[first_nul(s)] != 0u8);
    }
    assert(nul_terminated_spec(s).take(s.len() as int) =~= s);
}

/// Content with an embedded zero byte is silently truncated from the native
/// callee's point of view: it reads only the prefix before the first zero.
pub proof fn lemma_embedded_nul_truncates(s: Seq<u8>, i: int)
    requires
        0 <= i < s.len(),
        s[i] == 0u8,
    ensures
        c_view(nul_terminated_spec(s)) == s.take(first_nul(s)),
        first_nul(s) <= i,
{
    lemma_first_nul_of_terminated(s);
    lemma_first_nul_bounds(s);
    assert(nul_terminated_spec(s).take(first_nul(s)) =~= s.take(first_nul(s)));
    if first_nul(s) > i {
        assert(s[i] != 0u8);
    }
}

/// Heap-owned, exactly-sized buffer: the content of `s`, then one zero byte.
pub fn nul_terminated(s: &[u8]) -> (r: Vec<u8>)
    ensures
        r@ == nul_terminated_spec(s@),
{
    let mut r: Vec<u8> = Vec::new();
    let mut i: usize = 0;
    while i < s.len()
        invariant
            i <= s.len(),
            r@ == s@.take(i as int),
        decreases s.len() - i,
    {
        r.push(s[i]);
        i += 1;
        assert(s@.take(i as int) =~= s@.take(i - 1).push(s@[i - 1]));
    }
    assert(s@.take(s@.len() as int) =~= s@);
    r.push(0u8);
    r
}

} // verus!
