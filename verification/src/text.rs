//! Text utilities: verified string comparison and the strict boolean literal
//! coercion shared by every entity converter.

use vstd::prelude::*;

verus! {

/// Character-by-character equality of two string slices.
pub fn str_eq(a: &str, b: &str) -> (r: bool)
    ensures
        r == (a@ == b@),
{
    let a_len = a.unicode_len();
    let b_len = b.unicode_len();
    if a_len != b_len {
        return false;
    }
    let mut i: usize = 0;
    while i < a_len
        invariant
            a_len == a@.len(),
            b_len == b@.len(),
            a_len == b_len,
            i <= a_len,
            forall|j: int| 0 <= j < i ==> a@[j] == b@[j],
        decreases a_len - i,
    {
        if a.get_char(i) != b.get_char(i) {
            return false;
        }
        i = i + 1;
    }
    proof {
        assert(a@ =~= b@);
    }
    true
}

/// Concatenation of sequences is associative.
pub proof fn lemma_concat_assoc<T>(a: Seq<T>, b: Seq<T>, c: Seq<T>)
    ensures
        (a + b) + c == a + (b + c),
{
    assert((a + b) + c =~= a + (b + c));
}

/// The strict boolean coercion: only the exact literal `true` counts as true;
/// every other text (including `false`, `1`, `TRUE`, or the empty string)
/// yields the permissive default `false`.
pub open spec fn coerce_bool(s: Seq<char>) -> bool {
    s == "true"@
}

/// Decides the strict boolean coercion of a text value.
pub fn parse_bool_literal(s: &str) -> (r: bool)
    ensures
        r == coerce_bool(s@),
{
    str_eq(s, "true")
}

/// The canonical text of a boolean, as it appears in a rendered profile.
pub open spec fn spec_bool_text(b: bool) -> Seq<char> {
    if b {
        "true"@
    } else {
        "false"@
    }
}

/// Returns the canonical text of a boolean.
pub fn bool_text(b: bool) -> (r: &'static str)
    ensures
        r@ == spec_bool_text(b),
{
    if b {
        "true"
    } else {
        "false"
    }
}

} // verus!
