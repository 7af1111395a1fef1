//! Character-level helpers: spelling normalization and string comparison.
//!
//! Setting names and enumerated setting values accept two equivalent
//! spellings: a compact one (`langAttribute`) and a separator-delimited one
//! (`lang-attribute`).  Both are reduced to a normal form — separators
//! dropped, ASCII letters lowercased — before they are compared.

use vstd::prelude::*;
use vstd::string::StrSliceExecFns;

verus! {

/// A character that normalization discards.
pub open spec fn is_separator(c: char) -> bool {
    c == '-' || c == '_'
}

/// ASCII lowercasing of one character; anything but an ASCII capital letter
/// is kept as it is.
pub open spec fn lower_char(c: char) -> char {
    if c == 'A' { 'a' } else if c == 'B' { 'b' } else if c == 'C' { 'c' }
    else if c == 'D' { 'd' } else if c == 'E' { 'e' } else if c == 'F' { 'f' }
    else if c == 'G' { 'g' } else if c == 'H' { 'h' } else if c == 'I' { 'i' }
    else if c == 'J' { 'j' } else if c == 'K' { 'k' } else if c == 'L' { 'l' }
    else if c == 'M' { 'm' } else if c == 'N' { 'n' } else if c == 'O' { 'o' }
    else if c == 'P' { 'p' } else if c == 'Q' { 'q' } else if c == 'R' { 'r' }
    else if c == 'S' { 's' } else if c == 'T' { 't' } else if c == 'U' { 'u' }
    else if c == 'V' { 'v' } else if c == 'W' { 'w' } else if c == 'X' { 'x' }
    else if c == 'Y' { 'y' } else if c == 'Z' { 'z' }
    else { c }
}

/// Executable ASCII lowercasing, equal to [`lower_char`].
pub fn to_lower_char(c: char) -> (r: char)
    ensures
        r == lower_char(c),
{
    match c {
        'A' => 'a', 'B' => 'b', 'C' => 'c', 'D' => 'd', 'E' => 'e',
        'F' => 'f', 'G' => 'g', 'H' => 'h', 'I' => 'i', 'J' => 'j',
        'K' => 'k', 'L' => 'l', 'M' => 'm', 'N' => 'n', 'O' => 'o',
        'P' => 'p', 'Q' => 'q', 'R' => 'r', 'S' => 's', 'T' => 't',
        'U' => 'u', 'V' => 'v', 'W' => 'w', 'X' => 'x', 'Y' => 'y',
        'Z' => 'z',
        _ => c,
    }
}

/// The normal form of a spelling: separators dropped, letters lowercased.
pub open spec fn normal_form(s: Seq<char>) -> Seq<char>
    decreases s.len(),
{
    if s.len() == 0 {
        Seq::empty()
    } else if is_separator(s.last()) {
        normal_form(s.drop_last())
    } else {
        normal_form(s.drop_last()).push(lower_char(s.last()))
    }
}

/// Normalization distributes over concatenation.
pub proof fn lemma_normal_form_concat(a: Seq<char>, b: Seq<char>)
    ensures
        normal_form(a + b) == normal_form(a) + normal_form(b),
    decreases b.len(),
{
    if b.len() == 0 {
        assert(a + b =~= a);
        assert(normal_form(a) + normal_form(b) =~= normal_form(a));
    } else {
        lemma_normal_form_concat(a, b.drop_last());
        assert((a + b).drop_last() =~= a + b.drop_last());
        if !is_separator(b.last()) {
            assert(normal_form(a) + normal_form(b) =~= (normal_form(a) + normal_form(
                b.drop_last(),
            )).push(lower_char(b.last())));
        }
    }
}

/// Character-for-character string equality.
pub fn str_eq(a: &str, b: &str) -> (r: bool)
    ensures
        r == (a@ == b@),
{
    let a_len = a.unicode_len();
    let b_len = b.unicode_len();
    if a_len != b_len {
        return false;
    }
    let mut i: usize = 0;
    while i < a_len
        invariant
            i <= a_len,
            a_len == a@.len(),
            a_len == b@.len(),
            forall|j: int| 0 <= j < i ==> a@[j] == b@[j],
        decreases a_len - i,
    {
        if a.get_char(i) != b.get_char(i) {
            return false;
        }
        i += 1;
    }
    proof {
        assert(a@ =~= b@);
    }
    true
}

/// Whether `s`, in normal form, spells exactly `label`.
///
/// `label` is expected to already be in normal form (lowercase, without
/// separators); the contract speaks of the views alone, so nothing depends
/// on that expectation.
pub fn matches_label(s: &str, label: &str) -> (r: bool)
    ensures
        r == (normal_form(s@) == label@),
{
    let s_len = s.unicode_len();
    let label_len = label.unicode_len();
    let mut i: usize = 0;
    let mut j: usize = 0;
    while i < s_len
        invariant
            i <= s_len,
            j <= label_len,
            s_len == s@.len(),
            label_len == label@.len(),
            normal_form(s@.subrange(0, i as int)) == label@.subrange(0, j as int),
        decreases s_len - i,
    {
        let c = s.get_char(i);
        proof {
            assert(s@.subrange(0, i + 1).drop_last() =~= s@.subrange(0, i as int));
            assert(s@.subrange(0, i + 1).last() == s@[i as int]);
        }
        if c == '-' || c == '_' {
            i += 1;
        } else {
            proof {
                lemma_normal_form_concat(s@.subrange(0, i + 1), s@.subrange(i + 1, s_len as int));
                assert(s@.subrange(0, i + 1) + s@.subrange(i + 1, s_len as int) =~= s@);
            }
            if j == label_len {
                // the normal form of s is at least j + 1 characters long
                return false;
            }
            let lc = to_lower_char(c);
            let d = label.get_char(j);
            if lc != d {
                // the normal forms differ at position j
                assert(normal_form(s@)[j as int] == lc);
                return false;
            }
            proof {
                let jj = j as int;
                assert(label@.subrange(0, jj + 1) =~= label@.subrange(0, jj).push(label@[jj]));
            }
            i += 1;
            j += 1;
        }
    }
    proof {
        assert(s@.subrange(0, s_len as int) =~= s@);
        if j == label_len {
            assert(label@.subrange(0, label_len as int) =~= label@);
        }
    }
    j == label_len
}

} // verus!
