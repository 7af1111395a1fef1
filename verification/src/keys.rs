//! The shape of a configuration key.
//!
//! A key is split on `.` into at most three parts:
//!
//! * `setting` — a document-wide setting,
//! * `<scope>.setting` — a per-language override,
//! * `<scope>.customBlock.<blockName>` — a policy for one named custom
//!   block; everything after the second dot is the block name.

use vstd::prelude::*;
use vstd::string::StrSliceExecFns;

verus! {

/// Position of the first `.` in `s`, or `-1` if there is none.
pub open spec fn first_dot(s: Seq<char>) -> int
    decreases s.len(),
{
    if s.len() == 0 {
        -1
    } else if s[0] == '.' {
        0
    } else {
        let r = first_dot(s.subrange(1, s.len() as int));
        if r < 0 {
            -1
        } else {
            r + 1
        }
    }
}

/// What `first_dot` returns is the first dot indeed.
pub proof fn lemma_first_dot(s: Seq<char>)
    ensures
        first_dot(s) == -1 ==> forall|j: int| 0 <= j < s.len() ==> s[j] != '.',
        first_dot(s) >= 0 ==> first_dot(s) < s.len() && s[first_dot(s)] == '.',
        first_dot(s) >= 0 ==> forall|j: int| 0 <= j < first_dot(s) ==> s[j] != '.',
    decreases s.len(),
{
    if s.len() != 0 && s[0] != '.' {
        let t = s.subrange(1, s.len() as int);
        lemma_first_dot(t);
        assert(forall|j: int| 0 <= j < t.len() ==> t[j] == s[j + 1]);
        if first_dot(s) == -1 {
            assert forall|j: int| 0 <= j < s.len() implies s[j] != '.' by {
                if j > 0 {
                    assert(t[j - 1] != '.');
                }
            }
        } else {
            assert forall|j: int| 0 <= j < first_dot(s) implies s[j] != '.' by {
                if j > 0 {
                    assert(t[j - 1] != '.');
                }
            }
        }
    }
}

/// A position that holds a dot, with none before it, is `first_dot`.
pub proof fn lemma_first_dot_unique(s: Seq<char>, i: int)
    requires
        0 <= i < s.len(),
        s[i] == '.',
        forall|j: int| 0 <= j < i ==> s[j] != '.',
    ensures
        first_dot(s) == i,
    decreases s.len(),
{
    if i > 0 {
        let t = s.subrange(1, s.len() as int);
        assert(forall|j: int| 0 <= j < t.len() ==> t[j] == s[j + 1]);
        lemma_first_dot_unique(t, i - 1);
    }
}

/// The shape of a key, over views.
pub enum KeyShape {
    Bare(Seq<char>),
    Scoped(Seq<char>, Seq<char>),
    Block(Seq<char>, Seq<char>, Seq<char>),
}

/// The shape of key `k`: its parts around the first one or two dots.
pub open spec fn key_shape(k: Seq<char>) -> KeyShape {
    let i = first_dot(k);
    if i < 0 {
        KeyShape::Bare(k)
    } else {
        let scope = k.subrange(0, i);
        let rest = k.subrange(i + 1, k.len() as int);
        let j = first_dot(rest);
        if j < 0 {
            KeyShape::Scoped(scope, rest)
        } else {
            KeyShape::Block(scope, rest.subrange(0, j), rest.subrange(j + 1, rest.len() as int))
        }
    }
}

/// The shape of a key, as executable data.
pub enum ParsedKey {
    Bare(String),
    Scoped(String, String),
    Block(String, String, String),
}

impl View for ParsedKey {
    type V = KeyShape;

    open spec fn view(&self) -> KeyShape {
        match self {
            ParsedKey::Bare(name) => KeyShape::Bare(name@),
            ParsedKey::Scoped(scope, name) => KeyShape::Scoped(scope@, name@),
            ParsedKey::Block(scope, mid, block) => KeyShape::Block(scope@, mid@, block@),
        }
    }
}

/// Index of the first `.` at or after position `from`, if any.
fn find_dot(s: &str, from: usize) -> (r: Option<usize>)
    requires
        from <= s@.len(),
    ensures
        match r {
            Some(i) => from <= i < s@.len() && s@[i as int] == '.' && forall|j: int|
                from <= j < i ==> s@[j] != '.',
            None => forall|j: int| from <= j < s@.len() ==> s@[j] != '.',
        },
{
    let len = s.unicode_len();
    let mut i: usize = from;
    while i < len
        invariant
            from <= i <= len,
            len == s@.len(),
            forall|j: int| from <= j < i ==> s@[j] != '.',
        decreases len - i,
    {
        if s.get_char(i) == '.' {
            return Some(i);
        }
        i += 1;
    }
    None
}

/// Splits a key into its shape, as [`key_shape`] describes it.
pub fn parse_key(key: &str) -> (r: ParsedKey)
    ensures
        r@ == key_shape(key@),
{
    let len = s_len(key);
    match find_dot(key, 0) {
        None => {
            proof {
                lemma_first_dot(key@);
                if first_dot(key@) >= 0 {
                    assert(key@[first_dot(key@)] == '.');
                }
            }
            ParsedKey::Bare(key.to_owned())
        },
        Some(i) => {
            proof {
                lemma_first_dot_unique(key@, i as int);
            }
            let scope = key.substring_char(0, i);
            let rest = key.substring_char(i + 1, len);
            proof {
                assert(rest@ == key@.subrange(i + 1, key@.len() as int));
            }
            match find_dot(rest, 0) {
                None => {
                    proof {
                        lemma_first_dot(rest@);
                        if first_dot(rest@) >= 0 {
                            assert(rest@[first_dot(rest@)] == '.');
                        }
                    }
                    ParsedKey::Scoped(scope.to_owned(), rest.to_owned())
                },
                Some(j) => {
                    proof {
                        lemma_first_dot_unique(rest@, j as int);
                    }
                    let rest_len = s_len(rest);
                    let mid = rest.substring_char(0, j);
                    let block = rest.substring_char(j + 1, rest_len);
                    ParsedKey::Block(scope.to_owned(), mid.to_owned(), block.to_owned())
                },
            }
        },
    }
}

/// Character count of a string slice.
fn s_len(s: &str) -> (r: usize)
    ensures
        r == s@.len(),
{
    s.unicode_len()
}

} // verus!
