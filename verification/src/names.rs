//! Matching of a queried host name against the names a peer certificate
//! carries: case-insensitive in the ASCII range, and wildcard-aware.
//!
//! A certificate name of the form `*.domain` matches any name whose first
//! label is non-empty and dot-free and whose remainder, starting at the
//! first dot, equals `.domain` (ignoring ASCII case). Every other
//! certificate name must match the queried name whole, again ignoring
//! ASCII case.

use vstd::prelude::*;
use vstd::string::*;

verus! {

/// Case-insensitive character equality, folding ASCII letters only.
pub open spec fn char_ieq(a: char, b: char) -> bool {
    ||| a == b
    ||| (65 <= a as int && a as int <= 90 && b as int == a as int + 32)
    ||| (65 <= b as int && b as int <= 90 && a as int == b as int + 32)
}

/// Case-insensitive equality of two character sequences.
pub open spec fn seq_ieq(a: Seq<char>, b: Seq<char>) -> bool {
    a.len() == b.len() && (forall|i: int| 0 <= i < a.len() ==> char_ieq(a[i], b[i]))
}

/// A certificate name that stands for a whole left-most label.
pub open spec fn is_wildcard_pattern(p: Seq<char>) -> bool {
    p.len() >= 2 && p[0] == '*' && p[1] == '.'
}

/// The wildcard pattern `p` matches `n` when `n` has a non-empty,
/// dot-free first label and the rest of `n`, from its first dot on,
/// equals `p` without its leading `*`.
pub open spec fn wildcard_matches(p: Seq<char>, n: Seq<char>) -> bool {
    exists|k: int|
        1 <= k < n.len() && n[k] == '.' && (forall|j: int| 0 <= j < k ==> n[j] != '.')
            && seq_ieq(p.skip(1), n.skip(k))
}

/// Whether the certificate name `p` matches the queried name `n`.
pub open spec fn name_matches(p: Seq<char>, n: Seq<char>) -> bool {
    if is_wildcard_pattern(p) {
        wildcard_matches(p, n)
    } else {
        seq_ieq(p, n)
    }
}

/// Whether any name in `names` matches the queried name `n`.
pub open spec fn some_name_matches(names: Seq<Seq<char>>, n: Seq<char>) -> bool {
    exists|i: int| 0 <= i < names.len() && name_matches(names[i], n)
}

/// Case-insensitive character comparison.
fn char_ieq_exec(a: char, b: char) -> (r: bool)
    ensures
        r == char_ieq(a, b),
{
    let x = a as u32;
    let y = b as u32;
    x == y || (65 <= x && x <= 90 && y == x + 32) || (65 <= y && y <= 90 && x == y + 32)
}

/// Case-insensitive string comparison.
pub fn str_ieq(a: &str, b: &str) -> (r: bool)
    ensures
        r == seq_ieq(a@, b@),
{
    let alen = a.unicode_len();
    let blen = b.unicode_len();
    if alen != blen {
        return false;
    }
    let mut i: usize = 0;
    while i < alen
        invariant
            alen == a@.len(),
            blen == b@.len(),
            alen == blen,
            i <= alen,
            forall|j: int| 0 <= j < i ==> char_ieq(a@[j], b@[j]),
        decreases alen - i,
    {
        if !char_ieq_exec(a.get_char(i), b.get_char(i)) {
            return false;
        }
        i = i + 1;
    }
    true
}

/// The position of the first dot in `n`, if any.
fn find_first_dot(n: &str) -> (r: Option<usize>)
    ensures
        match r {
            Some(k) => k < n@.len() && n@[k as int] == '.' && (forall|j: int|
                0 <= j < k ==> n@[j] != '.'),
            None => forall|j: int| 0 <= j < n@.len() ==> n@[j] != '.',
        },
{
    let len = n.unicode_len();
    let mut i: usize = 0;
    while i < len
        invariant
            len == n@.len(),
            i <= len,
            forall|j: int| 0 <= j < i ==> n@[j] != '.',
        decreases len - i,
    {
        if n.get_char(i) == '.' {
            return Some(i);
        }
        i = i + 1;
    }
    None
}

/// Whether the certificate name `pattern` matches the queried name
/// `name`, with wildcard and ASCII-case handling.
pub fn matches_name(pattern: &str, name: &str) -> (r: bool)
    ensures
        r == name_matches(pattern@, name@),
{
    let plen = pattern.unicode_len();
    if plen >= 2 && pattern.get_char(0) == '*' && pattern.get_char(1) == '.' {
        match find_first_dot(name) {
            Some(k) => {
                if k >= 1 {
                    let ptail = pattern.substring_char(1, plen);
                    let ntail = name.substring_char(k, name.unicode_len());
                    let r = str_ieq(ptail, ntail);
                    proof {
                        assert(ptail@ =~= pattern@.skip(1));
                        assert(ntail@ =~= name@.skip(k as int));
                        if r {
                            assert(wildcard_matches(pattern@, name@)) by {
                                assert(1 <= k < name@.len() && name@[k as int] == '.' && (forall|
                                    j: int,
                                |
                                    0 <= j < k ==> name@[j] != '.') && seq_ieq(
                                    pattern@.skip(1),
                                    name@.skip(k as int),
                                ));
                            }
                        } else {
                            assert forall|k2: int|
                                1 <= k2 < name@.len() && name@[k2] == '.' && (forall|j: int|
                                    0 <= j < k2 ==> name@[j] != '.') implies !seq_ieq(
                                pattern@.skip(1),
                                name@.skip(k2),
                            ) by {
                                assert(k2 == k);
                            }
                        }
                    }
                    r
                } else {
                    proof {
                        assert forall|k2: int|
                            1 <= k2 < name@.len() implies !(name@[k2] == '.' && (forall|j: int|
                            0 <= j < k2 ==> name@[j] != '.')) by {
                            assert(name@[0] == '.');
                        }
                    }
                    false
                }
            },
            None => false,
        }
    } else {
        str_ieq(pattern, name)
    }
}

/// Whether any of `names` matches the queried name `name`.
pub fn contains_matching_name(names: &Vec<String>, name: &str) -> (r: bool)
    ensures
        r == some_name_matches(names.deep_view(), name@),
{
    let mut i: usize = 0;
    while i < names.len()
        invariant
            i <= names@.len(),
            forall|j: int| 0 <= j < i ==> !name_matches(names.deep_view()[j], name@),
        decreases names@.len() - i,
    {
        if matches_name(names[i].as_str(), name) {
            proof {
                assert(names.deep_view()[i as int] == names@[i as int]@);
            }
            return true;
        }
        i = i + 1;
    }
    false
}

} // verus!
