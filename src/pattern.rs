//! Label filtering: a filter expression is a comma-separated list of
//! patterns, and a label is enabled when any of them matches it.

use vstd::prelude::*;
use crate::text::{chars_contain, chars_of, chars_start_with, is_prefix, occurs_in};

verus! {

/// The pattern that matches every label.
pub open spec fn is_wildcard(pattern: Seq<char>) -> bool {
    pattern == seq!['*']
}

/// A pattern of the shape `<prefix>:*`.
pub open spec fn is_namespace_pattern(pattern: Seq<char>) -> bool {
    pattern.len() >= 2 && pattern[pattern.len() - 2] == ':' && pattern[pattern.len() - 1] == '*'
}

/// Whether one pattern matches a label: `*` matches everything, `<prefix>:*`
/// matches the labels that start with `<prefix>:`, and any other pattern
/// matches the labels that contain it.
pub open spec fn pattern_matches(label: Seq<char>, pattern: Seq<char>) -> bool {
    if is_wildcard(pattern) {
        true
    } else if is_namespace_pattern(pattern) {
        is_prefix(pattern.drop_last(), label)
    } else {
        occurs_in(pattern, label)
    }
}

/// The pieces of `s` between its commas, as `str::split(',')` yields them
/// (an empty `s` gives one empty piece).
pub open spec fn comma_pieces(s: Seq<char>) -> Seq<Seq<char>>
    decreases s.len(),
{
    if s.len() == 0 {
        seq![Seq::<char>::empty()]
    } else {
        let rest = comma_pieces(s.drop_last());
        if s.last() == ',' {
            rest.push(Seq::<char>::empty())
        } else {
            rest.update(rest.len() - 1, rest.last().push(s.last()))
        }
    }
}

/// Whether some piece of the filter expression matches the label.
pub open spec fn filter_matches(label: Seq<char>, filter: Seq<char>) -> bool {
    exists|k: int| 0 <= k < comma_pieces(filter).len() && pattern_matches(label, #[trigger] comma_pieces(filter)[k])
}

/// Whether a label is enabled under a filter setting; an absent setting
/// enables nothing.
pub open spec fn label_enabled(label: Seq<char>, filter: Option<&str>) -> bool {
    match filter {
        Some(f) => filter_matches(label, f@),
        None => false,
    }
}

/// The filter expression `*` enables every label.
pub proof fn lemma_wildcard_enables_all(label: Seq<char>)
    ensures
        filter_matches(label, seq!['*']),
{
    let f = seq!['*'];
    assert(f.drop_last() =~= Seq::<char>::empty());
    assert(comma_pieces(f.drop_last()) == seq![Seq::<char>::empty()]);
    let ps = comma_pieces(f);
    assert(ps[0] =~= seq!['*']);
    assert(pattern_matches(label, ps[0]));
}

/// A pattern `<prefix>:*` matches exactly the labels that start with
/// `<prefix>:`.
pub proof fn lemma_namespace_pattern_is_prefix(label: Seq<char>, pattern: Seq<char>)
    requires
        is_namespace_pattern(pattern),
    ensures
        pattern_matches(label, pattern) == is_prefix(pattern.drop_last(), label),
{
    assert(!is_wildcard(pattern)) by {
        if is_wildcard(pattern) {
            assert(pattern.len() == 1);
        }
    }
}

/// Any other pattern matches exactly the labels that contain it.
pub proof fn lemma_plain_pattern_is_substring(label: Seq<char>, pattern: Seq<char>)
    requires
        !is_wildcard(pattern),
        !is_namespace_pattern(pattern),
    ensures
        pattern_matches(label, pattern) == occurs_in(pattern, label),
{
}

fn chars_match_pattern(label: &Vec<char>, pattern: &Vec<char>) -> (r: bool)
    ensures
        r == pattern_matches(label@, pattern@),
{
    let n = pattern.len();
    if n == 1 && pattern[0] == '*' {
        assert(pattern@ =~= seq!['*']);
        return true;
    }
    if n >= 2 && pattern[n - 2] == ':' && pattern[n - 1] == '*' {
        let mut prefix: Vec<char> = Vec::new();
        let mut i: usize = 0;
        while i < n - 1
            invariant
                n == pattern@.len(),
                n >= 2,
                i <= n - 1,
                prefix@ == pattern@.subrange(0, i as int),
            decreases n - 1 - i,
        {
            prefix.push(pattern[i]);
            i = i + 1;
        }
        assert(prefix@ =~= pattern@.drop_last());
        return chars_start_with(label, &prefix);
    }
    chars_contain(label, pattern)
}

/// Whether `pattern` matches `label`.
pub fn is_match_with_pattern(label: &str, pattern: &str) -> (r: bool)
    ensures
        r == pattern_matches(label@, pattern@),
{
    let l = chars_of(label);
    let p = chars_of(pattern);
    chars_match_pattern(&l, &p)
}

/// Whether `label` is enabled under the filter setting `filter`
/// (`None` when the setting is absent).
pub fn is_permitted_to_write(label: &str, filter: Option<&str>) -> (r: bool)
    ensures
        r == label_enabled(label@, filter),
{
    let f = match filter {
        Some(f) => f,
        None => return false,
    };
    let l = chars_of(label);
    let s = chars_of(f);
    let mut found = false;
    let mut piece: Vec<char> = Vec::new();
    let mut i: usize = 0;
    proof {
        assert(s@.subrange(0, 0) =~= Seq::<char>::empty());
    }
    while i < s.len()
        invariant
            s@ == f@,
            i <= s@.len(),
            comma_pieces(s@.subrange(0, i as int)).len() >= 1,
            piece@ == comma_pieces(s@.subrange(0, i as int)).last(),
            found == exists|k: int|
                0 <= k < comma_pieces(s@.subrange(0, i as int)).len() - 1
                    && pattern_matches(l@, #[trigger] comma_pieces(s@.subrange(0, i as int))[k]),
        decreases s@.len() - i,
    {
        let ghost before = comma_pieces(s@.subrange(0, i as int));
        proof {
            assert(s@.subrange(0, i + 1).drop_last() =~= s@.subrange(0, i as int));
        }
        if s[i] == ',' {
            let m = chars_match_pattern(&l, &piece);
            let ghost after = comma_pieces(s@.subrange(0, i + 1));
            assert(after == before.push(Seq::<char>::empty()));
            if m {
                assert(pattern_matches(l@, after[before.len() - 1]));
            }
            if found {
                proof {
                    let k = choose|k: int| 0 <= k < before.len() - 1 && pattern_matches(l@, #[trigger] before[k]);
                    assert(pattern_matches(l@, after[k]));
                }
            }
            if !found && !m {
                assert forall|k: int| 0 <= k < after.len() - 1 implies !pattern_matches(l@, #[trigger] after[k]) by {
                    assert(after[k] == before[k]);
                }
            }
            found = found || m;
            piece = Vec::new();
        } else {
            piece.push(s[i]);
            let ghost after = comma_pieces(s@.subrange(0, i + 1));
            assert(after == before.update(before.len() - 1, before.last().push(s@[i as int])));
            assert forall|k: int| 0 <= k < after.len() - 1 implies after[k] == before[k] by {}
        }
        i = i + 1;
    }
    assert(s@.subrange(0, s@.len() as int) =~= s@);
    let m = chars_match_pattern(&l, &piece);
    let ghost ps = comma_pieces(s@);
    if m {
        assert(pattern_matches(l@, ps[ps.len() - 1]));
    }
    found || m
}

} // verus!
