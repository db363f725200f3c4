//! Character-sequence predicates shared by the manifest parser and the
//! artifact search: substring occurrence, suffix tests, and blank-character
//! trimming.

use vstd::prelude::*;

verus! {

/// `sub` occurs in `s` starting at index `i`.
pub open spec fn occurs_at(s: Seq<char>, sub: Seq<char>, i: int) -> bool {
    0 <= i && i + sub.len() <= s.len() && s.subrange(i, i + sub.len()) == sub
}

/// `sub` occurs somewhere in `s`.
pub open spec fn contains_seq(s: Seq<char>, sub: Seq<char>) -> bool {
    exists|i: int| occurs_at(s, sub, i)
}

/// `s` ends with `suffix`.
pub open spec fn ends_with_seq(s: Seq<char>, suffix: Seq<char>) -> bool {
    s.len() >= suffix.len() && s.subrange(s.len() - suffix.len(), s.len() as int)
        == suffix
}

/// The characters a manifest line treats as blank: space, tab, and the
/// carriage return a Windows line ending leaves behind.
pub open spec fn is_blank(c: char) -> bool {
    c == ' ' || c == '\t' || c == '\r'
}

/// The blank predicate as a value, for the trimming functions.
pub open spec fn blank_pred() -> spec_fn(char) -> bool {
    |c: char| is_blank(c)
}

/// The quote predicate as a value, for stripping surrounding quotes.
pub open spec fn quote_pred() -> spec_fn(char) -> bool {
    |c: char| c == '"'
}

/// `s` with its longest prefix of characters satisfying `p` removed.
pub open spec fn drop_start_matching(s: Seq<char>, p: spec_fn(char) -> bool) -> Seq<char>
    decreases s.len(),
{
    if s.len() > 0 && p(s[0]) {
        drop_start_matching(s.drop_first(), p)
    } else {
        s
    }
}

/// `s` with its longest suffix of characters satisfying `p` removed.
pub open spec fn drop_end_matching(s: Seq<char>, p: spec_fn(char) -> bool) -> Seq<char>
    decreases s.len(),
{
    if s.len() > 0 && p(s[s.len() - 1]) {
        drop_end_matching(s.drop_last(), p)
    } else {
        s
    }
}

/// `drop_start_matching` removes exactly the prefix up to the first
/// character that fails `p`.
pub proof fn lemma_drop_start_matching(s: Seq<char>, p: spec_fn(char) -> bool, k: int)
    requires
        0 <= k <= s.len(),
        forall|j: int| 0 <= j < k ==> p(s[j]),
        k == s.len() || !p(s[k]),
    ensures
        drop_start_matching(s, p) == s.skip(k),
    decreases s.len(),
{
    if k == 0 {
        assert(s.skip(0) =~= s);
    } else {
        let rest = s.drop_first();
        assert(rest =~= s.skip(1));
        lemma_drop_start_matching(rest, p, k - 1);
        assert(rest.skip(k - 1) =~= s.skip(k));
    }
}

/// `drop_end_matching` removes exactly the suffix from the last character
/// that fails `p`.
pub proof fn lemma_drop_end_matching(s: Seq<char>, p: spec_fn(char) -> bool, k: int)
    requires
        0 <= k <= s.len(),
        forall|j: int| k <= j < s.len() ==> p(s[j]),
        k == 0 || !p(s[k - 1]),
    ensures
        drop_end_matching(s, p) == s.take(k),
    decreases s.len(),
{
    if k == s.len() {
        assert(s.take(k) =~= s);
    } else {
        let head = s.drop_last();
        assert(head =~= s.take(s.len() - 1));
        lemma_drop_end_matching(head, p, k);
        assert(head.take(k) =~= s.take(k));
    }
}

/// `s` with leading and trailing blanks removed.
pub open spec fn trimmed(s: Seq<char>) -> Seq<char> {
    drop_end_matching(drop_start_matching(s, blank_pred()), blank_pred())
}

/// `s` with every leading and trailing quote character removed.
pub open spec fn unquoted(s: Seq<char>) -> Seq<char> {
    drop_end_matching(drop_start_matching(s, quote_pred()), quote_pred())
}

} // verus!
