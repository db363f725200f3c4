//! Reading the package name out of a manifest: the first line whose
//! leading blanks are followed by `name =` names the package; the value is
//! what stands between that `=` and the next one (or the line's end),
//! blanks trimmed and surrounding quotes stripped.  A manifest with no
//! such line names the package `unknown`.

use vstd::prelude::*;
use vstd::string::StrSliceExecFns;
use vstd::string::StringExecFns;

use crate::text::blank_pred;
use crate::text::drop_start_matching;
use crate::text::is_blank;
use crate::text::lemma_drop_end_matching;
use crate::text::lemma_drop_start_matching;
use crate::text::quote_pred;
use crate::text::trimmed;
use crate::text::unquoted;

verus! {

/// Index of the first occurrence of `c` in `s`, or `s.len()` when absent.
pub open spec fn first_char_at(s: Seq<char>, c: char) -> nat
    decreases s.len(),
{
    if s.len() == 0 {
        0
    } else if s[0] == c {
        0
    } else {
        1 + first_char_at(s.drop_first(), c)
    }
}

/// `first_char_at` points at an occurrence when there is one, and nothing
/// earlier is an occurrence.
pub proof fn lemma_first_char_at(s: Seq<char>, c: char)
    ensures
        first_char_at(s, c) <= s.len(),
        first_char_at(s, c) < s.len() ==> s[first_char_at(s, c) as int] == c,
        forall|j: int| 0 <= j < first_char_at(s, c) ==> s[j] != c,
    decreases s.len(),
{
    if s.len() != 0 && s[0] != c {
        let rest = s.drop_first();
        lemma_first_char_at(rest, c);
        assert forall|j: int| 0 <= j < first_char_at(s, c) implies s[j] != c by {
            if j > 0 {
                assert(rest[j - 1] == s[j]);
            }
        }
    }
}

/// A position that is an occurrence with none before it is
/// `first_char_at`; so is the length when there is no occurrence at all.
pub proof fn lemma_first_char_at_is(s: Seq<char>, c: char, q: int)
    requires
        0 <= q <= s.len(),
        forall|j: int| 0 <= j < q ==> s[j] != c,
        q == s.len() || s[q] == c,
    ensures
        first_char_at(s, c) == q,
{
    lemma_first_char_at(s, c);
    let f = first_char_at(s, c) as int;
    if f < q {
        assert(s[f] == c);
        assert(s[f] != c);
    } else if q < f {
        assert(s[q] == c);
        assert(s[q] != c);
    }
}

/// The key that introduces the package name in a manifest line.
pub open spec fn name_key() -> Seq<char> {
    seq!['n', 'a', 'm', 'e', ' ', '=']
}

/// The name reported when no manifest line declares one.
pub open spec fn unknown_name() -> Seq<char> {
    seq!['u', 'n', 'k', 'n', 'o', 'w', 'n']
}

/// A line declares the package name when its leading blanks are followed
/// by `name =`.
pub open spec fn is_name_line(l: Seq<char>) -> bool {
    let t = drop_start_matching(l, blank_pred());
    t.len() >= name_key().len() && t.subrange(0, name_key().len() as int) == name_key()
}

/// The value a name-declaring line carries: what stands between the first
/// `=` and the next one (or the line's end), blanks trimmed and
/// surrounding quotes stripped.
pub open spec fn parsed_name(l: Seq<char>) -> Seq<char> {
    if first_char_at(l, '=') < l.len() {
        let rest = l.skip(first_char_at(l, '=') + 1 as int);
        unquoted(trimmed(rest.take(first_char_at(rest, '=') as int)))
    } else {
        unknown_name()
    }
}

/// One line's trailing carriage return removed, as a line ending of the
/// carriage-return-and-newline kind leaves one behind.
pub open spec fn strip_cr(l: Seq<char>) -> Seq<char> {
    if l.len() > 0 && l[l.len() - 1] == '\r' {
        l.drop_last()
    } else {
        l
    }
}

/// The package name a manifest text declares: the parsed value of its
/// first name-declaring line, or `unknown` when no line declares one.
/// Lines are separated by newlines; a carriage return directly before a
/// newline belongs to the line ending, not the line.
pub open spec fn crate_name_of(toml: Seq<char>) -> Seq<char>
    decreases toml.len(),
{
    if toml.len() == 0 {
        unknown_name()
    } else {
        let i = first_char_at(toml, '\n');
        if i < toml.len() {
            let line = strip_cr(toml.take(i as int));
            if is_name_line(line) {
                parsed_name(line)
            } else {
                crate_name_of(toml.skip(i + 1 as int))
            }
        } else {
            if is_name_line(toml) {
                parsed_name(toml)
            } else {
                unknown_name()
            }
        }
    }
}

/// Whether `c` is blank in a manifest line.
fn is_blank_char(c: char) -> (r: bool)
    ensures
        r == is_blank(c),
{
    c == ' ' || c == '\t' || c == '\r'
}

/// Parse one line: its declared package name if it is a name-declaring
/// line, nothing otherwise.
#[verifier::rlimit(100)]
fn parse_name_line(line: &str) -> (r: Option<String>)
    ensures
        is_name_line(line@) ==> (r matches Some(s) && s@ == parsed_name(line@)),
        !is_name_line(line@) ==> r is None,
{
    let n = line.unicode_len();
    let mut k: usize = 0;
    while k < n && is_blank_char(line.get_char(k))
        invariant
            n == line@.len(),
            k <= n,
            forall|j: int| 0 <= j < k ==> is_blank(line@[j]),
        decreases n - k,
    {
        k += 1;
    }
    proof {
        lemma_drop_start_matching(line@, blank_pred(), k as int);
    }
    let ghost t = line@.skip(k as int);
    if n - k < 6 {
        return None;
    }
    if !(line.get_char(k) == 'n' && line.get_char(k + 1) == 'a' && line.get_char(k + 2)
        == 'm' && line.get_char(k + 3) == 'e' && line.get_char(k + 4) == ' '
        && line.get_char(k + 5) == '=') {
        proof {
            if is_name_line(line@) {
                let key = t.subrange(0, 6);
                assert(key[0] == line@[k as int] && key[1] == line@[k + 1] && key[2]
                    == line@[k + 2] && key[3] == line@[k + 3] && key[4] == line@[k + 4]
                    && key[5] == line@[k + 5]);
            }
        }
        return None;
    }
    proof {
        assert(t.subrange(0, 6) =~= name_key());
        // The first `=` of the line stands directly after the key: blanks
        // are not `=`, nor are the key's first five characters.
        assert forall|j: int| 0 <= j < k + 5 implies line@[j] != '=' by {
            if j < k {
                assert(is_blank(line@[j]));
            }
        }
        lemma_first_char_at_is(line@, '=', k + 5);
    }
    let rest_start: usize = k + 6;
    let ghost rest = line@.skip(rest_start as int);
    let mut p: usize = rest_start;
    while p < n && line.get_char(p) != '='
        invariant
            n == line@.len(),
            rest_start <= p <= n,
            forall|j: int| rest_start <= j < p ==> line@[j] != '=',
        decreases n - p,
    {
        p += 1;
    }
    proof {
        assert forall|j: int| 0 <= j < p - rest_start implies rest[j] != '=' by {
            assert(rest[j] == line@[rest_start + j]);
        }
        if p < n {
            assert(rest[p - rest_start] == line@[p as int]);
        }
        lemma_first_char_at_is(rest, '=', p - rest_start);
        assert(rest.take(p - rest_start) =~= line@.subrange(rest_start as int, p as int));
    }
    let ghost seg = line@.subrange(rest_start as int, p as int);
    // Trim blanks from both ends of the segment.
    let mut a: usize = rest_start;
    while a < p && is_blank_char(line.get_char(a))
        invariant
            n == line@.len(),
            p <= n,
            rest_start <= a <= p,
            forall|j: int| rest_start <= j < a ==> is_blank(line@[j]),
        decreases p - a,
    {
        a += 1;
    }
    let mut b: usize = p;
    while b > a && is_blank_char(line.get_char(b - 1))
        invariant
            n == line@.len(),
            p <= n,
            a <= b <= p,
            forall|j: int| b <= j < p ==> is_blank(line@[j]),
        decreases b,
    {
        b -= 1;
    }
    proof {
        assert forall|j: int| 0 <= j < a - rest_start implies blank_pred()(seg[j]) by {
            assert(seg[j] == line@[rest_start + j]);
        }
        if a < p {
            assert(seg[a - rest_start] == line@[a as int]);
        }
        lemma_drop_start_matching(seg, blank_pred(), a - rest_start);
        let mid = seg.skip(a - rest_start);
        assert(mid =~= line@.subrange(a as int, p as int));
        assert forall|j: int| b - a <= j < mid.len() implies blank_pred()(mid[j]) by {
            assert(mid[j] == line@[a + j]);
        }
        if b > a {
            assert(mid[b - a - 1] == line@[b - 1]);
        }
        lemma_drop_end_matching(mid, blank_pred(), b - a);
        assert(mid.take(b - a) =~= line@.subrange(a as int, b as int));
        assert(trimmed(seg) == line@.subrange(a as int, b as int));
    }
    let ghost trimmed_seg = line@.subrange(a as int, b as int);
    // Strip quotes from both ends of the trimmed segment.
    let mut c: usize = a;
    while c < b && line.get_char(c) == '"'
        invariant
            n == line@.len(),
            b <= n,
            a <= c <= b,
            forall|j: int| a <= j < c ==> line@[j] == '"',
        decreases b - c,
    {
        c += 1;
    }
    let mut d: usize = b;
    while d > c && line.get_char(d - 1) == '"'
        invariant
            n == line@.len(),
            b <= n,
            c <= d <= b,
            forall|j: int| d <= j < b ==> line@[j] == '"',
        decreases d,
    {
        d -= 1;
    }
    proof {
        assert forall|j: int| 0 <= j < c - a implies quote_pred()(trimmed_seg[j]) by {
            assert(trimmed_seg[j] == line@[a + j]);
        }
        if c < b {
            assert(trimmed_seg[c - a] == line@[c as int]);
        }
        lemma_drop_start_matching(trimmed_seg, quote_pred(), c - a);
        let mid = trimmed_seg.skip(c - a);
        assert(mid =~= line@.subrange(c as int, b as int));
        assert forall|j: int| d - c <= j < mid.len() implies quote_pred()(mid[j]) by {
            assert(mid[j] == line@[c + j]);
        }
        if d > c {
            assert(mid[d - c - 1] == line@[d - 1]);
        }
        lemma_drop_end_matching(mid, quote_pred(), d - c);
        assert(mid.take(d - c) =~= line@.subrange(c as int, d as int));
        assert(unquoted(trimmed_seg) == line@.subrange(c as int, d as int));
    }
    let value = line.substring_char(c, d);
    proof {
        assert(parsed_name(line@) == value@);
    }
    Some(String::from_str(value))
}

/// Read the declared package name out of a manifest text, line by line:
/// the first line declaring a name yields its parsed value, and a
/// manifest with no such line yields `unknown`.
pub fn extract_crate_name(toml: &str) -> (r: String)
    ensures
        r@ == crate_name_of(toml@),
    decreases toml@.len(),
{
    let n = toml.unicode_len();
    if n == 0 {
        let r = String::from_str("unknown");
        proof {
            reveal_strlit("unknown");
            assert(r@ =~= unknown_name());
        }
        return r;
    }
    let mut i: usize = 0;
    while i < n && toml.get_char(i) != '\n'
        invariant
            n == toml@.len(),
            i <= n,
            forall|j: int| 0 <= j < i ==> toml@[j] != '\n',
        decreases n - i,
    {
        i += 1;
    }
    proof {
        lemma_first_char_at_is(toml@, '\n', i as int);
    }
    if i == n {
        match parse_name_line(toml) {
            Some(s) => s,
            None => {
                let r = String::from_str("unknown");
                proof {
                    reveal_strlit("unknown");
                    assert(r@ =~= unknown_name());
                }
                r
            },
        }
    } else {
        let mut end: usize = i;
        if end > 0 && toml.get_char(end - 1) == '\r' {
            end -= 1;
        }
        let line = toml.substring_char(0, end);
        proof {
            let taken = toml@.take(i as int);
            if i > 0 && toml@[i - 1] == '\r' {
                assert(taken[taken.len() - 1] == toml@[i - 1]);
                assert(taken.drop_last() =~= toml@.subrange(0, end as int));
            } else {
                if taken.len() > 0 {
                    assert(taken[taken.len() - 1] == toml@[i - 1]);
                }
                assert(taken =~= toml@.subrange(0, end as int));
            }
            assert(line@ == strip_cr(toml@.take(i as int)));
        }
        match parse_name_line(line) {
            Some(s) => s,
            None => {
                let rest = toml.substring_char(i + 1, n);
                proof {
                    assert(rest@ =~= toml@.skip(i + 1));
                }
                extract_crate_name(rest)
            },
        }
    }
}

} // verus!
