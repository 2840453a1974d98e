//! Character-level string operations: suffix stripping, splitting on a
//! separator, and the last segment after a separator. These are the
//! building blocks for the path and statement derivations.

use vstd::prelude::*;
use vstd::string::*;

verus! {

/// True when `s` ends with the character sequence `suffix`.
pub open spec fn ends_with(s: Seq<char>, suffix: Seq<char>) -> bool {
    s.len() >= suffix.len() && s.subrange(s.len() - suffix.len(), s.len() as int) == suffix
}

/// `s` without a trailing `suffix`; `s` unchanged when the suffix is absent.
pub open spec fn strip_suffix(s: Seq<char>, suffix: Seq<char>) -> Seq<char> {
    if ends_with(s, suffix) {
        s.take(s.len() - suffix.len())
    } else {
        s
    }
}

/// The characters of `s` after the last occurrence of `sep`;
/// all of `s` when `sep` does not occur.
pub open spec fn tail_after(s: Seq<char>, sep: char) -> Seq<char>
    decreases s.len(),
{
    if s.len() == 0 {
        s
    } else if s.last() == sep {
        Seq::empty()
    } else {
        tail_after(s.drop_last(), sep).push(s.last())
    }
}

/// The fields of `s` separated by `sep`, in order. Splitting always yields at
/// least one field: the empty sequence splits into one empty field.
pub open spec fn split_on(s: Seq<char>, sep: char) -> Seq<Seq<char>>
    decreases s.len(),
{
    if s.len() == 0 {
        seq![Seq::<char>::empty()]
    } else if s[0] == sep {
        seq![Seq::<char>::empty()] + split_on(s.drop_first(), sep)
    } else {
        let rest = split_on(s.drop_first(), sep);
        seq![seq![s[0]] + rest[0]] + rest.drop_first()
    }
}

pub proof fn lemma_split_on_nonempty(s: Seq<char>, sep: char)
    ensures
        split_on(s, sep).len() >= 1,
    decreases s.len(),
{
    if s.len() != 0 {
        lemma_split_on_nonempty(s.drop_first(), sep);
    }
}

/// When `sep` does not occur in `s`, the split is the single field `s`.
pub proof fn lemma_split_on_no_sep(s: Seq<char>, sep: char)
    requires
        forall|j: int| 0 <= j < s.len() ==> s[j] != sep,
    ensures
        split_on(s, sep) == seq![s],
    decreases s.len(),
{
    if s.len() == 0 {
        assert(split_on(s, sep) =~~= seq![s]);
    } else {
        lemma_split_on_no_sep(s.drop_first(), sep);
        lemma_split_on_nonempty(s.drop_first(), sep);
        assert(seq![s[0]] + s.drop_first() =~= s);
        assert(split_on(s, sep) =~~= seq![s]);
    }
}

/// Splitting at the first occurrence of `sep` (at index `k`) peels off the
/// first field.
pub proof fn lemma_split_on_first_sep(s: Seq<char>, sep: char, k: int)
    requires
        0 <= k < s.len(),
        s[k] == sep,
        forall|j: int| 0 <= j < k ==> s[j] != sep,
    ensures
        split_on(s, sep) == seq![s.take(k)] + split_on(s.subrange(k + 1, s.len() as int), sep),
    decreases k,
{
    if k == 0 {
        assert(s.take(0) =~= Seq::<char>::empty());
        assert(s.drop_first() =~= s.subrange(1, s.len() as int));
        assert(split_on(s, sep) =~~= seq![s.take(0)] + split_on(
            s.subrange(1, s.len() as int),
            sep,
        ));
    } else {
        let d = s.drop_first();
        assert(d[k - 1] == sep);
        lemma_split_on_first_sep(d, sep, k - 1);
        lemma_split_on_nonempty(d.subrange(k, d.len() as int), sep);
        assert(d.take(k - 1) =~= s.subrange(1, k));
        assert(seq![s[0]] + s.subrange(1, k) =~= s.take(k));
        assert(d.subrange(k, d.len() as int) =~= s.subrange(k + 1, s.len() as int));
        assert(split_on(s, sep) =~~= seq![s.take(k)] + split_on(
            s.subrange(k + 1, s.len() as int),
            sep,
        ));
    }
}

/// Copies `s` without a trailing `suffix`; returns a copy of `s` when the
/// suffix is absent.
pub fn strip_suffix_str(s: &str, suffix: &str) -> (r: String)
    ensures
        r@ == strip_suffix(s@, suffix@),
{
    let n = s.unicode_len();
    let m = suffix.unicode_len();
    if m > n {
        return s.to_owned();
    }
    let mut i: usize = 0;
    while i < m
        invariant
            0 <= i <= m <= n,
            n == s@.len(),
            m == suffix@.len(),
            forall|j: int| 0 <= j < i ==> s@[n - m + j] == suffix@[j],
        decreases m - i,
    {
        if s.get_char(n - m + i) != suffix.get_char(i) {
            proof {
                assert(s@.subrange(n - m, n as int)[i as int] != suffix@[i as int]);
            }
            return s.to_owned();
        }
        i += 1;
    }
    proof {
        assert(s@.subrange(n - m, n as int) =~= suffix@);
    }
    let r = s.substring_char(0, n - m);
    proof {
        assert(r@ =~= strip_suffix(s@, suffix@));
    }
    r.to_owned()
}

/// The substring of `s` after the last occurrence of `sep`; all of `s` when
/// `sep` does not occur.
pub fn tail_after_char(s: &str, sep: char) -> (r: String)
    ensures
        r@ == tail_after(s@, sep),
{
    let n = s.unicode_len();
    let mut i: usize = n;
    while i > 0 && s.get_char(i - 1) != sep
        invariant
            0 <= i <= n,
            n == s@.len(),
            forall|j: int| i <= j < n ==> s@[j] != sep,
        decreases i,
    {
        i -= 1;
    }
    proof {
        lemma_tail_after_cut(s@, sep, i as int);
    }
    let r = s.substring_char(i, n);
    r.to_owned()
}

/// When every character at or after `i` differs from `sep`, and `i` is either
/// the start or just past an occurrence of `sep`, the tail after `sep` is the
/// suffix from `i`.
proof fn lemma_tail_after_cut(s: Seq<char>, sep: char, i: int)
    requires
        0 <= i <= s.len(),
        i == 0 || s[i - 1] == sep,
        forall|j: int| i <= j < s.len() ==> s[j] != sep,
    ensures
        tail_after(s, sep) == s.subrange(i, s.len() as int),
    decreases s.len(),
{
    if i == s.len() {
        if i == 0 {
            assert(tail_after(s, sep) =~= s.subrange(0, 0));
        } else {
            assert(s.last() == sep);
            assert(tail_after(s, sep) =~= s.subrange(i, s.len() as int));
        }
    } else {
        assert(s.last() != sep);
        lemma_tail_after_cut(s.drop_last(), sep, i);
        assert(s.drop_last().subrange(i, s.len() - 1) =~= s.subrange(i, s.len() - 1));
        assert(s.subrange(i, s.len() - 1).push(s.last()) =~= s.subrange(i, s.len() as int));
    }
}

/// Splits `s` into its fields separated by `sep`, in order.
pub fn split_str(s: &str, sep: char) -> (r: Vec<String>)
    ensures
        r@.map_values(|f: String| f@) == split_on(s@, sep),
        r@.len() >= 1,
{
    let n = s.unicode_len();
    let mut out: Vec<String> = Vec::new();
    let mut start: usize = 0;
    let mut i: usize = 0;
    proof {
        assert(s@.subrange(0, n as int) =~= s@);
        assert(out@.map_values(|f: String| f@) + split_on(s@, sep) =~~= split_on(s@, sep));
    }
    while i < n
        invariant
            0 <= start <= i <= n,
            n == s@.len(),
            forall|j: int| start <= j < i ==> s@[j] != sep,
            split_on(s@, sep) == out@.map_values(|f: String| f@) + split_on(
                s@.subrange(start as int, n as int),
                sep,
            ),
        decreases n - i,
    {
        if s.get_char(i) == sep {
            let field = s.substring_char(start, i).to_owned();
            proof {
                let rest = s@.subrange(start as int, n as int);
                assert(rest[i - start] == sep);
                lemma_split_on_first_sep(rest, sep, i - start);
                assert(rest.take(i - start) =~= s@.subrange(start as int, i as int));
                assert(rest.subrange(i - start + 1, rest.len() as int) =~= s@.subrange(
                    i + 1,
                    n as int,
                ));
                assert((out@.push(field)).map_values(|f: String| f@) =~~= out@.map_values(
                    |f: String| f@,
                ).push(field@));
                assert(out@.map_values(|f: String| f@) + (seq![rest.take(i - start)] + split_on(
                    s@.subrange(i + 1, n as int),
                    sep,
                )) =~~= (out@.map_values(|f: String| f@).push(field@)) + split_on(
                    s@.subrange(i + 1, n as int),
                    sep,
                ));
            }
            out.push(field);
            start = i + 1;
        }
        i += 1;
    }
    let field = s.substring_char(start, n).to_owned();
    proof {
        let rest = s@.subrange(start as int, n as int);
        lemma_split_on_no_sep(rest, sep);
        assert((out@.push(field)).map_values(|f: String| f@) =~~= out@.map_values(|f: String| f@)
            + seq![rest]);
    }
    out.push(field);
    out
}

} // verus!
