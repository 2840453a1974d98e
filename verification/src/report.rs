//! Derivation of the per-dataset success summary: the last line of the store
//! client's trimmed output, lowercased.

use vstd::prelude::*;
use vstd::string::*;
use crate::text::tail_after;
use crate::text::tail_after_char;

verus! {

/// The ASCII whitespace characters that the store client's output is trimmed
/// of (its output is ASCII).
pub open spec fn is_space(c: char) -> bool {
    c == ' ' || c == '\t' || c == '\n' || c == '\r'
}

/// `s` without its leading whitespace.
pub open spec fn trim_start_spec(s: Seq<char>) -> Seq<char>
    decreases s.len(),
{
    if s.len() > 0 && is_space(s[0]) {
        trim_start_spec(s.drop_first())
    } else {
        s
    }
}

/// `s` without its trailing whitespace.
pub open spec fn trim_end_spec(s: Seq<char>) -> Seq<char>
    decreases s.len(),
{
    if s.len() > 0 && is_space(s.last()) {
        trim_end_spec(s.drop_last())
    } else {
        s
    }
}

/// `s` without leading and trailing whitespace.
pub open spec fn trim_spec(s: Seq<char>) -> Seq<char> {
    trim_end_spec(trim_start_spec(s))
}

proof fn lemma_trim_start_cut(s: Seq<char>, a: int)
    requires
        0 <= a <= s.len(),
        forall|j: int| 0 <= j < a ==> is_space(s[j]),
        a == s.len() || !is_space(s[a]),
    ensures
        trim_start_spec(s) == s.subrange(a, s.len() as int),
    decreases a,
{
    if a == 0 {
        assert(trim_start_spec(s) =~= s.subrange(0, s.len() as int));
    } else {
        let d = s.drop_first();
        assert(forall|j: int| 0 <= j < a - 1 ==> is_space(d[j]));
        lemma_trim_start_cut(d, a - 1);
        assert(d.subrange(a - 1, d.len() as int) =~= s.subrange(a, s.len() as int));
    }
}

proof fn lemma_trim_end_cut(s: Seq<char>, b: int)
    requires
        0 <= b <= s.len(),
        forall|j: int| b <= j < s.len() ==> is_space(s[j]),
        b == 0 || !is_space(s[b - 1]),
    ensures
        trim_end_spec(s) == s.take(b),
    decreases s.len() - b,
{
    if b == s.len() {
        assert(trim_end_spec(s) =~= s.take(b));
    } else {
        let d = s.drop_last();
        assert(forall|j: int| b <= j < d.len() ==> is_space(d[j]));
        lemma_trim_end_cut(d, b);
        assert(d.take(b) =~= s.take(b));
    }
}

/// Strips leading and trailing ASCII whitespace.
pub fn trim_str(s: &str) -> (r: String)
    ensures
        r@ == trim_spec(s@),
{
    let n = s.unicode_len();
    let mut a: usize = 0;
    while a < n && is_space_char(s.get_char(a))
        invariant
            0 <= a <= n,
            n == s@.len(),
            forall|j: int| 0 <= j < a ==> is_space(s@[j]),
        decreases n - a,
    {
        a += 1;
    }
    let mut b: usize = n;
    while b > a && is_space_char(s.get_char(b - 1))
        invariant
            a <= b <= n,
            n == s@.len(),
            forall|j: int| b <= j < n ==> is_space(s@[j]),
        decreases b,
    {
        b -= 1;
    }
    proof {
        lemma_trim_start_cut(s@, a as int);
        let t = s@.subrange(a as int, n as int);
        if b == a {
            assert(forall|j: int| 0 <= j < t.len() ==> is_space(t[j]));
            lemma_trim_end_cut(t, 0);
        } else {
            assert(!is_space(t[b - a - 1]));
            assert(forall|j: int| b - a <= j < t.len() ==> is_space(t[j]));
            lemma_trim_end_cut(t, b - a);
        }
        assert(t.take(b - a) =~= s@.subrange(a as int, b as int));
    }
    s.substring_char(a, b).to_owned()
}

/// Whether `c` is one of the trimmed whitespace characters.
pub fn is_space_char(c: char) -> (r: bool)
    ensures
        r == is_space(c),
{
    c == ' ' || c == '\t' || c == '\n' || c == '\r'
}

/// The lowercase form of a sequence of characters, as the standard library
/// computes it: a function of the characters alone.
pub uninterp spec fn lower_of(s: Seq<char>) -> Seq<char>;

/// Relies on str::to_lowercase: the result depends on the characters alone.
#[verifier::external_body]
pub(crate) fn lowercase(s: &str) -> (r: String)
    ensures
        r@ == lower_of(s@),
{
    s.to_lowercase()
}

/// The human-readable load summary: the last line of the store client's
/// trimmed textual response, lowercased.
pub open spec fn summary_spec(output: Seq<char>) -> Seq<char> {
    lower_of(tail_after(trim_spec(output), '\n'))
}

pub fn summary_of(output: &str) -> (r: String)
    ensures
        r@ == summary_spec(output@),
{
    let trimmed = trim_str(output);
    let last = tail_after_char(trimmed.as_str(), '\n');
    lowercase(last.as_str())
}

} // verus!
