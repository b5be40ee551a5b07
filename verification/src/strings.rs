//! Character-level string helpers used by icon and label resolution.

use vstd::prelude::*;
use vstd::string::*;

verus! {

/// Compare two strings character by character.
pub fn str_equals(a: &str, b: &str) -> (r: bool)
    ensures
        r == (a@ == b@),
{
    let n = a.unicode_len();
    let m = b.unicode_len();
    if n != m {
        return false;
    }
    let mut i: usize = 0;
    while i < n
        invariant
            n == a@.len(),
            m == b@.len(),
            n == m,
            i <= n,
            forall|k: int| 0 <= k < i ==> a@[k] == b@[k],
        decreases n - i,
    {
        if a.get_char(i) != b.get_char(i) {
            return false;
        }
        i = i + 1;
    }
    assert(a@ =~= b@);
    true
}

/// The part of `s` after its last `sep`, or all of `s` when `sep` does not
/// occur in it.
pub open spec fn after_last(s: Seq<char>, sep: char) -> Seq<char>
    decreases s.len(),
{
    if s.len() == 0 {
        s
    } else if s.last() == sep {
        Seq::empty()
    } else {
        after_last(s.drop_last(), sep).push(s.last())
    }
}

/// Return the part of `s` after its last `sep` (all of `s` without one).
pub fn str_after_last<'a>(s: &'a str, sep: char) -> (r: &'a str)
    ensures
        r@ == after_last(s@, sep),
{
    let n = s.unicode_len();
    let mut start: usize = 0;
    let mut i: usize = 0;
    while i < n
        invariant
            n == s@.len(),
            start <= i <= n,
            after_last(s@.take(i as int), sep) == s@.subrange(start as int, i as int),
        decreases n - i,
    {
        let c = s.get_char(i);
        assert(s@.take(i + 1).drop_last() =~= s@.take(i as int));
        assert(s@.take(i + 1).last() == c);
        if c == sep {
            start = i + 1;
            assert(s@.subrange(start as int, (i + 1) as int) =~= Seq::<char>::empty());
        } else {
            assert(s@.subrange(start as int, (i + 1) as int) =~= s@.subrange(
                start as int,
                i as int,
            ).push(c));
        }
        i = i + 1;
    }
    assert(s@.take(n as int) =~= s@);
    s.substring_char(start, n)
}

/// The first `count` characters of `s` (all of `s` if it is shorter).
pub open spec fn take_chars(s: Seq<char>, count: nat) -> Seq<char> {
    if s.len() <= count {
        s
    } else {
        s.take(count as int)
    }
}

/// Copy the first `count` characters of `s`.
pub fn string_take_chars(s: &str, count: usize) -> (r: String)
    ensures
        r@ == take_chars(s@, count as nat),
{
    let n = s.unicode_len();
    let end = if n <= count { n } else { count };
    let part = s.substring_char(0, end);
    proof {
        if n <= count {
            assert(s@.subrange(0, n as int) =~= s@);
        }
    }
    part.to_owned()
}

/// Replace every non-overlapping occurrence of `pat` in `s`, scanning left
/// to right, by `rep`. An empty `pat` matches before every character and at
/// the end, so `rep` is put around and between all characters.
pub open spec fn replace_all(s: Seq<char>, pat: Seq<char>, rep: Seq<char>) -> Seq<char>
    decreases s.len(),
{
    if s.len() == 0 {
        if pat.len() == 0 {
            rep
        } else {
            s
        }
    } else if pat.len() == 0 {
        rep + seq![s[0]] + replace_all(s.skip(1), pat, rep)
    } else if pat.len() <= s.len() && s.take(pat.len() as int) == pat {
        rep + replace_all(s.skip(pat.len() as int), pat, rep)
    } else {
        seq![s[0]] + replace_all(s.skip(1), pat, rep)
    }
}

/// Whether `pat` occurs in `s` at character position `at`.
fn occurs_at(s: &str, n: usize, pat: &str, p: usize, at: usize) -> (r: bool)
    requires
        n == s@.len(),
        p == pat@.len(),
        at <= n,
    ensures
        r == (p <= n - at && s@.subrange(at as int, at + p) == pat@),
{
    if p > n - at {
        return false;
    }
    let mut k: usize = 0;
    while k < p
        invariant
            n == s@.len(),
            p == pat@.len(),
            at + p <= n,
            k <= p,
            forall|j: int| 0 <= j < k ==> s@[at + j] == pat@[j],
        decreases p - k,
    {
        if s.get_char(at + k) != pat.get_char(k) {
            assert(s@.subrange(at as int, at + p)[k as int] != pat@[k as int]);
            return false;
        }
        k = k + 1;
    }
    assert(s@.subrange(at as int, at + p) =~= pat@);
    true
}

/// Put `rep` before every character of `s` and at its end (replacing the
/// empty pattern).
fn interleave(s: &str, rep: &str) -> (r: String)
    ensures
        r@ == replace_all(s@, Seq::<char>::empty(), rep@),
{
    let n = s.unicode_len();
    let mut out = String::new();
    let mut i: usize = 0;
    assert(s@.skip(0) =~= s@);
    while i < n
        invariant
            n == s@.len(),
            i <= n,
            out@ + replace_all(s@.skip(i as int), Seq::<char>::empty(), rep@) == replace_all(
                s@,
                Seq::<char>::empty(),
                rep@,
            ),
        decreases n - i,
    {
        let ghost rest = s@.skip(i as int);
        assert(rest.skip(1) =~= s@.skip(i + 1));
        let one = s.substring_char(i, i + 1);
        assert(one@ =~= seq![rest[0]]);
        out.append(rep);
        out.append(one);
        assert(out@ + replace_all(s@.skip(i + 1), Seq::<char>::empty(), rep@) =~= replace_all(
            s@,
            Seq::<char>::empty(),
            rep@,
        ));
        i = i + 1;
    }
    assert(s@.skip(n as int) =~= Seq::<char>::empty());
    out.append(rep);
    out
}

/// Replace every non-overlapping occurrence of `pat` in `s`, left to right,
/// by `rep`; an empty `pat` puts `rep` around and between all characters.
pub fn string_replace(s: &str, pat: &str, rep: &str) -> (r: String)
    ensures
        r@ == replace_all(s@, pat@, rep@),
{
    let n = s.unicode_len();
    let p = pat.unicode_len();
    if p == 0 {
        assert(pat@ =~= Seq::<char>::empty());
        return interleave(s, rep);
    }
    let mut out = String::new();
    let mut i: usize = 0;
    assert(s@.skip(0) =~= s@);
    while i < n
        invariant
            n == s@.len(),
            p == pat@.len(),
            p > 0,
            i <= n,
            out@ + replace_all(s@.skip(i as int), pat@, rep@) == replace_all(s@, pat@, rep@),
        decreases n - i,
    {
        let ghost rest = s@.skip(i as int);
        if occurs_at(s, n, pat, p, i) {
            assert(rest.take(p as int) =~= s@.subrange(i as int, i + p));
            assert(rest.skip(p as int) =~= s@.skip(i + p));
            out.append(rep);
            assert(out@ + replace_all(s@.skip(i + p), pat@, rep@) =~= replace_all(s@, pat@, rep@));
            i = i + p;
        } else {
            assert(!(p <= rest.len() && rest.take(p as int) == pat@)) by {
                if p <= rest.len() {
                    assert(rest.take(p as int) =~= s@.subrange(i as int, i + p));
                }
            }
            assert(rest.skip(1) =~= s@.skip(i + 1));
            let one = s.substring_char(i, i + 1);
            assert(one@ =~= seq![rest[0]]);
            out.append(one);
            assert(out@ + replace_all(s@.skip(i + 1), pat@, rep@) =~= replace_all(s@, pat@, rep@));
            i = i + 1;
        }
    }
    assert(s@.skip(n as int) =~= Seq::<char>::empty());
    assert(out@ + Seq::<char>::empty() =~= out@);
    out
}

/// What `after_last` gives is a suffix of `s` without `sep` in it; when `s`
/// holds `sep`, the character just before that suffix is `sep`, and when it
/// does not, the suffix is all of `s`.
pub proof fn lemma_after_last_is_last_segment(s: Seq<char>, sep: char)
    ensures
        after_last(s, sep).len() <= s.len(),
        after_last(s, sep) == s.skip(s.len() - after_last(s, sep).len()),
        !after_last(s, sep).contains(sep),
        after_last(s, sep).len() < s.len() ==> s[s.len() - after_last(s, sep).len() - 1] == sep,
        !s.contains(sep) ==> after_last(s, sep) == s,
    decreases s.len(),
{
    if s.len() > 0 {
        let r = after_last(s, sep);
        lemma_after_last_is_last_segment(s.drop_last(), sep);
        let r0 = after_last(s.drop_last(), sep);
        if s.last() == sep {
            assert(s.skip(s.len() as int) =~= r);
            assert(s.contains(sep));
        } else {
            assert(r == r0.push(s.last()));
            assert(s.skip(s.len() - r.len()) =~= s.drop_last().skip(s.drop_last().len() - r0.len()).push(
                s.last(),
            ));
            if r.contains(sep) {
                let k = choose|k: int| 0 <= k < r.len() && r[k] == sep;
                if k < r0.len() {
                    assert(r0[k] == sep);
                } 
            }
            if r.len() < s.len() {
                assert(s[s.len() - r.len() - 1] == s.drop_last()[s.drop_last().len() - r0.len() - 1]);
            }
            if !s.contains(sep) {
                assert forall|k: int| 0 <= k < s.drop_last().len() implies s.drop_last()[k] != sep by {
                    assert(s[k] == s.drop_last()[k]);
                }
                assert(s.drop_last().push(s.last()) =~= s);
            }
        }
    }
}

/// The first `count` characters: a prefix of `s` whose length is `count`
/// or, for a shorter `s`, the length of `s`.
pub proof fn lemma_take_chars_prefix(s: Seq<char>, count: nat)
    ensures
        take_chars(s, count).len() == if s.len() <= count {
            s.len()
        } else {
            count
        },
        take_chars(s, count) == s.take(take_chars(s, count).len() as int),
{
    if s.len() <= count {
        assert(s.take(s.len() as int) =~= s);
    }
}

/// Replacing a pattern that does not occur leaves the text as it was, and
/// the text that is exactly the pattern becomes exactly the replacement.
pub proof fn lemma_replace_all_basics(s: Seq<char>, pat: Seq<char>, rep: Seq<char>)
    requires
        pat.len() > 0,
    ensures
        (forall|i: int| 0 <= i <= s.len() - pat.len() ==> #[trigger] s.subrange(i, i + pat.len())
            != pat) ==> replace_all(s, pat, rep) == s,
        replace_all(pat, pat, rep) == rep,
    decreases s.len(),
{
    assert(pat.take(pat.len() as int) =~= pat);
    assert(pat.skip(pat.len() as int) =~= Seq::<char>::empty());
    assert(replace_all(Seq::<char>::empty(), pat, rep) == Seq::<char>::empty());
    assert(replace_all(pat, pat, rep) == rep + replace_all(pat.skip(pat.len() as int), pat, rep));
    assert(rep + Seq::<char>::empty() =~= rep);
    if s.len() > 0 {
        if forall|i: int| 0 <= i <= s.len() - pat.len() ==> #[trigger] s.subrange(i, i + pat.len())
            != pat {
            assert forall|i: int| 0 <= i <= s.skip(1).len() - pat.len() implies #[trigger] s.skip(
                1,
            ).subrange(i, i + pat.len()) != pat by {
                assert(s.skip(1).subrange(i, i + pat.len()) =~= s.subrange(i + 1, i + 1 + pat.len()));
            }
            lemma_replace_all_basics(s.skip(1), pat, rep);
            if pat.len() <= s.len() {
                assert(s.subrange(0int, 0int + pat.len()) != pat);
                assert(s.take(pat.len() as int) =~= s.subrange(0int, 0int + pat.len()));
            }
            assert(replace_all(s, pat, rep) == seq![s[0]] + replace_all(s.skip(1), pat, rep));
            assert(seq![s[0]] + s.skip(1) =~= s);
        }
    }
}

} // verus!
