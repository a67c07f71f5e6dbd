//! Replacing every occurrence of a pattern in a text.

use vstd::prelude::*;
use vstd::string::*;

verus! {

/// The pattern occurs in `s` starting at index `i`.
pub open spec fn occurs_at(s: Seq<char>, pat: Seq<char>, i: int) -> bool {
    &&& 0 <= i
    &&& i + pat.len() <= s.len()
    &&& s.subrange(i, i + pat.len()) == pat
}

/// The result of replacing the occurrences of `pat` in `s` by `rep`,
/// scanning from the left and never letting two occurrences overlap.
/// An empty pattern occurs before every character and at the end.
pub open spec fn replace_all(s: Seq<char>, pat: Seq<char>, rep: Seq<char>) -> Seq<char>
    decreases s.len(),
{
    if pat.len() == 0 {
        if s.len() == 0 {
            rep
        } else {
            rep + seq![s[0]] + replace_all(s.skip(1), pat, rep)
        }
    } else if s.len() == 0 {
        Seq::empty()
    } else if pat.len() <= s.len() && s.take(pat.len() as int) == pat {
        rep + replace_all(s.skip(pat.len() as int), pat, rep)
    } else {
        seq![s[0]] + replace_all(s.skip(1), pat, rep)
    }
}

/// Appends one character to a string (`String::push`).
#[verifier::external_body]
fn push_char(s: &mut String, c: char)
    ensures
        final(s)@ == old(s)@.push(c),
{
    s.push(c);
}

/// The characters of a string slice, in order.
fn chars_of(s: &str) -> (v: Vec<char>)
    ensures
        v@ == s@,
{
    let n = s.unicode_len();
    let mut v: Vec<char> = Vec::new();
    let mut i: usize = 0;
    while i < n
        invariant
            n == s@.len(),
            i <= n,
            v@ == s@.take(i as int),
        decreases n - i,
    {
        let c = s.get_char(i);
        v.push(c);
        i = i + 1;
        assert(v@ =~= s@.take(i as int));
    }
    assert(v@ =~= s@);
    v
}

/// Whether `pat` occurs in `text` at index `i`.
fn occurs_at_index(text: &Vec<char>, pat: &Vec<char>, i: usize) -> (b: bool)
    requires
        i <= text.len(),
    ensures
        b == occurs_at(text@, pat@, i as int),
{
    if pat.len() > text.len() - i {
        return false;
    }
    let mut k: usize = 0;
    while k < pat.len()
        invariant
            i + pat.len() <= text.len(),
            k <= pat.len(),
            forall|j: int| 0 <= j < k ==> text@[i + j] == pat@[j],
        decreases pat.len() - k,
    {
        if text[i + k] != pat[k] {
            assert(text@.subrange(i as int, i + pat.len())[k as int] != pat@[k as int]);
            return false;
        }
        k = k + 1;
    }
    assert(text@.subrange(i as int, i + pat.len()) =~= pat@);
    true
}

/// Replaces every occurrence of `pat` in `text` by `rep` (the behaviour of
/// `str::replace`).
pub fn replace(text: &str, pat: &str, rep: &str) -> (r: String)
    ensures
        r@ == replace_all(text@, pat@, rep@),
{
    let t = chars_of(text);
    let p = chars_of(pat);
    let n = t.len();
    let mut out = String::new();
    let mut i: usize = 0;
    assert(t@.skip(0) =~= t@);
    assert(out@ + replace_all(t@, p@, rep@) =~= replace_all(t@, p@, rep@));
    if p.len() == 0 {
        while i < n
            invariant
                n == t@.len(),
                p@.len() == 0,
                i <= n,
                replace_all(t@, p@, rep@) == out@ + replace_all(t@.skip(i as int), p@, rep@),
            decreases n - i,
        {
            let ghost s = t@.skip(i as int);
            let ghost before = out@;
            assert(s.skip(1) =~= t@.skip(i + 1));
            out.append(rep);
            push_char(&mut out, t[i]);
            i = i + 1;
            assert(before + replace_all(s, p@, rep@) =~= out@ + replace_all(t@.skip(i as int), p@, rep@));
        }
        let ghost before = out@;
        out.append(rep);
        assert(t@.skip(n as int) =~= Seq::<char>::empty());
        assert(out@ =~= before + replace_all(t@.skip(n as int), p@, rep@));
    } else {
        while i < n
            invariant
                n == t@.len(),
                p@.len() > 0,
                i <= n,
                replace_all(t@, p@, rep@) == out@ + replace_all(t@.skip(i as int), p@, rep@),
            decreases n - i,
        {
            let ghost s = t@.skip(i as int);
            let ghost before = out@;
            if occurs_at_index(&t, &p, i) {
                assert(s.take(p@.len() as int) =~= t@.subrange(i as int, i + p@.len()));
                assert(s.skip(p@.len() as int) =~= t@.skip(i + p@.len()));
                out.append(rep);
                i = i + p.len();
            } else {
                assert(p@.len() <= s.len() ==> s.take(p@.len() as int) =~= t@.subrange(i as int, i + p@.len()));
                assert(s.skip(1) =~= t@.skip(i + 1));
                push_char(&mut out, t[i]);
                i = i + 1;
            }
            assert(before + replace_all(s, p@, rep@) =~= out@ + replace_all(t@.skip(i as int), p@, rep@));
        }
        assert(t@.skip(n as int) =~= Seq::<char>::empty());
        assert(out@ =~= out@ + replace_all(t@.skip(n as int), p@, rep@));
    }
    out
}

/// Replacing a pattern by itself changes nothing: every text comes back
/// as it was, whatever the pattern (the empty one included).
pub proof fn lemma_replace_by_itself(s: Seq<char>, pat: Seq<char>)
    ensures
        replace_all(s, pat, pat) == s,
    decreases s.len(),
{
    if s.len() == 0 {
        if pat.len() == 0 {
            assert(pat =~= s);
        }
    } else if pat.len() == 0 {
        lemma_replace_by_itself(s.skip(1), pat);
        assert(pat + seq![s[0]] + s.skip(1) =~= s);
    } else if pat.len() <= s.len() && s.take(pat.len() as int) == pat {
        lemma_replace_by_itself(s.skip(pat.len() as int), pat);
        assert(s.take(pat.len() as int) + s.skip(pat.len() as int) =~= s);
    } else {
        lemma_replace_by_itself(s.skip(1), pat);
        assert(seq![s[0]] + s.skip(1) =~= s);
    }
}

/// A text in which a non-empty pattern does not occur is left unchanged by
/// replacing that pattern.
pub proof fn lemma_replace_absent(s: Seq<char>, pat: Seq<char>, rep: Seq<char>)
    requires
        pat.len() > 0,
        forall|i: int| !occurs_at(s, pat, i),
    ensures
        replace_all(s, pat, rep) == s,
    decreases s.len(),
{
    if s.len() > 0 {
        assert(pat.len() <= s.len() ==> s.take(pat.len() as int) =~= s.subrange(0, pat.len() as int));
        assert(!occurs_at(s, pat, 0));
        let t = s.skip(1);
        assert forall|i: int| !occurs_at(t, pat, i) by {
            if occurs_at(t, pat, i) {
                assert(s.subrange(i + 1, i + 1 + pat.len()) =~= t.subrange(i, i + pat.len()));
                assert(occurs_at(s, pat, i + 1));
            }
        }
        lemma_replace_absent(t, pat, rep);
        assert(seq![s[0]] + t =~= s);
    }
}

/// How replacing a non-empty pattern goes, step by step from the left: an
/// empty text stays empty; a text that starts with the pattern gives the
/// replacement followed by the replacement in the rest, whatever the
/// pattern's length; any other text keeps its first character and goes on
/// with the rest. These steps fix the result of every text.
pub proof fn lemma_replace_steps(pat: Seq<char>, rep: Seq<char>, b: Seq<char>, c: char)
    requires
        pat.len() > 0,
    ensures
        replace_all(Seq::empty(), pat, rep) == Seq::<char>::empty(),
        replace_all(pat + b, pat, rep) == rep + replace_all(b, pat, rep),
        !((seq![c] + b).len() >= pat.len() && (seq![c] + b).take(pat.len() as int) == pat)
            ==> replace_all(seq![c] + b, pat, rep) == seq![c] + replace_all(b, pat, rep),
{
    let s = pat + b;
    assert(s.take(pat.len() as int) =~= pat);
    assert(s.skip(pat.len() as int) =~= b);
    let t = seq![c] + b;
    assert(t.skip(1) =~= b);
    assert(t[0] == c);
}

/// With an empty pattern, the replacement goes before every character and
/// at the end: an empty text gives the replacement, and a text `c` then `b`
/// gives the replacement, `c`, then the result for `b`.
pub proof fn lemma_replace_empty_pattern_steps(rep: Seq<char>, b: Seq<char>, c: char)
    ensures
        replace_all(Seq::empty(), Seq::empty(), rep) == rep,
        replace_all(seq![c] + b, Seq::empty(), rep) == rep + seq![c] + replace_all(b, Seq::empty(), rep),
{
    let t = seq![c] + b;
    assert(t.skip(1) =~= b);
    assert(t[0] == c);
}

/// Every occurrence is replaced, not only the first: a text that starts
/// with the pattern twice gives the replacement twice, then the result for
/// the rest.
pub proof fn lemma_replace_repeated_pattern(pat: Seq<char>, rep: Seq<char>, b: Seq<char>)
    requires
        pat.len() > 0,
    ensures
        replace_all(pat + pat + b, pat, rep) == rep + rep + replace_all(b, pat, rep),
{
    lemma_replace_steps(pat, rep, pat + b, 'a');
    lemma_replace_steps(pat, rep, b, 'a');
    assert(pat + pat + b =~= pat + (pat + b));
    assert(rep + (rep + replace_all(b, pat, rep)) =~= rep + rep + replace_all(b, pat, rep));
}

} // verus!
