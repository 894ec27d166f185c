//! Substring search and replacement on character sequences.
use vstd::prelude::*;

verus! {

/// `pat` occurs in `s` starting at position `i`.
pub open spec fn occurs_at(s: Seq<char>, pat: Seq<char>, i: int) -> bool {
    0 <= i && i + pat.len() <= s.len() && s.subrange(i, i + pat.len()) == pat
}

/// `pat` occurs somewhere in `s` (the empty pattern occurs in every string).
pub open spec fn seq_contains(s: Seq<char>, pat: Seq<char>) -> bool {
    exists|i: int| occurs_at(s, pat, i)
}

/// The characters of `s`, in order.
pub fn chars_of(s: &str) -> (res: Vec<char>)
    ensures
        res@ == s@,
{
    let n = s.unicode_len();
    let mut res: Vec<char> = Vec::new();
    let mut i: usize = 0;
    while i < n
        invariant
            n == s@.len(),
            i <= n,
            res@ == s@.subrange(0, i as int),
        decreases n - i,
    {
        let c = s.get_char(i);
        res.push(c);
        i = i + 1;
        assert(res@ =~= s@.subrange(0, i as int));
    }
    assert(res@ =~= s@);
    res
}

/// Whether `pat` occurs in `s` at position `i`, comparing character by character.
fn matches_at(s: &Vec<char>, pat: &Vec<char>, i: usize) -> (res: bool)
    requires
        i <= s@.len(),
    ensures
        res == occurs_at(s@, pat@, i as int),
{
    if pat.len() > s.len() - i {
        return false;
    }
    let mut j: usize = 0;
    while j < pat.len()
        invariant
            i + pat@.len() <= s@.len(),
            s@.len() <= usize::MAX,
            j <= pat@.len(),
            forall|k: int| 0 <= k < j ==> s@[i + k] == pat@[k],
        decreases pat@.len() - j,
    {
        if s[i + j] != pat[j] {
            assert(s@.subrange(i as int, i + pat@.len())[j as int] != pat@[j as int]);
            return false;
        }
        j = j + 1;
    }
    assert(s@.subrange(i as int, i + pat@.len()) =~= pat@);
    true
}

/// Whether `pat` occurs in `s`, as `str::contains` with a string pattern answers.
pub fn str_contains(s: &str, pat: &str) -> (res: bool)
    ensures
        res == seq_contains(s@, pat@),
{
    let sc = chars_of(s);
    let pc = chars_of(pat);
    let mut i: usize = 0;
    while i < sc.len()
        invariant
            sc@ == s@,
            pc@ == pat@,
            i <= sc@.len(),
            forall|k: int| 0 <= k < i ==> !occurs_at(s@, pat@, k),
        decreases sc@.len() - i,
    {
        if matches_at(&sc, &pc, i) {
            return true;
        }
        i = i + 1;
    }
    if matches_at(&sc, &pc, i) {
        return true;
    }
    assert forall|k: int| !occurs_at(s@, pat@, k) by {
        if 0 <= k && k + pat@.len() <= s@.len() {
            assert(k <= i);
        }
    }
    false
}


/// `s` with every occurrence of the nonempty `pat` replaced by `with`, matching from the
/// left and never overlapping, as `str::replace` does.
pub open spec fn replace_all(s: Seq<char>, pat: Seq<char>, with: Seq<char>) -> Seq<char>
    decreases s.len(),
{
    if pat.len() == 0 || s.len() < pat.len() {
        s
    } else if s.subrange(0, pat.len() as int) == pat {
        with + replace_all(s.skip(pat.len() as int), pat, with)
    } else {
        seq![s[0]] + replace_all(s.skip(1), pat, with)
    }
}

/// Where `t` does not start with `pat`, its first character is kept.
pub(crate) proof fn lemma_replace_all_keep(t: Seq<char>, pat: Seq<char>, with: Seq<char>)
    requires
        t.len() > 0,
        pat.len() > 0,
        !occurs_at(t, pat, 0),
    ensures
        replace_all(t, pat, with) == seq![t[0]] + replace_all(t.skip(1), pat, with),
{
    if t.len() < pat.len() {
        assert(seq![t[0]] + t.skip(1) =~= t);
    } else {
        assert(t.subrange(0, pat.len() as int) != pat);
    }
}

/// Where `t` starts with `pat`, that occurrence is replaced.
pub(crate) proof fn lemma_replace_all_match(t: Seq<char>, pat: Seq<char>, with: Seq<char>)
    requires
        pat.len() > 0,
        occurs_at(t, pat, 0),
    ensures
        replace_all(t, pat, with) == with + replace_all(t.skip(pat.len() as int), pat, with),
{
}

/// A string in which the pattern does not occur comes back unchanged from a replacement.
pub proof fn law_replace_absent(s: Seq<char>, pat: Seq<char>, with: Seq<char>)
    requires
        pat.len() > 0,
        !seq_contains(s, pat),
    ensures
        replace_all(s, pat, with) == s,
    decreases s.len(),
{
    if s.len() >= pat.len() {
        assert(!occurs_at(s, pat, 0));
        let t = s.skip(1);
        assert forall|i: int| !occurs_at(t, pat, i) by {
            if occurs_at(t, pat, i) {
                assert(t.subrange(i, i + pat.len()) =~= s.subrange(i + 1, i + 1 + pat.len()));
                assert(occurs_at(s, pat, i + 1));
            }
        }
        law_replace_absent(t, pat, with);
        assert(seq![s[0]] + t =~= s);
    }
}

/// Replacing a pattern by itself changes nothing.
pub proof fn law_replace_identity(s: Seq<char>, pat: Seq<char>)
    requires
        pat.len() > 0,
    ensures
        replace_all(s, pat, pat) == s,
    decreases s.len(),
{
    if s.len() >= pat.len() {
        if s.subrange(0, pat.len() as int) == pat {
            law_replace_identity(s.skip(pat.len() as int), pat);
            assert(pat + s.skip(pat.len() as int) =~= s);
        } else {
            law_replace_identity(s.skip(1), pat);
            assert(seq![s[0]] + s.skip(1) =~= s);
        }
    }
}

/// `u` holds no opening bracket `[`.
pub open spec fn no_open_bracket(u: Seq<char>) -> bool {
    forall|i: int| 0 <= i < u.len() ==> u[i] != '['
}

/// A pattern that starts with `[` cannot match inside a text without `[`, so such a text in
/// front passes through a replacement untouched.
pub proof fn lemma_replace_after_plain(u: Seq<char>, x: Seq<char>, pat: Seq<char>, with: Seq<char>)
    requires
        pat.len() > 0,
        pat[0] == '[',
        no_open_bracket(u),
    ensures
        replace_all(u + x, pat, with) == u + replace_all(x, pat, with),
    decreases u.len(),
{
    if u.len() == 0 {
        assert(u + x =~= x);
    } else {
        let t = u + x;
        assert(t[0] == u[0]);
        if t.len() >= pat.len() {
            assert(t.subrange(0, pat.len() as int)[0] == t[0]);
        }
        lemma_replace_all_keep(t, pat, with);
        assert(t.skip(1) =~= u.skip(1) + x);
        lemma_replace_after_plain(u.skip(1), x, pat, with);
        assert(seq![u[0]] + (u.skip(1) + replace_all(x, pat, with)) =~= u + replace_all(x, pat, with));
    }
}

/// `s` with every occurrence of the nonempty `pat` replaced by `with`.
pub fn replace_str(s: &str, pat: &str, with: &str) -> (res: String)
    requires
        pat@.len() > 0,
    ensures
        res@ == replace_all(s@, pat@, with@),
{
    let sc = chars_of(s);
    let pc = chars_of(pat);
    let n = sc.len();
    let plen = pc.len();
    let mut res = String::new();
    let mut last: usize = 0;
    let mut i: usize = 0;
    assert(s@.skip(0) =~= s@);
    while i < n
        invariant
            sc@ == s@,
            pc@ == pat@,
            n == s@.len(),
            plen == pat@.len(),
            plen > 0,
            last <= i <= n,
            res@ + s@.subrange(last as int, i as int) + replace_all(s@.skip(i as int), pat@, with@)
                == replace_all(s@, pat@, with@),
        decreases n - i,
    {
        let ghost t = s@.skip(i as int);
        if matches_at(&sc, &pc, i) {
            proof {
                assert(t.subrange(0, plen as int) =~= s@.subrange(i as int, i + plen));
                lemma_replace_all_match(t, pat@, with@);
                assert(t.skip(plen as int) =~= s@.skip(i + plen));
            }
            let piece = s.substring_char(last, i);
            res.append(piece);
            res.append(with);
            i = i + plen;
            last = i;
            assert(s@.subrange(last as int, i as int) =~= Seq::<char>::empty());
        } else {
            proof {
                if t.len() >= plen {
                    assert(t.subrange(0, plen as int) =~= s@.subrange(i as int, i + plen));
                }
                lemma_replace_all_keep(t, pat@, with@);
                assert(t.skip(1) =~= s@.skip(i + 1));
                assert(t[0] == s@[i as int]);
                assert(s@.subrange(last as int, i as int) + seq![s@[i as int]]
                    =~= s@.subrange(last as int, i + 1));
            }
            i = i + 1;
        }
    }
    let piece = s.substring_char(last, n);
    res.append(piece);
    proof {
        assert(s@.skip(n as int) =~= Seq::<char>::empty());
    }
    res
}


/// Appends `c` to `s`, by `String::push`, which std documents as appending the character
/// to the end of the string.
#[verifier::external_body]
pub(crate) fn push_char(s: &mut String, c: char)
    ensures
        final(s)@ == old(s)@.push(c),
{
    s.push(c);
}

/// Removes the last character of `s`, by `String::pop`, which std documents as removing
/// the last character and returning it, or returning `None` when the string is empty.
#[verifier::external_body]
pub(crate) fn pop_char(s: &mut String) -> (res: Option<char>)
    ensures
        old(s)@.len() == 0 ==> res is None && final(s)@ == old(s)@,
        old(s)@.len() > 0 ==> res == Some(old(s)@.last()) && final(s)@ == old(s)@.drop_last(),
{
    s.pop()
}

} // verus!
