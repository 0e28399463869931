//! Character-level text operations on configuration files.
use vstd::prelude::*;
use vstd::std_specs::iter::IteratorSpec;

verus! {

/// The characters of `s`, in order.
pub fn chars_of(s: &str) -> (r: Vec<char>)
    ensures
        r@ == s@,
{
    broadcast use vstd::string::group_string_axioms;
    let mut r: Vec<char> = Vec::new();
    let mut it = s.chars();
    loop
        invariant
            r@ + it.remaining() == s@,
            it.obeys_prophetic_iter_laws(),
            it.decrease() is Some,
        ensures
            r@ == s@,
        decreases it.decrease()->0,
    {
        match it.next() {
            Some(c) => {
                r.push(c);
            },
            None => {
                assert(r@ =~= s@);
                break;
            },
        }
    }
    r
}

/// `pat` occurs in `s` at position `i`.
pub open spec fn occurs_at(s: Seq<char>, i: int, pat: Seq<char>) -> bool {
    0 <= i && i + pat.len() <= s.len() && s.subrange(i, i + pat.len()) == pat
}

/// `pat` occurs somewhere in `s`.
pub open spec fn contains(s: Seq<char>, pat: Seq<char>) -> bool {
    exists|i: int| occurs_at(s, i, pat)
}

/// `s` with every occurrence of `pat` replaced by `rep`, scanning from the
/// left and resuming after each replaced occurrence. An empty `pat` occurs
/// before every character and at the end.
pub open spec fn replace_all(s: Seq<char>, pat: Seq<char>, rep: Seq<char>) -> Seq<char>
    decreases s.len(),
{
    if occurs_at(s, 0, pat) && pat.len() > 0 {
        rep + replace_all(s.subrange(pat.len() as int, s.len() as int), pat, rep)
    } else if s.len() == 0 {
        if pat.len() == 0 {
            rep
        } else {
            s
        }
    } else if pat.len() == 0 {
        rep + seq![s[0]] + replace_all(s.drop_first(), pat, rep)
    } else {
        seq![s[0]] + replace_all(s.drop_first(), pat, rep)
    }
}

/// Relies on `String::push`: appends one character.
#[verifier::external_body]
fn push_char(s: &mut String, c: char)
    ensures
        final(s)@ == old(s)@.push(c),
{
    s.push(c)
}

/// Whether `pat` occurs in `s` at position `i`.
fn matches_at(s: &Vec<char>, i: usize, pat: &Vec<char>) -> (r: bool)
    ensures
        r == occurs_at(s@, i as int, pat@),
{
    if pat.len() > s.len() || i > s.len() - pat.len() {
        return false;
    }
    let len = s.len();
    let mut j: usize = 0;
    while j < pat.len()
        invariant
            len == s@.len(),
            i + pat@.len() <= s@.len(),
            j <= pat@.len(),
            forall|k: int| 0 <= k < j ==> s@[i + k] == pat@[k],
        decreases pat@.len() - j,
    {
        if s[i + j] != pat[j] {
            assert(s@.subrange(i as int, i + pat@.len())[j as int] != pat@[j as int]);
            return false;
        }
        j = j + 1;
    }
    assert(s@.subrange(i as int, i + pat@.len()) =~= pat@);
    true
}

proof fn lemma_suffix_occurs(s: Seq<char>, i: int, pat: Seq<char>)
    requires
        0 <= i <= s.len(),
    ensures
        occurs_at(s.subrange(i, s.len() as int), 0, pat) == occurs_at(s, i, pat),
{
    let t = s.subrange(i, s.len() as int);
    if i + pat.len() <= s.len() {
        assert(t.subrange(0, pat.len() as int) =~= s.subrange(i, i + pat.len()));
    }
}

/// Replaces every occurrence of `placeholder` in `template` by `replacement`,
/// as `str::replace` does.
pub fn substitute(template: &str, placeholder: &str, replacement: &str) -> (r: String)
    ensures
        r@ == replace_all(template@, placeholder@, replacement@),
{
    let t = chars_of(template);
    let p = chars_of(placeholder);
    let n = t.len();
    let m = p.len();
    let mut out = String::new();
    let mut i: usize = 0;
    proof {
        assert(t@.subrange(0, n as int) =~= t@);
        assert(out@ + replace_all(t@, p@, replacement@) =~= replace_all(t@, p@, replacement@));
    }
    while i < n
        invariant
            t@ == template@,
            p@ == placeholder@,
            n == t@.len(),
            m == p@.len(),
            i <= n,
            replace_all(t@, p@, replacement@) == out@ + replace_all(
                t@.subrange(i as int, n as int),
                p@,
                replacement@,
            ),
        decreases n - i,
    {
        let rest = Ghost(t@.subrange(i as int, n as int));
        proof {
            lemma_suffix_occurs(t@, i as int, p@);
        }
        if m > 0 && matches_at(&t, i, &p) {
            assert(rest@.subrange(m as int, rest@.len() as int) =~= t@.subrange(
                i + m,
                n as int,
            ));
            out.append(replacement);
            i = i + m;
        } else {
            assert(rest@.drop_first() =~= t@.subrange(i + 1, n as int));
            if m == 0 {
                out.append(replacement);
            }
            push_char(&mut out, t[i]);
            i = i + 1;
        }
        assert(replace_all(t@, p@, replacement@) == out@ + replace_all(
            t@.subrange(i as int, n as int),
            p@,
            replacement@,
        ));
    }
    if m == 0 {
        out.append(replacement);
    }
    proof {
        assert(out@ =~= out@ + Seq::<char>::empty());
    }
    out
}

/// Whether `needle` occurs in `haystack`.
pub fn contains_text(haystack: &str, needle: &str) -> (r: bool)
    ensures
        r == contains(haystack@, needle@),
{
    let s = chars_of(haystack);
    let p = chars_of(needle);
    if p.len() > s.len() {
        return false;
    }
    let last = s.len() - p.len();
    let mut i: usize = 0;
    while i <= last
        invariant
            s@ == haystack@,
            p@ == needle@,
            last == s@.len() - p@.len(),
            forall|k: int| 0 <= k < i ==> !occurs_at(s@, k, p@),
        ensures
            forall|k: int| 0 <= k <= last ==> !occurs_at(s@, k, p@),
        decreases last + 1 - i,
    {
        if matches_at(&s, i, &p) {
            return true;
        }
        if i == last {
            break;
        }
        i = i + 1;
    }
    assert forall|k: int| !occurs_at(s@, k, p@) by {
        if 0 <= k && k + p@.len() <= s@.len() {
            assert(k <= last);
        }
    }
    false
}

proof fn lemma_no_occurrence_unchanged(s: Seq<char>, pat: Seq<char>, rep: Seq<char>)
    requires
        pat.len() > 0,
        !contains(s, pat),
    ensures
        replace_all(s, pat, rep) == s,
    decreases s.len(),
{
    if s.len() > 0 {
        let t = s.drop_first();
        assert(!occurs_at(s, 0, pat));
        assert forall|k: int| !occurs_at(t, k, pat) by {
            if occurs_at(t, k, pat) {
                assert(s.subrange(k + 1, k + 1 + pat.len()) =~= t.subrange(k, k + pat.len()));
                assert(occurs_at(s, k + 1, pat));
            }
        }
        lemma_no_occurrence_unchanged(t, pat, rep);
        assert(s =~= seq![s[0]] + t);
    }
}

proof fn lemma_first_occurrence(s: Seq<char>, pat: Seq<char>, rep: Seq<char>, k: int)
    requires
        pat.len() > 0,
        occurs_at(s, k, pat),
        forall|j: int| 0 <= j < k ==> !occurs_at(s, j, pat),
    ensures
        replace_all(s, pat, rep) == s.subrange(0, k) + rep + replace_all(
            s.subrange(k + pat.len(), s.len() as int),
            pat,
            rep,
        ),
    decreases k,
{
    if k == 0 {
        assert(s.subrange(0, 0) + rep =~= rep);
    } else {
        let t = s.drop_first();
        assert(!occurs_at(s, 0, pat));
        assert(t.subrange(k - 1, k - 1 + pat.len()) =~= s.subrange(k, k + pat.len()));
        assert forall|j: int| 0 <= j < k - 1 implies !occurs_at(t, j, pat) by {
            if occurs_at(t, j, pat) {
                assert(s.subrange(j + 1, j + 1 + pat.len()) =~= t.subrange(j, j + pat.len()));
                assert(occurs_at(s, j + 1, pat));
            }
        }
        lemma_first_occurrence(t, pat, rep, k - 1);
        assert(t.subrange(k - 1 + pat.len(), t.len() as int) =~= s.subrange(
            k + pat.len(),
            s.len() as int,
        ));
        assert(seq![s[0]] + t.subrange(0, k - 1) =~= s.subrange(0, k));
    }
}

/// Substitution is positional: a text without the placeholder comes back as
/// it is; otherwise the text before the first placeholder is kept, the
/// replacement stands where that placeholder stood, and the rest of the text
/// is substituted in the same way.
pub proof fn lemma_substitution_in_place(s: Seq<char>, pat: Seq<char>, rep: Seq<char>)
    requires
        pat.len() > 0,
    ensures
        !contains(s, pat) ==> replace_all(s, pat, rep) == s,
        forall|k: int|
            #![trigger occurs_at(s, k, pat)]
            occurs_at(s, k, pat) && (forall|j: int| 0 <= j < k ==> !occurs_at(s, j, pat))
                ==> replace_all(s, pat, rep) == s.subrange(0, k) + rep + replace_all(
                s.subrange(k + pat.len(), s.len() as int),
                pat,
                rep,
            ),
{
    if !contains(s, pat) {
        lemma_no_occurrence_unchanged(s, pat, rep);
    }
    assert forall|k: int|
        #![trigger occurs_at(s, k, pat)]
        occurs_at(s, k, pat) && (forall|j: int| 0 <= j < k ==> !occurs_at(s, j, pat))
            implies replace_all(s, pat, rep) == s.subrange(0, k) + rep + replace_all(
            s.subrange(k + pat.len(), s.len() as int),
            pat,
            rep,
        ) by {
        lemma_first_occurrence(s, pat, rep, k);
    }
}

/// Up to the first character of `rep` in the output, substitution copies its
/// input.
proof fn lemma_prefix_copied(s: Seq<char>, pat: Seq<char>, rep: Seq<char>, j: int)
    requires
        pat.len() > 0,
        rep.len() > 0,
        0 <= j <= replace_all(s, pat, rep).len(),
        forall|i: int| 0 <= i < j ==> replace_all(s, pat, rep)[i] != rep[0],
    ensures
        j <= s.len(),
        replace_all(s, pat, rep).subrange(0, j) == s.subrange(0, j),
    decreases s.len(),
{
    let o = replace_all(s, pat, rep);
    if j > 0 {
        if occurs_at(s, 0, pat) {
            assert(o[0] == rep[0]);
        } else if s.len() > 0 {
            let t = s.drop_first();
            let ot = replace_all(t, pat, rep);
            assert(o == seq![s[0]] + ot);
            assert forall|i: int| 0 <= i < j - 1 implies ot[i] != rep[0] by {
                assert(o[i + 1] == ot[i]);
            }
            lemma_prefix_copied(t, pat, rep, j - 1);
            assert(o.subrange(0, j) =~= seq![s[0]] + ot.subrange(0, j - 1));
            assert(s.subrange(0, j) =~= seq![s[0]] + t.subrange(0, j - 1));
        }
    }
}

/// Substitution leaves no occurrence of `pat` when `rep` can only start one
/// where it ends in a prefix of `pat`, at `rep[m0..]`, and the input never
/// has `pat` followed by the rest of `pat` after that prefix.
pub proof fn lemma_no_placeholder_left(s: Seq<char>, pat: Seq<char>, rep: Seq<char>, m0: int)
    requires
        pat.len() > 0,
        0 < m0 < rep.len(),
        rep.len() - m0 < pat.len(),
        forall|i: int| 0 <= i < pat.len() ==> pat[i] != rep[0],
        forall|k: int| 0 <= k < rep.len() && k != m0 ==> rep[k] != pat[0],
        rep.subrange(m0, rep.len() as int) == pat.subrange(0, rep.len() - m0),
        !contains(s, pat + pat.subrange(rep.len() - m0, pat.len() as int)),
    ensures
        !contains(replace_all(s, pat, rep), pat),
    decreases s.len(),
{
    let o = replace_all(s, pat, rep);
    let l = rep.len() - m0;
    let tail = pat.subrange(l, pat.len() as int);
    let bad = pat + tail;
    if occurs_at(s, 0, pat) {
        let rest = s.subrange(pat.len() as int, s.len() as int);
        let orest = replace_all(rest, pat, rep);
        assert(o == rep + orest);
        assert forall|i: int| !occurs_at(rest, i, bad) by {
            if occurs_at(rest, i, bad) {
                assert(s.subrange(i + pat.len(), i + pat.len() + bad.len()) =~= rest.subrange(
                    i,
                    i + bad.len(),
                ));
                assert(occurs_at(s, i + pat.len(), bad));
            }
        }
        lemma_no_placeholder_left(rest, pat, rep, m0);
        assert forall|k: int| !occurs_at(o, k, pat) by {
            if occurs_at(o, k, pat) {
                assert(o.subrange(k, k + pat.len())[0] == pat[0]);
                if k < rep.len() {
                    assert(o[k] == rep[k]);
                    assert(k == m0);
                    let j = pat.len() - l;
                    assert forall|i: int| 0 <= i < j implies orest[i] != rep[0] by {
                        assert(orest[i] == o[rep.len() + i]);
                        assert(o[rep.len() + i] == o.subrange(k, k + pat.len())[l + i]);
                    }
                    lemma_prefix_copied(rest, pat, rep, j);
                    assert(orest.subrange(0, j) =~= tail) by {
                        assert forall|i: int| 0 <= i < j implies orest.subrange(0, j)[i]
                            == tail[i] by {
                            assert(orest[i] == o[rep.len() + i]);
                            assert(o[rep.len() + i] == o.subrange(k, k + pat.len())[l + i]);
                        }
                    }
                    assert(s.subrange(0, bad.len() as int) =~= bad) by {
                        assert(s.subrange(0, pat.len() as int) =~= pat);
                        assert(rest.subrange(0, j) =~= s.subrange(
                            pat.len() as int,
                            pat.len() + j,
                        ));
                    }
                    assert(occurs_at(s, 0, bad));
                } else {
                    assert(orest.subrange(k - rep.len(), k - rep.len() + pat.len())
                        =~= o.subrange(k, k + pat.len()));
                    assert(occurs_at(orest, k - rep.len(), pat));
                }
            }
        }
    } else if s.len() > 0 {
        let t = s.drop_first();
        let ot = replace_all(t, pat, rep);
        assert(o == seq![s[0]] + ot);
        assert forall|i: int| !occurs_at(t, i, bad) by {
            if occurs_at(t, i, bad) {
                assert(s.subrange(i + 1, i + 1 + bad.len()) =~= t.subrange(i, i + bad.len()));
                assert(occurs_at(s, i + 1, bad));
            }
        }
        lemma_no_placeholder_left(t, pat, rep, m0);
        assert forall|k: int| !occurs_at(o, k, pat) by {
            if occurs_at(o, k, pat) {
                if k == 0 {
                    let j = pat.len() - 1;
                    assert forall|i: int| 0 <= i < j implies ot[i] != rep[0] by {
                        assert(ot[i] == o[i + 1]);
                        assert(o[i + 1] == o.subrange(0, pat.len() as int)[i + 1]);
                    }
                    lemma_prefix_copied(t, pat, rep, j);
                    assert(s.subrange(0, pat.len() as int) =~= pat) by {
                        assert forall|i: int| 0 <= i < pat.len() implies s[i] == pat[i] by {
                            assert(o.subrange(0, pat.len() as int)[i] == pat[i]);
                            if i > 0 {
                                assert(t.subrange(0, j)[i - 1] == ot.subrange(0, j)[i - 1]);
                            }
                        }
                    }
                } else {
                    assert(ot.subrange(k - 1, k - 1 + pat.len()) =~= o.subrange(k, k + pat.len()));
                    assert(occurs_at(ot, k - 1, pat));
                }
            }
        }
    } else {
        assert(o == s);
        assert forall|k: int| !occurs_at(o, k, pat) by {}
    }
}

} // verus!
