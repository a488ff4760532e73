//! Verified string utilities: equality, joining with a separator, and
//! substring replacement. These back the URL resolver and the output
//! formatter.

use vstd::prelude::*;
use vstd::string::*;

verus! {

/// Character-by-character string equality, proved equivalent to equality
/// of the views.
pub fn str_eq(a: &str, b: &str) -> (r: bool)
    ensures
        r == (a@ == b@),
{
    let n = a.unicode_len();
    if n != b.unicode_len() {
        return false;
    }
    let mut i: usize = 0;
    while i < n
        invariant
            n == a@.len(),
            n == b@.len(),
            i <= n,
            forall|j: int| 0 <= j < i ==> a@[j] == b@[j],
        decreases n - i,
    {
        if a.get_char(i) != b.get_char(i) {
            return false;
        }
        i = i + 1;
    }
    proof {
        assert(a@ =~= b@);
    }
    true
}

/// The sequence obtained by concatenating `parts` with `sep` between
/// consecutive elements.
pub open spec fn join_with(parts: Seq<Seq<char>>, sep: Seq<char>) -> Seq<char>
    decreases parts.len(),
{
    if parts.len() == 0 {
        Seq::empty()
    } else if parts.len() == 1 {
        parts[0]
    } else {
        parts[0] + sep + join_with(parts.drop_first(), sep)
    }
}

pub proof fn lemma_join_with_push(parts: Seq<Seq<char>>, sep: Seq<char>, last: Seq<char>)
    ensures
        parts.len() == 0 ==> join_with(parts.push(last), sep) == last,
        parts.len() > 0 ==> join_with(parts.push(last), sep) == join_with(parts, sep) + sep
            + last,
    decreases parts.len(),
{
    let p = parts.push(last);
    if parts.len() == 0 {
        assert(p.len() == 1);
        assert(p[0] == last);
    } else if parts.len() == 1 {
        assert(p.len() == 2);
        assert(p[0] == parts[0]);
        assert(p.drop_first() =~= seq![last]);
        assert(join_with(p.drop_first(), sep) == last);
    } else {
        assert(p.drop_first() =~= parts.drop_first().push(last));
        lemma_join_with_push(parts.drop_first(), sep, last);
        assert((parts[0] + sep + (join_with(parts.drop_first(), sep) + sep + last)) =~= ((parts[0]
            + sep + join_with(parts.drop_first(), sep)) + sep + last));
        assert(p[0] == parts[0]);
    }
}

/// Joins the parts with the separator; the result's view is `join_with`
/// of the parts' views.
pub fn join(parts: &Vec<String>, sep: &str) -> (r: String)
    ensures
        r@ == join_with(parts.deep_view(), sep@),
{
    let ghost pv = parts.deep_view();
    let mut r = String::new();
    let mut i: usize = 0;
    proof {
        assert(pv.take(0) =~= Seq::<Seq<char>>::empty());
    }
    while i < parts.len()
        invariant
            i <= parts.len(),
            pv == parts.deep_view(),
            pv.len() == parts@.len(),
            forall|j: int| 0 <= j < pv.len() ==> pv[j] == parts@[j]@,
            r@ == join_with(pv.take(i as int), sep@),
        decreases parts.len() - i,
    {
        let ghost prefix = pv.take(i as int);
        if i > 0 {
            r.append(sep);
        }
        let part = &parts[i];
        r.append(part.as_str());
        proof {
            lemma_join_with_push(prefix, sep@, pv[i as int]);
            assert(prefix.push(pv[i as int]) =~= pv.take(i as int + 1));
            if i == 0 {
                assert(Seq::<char>::empty() + pv[0] =~= pv[0]);
            }
        }
        i = i + 1;
    }
    proof {
        assert(pv.take(pv.len() as int) =~= pv);
    }
    r
}

/// The sequence obtained from `s` by replacing each non-overlapping
/// occurrence of `pat`, scanning left to right, with `rep`.
pub open spec fn replace_all(s: Seq<char>, pat: Seq<char>, rep: Seq<char>) -> Seq<char>
    decreases s.len(),
{
    if pat.len() == 0 || s.len() < pat.len() {
        s
    } else if s.take(pat.len() as int) == pat {
        rep + replace_all(s.skip(pat.len() as int), pat, rep)
    } else {
        seq![s[0]] + replace_all(s.drop_first(), pat, rep)
    }
}

/// Replaces every non-overlapping occurrence of `pat` in `s` with `rep`,
/// scanning left to right.
pub fn replace(s: &str, pat: &str, rep: &str) -> (r: String)
    requires
        pat@.len() >= 1,
    ensures
        r@ == replace_all(s@, pat@, rep@),
{
    let n = s.unicode_len();
    let m = pat.unicode_len();
    let mut out = String::new();
    let mut i: usize = 0;
    proof {
        assert(s@.skip(0) =~= s@);
        assert(Seq::<char>::empty() + replace_all(s@, pat@, rep@) =~= replace_all(s@, pat@, rep@));
    }
    while i < n
        invariant
            n == s@.len(),
            m == pat@.len(),
            m >= 1,
            i <= n,
            replace_all(s@, pat@, rep@) == out@ + replace_all(s@.skip(i as int), pat@, rep@),
        decreases n - i,
    {
        let ghost tail = s@.skip(i as int);
        if m <= n - i && str_eq(s.substring_char(i, i + m), pat) {
            proof {
                assert(tail.take(m as int) =~= s@.subrange(i as int, i as int + m as int));
                assert(tail.skip(m as int) =~= s@.skip(i as int + m as int));
                assert((out@ + (rep@ + replace_all(s@.skip(i as int + m as int), pat@, rep@)))
                    =~= ((out@ + rep@) + replace_all(s@.skip(i as int + m as int), pat@, rep@)));
            }
            out.append(rep);
            i = i + m;
        } else {
            proof {
                if m <= n - i {
                    assert(s@.subrange(i as int, i as int + m as int) != pat@);
                    assert(tail.take(m as int) =~= s@.subrange(i as int, i as int + m as int));
                }
                assert(tail.drop_first() =~= s@.skip(i as int + 1));
                assert(tail[0] == s@[i as int]);
                assert(tail =~= seq![s@[i as int]] + s@.skip(i as int + 1));
                assert((out@ + (seq![s@[i as int]] + replace_all(s@.skip(i as int + 1), pat@, rep@)))
                    =~= ((out@ + seq![s@[i as int]]) + replace_all(s@.skip(i as int + 1), pat@, rep@)));
                assert(seq![s@[i as int]] =~= s@.subrange(i as int, i as int + 1));
            }
            let c = s.substring_char(i, i + 1);
            out.append(c);
            i = i + 1;
        }
    }
    proof {
        assert(s@.skip(n as int) =~= Seq::<char>::empty());
        assert(out@ + Seq::<char>::empty() =~= out@);
    }
    out
}

} // verus!
