//! The `/saves` page, which shows the saves kept on the server.

use vstd::prelude::*;
use crate::api::save::list::{list, listed_saves, DirEntry, Save};
use crate::text::{chars_of, concat_str, string_of};

verus! {

/// `s` with every occurrence of `pat` replaced by `rep`, occurrences taken
/// from the left without overlapping (`str::replace`). The empty pattern
/// occurs before every character and at the end, so `rep` is put there.
pub open spec fn replace_all(s: Seq<char>, pat: Seq<char>, rep: Seq<char>) -> Seq<char>
    decreases s.len(),
{
    if s.len() == 0 {
        if pat.len() == 0 { rep } else { s }
    } else if pat.len() == 0 {
        rep + seq![s[0]] + replace_all(s.drop_first(), pat, rep)
    } else if pat.len() > 0 && pat.len() <= s.len() && s.take(pat.len() as int) == pat {
        rep + replace_all(s.skip(pat.len() as int), pat, rep)
    } else {
        seq![s[0]] + replace_all(s.drop_first(), pat, rep)
    }
}

/// Replaces every occurrence of `pat` in `s` by `rep` (see [`replace_all`]).
pub fn replace_str(s: &str, pat: &str, rep: &str) -> (res: String)
    ensures
        res@ == replace_all(s@, pat@, rep@),
{
    if pat.is_empty() {
        return interleave(s, pat, rep);
    }
    let v = chars_of(s);
    let p = chars_of(pat);
    let r = chars_of(rep);
    let n = v.len();
    let m = p.len();
    let mut out: Vec<char> = Vec::new();
    let mut i: usize = 0;
    proof {
        assert(v@.skip(0) == v@);
    }
    while i < n
        invariant
            i <= n,
            n == v@.len(),
            m == p@.len(),
            m > 0,
            v@ == s@,
            p@ == pat@,
            r@ == rep@,
            out@ + replace_all(v@.skip(i as int), p@, r@) == replace_all(v@, p@, r@),
        decreases n - i,
    {
        let ghost rest = v@.skip(i as int);
        let mut matched = m <= n - i;
        let mut k: usize = 0;
        while matched && k < m
            invariant
                i < n,
                n == v@.len(),
                m == p@.len(),
                k <= m,
                matched ==> m <= n - i,
                matched ==> forall|j: int| 0 <= j < k ==> v@[i + j] == p@[j],
                !matched ==> !(m <= rest.len() && rest.take(m as int) == p@),
                rest == v@.skip(i as int),
            decreases m - k + (if matched { 1int } else { 0int }),
        {
            if v[i + k] != p[k] {
                proof {
                    if rest.take(m as int) == p@ {
                        assert(rest.take(m as int)[k as int] == v@[i + k]);
                    }
                }
                matched = false;
            } else {
                k = k + 1;
            }
        }
        if matched {
            proof {
                assert(rest.take(m as int) =~= p@);
                assert(rest.skip(m as int) == v@.skip(i + m));
            }
            let ghost before = out@;
            for j in 0..r.len()
                invariant
                    out@ == before + r@.take(j as int),
            {
                out.push(r[j]);
                assert(r@.take(j + 1) == r@.take(j as int).push(r@[j as int]));
            }
            assert(r@.take(r@.len() as int) == r@);
            assert(out@ + replace_all(v@.skip(i + m), p@, r@) == before + (r@ + replace_all(rest.skip(m as int), p@, r@)));
            i = i + m;
        } else {
            proof {
                assert(rest.drop_first() == v@.skip(i + 1));
                assert(rest[0] == v@[i as int]);
            }
            let ghost before = out@;
            out.push(v[i]);
            assert(out@ + replace_all(v@.skip(i + 1), p@, r@) == before + (seq![rest[0]] + replace_all(rest.drop_first(), p@, r@)));
            i = i + 1;
        }
    }
    proof {
        assert(v@.skip(n as int) == Seq::<char>::empty());
        assert(out@ + Seq::<char>::empty() == out@);
    }
    string_of(&out)
}

/// `rep` before every character of `s` and at its end: what replacing the
/// empty pattern gives.
fn interleave(s: &str, pat: &str, rep: &str) -> (res: String)
    requires
        pat@.len() == 0,
    ensures
        res@ == replace_all(s@, pat@, rep@),
{
    let v = chars_of(s);
    let r = chars_of(rep);
    let n = v.len();
    let mut out: Vec<char> = Vec::new();
    proof {
        assert(v@.skip(0) == v@);
    }
    for i in 0..n
        invariant
            n == v@.len(),
            v@ == s@,
            r@ == rep@,
            pat@.len() == 0,
            out@ + replace_all(v@.skip(i as int), pat@, rep@) == replace_all(v@, pat@, rep@),
    {
        let ghost before = out@;
        let ghost rest = v@.skip(i as int);
        for j in 0..r.len()
            invariant
                out@ == before + r@.take(j as int),
        {
            out.push(r[j]);
            assert(r@.take(j + 1) == r@.take(j as int).push(r@[j as int]));
        }
        assert(r@.take(r@.len() as int) == r@);
        out.push(v[i]);
        proof {
            assert(rest[0] == v@[i as int]);
            assert(rest.drop_first() == v@.skip(i + 1));
            assert(out@ + replace_all(v@.skip(i + 1), pat@, rep@)
                == before + (rep@ + seq![rest[0]] + replace_all(rest.drop_first(), pat@, rep@)));
        }
    }
    let ghost before = out@;
    for j in 0..r.len()
        invariant
            out@ == before + r@.take(j as int),
    {
        out.push(r[j]);
        assert(r@.take(j + 1) == r@.take(j as int).push(r@[j as int]));
    }
    proof {
        assert(r@.take(r@.len() as int) == r@);
        assert(v@.skip(n as int) == Seq::<char>::empty());
    }
    string_of(&out)
}

/// One choice of the page's list: `<option value="NAME">NAME</option>`.
pub open spec fn option_of(name: Seq<char>) -> Seq<char> {
    "<option value=\""@ + name + "\">"@ + name + "</option>"@
}

/// The choices for all the names, one after another.
pub open spec fn options_of(names: Seq<Seq<char>>) -> Seq<char>
    decreases names.len(),
{
    if names.len() == 0 {
        Seq::empty()
    } else {
        options_of(names.drop_last()) + option_of(names.last())
    }
}

/// The names of the saves listed from a directory's entries.
pub open spec fn listed_names(entries: Seq<DirEntry>) -> Seq<Seq<char>> {
    listed_saves(entries).map_values(|e: (Seq<char>, Seq<char>)| e.0)
}

/// The `/saves` page: the template with `{list}` replaced by one choice per
/// save listed from the directory's entries.
pub fn save_list(template: &str, entries: Vec<DirEntry>) -> (page: String)
    ensures
        page@ == replace_all(template@, "{list}"@, options_of(listed_names(entries@))),
{
    let saves: Vec<Save> = list(entries);
    let ghost names = saves@.map_values(|s: Save| s.name@);
    proof {
        assert(names =~= listed_names(entries@));
    }
    let mut options = String::new();
    let n = saves.len();
    for i in 0..n
        invariant
            n == saves@.len(),
            names == saves@.map_values(|s: Save| s.name@),
            options@ == options_of(names.take(i as int)),
    {
        let name = saves[i].name.as_str();
        let a = concat_str("<option value=\"", name);
        let b = concat_str(a.as_str(), "\">");
        let c = concat_str(b.as_str(), name);
        let d = concat_str(c.as_str(), "</option>");
        proof {
            assert(names.take(i + 1).drop_last() == names.take(i as int));
            assert(names.take(i + 1).last() == saves@[i as int].name@);
        }
        options = concat_str(options.as_str(), d.as_str());
    }
    proof {
        assert(names.take(n as int) == names);
        reveal_strlit("{list}");
    }
    replace_str(template, "{list}", options.as_str())
}

} // verus!
