//! File names and extensions of `/`-separated paths, as `std::path::Path`
//! reads them on Unix.

use vstd::prelude::*;
use crate::text::{chars_of, string_of};

verus! {

/// The pieces of a path between its separators, empty pieces included:
/// `"a//b/"` has the pieces `"a"`, `""`, `"b"`, `""`.
pub open spec fn pieces(p: Seq<char>) -> Seq<Seq<char>>
    decreases p.len(),
{
    if p.len() == 0 {
        seq![Seq::<char>::empty()]
    } else {
        let r = pieces(p.drop_last());
        if p.last() == '/' {
            r.push(Seq::<char>::empty())
        } else {
            r.update(r.len() - 1, r.last().push(p.last()))
        }
    }
}

/// A piece that names something: not empty and not the current directory `.`.
pub open spec fn is_named(c: Seq<char>) -> bool {
    c.len() > 0 && c != seq!['.']
}

/// The last piece that names something, if any.
pub open spec fn last_named(ps: Seq<Seq<char>>) -> Option<Seq<char>>
    decreases ps.len(),
{
    if ps.len() == 0 {
        None
    } else if is_named(ps.last()) {
        Some(ps.last())
    } else {
        last_named(ps.drop_last())
    }
}

/// The final component of a path (`Path::file_name`): its last named piece,
/// unless that piece is the parent directory `..`.
pub open spec fn file_name_spec(p: Seq<char>) -> Option<Seq<char>> {
    match last_named(pieces(p)) {
        Some(c) => if c == seq!['.', '.'] { None } else { Some(c) },
        None => None,
    }
}

/// The index of the last `.` in `s`, or -1 when there is none.
pub open spec fn last_dot(s: Seq<char>) -> int
    decreases s.len(),
{
    if s.len() == 0 {
        -1
    } else if s.last() == '.' {
        s.len() - 1
    } else {
        last_dot(s.drop_last())
    }
}

/// The extension of a file name: what follows its last `.`, provided that dot
/// is not the name's first character.
pub open spec fn name_extension(name: Seq<char>) -> Option<Seq<char>> {
    let k = last_dot(name);
    if k <= 0 {
        None
    } else {
        Some(name.skip(k + 1))
    }
}

/// The extension of a path (`Path::extension`).
pub open spec fn extension_spec(p: Seq<char>) -> Option<Seq<char>> {
    match file_name_spec(p) {
        Some(name) => name_extension(name),
        None => None,
    }
}

pub proof fn lemma_pieces_nonempty(p: Seq<char>)
    ensures
        pieces(p).len() >= 1,
    decreases p.len(),
{
    if p.len() > 0 {
        lemma_pieces_nonempty(p.drop_last());
    }
}

proof fn lemma_last_dot_range(s: Seq<char>)
    ensures
        -1 <= last_dot(s) < s.len(),
        last_dot(s) >= 0 ==> s[last_dot(s)] == '.',
        forall|j: int| last_dot(s) < j < s.len() ==> s[j] != '.',
    decreases s.len(),
{
    if s.len() > 0 {
        let t = s.drop_last();
        lemma_last_dot_range(t);
        if s.last() != '.' {
            assert forall|j: int| last_dot(s) < j < s.len() implies s[j] != '.' by {
                if j < s.len() - 1 {
                    assert(s[j] == t[j]);
                }
            }
        }
    }
}

pub proof fn lemma_pieces_without_separator(p: Seq<char>, q: Seq<char>)
    requires
        forall|i: int| 0 <= i < q.len() ==> q[i] != '/',
    ensures
        pieces(p + q).len() == pieces(p).len(),
        pieces(p + q).last() == pieces(p).last() + q,
        pieces(p + q).drop_last() == pieces(p).drop_last(),
    decreases q.len(),
{
    lemma_pieces_nonempty(p);
    lemma_pieces_nonempty(p + q);
    if q.len() == 0 {
        assert(p + q == p);
    } else {
        let q0 = q.drop_last();
        lemma_pieces_without_separator(p, q0);
        assert((p + q).drop_last() == p + q0);
        assert((p + q).last() == q.last());
        assert(pieces(p).last() + q == (pieces(p).last() + q0).push(q.last()));
        let r = pieces(p + q0);
        assert(pieces(p + q) == r.update(r.len() - 1, r.last().push(q.last())));
        assert(r.update(r.len() - 1, r.last().push(q.last())).drop_last() == r.drop_last());
    }
}

/// The file name of `dir/name`, for a plain name, is that name.
pub proof fn lemma_file_name_of_child(dir: Seq<char>, name: Seq<char>)
    requires
        forall|i: int| 0 <= i < name.len() ==> name[i] != '/',
        is_named(name),
        name != seq!['.', '.'],
    ensures
        file_name_spec(dir + seq!['/'] + name) == Some(name),
{
    let p = dir + seq!['/'];
    assert(p.drop_last() == dir);
    assert(p.last() == '/');
    assert(pieces(p).last() == Seq::<char>::empty());
    lemma_pieces_without_separator(p, name);
    assert(Seq::<char>::empty() + name == name);
    let ps = pieces(p + name);
    assert(ps.len() >= 1) by {
        assert(pieces(p) == pieces(dir).push(Seq::<char>::empty()));
    }
    assert(ps.last() == name);
    assert(last_named(ps) == Some(name));
}

fn is_named_exec(c: &Vec<char>) -> (b: bool)
    ensures
        b == is_named(c@),
{
    if c.len() == 0 {
        false
    } else if c.len() == 1 && c[0] == '.' {
        assert(c@ == seq!['.']);
        false
    } else {
        assert(c@ != seq!['.']) by {
            if c@ == seq!['.'] {
                assert(seq!['.'][0] == '.');
                assert(seq!['.'].len() == 1);
                assert(c@[0] == '.');
            }
        }
        true
    }
}

/// The final component of a path (`Path::file_name`).
pub fn file_name(p: &str) -> (res: Option<String>)
    ensures
        res matches Some(s) ==> file_name_spec(p@) == Some(s@),
        res is None ==> file_name_spec(p@) is None,
{
    let v = chars_of(p);
    let n = v.len();
    let mut cur: Vec<char> = Vec::new();
    let mut last: Option<Vec<char>> = None;
    proof {
        assert(v@.take(0) == Seq::<char>::empty());
    }
    for i in 0..n
        invariant
            n == v@.len(),
            v@ == p@,
            pieces(v@.take(i as int)).len() >= 1,
            cur@ == pieces(v@.take(i as int)).last(),
            match last {
                Some(l) => last_named(pieces(v@.take(i as int)).drop_last()) == Some(l@),
                None => last_named(pieces(v@.take(i as int)).drop_last()) is None,
            },
    {
        let ch = v[i];
        let ghost ps = pieces(v@.take(i as int));
        proof {
            assert(v@.take(i + 1).drop_last() == v@.take(i as int));
            assert(v@.take(i + 1).last() == ch);
        }
        if ch == '/' {
            proof {
                assert(pieces(v@.take(i + 1)) == ps.push(Seq::<char>::empty()));
                assert(ps.push(Seq::<char>::empty()).drop_last() == ps);
                assert(ps == ps.drop_last().push(ps.last()));
            }
            if is_named_exec(&cur) {
                last = Some(cur);
            }
            cur = Vec::new();
        } else {
            proof {
                let q = ps.update(ps.len() - 1, ps.last().push(ch));
                assert(pieces(v@.take(i + 1)) == q);
                assert(q.drop_last() == ps.drop_last());
            }
            cur.push(ch);
        }
    }
    let ghost ps = pieces(v@.take(n as int));
    proof {
        assert(v@.take(n as int) == v@);
        assert(ps == ps.drop_last().push(ps.last()));
    }
    let found = if is_named_exec(&cur) {
        Some(cur)
    } else {
        last
    };
    match found {
        Some(c) => {
            if c.len() == 2 && c[0] == '.' && c[1] == '.' {
                assert(c@ == seq!['.', '.']);
                None
            } else {
                assert(c@ != seq!['.', '.']) by {
                    if c@ == seq!['.', '.'] {
                        assert(c@[0] == '.' && c@[1] == '.');
                    }
                }
                Some(string_of(&c))
            }
        },
        None => None,
    }
}

/// The extension of a file name (see [`name_extension`]).
pub fn extension_of_name(name: &str) -> (res: Option<String>)
    ensures
        res matches Some(s) ==> name_extension(name@) == Some(s@),
        res is None ==> name_extension(name@) is None,
{
    let v = chars_of(name);
    let n = v.len();
    let mut k: usize = n;
    while k > 0 && v[k - 1] != '.'
        invariant
            k <= n,
            n == v@.len(),
            forall|j: int| k <= j < n ==> v@[j] != '.',
        decreases k,
    {
        k = k - 1;
    }
    proof {
        lemma_last_dot_range(v@);
        let d = last_dot(v@);
        if k > 0 {
            assert(v@[k - 1] == '.');
            assert(d == k - 1);
        } else {
            assert(d == -1);
        }
    }
    if k <= 1 {
        None
    } else {
        let mut out: Vec<char> = Vec::new();
        let mut i: usize = k;
        while i < n
            invariant
                k <= i <= n,
                n == v@.len(),
                out@ == v@.subrange(k as int, i as int),
            decreases n - i,
        {
            out.push(v[i]);
            assert(v@.subrange(k as int, i + 1) == v@.subrange(k as int, i as int).push(v@[i as int]));
            i = i + 1;
        }
        assert(v@.subrange(k as int, n as int) == v@.skip(k as int));
        Some(string_of(&out))
    }
}

/// The extension of a path (`Path::extension`).
pub fn extension(p: &str) -> (res: Option<String>)
    ensures
        res matches Some(s) ==> extension_spec(p@) == Some(s@),
        res is None ==> extension_spec(p@) is None,
{
    match file_name(p) {
        Some(name) => extension_of_name(name.as_str()),
        None => None,
    }
}

} // verus!
