//! Listing a user's saves.

use vstd::prelude::*;
use crate::path::{file_name_spec, is_named, last_dot, last_named, lemma_file_name_of_child, lemma_pieces_without_separator, name_extension, pieces};
use crate::text::{decimal, lemma_decimal_plain};
use crate::web::join_spec;
use crate::api::save::save::save_file_name_spec;

verus! {

/// A listed save: its file's name and when it was last changed.
pub struct Save {
    pub name: String,
    pub time: String,
}

/// An entry of a user's save directory.
pub struct DirEntry {
    /// The entry's file name.
    pub name: String,
    /// Whether the entry is a regular file.
    pub is_file: bool,
    /// When it was last changed, as shown to the user.
    pub time: String,
}

/// An entry is listed when it is a file whose extension is `save`.
pub open spec fn is_listed(is_file: bool, name: Seq<char>) -> bool {
    is_file && name_extension(name) == Some("save"@)
}

/// The saves listed from a directory's entries: the listed entries, in order.
pub open spec fn listed_saves(entries: Seq<DirEntry>) -> Seq<(Seq<char>, Seq<char>)>
    decreases entries.len(),
{
    if entries.len() == 0 {
        Seq::empty()
    } else {
        let rest = listed_saves(entries.drop_last());
        let e = entries.last();
        if is_listed(e.is_file, e.name@) {
            rest.push((e.name@, e.time@))
        } else {
            rest
        }
    }
}

/// The listing keeps exactly the entries that are regular files whose
/// extension is `save`, in their order, whatever else their names hold.
pub proof fn listing_keeps_exactly_save_files(entries: Seq<DirEntry>)
    ensures
        listed_saves(entries) == entries.filter(
            |e: DirEntry| e.is_file && name_extension(e.name@) == Some("save"@),
        ).map_values(|e: DirEntry| (e.name@, e.time@)),
    decreases entries.len(),
{
    reveal(Seq::filter);
    let pred = |e: DirEntry| e.is_file && name_extension(e.name@) == Some("save"@);
    let f = |e: DirEntry| (e.name@, e.time@);
    if entries.len() > 0 {
        let rest = entries.drop_last();
        listing_keeps_exactly_save_files(rest);
        let e = entries.last();
        if pred(e) {
            assert(rest.filter(pred).push(e).map_values(f) =~= rest.filter(pred).map_values(f).push(f(e)));
        }
    } else {
        assert(entries.filter(pred).map_values(f) =~= Seq::<(Seq<char>, Seq<char>)>::empty());
    }
}

/// Every regular file with the extension `save` is listed, and every listed
/// save is such a file among the entries.
pub proof fn every_save_file_is_listed(entries: Seq<DirEntry>, i: int)
    requires
        0 <= i < entries.len(),
        entries[i].is_file,
        name_extension(entries[i].name@) == Some("save"@),
    ensures
        listed_saves(entries).contains((entries[i].name@, entries[i].time@)),
{
    let pred = |e: DirEntry| e.is_file && name_extension(e.name@) == Some("save"@);
    let f = |e: DirEntry| (e.name@, e.time@);
    listing_keeps_exactly_save_files(entries);
    entries.filter_lemma(pred);
    assert(entries.filter(pred).contains(entries[i]));
    let k = choose|k: int| 0 <= k < entries.filter(pred).len() && entries.filter(pred)[k] == entries[i];
    assert(entries.filter(pred).map_values(f)[k] == (entries[i].name@, entries[i].time@));
}

/// Whether a directory entry is listed as a save.
pub fn is_save_file(is_file: bool, name: &str) -> (b: bool)
    ensures
        b == is_listed(is_file, name@),
{
    if !is_file {
        return false;
    }
    match crate::path::extension_of_name(name) {
        Some(ext) => {
            let expected = "save".to_string();
            ext == expected
        },
        None => false,
    }
}

/// Lists the saves among a directory's entries.
pub fn list(entries: Vec<DirEntry>) -> (res: Vec<Save>)
    ensures
        res@.map_values(|s: Save| (s.name@, s.time@)) == listed_saves(entries@),
{
    let n = entries.len();
    let mut res: Vec<Save> = Vec::new();
    for i in 0..n
        invariant
            n == entries@.len(),
            res@.map_values(|s: Save| (s.name@, s.time@)) == listed_saves(entries@.take(i as int)),
    {
        let e = &entries[i];
        let ghost before = res@;
        assert(entries@.take(i + 1).drop_last() == entries@.take(i as int));
        if is_save_file(e.is_file, e.name.as_str()) {
            res.push(Save { name: e.name.clone(), time: e.time.clone() });
            assert(res@.map_values(|s: Save| (s.name@, s.time@))
                =~= before.map_values(|s: Save| (s.name@, s.time@)).push((e.name@, e.time@)));
        }
    }
    assert(entries@.take(n as int) == entries@);
    res
}

proof fn lemma_last_dot_suffix(s: Seq<char>)
    ensures
        last_dot(s + ".save"@) == s.len(),
{
    reveal_strlit(".save");
    let t4 = s + ".save"@;
    let t3 = s + seq!['.', 's', 'a', 'v'];
    let t2 = s + seq!['.', 's', 'a'];
    let t1 = s + seq!['.', 's'];
    let t0 = s + seq!['.'];
    assert(t4.drop_last() == t3);
    assert(t3.drop_last() == t2);
    assert(t2.drop_last() == t1);
    assert(t1.drop_last() == t0);
    assert(t4.last() == 'e');
    assert(t3.last() == 'v');
    assert(t2.last() == 'a');
    assert(t1.last() == 's');
    assert(t0.last() == '.');
    assert(last_dot(t0) == s.len());
    assert(last_dot(t1) == s.len());
    assert(last_dot(t2) == s.len());
    assert(last_dot(t3) == s.len());
}

/// Every file a save is stored in is listed: its name has the extension `save`.
pub proof fn stored_saves_are_listed(name: Seq<char>, slot: nat, new: bool)
    ensures
        is_listed(true, save_file_name_spec(name, slot, new)),
{
    let f = save_file_name_spec(name, slot, new);
    let prefix = (if new { "new"@ } else { "old"@ }) + seq!['-'] + name + seq!['-'] + crate::text::decimal(slot);
    lemma_decimal_plain(slot);
    assert(f == prefix + ".save"@);
    lemma_last_dot_suffix(prefix);
    reveal_strlit("new");
    reveal_strlit("old");
    reveal_strlit(".save");
    reveal_strlit("save");
    assert(prefix.len() > 0);
    assert(f.skip(prefix.len() + 1 as int) == "save"@);
}

/// A save's file, written into any directory, is found there under its own
/// name and is listed, provided the character's name holds no `/`.
pub proof fn stored_save_is_found_in_its_directory(dir: Seq<char>, name: Seq<char>, slot: nat, new: bool)
    requires
        forall|i: int| 0 <= i < name.len() ==> name[i] != '/',
    ensures
        file_name_spec(join_spec(dir, save_file_name_spec(name, slot, new))) == Some(save_file_name_spec(name, slot, new)),
        is_listed(true, save_file_name_spec(name, slot, new)),
{
    let f = save_file_name_spec(name, slot, new);
    stored_saves_are_listed(name, slot, new);
    reveal_strlit("new");
    reveal_strlit("old");
    reveal_strlit(".save");
    lemma_decimal_plain(slot);
    let kind = if new { "new"@ } else { "old"@ };
    let d = decimal(slot);
    assert(f == kind + seq!['-'] + name + seq!['-'] + d + ".save"@);
    assert forall|i: int| 0 <= i < f.len() implies f[i] != '/' by {
        let a = kind.len() + 1;
        let b = a + name.len() + 1;
        let c = b + d.len();
        if i < kind.len() {
        } else if i < a {
        } else if i < a + name.len() {
            assert(f[i] == name[i - a]);
        } else if i < b {
        } else if i < c {
            assert(f[i] == d[i - b]);
        } else {
            assert(f[i] == ".save"@[i - c]);
        }
    }
    assert(f.len() >= 10);
    assert(is_named(f)) by {
        assert(f != seq!['.']) by { assert(f.len() != seq!['.'].len()); }
    }
    assert(f != seq!['.', '.']) by { assert(f.len() != seq!['.', '.'].len()); }
    assert(f[0] != '/');
    if dir.len() == 0 {
        assert(join_spec(dir, f) == f);
        lemma_pieces_without_separator(Seq::<char>::empty(), f);
        assert(Seq::<char>::empty() + f == f);
        assert(pieces(Seq::<char>::empty()) == seq![Seq::<char>::empty()]);
        assert(pieces(f).last() == f);
        assert(pieces(f).len() == 1);
        assert(last_named(pieces(f)) == Some(f));
    } else if dir.last() == '/' {
        let up = dir.drop_last();
        assert(dir == up + seq!['/']);
        assert(join_spec(dir, f) == up + seq!['/'] + f);
        lemma_file_name_of_child(up, f);
    } else {
        assert(join_spec(dir, f) == dir + seq!['/'] + f);
        lemma_file_name_of_child(dir, f);
    }
}

} // verus!
