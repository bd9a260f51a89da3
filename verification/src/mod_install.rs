//! Installing the save mod into a game: where the mod's archive goes, and
//! how the game's mod list (`modList.json`, a JSON array of paths relative
//! to the game's directory) records it.

use vstd::prelude::*;
use crate::path::{file_name, file_name_spec, is_named, last_named, lemma_file_name_of_child, lemma_pieces_without_separator, pieces};
use crate::text::views;
use crate::web::{join_path, join_spec};

verus! {

/// The name of the game's mod list.
pub const MOD_LIST_NAME: &'static str = "modList.json";

/// The name of the mod's archive.
pub const MOD_NAME: &'static str = "save_server.mod.zip";

/// The mod list entry written when the mod is installed at its default place.
pub const DEFAULT_ENTRY: &'static str = "mod/save_server.mod.zip";

/// What `serde_json::from_str::<Vec<String>>` makes of a text: the array of
/// strings it holds, or `None` when it is not one.
pub uninterp spec fn json_string_array(text: Seq<char>) -> Option<Seq<Seq<char>>>;

/// What `serde_json::to_string_pretty` writes for an array of strings.
pub uninterp spec fn json_pretty_string_array(list: Seq<Seq<char>>) -> Seq<char>;

/// Reads a JSON array of strings with `serde_json::from_str`; the outcome is
/// named [`json_string_array`].
#[verifier::external_body]
fn parse_string_array(text: &str) -> (res: Option<Vec<String>>)
    ensures
        res is Some <==> json_string_array(text@) is Some,
        res matches Some(v) ==> views(v@) == json_string_array(text@)->0,
{
    serde_json::from_str::<Vec<String>>(text).ok()
}

/// Writes an array of strings with `serde_json::to_string_pretty`; the text
/// is named [`json_pretty_string_array`]. Serialising a list of strings into
/// memory cannot fail (serde_json fails only for a failing `Serialize` impl
/// or a map with non-string keys), and reading the text back with
/// `serde_json::from_str` gives the same list.
#[verifier::external_body]
fn pretty_string_array(list: &Vec<String>) -> (res: String)
    ensures
        res@ == json_pretty_string_array(views(list@)),
        json_string_array(res@) == Some(views(list@)),
{
    match serde_json::to_string_pretty(list) {
        Ok(text) => text,
        Err(_) => String::new(),
    }
}

/// The game's mod list, from the content of `modList.json` when the file
/// exists: empty when it does not, `None` when its content is not a JSON
/// array of strings.
pub fn read_mod_list(content: Option<String>) -> (res: Option<Vec<String>>)
    ensures
        content is None ==> (res matches Some(v) && v@.len() == 0),
        content matches Some(c) ==> (res is Some <==> json_string_array(c@) is Some),
        content matches Some(c) ==> (res matches Some(v) ==> views(v@) == json_string_array(c@)->0),
{
    match content {
        None => Some(Vec::new()),
        Some(c) => parse_string_array(c.as_str()),
    }
}

/// An entry names the mod's archive: its file name is [`MOD_NAME`].
pub open spec fn names_mod(entry: Seq<char>) -> bool {
    file_name_spec(entry) == Some(MOD_NAME@)
}

/// Where the mod's archive is put.
pub enum ModLocation {
    /// At this entry of the mod list (taken relative to the game's directory).
    Listed(String),
    /// At [`DEFAULT_ENTRY`], which is then added to the list.
    Default,
}

/// Finds the first entry of the mod list that names the mod's archive.
pub fn locate_mod(list: &Vec<String>) -> (loc: ModLocation)
    ensures
        loc matches ModLocation::Listed(e) ==> exists|i: int| 0 <= i < list@.len()
            && list@[i]@ == e@ && names_mod(e@)
            && forall|j: int| 0 <= j < i ==> !names_mod(#[trigger] list@[j]@),
        loc is Default <==> forall|j: int| 0 <= j < list@.len() ==> !names_mod(#[trigger] list@[j]@),
{
    let target = MOD_NAME.to_string();
    let n = list.len();
    for i in 0..n
        invariant
            n == list@.len(),
            target@ == MOD_NAME@,
            forall|j: int| 0 <= j < i ==> !names_mod(#[trigger] list@[j]@),
    {
        match file_name(list[i].as_str()) {
            Some(f) => {
                if f == target {
                    return ModLocation::Listed(list[i].clone());
                }
            },
            None => {},
        }
    }
    ModLocation::Default
}

/// Where the archive is written, for a game whose directory is `dir`.
pub fn mod_path(dir: &str, loc: &ModLocation) -> (p: String)
    ensures
        loc matches ModLocation::Listed(e) ==> p@ == join_spec(dir@, e@),
        loc is Default ==> p@ == join_spec(join_spec(dir@, "mod"@), MOD_NAME@),
{
    match loc {
        ModLocation::Listed(e) => join_path(dir, e.as_str()),
        ModLocation::Default => {
            let d = join_path(dir, "mod");
            join_path(d.as_str(), MOD_NAME)
        },
    }
}

/// The new content of `modList.json`: the list with [`DEFAULT_ENTRY`] added,
/// pretty-printed, when the archive went to its default place; nothing to
/// write when the list already named it. The text written reads back as
/// that longer list.
pub fn updated_mod_list(list: Vec<String>, loc: &ModLocation) -> (res: Option<String>)
    ensures
        loc is Listed ==> res is None,
        loc is Default ==> (res matches Some(text)
            && text@ == json_pretty_string_array(views(list@).push(DEFAULT_ENTRY@))
            && json_string_array(text@) == Some(views(list@).push(DEFAULT_ENTRY@))),
{
    match loc {
        ModLocation::Listed(_) => None,
        ModLocation::Default => {
            let mut list = list;
            let ghost before = list@;
            list.push(DEFAULT_ENTRY.to_string());
            assert(views(list@) =~= views(before).push(DEFAULT_ENTRY@));
            Some(pretty_string_array(&list))
        },
    }
}

/// The archive's own name names it, whether written alone (the archive
/// directly in the game's directory) or under any directory; and an entry
/// names it exactly when that entry's file name is the archive's name.
pub proof fn mod_name_names_mod(dir: Seq<char>, entry: Seq<char>)
    ensures
        names_mod("save_server.mod.zip"@),
        names_mod(dir + seq!['/'] + "save_server.mod.zip"@),
        names_mod(entry) <==> file_name_spec(entry) == Some("save_server.mod.zip"@),
{
    reveal_strlit("save_server.mod.zip");
    let name = MOD_NAME@;
    assert forall|i: int| 0 <= i < name.len() implies name[i] != '/' by {}
    assert(name != seq!['.']) by {
        assert(name.len() != seq!['.'].len());
    }
    assert(name != seq!['.', '.']) by {
        assert(name.len() != seq!['.', '.'].len());
    }
    lemma_file_name_of_child(dir, name);
    lemma_pieces_without_separator(Seq::<char>::empty(), name);
    assert(Seq::<char>::empty() + name == name);
    assert(pieces(Seq::<char>::empty()) == seq![Seq::<char>::empty()]);
    assert(pieces(name).len() == 1);
    assert(pieces(name).last() == name);
    assert(last_named(pieces(name)) == Some(name));
}

/// Installing the mod twice adds its entry only once: once
/// [`DEFAULT_ENTRY`] is in the list, the list names the mod's archive.
pub proof fn default_entry_names_mod()
    ensures
        names_mod(DEFAULT_ENTRY@),
{
    reveal_strlit("mod/save_server.mod.zip");
    reveal_strlit("save_server.mod.zip");
    let name = MOD_NAME@;
    assert(DEFAULT_ENTRY@ == seq!['m', 'o', 'd'] + seq!['/'] + name);
    assert forall|i: int| 0 <= i < name.len() implies name[i] != '/' by {}
    assert(name != seq!['.']) by {
        assert(name.len() != seq!['.'].len());
    }
    assert(name != seq!['.', '.']) by {
        assert(name.len() != seq!['.', '.'].len());
    }
    lemma_file_name_of_child(seq!['m', 'o', 'd'], name);
}

/// Installing the mod again changes nothing. After a first install put the
/// archive at its default place (no entry of `list` named it), the list
/// written is `list` followed by [`DEFAULT_ENTRY`]; in that list the first
/// entry naming the archive is [`DEFAULT_ENTRY`] itself, so a second install
/// finds it, writes no list, and writes the archive to the very path the
/// first install used.
pub proof fn install_is_idempotent(dir: Seq<char>, list: Seq<Seq<char>>)
    requires
        forall|j: int| 0 <= j < list.len() ==> !names_mod(#[trigger] list[j]),
    ensures
        names_mod(list.push(DEFAULT_ENTRY@)[list.len() as int]),
        forall|j: int| 0 <= j < list.len() ==> !names_mod(#[trigger] list.push(DEFAULT_ENTRY@)[j]),
        join_spec(dir, DEFAULT_ENTRY@) == join_spec(join_spec(dir, "mod"@), MOD_NAME@),
{
    default_entry_names_mod();
    let after = list.push(DEFAULT_ENTRY@);
    assert(after[list.len() as int] == DEFAULT_ENTRY@);
    assert forall|j: int| 0 <= j < list.len() implies !names_mod(#[trigger] after[j]) by {
        assert(after[j] == list[j]);
    }
    reveal_strlit("mod/save_server.mod.zip");
    reveal_strlit("save_server.mod.zip");
    reveal_strlit("mod");
    let name = MOD_NAME@;
    let m = seq!['m', 'o', 'd'];
    assert(DEFAULT_ENTRY@ == m + seq!['/'] + name);
    assert(DEFAULT_ENTRY@[0] == 'm');
    assert(name[0] == 's');
    assert("mod"@ == m);
    if dir.len() == 0 {
        assert(join_spec(dir, m) =~= m);
        assert(join_spec(dir, DEFAULT_ENTRY@) =~= DEFAULT_ENTRY@);
    } else if dir.last() == '/' {
        assert((dir + m).last() == 'd');
        assert(join_spec(dir + m, name) =~= dir + m + seq!['/'] + name);
        assert(join_spec(dir, DEFAULT_ENTRY@) =~= dir + (m + seq!['/'] + name));
    } else {
        assert((dir + seq!['/'] + m).last() == 'd');
        assert(join_spec(dir + seq!['/'] + m, name) =~= dir + seq!['/'] + m + seq!['/'] + name);
        assert(join_spec(dir, DEFAULT_ENTRY@) =~= dir + seq!['/'] + (m + seq!['/'] + name));
    }
}

} // verus!
