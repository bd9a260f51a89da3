use dol_save_server::api::save::list::DirEntry;
use dol_save_server::saves_page::{replace_str, save_list};

#[test]
fn replace_matches_std() {
    for (s, p, r) in [
        ("a{list}b{list}", "{list}", "X"),
        ("aaaa", "aa", "b"),
        ("aaa", "aa", "b"),
        ("", "x", "y"),
        ("no match", "{list}", "zz"),
        ("{message}", "{message}", ""),
        ("ab", "", "X"),
        ("", "", "X"),
        ("", "", ""),
        ("存档", "", "-"),
        ("存档{list}存档", "{list}", "<option>"),
    ] {
        assert_eq!(replace_str(s, p, r), s.replace(p, r), "{s:?} {p:?} {r:?}");
    }
}

#[test]
fn saves_page_lists_options() {
    let entries = vec![
        DirEntry { name: "new-a-01.save".into(), is_file: true, time: String::new() },
        DirEntry { name: "skip.txt".into(), is_file: true, time: String::new() },
        DirEntry { name: "old-b-00.save".into(), is_file: true, time: String::new() },
    ];
    let page = save_list("<select>{list}</select>", entries);
    assert_eq!(
        page,
        "<select><option value=\"new-a-01.save\">new-a-01.save</option><option value=\"old-b-00.save\">old-b-00.save</option></select>"
    );
    assert_eq!(save_list("<p>{list}</p>", vec![]), "<p></p>");
}
