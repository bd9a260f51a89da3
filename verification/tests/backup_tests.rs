use dol_save_server::backup::{get_saves, mail_subject, plan_backup, saves_pattern, zip_entry_name, BackupPlan, SaveFile};
use dol_save_server::config::backup::Period;
use dol_save_server::mod_install::{
    locate_mod, mod_path, read_mod_list, updated_mod_list, ModLocation, DEFAULT_ENTRY, MOD_LIST_NAME, MOD_NAME,
};

fn file(path: &str, age: Option<u64>) -> SaveFile {
    SaveFile { path: path.to_string(), age: age.map(|secs| Period { secs, nanos: 0 }) }
}

#[test]
fn pattern_of_saves() {
    assert_eq!(saves_pattern("/srv/save"), "/srv/save/**/*.save");
}

#[test]
fn backup_only_when_something_changed() {
    let period = Period { secs: 3600, nanos: 0 };
    let files = vec![file("a.save", Some(7200)), file("b.save", None)];
    assert_eq!(get_saves(files, &period, false), None);
    let files = vec![file("a.save", Some(7200)), file("b.save", Some(3600))];
    assert_eq!(get_saves(files, &period, false), Some(vec!["a.save".to_string(), "b.save".to_string()]));
    let files = vec![file("a.save", None)];
    assert_eq!(get_saves(files, &period, true), Some(vec!["a.save".to_string()]));
    assert_eq!(get_saves(vec![], &period, true), Some(vec![]));
}

#[test]
fn backup_plans() {
    assert!(matches!(plan_backup(None), BackupPlan::Unchanged));
    assert!(matches!(plan_backup(Some(vec![])), BackupPlan::NoSaves));
    match plan_backup(Some(vec!["x".to_string()])) {
        BackupPlan::Archive(f) => assert_eq!(f, vec!["x".to_string()]),
        _ => panic!("expected an archive"),
    }
}

#[test]
fn zip_entry_names_are_relative() {
    assert_eq!(zip_entry_name("save/u/a.save", "save"), Some("u/a.save".to_string()));
    assert_eq!(zip_entry_name("save/u/a.save", "save/"), Some("u/a.save".to_string()));
    assert_eq!(zip_entry_name("savex/a.save", "save"), None);
    assert_eq!(zip_entry_name("other/a.save", "save"), None);
    for (f, d) in [("save/u/a.save", "save"), ("/abs/save/x.save", "/abs/save"), ("a/b", "a/")] {
        let expected = std::path::Path::new(f).strip_prefix(d).ok().map(|p| p.to_string_lossy().to_string());
        assert_eq!(zip_entry_name(f, d), expected);
    }
}

#[test]
fn subject_of_backup_mail() {
    assert_eq!(mail_subject("存档备份", "2024-01-02 03:04:05"), "存档备份 - 2024-01-02 03:04:05");
}

#[test]
fn mod_list_reading() {
    assert_eq!(read_mod_list(None), Some(vec![]));
    assert_eq!(read_mod_list(Some("[\"a/b.zip\", \"c\"]".into())), Some(vec!["a/b.zip".to_string(), "c".to_string()]));
    assert_eq!(read_mod_list(Some("not json".into())), None);
    assert_eq!(MOD_LIST_NAME, "modList.json");
    assert_eq!(MOD_NAME, "save_server.mod.zip");
}

#[test]
fn mod_list_written_when_absent() {
    let list = read_mod_list(None).unwrap();
    let loc = locate_mod(&list);
    assert_eq!(mod_path("g", &loc), "g/mod/save_server.mod.zip");
    assert_eq!(updated_mod_list(list, &loc).unwrap(), "[\n  \"mod/save_server.mod.zip\"\n]");
}

#[test]
fn mod_installed_once() {
    let list = vec!["other.zip".to_string()];
    let loc = locate_mod(&list);
    assert!(matches!(loc, ModLocation::Default));
    assert_eq!(mod_path("/game", &loc), "/game/mod/save_server.mod.zip");
    let text = updated_mod_list(list, &loc).unwrap();
    assert_eq!(text, serde_json::to_string_pretty(&vec!["other.zip".to_string(), DEFAULT_ENTRY.to_string()]).unwrap());
    let again = read_mod_list(Some(text)).unwrap();
    assert_eq!(again, vec!["other.zip".to_string(), DEFAULT_ENTRY.to_string()]);
    let loc = locate_mod(&again);
    match &loc {
        ModLocation::Listed(e) => assert_eq!(e, DEFAULT_ENTRY),
        ModLocation::Default => panic!("should be listed"),
    }
    assert_eq!(updated_mod_list(again, &loc), None);
    assert_eq!(mod_path("/game", &loc), "/game/mod/save_server.mod.zip");
}

#[test]
fn mod_found_at_custom_place() {
    let list = vec!["mods/x.zip".to_string(), "custom/save_server.mod.zip".to_string()];
    match locate_mod(&list) {
        ModLocation::Listed(e) => {
            assert_eq!(e, "custom/save_server.mod.zip");
            assert_eq!(mod_path("/g", &ModLocation::Listed(e)), "/g/custom/save_server.mod.zip");
        }
        ModLocation::Default => panic!("should be listed"),
    }
}
