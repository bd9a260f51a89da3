use base64::Engine;
use dol_save_server::api::auth::{check_login, find_account, login_reply, User as Login};
use dol_save_server::api::game::list as game_list;
use dol_save_server::api::save::code::{code, CodeRead};
use dol_save_server::api::save::list::{is_save_file, list as list_saves, DirEntry};
use dol_save_server::api::save::remove::{remove, RemoveOutcome};
use dol_save_server::api::save::save::{encode_save, save_file_name, save_reply, SaveOutcome};
use dol_save_server::api::save::{find_game, game, layer_game_name, user_save_dir, user_save_file};
use dol_save_server::api::{auth_layer, requires_login, Access, SESSION_KEY};
use dol_save_server::config::backup::Backup;
use dol_save_server::config::game::Game;
use dol_save_server::config::server::Server;
use dol_save_server::config::{Auth, Config, User};

fn account(name: &str, password: &str) -> User {
    User { username: name.to_string(), password: password.to_string() }
}

fn login(name: &str, password: &str) -> Login {
    Login { username: name.to_string(), password: password.to_string() }
}

fn game_named(name: &str) -> Game {
    Game {
        name: name.to_string(),
        root: format!("/games/{name}"),
        index: format!("/games/{name}/index.html"),
        save_dir: format!("/saves/{name}"),
        init_mod: false,
    }
}

fn config(names: &[&str]) -> Config {
    Config {
        game: names.iter().map(|n| game_named(n)).collect(),
        server: Server::new("127.0.0.1:5000".into(), None, None, None, None).ok().unwrap(),
        auth: Auth::default(),
        backup: Backup::default(),
    }
}

#[test]
fn login_checks_first_account_with_the_name() {
    let users = vec![account("a", "1"), account("b", "2"), account("a", "3")];
    assert!(check_login(&users, &login("a", "1")));
    assert!(check_login(&users, &login("b", "2")));
    assert!(!check_login(&users, &login("a", "3")));
    assert!(!check_login(&users, &login("c", "1")));
    assert!(!check_login(&vec![], &login("a", "1")));
    assert_eq!(find_account(&users, &"a".to_string()), Some(0));
    assert_eq!(find_account(&users, &"z".to_string()), None);
}

#[test]
fn login_replies() {
    let ok = login_reply(true, true);
    assert_eq!((ok.status, ok.message.as_str()), (200, "登录成功"));
    let bad = login_reply(true, false);
    assert_eq!((bad.status, bad.message.as_str()), (400, "用户名或密码错误"));
    let bad = login_reply(false, false);
    assert_eq!((bad.status, bad.message.as_str()), (400, "用户名或密码错误"));
}

#[test]
fn auth_layer_lets_everyone_in_when_off() {
    match auth_layer(false, None) {
        Access::Granted(u) => assert_eq!(u.0, ""),
        Access::Denied(_) => panic!("should pass"),
    }
    match auth_layer(true, Some("bob".into())) {
        Access::Granted(u) => assert_eq!(u.0, "bob"),
        Access::Denied(_) => panic!("should pass"),
    }
    match auth_layer(true, None) {
        Access::Denied(r) => assert_eq!((r.status, r.message.as_str()), (401, "需要登录")),
        Access::Granted(_) => panic!("should be refused"),
    }
    assert_eq!(SESSION_KEY, "user");
}

#[test]
fn login_requirement_by_path() {
    let off = Auth::default();
    let api_only = Auth { enable: true, global: false, users: vec![] };
    let global = Auth { enable: true, global: true, users: vec![] };
    assert!(!requires_login(&off, "/api/save"));
    assert!(requires_login(&api_only, "/api/save"));
    assert!(!requires_login(&api_only, "/dol/index.html"));
    assert!(!requires_login(&api_only, "/api/login"));
    assert!(!requires_login(&api_only, "/api/pwa/enabled"));
    assert!(requires_login(&global, "/dol/index.html"));
    assert!(!requires_login(&global, "/api/login"));
}

#[test]
fn game_list_and_selection() {
    let cfg = config(&["dol", "other"]);
    let l = game_list(&cfg, Some("dol".into()));
    assert_eq!(l.list, vec!["dol".to_string(), "other".to_string()]);
    assert_eq!(l.current, Some("dol".to_string()));
    assert_eq!(find_game(&cfg, "other"), Some(1));
    assert_eq!(find_game(&cfg, "none"), None);
    assert_eq!(game("other", &cfg).name, "other");
    assert_eq!(game("none", &cfg).name, "dol");
    assert!(layer_game_name(&cfg, Some("other".into())).is_ok());
    let r = layer_game_name(&cfg, Some("none".into())).err().unwrap();
    assert_eq!((r.status, r.message.as_str()), (404, "未找到对应游戏"));
    assert!(layer_game_name(&cfg, None).is_err());
    assert_eq!(user_save_dir(&cfg, "other", "bob"), "/saves/other/bob");
    assert_eq!(user_save_file(&cfg, "none", "bob", "x.save"), "/saves/dol/bob/x.save");
}

#[test]
fn mod_setup_unless_skipped() {
    let mut g = game_named("dol");
    assert!(g.installs_mod());
    g.init_mod = true;
    assert!(!g.installs_mod());
}

#[test]
fn save_file_names() {
    assert_eq!(save_file_name("Alice", 3, true), "new-Alice-3.save");
    assert_eq!(save_file_name("Bob", 12, false), "old-Bob-12.save");
    assert_eq!(save_file_name("角色", 0, true), "new-角色-0.save");
}

#[test]
fn saved_files_are_listed() {
    let name = save_file_name("Alice", 3, true);
    assert!(is_save_file(true, &name));
    assert!(!is_save_file(false, &name));
    assert!(!is_save_file(true, "notes.txt"));
    let entries = vec![
        DirEntry { name: name.clone(), is_file: true, time: " t1".into() },
        DirEntry { name: "dir.save".into(), is_file: false, time: " t2".into() },
        DirEntry { name: "a.txt".into(), is_file: true, time: " t3".into() },
        DirEntry { name: "old-B-01.save".into(), is_file: true, time: " t4".into() },
    ];
    let saves = list_saves(entries);
    let got: Vec<(String, String)> = saves.into_iter().map(|s| (s.name, s.time)).collect();
    assert_eq!(got, vec![(name, " t1".to_string()), ("old-B-01.save".to_string(), " t4".to_string())]);
}

fn reference_encoding(save: &str, story: &str) -> String {
    let engine = base64::prelude::BASE64_STANDARD;
    let mut data = engine.encode(lz_str::compress_to_uint8_array(save));
    let metadata = format!("{{ \"{}\": {} }}", story, data.len());
    data += &engine.encode(lz_str::compress_to_uint8_array(metadata.as_str()));
    data
}

#[test]
fn save_encoding_matches_the_format() {
    for (save, story) in [("", ""), ("hello world", "dol"), ("{\"a\":[1,2,3]}", "Degrees of Lewdity"), ("存档", "游戏")] {
        let got = encode_save(save, story);
        assert_eq!(got, reference_encoding(save, story));
        assert_ne!(got, format!("{save}{story}"));
    }
}

#[test]
fn base64_of_known_bytes() {
    let data = base64::prelude::BASE64_STANDARD.encode(lz_str::compress_to_uint8_array("a"));
    assert!(encode_save("a", "s").starts_with(&data));
    assert!(data.len() % 4 == 0);
}

#[test]
fn save_replies() {
    let r = save_reply(SaveOutcome::DirFailed);
    assert_eq!((r.status, r.message.as_str()), (500, "创建存档目录失败"));
    let r = save_reply(SaveOutcome::WriteFailed);
    assert_eq!((r.status, r.message.as_str()), (500, "存档文件保存失败"));
    let r = save_reply(SaveOutcome::Saved);
    assert_eq!((r.status, r.message.as_str()), (200, "存档保存成功"));
}

#[test]
fn code_and_remove_replies() {
    let r = code(CodeRead::Absent);
    assert_eq!((r.status, r.message.as_str()), (404, "存档文件不存在"));
    let r = code(CodeRead::Read("abc".into()));
    assert_eq!((r.status, r.message.as_str()), (200, "abc"));
    let r = code(CodeRead::Failed);
    assert_eq!((r.status, r.message.as_str()), (500, "读取存档文件失败"));
    let r = remove("x.save", RemoveOutcome::Removed);
    assert_eq!((r.status, r.message.as_str()), (200, "存档 x.save 已删除"));
    let r = remove("x.save", RemoveOutcome::Absent);
    assert_eq!((r.status, r.message.as_str()), (404, "存档文件不存在"));
    let r = remove("x.save", RemoveOutcome::Failed);
    assert_eq!((r.status, r.message.as_str()), (500, "存档删除失败"));
}

#[test]
fn fetch_gives_back_the_stored_save() {
    let cfg = config(&["dol"]);
    let file = save_file_name("Alice", 3, true);
    let written_at = user_save_file(&cfg, "dol", "u", &file);
    let content = encode_save("the save", "dol");
    let mut files = std::collections::HashMap::new();
    files.insert(written_at, content.clone());
    let read_at = user_save_file(&cfg, "dol", "u", &file);
    let r = code(CodeRead::Read(files[&read_at].clone()));
    assert_eq!((r.status, r.message), (200, content));
}
