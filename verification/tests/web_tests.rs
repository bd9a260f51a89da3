use dol_save_server::api::save::layer_game_name as api_layer;
use dol_save_server::config::backup::Backup;
use dol_save_server::config::game::Game;
use dol_save_server::config::server::Server;
use dol_save_server::config::{Auth, Config};
use dol_save_server::web::game_name::{layer_game_name, set_name};
use dol_save_server::web::{
    blacklist_layer, content_type, is_asset, join_path, read_reply, route, web_path, ReadOutcome, WebRoute,
};

fn game_named(name: &str) -> Game {
    Game {
        name: name.to_string(),
        root: format!("/games/{name}"),
        index: format!("/games/{name}/main.html"),
        save_dir: format!("/saves/{name}"),
        init_mod: false,
    }
}

fn config(names: &[&str]) -> Config {
    Config {
        game: names.iter().map(|n| game_named(n)).collect(),
        server: Server::new("127.0.0.1:5000".into(), None, None, None, None).ok().unwrap(),
        auth: Auth::default(),
        backup: Backup::default(),
    }
}

#[test]
fn joins_like_std() {
    for (a, b) in [("/games/dol", "img/a.png"), ("/games/dol/", "x"), ("", "x"), ("base", "/abs")] {
        let expected = std::path::Path::new(a).join(b).to_string_lossy().to_string();
        assert_eq!(join_path(a, b), expected);
    }
}

#[test]
fn web_paths_drop_leading_slashes() {
    assert_eq!(web_path("/dol/img/a.png"), "dol/img/a.png");
    assert_eq!(web_path("//x"), "x");
    assert_eq!(web_path("/"), "");
}

#[test]
fn routing_game_files() {
    let cfg = config(&["dol", "other"]);
    match route(&cfg, &None, "", &vec![]) {
        WebRoute::Redirect(to) => assert_eq!(to, "/game.html"),
        _ => panic!("expected redirect"),
    }
    match route(&cfg, &Some("other".into()), "other", &vec![]) {
        WebRoute::File(p) => assert_eq!(p, "/games/other/main.html"),
        _ => panic!("expected file"),
    }
    match route(&cfg, &Some("other".into()), "img/a.png", &vec![]) {
        WebRoute::File(p) => assert_eq!(p, "/games/other/img/a.png"),
        _ => panic!("expected file"),
    }
    match route(&cfg, &Some("missing".into()), "img/a.png", &vec![]) {
        WebRoute::File(p) => assert_eq!(p, "/games/dol/img/a.png"),
        _ => panic!("expected file"),
    }
    match route(&cfg, &None, "dol", &vec![]) {
        WebRoute::File(p) => assert_eq!(p, "/games/dol/main.html"),
        _ => panic!("expected file"),
    }
}

#[test]
fn empty_path_redirects_without_games() {
    let cfg = config(&[]);
    match route(&cfg, &None, "", &vec![]) {
        WebRoute::Redirect(to) => assert_eq!(to, "/game.html"),
        _ => panic!("expected redirect"),
    }
}

#[test]
fn built_in_assets_come_first() {
    let cfg = config(&["dol"]);
    let assets = vec!["game.html".to_string(), "js/app.js".to_string()];
    assert!(matches!(route(&cfg, &None, "game.html", &assets), WebRoute::Embedded));
    assert!(matches!(route(&cfg, &None, "js/app.js", &assets), WebRoute::Embedded));
    assert!(matches!(route(&cfg, &None, "js/other.js", &assets), WebRoute::File(_)));
    let empty = config(&[]);
    assert!(matches!(route(&empty, &None, "game.html", &assets), WebRoute::Embedded));
    assert!(is_asset(&assets, "game.html"));
    assert!(!is_asset(&assets, "GAME.html"));
}

#[test]
fn content_types_from_mime_guess() {
    assert_eq!(content_type("/games/dol/index.html"), "text/html");
    assert_eq!(content_type("a/b.png"), "image/png");
    assert_eq!(content_type("a/b.JS"), "text/javascript");
    assert_eq!(content_type("a/noext"), "text/plain");
    assert_eq!(content_type("a/b.unknownext"), "text/plain");
}

#[test]
fn read_replies() {
    let r = read_reply(ReadOutcome::Read);
    assert_eq!(r.status, 200);
    let r = read_reply(ReadOutcome::Missing);
    assert_eq!((r.status, r.message.as_str()), (404, ""));
    let r = read_reply(ReadOutcome::Failed);
    assert_eq!((r.status, r.message.as_str()), (500, "读取文件时发生错误"));
}

#[test]
fn blacklist_answers_not_found() {
    let cfg = config(&["dol"]);
    let r = blacklist_layer(&cfg.server, "/dol_save_server.toml").unwrap();
    assert_eq!((r.status, r.message.as_str()), (404, "Not Found"));
    assert!(blacklist_layer(&cfg.server, "/dol/index.html").is_none());
}

#[test]
fn game_name_from_referer_or_path() {
    let cfg = config(&["dol", "other"]);
    let g = layer_game_name(&cfg, Some("http://127.0.0.1:5000/other/".into()), "/api/save");
    assert_eq!(g.0, Some("other".to_string()));
    let g = layer_game_name(&cfg, Some("http://127.0.0.1:5000/nothing".into()), "/dol");
    assert_eq!(g.0, Some("dol".to_string()));
    let g = layer_game_name(&cfg, Some("not a uri".into()), "/dol/");
    assert_eq!(g.0, Some("dol".to_string()));
    let g = layer_game_name(&cfg, None, "/api/save");
    assert_eq!(g.0, None);
    let mut name = Some("keep".to_string());
    set_name(&cfg, "/", &mut name);
    assert_eq!(name, Some("keep".to_string()));
    set_name(&cfg, "/other", &mut name);
    assert_eq!(name, Some("other".to_string()));
}

#[test]
fn resolved_games_pass_the_save_api() {
    let cfg = config(&["dol", "other"]);
    for (referer, path) in [(Some("http://h/other"), "/x"), (None, "/dol"), (Some("http://h/"), "/other/")] {
        let g = layer_game_name(&cfg, referer.map(|s| s.to_string()), path);
        assert!(g.0.is_some());
        assert!(api_layer(&cfg, g.0).is_ok());
    }
}
