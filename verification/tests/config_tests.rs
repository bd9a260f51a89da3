use dol_save_server::config::backup::{default_period, Backup, BackupMethod, Period};
use dol_save_server::config::server::{default_blacklist, Blacklist, Server, Tls};
use dol_save_server::config::game::Game;
use dol_save_server::config::{fmt_hide, hidden_text, Auth};

#[test]
fn default_period_is_one_hour() {
    let p = default_period();
    assert_eq!((p.secs, p.nanos), (3600, 0));
}

#[test]
fn default_backup_goes_to_backup_dir() {
    match BackupMethod::default() {
        BackupMethod::Fs { dir } => assert_eq!(dir, "backup"),
        _ => panic!("expected a directory"),
    }
    let b = Backup::default();
    assert!(!b.enable);
    assert!(!b.backup_on_start);
    assert_eq!((b.period.secs, b.period.nanos), (0, 0));
    assert_eq!(b.title, "");
}

#[test]
fn backup_new_fills_defaults() {
    let b = Backup::new(true, None, false, BackupMethod::Fs { dir: "x".to_string() }, None);
    assert_eq!((b.period.secs, b.period.nanos), (3600, 0));
    let b = Backup::new(true, Some(Period { secs: 5, nanos: 1 }), true, BackupMethod::default(), Some("T".into()));
    assert_eq!((b.period.secs, b.period.nanos), (5, 1));
    assert_eq!(b.title, "T");
}

#[test]
fn period_order() {
    let a = Period { secs: 1, nanos: 999_999_999 };
    let b = Period { secs: 2, nanos: 0 };
    assert!(a.le(&b));
    assert!(!b.le(&a));
    assert!(a.le(&a));
}

#[test]
fn default_auth_is_off() {
    let a = Auth::default();
    assert!(!a.enable && !a.global && a.users.is_empty());
}

#[test]
fn default_blacklist_hides_toml_files() {
    assert_eq!(default_blacklist(), vec![".*\\.toml".to_string()]);
    let s = Server::new("127.0.0.1:5000".into(), None, None, None, None).ok().unwrap();
    assert!(s.blacklist.is_match("/dol_save_server.toml"));
    assert!(s.blacklist.is_match("/CONFIG.TOML"));
    assert!(!s.blacklist.is_match("/index.html"));
    assert!(!s.cors && !s.pwa_enabled && !s.tls.enable);
    assert_eq!(s.bind, "127.0.0.1:5000");
}

#[test]
fn invalid_blacklist_pattern_is_refused() {
    let r = Server::new("0.0.0.0:1".into(), Some(true), Some(vec!["ok".into(), "(".into(), "[".into()]), None, Some(true));
    assert_eq!(r.err(), Some("(".to_string()));
    assert_eq!(Blacklist::new(vec!["(".into()]).err(), Some("(".to_string()));
    let b = Blacklist::new(vec![]).ok().unwrap();
    assert!(!b.is_match("anything"));
}

#[test]
fn tls_default_is_off() {
    let t = Tls::default();
    assert!(!t.enable && t.key.is_empty() && t.cert.is_empty());
}

struct Secret;

impl std::fmt::Debug for Secret {
    fn fmt(&self, f: &mut std::fmt::Formatter<'_>) -> std::fmt::Result {
        fmt_hide(self, f)
    }
}

#[test]
fn fmt_hide_writes_stars() {
    assert_eq!(format!("{:?}", Secret), "***");
}

#[test]
fn hidden_text_is_stars() {
    assert_eq!(hidden_text(), "***");
}

#[test]
fn game_init_picks_index() {
    let mut g = Game {
        name: "dol".into(),
        root: "/g".into(),
        index: "i.html".into(),
        save_dir: "save".into(),
        init_mod: false,
    };
    g.init("/abs/save".into(), None, vec!["/g/a.html".into(), "/g/b.html".into()]);
    assert_eq!(g.index, "/g/a.html");
    assert_eq!(g.save_dir, "/abs/save");
    g.init("/abs/save".into(), Some("/g/i.html".into()), vec![]);
    assert_eq!(g.index, "/g/i.html");
    assert_eq!(g.name, "dol");
}
