use dol_save_server::path::{extension, extension_of_name, file_name};
use dol_save_server::text::{
    chars_of, concat_str, decimal_string, string_of, trim_char,
    trim_start_char,
};

#[test]
fn decimal_writes_digits() {
    assert_eq!(decimal_string(0), "0");
    assert_eq!(decimal_string(7), "7");
    assert_eq!(decimal_string(1234), "1234");
    assert_eq!(decimal_string(u64::MAX), u64::MAX.to_string());
}

#[test]
fn trimming_matches_std() {
    for s in ["", "/", "//", "/a/b//", "a", "/dol/", "x/y"] {
        assert_eq!(trim_char(s, '/'), s.trim_matches('/'));
        assert_eq!(trim_start_char(s, '/'), s.trim_start_matches('/'));
    }
}

#[test]
fn chars_round_trip() {
    let s = "存档 save-01";
    assert_eq!(string_of(&chars_of(s)), s);
    assert_eq!(concat_str("ab", "cd"), "abcd");
}

#[test]
fn file_names_follow_std_path() {
    for p in ["a/b.txt", "a/b/", "/", "", "a/..", "a/.", "./a", ".", "..", "a//b", "/x/y.save", "foo.txt/.//"] {
        let expected = std::path::Path::new(p).file_name().map(|s| s.to_string_lossy().to_string());
        assert_eq!(file_name(p), expected, "path {p:?}");
    }
}

#[test]
fn extensions_follow_std_path() {
    for p in ["a/b.tar.gz", ".bashrc", "foo.", "noext", "dir.d/file", "x/y.save", "a/..", "..."] {
        let expected = std::path::Path::new(p).extension().map(|s| s.to_string_lossy().to_string());
        assert_eq!(extension(p), expected, "path {p:?}");
    }
    assert_eq!(extension_of_name("new-a-01.save"), Some("save".to_string()));
    assert_eq!(extension_of_name(".save"), None);
}
