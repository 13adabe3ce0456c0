use std::path::Path;

use file_service::common::constant::{
    body_size_limit, chromium_sandboxed, conn_timeout_secs, parse_unsigned, setting_or,
    thumb_dimension,
};
use file_service::path::{extension, file_name, join, name_ext, name_stem_of, renamed};
use file_service::text::{
    text_concat, text_concat3, eq_ignore_ascii_case, find_last, same_text, starts_with, substring,
    u64_to_decimal,
};

#[test]
fn ascii_case_comparison() {
    assert!(eq_ignore_ascii_case("Image/PNG", "image/png"));
    assert!(eq_ignore_ascii_case("", ""));
    assert!(!eq_ignore_ascii_case("image/png", "image/pn"));
    assert!(!eq_ignore_ascii_case("image/jpg", "image/gif"));
    assert!(eq_ignore_ascii_case("ÄB", "Äb"));
    assert!(!eq_ignore_ascii_case("ä", "Ä"));
}

#[test]
fn prefixes_and_text() {
    assert!(starts_with("image/png", "image"));
    assert!(starts_with("image", "image"));
    assert!(!starts_with("imag", "image"));
    assert!(!starts_with("Image/png", "image"));
    assert!(same_text("abc", "abc"));
    assert!(!same_text("abc", "abd"));
    assert_eq!(text_concat("ab", "cd"), "abcd");
    assert_eq!(text_concat3("a", "/", "b"), "a/b");
    assert_eq!(substring("héllo", 1, 3), "él");
    assert_eq!(find_last("a.b.c", '.'), Some(3));
    assert_eq!(find_last("abc", '.'), None);
}

#[test]
fn decimal_rendering() {
    for n in [0u64, 7, 10, 99, 100, 123456789, u64::MAX] {
        assert_eq!(u64_to_decimal(n), n.to_string());
    }
}

fn std_file_name(p: &str) -> Option<String> {
    Path::new(p).file_name().map(|s| s.to_string_lossy().to_string())
}

fn std_extension(p: &str) -> Option<String> {
    Path::new(p).extension().map(|s| s.to_string_lossy().to_string())
}

const PATHS: &[&str] = &[
    "", "/", ".", "..", "a", "a.txt", "/tmp/a.txt", "/tmp/a.tar.gz", "foo.txt/.", "foo.txt/.//",
    "foo.txt/..", "dir/", "dir//", ".bashrc", ".a.b", "a.", "/.", "./", "./x.png", "a/./b.jpg",
    "archive.", "..x", "x..", "/a/b/..",
];

#[test]
fn file_names_match_std() {
    for p in PATHS {
        assert_eq!(file_name(p), std_file_name(p), "file name of {p:?}");
    }
}

#[test]
fn extensions_match_std() {
    for p in PATHS {
        assert_eq!(extension(p), std_extension(p), "extension of {p:?}");
    }
    assert_eq!(name_ext("report.pdf"), Some("pdf".to_string()));
    assert_eq!(name_ext(".hidden"), None);
    assert_eq!(name_stem_of("report.final.pdf"), "report.final");
    assert_eq!(name_stem_of(".hidden"), ".hidden");
}

#[test]
fn joins_match_std() {
    let cases = [("/share", "a.txt"), ("/share/", "a.txt"), ("", "a.txt"), ("/share", "/etc/x"), ("rel", "b"), ("a", "")];
    for (base, name) in cases {
        let expected = Path::new(base).join(name).display().to_string();
        assert_eq!(join(base, name), expected, "join of {base:?} and {name:?}");
    }
}

#[test]
fn renamed_matches_std() {
    for p in ["/tmp/in.docx", "in", "a/b.tar.gz", "dir/.hidden", "x/.", "x/..", "/"] {
        let expected = Path::new(p)
            .with_extension("png")
            .file_name()
            .map(|s| s.to_string_lossy().to_string());
        assert_eq!(renamed(p, "png"), expected, "renamed {p:?}");
    }
}

#[test]
fn unsigned_parsing_matches_std() {
    let inputs = [
        "", "0", "+0", "+", "-1", "42", "007", " 1", "1 ", "1_0", "4294967295", "4294967296",
        "18446744073709551615", "18446744073709551616", "99999999999999999999999", "+18446744073709551615", "1a",
    ];
    for s in inputs {
        assert_eq!(parse_unsigned(s, u64::MAX), s.parse::<u64>().ok(), "u64 {s:?}");
        assert_eq!(parse_unsigned(s, u32::MAX as u64).map(|v| v as u32), s.parse::<u32>().ok(), "u32 {s:?}");
    }
}

#[test]
fn settings_from_environment_text() {
    assert_eq!(thumb_dimension(None), 300);
    assert_eq!(thumb_dimension(Some("128".into())), 128);
    assert_eq!(thumb_dimension(Some("wide".into())), 300);
    assert_eq!(thumb_dimension(Some("4294967296".into())), 300);
    assert_eq!(conn_timeout_secs(Some("30".into())), Some(30));
    assert_eq!(conn_timeout_secs(Some("-3".into())), None);
    assert_eq!(conn_timeout_secs(None), None);
    assert_eq!(body_size_limit(None, "1024"), Some(1024));
    assert_eq!(body_size_limit(Some("52428800".into()), "1024"), Some(52428800));
    assert_eq!(body_size_limit(Some("big".into()), "1024"), None);
    assert!(chromium_sandboxed(Some("true".into())));
    assert!(!chromium_sandboxed(Some("True".into())));
    assert!(!chromium_sandboxed(Some("false".into())));
    assert!(!chromium_sandboxed(None));
    assert_eq!(setting_or(None, "Europe/Brussels"), "Europe/Brussels");
    assert_eq!(setting_or(Some("UTC".into()), "Europe/Brussels"), "UTC");
}
