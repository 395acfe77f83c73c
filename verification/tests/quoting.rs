use zoxide_posix::quoting::{quote, unquote};

#[test]
fn quote_plain_path() {
    assert_eq!(quote("/tmp/zoxide"), "'/tmp/zoxide'");
}

#[test]
fn quote_empty_string() {
    assert_eq!(quote(""), "''");
}

#[test]
fn quote_single_quote() {
    assert_eq!(quote("it's"), r"'it'\''s'");
    assert_eq!(quote("'"), r"''\'''");
    assert_eq!(quote("''"), r"''\'''\'''");
}

#[test]
fn quote_leaves_backslash_alone() {
    assert_eq!(quote(r"a\b"), r"'a\b'");
    assert_eq!(quote(r"\"), r"'\'");
    assert_eq!(quote(r"C:\Temp\zoxide"), r"'C:\Temp\zoxide'");
    assert_eq!(quote(r"\'"), r"'\'\'''");
}

#[test]
fn quote_keeps_blanks_and_newlines() {
    assert_eq!(quote("a b\tc\nd"), "'a b\tc\nd'");
}

#[test]
fn quote_keeps_shell_syntax_inert() {
    assert_eq!(quote("$(rm -rf ~); `id` \"x\" #"), "'$(rm -rf ~); `id` \"x\" #'");
}

#[test]
fn quote_non_ascii() {
    assert_eq!(quote("/tmp/données/日本"), "'/tmp/données/日本'");
}

#[test]
fn quote_round_trip() {
    let samples = [
        "",
        "plain",
        "/tmp/zoxide/pwd-1234",
        "it's",
        "'",
        "''''",
        r"back\slash",
        r"\'\'",
        "line\nbreak",
        "tab\tand space",
        "naïve café 日本語 🦀",
        "$HOME; echo `x` \"y\" | z & (a) <b >c * ? [d] ~ # !",
    ];
    for s in samples {
        assert_eq!(unquote(&quote(s)), Some(s.to_string()), "{s:?}");
    }
}

#[test]
fn quote_is_one_to_one() {
    assert_ne!(quote("a'b"), quote(r"a'\''b"));
    assert_ne!(quote(""), quote(" "));
    assert_ne!(quote(r"a\b"), quote(r"a\\b"));
}

#[test]
fn unquote_reads_quoted_parts() {
    assert_eq!(unquote(""), Some(String::new()));
    assert_eq!(unquote("''"), Some(String::new()));
    assert_eq!(unquote("'a''b'"), Some("ab".to_string()));
    assert_eq!(unquote(r"'a\b'"), Some(r"a\b".to_string()));
    assert_eq!(unquote("'a\nb'"), Some("a\nb".to_string()));
}

#[test]
fn unquote_reads_escaped_characters() {
    assert_eq!(unquote(r"\'"), Some("'".to_string()));
    assert_eq!(unquote(r"\\"), Some(r"\".to_string()));
    assert_eq!(unquote(r"\a\ \$"), Some("a $".to_string()));
    assert_eq!(unquote(r"'a'\''b'"), Some("a'b".to_string()));
}

#[test]
fn unquote_refuses_other_text() {
    assert_eq!(unquote("a"), None);
    assert_eq!(unquote("'a'b"), None);
    assert_eq!(unquote("'a' 'b'"), None);
    assert_eq!(unquote("\"a\""), None);
}

#[test]
fn unquote_refuses_open_quote() {
    assert_eq!(unquote("'"), None);
    assert_eq!(unquote("'abc"), None);
    assert_eq!(unquote("'a''"), None);
    assert_eq!(unquote(r"'a'\''"), None);
}

#[test]
fn unquote_refuses_lone_backslash() {
    assert_eq!(unquote(r"\"), None);
    assert_eq!(unquote(r"'a'\"), None);
    assert_eq!(unquote("\\\n"), None);
    assert_eq!(unquote("\\\n'a'"), None);
}
