use zoxide_posix::hook::{
    hook_prompt, hook_pwd, hook_pwd_with_token, render_hook_pwd, EncodingError,
};
use zoxide_posix::paths::SessionTempPaths;
use zoxide_posix::quoting::unquote;

const TOKEN: &str = "a1a2a3a4-b1b2-4c1c-8d1d-d3d4d5d6d7d8";

fn pwd_script(tmp_dir_word: &str, pwd_path_word: &str) -> String {
    let head = r#"
# PWD hooks in POSIX use a temporary file, located at `$_ZO_PWD_PATH`, to track
# changes in the current directory. These files are removed upon restart,
# but they should ideally also be cleaned up once the shell exits using traps.
#
# This can be done as follows:
#
# trap '_zoxide_cleanup' EXIT HUP KILL TERM
# trap '_zoxide_cleanup; trap - INT; kill -s INT "$$"' INT
# trap '_zoxide_cleanup; trap - QUIT; kill -s QUIT "$$"' QUIT
#
# By default, traps are not set up because they override all previous traps.
# It is therefore up to the user to add traps to their shell configuration.

_ZO_TMP_PATH="#;
    let body = r#"

_zoxide_cleanup() {
    rm -f "$_ZO_PWD_PATH"
}

_zoxide_setpwd() {
    mkdir -p "$_ZO_TMP_PATH"
    echo "$PWD" > "$_ZO_PWD_PATH"
}

_zoxide_setpwd

_zoxide_hook() {
    _ZO_OLDPWD="$(cat "$_ZO_PWD_PATH")"
    if [ -z "$_ZO_OLDPWD" ] || [ "$_ZO_OLDPWD" != "$PWD" ]; then
        _zoxide_setpwd && zoxide add > /dev/null 2>&1
    fi
}

case "$PS1" in
    *\$\(_zoxide_hook\)*) ;;
    *) PS1="${PS1}\$(_zoxide_hook)" ;;
esac"#;
    format!("{head}{tmp_dir_word}\n_ZO_PWD_PATH={pwd_path_word}{body}")
}

fn assigned<'a>(script: &'a str, variable: &str) -> &'a str {
    let start = format!("\n{variable}=");
    let from = script.find(&start).unwrap() + start.len();
    let len = script[from..].find("\n\n").or(script[from..].find('\n')).unwrap();
    let line = &script[from..from + len];
    line.lines().next().unwrap()
}

#[test]
fn prompt_hook_text() {
    let expected = r#"
_zoxide_hook() {
    zoxide add
}

case "$PS1" in
    *\$\(_zoxide_hook\)*) ;;
    *) PS1="${PS1}\$(_zoxide_hook)" ;;
esac
"#;
    assert_eq!(hook_prompt(), expected);
}

#[test]
fn pwd_hook_text() {
    let script = hook_pwd_with_token(b"/tmp", TOKEN).unwrap();
    assert_eq!(
        script,
        pwd_script(
            "'/tmp/zoxide'",
            "'/tmp/zoxide/pwd-a1a2a3a4-b1b2-4c1c-8d1d-d3d4d5d6d7d8'"
        )
    );
}

#[test]
fn pwd_hook_root_with_trailing_separator() {
    let script = hook_pwd_with_token(b"/var/tmp/", TOKEN).unwrap();
    assert_eq!(assigned(&script, "_ZO_TMP_PATH"), "'/var/tmp/zoxide'");
    assert_eq!(
        assigned(&script, "_ZO_PWD_PATH"),
        "'/var/tmp/zoxide/pwd-a1a2a3a4-b1b2-4c1c-8d1d-d3d4d5d6d7d8'"
    );
}

#[test]
fn pwd_hook_root_directory() {
    let script = hook_pwd_with_token(b"/", "t").unwrap();
    assert_eq!(assigned(&script, "_ZO_TMP_PATH"), "'/zoxide'");
    assert_eq!(assigned(&script, "_ZO_PWD_PATH"), "'/zoxide/pwd-t'");
}

#[test]
fn pwd_hook_empty_root() {
    let script = hook_pwd_with_token(b"", "t").unwrap();
    assert_eq!(script, pwd_script("'zoxide'", "'zoxide/pwd-t'"));
}

#[test]
fn pwd_hook_quotes_the_paths() {
    let script = hook_pwd_with_token(b"/tmp/it's mine", TOKEN).unwrap();
    assert_eq!(
        script,
        pwd_script(
            r"'/tmp/it'\''s mine/zoxide'",
            r"'/tmp/it'\''s mine/zoxide/pwd-a1a2a3a4-b1b2-4c1c-8d1d-d3d4d5d6d7d8'"
        )
    );
    let tmp_dir = assigned(&script, "_ZO_TMP_PATH");
    assert_eq!(unquote(tmp_dir), Some("/tmp/it's mine/zoxide".to_string()));
}

#[test]
fn pwd_hook_keeps_backslashes_single() {
    let script = hook_pwd_with_token(br"/tmp/a\b", "t").unwrap();
    assert_eq!(assigned(&script, "_ZO_TMP_PATH"), r"'/tmp/a\b/zoxide'");
    assert_eq!(assigned(&script, "_ZO_PWD_PATH"), r"'/tmp/a\b/zoxide/pwd-t'");
}

#[test]
fn pwd_hook_decodes_the_root() {
    let script = hook_pwd_with_token("/tmp/données/日本".as_bytes(), "t").unwrap();
    assert_eq!(assigned(&script, "_ZO_TMP_PATH"), "'/tmp/données/日本/zoxide'");
    assert_eq!(
        assigned(&script, "_ZO_PWD_PATH"),
        "'/tmp/données/日本/zoxide/pwd-t'"
    );
}

#[test]
fn pwd_hook_refuses_root_that_is_not_text() {
    assert_eq!(hook_pwd_with_token(b"/tmp/\xff", TOKEN), Err(EncodingError));
    assert_eq!(hook_pwd_with_token(b"\xc3", TOKEN), Err(EncodingError));
    assert_eq!(hook_pwd_with_token(b"/tmp/\xed\xa0\x80", TOKEN), Err(EncodingError));
    assert_eq!(hook_pwd_with_token(b"/tmp/\xc0\xaf", TOKEN), Err(EncodingError));
    assert_eq!(hook_pwd(b"/tmp/\xff"), Err(EncodingError));
}

#[test]
fn encoding_error_message() {
    assert_eq!(EncodingError.message(), "invalid Unicode in zoxide tmp path");
}

#[test]
fn pwd_hook_from_paths() {
    let paths = SessionTempPaths::new("/run/user/1000", "x");
    assert_eq!(
        render_hook_pwd(&paths),
        pwd_script("'/run/user/1000/zoxide'", "'/run/user/1000/zoxide/pwd-x'")
    );
}

#[test]
fn new_session_token_is_a_random_identifier() {
    let script = hook_pwd(b"/tmp").unwrap();
    assert_eq!(assigned(&script, "_ZO_TMP_PATH"), "'/tmp/zoxide'");
    let word = assigned(&script, "_ZO_PWD_PATH");
    let path = unquote(word).unwrap();
    let token = path.strip_prefix("/tmp/zoxide/pwd-").unwrap();
    assert_eq!(token.len(), 36);
    for (i, c) in token.chars().enumerate() {
        if i == 8 || i == 13 || i == 18 || i == 23 {
            assert_eq!(c, '-');
        } else {
            assert!(matches!(c, '0'..='9' | 'a'..='f'), "{c:?} at {i}");
        }
    }
    assert_eq!(token.as_bytes()[14], b'4');
    assert!(matches!(token.as_bytes()[19], b'8' | b'9' | b'a' | b'b'));
    let id = uuid::Uuid::parse_str(token).unwrap();
    assert_eq!(id.get_version_num(), 4);
    assert_eq!(id.to_string(), token);
    assert_eq!(script, hook_pwd_with_token(b"/tmp", token).unwrap());
}

#[test]
fn two_sessions_get_distinct_cache_files() {
    let first = hook_pwd(b"/tmp").unwrap();
    let second = hook_pwd(b"/tmp").unwrap();
    assert_eq!(assigned(&first, "_ZO_TMP_PATH"), assigned(&second, "_ZO_TMP_PATH"));
    assert_ne!(assigned(&first, "_ZO_PWD_PATH"), assigned(&second, "_ZO_PWD_PATH"));
    assert_ne!(first, second);
}

#[test]
fn distinct_tokens_give_distinct_scripts() {
    let a = hook_pwd_with_token(b"/tmp", "a1a2a3a4-b1b2-4c1c-8d1d-d3d4d5d6d7d8").unwrap();
    let b = hook_pwd_with_token(b"/tmp", "a1a2a3a4-b1b2-4c1c-8d1d-d3d4d5d6d7d9").unwrap();
    assert_ne!(a, b);
    assert_ne!(assigned(&a, "_ZO_PWD_PATH"), assigned(&b, "_ZO_PWD_PATH"));
}

#[test]
fn both_variants_end_in_the_same_guard() {
    let guard = r#"case "$PS1" in
    *\$\(_zoxide_hook\)*) ;;
    *) PS1="${PS1}\$(_zoxide_hook)" ;;
esac"#;
    assert!(hook_prompt().ends_with(&format!("{guard}\n")));
    assert!(hook_pwd_with_token(b"/tmp", TOKEN).unwrap().ends_with(guard));
}

#[test]
fn cleanup_is_defined_and_never_called() {
    let script = hook_pwd_with_token(b"/tmp", TOKEN).unwrap();
    let uses: Vec<&str> = script
        .lines()
        .filter(|l| l.contains("_zoxide_cleanup") && !l.starts_with('#'))
        .collect();
    assert_eq!(uses, vec!["_zoxide_cleanup() {"]);
    assert!(!script.lines().any(|l| l.trim_start().starts_with("trap ")));
}

#[test]
fn pwd_hook_discards_all_output_of_add() {
    let script = hook_pwd_with_token(b"/tmp", TOKEN).unwrap();
    let calls: Vec<&str> = script
        .lines()
        .filter(|l| l.contains("zoxide add") && !l.starts_with('#'))
        .collect();
    assert_eq!(calls, vec!["        _zoxide_setpwd && zoxide add > /dev/null 2>&1"]);
}

#[test]
fn prompt_hook_shows_what_add_prints() {
    let script = hook_prompt();
    let calls: Vec<&str> = script.lines().filter(|l| l.contains("zoxide add")).collect();
    assert_eq!(calls, vec!["    zoxide add"]);
}

#[test]
fn guard_appends_the_call_to_the_prompt() {
    for script in [hook_prompt(), hook_pwd_with_token(b"/tmp", TOKEN).unwrap()] {
        let sets: Vec<&str> = script.lines().filter(|l| l.contains("PS1=")).collect();
        assert_eq!(sets, vec![r#"    *) PS1="${PS1}\$(_zoxide_hook)" ;;"#]);
    }
}
