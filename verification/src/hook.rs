use vstd::prelude::*;
use vstd::string::*;
use vstd::utf8::*;
use crate::guard::{guard_script, render_guard};
use crate::paths::{lemma_tokens_part_paths, pwd_path_of, tmp_dir_of, SessionTempPaths};
use crate::quoting::{lemma_quote_injective, quote, quoted};
use crate::text::utf8_text;
use crate::token::{fresh_token, is_session_token};

verus! {

/// The hook of the prompt variant: it records the directory every time the
/// prompt is drawn.
pub const PROMPT_HOOK: &'static str = r#"
_zoxide_hook() {
    zoxide add
}

"#;

/// How the file-tracked variant begins: a note to the user on cleaning up
/// when the shell exits, which the script leaves to them.
pub const PWD_HOOK_NOTE: &'static str = r#"
# PWD hooks in POSIX use a temporary file, located at `$_ZO_PWD_PATH`, to track
# changes in the current directory. These files are removed upon restart,
# but they should ideally also be cleaned up once the shell exits using traps.
#
# This can be done as follows:
#
# trap '_zoxide_cleanup' EXIT HUP KILL TERM
# trap '_zoxide_cleanup; trap - INT; kill -s INT "$$"' INT
# trap '_zoxide_cleanup; trap - QUIT; kill -s QUIT "$$"' QUIT
#
# By default, traps are not set up because they override all previous traps.
# It is therefore up to the user to add traps to their shell configuration.

"#;

/// The variable that holds the directory that all sessions share.
pub const TMP_PATH_VAR: &'static str = "_ZO_TMP_PATH";

/// The variable that holds the session's cache file.
pub const PWD_PATH_VAR: &'static str = "_ZO_PWD_PATH";

/// The file-tracked variant after the two variables: the clean-up
/// function, which nothing calls; the function that records the working
/// directory in the cache file, called once as the script loads; and the
/// hook, which records the directory and reports it only where the cache
/// is empty or differs from the working directory. What `add` prints, on
/// standard output or on standard error, is thrown away where it is
/// called, so that nothing of it reaches the prompt.
pub const PWD_HOOK_BODY: &'static str = r#"
_zoxide_cleanup() {
    rm -f "$_ZO_PWD_PATH"
}

_zoxide_setpwd() {
    mkdir -p "$_ZO_TMP_PATH"
    echo "$PWD" > "$_ZO_PWD_PATH"
}

_zoxide_setpwd

_zoxide_hook() {
    _ZO_OLDPWD="$(cat "$_ZO_PWD_PATH")"
    if [ -z "$_ZO_OLDPWD" ] || [ "$_ZO_OLDPWD" != "$PWD" ]; then
        _zoxide_setpwd && zoxide add > /dev/null 2>&1
    fi
}

"#;

/// How a change of directory is detected.
#[derive(Clone, Copy, Debug, PartialEq, Eq, Structural)]
pub enum HookVariant {
    /// Every drawing of the prompt counts as a change.
    Prompt,
    /// A file per session remembers the last directory; only a difference
    /// counts.
    FileTracked,
}

/// The temporary directory's path is not text, so it cannot stand in a
/// script.
#[derive(Clone, Copy, Debug, PartialEq, Eq, Structural)]
pub struct EncodingError;

/// What `EncodingError` says to a user.
pub const ENCODING_MESSAGE: &'static str = "invalid Unicode in zoxide tmp path";

impl EncodingError {
    pub fn message(&self) -> (text: String)
        ensures
            text@ == ENCODING_MESSAGE@,
    {
        String::from_str(ENCODING_MESSAGE)
    }
}

/// The prompt variant, as text.
pub open spec fn hook_prompt_script() -> Seq<char> {
    PROMPT_HOOK@ + guard_script() + seq!['\n']
}

/// The line that sets the variable `name` to `value`. The value stands in
/// it as a quoted word, so the shell reads it back as it is.
pub open spec fn assignment(name: Seq<char>, value: Seq<char>) -> Seq<char> {
    name + "="@ + quoted(value) + "\n"@
}

/// The file-tracked variant for a session with the given paths, as text.
pub open spec fn hook_pwd_script(tmp_dir: Seq<char>, pwd_path: Seq<char>) -> Seq<char> {
    PWD_HOOK_NOTE@ + assignment(TMP_PATH_VAR@, tmp_dir) + assignment(PWD_PATH_VAR@, pwd_path)
        + PWD_HOOK_BODY@ + guard_script()
}

/// The file-tracked variant for the session `token` below the temporary
/// directory whose path has the bytes `temp_root`; an error where those
/// bytes are not text.
pub open spec fn hook_pwd_for(temp_root: Seq<u8>, token: Seq<char>) -> Result<
    Seq<char>,
    EncodingError,
> {
    if valid_utf8(temp_root) {
        let root = decode_utf8(temp_root);
        Ok(hook_pwd_script(tmp_dir_of(root), pwd_path_of(root, token)))
    } else {
        Err(EncodingError)
    }
}

/// Sessions with different cache files get different scripts.
pub proof fn lemma_paths_part_scripts(tmp_dir: Seq<char>, a: Seq<char>, b: Seq<char>)
    requires
        a != b,
    ensures
        hook_pwd_script(tmp_dir, a) != hook_pwd_script(tmp_dir, b),
{
    let head = PWD_HOOK_NOTE@ + assignment(TMP_PATH_VAR@, tmp_dir) + PWD_PATH_VAR@ + "="@;
    let tail = "\n"@ + PWD_HOOK_BODY@ + guard_script();
    let sa = hook_pwd_script(tmp_dir, a);
    let sb = hook_pwd_script(tmp_dir, b);
    assert(sa =~= head + quoted(a) + tail);
    assert(sb =~= head + quoted(b) + tail);
    if sa == sb {
        let n = head.len() as int;
        assert(quoted(a).len() == quoted(b).len());
        assert(sa.subrange(n, n + quoted(a).len()) =~= quoted(a));
        assert(sb.subrange(n, n + quoted(b).len()) =~= quoted(b));
        lemma_quote_injective(a, b);
    }
}

/// Below one temporary directory, sessions with different tokens get
/// different scripts: no two of them share a cache file.
pub proof fn lemma_tokens_part_scripts(temp_root: Seq<u8>, a: Seq<char>, b: Seq<char>)
    requires
        valid_utf8(temp_root),
        a != b,
    ensures
        hook_pwd_for(temp_root, a) != hook_pwd_for(temp_root, b),
{
    let root = decode_utf8(temp_root);
    lemma_tokens_part_paths(root, a, b);
    lemma_paths_part_scripts(tmp_dir_of(root), pwd_path_of(root, a), pwd_path_of(root, b));
}

/// Emits the prompt variant.
pub fn hook_prompt() -> (script: String)
    ensures
        script@ == hook_prompt_script(),
{
    let mut script = String::from_str(PROMPT_HOOK);
    script.append(render_guard().as_str());
    script.append("\n");
    proof {
        reveal_strlit("\n");
        assert("\n"@ =~= seq!['\n']);
    }
    script
}

fn push_assignment(script: &mut String, name: &str, value: &str)
    ensures
        final(script)@ == old(script)@ + assignment(name@, value@),
{
    script.append(name);
    script.append("=");
    script.append(quote(value).as_str());
    script.append("\n");
}

/// Emits the file-tracked variant for a session that keeps its state at
/// `paths`.
pub fn render_hook_pwd(paths: &SessionTempPaths) -> (script: String)
    ensures
        script@ == hook_pwd_script(paths@.tmp_dir, paths@.pwd_path),
{
    let mut script = String::from_str(PWD_HOOK_NOTE);
    push_assignment(&mut script, TMP_PATH_VAR, paths.tmp_dir());
    push_assignment(&mut script, PWD_PATH_VAR, paths.pwd_path());
    script.append(PWD_HOOK_BODY);
    script.append(render_guard().as_str());
    script
}

fn hook_pwd_below(root: &str, token: &str) -> (script: String)
    ensures
        script@ == hook_pwd_script(tmp_dir_of(root@), pwd_path_of(root@, token@)),
{
    let paths = SessionTempPaths::new(root, token);
    render_hook_pwd(&paths)
}

/// Emits the file-tracked variant for the session `token`. `temp_root` is
/// the path of the system's temporary directory, byte for byte.
pub fn hook_pwd_with_token(temp_root: &[u8], token: &str) -> (result: Result<String, EncodingError>)
    ensures
        match result {
            Ok(script) => hook_pwd_for(temp_root@, token@) == Ok::<Seq<char>, EncodingError>(script@),
            Err(e) => hook_pwd_for(temp_root@, token@) is Err,
        },
{
    match utf8_text(temp_root) {
        Some(root) => {
            proof {
                encode_utf8_decode_utf8(root@);
            }
            Ok(hook_pwd_below(root, token))
        },
        None => Err(EncodingError),
    }
}

/// What emitting the file-tracked variant for a new session may give: an
/// error exactly where `temp_root` is not text, and else the script of a
/// session whose token has the shape of a random identifier.
pub open spec fn is_new_session_hook(
    temp_root: Seq<u8>,
    result: Result<String, EncodingError>,
) -> bool {
    match result {
        Ok(script) => exists|token: Seq<char>|
            is_session_token(token) && #[trigger] hook_pwd_for(temp_root, token) == Ok::<
                Seq<char>,
                EncodingError,
            >(script@),
        Err(_) => !valid_utf8(temp_root),
    }
}

/// Emits the file-tracked variant for a new session, under a fresh random
/// token. It fails exactly where `temp_root` is not text; the token is
/// drawn only after that is settled.
pub fn hook_pwd(temp_root: &[u8]) -> (result: Result<String, EncodingError>)
    ensures
        is_new_session_hook(temp_root@, result),
{
    match utf8_text(temp_root) {
        Some(root) => {
            proof {
                encode_utf8_decode_utf8(root@);
            }
            let token = fresh_token();
            let script = hook_pwd_below(root, token.as_str());
            proof {
                assert(hook_pwd_for(temp_root@, token@) == Ok::<Seq<char>, EncodingError>(
                    script@,
                ));
            }
            Ok(script)
        },
        None => Err(EncodingError),
    }
}

} // verus!
