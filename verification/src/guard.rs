use vstd::prelude::*;
use vstd::string::*;
use crate::quoting::with_head;
use crate::text::chars_of;

verus! {

/// The call of the hook as it stands in a prompt once the hook is
/// installed. The guard that ends both hook scripts looks for this text and
/// appends it to the prompt where it is missing.
pub const HOOK_CALL: &'static str = "$(_zoxide_hook)";

/// The guard up to the text that it looks for in the prompt.
pub const GUARD_HEAD: &'static str = "case \"$PS1\" in\n    *";

/// The text that the guard looks for, written as a pattern.
pub const GUARD_PATTERN: &'static str = "\\$\\(_zoxide_hook\\)";

/// Between the pattern and what is appended: a prompt that matches is
/// left alone, any other is set anew, starting with the prompt as it was.
pub const GUARD_MID: &'static str = "*) ;;\n    *) PS1=\"${PS1}";

/// What the guard appends to the prompt, written between double quotes.
pub const GUARD_INSERT: &'static str = "\\$(_zoxide_hook)";

/// The rest of the guard.
pub const GUARD_TAIL: &'static str = "\" ;;\nesac";

/// The guard, as text.
pub open spec fn guard_script() -> Seq<char> {
    GUARD_HEAD@ + GUARD_PATTERN@ + GUARD_MID@ + GUARD_INSERT@ + GUARD_TAIL@
}

/// A character that stands for itself in a pattern.
pub open spec fn is_name_char(c: char) -> bool {
    ('a' <= c && c <= 'z') || ('A' <= c && c <= 'Z') || ('0' <= c && c <= '9') || c == '_'
}

/// The text that a shell pattern without wildcards matches: an escaped
/// character stands for itself, and so does a letter, a digit or an
/// underscore. Any other pattern has no such text here.
pub open spec fn pattern_text(pattern: Seq<char>) -> Option<Seq<char>>
    decreases pattern.len(),
{
    if pattern.len() == 0 {
        Some(Seq::empty())
    } else if pattern[0] == '\\' {
        if pattern.len() >= 2 && pattern[1] != '\n' {
            with_head(seq![pattern[1]], pattern_text(pattern.skip(2)))
        } else {
            None
        }
    } else if is_name_char(pattern[0]) {
        with_head(seq![pattern[0]], pattern_text(pattern.skip(1)))
    } else {
        None
    }
}

/// A character that a backslash escapes between double quotes, and that
/// may not stand there bare.
pub open spec fn is_active_in_double_quotes(c: char) -> bool {
    c == '$' || c == '`' || c == '"' || c == '\\'
}

/// The text that stands between double quotes where nothing is expanded:
/// an escaped `$`, backquote, `"` or backslash stands for itself, and so
/// does any other character but these four. Any other text has no value
/// here.
pub open spec fn double_quoted_text(inner: Seq<char>) -> Option<Seq<char>>
    decreases inner.len(),
{
    if inner.len() == 0 {
        Some(Seq::empty())
    } else if inner[0] == '\\' {
        if inner.len() >= 2 && is_active_in_double_quotes(inner[1]) {
            with_head(seq![inner[1]], double_quoted_text(inner.skip(2)))
        } else {
            None
        }
    } else if is_active_in_double_quotes(inner[0]) {
        None
    } else {
        with_head(seq![inner[0]], double_quoted_text(inner.skip(1)))
    }
}

/// `needle` stands in `hay` at position `i`.
pub open spec fn occurs_at(needle: Seq<char>, hay: Seq<char>, i: int) -> bool {
    &&& 0 <= i
    &&& i + needle.len() <= hay.len()
    &&& hay.subrange(i, i + needle.len()) == needle
}

/// `needle` stands somewhere in `hay`.
pub open spec fn occurs_in(needle: Seq<char>, hay: Seq<char>) -> bool {
    exists|i: int| occurs_at(needle, hay, i)
}

/// The prompt calls the hook already.
pub open spec fn has_hook(prompt: Seq<char>) -> bool {
    occurs_in(HOOK_CALL@, prompt)
}

/// The prompt after the guard has run: unchanged where it calls the hook
/// already, and else with the call appended.
pub open spec fn installed(prompt: Seq<char>) -> Seq<char> {
    if has_hook(prompt) {
        prompt
    } else {
        prompt + HOOK_CALL@
    }
}

fn matches_at(needle: &Vec<char>, hay: &Vec<char>, i: usize) -> (found: bool)
    requires
        i + needle.len() <= hay.len(),
    ensures
        found == occurs_at(needle@, hay@, i as int),
{
    let mut j: usize = 0;
    while j < needle.len()
        invariant
            j <= needle.len(),
            i + needle.len() <= hay.len(),
            forall|k: int| 0 <= k < j ==> hay@[i + k] == needle@[k],
        decreases needle.len() - j,
    {
        if hay[i + j] != needle[j] {
            proof {
                assert(hay@.subrange(i as int, i + needle.len())[j as int] == hay@[i + j]);
            }
            return false;
        }
        j = j + 1;
    }
    proof {
        assert(hay@.subrange(i as int, i + needle.len()) =~= needle@);
    }
    true
}

/// Whether `needle` stands somewhere in `hay`.
pub fn occurs(needle: &str, hay: &str) -> (found: bool)
    ensures
        found == occurs_in(needle@, hay@),
{
    let n = chars_of(needle);
    let h = chars_of(hay);
    if n.len() > h.len() {
        return false;
    }
    let last: usize = h.len() - n.len();
    let mut i: usize = 0;
    loop
        invariant
            n@ == needle@,
            h@ == hay@,
            i <= last,
            last == h.len() - n.len(),
            forall|k: int| 0 <= k < i ==> !occurs_at(n@, h@, k),
        decreases last - i,
    {
        if matches_at(&n, &h, i) {
            return true;
        }
        if i == last {
            return false;
        }
        i = i + 1;
    }
}

/// Emits the guard.
pub fn render_guard() -> (script: String)
    ensures
        script@ == guard_script(),
{
    let mut script = String::from_str(GUARD_HEAD);
    script.append(GUARD_PATTERN);
    script.append(GUARD_MID);
    script.append(GUARD_INSERT);
    script.append(GUARD_TAIL);
    script
}

/// Runs the guard on `prompt` and returns the prompt that it leaves.
pub fn install_hook(prompt: &str) -> (after: String)
    ensures
        after@ == installed(prompt@),
{
    if occurs(HOOK_CALL, prompt) {
        String::from_str(prompt)
    } else {
        let mut after = String::from_str(prompt);
        after.append(HOOK_CALL);
        after
    }
}

/// A prompt that the guard has run on calls the hook.
pub proof fn lemma_installed_has_hook(prompt: Seq<char>)
    ensures
        has_hook(installed(prompt)),
{
    if !has_hook(prompt) {
        let after = prompt + HOOK_CALL@;
        let at = prompt.len() as int;
        assert(after.subrange(at, at + HOOK_CALL@.len()) =~= HOOK_CALL@);
        assert(occurs_at(HOOK_CALL@, after, at));
    }
}

/// Running the guard a second time changes nothing: the hook is installed
/// once, however often the script is loaded.
pub proof fn lemma_install_idempotent(prompt: Seq<char>)
    ensures
        installed(installed(prompt)) == installed(prompt),
{
    lemma_installed_has_hook(prompt);
}

/// The pattern in the guard matches the call of the hook, and what the
/// guard appends to the prompt is that call: the guard looks for what it
/// appends.
pub proof fn lemma_guard_reads_hook_call()
    ensures
        pattern_text(GUARD_PATTERN@) == Some(HOOK_CALL@),
        double_quoted_text(GUARD_INSERT@) == Some(HOOK_CALL@),
{
    reveal_strlit("$(_zoxide_hook)");
    reveal_strlit("\\$\\(_zoxide_hook\\)");
    reveal_strlit("\\$(_zoxide_hook)");
    reveal_with_fuel(pattern_text, 20);
    reveal_with_fuel(double_quoted_text, 20);
}

} // verus!
