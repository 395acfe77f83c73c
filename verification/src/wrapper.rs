use vstd::prelude::*;
use vstd::string::*;
use crate::text::is_char;

verus! {

/// The helper that changes directory and, when `_ZO_ECHO` is `1`, prints
/// where it arrived. Everything before the wrapper's own name.
pub const WRAPPER_HEAD: &'static str = r#"
_z_cd() {
    cd "$@" || return "$?"

    if [ "$_ZO_ECHO" = "1" ]; then
        echo "$PWD"
    fi
}

"#;

/// The wrapper's body: everything after its name.
pub const WRAPPER_BODY: &'static str = r#"() {
    if [ "$#" -eq 0 ]; then
        _z_cd ~ || return "$?"
    elif [ "$#" -eq 1 ] && [ "$1" = '-' ]; then
        if [ -n "$OLDPWD" ]; then
            _z_cd "$OLDPWD" || return "$?"
        else
            echo 'zoxide: $OLDPWD is not set'
            return 1
        fi
    else
        result="$(zoxide query "$@")" || return "$?"
        if [ -d "$result" ]; then
            _z_cd "$result" || return "$?"
        elif [ -n "$result" ]; then
            echo "$result"
        fi
    fi
}
"#;

/// The navigation wrapper installed under the name `z_cmd`, as text.
pub open spec fn wrapper_script(z_cmd: Seq<char>) -> Seq<char> {
    WRAPPER_HEAD@ + z_cmd + WRAPPER_BODY@
}

/// Emits the shell function `z_cmd` that jumps to a ranked directory.
pub fn z(z_cmd: &str) -> (script: String)
    ensures
        script@ == wrapper_script(z_cmd@),
{
    let mut script = String::from_str(WRAPPER_HEAD);
    script.append(z_cmd);
    script.append(WRAPPER_BODY);
    script
}

/// What the wrapper sets out to do, which its arguments and the previous
/// directory decide. `T` is the type of text: `String` in a running
/// program, `Seq<char>` in a contract.
#[derive(Debug, PartialEq, Eq)]
pub enum Dispatch<T> {
    /// Go to the home directory.
    Home,
    /// Go back to the previous directory, `dir`.
    Back { dir: T },
    /// There is no previous directory to go back to: the wrapper says so
    /// and returns 1, and the directory stays.
    NoPrevious,
    /// Ask the tool for a directory, with all the arguments.
    Query,
}

/// What the wrapper does with the tool's answer.
#[derive(Debug, PartialEq, Eq)]
pub enum Answer<T> {
    /// The query failed: its status is returned and nothing else happens.
    Fail { status: u8 },
    /// The answer is a directory: go there.
    Enter { dir: T },
    /// The answer is some other text: print it and stay.
    Print { text: T },
    /// There is no answer: do nothing, and succeed.
    Nothing,
}

/// How a change of directory ends.
#[derive(Debug, PartialEq, Eq)]
pub enum Arrival<T> {
    /// The change failed: its status is returned and nothing is printed.
    Fail { status: u8 },
    /// The change is made.
    Quiet,
    /// The change is made and the new directory, `dir`, is printed.
    Echo { dir: T },
}

impl View for Dispatch<String> {
    type V = Dispatch<Seq<char>>;

    open spec fn view(&self) -> Dispatch<Seq<char>> {
        match self {
            Dispatch::Home => Dispatch::Home,
            Dispatch::Back { dir } => Dispatch::Back { dir: dir@ },
            Dispatch::NoPrevious => Dispatch::NoPrevious,
            Dispatch::Query => Dispatch::Query,
        }
    }
}

impl View for Answer<String> {
    type V = Answer<Seq<char>>;

    open spec fn view(&self) -> Answer<Seq<char>> {
        match self {
            Answer::Fail { status } => Answer::Fail { status: *status },
            Answer::Enter { dir } => Answer::Enter { dir: dir@ },
            Answer::Print { text } => Answer::Print { text: text@ },
            Answer::Nothing => Answer::Nothing,
        }
    }
}

impl View for Arrival<String> {
    type V = Arrival<Seq<char>>;

    open spec fn view(&self) -> Arrival<Seq<char>> {
        match self {
            Arrival::Fail { status } => Arrival::Fail { status: *status },
            Arrival::Quiet => Arrival::Quiet,
            Arrival::Echo { dir } => Arrival::Echo { dir: dir@ },
        }
    }
}

/// The first step of the wrapper called with the arguments `args` while
/// `$OLDPWD` holds `oldpwd` (empty where it is not set): home without
/// arguments, back for a single `-`, a query for anything else.
pub open spec fn dispatched(args: Seq<Seq<char>>, oldpwd: Seq<char>) -> Dispatch<Seq<char>> {
    if args.len() == 0 {
        Dispatch::Home
    } else if args.len() == 1 && args[0] == seq!['-'] {
        if oldpwd.len() > 0 {
            Dispatch::Back { dir: oldpwd }
        } else {
            Dispatch::NoPrevious
        }
    } else {
        Dispatch::Query
    }
}

/// The step after a query that ended with `status` and printed `output`,
/// where `is_dir` says whether `output` names a directory that exists. A
/// failure is passed on before the output is looked at.
pub open spec fn answered(status: u8, output: Seq<char>, is_dir: bool) -> Answer<Seq<char>> {
    if status != 0 {
        Answer::Fail { status }
    } else if is_dir {
        Answer::Enter { dir: output }
    } else if output.len() > 0 {
        Answer::Print { text: output }
    } else {
        Answer::Nothing
    }
}

/// The step after a change of directory that ended with `status` in the
/// directory `pwd`, while `$_ZO_ECHO` holds `echo`. The directory is
/// printed only after a change that succeeded, and only where `echo` is
/// `1`.
pub open spec fn arrived(status: u8, echo: Seq<char>, pwd: Seq<char>) -> Arrival<Seq<char>> {
    if status != 0 {
        Arrival::Fail { status }
    } else if echo == seq!['1'] {
        Arrival::Echo { dir: pwd }
    } else {
        Arrival::Quiet
    }
}

/// Decides the wrapper's first step.
pub fn dispatch(args: &Vec<String>, oldpwd: &str) -> (step: Dispatch<String>)
    ensures
        step@ == dispatched(args.deep_view(), oldpwd@),
{
    if args.len() == 0 {
        Dispatch::Home
    } else if args.len() == 1 && is_char(args[0].as_str(), '-') {
        if oldpwd.is_empty() {
            Dispatch::NoPrevious
        } else {
            Dispatch::Back { dir: String::from_str(oldpwd) }
        }
    } else {
        Dispatch::Query
    }
}

/// Decides the wrapper's step after the query.
pub fn after_query(status: u8, output: &str, is_dir: bool) -> (step: Answer<String>)
    ensures
        step@ == answered(status, output@, is_dir),
{
    if status != 0 {
        Answer::Fail { status }
    } else if is_dir {
        Answer::Enter { dir: String::from_str(output) }
    } else if !output.is_empty() {
        Answer::Print { text: String::from_str(output) }
    } else {
        Answer::Nothing
    }
}

/// Decides the wrapper's step after a change of directory.
pub fn after_cd(status: u8, echo: &str, pwd: &str) -> (step: Arrival<String>)
    ensures
        step@ == arrived(status, echo@, pwd@),
{
    if status != 0 {
        Arrival::Fail { status }
    } else if is_char(echo, '1') {
        Arrival::Echo { dir: String::from_str(pwd) }
    } else {
        Arrival::Quiet
    }
}

/// A step that fails ends the wrapper with the status of that step, and
/// nothing is entered, printed or echoed after it.
pub proof fn lemma_failure_is_passed_on(status: u8, text: Seq<char>, flag: Seq<char>, is_dir: bool)
    requires
        status != 0,
    ensures
        answered(status, text, is_dir) == (Answer::<Seq<char>>::Fail { status }),
        arrived(status, flag, text) == (Arrival::<Seq<char>>::Fail { status }),
{
}

} // verus!
