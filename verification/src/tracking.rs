use vstd::prelude::*;
use vstd::string::*;

verus! {

/// What one run of the hook does besides reading the cache file.
#[derive(Clone, Copy, Debug, PartialEq, Eq, Structural)]
pub enum HookAction {
    /// Nothing: the directory has not changed.
    Nothing,
    /// The working directory is written to the cache file, then reported
    /// to the tool with one call of `add`, whose output is thrown away.
    Record,
}

impl HookAction {
    /// How often the cache file is written.
    pub open spec fn cache_writes(self) -> nat {
        match self {
            HookAction::Nothing => 0,
            HookAction::Record => 1,
        }
    }

    /// How often `add` is called.
    pub open spec fn add_calls(self) -> nat {
        match self {
            HookAction::Nothing => 0,
            HookAction::Record => 1,
        }
    }
}

/// A shell session as the file-tracked hook sees it.
///
/// The cache file is taken to give back the directory as it was written:
/// what the hook reads is, character for character, the working directory
/// that was recorded last. That holds of every directory whose name the
/// shell's `echo` writes unchanged and that does not end in a newline. The
/// emitted hook reads the file through a command substitution, which drops
/// newlines at the end, so for a name that ends in one it finds a
/// difference at every prompt and records each time, where `step` says
/// `Nothing`; the same goes for a name with a backslash sequence under an
/// `echo` that reads such sequences.
#[derive(Debug)]
pub enum Session {
    /// The script has not been loaded: there is no hook and no cache file.
    Uninitialized,
    /// The hook is installed, and the cache file holds `cache`.
    Tracking { cache: String },
}

impl View for Session {
    /// `None` before the script is loaded, then what the cache file holds.
    type V = Option<Seq<char>>;

    open spec fn view(&self) -> Option<Seq<char>> {
        match self {
            Session::Uninitialized => None,
            Session::Tracking { cache } => Some(cache@),
        }
    }
}

/// One run of the hook in the directory `pwd`: the state it leaves and what
/// it does. A directory is recorded where the cache is empty or differs
/// from `pwd`; where nothing is loaded there is no hook to run.
pub open spec fn step(state: Option<Seq<char>>, pwd: Seq<char>) -> (Option<Seq<char>>, HookAction) {
    match state {
        None => (None, HookAction::Nothing),
        Some(cache) => if cache.len() == 0 || cache != pwd {
            (Some(pwd), HookAction::Record)
        } else {
            (Some(cache), HookAction::Nothing)
        },
    }
}

impl Session {
    /// A session in which the script has not been loaded yet.
    pub fn new() -> (session: Session)
        ensures
            session@ is None,
    {
        Session::Uninitialized
    }

    /// The script is loaded in the directory `pwd`: the cache file is
    /// written, whatever the state was.
    pub fn load(&mut self, pwd: &str)
        ensures
            final(self)@ == Some(pwd@),
    {
        *self = Session::Tracking { cache: String::from_str(pwd) };
    }

    /// The prompt is drawn in the directory `pwd`.
    pub fn prompt(&mut self, pwd: &str) -> (action: HookAction)
        ensures
            (final(self)@, action) == step(old(self)@, pwd@),
    {
        let current = String::from_str(pwd);
        let changed = match self {
            Session::Uninitialized => false,
            Session::Tracking { cache } => cache.as_str().is_empty() || *cache != current,
        };
        if changed {
            *self = Session::Tracking { cache: current };
            HookAction::Record
        } else {
            HookAction::Nothing
        }
    }
}

/// A prompt drawn in the directory that the cache file holds writes
/// nothing and calls nothing.
pub proof fn lemma_same_directory_is_idle(pwd: Seq<char>)
    requires
        pwd.len() > 0,
    ensures
        step(Some(pwd), pwd) == (Some(pwd), HookAction::Nothing),
        step(Some(pwd), pwd).1.cache_writes() == 0,
        step(Some(pwd), pwd).1.add_calls() == 0,
{
}

/// A prompt drawn in another directory than the cache file holds writes
/// that directory to the cache and calls `add` once.
pub proof fn lemma_new_directory_is_recorded(cache: Seq<char>, pwd: Seq<char>)
    requires
        cache != pwd,
    ensures
        step(Some(cache), pwd) == (Some(pwd), HookAction::Record),
        step(Some(cache), pwd).1.cache_writes() == 1,
        step(Some(cache), pwd).1.add_calls() == 1,
{
}

/// However the prompt was drawn before, drawing it again in the same
/// directory does nothing: one change of directory is reported once.
pub proof fn lemma_second_prompt_is_idle(state: Option<Seq<char>>, pwd: Seq<char>)
    requires
        pwd.len() > 0,
    ensures
        step(step(state, pwd).0, pwd).1 == HookAction::Nothing,
        step(step(state, pwd).0, pwd).0 == step(state, pwd).0,
{
}

} // verus!
