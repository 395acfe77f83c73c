use vstd::prelude::*;
use crate::alias::{alias, alias_script};
use crate::hook::{
    hook_prompt, hook_prompt_script, hook_pwd, is_new_session_hook, EncodingError, HookVariant,
};
use crate::wrapper::{wrapper_script, z};

verus! {

/// The shell dialects that code can be emitted for.
#[derive(Clone, Copy, Debug, PartialEq, Eq, Structural)]
pub enum Shell {
    /// Any shell that follows POSIX.
    Posix,
}

impl Shell {
    /// Emits the navigation wrapper under the name `z_cmd`.
    pub fn render_wrapper(&self, z_cmd: &str) -> (script: String)
        ensures
            match self {
                Shell::Posix => script@ == wrapper_script(z_cmd@),
            },
    {
        match self {
            Shell::Posix => z(z_cmd),
        }
    }

    /// Emits the aliases for a wrapper named `z_cmd`.
    pub fn render_aliases(&self, z_cmd: &str) -> (script: String)
        ensures
            match self {
                Shell::Posix => script@ == alias_script(z_cmd@),
            },
    {
        match self {
            Shell::Posix => alias(z_cmd),
        }
    }

    /// Emits the hook of the chosen variant. `temp_root` is the path of
    /// the system's temporary directory, byte for byte; only the
    /// file-tracked variant reads it, and only that variant can fail.
    pub fn render_hook(&self, variant: HookVariant, temp_root: &[u8]) -> (result: Result<
        String,
        EncodingError,
    >)
        ensures
            match (self, variant) {
                (Shell::Posix, HookVariant::Prompt) => (result matches Ok(script) && script@
                    == hook_prompt_script()),
                (Shell::Posix, HookVariant::FileTracked) => is_new_session_hook(
                    temp_root@,
                    result,
                ),
            },
    {
        match (self, variant) {
            (Shell::Posix, HookVariant::Prompt) => Ok(hook_prompt()),
            (Shell::Posix, HookVariant::FileTracked) => hook_pwd(temp_root),
        }
    }
}

} // verus!
