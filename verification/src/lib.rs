//! Shell code that ties a POSIX shell to `zoxide`: the wrapper that jumps
//! to a directory, its aliases, and the hook that tells the tool where the
//! shell goes.
//!
//! Every generator returns text and its contract says which. Paths reach
//! that text only as quoted words, see `quoting`. What the emitted code
//! does when a shell runs it is written down a second time as plain
//! functions: `wrapper::dispatch` and its two followers, `guard::install_hook`
//! and `tracking::Session`. What is said of the emitted code is proved of
//! them.

pub mod alias;
pub mod guard;
pub mod hook;
pub mod paths;
pub mod quoting;
pub mod shell;
pub mod text;
pub mod token;
pub mod tracking;
pub mod wrapper;

pub use alias::alias;
pub use hook::{hook_prompt, hook_pwd, EncodingError, HookVariant};
pub use quoting::quote;
pub use shell::Shell;
pub use wrapper::z;
