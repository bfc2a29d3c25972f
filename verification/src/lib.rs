//! Shell-integration text generation for the PowerShell dialect.
//!
//! The crate produces the script fragments a command-line environment manager
//! hands to a live `pwsh` session: an activation script that installs a wrapper
//! function and re-entrant environment hooks, the matching deactivation script,
//! and single-line environment mutations (set, prepend, unset). Every emitted
//! string is pinned down exactly by its contract, and the escaping discipline
//! that makes the emitted text injection-safe is proved as a round-trip law.

pub mod escape;
pub mod session;
pub mod shell;

pub use escape::powershell_escape;
pub use shell::ActivateOptions;
pub use shell::Pwsh;
