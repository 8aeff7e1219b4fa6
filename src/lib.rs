//! Resolution and provisioning of Ruby language tools: a configured
//! override, the project's bundle, the search path, or a private gem cache
//! that this library keeps for itself.

pub mod bundler;
pub mod debugger;
pub mod fingerprint;
pub mod gateway;
pub mod gemset;
pub mod language_id;
pub mod listing;
pub mod resolver;
pub mod servers;
pub mod text;
pub mod worktree;

pub use bundler::Bundler;
pub use gateway::{CommandExecutor, CommandSpec, ProcessOutput};
pub use gemset::Gemset;
pub use language_id::detect_language_id;
pub use resolver::{
    resolve, Action, Event, LanguageServerBinary, ResolveRequest, Resolver, Stage, ToolIdentity,
};
pub use servers::{
    request_for, Herb, Kanayago, LanguageServer, Rubocop, RubyLsp, Solargraph, Sorbet, Standard,
    Standardrb, Steep,
};
pub use worktree::{FakeWorktree, LspBinarySettings, WorktreeLike};
