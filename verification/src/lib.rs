//! Resolve the command that opens a file in the user's editor.
//!
//! An [`EditorBuilder`] collects candidate command lines from several
//! sources, highest priority first, and keeps the first one that is present.
//! [`EditorBuilder::build`] splits that command line into words with
//! shell-like quoting rules and appends the registered paths, which gives an
//! [`Invocation`]: a program name and its argument list. Nothing is spawned
//! here; the caller hands the invocation to whatever starts processes.
//!
//! Every function of this crate is verified with Verus. The word splitting is
//! done by the `shellish_parse` crate; what is taken on trust about it is
//! gathered in the module [`shell`].

pub mod builder;
pub mod error;
pub mod invocation;
pub mod laws;
pub mod shell;

pub use builder::EditorBuilder;
pub use error::EditorBuilderError;
pub use invocation::Invocation;
