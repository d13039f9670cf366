//! Suggests how the semantic version of a crate should change, from the
//! [Gitmoji](https://gitmoji.dev/specification) codes of the commit messages in its git
//! history.
//!
//! Commit messages are sorted into conventional ones, which begin with a known Gitmoji
//! code, and the rest; the conventional commits are then sorted by the kind of change
//! their codes stand for, and the most significant kind decides the version change.

pub mod changes;
pub mod commit;
pub mod gitmoji;
pub mod laws;
pub mod text;
pub mod version;

pub use changes::Changes;
pub use commit::{classify_commits, ConventionalCommit, NonConventionalCommit};
pub use gitmoji::is_gitmoji_commit_message;
pub use version::{evaluate_changes, SemanticVersion};
