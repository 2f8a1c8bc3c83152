//! Prompt segments for an interactive shell: a summary of the state of the
//! git repository around the working directory, a shortened working
//! directory, and a glyph that shows the editing mode and the last exit code.
//!
//! The library reads no file and asks git nothing. Its caller reads the
//! repository and hands over what it found, as a `repo::Snapshot`; the
//! library decides what that means and how it is shown.
//!
//! - `status` counts the entries of a status scan by category.
//! - `action` finds the operation in progress from the markers git left.
//! - `repo` holds what was read of a repository, and names its head.
//! - `precmd` builds the summary and the line shown before the prompt.
//! - `prompt` builds the prompt itself.
//! - `path` shortens the working directory.
//! - `paint` colours text, `text` writes numbers and compares strings.
//! - `laws` states what holds of every summary.

pub mod action;
pub mod laws;
pub mod paint;
pub mod path;
pub mod precmd;
pub mod prompt;
pub mod repo;
pub mod status;
pub mod text;
