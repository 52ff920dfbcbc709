//! Verified core of a pseudo-terminal session manager.
//!
//! The crate turns the raw byte stream a shell produces into terminal state:
//! a character grid with styling, driven by a resumable escape-sequence
//! interpreter, together with the session registry and the decision logic of
//! the polling loop that feeds bytes into the interpreter.  The operating
//! system side (allocating a pty, spawning the shell, reading and writing its
//! byte stream) is left to the embedding application; this crate holds the
//! logic and proves it against the contracts below.

pub mod cell;
pub mod color;
pub mod grid;
pub mod parser;
pub mod performer;
pub mod process;
pub mod properties;
pub mod registry;
pub mod reports;
pub mod session;

pub use cell::{Cell, RenderGrid};
pub use color::Color;
pub use grid::TerminalGrid;
pub use parser::AnsiParser;
pub use performer::TerminalPerformer;
pub use process::{get_process_info_by_pid, ProcessInfo};
pub use registry::{SessionError, TerminalState};
pub use reports::{BranchStatus, CommitDiffResult, CommitInfo, CommitResult, DiffHunk, DiffLine, FileDiff, FileDiffWithStats, FileEntry, FileStatus, GitStatus};
pub use session::TerminalSession;
