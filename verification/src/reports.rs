use vstd::prelude::*;

verus! {

// The terminal data path treats directory listing and version-control
// inspection as external collaborators: their operations live with the
// embedding application.  The report shapes they fill in are plain data and
// are defined here, so the application and its display layer share one
// vocabulary with the library.

/// One entry of a directory listing.
#[derive(Clone, Debug)]
pub struct FileEntry {
    pub name: String,
    pub path: String,
    pub is_directory: bool,
    pub is_symlink: bool,
    pub is_hidden: bool,
    pub match_type: String,
}

/// One file's place in the working-tree status.
#[derive(Clone, Debug)]
pub struct FileStatus {
    pub path: String,
    pub status: String,
    pub old_path: Option<String>,
}

/// The working-tree status of a repository.
#[derive(Clone, Debug)]
pub struct GitStatus {
    pub branch_name: String,
    pub is_detached: bool,
    pub staged_files: Vec<FileStatus>,
    pub changed_files: Vec<FileStatus>,
    pub untracked_files: Vec<FileStatus>,
}

/// One line of a diff hunk.
#[derive(Clone, Debug)]
pub struct DiffLine {
    pub origin: char,
    pub content: String,
    pub old_lineno: Option<u32>,
    pub new_lineno: Option<u32>,
}

/// One hunk of a file diff.
#[derive(Clone, Debug)]
pub struct DiffHunk {
    pub header: String,
    pub lines: Vec<DiffLine>,
}

/// A single file's diff.
#[derive(Clone, Debug)]
pub struct FileDiff {
    pub path: String,
    pub hunks: Vec<DiffHunk>,
}

/// A single file's diff with its change counts.
#[derive(Clone, Debug)]
pub struct FileDiffWithStats {
    pub path: String,
    pub old_path: Option<String>,
    pub status: String,
    pub additions: usize,
    pub deletions: usize,
    pub hunks: Vec<DiffHunk>,
}

/// Everything shown for one commit's diff.
#[derive(Clone, Debug)]
pub struct CommitDiffResult {
    pub commit_id: String,
    pub commit_message: String,
    pub commit_author: String,
    pub commit_time: i64,
    pub file_diffs: Vec<FileDiffWithStats>,
    pub is_initial_commit: bool,
}

/// One commit in the recent-history list.
#[derive(Clone, Debug)]
pub struct CommitInfo {
    pub id: String,
    pub short_id: String,
    pub message: String,
    pub author: String,
    pub time: i64,
    pub time_relative: String,
    pub is_pushed: bool,
}

/// How far a branch is from its remote counterpart.
#[derive(Clone, Debug)]
pub struct BranchStatus {
    pub ahead: usize,
    pub behind: usize,
    pub remote_branch: Option<String>,
}

/// The outcome of a commit attempt.
#[derive(Clone, Debug)]
pub struct CommitResult {
    pub success: bool,
    pub commit_id: Option<String>,
    pub error: Option<String>,
}

} // verus!
