use vstd::prelude::*;

use crate::cell::RenderGrid;
use crate::parser::{run, InterpModel};
use crate::session::TerminalSession;

verus! {

/// Why a session operation failed.  The registry itself only ever reports
/// `NotFound`; the embedding application uses the other variants for the
/// operating-system failures it observes at the pty.
#[derive(Clone, Copy, Debug, PartialEq, Eq, Structural)]
pub enum SessionError {
    /// No session has this id: it was never issued, or was closed.
    NotFound,
    /// The pty could not be allocated or the shell could not be spawned.
    Creation,
    /// Reading from or writing to the pty failed.
    Io,
    /// The resize ioctl failed; the session stays otherwise usable.
    OsResize,
}

/// One registry entry: the session id, the child process id the application
/// reported at creation, and the terminal state.
pub struct SessionEntry {
    pub id: u64,
    pub pid: u32,
    pub term: TerminalSession,
}

/// The position of the entry with the given id, or -1 where there is none.
pub open spec fn find_idx(s: Seq<SessionEntry>, id: u64) -> int
    decreases s.len(),
{
    if s.len() == 0 {
        -1
    } else if s[0].id == id {
        0
    } else {
        let r = find_idx(s.drop_first(), id);
        if r == -1 {
            -1
        } else {
            r + 1
        }
    }
}

/// Whether some entry has the given id.
pub open spec fn has_id(s: Seq<SessionEntry>, id: u64) -> bool {
    find_idx(s, id) >= 0
}

/// A found index is in range and names the right entry.
pub proof fn lemma_find_idx_valid(s: Seq<SessionEntry>, id: u64)
    ensures
        find_idx(s, id) == -1 || (0 <= find_idx(s, id) < s.len() && s[find_idx(s, id)].id == id),
    decreases s.len(),
{
    if s.len() > 0 && s[0].id != id {
        lemma_find_idx_valid(s.drop_first(), id);
    }
}

/// Where no entry has the id, the search reports none.
pub proof fn lemma_find_idx_none(s: Seq<SessionEntry>, id: u64)
    requires
        forall|j: int| 0 <= j < s.len() ==> s[j].id != id,
    ensures
        find_idx(s, id) == -1,
    decreases s.len(),
{
    if s.len() > 0 {
        lemma_find_idx_none(s.drop_first(), id);
    }
}

/// The first match is the one the search reports.
pub proof fn lemma_find_idx_at(s: Seq<SessionEntry>, id: u64, i: int)
    requires
        0 <= i < s.len(),
        s[i].id == id,
        forall|j: int| 0 <= j < i ==> s[j].id != id,
    ensures
        find_idx(s, id) == i,
    decreases i,
{
    if i > 0 {
        lemma_find_idx_at(s.drop_first(), id, i - 1);
    }
}

/// The session registry: a directory from freshly generated, never-reused
/// ids to terminal sessions.  It is plain owned data; the embedding
/// application supplies whatever locking its concurrency needs, holding the
/// lock only across one short operation at a time.
pub struct TerminalState {
    pub next_id: u64,
    pub entries: Vec<SessionEntry>,
}

impl TerminalState {
    /// Well-formed registry: every issued id is below the counter (so no id
    /// is ever reused), ids are unique, and every session is well-formed.
    pub open spec fn wf(self) -> bool {
        &&& forall|i: int| 0 <= i < self.entries@.len() ==> self.entries@[i].id < self.next_id
        &&& forall|i: int, j: int|
            0 <= i < j < self.entries@.len() ==> self.entries@[i].id != self.entries@[j].id
        &&& forall|i: int| 0 <= i < self.entries@.len() ==> self.entries@[i].term.wf()
    }

    /// An empty registry.
    pub fn new() -> (r: TerminalState)
        ensures
            r.entries@.len() == 0,
            r.next_id == 0,
            r.wf(),
    {
        TerminalState { next_id: 0, entries: Vec::new() }
    }

    /// Open a session: a fresh id, never handed out before, mapped to a new
    /// terminal of the given geometry; the application reports the pid of
    /// the shell it spawned.
    pub fn create_session(&mut self, cols: usize, rows: usize, pid: u32) -> (id: u64)
        requires
            old(self).wf(),
            old(self).next_id < u64::MAX,
            1 <= cols,
            1 <= rows,
            cols * rows <= usize::MAX,
        ensures
            final(self).wf(),
            id == old(self).next_id,
            !has_id(old(self).entries@, id),
            has_id(final(self).entries@, id),
            final(self).next_id == old(self).next_id + 1,
            final(self).entries@.len() == old(self).entries@.len() + 1,
            forall|i: int|
                0 <= i < old(self).entries@.len()
                    ==> final(self).entries@[i] == old(self).entries@[i],
            final(self).entries@.last().id == id,
            final(self).entries@.last().pid == pid,
            final(self).entries@.last().term.interp()
                == InterpModel::fresh(cols as nat, rows as nat),
            final(self).entries@.last().term.pending_update == true,
    {
        let id = self.next_id;
        self.next_id = self.next_id + 1;
        let entry = SessionEntry { id, pid, term: TerminalSession::new(cols, rows) };
        self.entries.push(entry);
        proof {
            assert forall|j: int| 0 <= j < old(self).entries@.len()
                implies old(self).entries@[j].id != id by {}
            lemma_find_idx_none(old(self).entries@, id);
            lemma_find_idx_at(self.entries@, id, self.entries@.len() - 1);
        }
        id
    }

    /// Whether a session with this id is open.
    pub fn has_session(&self, id: u64) -> (r: bool)
        requires
            self.wf(),
        ensures
            r == has_id(self.entries@, id),
    {
        let mut i: usize = 0;
        while i < self.entries.len()
            invariant
                i <= self.entries@.len(),
                forall|j: int| 0 <= j < i ==> self.entries@[j].id != id,
            decreases self.entries@.len() - i,
        {
            if self.entries[i].id == id {
                proof {
                    lemma_find_idx_at(self.entries@, id, i as int);
                }
                return true;
            }
            i = i + 1;
        }
        proof {
            lemma_find_idx_none(self.entries@, id);
        }
        false
    }

    /// Find the position of a session.
    fn position(&self, id: u64) -> (r: Option<usize>)
        requires
            self.wf(),
        ensures
            r matches Some(i) ==> i == find_idx(self.entries@, id) && i < self.entries@.len(),
            (r is Some) <==> has_id(self.entries@, id),
    {
        let mut i: usize = 0;
        while i < self.entries.len()
            invariant
                i <= self.entries@.len(),
                forall|j: int| 0 <= j < i ==> self.entries@[j].id != id,
            decreases self.entries@.len() - i,
        {
            if self.entries[i].id == id {
                proof {
                    lemma_find_idx_at(self.entries@, id, i as int);
                }
                return Some(i);
            }
            i = i + 1;
        }
        proof {
            lemma_find_idx_none(self.entries@, id);
        }
        None
    }

    /// Decide a write against this registry: a write may only proceed for an
    /// open session, and against an unknown or closed id it reports
    /// `NotFound`.  The bytes themselves travel through the writer handle
    /// that the application keeps beside the registry, so a writer never
    /// contends with this directory or with a slow reader.
    pub fn write_to_session(&self, id: u64) -> (r: Result<(), SessionError>)
        requires
            self.wf(),
        ensures
            (r is Ok) <==> has_id(self.entries@, id),
            !has_id(self.entries@, id) ==> r == Err::<(), SessionError>(SessionError::NotFound),
    {
        if self.has_session(id) {
            Ok(())
        } else {
            Err(SessionError::NotFound)
        }
    }

    /// Feed bytes read from a session's pty into its interpreter.  Unknown
    /// ids report `NotFound` and change nothing; no other session is
    /// touched.
    pub fn feed_session(&mut self, id: u64, data: &[u8]) -> (r: Result<(), SessionError>)
        requires
            old(self).wf(),
        ensures
            final(self).wf(),
            (r is Ok) <==> has_id(old(self).entries@, id),
            !has_id(old(self).entries@, id) ==> *final(self) == *old(self)
                && r == Err::<(), SessionError>(SessionError::NotFound),
            final(self).next_id == old(self).next_id,
            final(self).entries@.len() == old(self).entries@.len(),
            forall|i: int|
                0 <= i < old(self).entries@.len() && i != find_idx(old(self).entries@, id)
                    ==> final(self).entries@[i] == old(self).entries@[i],
            has_id(old(self).entries@, id) ==> {
                let i = find_idx(old(self).entries@, id);
                &&& final(self).entries@[i].id == id
                &&& final(self).entries@[i].pid == old(self).entries@[i].pid
                &&& final(self).entries@[i].term.interp()
                    == run(old(self).entries@[i].term.interp(), data@)
                &&& final(self).entries@[i].term.pending_update
                    == (old(self).entries@[i].term.pending_update || data@.len() > 0)
            },
    {
        match self.position(id) {
            Some(i) => {
                proof {
                    lemma_find_idx_valid(old(self).entries@, id);
                }
                let entry = &mut self.entries[i];
                entry.term.update(data);
                Ok(())
            }
            None => Err(SessionError::NotFound),
        }
    }

    /// Resize a session: its grid is reinitialized blank at the new
    /// geometry.  Unknown ids report `NotFound` and change nothing.
    pub fn resize_terminal(&mut self, id: u64, cols: usize, rows: usize) -> (r: Result<
        (),
        SessionError,
    >)
        requires
            old(self).wf(),
            1 <= cols,
            1 <= rows,
            cols * rows <= usize::MAX,
        ensures
            final(self).wf(),
            (r is Ok) <==> has_id(old(self).entries@, id),
            !has_id(old(self).entries@, id) ==> *final(self) == *old(self)
                && r == Err::<(), SessionError>(SessionError::NotFound),
            final(self).next_id == old(self).next_id,
            final(self).entries@.len() == old(self).entries@.len(),
            forall|i: int|
                0 <= i < old(self).entries@.len() && i != find_idx(old(self).entries@, id)
                    ==> final(self).entries@[i] == old(self).entries@[i],
            has_id(old(self).entries@, id) ==> {
                let i = find_idx(old(self).entries@, id);
                &&& final(self).entries@[i].id == id
                &&& final(self).entries@[i].pid == old(self).entries@[i].pid
                &&& final(self).entries@[i].term.performer.grid@
                    == crate::grid::GridModel::fresh(cols as nat, rows as nat)
                &&& final(self).entries@[i].term.pending_update == true
            },
    {
        match self.position(id) {
            Some(i) => {
                proof {
                    lemma_find_idx_valid(old(self).entries@, id);
                }
                let entry = &mut self.entries[i];
                entry.term.resize(cols, rows);
                Ok(())
            }
            None => Err(SessionError::NotFound),
        }
    }

    /// Take a session's pending snapshot, if any.  Unknown ids report
    /// `NotFound`; a known id yields the grid copy exactly when something
    /// changed since the last snapshot, and clears the dirty bit.
    pub fn snapshot_session(&mut self, id: u64) -> (r: Result<Option<RenderGrid>, SessionError>)
        requires
            old(self).wf(),
        ensures
            final(self).wf(),
            (r is Ok) <==> has_id(old(self).entries@, id),
            !has_id(old(self).entries@, id) ==> *final(self) == *old(self)
                && r == Err::<Option<RenderGrid>, SessionError>(SessionError::NotFound),
            final(self).next_id == old(self).next_id,
            final(self).entries@.len() == old(self).entries@.len(),
            forall|i: int|
                0 <= i < old(self).entries@.len() && i != find_idx(old(self).entries@, id)
                    ==> final(self).entries@[i] == old(self).entries@[i],
            has_id(old(self).entries@, id) ==> {
                let i = find_idx(old(self).entries@, id);
                &&& final(self).entries@[i].id == id
                &&& final(self).entries@[i].pid == old(self).entries@[i].pid
                &&& final(self).entries@[i].term.interp() == old(self).entries@[i].term.interp()
                &&& final(self).entries@[i].term.pending_update == false
                &&& ((r matches Ok(snap) ==> ((snap is Some)
                    <==> old(self).entries@[i].term.pending_update)))
                &&& (r matches Ok(Some(snap)) ==> snap.cols
                    == old(self).entries@[i].term.performer.grid@.cols && snap.rows
                    == old(self).entries@[i].term.performer.grid@.rows && snap.cells@
                    == old(self).entries@[i].term.performer.grid@.cells)
            },
    {
        match self.position(id) {
            Some(i) => {
                proof {
                    lemma_find_idx_valid(old(self).entries@, id);
                }
                let entry = &mut self.entries[i];
                let snap = entry.term.get_render_grid();
                Ok(snap)
            }
            None => Err(SessionError::NotFound),
        }
    }

    /// The child pid recorded for a session, for process-information
    /// lookups that must not touch the session itself.
    pub fn get_session_info(&self, id: u64) -> (r: Result<u32, SessionError>)
        requires
            self.wf(),
        ensures
            (r is Ok) <==> has_id(self.entries@, id),
            has_id(self.entries@, id) ==> r == Ok::<u32, SessionError>(
                self.entries@[find_idx(self.entries@, id)].pid,
            ),
            !has_id(self.entries@, id) ==> r == Err::<u32, SessionError>(SessionError::NotFound),
    {
        match self.position(id) {
            Some(i) => Ok(self.entries[i].pid),
            None => Err(SessionError::NotFound),
        }
    }

    /// Close a session: its entry is dropped and the id is dead for good
    /// (ids are never reissued).  Closing an unknown id succeeds and changes
    /// nothing, so closing is idempotent.
    pub fn close_session(&mut self, id: u64)
        requires
            old(self).wf(),
        ensures
            final(self).wf(),
            final(self).next_id == old(self).next_id,
            !has_id(final(self).entries@, id),
            has_id(old(self).entries@, id) ==> final(self).entries@ == old(
                self,
            ).entries@.remove(find_idx(old(self).entries@, id)),
            !has_id(old(self).entries@, id) ==> *final(self) == *old(self),
    {
        match self.position(id) {
            Some(i) => {
                proof {
                    lemma_find_idx_valid(old(self).entries@, id);
                }
                self.entries.remove(i);
                proof {
                    assert forall|j: int| 0 <= j < self.entries@.len()
                        implies self.entries@[j].id != id by {
                        if j < i {
                            assert(self.entries@[j] == old(self).entries@[j]);
                        } else {
                            assert(self.entries@[j] == old(self).entries@[j + 1]);
                        }
                    }
                    lemma_find_idx_none(self.entries@, id);
                }
            }
            None => {}
        }
    }
}

} // verus!
