use vstd::prelude::*;

use crate::cell::RenderGrid;
use crate::grid::GridModel;
use crate::parser::{interp_of, run, AnsiParser, InterpModel};
use crate::performer::TerminalPerformer;

verus! {

/// One terminal's interpreted state: the escape recognizer, the grid it
/// drives, and the dirty bit that makes snapshot delivery edge-triggered.
/// The pty itself (reader, writer, child process) lives with the embedding
/// application; this state receives the bytes the application reads.
pub struct TerminalSession {
    pub parser: AnsiParser,
    pub performer: TerminalPerformer,
    pub pending_update: bool,
}

impl TerminalSession {
    /// The interpreter model that the recognizer and the grid form together.
    pub open spec fn interp(self) -> InterpModel {
        interp_of(self.parser, self.performer.grid@)
    }

    /// Well-formed session: a well-formed interpreter.
    pub open spec fn wf(self) -> bool {
        self.interp().wf()
    }

    /// A fresh session at the given geometry.  The dirty bit starts set, so
    /// the first snapshot request delivers the blank grid.
    pub fn new(cols: usize, rows: usize) -> (s: TerminalSession)
        requires
            1 <= cols,
            1 <= rows,
            cols * rows <= usize::MAX,
        ensures
            s.interp() == InterpModel::fresh(cols as nat, rows as nat),
            s.pending_update == true,
            s.wf(),
    {
        let s = TerminalSession {
            parser: AnsiParser::new(),
            performer: TerminalPerformer::new(cols, rows),
            pending_update: true,
        };
        proof {
            assert(s.interp() =~= InterpModel::fresh(cols as nat, rows as nat));
        }
        s
    }

    /// Feed bytes read from the pty into the interpreter.  Returns whether
    /// anything arrived; any data marks the grid dirty.
    pub fn update(&mut self, data: &[u8]) -> (changed: bool)
        requires
            old(self).wf(),
        ensures
            final(self).interp() == run(old(self).interp(), data@),
            changed == (data@.len() > 0),
            final(self).pending_update == (old(self).pending_update || data@.len() > 0),
            final(self).wf(),
    {
        if data.len() > 0 {
            self.parser.advance(&mut self.performer, data);
            self.pending_update = true;
            true
        } else {
            proof {
                assert(run(old(self).interp(), data@) == old(self).interp());
            }
            false
        }
    }

    /// Hard resize: the grid is reinitialized blank at the new geometry and
    /// prior content is discarded.  The recognizer state survives, so an
    /// escape sequence split around a resize still resumes; the mutation
    /// marks the grid dirty.
    pub fn resize(&mut self, cols: usize, rows: usize)
        requires
            old(self).wf(),
            1 <= cols,
            1 <= rows,
            cols * rows <= usize::MAX,
        ensures
            final(self).performer.grid@ == GridModel::fresh(cols as nat, rows as nat),
            final(self).parser == old(self).parser,
            final(self).pending_update == true,
            final(self).wf(),
    {
        self.performer.grid = crate::grid::TerminalGrid::new(cols, rows);
        self.pending_update = true;
    }

    /// Edge-triggered snapshot: a copy of the grid if anything changed since
    /// the last call, and nothing otherwise.  Taking the snapshot clears the
    /// dirty bit; the interpreter state is untouched.
    pub fn get_render_grid(&mut self) -> (r: Option<RenderGrid>)
        requires
            old(self).wf(),
        ensures
            final(self).interp() == old(self).interp(),
            final(self).pending_update == false,
            (r is Some) <==> old(self).pending_update,
            (r matches Some(snap) ==> snap.cols == old(self).performer.grid@.cols
                && snap.rows == old(self).performer.grid@.rows
                && snap.cells@ == old(self).performer.grid@.cells),
            final(self).wf(),
    {
        if !self.pending_update {
            return None;
        }
        let snap = self.performer.grid.to_render_grid();
        self.pending_update = false;
        Some(snap)
    }
}

/// What one read attempt on the pty produced, reported by the embedding
/// application as plain data.
pub enum ReadOutcome {
    /// The read returned this many bytes (zero means end of stream).
    Bytes(Vec<u8>),
    /// The descriptor had nothing to deliver right now.
    WouldBlock,
    /// Another read was already in flight; this attempt did not wait.
    Busy,
    /// The read failed outright.
    Fault,
}

/// What the session loop should make of a read attempt.
pub enum PtyRead {
    /// Bytes to feed to the interpreter or forward to the display sink.
    Data(Vec<u8>),
    /// Nothing arrived; try again next tick.
    Empty,
    /// End of stream: the child side is gone.
    Closed,
    /// A genuine fault: this session's loop must end.
    Failed,
}

/// The nonblocking-read discipline: data only when bytes actually arrived,
/// end of stream when the read returned empty-handed, no data (never a
/// wait, never an error) when the descriptor would block or another read
/// holds the reader, and a fault only on a genuine error.
pub open spec fn classify_spec(o: ReadOutcome) -> PtyRead {
    match o {
        ReadOutcome::Bytes(v) => if v@.len() == 0 {
            PtyRead::Closed
        } else {
            PtyRead::Data(v)
        },
        ReadOutcome::WouldBlock => PtyRead::Empty,
        ReadOutcome::Busy => PtyRead::Empty,
        ReadOutcome::Fault => PtyRead::Failed,
    }
}

/// Classify one read attempt.  Contention and an empty descriptor both yield
/// "no data" rather than blocking; the deferred bytes stay buffered at the
/// pty and are picked up by a later tick.
pub fn classify_read(outcome: ReadOutcome) -> (r: PtyRead)
    ensures
        r == classify_spec(outcome),
{
    match outcome {
        ReadOutcome::Bytes(v) => {
            if v.len() == 0 {
                PtyRead::Closed
            } else {
                PtyRead::Data(v)
            }
        }
        ReadOutcome::WouldBlock => PtyRead::Empty,
        ReadOutcome::Busy => PtyRead::Empty,
        ReadOutcome::Fault => PtyRead::Failed,
    }
}

/// What one tick of the update loop does next.
#[derive(Clone, Copy, Debug, PartialEq, Eq, Structural)]
pub struct TickPlan {
    /// Feed the bytes that arrived to the interpreter (or forward them).
    pub feed: bool,
    /// Leave the loop and release the session's resources.
    pub exit: bool,
}

/// Decide one tick of the per-session update loop: arrived bytes are fed,
/// and the loop ends exactly when the stream closed, a read failed, or the
/// child died.  An empty read never ends the loop.
pub fn plan_tick(read: &PtyRead, alive: bool) -> (t: TickPlan)
    ensures
        t.feed == (read matches PtyRead::Data(_)),
        t.exit == (!alive || (read is Closed) || (read is Failed)),
{
    let feed = match read {
        PtyRead::Data(_) => true,
        _ => false,
    };
    let ended = match read {
        PtyRead::Closed => true,
        PtyRead::Failed => true,
        _ => false,
    };
    TickPlan { feed, exit: !alive || ended }
}

/// The environment forced on the child shell so it behaves as an interactive
/// color terminal whatever environment the application inherited: terminal
/// type, color support and locale.
pub fn interactive_env() -> (r: Vec<(String, String)>)
    ensures
        r@.len() == 3,
        r@[0].0@ == "TERM"@,
        r@[0].1@ == "xterm-256color"@,
        r@[1].0@ == "COLORTERM"@,
        r@[1].1@ == "truecolor"@,
        r@[2].0@ == "LANG"@,
        r@[2].1@ == "en_US.UTF-8"@,
{
    let mut r: Vec<(String, String)> = Vec::new();
    r.push(("TERM".to_owned(), "xterm-256color".to_owned()));
    r.push(("COLORTERM".to_owned(), "truecolor".to_owned()));
    r.push(("LANG".to_owned(), "en_US.UTF-8".to_owned()));
    r
}

} // verus!
