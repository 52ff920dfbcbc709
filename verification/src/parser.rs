use vstd::prelude::*;

use crate::grid::GridModel;
use crate::performer::{csi_apply, ctl_apply, TerminalPerformer};

verus! {

/// Relies on `char::from_u32` of core: it returns the character with the
/// given code exactly when the code is a Unicode scalar value (not a
/// surrogate, not above the Unicode maximum).
pub assume_specification[ char::from_u32 ](i: u32) -> (r: Option<char>)
    ensures
        (r is Some) <==> valid_scalar(i),
        valid_scalar(i) ==> r == Some(i as char),
;

/// A Unicode scalar value: any code point except the surrogate range.
pub open spec fn valid_scalar(i: u32) -> bool {
    i < 0xD800 || (0xDFFF < i && i <= 0x10FFFF)
}

/// The most CSI parameters a sequence may carry; further separators are
/// consumed but their parameters are dropped.
pub const MAX_CSI_PARAMS: usize = 32;

/// States of the escape-sequence recognizer.  A sequence may straddle read
/// boundaries, so the state (including a partially accumulated UTF-8
/// scalar) persists between calls.
#[derive(Clone, Copy, Debug, PartialEq, Eq, Structural)]
pub enum ParseState {
    /// Plain text: printable bytes go to the grid.
    Ground,
    /// An ESC byte was seen.
    Escape,
    /// Inside a control sequence (ESC `[` ... final byte).
    Csi,
    /// Inside an operating-system-command string (ESC `]` ... BEL or ST).
    OscString,
    /// Inside a device-control string (ESC `P` ... ST).
    DcsString,
    /// Collecting the continuation bytes of one UTF-8 scalar.
    Utf8 { need: u8, min: u32, acc: u32 },
}

/// Mathematical model of the whole interpreter: recognizer state, the CSI
/// parameters collected so far, and the grid.
#[verifier::ext_equal]
pub struct InterpModel {
    pub state: ParseState,
    pub params: Seq<u16>,
    pub cur: u16,
    pub has_param: bool,
    pub grid: GridModel,
}

impl InterpModel {
    /// Well-formed interpreter: a well-formed grid, and a UTF-8 accumulator
    /// small enough that one more continuation byte cannot overflow it.
    pub open spec fn wf(self) -> bool {
        &&& self.grid.wf()
        &&& match self.state {
            ParseState::Utf8 { need, min, acc } => acc < 0x2000000,
            _ => true,
        }
    }

    /// The interpreter a fresh session starts with: ground state over a
    /// blank grid.
    pub open spec fn fresh(cols: nat, rows: nat) -> InterpModel {
        InterpModel {
            state: ParseState::Ground,
            params: Seq::empty(),
            cur: 0,
            has_param: false,
            grid: GridModel::fresh(cols, rows),
        }
    }
}

/// A printable ASCII byte.
pub open spec fn is_printable(b: u8) -> bool {
    0x20 <= b && b <= 0x7e
}

/// One parameter appended to a CSI parameter list, dropped once the list is
/// full.
pub open spec fn push_param(ps: Seq<u16>, p: u16) -> Seq<u16> {
    if ps.len() < MAX_CSI_PARAMS as nat {
        ps.push(p)
    } else {
        ps
    }
}

/// A decimal digit shifted into a parameter, saturating at the largest
/// parameter value.
pub open spec fn shift_param(cur: u16, d: u16) -> u16 {
    if cur * 10 + d > u16::MAX {
        u16::MAX
    } else {
        (cur * 10 + d) as u16
    }
}

/// A continuation byte shifted into the UTF-8 accumulator; an accumulator
/// already too large becomes a sentinel above the Unicode maximum, so the
/// malformed sequence is discarded at completion.
pub open spec fn shift_utf8(acc: u32, b: u8) -> u32 {
    if acc < 0x40000 {
        (acc * 64 + (b - 0x80)) as u32
    } else {
        0x110000
    }
}

/// Transition for a byte handled as plain text, whatever state the
/// recognizer was in: controls execute, printables print, ESC opens an
/// escape sequence and UTF-8 leading bytes start an accumulation.
pub open spec fn step_ground(m: InterpModel, b: u8) -> InterpModel {
    if b == 0x1bu8 {
        InterpModel { state: ParseState::Escape, ..m }
    } else if b < 0x20u8 {
        InterpModel { state: ParseState::Ground, grid: ctl_apply(m.grid, b), ..m }
    } else if b <= 0x7eu8 {
        InterpModel { state: ParseState::Ground, grid: m.grid.put_char(b as char), ..m }
    } else if 0xc2u8 <= b && b <= 0xdfu8 {
        InterpModel {
            state: ParseState::Utf8 { need: 1, min: 0x80, acc: (b - 0xc0) as u32 },
            ..m
        }
    } else if 0xe0u8 <= b && b <= 0xefu8 {
        InterpModel {
            state: ParseState::Utf8 { need: 2, min: 0x800, acc: (b - 0xe0) as u32 },
            ..m
        }
    } else if 0xf0u8 <= b && b <= 0xf4u8 {
        InterpModel {
            state: ParseState::Utf8 { need: 3, min: 0x10000, acc: (b - 0xf0) as u32 },
            ..m
        }
    } else {
        // DEL, stray continuation bytes and invalid leading bytes.
        InterpModel { state: ParseState::Ground, ..m }
    }
}

/// Transition for one byte after an ESC: `[`, `]` and `P` open CSI, OSC and
/// DCS sequences; other final bytes end the (discarded) escape sequence;
/// intermediates keep it open; controls still execute.
pub open spec fn step_escape(m: InterpModel, b: u8) -> InterpModel {
    if b == 0x5bu8 {
        InterpModel {
            state: ParseState::Csi,
            params: Seq::empty(),
            cur: 0,
            has_param: false,
            ..m
        }
    } else if b == 0x5du8 {
        InterpModel { state: ParseState::OscString, ..m }
    } else if b == 0x50u8 {
        InterpModel { state: ParseState::DcsString, ..m }
    } else if b == 0x1bu8 {
        m
    } else if b == 0x18u8 || b == 0x1au8 {
        InterpModel { state: ParseState::Ground, ..m }
    } else if b < 0x20u8 {
        InterpModel { grid: ctl_apply(m.grid, b), ..m }
    } else if b <= 0x2fu8 {
        m
    } else if b <= 0x7eu8 {
        InterpModel { state: ParseState::Ground, ..m }
    } else if b == 0x7fu8 {
        m
    } else {
        InterpModel { state: ParseState::Ground, ..m }
    }
}

/// Transition for one byte inside a CSI sequence: digits and separators
/// build the parameter list, a final byte dispatches it, controls still
/// execute, and markers and intermediates are consumed silently.
pub open spec fn step_csi(m: InterpModel, b: u8) -> InterpModel {
    if b == 0x1bu8 {
        InterpModel { state: ParseState::Escape, ..m }
    } else if b == 0x18u8 || b == 0x1au8 {
        InterpModel { state: ParseState::Ground, ..m }
    } else if b < 0x20u8 {
        InterpModel { grid: ctl_apply(m.grid, b), ..m }
    } else if 0x30u8 <= b && b <= 0x39u8 {
        InterpModel { cur: shift_param(m.cur, (b - 0x30) as u16), has_param: true, ..m }
    } else if b == 0x3bu8 || b == 0x3au8 {
        InterpModel { params: push_param(m.params, m.cur), cur: 0, has_param: true, ..m }
    } else if 0x40u8 <= b && b <= 0x7eu8 {
        let ps = if m.has_param {
            push_param(m.params, m.cur)
        } else {
            m.params
        };
        InterpModel {
            state: ParseState::Ground,
            params: Seq::empty(),
            cur: 0,
            has_param: false,
            grid: csi_apply(m.grid, ps, b as char),
        }
    } else if b <= 0x3fu8 || b == 0x7fu8 {
        // Intermediates 0x20-0x2f, private markers 0x3c-0x3f, DEL.
        m
    } else {
        InterpModel { state: ParseState::Ground, ..m }
    }
}

/// Transition for one byte inside an OSC or DCS string: the string is
/// consumed without effect; BEL ends an OSC, ESC ends either (a following
/// `\` completes the ST terminator as a discarded escape sequence), and
/// CAN and SUB abort.
pub open spec fn step_string(m: InterpModel, b: u8, osc: bool) -> InterpModel {
    if b == 0x1bu8 {
        InterpModel { state: ParseState::Escape, ..m }
    } else if b == 0x18u8 || b == 0x1au8 {
        InterpModel { state: ParseState::Ground, ..m }
    } else if osc && b == 0x07u8 {
        InterpModel { state: ParseState::Ground, ..m }
    } else {
        m
    }
}

/// Transition for one byte while collecting a UTF-8 scalar: a continuation
/// byte extends the accumulator and, once complete, prints the scalar if it
/// is valid and not an overlong encoding; any other byte discards the
/// malformed sequence and is handled as plain text.
pub open spec fn step_utf8(m: InterpModel, need: u8, min: u32, acc: u32, b: u8) -> InterpModel {
    if 0x80u8 <= b && b <= 0xbfu8 {
        let acc2 = shift_utf8(acc, b);
        if need <= 1 {
            if min <= acc2 && valid_scalar(acc2) {
                InterpModel { state: ParseState::Ground, grid: m.grid.put_char(acc2 as char), ..m }
            } else {
                InterpModel { state: ParseState::Ground, ..m }
            }
        } else {
            InterpModel { state: ParseState::Utf8 { need: (need - 1) as u8, min, acc: acc2 }, ..m }
        }
    } else {
        step_ground(m, b)
    }
}

/// The interpreter's transition function: one byte applied to one state.
pub open spec fn step(m: InterpModel, b: u8) -> InterpModel {
    match m.state {
        ParseState::Ground => step_ground(m, b),
        ParseState::Escape => step_escape(m, b),
        ParseState::Csi => step_csi(m, b),
        ParseState::OscString => step_string(m, b, true),
        ParseState::DcsString => step_string(m, b, false),
        ParseState::Utf8 { need, min, acc } => step_utf8(m, need, min, acc, b),
    }
}

/// A whole byte sequence applied left to right.
pub open spec fn run(m: InterpModel, bytes: Seq<u8>) -> InterpModel
    decreases bytes.len(),
{
    if bytes.len() == 0 {
        m
    } else {
        run(step(m, bytes[0]), bytes.drop_first())
    }
}

/// Appending one byte to the input applies it last.
pub proof fn lemma_run_push(m: InterpModel, bytes: Seq<u8>, b: u8)
    ensures
        run(m, bytes.push(b)) == step(run(m, bytes), b),
    decreases bytes.len(),
{
    assert(bytes.push(b).len() == bytes.len() + 1);
    if bytes.len() == 0 {
        assert(bytes.push(b)[0] == b);
        assert(bytes.push(b).drop_first() =~= Seq::<u8>::empty());
        assert(run(step(m, b), Seq::<u8>::empty()) == step(m, b));
    } else {
        assert(bytes.push(b)[0] == bytes[0]);
        assert(bytes.push(b).drop_first() =~= bytes.drop_first().push(b));
        lemma_run_push(step(m, bytes[0]), bytes.drop_first(), b);
    }
}

/// The interpreter never stalls and never errors: the transition function is
/// total over bytes, and every step preserves well-formedness, so any byte
/// stream whatsoever leaves a usable interpreter behind.
pub proof fn lemma_step_wf(m: InterpModel, b: u8)
    requires
        m.wf(),
    ensures
        step(m, b).wf(),
{
    if m.state is Csi && 0x40u8 <= b && b <= 0x7eu8 {
        let ps = if m.has_param {
            push_param(m.params, m.cur)
        } else {
            m.params
        };
        crate::performer::lemma_csi_apply_wf(m.grid, ps, b as char);
    }
    crate::performer::lemma_ctl_apply_wf(m.grid, b);
    crate::grid::lemma_put_char_wf(m.grid, b as char);
    if let ParseState::Utf8 { need, min, acc } = m.state {
        crate::grid::lemma_put_char_wf(m.grid, shift_utf8(acc, b) as char);
    }
}

/// The recognizer side of the interpreter: what has been collected of the
/// current escape sequence or UTF-8 scalar.  Grid effects go through a
/// [`TerminalPerformer`].
pub struct AnsiParser {
    pub state: ParseState,
    pub params: Vec<u16>,
    pub cur: u16,
    pub has_param: bool,
}

/// The model that a recognizer and a grid form together.
pub open spec fn interp_of(p: AnsiParser, g: GridModel) -> InterpModel {
    InterpModel { state: p.state, params: p.params@, cur: p.cur, has_param: p.has_param, grid: g }
}

impl AnsiParser {
    /// A recognizer in the ground state.
    pub fn new() -> (p: AnsiParser)
        ensures
            p.state == ParseState::Ground,
            p.params@ == Seq::<u16>::empty(),
            p.cur == 0,
            p.has_param == false,
    {
        let p = AnsiParser { state: ParseState::Ground, params: Vec::new(), cur: 0, has_param: false };
        proof {
            assert(p.params@ =~= Seq::<u16>::empty());
        }
        p
    }

    /// Feed one byte to the interpreter.
    pub fn feed_byte(&mut self, performer: &mut TerminalPerformer, b: u8)
        requires
            interp_of(*old(self), old(performer).grid@).wf(),
        ensures
            interp_of(*final(self), final(performer).grid@)
                == step(interp_of(*old(self), old(performer).grid@), b),
            interp_of(*final(self), final(performer).grid@).wf(),
    {
        match self.state {
            ParseState::Ground => {
                self.ground_byte(performer, b);
            }
            ParseState::Escape => {
                if b == 0x5b {
                    self.state = ParseState::Csi;
                    self.params.clear();
                    self.cur = 0;
                    self.has_param = false;
                    proof {
                        assert(self.params@ =~= Seq::<u16>::empty());
                    }
                } else if b == 0x5d {
                    self.state = ParseState::OscString;
                } else if b == 0x50 {
                    self.state = ParseState::DcsString;
                } else if b == 0x1b {
                } else if b == 0x18 || b == 0x1a {
                    self.state = ParseState::Ground;
                } else if b < 0x20 {
                    performer.execute(b);
                } else if b <= 0x2f {
                } else if b <= 0x7e {
                    self.state = ParseState::Ground;
                } else if b == 0x7f {
                } else {
                    self.state = ParseState::Ground;
                }
            }
            ParseState::Csi => {
                if b == 0x1b {
                    self.state = ParseState::Escape;
                } else if b == 0x18 || b == 0x1a {
                    self.state = ParseState::Ground;
                } else if b < 0x20 {
                    performer.execute(b);
                } else if 0x30 <= b && b <= 0x39 {
                    self.cur = Self::shift(self.cur, (b - 0x30) as u16);
                    self.has_param = true;
                } else if b == 0x3b || b == 0x3a {
                    if self.params.len() < MAX_CSI_PARAMS {
                        self.params.push(self.cur);
                    }
                    self.cur = 0;
                    self.has_param = true;
                } else if 0x40 <= b && b <= 0x7e {
                    if self.has_param {
                        if self.params.len() < MAX_CSI_PARAMS {
                            self.params.push(self.cur);
                        }
                    }
                    performer.csi_dispatch(&self.params, b as char);
                    self.state = ParseState::Ground;
                    self.params.clear();
                    self.cur = 0;
                    self.has_param = false;
                    proof {
                        assert(self.params@ =~= Seq::<u16>::empty());
                    }
                } else if b <= 0x3f || b == 0x7f {
                } else {
                    self.state = ParseState::Ground;
                }
            }
            ParseState::OscString => {
                if b == 0x1b {
                    self.state = ParseState::Escape;
                } else if b == 0x18 || b == 0x1a || b == 0x07 {
                    self.state = ParseState::Ground;
                }
            }
            ParseState::DcsString => {
                if b == 0x1b {
                    self.state = ParseState::Escape;
                } else if b == 0x18 || b == 0x1a {
                    self.state = ParseState::Ground;
                }
            }
            ParseState::Utf8 { need, min, acc } => {
                if 0x80 <= b && b <= 0xbf {
                    let acc2: u32 = if acc < 0x40000 {
                        acc * 64 + (b - 0x80) as u32
                    } else {
                        0x110000
                    };
                    if need <= 1 {
                        self.state = ParseState::Ground;
                        if min <= acc2 {
                            match char::from_u32(acc2) {
                                Some(c) => {
                                    performer.print(c);
                                }
                                None => {}
                            }
                        }
                    } else {
                        self.state = ParseState::Utf8 { need: need - 1, min, acc: acc2 };
                    }
                } else {
                    self.ground_byte(performer, b);
                }
            }
        }
        proof {
            assert(interp_of(*self, performer.grid@)
                =~= step(interp_of(*old(self), old(performer).grid@), b));
        }
    }

    /// Handle one byte as plain text, whatever state the recognizer was in.
    fn ground_byte(&mut self, performer: &mut TerminalPerformer, b: u8)
        requires
            old(performer).grid@.wf(),
        ensures
            interp_of(*final(self), final(performer).grid@)
                == step_ground(interp_of(*old(self), old(performer).grid@), b),
            final(performer).grid@.wf(),
    {
        if b == 0x1b {
            self.state = ParseState::Escape;
        } else if b < 0x20 {
            self.state = ParseState::Ground;
            performer.execute(b);
        } else if b <= 0x7e {
            self.state = ParseState::Ground;
            performer.print(b as char);
        } else if 0xc2 <= b && b <= 0xdf {
            self.state = ParseState::Utf8 { need: 1, min: 0x80, acc: (b - 0xc0) as u32 };
        } else if 0xe0 <= b && b <= 0xef {
            self.state = ParseState::Utf8 { need: 2, min: 0x800, acc: (b - 0xe0) as u32 };
        } else if 0xf0 <= b && b <= 0xf4 {
            self.state = ParseState::Utf8 { need: 3, min: 0x10000, acc: (b - 0xf0) as u32 };
        } else {
            self.state = ParseState::Ground;
        }
        proof {
            assert(interp_of(*self, performer.grid@)
                =~= step_ground(interp_of(*old(self), old(performer).grid@), b));
        }
    }

    /// A decimal digit shifted into the parameter being collected,
    /// saturating rather than overflowing.
    fn shift(cur: u16, d: u16) -> (r: u16)
        requires
            d <= 9,
        ensures
            r == shift_param(cur, d),
    {
        if cur <= 6552 {
            cur * 10 + d
        } else if cur == 6553 && d <= 5 {
            cur * 10 + d
        } else {
            u16::MAX
        }
    }

    /// Feed a whole buffer to the interpreter, byte by byte.  A sequence cut
    /// off at the end of the buffer resumes with the next call.
    pub fn advance(&mut self, performer: &mut TerminalPerformer, bytes: &[u8])
        requires
            interp_of(*old(self), old(performer).grid@).wf(),
        ensures
            interp_of(*final(self), final(performer).grid@)
                == run(interp_of(*old(self), old(performer).grid@), bytes@),
            interp_of(*final(self), final(performer).grid@).wf(),
    {
        let ghost m0 = interp_of(*old(self), old(performer).grid@);
        let mut i: usize = 0;
        while i < bytes.len()
            invariant
                i <= bytes@.len(),
                m0.wf(),
                interp_of(*self, performer.grid@) == run(m0, bytes@.take(i as int)),
                interp_of(*self, performer.grid@).wf(),
            decreases bytes@.len() - i,
        {
            self.feed_byte(performer, bytes[i]);
            proof {
                assert(bytes@.take(i + 1) =~= bytes@.take(i as int).push(bytes@[i as int]));
                lemma_run_push(m0, bytes@.take(i as int), bytes@[i as int]);
            }
            i = i + 1;
        }
        proof {
            assert(bytes@.take(bytes@.len() as int) =~= bytes@);
        }
    }
}

} // verus!
