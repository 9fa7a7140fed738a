//! The status banner: the single bottom row of the screen.
//!
//! The banner is a small modal state machine. It shows either a pair of
//! static hint strings (`Default`), a transient message with an expiry
//! time (`Msg`), a line-input capture in progress (`Input`), or nothing
//! (`Hidden`). Time enters only as an argument: the caller samples its
//! clock and passes milliseconds in.

use vstd::prelude::*;

use crate::chars::chars_to_string;
use crate::key::Key;

verus! {

/// The starting column of a right-aligned text of `len` characters on
/// a row of `width` cells; pinned to column 0 when the text is wider
/// than the row.
pub open spec fn right_align(width: int, len: int) -> int {
    if len <= width {
        width - len
    } else {
        0
    }
}

/// What one step of the input-capture protocol produced: nothing yet,
/// the captured line (Enter), or an abort (Esc).
#[derive(Debug)]
pub enum InputStep {
    Pending,
    Accepted(String),
    Aborted,
}

/// Which of the four banner modes is active.
#[derive(Clone, Copy, PartialEq, Eq, Structural, Debug)]
pub enum Visible {
    Default,
    Msg,
    Input,
    Hidden,
}

/// An instruction to the terminal layer: draw `text` starting at cell
/// `(x, y)`.
pub struct DrawCmd {
    pub x: usize,
    pub y: usize,
    pub text: String,
}

/// The banner state.
pub struct Banner {
    /// Hint text drawn left-aligned in `Default` mode.
    pub default_l: String,
    /// Hint text drawn right-aligned in `Default` mode.
    pub default_r: String,
    /// The transient message shown in `Msg` mode.
    pub msg: String,
    /// Absolute time, in milliseconds, after which the message expires.
    pub msg_expiry: u64,
    /// The label shown before the captured text in `Input` mode.
    pub input_label: String,
    /// The characters captured so far in `Input` mode.
    pub response: Vec<char>,
    /// The insertion offset within `response`, in `0 ..= response.len()`.
    pub input_offset: usize,
    /// The active mode.
    pub visible: Visible,
}

impl Banner {
    /// The banner's internal invariant: the input offset stays within
    /// the captured text.
    pub open spec fn wf(&self) -> bool {
        self.input_offset <= self.response@.len()
    }

    /// A fresh banner showing the static hints.
    pub fn new(left: String, right: String) -> (b: Banner)
        ensures
            b.wf(),
            b.default_l == left,
            b.default_r == right,
            b.msg@ == Seq::<char>::empty(),
            b.msg_expiry == 0,
            b.response@ == Seq::<char>::empty(),
            b.input_offset == 0,
            b.visible is Default,
    {
        Banner {
            default_l: left,
            default_r: right,
            msg: String::new(),
            msg_expiry: 0,
            input_label: String::new(),
            response: Vec::new(),
            input_offset: 0,
            visible: Visible::Default,
        }
    }

    /// Replaces the persistent hint strings, and returns to `Default`
    /// mode unless a message or an input capture is currently showing.
    pub fn show_default(&mut self, left: String, right: String)
        requires
            old(self).wf(),
        ensures
            final(self).wf(),
            final(self).default_l == left,
            final(self).default_r == right,
            final(self).visible == (if old(self).visible is Msg || old(self).visible is Input {
                old(self).visible
            } else {
                Visible::Default
            }),
            final(self).msg == old(self).msg,
            final(self).msg_expiry == old(self).msg_expiry,
            final(self).input_label == old(self).input_label,
            final(self).response == old(self).response,
            final(self).input_offset == old(self).input_offset,
    {
        self.default_l = left;
        self.default_r = right;
        match self.visible {
            Visible::Msg | Visible::Input => {},
            _ => {
                self.visible = Visible::Default;
            },
        }
    }

    /// Switches to `Msg` mode, showing `msg` until `now + duration`
    /// milliseconds (exclusive).
    pub fn message(&mut self, msg: String, now: u64, duration: u64)
        requires
            old(self).wf(),
            now + duration <= u64::MAX,
        ensures
            final(self).wf(),
            final(self).msg == msg,
            final(self).msg_expiry == now + duration,
            final(self).visible is Msg,
            final(self).default_l == old(self).default_l,
            final(self).default_r == old(self).default_r,
            final(self).input_label == old(self).input_label,
            final(self).response == old(self).response,
            final(self).input_offset == old(self).input_offset,
    {
        self.msg = msg;
        self.msg_expiry = now + duration;
        self.visible = Visible::Msg;
    }

    /// What the bottom row (row `height - 1`) must show at time `now`.
    ///
    /// In `Default` mode: the left hint at column 0 and the right hint
    /// right-aligned. In `Msg` mode: the message at column 0 — unless
    /// `now` has passed the expiry, in which case the mode reverts to
    /// `Default` first and the hints are shown. `Input` and `Hidden`
    /// draw nothing from here.
    pub fn display_banner(&mut self, now: u64, width: usize, height: usize) -> (cmds: Vec<
        DrawCmd,
    >)
        requires
            old(self).wf(),
            height >= 1,
        ensures
            final(self).wf(),
            final(self).default_l == old(self).default_l,
            final(self).default_r == old(self).default_r,
            final(self).msg == old(self).msg,
            final(self).msg_expiry == old(self).msg_expiry,
            final(self).input_label == old(self).input_label,
            final(self).response == old(self).response,
            final(self).input_offset == old(self).input_offset,
            final(self).visible == (if old(self).visible is Msg && now > old(self).msg_expiry {
                Visible::Default
            } else {
                old(self).visible
            }),
            final(self).visible is Default ==> {
                &&& cmds@.len() == 2
                &&& cmds@[0].x == 0
                &&& cmds@[0].y == height - 1
                &&& cmds@[0].text@ == old(self).default_l@
                &&& cmds@[1].x == right_align(width as int, old(self).default_r@.len() as int)
                &&& cmds@[1].y == height - 1
                &&& cmds@[1].text@ == old(self).default_r@
            },
            final(self).visible is Msg ==> {
                &&& cmds@.len() == 1
                &&& cmds@[0].x == 0
                &&& cmds@[0].y == height - 1
                &&& cmds@[0].text@ == old(self).msg@
            },
            final(self).visible is Input || final(self).visible is Hidden ==> cmds@.len() == 0,
    {
        let bot = height - 1;
        let mut cmds: Vec<DrawCmd> = Vec::new();
        if matches!(self.visible, Visible::Msg) && now > self.msg_expiry {
            self.visible = Visible::Default;
        }
        match self.visible {
            Visible::Default => {
                let rlen = self.default_r.as_str().unicode_len();
                let rx = if rlen <= width {
                    width - rlen
                } else {
                    0
                };
                cmds.push(DrawCmd { x: 0, y: bot, text: self.default_l.clone() });
                cmds.push(DrawCmd { x: rx, y: bot, text: self.default_r.clone() });
            },
            Visible::Msg => {
                cmds.push(DrawCmd { x: 0, y: bot, text: self.msg.clone() });
            },
            _ => {},
        }
        cmds
    }

    /// Enters `Input` mode: shows `label` and starts capturing a line
    /// of text at offset 0.
    pub fn input_start(&mut self, label: String)
        requires
            old(self).wf(),
        ensures
            final(self).wf(),
            final(self).visible is Input,
            final(self).input_label == label,
            final(self).response@ == Seq::<char>::empty(),
            final(self).input_offset == 0,
            final(self).default_l == old(self).default_l,
            final(self).default_r == old(self).default_r,
            final(self).msg == old(self).msg,
            final(self).msg_expiry == old(self).msg_expiry,
    {
        self.input_label = label;
        self.response = Vec::new();
        self.input_offset = 0;
        self.visible = Visible::Input;
    }

    /// Feeds one key to the input capture. A printable character is
    /// inserted at the offset; Backspace deletes the character before
    /// the offset (a no-op at offset 0); Left and Right move the offset
    /// within the captured text; Enter accepts, returning the captured
    /// line; Esc aborts. On Enter and Esc the mode reverts to `Default`;
    /// every other key leaves the capture in progress.
    pub fn input_key(&mut self, key: Key) -> (step: InputStep)
        requires
            old(self).wf(),
            old(self).visible is Input,
        ensures
            final(self).wf(),
            final(self).default_l == old(self).default_l,
            final(self).default_r == old(self).default_r,
            final(self).msg == old(self).msg,
            final(self).msg_expiry == old(self).msg_expiry,
            final(self).input_label == old(self).input_label,
            match key {
                Key::Esc => {
                    &&& step is Aborted
                    &&& final(self).visible is Default
                    &&& final(self).response == old(self).response
                    &&& final(self).input_offset == old(self).input_offset
                },
                Key::Enter => {
                    &&& step matches InputStep::Accepted(text) && text@ == old(self).response@
                    &&& final(self).visible is Default
                    &&& final(self).response == old(self).response
                    &&& final(self).input_offset == old(self).input_offset
                },
                Key::Char(c) => {
                    &&& step is Pending
                    &&& final(self).visible is Input
                    &&& final(self).response@ == old(self).response@.insert(
                        old(self).input_offset as int,
                        c,
                    )
                    &&& final(self).input_offset == old(self).input_offset + 1
                },
                Key::Backspace => {
                    &&& step is Pending
                    &&& final(self).visible is Input
                    &&& if old(self).input_offset > 0 {
                        &&& final(self).response@ == old(self).response@.remove(
                            old(self).input_offset - 1,
                        )
                        &&& final(self).input_offset == old(self).input_offset - 1
                    } else {
                        &&& final(self).response == old(self).response
                        &&& final(self).input_offset == 0
                    }
                },
                Key::Left => {
                    &&& step is Pending
                    &&& final(self).visible is Input
                    &&& final(self).response == old(self).response
                    &&& final(self).input_offset as int == if old(self).input_offset > 0 {
                        old(self).input_offset - 1
                    } else {
                        0
                    }
                },
                Key::Right => {
                    &&& step is Pending
                    &&& final(self).visible is Input
                    &&& final(self).response == old(self).response
                    &&& final(self).input_offset as int == if (old(self).input_offset as int) < old(
                        self,
                    ).response@.len() {
                        old(self).input_offset + 1
                    } else {
                        old(self).input_offset as int
                    }
                },
                _ => {
                    &&& step is Pending
                    &&& *final(self) == *old(self)
                },
            },
    {
        match key {
            Key::Esc => {
                self.visible = Visible::Default;
                InputStep::Aborted
            },
            Key::Enter => {
                self.visible = Visible::Default;
                InputStep::Accepted(chars_to_string(&self.response))
            },
            Key::Char(c) => {
                self.response.insert(self.input_offset, c);
                let n: usize = self.response.len();
                proof {
                    assert(self.input_offset < n);
                }
                self.input_offset = self.input_offset + 1;
                InputStep::Pending
            },
            Key::Backspace => {
                if self.input_offset > 0 {
                    self.response.remove(self.input_offset - 1);
                    self.input_offset = self.input_offset - 1;
                }
                InputStep::Pending
            },
            Key::Left => {
                if self.input_offset > 0 {
                    self.input_offset = self.input_offset - 1;
                }
                InputStep::Pending
            },
            Key::Right => {
                if self.input_offset < self.response.len() {
                    self.input_offset = self.input_offset + 1;
                }
                InputStep::Pending
            },
            _ => { InputStep::Pending },
        }
    }
}

} // verus!
