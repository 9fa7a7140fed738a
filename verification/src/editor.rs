//! The text buffer: an ordered sequence of lines with a 2D cursor.
//!
//! Every operation is total over well-formed states: moves and edits at
//! a buffer boundary are silent no-ops, never errors. The document
//! always holds at least one line, the cursor row always addresses a
//! line, and the cursor column never passes the end of its line (it may
//! sit just past the last character).

use vstd::prelude::*;

use crate::banner::Banner;
use crate::chars::chars_to_string;
use crate::key::Key;

verus! {

/// The saved form of a document: every line, in order, followed by a
/// single newline character (so the last line also ends in one).
pub open spec fn flatten_doc(lines: Seq<Seq<char>>) -> Seq<char>
    decreases lines.len(),
{
    if lines.len() == 0 {
        Seq::empty()
    } else {
        flatten_doc(lines.drop_last()) + lines.last() + seq!['\n']
    }
}

/// The cells of one document line, drawn on screen row `row`: entry
/// `(x, row, c)` places character `c` at column `x` of that row.
pub open spec fn row_cells(line: Seq<char>, row: int) -> Seq<(usize, usize, char)>
    decreases line.len(),
{
    if line.len() == 0 {
        Seq::empty()
    } else {
        row_cells(line.drop_last(), row).push(
            ((line.len() - 1) as usize, row as usize, line.last()),
        )
    }
}

/// The cells of a whole document, row by row from the top.
pub open spec fn doc_cells(lines: Seq<Seq<char>>) -> Seq<(usize, usize, char)>
    decreases lines.len(),
{
    if lines.len() == 0 {
        Seq::empty()
    } else {
        doc_cells(lines.drop_last()) + row_cells(lines.last(), lines.len() - 1)
    }
}

/// Well-formedness of a cursor position `(x, y)` over a document `t`.
pub open spec fn wf_pos(t: Seq<Seq<char>>, x: int, y: int) -> bool {
    &&& t.len() >= 1
    &&& 0 <= y < t.len()
    &&& 0 <= x <= t[y].len()
}

/// Where a forward move from `(x, y)` lands: one column right, or the
/// start of the next line, or (at the end of the document) in place.
pub open spec fn fwd_pos(t: Seq<Seq<char>>, x: int, y: int) -> (int, int) {
    if x < t[y].len() {
        (x + 1, y)
    } else if y < t.len() - 1 {
        (0, y + 1)
    } else {
        (x, y)
    }
}

/// Where a backward move from `(x, y)` lands: one column left, or the
/// end of the previous line, or (at the start of the document) in place.
pub open spec fn back_pos(t: Seq<Seq<char>>, x: int, y: int) -> (int, int) {
    if x > 0 {
        (x - 1, y)
    } else if y > 0 {
        (t[y - 1].len() as int, y - 1)
    } else {
        (x, y)
    }
}

/// Where an upward move from `(x, y)` lands: one row up with the
/// column clamped to that line's length, or (on the first line) in
/// place.
pub open spec fn up_pos(t: Seq<Seq<char>>, x: int, y: int) -> (int, int) {
    if y > 0 {
        (if x <= t[y - 1].len() { x } else { t[y - 1].len() as int }, y - 1)
    } else {
        (x, y)
    }
}

/// Where a downward move from `(x, y)` lands: one row down with the
/// column clamped to that line's length, or (on the last line) in
/// place.
pub open spec fn down_pos(t: Seq<Seq<char>>, x: int, y: int) -> (int, int) {
    if y < t.len() - 1 {
        (if x <= t[y + 1].len() { x } else { t[y + 1].len() as int }, y + 1)
    } else {
        (x, y)
    }
}

/// A forward move followed immediately by a backward move restores the
/// cursor, from every well-formed position except the end of the
/// document (where the forward move is already a no-op but a backward
/// move still retreats).
pub proof fn lemma_forward_backward(t: Seq<Seq<char>>, x: int, y: int)
    requires
        wf_pos(t, x, y),
        !(y == t.len() - 1 && x == t[y].len()),
    ensures
        back_pos(t, fwd_pos(t, x, y).0, fwd_pos(t, x, y).1) == (x, y),
{
}

/// What the driver loop must do next after a key was handled: nothing,
/// or run the save flow (the banner is already capturing the file
/// name).
#[derive(Clone, Copy, PartialEq, Eq, Structural, Debug)]
pub enum EditorAction {
    Idle,
    SavePrompt,
}

/// How an attempt to write the serialized document out ended: the file
/// could not be created, a write to it failed, or everything was
/// written.
#[derive(Clone, Copy, PartialEq, Eq, Structural, Debug)]
pub enum SaveOutcome {
    CreateFailed,
    WriteFailed,
    Written,
}

/// The editor: document, cursor, quit flag, and the status banner.
pub struct Editor {
    /// Cursor column: an index into `text[cursor_y]`, possibly one past
    /// its last character.
    pub cursor_x: usize,
    /// Cursor row: an index into `text`.
    pub cursor_y: usize,
    /// Set once the user asks to quit; the driver loop then stops.
    pub quit: bool,
    /// The document, line by line.
    pub text: Vec<Vec<char>>,
    /// The status banner.
    pub banner: Banner,
}

/// A pure cursor move from `pre` to `post` landing at `p`: the
/// document, banner and quit flag are untouched.
pub open spec fn moved_to(pre: Editor, post: Editor, p: (int, int)) -> bool {
    &&& post.text == pre.text
    &&& post.banner == pre.banner
    &&& post.quit == pre.quit
    &&& (post.cursor_x as int, post.cursor_y as int) == p
}

/// What typing `c` does: `c` enters the current line at the cursor's
/// column, which grows the line by exactly one character, and the
/// cursor advances one column.
pub open spec fn typed_char(pre: Editor, post: Editor, c: char) -> bool {
    &&& post.doc() == pre.doc().update(
        pre.cursor_y as int,
        pre.cur_line().insert(pre.cursor_x as int, c),
    )
    &&& post.cursor_x == pre.cursor_x + 1
    &&& post.cursor_y == pre.cursor_y
    &&& post.banner == pre.banner
    &&& post.quit == pre.quit
}

/// What Enter does: a fresh empty line appears immediately below the
/// cursor's row (the current line is not split) and the cursor moves to
/// the new line's start.
pub open spec fn inserted_newline(pre: Editor, post: Editor) -> bool {
    &&& post.doc() == pre.doc().insert(pre.cursor_y + 1, Seq::<char>::empty())
    &&& post.cursor_x == 0
    &&& post.cursor_y == pre.cursor_y + 1
    &&& post.banner == pre.banner
    &&& post.quit == pre.quit
}

/// What Tab does: four spaces enter the current line at the cursor's
/// column and the cursor advances past them.
pub open spec fn inserted_tab(pre: Editor, post: Editor) -> bool {
    &&& post.doc() == pre.doc().update(
        pre.cursor_y as int,
        pre.cur_line().subrange(0, pre.cursor_x as int) + seq![' ', ' ', ' ', ' ']
            + pre.cur_line().subrange(pre.cursor_x as int, pre.cur_line().len() as int),
    )
    &&& post.cursor_x == pre.cursor_x + 4
    &&& post.cursor_y == pre.cursor_y
    &&& post.banner == pre.banner
    &&& post.quit == pre.quit
}

/// What Backspace does. At the document's start: nothing. Inside a
/// line: the character before the cursor leaves the line and the cursor
/// retreats one column. At the start of a later line: the cursor moves
/// to the end of the previous line, and the line it left is removed
/// only if it is empty — contents are never merged.
pub open spec fn backspaced(pre: Editor, post: Editor) -> bool {
    &&& post.banner == pre.banner
    &&& post.quit == pre.quit
    &&& if pre.cursor_x == 0 && pre.cursor_y == 0 {
        &&& post.doc() == pre.doc()
        &&& post.cursor_x == 0
        &&& post.cursor_y == 0
    } else if pre.cursor_x > 0 {
        &&& post.doc() == pre.doc().update(
            pre.cursor_y as int,
            pre.cur_line().remove(pre.cursor_x - 1),
        )
        &&& post.cursor_x == pre.cursor_x - 1
        &&& post.cursor_y == pre.cursor_y
    } else {
        &&& post.doc() == if pre.cur_line().len() == 0 {
            pre.doc().remove(pre.cursor_y as int)
        } else {
            pre.doc()
        }
        &&& post.cursor_x == pre.doc()[pre.cursor_y - 1].len()
        &&& post.cursor_y == pre.cursor_y - 1
    }
}

impl Editor {
    /// The document as a mathematical sequence of lines.
    pub open spec fn doc(&self) -> Seq<Seq<char>> {
        Seq::new(self.text@.len(), |i: int| self.text@[i]@)
    }

    /// The line the cursor addresses, abstractly.
    pub open spec fn cur_line(&self) -> Seq<char> {
        self.doc()[self.cursor_y as int]
    }

    /// The editor invariant: a well-formed cursor over a non-empty
    /// document, and a well-formed banner.
    pub open spec fn wf(&self) -> bool {
        &&& wf_pos(self.doc(), self.cursor_x as int, self.cursor_y as int)
        &&& self.banner.wf()
    }

    /// A fresh editor: one empty line, cursor at the origin, default
    /// banner hints, not quitting.
    pub fn new() -> (e: Editor)
        ensures
            e.wf(),
            e.doc() =~= seq![Seq::<char>::empty()],
            e.cursor_x == 0,
            e.cursor_y == 0,
            !e.quit,
            e.banner.default_l@ == "AdventureEngine 0.0.1"@,
            e.banner.default_r@ == "Save: ^s  Open: ^o  Quit: ESC"@,
            e.banner.visible is Default,
    {
        let mut text: Vec<Vec<char>> = Vec::new();
        text.push(Vec::new());
        Editor {
            cursor_x: 0,
            cursor_y: 0,
            quit: false,
            text,
            banner: Banner::new(
                "AdventureEngine 0.0.1".to_owned(),
                "Save: ^s  Open: ^o  Quit: ESC".to_owned(),
            ),
        }
    }

    /// Moves the cursor forward, wrapping to the start of the next line
    /// past the end of the current one; a no-op at the document's end.
    pub fn cursor_fwd(&mut self)
        requires
            old(self).wf(),
        ensures
            final(self).wf(),
            moved_to(
                *old(self),
                *final(self),
                fwd_pos(old(self).doc(), old(self).cursor_x as int, old(self).cursor_y as int),
            ),
    {
        let max_x = self.text[self.cursor_y].len();
        let max_y = self.text.len() - 1;
        if self.cursor_x < max_x {
            self.cursor_x = self.cursor_x + 1;
        } else if self.cursor_y < max_y {
            self.cursor_x = 0;
            self.cursor_y = self.cursor_y + 1;
        }
    }

    /// Moves the cursor backward, wrapping to the end of the previous
    /// line from a line start; a no-op at the document's start.
    pub fn cursor_back(&mut self)
        requires
            old(self).wf(),
        ensures
            final(self).wf(),
            moved_to(
                *old(self),
                *final(self),
                back_pos(old(self).doc(), old(self).cursor_x as int, old(self).cursor_y as int),
            ),
    {
        if self.cursor_x > 0 {
            self.cursor_x = self.cursor_x - 1;
        } else if self.cursor_y > 0 {
            self.cursor_y = self.cursor_y - 1;
            self.cursor_x = self.text[self.cursor_y].len();
        }
    }

    /// Moves the cursor up a line, clamping the column to the new
    /// line's length; a no-op on the first line.
    pub fn cursor_up(&mut self)
        requires
            old(self).wf(),
        ensures
            final(self).wf(),
            moved_to(
                *old(self),
                *final(self),
                up_pos(old(self).doc(), old(self).cursor_x as int, old(self).cursor_y as int),
            ),
    {
        if self.cursor_y > 0 {
            self.cursor_y = self.cursor_y - 1;
            let max_x = self.text[self.cursor_y].len();
            if self.cursor_x > max_x {
                self.cursor_x = max_x;
            }
        }
    }

    /// Moves the cursor down a line, clamping the column to the new
    /// line's length; a no-op on the last line.
    pub fn cursor_down(&mut self)
        requires
            old(self).wf(),
        ensures
            final(self).wf(),
            moved_to(
                *old(self),
                *final(self),
                down_pos(old(self).doc(), old(self).cursor_x as int, old(self).cursor_y as int),
            ),
    {
        let max_y = self.text.len() - 1;
        if self.cursor_y < max_y {
            self.cursor_y = self.cursor_y + 1;
            let max_x = self.text[self.cursor_y].len();
            if self.cursor_x > max_x {
                self.cursor_x = max_x;
            }
        }
    }

    /// Inserts `c` at the cursor and advances the cursor one column:
    /// the current line grows by exactly one character.
    pub fn type_char(&mut self, c: char)
        requires
            old(self).wf(),
        ensures
            final(self).wf(),
            typed_char(*old(self), *final(self), c),
            final(self).cur_line().len() == old(self).cur_line().len() + 1,
    {
        self.text[self.cursor_y].insert(self.cursor_x, c);
        self.cursor_fwd();
        proof {
            assert(self.doc() =~= old(self).doc().update(
                old(self).cursor_y as int,
                old(self).cur_line().insert(old(self).cursor_x as int, c),
            ));
        }
    }

    /// Inserts a fresh empty line immediately below the cursor's row
    /// and moves the cursor to its start. The current line keeps all of
    /// its characters: pressing Enter does not split the line.
    pub fn newline(&mut self)
        requires
            old(self).wf(),
        ensures
            final(self).wf(),
            inserted_newline(*old(self), *final(self)),
    {
        let line_count = self.text.len();
        self.text.insert(self.cursor_y + 1, Vec::new());
        self.cursor_down();
        proof {
            assert(line_count == old(self).doc().len());
            assert(self.doc() =~= old(self).doc().insert(
                old(self).cursor_y + 1,
                Seq::<char>::empty(),
            ));
        }
    }

    /// Inserts four spaces at the cursor, each followed by a forward
    /// move: equivalent to typing four spaces.
    pub fn tab(&mut self)
        requires
            old(self).wf(),
        ensures
            final(self).wf(),
            inserted_tab(*old(self), *final(self)),
    {
        self.type_char(' ');
        self.type_char(' ');
        self.type_char(' ');
        self.type_char(' ');
        proof {
            let l = old(self).cur_line();
            let x = old(self).cursor_x as int;
            let y = old(self).cursor_y as int;
            let l4 = l.insert(x, ' ').insert(x + 1, ' ').insert(x + 2, ' ').insert(x + 3, ' ');
            assert(l4 =~= l.subrange(0, x) + seq![' ', ' ', ' ', ' '] + l.subrange(
                x,
                l.len() as int,
            ));
            assert(self.doc() =~= old(self).doc().update(y, l4));
        }
    }

    /// Removes the character before the cursor, or handles a line
    /// start. At the document's start this is a no-op. At the start of
    /// a later line, the cursor moves to the end of the previous line
    /// and the line it left is removed only if that line is empty; line
    /// contents are never merged.
    pub fn backspace(&mut self)
        requires
            old(self).wf(),
        ensures
            final(self).wf(),
            backspaced(*old(self), *final(self)),
    {
        if self.cursor_x == 0 && self.cursor_y == 0 {
            return ;
        }
        if self.cursor_x > 0 {
            self.cursor_back();
            self.text[self.cursor_y].remove(self.cursor_x);
            proof {
                assert(self.doc() =~= old(self).doc().update(
                    old(self).cursor_y as int,
                    old(self).cur_line().remove(old(self).cursor_x - 1),
                ));
            }
        } else {
            self.cursor_back();
            if self.text[self.cursor_y + 1].is_empty() {
                self.text.remove(self.cursor_y + 1);
                proof {
                    assert(self.doc() =~= old(self).doc().remove(old(self).cursor_y as int));
                }
            } else {
                proof {
                    assert(self.doc() =~= old(self).doc());
                }
            }
        }
    }

    /// Whether the user has asked to quit.
    pub fn quit(&self) -> (q: bool)
        ensures
            q == self.quit,
    {
        self.quit
    }

    /// Shows the transient "Open called!" notice; opening files is not
    /// implemented beyond this.
    pub fn open(&mut self, now: u64)
        requires
            old(self).wf(),
            now + 3000 <= u64::MAX,
        ensures
            final(self).wf(),
            final(self).text == old(self).text,
            final(self).cursor_x == old(self).cursor_x,
            final(self).cursor_y == old(self).cursor_y,
            final(self).quit == old(self).quit,
            final(self).banner.visible is Msg,
            final(self).banner.msg@ == "Open called!"@,
            final(self).banner.msg_expiry == now + 3000,
            final(self).banner.default_l == old(self).banner.default_l,
            final(self).banner.default_r == old(self).banner.default_r,
    {
        self.banner.message("Open called!".to_owned(), now, 3000);
    }

    /// Applies one key event to the editor: edits and cursor moves act
    /// on the buffer, Esc asks to quit, Ctrl+o shows the open notice,
    /// and Ctrl+s starts capturing a file name in the banner — the
    /// returned action then tells the driver to run the save flow.
    pub fn handle_key(&mut self, key: Key, now: u64) -> (act: EditorAction)
        requires
            old(self).wf(),
            now + 3000 <= u64::MAX,
        ensures
            final(self).wf(),
            match key {
                Key::Char(c) => act is Idle && typed_char(*old(self), *final(self), c),
                Key::Enter => act is Idle && inserted_newline(*old(self), *final(self)),
                Key::Tab => act is Idle && inserted_tab(*old(self), *final(self)),
                Key::Backspace => act is Idle && backspaced(*old(self), *final(self)),
                Key::Up => act is Idle && moved_to(
                    *old(self),
                    *final(self),
                    up_pos(old(self).doc(), old(self).cursor_x as int, old(self).cursor_y as int),
                ),
                Key::Down => act is Idle && moved_to(
                    *old(self),
                    *final(self),
                    down_pos(
                        old(self).doc(),
                        old(self).cursor_x as int,
                        old(self).cursor_y as int,
                    ),
                ),
                Key::Left => act is Idle && moved_to(
                    *old(self),
                    *final(self),
                    back_pos(
                        old(self).doc(),
                        old(self).cursor_x as int,
                        old(self).cursor_y as int,
                    ),
                ),
                Key::Right => act is Idle && moved_to(
                    *old(self),
                    *final(self),
                    fwd_pos(old(self).doc(), old(self).cursor_x as int, old(self).cursor_y as int),
                ),
                Key::Esc => {
                    &&& act is Idle
                    &&& final(self).quit
                    &&& final(self).text == old(self).text
                    &&& final(self).cursor_x == old(self).cursor_x
                    &&& final(self).cursor_y == old(self).cursor_y
                    &&& final(self).banner == old(self).banner
                },
                Key::Ctrl(c) => {
                    &&& final(self).text == old(self).text
                    &&& final(self).cursor_x == old(self).cursor_x
                    &&& final(self).cursor_y == old(self).cursor_y
                    &&& final(self).quit == old(self).quit
                    &&& if c == 's' {
                        &&& act is SavePrompt
                        &&& final(self).banner.visible is Input
                        &&& final(self).banner.input_label@ == "Save to file: "@
                        &&& final(self).banner.response@ == Seq::<char>::empty()
                        &&& final(self).banner.input_offset == 0
                        &&& final(self).banner.default_l == old(self).banner.default_l
                        &&& final(self).banner.default_r == old(self).banner.default_r
                        &&& final(self).banner.msg == old(self).banner.msg
                        &&& final(self).banner.msg_expiry == old(self).banner.msg_expiry
                    } else if c == 'o' {
                        &&& act is Idle
                        &&& final(self).banner.visible is Msg
                        &&& final(self).banner.msg@ == "Open called!"@
                        &&& final(self).banner.msg_expiry == now + 3000
                        &&& final(self).banner.default_l == old(self).banner.default_l
                        &&& final(self).banner.default_r == old(self).banner.default_r
                    } else {
                        &&& act is Idle
                        &&& final(self).banner == old(self).banner
                    }
                },
            },
    {
        match key {
            Key::Esc => {
                self.quit = true;
                EditorAction::Idle
            },
            Key::Backspace => {
                self.backspace();
                EditorAction::Idle
            },
            Key::Enter => {
                self.newline();
                EditorAction::Idle
            },
            Key::Tab => {
                self.tab();
                EditorAction::Idle
            },
            Key::Ctrl(c) => {
                if c == 's' {
                    self.banner.input_start("Save to file: ".to_owned());
                    EditorAction::SavePrompt
                } else if c == 'o' {
                    self.open(now);
                    EditorAction::Idle
                } else {
                    EditorAction::Idle
                }
            },
            Key::Up => {
                self.cursor_up();
                EditorAction::Idle
            },
            Key::Down => {
                self.cursor_down();
                EditorAction::Idle
            },
            Key::Left => {
                self.cursor_back();
                EditorAction::Idle
            },
            Key::Right => {
                self.cursor_fwd();
                EditorAction::Idle
            },
            Key::Char(c) => {
                self.type_char(c);
                EditorAction::Idle
            },
        }
    }

    /// Records how the save flow ended as a transient banner message:
    /// the failure notices, or "Saved to " followed by the file name.
    /// The document and cursor are untouched either way.
    pub fn save_report(&mut self, outcome: SaveOutcome, path: &String, now: u64)
        requires
            old(self).wf(),
            now + 3000 <= u64::MAX,
        ensures
            final(self).wf(),
            final(self).text == old(self).text,
            final(self).cursor_x == old(self).cursor_x,
            final(self).cursor_y == old(self).cursor_y,
            final(self).quit == old(self).quit,
            final(self).banner.visible is Msg,
            final(self).banner.msg_expiry == now + 3000,
            final(self).banner.msg@ == match outcome {
                SaveOutcome::CreateFailed => "Failed to save file"@,
                SaveOutcome::WriteFailed => "Failed to write to file"@,
                SaveOutcome::Written => "Saved to "@ + path@,
            },
            final(self).banner.default_l == old(self).banner.default_l,
            final(self).banner.default_r == old(self).banner.default_r,
    {
        match outcome {
            SaveOutcome::CreateFailed => {
                self.banner.message("Failed to save file".to_owned(), now, 3000);
            },
            SaveOutcome::WriteFailed => {
                self.banner.message("Failed to write to file".to_owned(), now, 3000);
            },
            SaveOutcome::Written => {
                let mut m = "Saved to ".to_owned();
                m.append(path.as_str());
                self.banner.message(m, now, 3000);
            },
        }
    }

    /// The document in its saved form: the lines joined by newlines,
    /// with a trailing newline after the last line.
    pub fn serialize(&self) -> (s: String)
        ensures
            s@ == flatten_doc(self.doc()),
    {
        let mut out: Vec<char> = Vec::new();
        let mut i: usize = 0;
        while i < self.text.len()
            invariant
                i <= self.text@.len(),
                out@ == flatten_doc(self.doc().take(i as int)),
            decreases self.text@.len() - i,
        {
            let ghost prefix = out@;
            let mut j: usize = 0;
            while j < self.text[i].len()
                invariant
                    i < self.text@.len(),
                    j <= self.text@[i as int]@.len(),
                    out@ == prefix + self.doc()[i as int].take(j as int),
                decreases self.text@[i as int]@.len() - j,
            {
                let c = self.text[i][j];
                out.push(c);
                proof {
                    assert(out@ =~= prefix + self.doc()[i as int].take(j + 1));
                }
                j = j + 1;
            }
            out.push('\n');
            proof {
                let d = self.doc();
                assert(d[i as int].take(d[i as int].len() as int) =~= d[i as int]);
                assert(d.take(i + 1).drop_last() =~= d.take(i as int));
                assert(d.take(i + 1).last() == d[i as int]);
                assert(out@ =~= flatten_doc(d.take(i as int)) + d[i as int] + seq!['\n']);
            }
            i = i + 1;
        }
        proof {
            assert(self.doc().take(self.text@.len() as int) =~= self.doc());
        }
        chars_to_string(&out)
    }

    /// The cells the terminal layer must paint to show the document:
    /// line `y`'s characters on row `y`, starting at column 0. Each
    /// entry `(x, y, c)` is one character at one cell.
    pub fn render_cells(&self) -> (cells: Vec<(usize, usize, char)>)
        ensures
            cells@ == doc_cells(self.doc()),
    {
        let mut out: Vec<(usize, usize, char)> = Vec::new();
        let mut i: usize = 0;
        while i < self.text.len()
            invariant
                i <= self.text@.len(),
                out@ == doc_cells(self.doc().take(i as int)),
            decreases self.text@.len() - i,
        {
            let ghost prefix = out@;
            let mut j: usize = 0;
            while j < self.text[i].len()
                invariant
                    i < self.text@.len(),
                    j <= self.text@[i as int]@.len(),
                    out@ == prefix + row_cells(self.doc()[i as int].take(j as int), i as int),
                decreases self.text@[i as int]@.len() - j,
            {
                let c = self.text[i][j];
                out.push((j, i, c));
                proof {
                    let line = self.doc()[i as int];
                    let t = line.take(j + 1);
                    assert(t.len() == j + 1);
                    assert(t.drop_last() =~= line.take(j as int));
                    assert(t.last() == line[j as int]);
                    assert(row_cells(t, i as int) == row_cells(line.take(j as int), i as int).push(
                        (j, i, c),
                    ));
                }
                j = j + 1;
            }
            proof {
                let d = self.doc();
                let line = d[i as int];
                assert(line.take(line.len() as int) =~= line);
                assert(d.take(i + 1).drop_last() =~= d.take(i as int));
                assert(d.take(i + 1).last() == line);
                assert(out@ =~= doc_cells(d.take(i as int)) + row_cells(line, i as int));
            }
            i = i + 1;
        }
        proof {
            assert(self.doc().take(self.text@.len() as int) =~= self.doc());
        }
        out
    }
}

} // verus!
