//! The code editor: a text area of the `tui-textarea` crate, with its text,
//! cursor and selection as the engine reasons about them.
//!
//! Verus does not read the text area. What this module states of it is taken
//! from its source and believed, not proved: each function below that calls
//! the text area says in its contract what that call does to the three
//! things modelled here. The engine is verified against those contracts.

use vstd::prelude::*;
use vstd::string::*;
use tui_textarea::{CursorMove, Input, TextArea};
use crate::text::{line_end, texts, without_cr};

verus! {

/// A key press as the text area takes it. Nothing is read from it here: it
/// is only handed on to the text area.
#[verifier::external_type_specification]
#[verifier::external_body]
pub struct ExInput(Input);

/// The editor. It holds the text area; nothing else can reach it.
///
/// Believed of every editor: its text has at least one line, its cursor
/// stands on one of the lines, and so does the start of its selection while
/// there is one. The text area starts that way, ends a selection before it
/// changes the text, and indexes its lines by the cursor row in nearly every
/// method without a test, so each of its methods keeps it so.
#[verifier::external_body]
pub struct Editor {
    area: TextArea<'static>,
}

/// The lines of text in the editor.
pub uninterp spec fn editor_lines(editor: Editor) -> Seq<Seq<char>>;

/// The cursor of the editor: row and column, counted from 0 in characters.
pub uninterp spec fn editor_cursor(editor: Editor) -> (nat, nat);

/// Where the selection of the editor started, while text is being selected.
/// The selection reaches from there to the cursor.
pub uninterp spec fn editor_selection(editor: Editor) -> Option<(nat, nat)>;

/// Text, cursor and selection of an editor.
pub struct Buffer {
    pub lines: Seq<Seq<char>>,
    pub cursor: (nat, nat),
    pub selection: Option<(nat, nat)>,
}

/// A way to move the cursor.
#[derive(Clone, Copy, Debug)]
pub enum Motion {
    /// To the start of the line.
    Head,
    /// To the end of the line.
    End,
    /// To the first line.
    Top,
    /// To the last line.
    Bottom,
    /// One line down.
    Down,
}

/// The column `col` on a line, or the end of the line if it is shorter.
pub open spec fn fit(col: nat, line: Seq<char>) -> nat {
    if col <= line.len() {
        col
    } else {
        line.len() as nat
    }
}

impl Buffer {
    /// The buffer is one that an editor can be in.
    pub open spec fn sound(self) -> bool {
        &&& self.lines.len() >= 1
        &&& self.cursor.0 < self.lines.len()
        &&& self.selection matches Some(start) ==> start.0 < self.lines.len()
    }

    /// Whether position `a` comes before position `b` in the text.
    pub open spec fn before(self, a: (nat, nat), b: (nat, nat)) -> bool {
        a.0 < b.0 || (a.0 == b.0 && fit(a.1, self.lines[a.0 as int]) < fit(
            b.1,
            self.lines[b.0 as int],
        ))
    }

    /// The two ends of the selected text, the earlier one first, or `None`
    /// where no text is selected.
    pub open spec fn selected(self) -> Option<((nat, nat), (nat, nat))> {
        match self.selection {
            None => None,
            Some(start) => if self.before(start, self.cursor) {
                Some((start, self.cursor))
            } else if self.before(self.cursor, start) {
                Some((self.cursor, start))
            } else {
                None
            },
        }
    }

    /// The text without what stands between `a` and `b`.
    pub open spec fn without(self, a: (nat, nat), b: (nat, nat)) -> Seq<Seq<char>> {
        let first = self.lines[a.0 as int];
        let last = self.lines[b.0 as int];
        self.lines.take(a.0 as int) + seq![
            first.take(fit(a.1, first) as int) + last.skip(fit(b.1, last) as int),
        ] + self.lines.skip(b.0 as int + 1)
    }

    /// The buffer after the selection has ended: the selected text is
    /// removed and the cursor stands where it began.
    pub open spec fn unselected(self) -> Buffer {
        match self.selected() {
            None => Buffer { selection: None, ..self },
            Some((a, b)) => Buffer { lines: self.without(a, b), cursor: a, selection: None },
        }
    }

    /// The buffer after a cursor movement. Neither text nor selection change.
    pub open spec fn moved(self, motion: Motion) -> Buffer {
        let (row, col) = self.cursor;
        let last = (self.lines.len() - 1) as nat;
        let cursor = match motion {
            Motion::Head => (row, 0nat),
            Motion::End => (row, self.lines[row as int].len()),
            Motion::Top => (0nat, fit(col, self.lines[0])),
            Motion::Bottom => (last, fit(col, self.lines[last as int])),
            Motion::Down => if row + 1 < self.lines.len() {
                ((row + 1) as nat, fit(col, self.lines[row as int + 1]))
            } else {
                (row, col)
            },
        };
        Buffer { cursor, ..self }
    }

    /// The buffer with the selection starting at the cursor.
    pub open spec fn selecting(self) -> Buffer {
        Buffer { selection: Some(self.cursor), ..self }
    }

    /// The buffer after a line break is put in at the cursor: the selection
    /// ends, the line is split in two, and the cursor stands at the start of
    /// the second.
    pub open spec fn broken(self) -> Buffer {
        let b = self.unselected();
        let (row, col) = b.cursor;
        let line = b.lines[row as int];
        let at = fit(col, line) as int;
        Buffer {
            lines: b.lines.take(row as int) + seq![line.take(at), line.skip(at)] + b.lines.skip(
                row as int + 1,
            ),
            cursor: ((row + 1) as nat, 0),
            selection: None,
        }
    }

    /// The buffer after the line break before the cursor's line is taken
    /// out. Where text is selected, that text is removed instead. On the
    /// first line there is no such line break and the text stays.
    pub open spec fn joined(self) -> Buffer {
        let (row, col) = self.cursor;
        if self.selected() is Some || row == 0 {
            self.unselected()
        } else {
            let above = self.lines[row - 1];
            Buffer {
                lines: self.lines.take(row - 1) + seq![above + self.lines[row as int]]
                    + self.lines.skip(row as int + 1),
                cursor: ((row - 1) as nat, above.len()),
                selection: None,
            }
        }
    }

    /// The buffer after `text` is put in at the cursor. The selection ends
    /// first. Line feeds in `text` start new lines.
    pub open spec fn with_text(self, text: Seq<char>) -> Buffer {
        let b = self.unselected();
        let (row, col) = b.cursor;
        let line = b.lines[row as int];
        let at = fit(col, line) as int;
        let parts = pieces(text);
        let n = parts.len() as int;
        if n == 1 {
            if parts[0].len() == 0 {
                b
            } else {
                Buffer {
                    lines: b.lines.update(row as int, line.take(at) + parts[0] + line.skip(at)),
                    cursor: (row, col + parts[0].len()),
                    selection: None,
                }
            }
        } else {
            Buffer {
                lines: b.lines.take(row as int) + seq![line.take(at) + parts[0]] + parts.subrange(
                    1,
                    n - 1,
                ) + seq![parts[n - 1] + line.skip(at)] + b.lines.skip(row as int + 1),
                cursor: ((row + n - 1) as nat, parts[n - 1].len()),
                selection: None,
            }
        }
    }
}

/// The pieces that `text` falls into at its line feeds, each without a
/// carriage return at its end. There is always at least one piece.
pub open spec fn pieces(text: Seq<char>) -> Seq<Seq<char>>
    decreases text.len(),
{
    let k = line_end(text);
    if k >= text.len() {
        seq![without_cr(text)]
    } else {
        seq![without_cr(text.take(k as int))] + pieces(text.skip(k as int + 1))
    }
}

impl View for Editor {
    type V = Buffer;

    open spec fn view(&self) -> Buffer {
        Buffer {
            lines: editor_lines(*self),
            cursor: editor_cursor(*self),
            selection: editor_selection(*self),
        }
    }
}

impl Editor {
    /// What is believed of every editor. The functions below that make or
    /// change an editor are taken to keep this; none of them is verified.
    #[verifier::type_invariant]
    pub open spec fn sound(self) -> bool {
        self@.sound()
    }

    /// `TextArea::new`: an editor on the given lines, with the cursor at the
    /// start of the first line and nothing selected. Given no lines, the text
    /// is one empty line.
    #[verifier::external_body]
    pub(crate) fn new(lines: Vec<String>) -> (editor: Editor)
        ensures
            editor_lines(editor) == if lines@.len() == 0 {
                seq![Seq::<char>::empty()]
            } else {
                texts(lines@)
            },
            editor_cursor(editor) == (0nat, 0nat),
            editor_selection(editor) is None,
    {
        Editor { area: TextArea::new(lines) }
    }

    /// `TextArea::lines`: the lines of text, copied.
    #[verifier::external_body]
    pub(crate) fn lines(&self) -> (lines: Vec<String>)
        ensures
            texts(lines@) == editor_lines(*self),
    {
        self.area.lines().to_vec()
    }

    /// `TextArea::cursor`: row and column of the cursor.
    #[verifier::external_body]
    pub(crate) fn cursor(&self) -> (pos: (usize, usize))
        ensures
            (pos.0 as nat, pos.1 as nat) == editor_cursor(*self),
    {
        self.area.cursor()
    }

    /// `TextArea::move_cursor`, for the five movements of `Motion`. The
    /// cursor keeps its column where the line it comes to is long enough,
    /// and moving down from the last line does nothing.
    #[verifier::external_body]
    pub(crate) fn move_cursor(&mut self, motion: Motion)
        ensures
            final(self)@ == old(self)@.moved(motion),
    {
        self.area.move_cursor(
            match motion {
                Motion::Head => CursorMove::Head,
                Motion::End => CursorMove::End,
                Motion::Top => CursorMove::Top,
                Motion::Bottom => CursorMove::Bottom,
                Motion::Down => CursorMove::Down,
            },
        )
    }

    /// `TextArea::start_selection`: the selection starts at the cursor.
    #[verifier::external_body]
    pub(crate) fn start_selection(&mut self)
        ensures
            final(self)@ == old(self)@.selecting(),
    {
        self.area.start_selection()
    }

    /// `TextArea::cut`: ends the selection, removes the selected text, puts
    /// the cursor where that text began, and says whether there was any.
    #[verifier::external_body]
    pub(crate) fn cut(&mut self) -> (changed: bool)
        ensures
            final(self)@ == old(self)@.unselected(),
            changed == old(self)@.selected() is Some,
    {
        self.area.cut()
    }

    /// `TextArea::delete_newline`: joins the cursor's line to the one above,
    /// or removes the selected text where there is some, and says whether
    /// the text changed.
    #[verifier::external_body]
    pub(crate) fn delete_newline(&mut self) -> (changed: bool)
        ensures
            final(self)@ == old(self)@.joined(),
            changed == (old(self)@.selected() is Some || editor_cursor(*old(self)).0 > 0),
    {
        self.area.delete_newline()
    }

    /// `TextArea::insert_newline`: removes the selected text if there is
    /// any, then breaks the line at the cursor.
    #[verifier::external_body]
    pub(crate) fn insert_newline(&mut self)
        ensures
            final(self)@ == old(self)@.broken(),
    {
        self.area.insert_newline()
    }

    /// `TextArea::insert_str`: removes the selected text if there is any,
    /// then puts `text` in at the cursor, with a new line for each line feed
    /// in it.
    #[verifier::external_body]
    pub(crate) fn insert_str(&mut self, text: &str)
        ensures
            final(self)@ == old(self)@.with_text(text@),
    {
        self.area.insert_str(text);
    }

    /// `TextArea::undo`: takes back the last change, if there is one. Which
    /// one that is lies in the text area's history, of which nothing is
    /// stated here.
    #[verifier::external_body]
    pub(crate) fn undo(&mut self) -> (changed: bool) {
        self.area.undo()
    }

    /// `TextArea::redo`: makes the change again that was last taken back.
    #[verifier::external_body]
    pub(crate) fn redo(&mut self) -> (changed: bool) {
        self.area.redo()
    }

    /// `TextArea::input`: hands a key to the text area, which edits the text
    /// or moves the cursor by its own key bindings.
    #[verifier::external_body]
    pub(crate) fn input(&mut self, input: Input) -> (changed: bool) {
        self.area.input(input)
    }
}

} // verus!
