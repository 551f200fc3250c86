//! The commands that work on the editor's text: deleting, yanking and
//! pasting a line, and going to a line. Deleting and pasting are refused on
//! a locked line.

use vstd::prelude::*;
use vstd::string::*;
use crate::editor::{pieces, Buffer, Motion};
use crate::game::app::App;
use crate::game::messages::{
    fixed, line_position_message, line_position_text, yanked_message, yanked_text, LOCKED_PASTE,
    NOTHING_TO_PASTE, PASTED, SEALED_LINE,
};
use crate::game::state::{Color, MessageStyle};
use crate::text::{line_end, texts};

verus! {

/// The buffer after the cursor's line is deleted. The line is taken out and
/// the cursor goes to the end of the line above. The first line, which has
/// none above, and a line that is the only one, are emptied and stay. The
/// selection ends, and what was selected stays.
pub open spec fn line_deleted(b: Buffer) -> Buffer {
    let row = b.cursor.0;
    if b.lines.len() > 1 && row > 0 {
        Buffer {
            lines: b.lines.remove(row as int),
            cursor: ((row - 1) as nat, b.lines[row - 1].len()),
            selection: None,
        }
    } else {
        Buffer {
            lines: b.lines.update(row as int, Seq::empty()),
            cursor: (row, 0),
            selection: None,
        }
    }
}

/// The row that `goto_line` goes to when asked for line `line`, numbered
/// from 1, in a text of `count` lines: that line if there is one, else the
/// last; and the first for line 0.
pub open spec fn target_row(line: nat, count: nat) -> nat {
    let number = if line <= count {
        line
    } else {
        count
    };
    if number == 0 {
        0
    } else {
        (number - 1) as nat
    }
}

/// The buffer with the cursor at the start of line `row`.
pub open spec fn at_line(b: Buffer, row: nat) -> Buffer {
    Buffer { cursor: (row, 0), ..b }
}

/// The buffer after `text` is pasted below the cursor's line: the cursor
/// goes to the end of its line, a line break is put in, and `text` after
/// it.
pub open spec fn pasted_below(b: Buffer, text: Seq<char>) -> Buffer {
    b.moved(Motion::End).broken().with_text(text)
}

/// Pasting one line while no selection is going on puts that line in below
/// the cursor's line and the cursor at its end. Nothing else of the text
/// changes.
pub proof fn lemma_paste_of_a_line(b: Buffer, text: Seq<char>)
    requires
        b.sound(),
        b.selection is None,
        text.len() > 0,
        line_end(text) == text.len(),
        text.last() != '\r',
    ensures
        pasted_below(b, text) == (Buffer {
            lines: b.lines.take(b.cursor.0 as int + 1) + seq![text] + b.lines.skip(
                b.cursor.0 as int + 1,
            ),
            cursor: ((b.cursor.0 + 1) as nat, text.len()),
            selection: None,
        }),
{
    let row = b.cursor.0 as int;
    let line = b.lines[row];
    let at_end = b.moved(Motion::End);
    assert(at_end.selected() is None);
    let broken = at_end.broken();
    assert(line.take(line.len() as int) =~= line);
    assert(line.skip(line.len() as int) =~= Seq::<char>::empty());
    assert(broken.lines =~= b.lines.take(row + 1) + seq![Seq::<char>::empty()] + b.lines.skip(
        row + 1,
    ));
    assert(pieces(text) =~= seq![text]);
    let done = broken.with_text(text);
    assert(Seq::<char>::empty().take(0) + text + Seq::<char>::empty().skip(0) =~= text);
    assert(done.lines =~= b.lines.take(row + 1) + seq![text] + b.lines.skip(row + 1));
}

impl App {
    /// The lines of text in the editor.
    pub fn editor_lines(&self) -> (lines: Vec<String>)
        ensures
            texts(lines@) == self.editor@.lines,
            lines@.len() >= 1,
    {
        proof {
            use_type_invariant(&self.editor);
        }
        self.editor.lines()
    }

    /// Where the cursor of the editor stands: row and column, counted from
    /// 0. The row is one of the editor's lines.
    pub fn cursor(&self) -> (position: (usize, usize))
        ensures
            (position.0 as nat, position.1 as nat) == self.editor@.cursor,
            position.0 < self.editor@.lines.len(),
    {
        proof {
            use_type_invariant(&self.editor);
        }
        self.editor.cursor()
    }

    /// What `delete_line` makes of the game. On a locked line nothing
    /// changes but the message, which refuses.
    pub open spec fn line_removed(pre: App, post: App) -> bool {
        if pre.locks(pre.editor@.cursor.0) {
            &&& post == App {
                message: post.message,
                message_style: MessageStyle::plain(Color::Magenta),
                ..pre
            }
            &&& post.message@ == SEALED_LINE@
        } else {
            &&& post == App { editor: post.editor, ..pre }
            &&& post.editor@ == line_deleted(pre.editor@)
        }
    }

    /// Deletes the line that the cursor is on.
    pub fn delete_line(&mut self)
        ensures
            Self::line_removed(*old(self), *final(self)),
    {
        let (row, _) = self.editor.cursor();
        if self.is_line_locked(row) {
            self.message = fixed(SEALED_LINE);
            self.message_style = MessageStyle::of(Color::Magenta);
            return;
        }
        let ghost b = self.editor@;
        proof {
            use_type_invariant(&self.editor);
        }
        self.editor.move_cursor(Motion::Head);
        self.editor.move_cursor(Motion::End);
        self.editor.start_selection();
        self.editor.move_cursor(Motion::Head);
        let ghost marked = self.editor@;
        self.editor.cut();
        let ghost emptied = self.editor@;
        proof {
            let line = b.lines[row as int];
            assert(marked.lines == b.lines);
            assert(marked.cursor == (row as nat, 0nat));
            assert(marked.selection == Some((row as nat, line.len())));
            if line.len() > 0 {
                assert(marked.selected() == Some(((row as nat, 0nat), (row as nat, line.len()))));
                assert(line.take(0) + line.skip(line.len() as int) =~= Seq::<char>::empty());
                assert(marked.without((row as nat, 0nat), (row as nat, line.len()))
                    =~= b.lines.update(row as int, Seq::empty()));
            } else {
                assert(marked.selected() is None);
                assert(line =~= Seq::<char>::empty());
                assert(b.lines =~= b.lines.update(row as int, Seq::empty()));
            }
            assert(emptied.lines == b.lines.update(row as int, Seq::empty()));
            assert(emptied.cursor == (row as nat, 0nat));
            assert(emptied.selection is None);
        }
        let count = self.editor.lines().len();
        if count > 1 {
            self.editor.delete_newline();
            proof {
                assert(emptied.selected() is None);
                if row > 0 {
                    let above = emptied.lines[row - 1];
                    assert(above + emptied.lines[row as int] =~= above);
                    assert(emptied.lines.take(row - 1) + seq![above] + emptied.lines.skip(row + 1)
                        =~= b.lines.remove(row as int));
                }
            }
        }
    }

    /// What `goto_line` makes of the game: the cursor stands at the start
    /// of the line asked for, and the message says where that is.
    pub open spec fn line_reached(pre: App, line: usize, post: App) -> bool {
        let count = pre.editor@.lines.len();
        let row = target_row(line as nat, count);
        &&& post == App {
            editor: post.editor,
            message: post.message,
            message_style: MessageStyle::plain(Color::DarkGray),
            ..pre
        }
        &&& post.editor@ == at_line(pre.editor@, row)
        &&& post.message@ == line_position_text(row + 1, count)
    }

    /// Puts the cursor at the start of line `line`, numbered from 1.
    pub fn goto_line(&mut self, line: usize)
        ensures
            Self::line_reached(*old(self), line, *final(self)),
    {
        let ghost b = self.editor@;
        let ghost pre = *self;
        proof {
            use_type_invariant(&self.editor);
        }
        let count = self.editor.lines().len();
        let number = if line <= count {
            line
        } else {
            count
        };
        let target = if number == 0 {
            0
        } else {
            number - 1
        };
        self.editor.move_cursor(Motion::Top);
        let mut row: usize = 0;
        while row < target
            invariant
                row <= target < count,
                count == b.lines.len(),
                *self == (App { editor: self.editor, ..pre }),
                self.editor@.lines == b.lines,
                self.editor@.selection == b.selection,
                self.editor@.cursor.0 == row,
            decreases target - row,
        {
            self.editor.move_cursor(Motion::Down);
            row += 1;
        }
        self.editor.move_cursor(Motion::Head);
        self.message = line_position_message(target + 1, count);
        self.message_style = MessageStyle::of(Color::DarkGray);
    }

    /// What `goto_top` makes of the game: the cursor stands at the start of
    /// the text.
    pub open spec fn top_reached(pre: App, post: App) -> bool {
        &&& post == App { editor: post.editor, ..pre }
        &&& post.editor@ == at_line(pre.editor@, 0)
    }

    /// Puts the cursor at the start of the first line.
    pub fn goto_top(&mut self)
        ensures
            Self::top_reached(*old(self), *final(self)),
    {
        self.editor.move_cursor(Motion::Top);
        self.editor.move_cursor(Motion::Head);
    }

    /// What `goto_bottom` makes of the game: the cursor stands at the start
    /// of the last line.
    pub open spec fn bottom_reached(pre: App, post: App) -> bool {
        &&& post == App { editor: post.editor, ..pre }
        &&& post.editor@ == at_line(pre.editor@, (pre.editor@.lines.len() - 1) as nat)
    }

    /// Puts the cursor at the start of the last line.
    pub fn goto_bottom(&mut self)
        ensures
            Self::bottom_reached(*old(self), *final(self)),
    {
        proof {
            use_type_invariant(&self.editor);
        }
        self.editor.move_cursor(Motion::Bottom);
        self.editor.move_cursor(Motion::Head);
    }

    /// What `yank_line` makes of the game: the cursor's line is in the yank
    /// buffer, and the message shows it.
    pub open spec fn line_yanked(pre: App, post: App) -> bool {
        let line = pre.editor@.lines[pre.editor@.cursor.0 as int];
        &&& post == App {
            yank_buffer: post.yank_buffer,
            message: post.message,
            message_style: MessageStyle::plain(Color::DarkGray),
            ..pre
        }
        &&& post.yank_buffer@ == line
        &&& post.message@ == yanked_text(line)
    }

    /// Copies the line that the cursor is on.
    pub fn yank_line(&mut self)
        ensures
            Self::line_yanked(*old(self), *final(self)),
    {
        proof {
            use_type_invariant(&self.editor);
        }
        let (row, _) = self.editor.cursor();
        let lines = self.editor.lines();
        assert(texts(lines@)[row as int] == lines@[row as int]@);
        self.yank_buffer = lines[row].clone();
        self.message = yanked_message(self.yank_buffer.as_str());
        self.message_style = MessageStyle::of(Color::DarkGray);
    }

    /// What `paste_line` makes of the game. With nothing yanked, and on a
    /// locked line, nothing changes but the message.
    pub open spec fn line_pasted(pre: App, post: App) -> bool {
        if pre.yank_buffer@.len() == 0 {
            &&& post == App {
                message: post.message,
                message_style: MessageStyle::plain(Color::DarkGray),
                ..pre
            }
            &&& post.message@ == NOTHING_TO_PASTE@
        } else if pre.locks(pre.editor@.cursor.0) {
            &&& post == App {
                message: post.message,
                message_style: MessageStyle::plain(Color::Magenta),
                ..pre
            }
            &&& post.message@ == LOCKED_PASTE@
        } else {
            &&& post == App {
                editor: post.editor,
                message: post.message,
                message_style: MessageStyle::plain(Color::DarkGray),
                ..pre
            }
            &&& post.editor@ == pasted_below(pre.editor@, pre.yank_buffer@)
            &&& post.message@ == PASTED@
        }
    }

    /// Pastes the yanked line below the line that the cursor is on.
    pub fn paste_line(&mut self)
        ensures
            Self::line_pasted(*old(self), *final(self)),
    {
        if self.yank_buffer.as_str().is_empty() {
            self.message = fixed(NOTHING_TO_PASTE);
            self.message_style = MessageStyle::of(Color::DarkGray);
            return;
        }
        let (row, _) = self.editor.cursor();
        if self.is_line_locked(row) {
            self.message = fixed(LOCKED_PASTE);
            self.message_style = MessageStyle::of(Color::Magenta);
            return;
        }
        self.editor.move_cursor(Motion::End);
        self.editor.insert_newline();
        self.editor.insert_str(self.yank_buffer.as_str());
        self.message = fixed(PASTED);
        self.message_style = MessageStyle::of(Color::DarkGray);
    }
}

} // verus!
