//! The line editor: collects a fixed-length guess from single key events.
//!
//! The editor holds a buffer of `length` slots, each a placeholder blank or a
//! letter, and a cursor in `[0, length]`. A character key writes at the cursor
//! and advances it; backspace retreats the cursor and blanks the slot; submit
//! completes only when the buffer is full; every other key is ignored. The
//! caller repaints the line after each event that reports `Redraw`.

use vstd::prelude::*;

verus! {

/// The placeholder shown in a slot that holds no letter yet.
pub const BLANK: char = '_';

/// One key event, as the caller decodes it from the terminal.
#[derive(Clone, Copy, Debug, PartialEq, Eq, Structural)]
pub enum Key {
    /// A printable character was typed.
    Char(char),
    /// The backspace key.
    Backspace,
    /// The submit (enter) key.
    Submit,
    /// Any other key.
    Other,
}

/// What the caller must do after handing the editor one key event.
#[derive(Clone, Copy, Debug, PartialEq, Eq, Structural)]
pub enum EditAction {
    /// The buffer changed: repaint the guess line.
    Redraw,
    /// The buffer is full and was submitted: collection is complete.
    Submitted,
    /// The event changed nothing.
    Ignored,
}

/// A fresh guess buffer: `length` slots, each the blank placeholder.
pub fn init_guess(length: usize) -> (guess: Vec<char>)
    ensures
        guess@.len() == length,
        forall|k: int| 0 <= k < length ==> guess@[k] == BLANK,
{
    let mut guess: Vec<char> = Vec::new();
    let mut i: usize = 0;
    while i < length
        invariant
            i <= length,
            guess@.len() == i,
            forall|k: int| 0 <= k < i ==> guess@[k] == BLANK,
        decreases length - i,
    {
        guess.push(BLANK);
        i += 1;
    }
    guess
}

/// The text of a rendered guess line: the slots in order, separated by
/// single spaces.
pub open spec fn spaced(s: Seq<char>) -> Seq<char>
    decreases s.len(),
{
    if s.len() == 0 {
        Seq::empty()
    } else if s.len() == 1 {
        seq![s[0]]
    } else {
        spaced(s.drop_last()) + seq![' ', s.last()]
    }
}

/// The render primitive's text: the slots separated by single spaces, as one
/// line of characters. Both the blank and the classified render write this
/// line; the classified render colors each slot as it goes.
pub fn render_line(slots: &Vec<char>) -> (line: Vec<char>)
    ensures
        line@ == spaced(slots@),
{
    let mut line: Vec<char> = Vec::new();
    let mut i: usize = 0;
    while i < slots.len()
        invariant
            i <= slots@.len(),
            line@ == spaced(slots@.take(i as int)),
        decreases slots@.len() - i,
    {
        if i > 0 {
            line.push(' ');
        }
        line.push(slots[i]);
        proof {
            let t = slots@.take(i + 1);
            assert(t.drop_last() =~= slots@.take(i as int));
            assert(line@ =~= spaced(t));
        }
        i += 1;
    }
    proof {
        assert(slots@.take(slots@.len() as int) =~= slots@);
    }
    line
}

/// The in-progress guess: a fixed-length buffer of slots and a cursor.
pub struct LineEditor {
    buffer: Vec<char>,
    cursor: usize,
}

impl LineEditor {
    /// The buffer's slots.
    pub closed spec fn slots(self) -> Seq<char> {
        self.buffer@
    }

    /// The cursor: the number of slots filled so far.
    pub closed spec fn cursor_pos(self) -> int {
        self.cursor as int
    }

    /// Well-formed: the cursor is within the buffer, and every slot at or
    /// beyond the cursor still holds the blank placeholder.
    pub open spec fn wf(self) -> bool {
        &&& 0 <= self.cursor_pos() <= self.slots().len()
        &&& forall|k: int| self.cursor_pos() <= k < self.slots().len() ==> self.slots()[k] == BLANK
    }

    /// The buffer is full: every slot has been written.
    pub open spec fn is_full(self) -> bool {
        self.cursor_pos() == self.slots().len()
    }

    /// A fresh editor over `length` blank slots, cursor at the start.
    pub fn new(length: usize) -> (ed: LineEditor)
        ensures
            ed.wf(),
            ed.slots().len() == length,
            ed.cursor_pos() == 0,
            forall|k: int| 0 <= k < length ==> ed.slots()[k] == BLANK,
    {
        LineEditor { buffer: init_guess(length), cursor: 0 }
    }

    /// The slots, for rendering.
    pub fn buffer(&self) -> (b: &Vec<char>)
        ensures
            b@ == self.slots(),
    {
        &self.buffer
    }

    /// Whether every slot has been written.
    pub fn full(&self) -> (r: bool)
        ensures
            r == self.is_full(),
    {
        self.cursor == self.buffer.len()
    }

    /// Consumes the editor and hands the completed buffer out.
    pub fn into_buffer(self) -> (b: Vec<char>)
        ensures
            b@ == self.slots(),
    {
        self.buffer
    }

    /// Feeds one key event to the editor.
    ///
    /// A character key with room writes the letter at the cursor and advances
    /// it; backspace with a nonempty prefix retreats the cursor and blanks the
    /// slot; submit completes only when the buffer is full; everything else —
    /// a character key on a full buffer, backspace at the start, submit on a
    /// partial buffer, any other key — changes nothing.
    pub fn step(&mut self, key: Key) -> (action: EditAction)
        requires
            old(self).wf(),
        ensures
            final(self).wf(),
            final(self).slots().len() == old(self).slots().len(),
            match key {
                Key::Char(c) => if old(self).cursor_pos() < old(self).slots().len() {
                    &&& final(self).slots() == old(self).slots().update(old(self).cursor_pos(), c)
                    &&& final(self).cursor_pos() == old(self).cursor_pos() + 1
                    &&& action == EditAction::Redraw
                } else {
                    &&& final(self).slots() == old(self).slots()
                    &&& final(self).cursor_pos() == old(self).cursor_pos()
                    &&& action == EditAction::Ignored
                },
                Key::Backspace => if old(self).cursor_pos() > 0 {
                    &&& final(self).slots() == old(self).slots().update(
                        old(self).cursor_pos() - 1,
                        BLANK,
                    )
                    &&& final(self).cursor_pos() == old(self).cursor_pos() - 1
                    &&& action == EditAction::Redraw
                } else {
                    &&& final(self).slots() == old(self).slots()
                    &&& final(self).cursor_pos() == old(self).cursor_pos()
                    &&& action == EditAction::Ignored
                },
                Key::Submit => {
                    &&& final(self).slots() == old(self).slots()
                    &&& final(self).cursor_pos() == old(self).cursor_pos()
                    &&& action == (if old(self).is_full() {
                        EditAction::Submitted
                    } else {
                        EditAction::Ignored
                    })
                },
                Key::Other => {
                    &&& final(self).slots() == old(self).slots()
                    &&& final(self).cursor_pos() == old(self).cursor_pos()
                    &&& action == EditAction::Ignored
                },
            },
    {
        match key {
            Key::Char(c) => {
                if self.cursor < self.buffer.len() {
                    self.buffer[self.cursor] = c;
                    self.cursor += 1;
                    EditAction::Redraw
                } else {
                    EditAction::Ignored
                }
            },
            Key::Backspace => {
                if self.cursor > 0 {
                    self.cursor -= 1;
                    self.buffer[self.cursor] = BLANK;
                    EditAction::Redraw
                } else {
                    EditAction::Ignored
                }
            },
            Key::Submit => {
                if self.cursor == self.buffer.len() {
                    EditAction::Submitted
                } else {
                    EditAction::Ignored
                }
            },
            Key::Other => EditAction::Ignored,
        }
    }
}

} // verus!
