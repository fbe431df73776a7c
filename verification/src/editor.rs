//! The line editor of the input field: a text and a cursor inside it.
//!
//! Positions count characters, not bytes or screen columns. Every operation
//! is total: a request that would leave the text is clamped, never refused.

use crate::text::string_of;
use vstd::prelude::*;

verus! {

/// What an editor holds, as mathematics: the text and the cursor position.
pub struct EditorView {
    pub text: Seq<char>,
    pub cursor: nat,
}

impl EditorView {
    /// The cursor lies inside the text or directly behind its last character.
    pub open spec fn valid(self) -> bool {
        self.cursor <= self.text.len()
    }

    /// No text, cursor at the start.
    pub open spec fn empty() -> EditorView {
        EditorView { text: Seq::empty(), cursor: 0 }
    }

    /// The character goes in at the cursor, which moves behind it.
    pub open spec fn insert(self, c: char) -> EditorView {
        EditorView { text: self.text.insert(self.cursor as int, c), cursor: self.cursor + 1 }
    }

    /// The character before the cursor goes; at the start nothing happens.
    pub open spec fn delete_backward(self) -> EditorView {
        if self.cursor > 0 {
            EditorView {
                text: self.text.remove(self.cursor - 1),
                cursor: (self.cursor - 1) as nat,
            }
        } else {
            self
        }
    }

    /// The position `delta` characters from the cursor, clamped into the text.
    pub open spec fn clamped(self, delta: int) -> nat {
        let target = self.cursor + delta;
        if target < 0 {
            0
        } else if target > self.text.len() {
            self.text.len()
        } else {
            target as nat
        }
    }

    /// The cursor moves by `delta` characters, as far as the text goes.
    pub open spec fn move_cursor(self, delta: int) -> EditorView {
        EditorView { text: self.text, cursor: self.clamped(delta) }
    }

    /// The cursor moves before the first character.
    pub open spec fn home(self) -> EditorView {
        EditorView { text: self.text, cursor: 0 }
    }

    /// The cursor moves behind the last character.
    pub open spec fn end(self) -> EditorView {
        EditorView { text: self.text, cursor: self.text.len() }
    }

    /// Text and cursor are dropped.
    pub open spec fn reset(self) -> EditorView {
        EditorView::empty()
    }

    /// The characters of `chars` are typed one after the other.
    pub open spec fn insert_all(self, chars: Seq<char>) -> EditorView
        decreases chars.len(),
    {
        if chars.len() == 0 {
            self
        } else {
            self.insert_all(chars.drop_last()).insert(chars.last())
        }
    }

    /// Backspace is pressed `count` times.
    pub open spec fn delete_many(self, count: nat) -> EditorView
        decreases count,
    {
        if count == 0 {
            self
        } else {
            self.delete_backward().delete_many((count - 1) as nat)
        }
    }
}

/// An editing command: what a key press asks of the editor.
#[derive(Clone, Copy, Debug, PartialEq, Eq, Structural)]
pub enum Command {
    /// Type a character at the cursor.
    Insert(char),
    /// Remove the character before the cursor.
    DeleteBackward,
    /// Move the cursor one character towards the start.
    MoveLeft,
    /// Move the cursor one character towards the end.
    MoveRight,
    /// Move the cursor before the first character.
    MoveToStart,
    /// Move the cursor behind the last character.
    MoveToEnd,
}

impl EditorView {
    /// The editor after `command`.
    pub open spec fn apply(self, command: Command) -> EditorView {
        match command {
            Command::Insert(c) => self.insert(c),
            Command::DeleteBackward => self.delete_backward(),
            Command::MoveLeft => self.move_cursor(-1),
            Command::MoveRight => self.move_cursor(1),
            Command::MoveToStart => self.home(),
            Command::MoveToEnd => self.end(),
        }
    }
}

/// The state of the input field.
pub struct EditorState {
    text: Vec<char>,
    cursor: usize,
}

impl View for EditorState {
    type V = EditorView;

    closed spec fn view(&self) -> EditorView {
        EditorView { text: self.text@, cursor: self.cursor as nat }
    }
}

impl EditorState {
    /// The invariant of the editor: the cursor never leaves the text. Every
    /// constructor establishes it and every operation keeps it.
    pub open spec fn wf(&self) -> bool {
        self@.valid()
    }

    /// An editor without text.
    pub fn new() -> (editor: EditorState)
        ensures
            editor@ == EditorView::empty(),
            editor.wf(),
    {
        EditorState { text: Vec::new(), cursor: 0 }
    }

    /// Inserts `c` at the cursor and moves the cursor behind it.
    pub fn insert(&mut self, c: char)
        requires
            old(self).wf(),
        ensures
            final(self)@ == old(self)@.insert(c),
            final(self).wf(),
    {
        self.text.insert(self.cursor, c);
        let length: usize = self.text.len();
        assert(self.cursor < length);
        self.cursor = self.cursor + 1;
    }

    /// Removes the character before the cursor, if there is one.
    pub fn delete_backward(&mut self)
        requires
            old(self).wf(),
        ensures
            final(self)@ == old(self)@.delete_backward(),
            final(self).wf(),
    {
        if self.cursor > 0 {
            self.cursor = self.cursor - 1;
            self.text.remove(self.cursor);
        }
    }

    /// Moves the cursor by `delta` characters; the move stops at either end
    /// of the text.
    pub fn move_cursor(&mut self, delta: isize)
        requires
            old(self).wf(),
        ensures
            final(self)@ == old(self)@.move_cursor(delta as int),
            final(self).wf(),
    {
        if delta >= 0 {
            let forward: usize = delta as usize;
            let room: usize = self.text.len() - self.cursor;
            if forward >= room {
                self.cursor = self.text.len();
            } else {
                self.cursor = self.cursor + forward;
            }
        } else {
            let backward: usize = (-(delta + 1)) as usize + 1;
            if backward >= self.cursor {
                self.cursor = 0;
            } else {
                self.cursor = self.cursor - backward;
            }
        }
    }

    /// Moves the cursor before the first character.
    pub fn home(&mut self)
        requires
            old(self).wf(),
        ensures
            final(self)@ == old(self)@.home(),
            final(self).wf(),
    {
        self.cursor = 0;
    }

    /// Moves the cursor behind the last character.
    pub fn end(&mut self)
        requires
            old(self).wf(),
        ensures
            final(self)@ == old(self)@.end(),
            final(self).wf(),
    {
        self.cursor = self.text.len();
    }

    /// Drops the text and puts the cursor at the start.
    pub fn reset(&mut self)
        requires
            old(self).wf(),
        ensures
            final(self)@ == old(self)@.reset(),
            final(self)@ == EditorView::empty(),
            final(self).wf(),
    {
        self.cursor = 0;
        self.text.clear();
    }

    /// Carries out `command`.
    pub fn apply(&mut self, command: Command)
        requires
            old(self).wf(),
        ensures
            final(self)@ == old(self)@.apply(command),
            final(self).wf(),
    {
        match command {
            Command::Insert(c) => self.insert(c),
            Command::DeleteBackward => self.delete_backward(),
            Command::MoveLeft => self.move_cursor(-1),
            Command::MoveRight => self.move_cursor(1),
            Command::MoveToStart => self.home(),
            Command::MoveToEnd => self.end(),
        }
    }

    /// The cursor position, in characters from the start of the text.
    pub fn cursor(&self) -> (position: usize)
        ensures
            position == self@.cursor,
    {
        self.cursor
    }

    /// The text as a string.
    pub fn value(&self) -> (text: String)
        ensures
            text@ == self@.text,
    {
        string_of(&self.text)
    }

    /// The characters of the text, in order.
    pub fn chars(&self) -> (text: &Vec<char>)
        ensures
            text@ == self@.text,
    {
        &self.text
    }
}

/// Typing a character and pressing backspace leaves the editor as it was.
pub proof fn insert_then_delete_is_identity(editor: EditorView, c: char)
    requires
        editor.valid(),
    ensures
        editor.insert(c).valid(),
        editor.insert(c).delete_backward() == editor,
{
    assert(editor.text.insert(editor.cursor as int, c).remove(editor.cursor as int)
        =~= editor.text);
}

/// Typing keeps the cursor inside the text.
pub proof fn insert_all_keeps_valid(editor: EditorView, chars: Seq<char>)
    requires
        editor.valid(),
    ensures
        editor.insert_all(chars).valid(),
        editor.insert_all(chars).cursor == editor.cursor + chars.len(),
    decreases chars.len(),
{
    if chars.len() > 0 {
        insert_all_keeps_valid(editor, chars.drop_last());
    }
}

/// Typing any characters and then pressing backspace once for each of them
/// restores the editor: the text and the cursor are what they were.
pub proof fn insert_then_delete_round_trip(editor: EditorView, chars: Seq<char>)
    requires
        editor.valid(),
    ensures
        editor.insert_all(chars).delete_many(chars.len()) == editor,
    decreases chars.len(),
{
    if chars.len() > 0 {
        let before = editor.insert_all(chars.drop_last());
        insert_all_keeps_valid(editor, chars.drop_last());
        insert_then_delete_is_identity(before, chars.last());
        insert_then_delete_round_trip(editor, chars.drop_last());
        assert(editor.insert_all(chars).delete_many(chars.len()) == before.delete_many(
            chars.drop_last().len(),
        ));
    }
}

/// Resetting twice is resetting once: both leave the empty editor.
pub proof fn reset_is_idempotent(editor: EditorView)
    ensures
        editor.reset().reset() == editor.reset(),
        editor.reset() == EditorView::empty(),
{
}

} // verus!
