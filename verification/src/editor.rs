//! The in-progress command text and its cursor.
//!
//! The text is held as a sequence of characters indexed by character
//! position, so every edit moves in whole-character units and the cursor can
//! never land inside a multi-byte encoding.

use vstd::prelude::*;

verus! {

/// The command line being edited while the shell is idle.
///
/// Invariant (`wf`): the cursor always lies in `[0, text length]`, i.e. on a
/// character boundary — before the first character, between two characters,
/// or just past the last one.
pub struct EditorBuffer {
    pub chars: Vec<char>,
    pub cursor: usize,
}

impl EditorBuffer {
    /// The cursor lies within the character sequence.
    pub open spec fn wf(self) -> bool {
        self.cursor <= self.chars@.len()
    }

    /// The text as a sequence of characters.
    pub open spec fn text(self) -> Seq<char> {
        self.chars@
    }

    /// An empty buffer with the cursor at the start.
    pub fn new() -> (r: EditorBuffer)
        ensures
            r.wf(),
            r.text() == Seq::<char>::empty(),
            r.cursor == 0,
    {
        EditorBuffer { chars: Vec::new(), cursor: 0 }
    }

    /// Places `c` at the cursor and advances the cursor past it, by exactly
    /// one character.
    pub fn insert_char(&mut self, c: char)
        requires
            old(self).wf(),
            old(self).text().len() < usize::MAX,
        ensures
            final(self).wf(),
            final(self).text() == old(self).text().insert(old(self).cursor as int, c),
            final(self).cursor == old(self).cursor + 1,
    {
        self.chars.insert(self.cursor, c);
        self.cursor = self.cursor + 1;
    }

    /// Moves the cursor one character left; at position 0 this is a no-op.
    pub fn move_left(&mut self)
        requires
            old(self).wf(),
        ensures
            final(self).wf(),
            final(self).text() == old(self).text(),
            old(self).cursor == 0 ==> *final(self) == *old(self),
            old(self).cursor > 0 ==> final(self).cursor == old(self).cursor - 1,
    {
        if self.cursor > 0 {
            self.cursor = self.cursor - 1;
        }
    }

    /// Moves the cursor one character right; at the end of the text this is
    /// a no-op.
    pub fn move_right(&mut self)
        requires
            old(self).wf(),
        ensures
            final(self).wf(),
            final(self).text() == old(self).text(),
            old(self).cursor == old(self).text().len() ==> *final(self) == *old(self),
            old(self).cursor < old(self).text().len() ==> final(self).cursor == old(self).cursor + 1,
    {
        if self.cursor < self.chars.len() {
            self.cursor = self.cursor + 1;
        }
    }

    /// Removes the character immediately before the cursor and moves the
    /// cursor back onto its place; with the cursor at 0 this is a no-op.
    pub fn delete_backward(&mut self)
        requires
            old(self).wf(),
        ensures
            final(self).wf(),
            old(self).cursor == 0 ==> *final(self) == *old(self),
            old(self).cursor > 0 ==> {
                &&& final(self).text() == old(self).text().remove(old(self).cursor - 1)
                &&& final(self).cursor == old(self).cursor - 1
            },
    {
        if self.cursor > 0 {
            self.chars.remove(self.cursor - 1);
            self.cursor = self.cursor - 1;
        }
    }
}

} // verus!
