//! The command-line input model: the text typed after `:` and the cursor
//! within it, plus the translation of a finished line into commands.

use crate::commands::Command;
use crate::strutil::chars_to_string;
use vstd::prelude::*;

verus! {

/// The commands a finished command line stands for.
pub open spec fn line_commands(v: Seq<char>) -> Seq<Command> {
    if v == "q"@ {
        seq![Command::Quit]
    } else if v == "w"@ {
        seq![Command::EditorSave]
    } else if v == "wq"@ {
        seq![Command::EditorSave, Command::Quit]
    } else {
        Seq::<Command>::empty()
    }
}

pub struct CommandLine {
    /// The characters typed so far.
    pub value: Vec<char>,
    /// Cursor position within `value`, in `[0, value.len()]`.
    pub cursor_position: usize,
}

impl CommandLine {
    /// The command line invariant: the cursor lies within the value.
    pub open spec fn wf(&self) -> bool {
        self.cursor_position <= self.value@.len()
    }

    pub fn new() -> (r: CommandLine)
        ensures
            r.wf(),
            r.value@ == Seq::<char>::empty(),
            r.cursor_position == 0,
    {
        CommandLine { value: Vec::new(), cursor_position: 0 }
    }

    /// Clears the line and resets the cursor.
    pub fn deactivate(&mut self)
        ensures
            final(self).wf(),
            final(self).value@ == Seq::<char>::empty(),
            final(self).cursor_position == 0,
    {
        self.value.clear();
        self.cursor_position = 0;
    }

    /// Clamps a candidate cursor position into `[0, value.len()]`.
    pub fn clamp_cursor(&self, new_cursor_pos: usize) -> (r: usize)
        ensures
            r == if new_cursor_pos <= self.value@.len() {
                new_cursor_pos as int
            } else {
                self.value@.len() as int
            },
    {
        let n = self.value.len();
        if new_cursor_pos <= n {
            new_cursor_pos
        } else {
            n
        }
    }

    pub fn move_cursor_left(&mut self)
        ensures
            final(self).wf(),
            final(self).value == old(self).value,
            final(self).cursor_position == if old(self).cursor_position == 0 {
                0
            } else if old(self).cursor_position - 1 <= old(self).value@.len() {
                old(self).cursor_position - 1
            } else {
                old(self).value@.len() as int
            },
    {
        let moved = if self.cursor_position == 0 {
            0
        } else {
            self.cursor_position - 1
        };
        self.cursor_position = self.clamp_cursor(moved);
    }

    pub fn move_cursor_right(&mut self)
        ensures
            final(self).wf(),
            final(self).value == old(self).value,
            final(self).cursor_position == if old(self).cursor_position + 1
                <= old(self).value@.len() {
                old(self).cursor_position + 1
            } else {
                old(self).value@.len() as int
            },
    {
        // Reading the length bounds the clamp target within usize.
        let _n = self.value.len();
        let moved = if self.cursor_position < usize::MAX {
            self.cursor_position + 1
        } else {
            usize::MAX
        };
        self.cursor_position = self.clamp_cursor(moved);
    }

    /// Inserts `new_char` at the cursor and moves the cursor past it.
    pub fn enter_char(&mut self, new_char: char)
        requires
            old(self).wf(),
            old(self).value@.len() < usize::MAX,
        ensures
            final(self).wf(),
            final(self).value@ == old(self).value@.insert(
                old(self).cursor_position as int,
                new_char,
            ),
            final(self).cursor_position == old(self).cursor_position + 1,
    {
        self.value.insert(self.cursor_position, new_char);
        self.move_cursor_right();
    }

    /// Removes the character left of the cursor, if any, and moves the
    /// cursor onto its place.
    pub fn delete_char(&mut self)
        requires
            old(self).wf(),
        ensures
            final(self).wf(),
            old(self).cursor_position == 0 ==> *final(self) == *old(self),
            old(self).cursor_position != 0 ==> {
                &&& final(self).value@ == old(self).value@.remove(old(self).cursor_position - 1)
                &&& final(self).cursor_position == old(self).cursor_position - 1
            },
    {
        if self.cursor_position != 0 {
            self.value.remove(self.cursor_position - 1);
            self.move_cursor_left();
        }
    }

    /// The commands a finished line stands for: `q` quits, `w` saves, `wq`
    /// saves then quits; anything else is dropped as unrecognized, yielding
    /// no commands.
    pub fn get_commands(&self) -> (r: Vec<Command>)
        ensures
            r@ == line_commands(self.value@),
    {
        proof {
            reveal_strlit("q");
            reveal_strlit("w");
            reveal_strlit("wq");
        }
        let n = self.value.len();
        let mut r: Vec<Command> = Vec::new();
        if n == 1 && self.value[0] == 'q' {
            proof {
                assert(self.value@ =~= "q"@);
            }
            r.push(Command::Quit);
            proof {
                assert(r@ =~= seq![Command::Quit]);
            }
        } else if n == 1 && self.value[0] == 'w' {
            proof {
                assert(self.value@ =~= "w"@);
            }
            r.push(Command::EditorSave);
            proof {
                assert(r@ =~= seq![Command::EditorSave]);
            }
        } else if n == 2 && self.value[0] == 'w' && self.value[1] == 'q' {
            proof {
                assert(self.value@ =~= "wq"@);
            }
            r.push(Command::EditorSave);
            r.push(Command::Quit);
            proof {
                assert(r@ =~= seq![Command::EditorSave, Command::Quit]);
            }
        }
        r
    }

    /// The line's characters as an owned string, for display.
    pub fn value_as_string(&self) -> (s: String)
        ensures
            s@ == self.value@,
    {
        chars_to_string(&self.value)
    }
}

} // verus!
