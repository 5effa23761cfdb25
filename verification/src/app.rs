//! Application-level state: the editing mode, the command dispatcher, and
//! the state it drives.  The dispatcher applies commands in order; saving is
//! the one effect it cannot perform itself, so it hands save requests back
//! to its caller, which owns the file I/O.

use crate::command_line::{line_commands, CommandLine};
use crate::commands::Command;
use crate::editor::EditorBuffer;
use crate::gap_buffer::GROW_SLACK;
use vstd::prelude::*;
use vstd::string::*;

verus! {

/// The editing mode of the application.
#[derive(Clone, Copy, Debug, PartialEq, Eq, Structural)]
pub enum InputMode {
    Normal,
    Insert,
    Command,
}

/// A request to write the current text to the associated path, handed to the
/// caller to perform; without a path, saving is a reportable failure there.
pub struct SaveRequest {
    pub path: Option<String>,
    pub text: String,
}

/// Application state.
pub struct App {
    /// Is the application running?
    pub running: bool,
    /// Editing mode of the application.
    pub mode: InputMode,
    /// Data for maintaining command input.
    pub command_line: CommandLine,
    /// The buffer being edited.
    pub editor: EditorBuffer,
}

/// The request `req` asks to save `pre`'s current text to its path.
pub open spec fn save_of(pre: App, req: SaveRequest) -> bool {
    &&& req.path == pre.editor.path
    &&& req.text@ == pre.editor.text()
}

/// What one non-`CommandLineEnter` command does to the application, given a
/// well-formed `pre`.  Inserts that would push the storage past the machine
/// limit are dropped rather than applied.
pub open spec fn basic_step(pre: App, post: App, cmd: Command, r: Option<SaveRequest>) -> bool {
    match cmd {
        Command::Quit => {
            &&& post.running == false
            &&& post.mode == pre.mode
            &&& post.command_line == pre.command_line
            &&& post.editor == pre.editor
            &&& r is None
        },
        Command::CommandLineStop => {
            &&& post.running == pre.running
            &&& post.mode == pre.mode
            &&& post.editor == pre.editor
            &&& post.command_line.value@ == Seq::<char>::empty()
            &&& post.command_line.cursor_position == 0
            &&& r is None
        },
        Command::CommandLineInsertChar(c) => {
            &&& post.running == pre.running
            &&& post.mode == pre.mode
            &&& post.editor == pre.editor
            &&& if pre.command_line.value@.len() < usize::MAX {
                &&& post.command_line.value@ == pre.command_line.value@.insert(
                    pre.command_line.cursor_position as int,
                    c,
                )
                &&& post.command_line.cursor_position == pre.command_line.cursor_position + 1
            } else {
                post.command_line == pre.command_line
            }
            &&& r is None
        },
        Command::CommandLineDelete => {
            &&& post.running == pre.running
            &&& post.mode == pre.mode
            &&& post.editor == pre.editor
            &&& if pre.command_line.cursor_position == 0 {
                post.command_line == pre.command_line
            } else {
                &&& post.command_line.value@ == pre.command_line.value@.remove(
                    pre.command_line.cursor_position - 1,
                )
                &&& post.command_line.cursor_position == pre.command_line.cursor_position - 1
            }
            &&& r is None
        },
        Command::CommandLineLeft => {
            &&& post.running == pre.running
            &&& post.mode == pre.mode
            &&& post.editor == pre.editor
            &&& post.command_line.value == pre.command_line.value
            &&& post.command_line.cursor_position == (
            if pre.command_line.cursor_position == 0 {
                0
            } else {
                pre.command_line.cursor_position - 1
            })
            &&& r is None
        },
        Command::CommandLineRight => {
            &&& post.running == pre.running
            &&& post.mode == pre.mode
            &&& post.editor == pre.editor
            &&& post.command_line.value == pre.command_line.value
            &&& post.command_line.cursor_position == (
            if pre.command_line.cursor_position + 1 <= pre.command_line.value@.len() {
                pre.command_line.cursor_position + 1
            } else {
                pre.command_line.value@.len() as int
            })
            &&& r is None
        },
        Command::CommandLineEnter => {
            &&& post == pre
            &&& r is None
        },
        Command::ChangeInputMode(m) => {
            &&& post.running == pre.running
            &&& post.mode == m
            &&& post.command_line == pre.command_line
            &&& post.editor == pre.editor
            &&& r is None
        },
        Command::EditorInsert(s) => {
            &&& post.running == pre.running
            &&& post.mode == pre.mode
            &&& post.command_line == pre.command_line
            &&& if pre.editor.gap_buffer.buffer@.len() + s@.len() + GROW_SLACK <= usize::MAX {
                EditorBuffer::insert_rel(pre.editor, post.editor, s@, pre.mode)
            } else {
                post.editor == pre.editor
            }
            &&& r is None
        },
        Command::EditorDelete(m) => {
            &&& post.running == pre.running
            &&& post.mode == pre.mode
            &&& post.command_line == pre.command_line
            &&& EditorBuffer::delete_rel(pre.editor, post.editor, m, pre.mode)
            &&& r is None
        },
        Command::EditorMove(m) => {
            &&& post.running == pre.running
            &&& post.mode == pre.mode
            &&& post.command_line == pre.command_line
            &&& EditorBuffer::move_rel(pre.editor, post.editor, m, pre.mode)
            &&& r is None
        },
        Command::EditorSave => {
            &&& post == pre
            &&& (r matches Some(req) && save_of(pre, req))
        },
    }
}

/// What one command does to the application.  `CommandLineEnter` runs the
/// commands the finished line stands for, in order; everything else is a
/// basic step.
pub open spec fn single_step(pre: App, post: App, cmd: Command, r: Option<SaveRequest>) -> bool {
    match cmd {
        Command::CommandLineEnter => {
            let v = pre.command_line.value@;
            if v == "q"@ {
                &&& post.running == false
                &&& post.mode == pre.mode
                &&& post.command_line == pre.command_line
                &&& post.editor == pre.editor
                &&& r is None
            } else if v == "w"@ {
                &&& post == pre
                &&& (r matches Some(req) && save_of(pre, req))
            } else if v == "wq"@ {
                &&& post.running == false
                &&& post.mode == pre.mode
                &&& post.command_line == pre.command_line
                &&& post.editor == pre.editor
                &&& (r matches Some(req) && save_of(pre, req))
            } else {
                &&& post == pre
                &&& r is None
            }
        },
        _ => basic_step(pre, post, cmd, r),
    }
}

/// What a command batch does: the commands are applied in order, each
/// observing the effects of the ones before it, and the save requests are
/// collected in order.
pub open spec fn steps(pre: App, post: App, cmds: Seq<Command>, saves: Seq<SaveRequest>) -> bool
    decreases cmds.len(),
{
    if cmds.len() == 0 {
        post == pre && saves.len() == 0
    } else {
        exists|mid: App, r: Option<SaveRequest>|
            {
                &&& #[trigger] single_step(mid, post, cmds.last(), r)
                &&& match r {
                    Some(s) => saves.len() > 0 && saves.last() == s && steps(
                        pre,
                        mid,
                        cmds.drop_last(),
                        saves.drop_last(),
                    ),
                    None => steps(pre, mid, cmds.drop_last(), saves),
                }
            }
    }
}

impl App {
    /// The application invariant: editor and command line are well formed.
    pub open spec fn wf(&self) -> bool {
        &&& self.editor.wf()
        &&& self.command_line.wf()
    }

    /// Constructs a running application in Normal mode around an editor
    /// buffer.
    pub fn new(editor: EditorBuffer) -> (r: App)
        requires
            editor.wf(),
        ensures
            r.wf(),
            r.running == true,
            r.mode == InputMode::Normal,
            r.command_line.value@ == Seq::<char>::empty(),
            r.command_line.cursor_position == 0,
            r.editor == editor,
    {
        App { running: true, mode: InputMode::Normal, command_line: CommandLine::new(), editor }
    }

    /// Handles the tick event of the terminal.
    pub fn tick(&self) {
    }

    /// Sets running to false to quit the application.
    fn quit(&mut self)
        ensures
            final(self).running == false,
            final(self).mode == old(self).mode,
            final(self).command_line == old(self).command_line,
            final(self).editor == old(self).editor,
    {
        self.running = false;
    }

    /// Changes the input mode.
    fn change_input_mode(&mut self, input_mode: InputMode)
        ensures
            final(self).running == old(self).running,
            final(self).mode == input_mode,
            final(self).command_line == old(self).command_line,
            final(self).editor == old(self).editor,
    {
        self.mode = input_mode;
    }

    /// Applies one command other than `CommandLineEnter` (which is a no-op
    /// here); a save command is returned as a request for the caller.
    fn execute_basic(&mut self, command: &Command) -> (r: Option<SaveRequest>)
        requires
            old(self).wf(),
        ensures
            final(self).wf(),
            basic_step(*old(self), *final(self), *command, r),
    {
        match command {
            Command::Quit => {
                self.quit();
                None
            },
            Command::CommandLineStop => {
                self.command_line.deactivate();
                None
            },
            Command::CommandLineInsertChar(ch) => {
                if self.command_line.value.len() < usize::MAX {
                    self.command_line.enter_char(*ch);
                }
                None
            },
            Command::CommandLineDelete => {
                self.command_line.delete_char();
                None
            },
            Command::CommandLineLeft => {
                self.command_line.move_cursor_left();
                None
            },
            Command::CommandLineRight => {
                self.command_line.move_cursor_right();
                None
            },
            Command::CommandLineEnter => None,
            Command::ChangeInputMode(m) => {
                self.change_input_mode(*m);
                None
            },
            Command::EditorInsert(s) => {
                let blen = self.editor.gap_buffer.buffer.len();
                let slen = s.as_str().unicode_len();
                if blen <= usize::MAX - GROW_SLACK && slen <= usize::MAX - GROW_SLACK - blen {
                    self.editor.insert(s.clone(), self.mode);
                }
                None
            },
            Command::EditorDelete(m) => {
                self.editor.delete(*m, self.mode);
                None
            },
            Command::EditorMove(m) => {
                self.editor.move_cursor(m, self.mode);
                None
            },
            Command::EditorSave => {
                let path: Option<String> = match &self.editor.path {
                    Some(p) => Some(p.clone()),
                    None => None,
                };
                let text = self.editor.gap_buffer.get_text_as_string();
                Some(SaveRequest { path, text })
            },
        }
    }

    /// Applies a single command.  `CommandLineEnter` expands the finished
    /// line into its commands and applies them in order; a finished line
    /// yields at most two, so two steps cover every case.
    pub fn execute_single_command(&mut self, command: &Command) -> (r: Option<SaveRequest>)
        requires
            old(self).wf(),
        ensures
            final(self).wf(),
            single_step(*old(self), *final(self), *command, r),
    {
        match command {
            Command::CommandLineEnter => {
                let cmds = self.command_line.get_commands();
                let mut save: Option<SaveRequest> = None;
                if cmds.len() >= 1 {
                    let r0 = self.execute_basic(&cmds[0]);
                    if let Some(s) = r0 {
                        save = Some(s);
                    }
                }
                if cmds.len() >= 2 {
                    let r1 = self.execute_basic(&cmds[1]);
                    if let Some(s) = r1 {
                        save = Some(s);
                    }
                }
                save
            },
            _ => self.execute_basic(command),
        }
    }

    /// Executes a collection of commands in order and returns the save
    /// requests they raised, in order.
    pub fn execute(&mut self, commands: Vec<Command>) -> (saves: Vec<SaveRequest>)
        requires
            old(self).wf(),
        ensures
            final(self).wf(),
            steps(*old(self), *final(self), commands@, saves@),
    {
        let ghost pre = *self;
        let mut saves: Vec<SaveRequest> = Vec::new();
        let mut i: usize = 0;
        proof {
            assert(commands@.take(0) =~= Seq::<Command>::empty());
        }
        while i < commands.len()
            invariant
                self.wf(),
                i <= commands@.len(),
                steps(pre, *self, commands@.take(i as int), saves@),
            decreases commands@.len() - i,
        {
            let ghost mid = *self;
            let ghost old_saves = saves@;
            let r = self.execute_single_command(&commands[i]);
            let ghost rv = r;
            match r {
                Some(s) => {
                    saves.push(s);
                },
                None => {},
            }
            i += 1;
            proof {
                assert(commands@.take(i as int).drop_last() =~= commands@.take(i - 1));
                assert(commands@.take(i as int).last() == commands@[i - 1]);
                match rv {
                    Some(s) => {
                        assert(saves@.last() == s);
                        assert(saves@.drop_last() =~= old_saves);
                    },
                    None => {},
                }
                assert(single_step(mid, *self, commands@.take(i as int).last(), rv));
            }
        }
        proof {
            assert(commands@.take(commands@.len() as int) =~= commands@);
        }
        saves
    }
}

} // verus!
