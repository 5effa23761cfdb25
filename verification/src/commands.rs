//! Commands: atomic user intents produced by the key resolver, applied in
//! order by the dispatcher.

use crate::app::InputMode;
use crate::motions::Motion;
use vstd::prelude::*;

verus! {

#[derive(Debug, PartialEq)]
pub enum Command {
    Quit,
    CommandLineStop,
    CommandLineInsertChar(char),
    CommandLineDelete,
    CommandLineLeft,
    CommandLineRight,
    CommandLineEnter,
    ChangeInputMode(InputMode),
    EditorInsert(String),
    EditorDelete(Motion),
    EditorMove(Motion),
    EditorSave,
}

impl Clone for Command {
    /// A clone of a command equals the command, its payload included.
    fn clone(&self) -> (r: Self)
        ensures
            r == *self,
    {
        match self {
            Command::Quit => Command::Quit,
            Command::CommandLineStop => Command::CommandLineStop,
            Command::CommandLineInsertChar(c) => Command::CommandLineInsertChar(*c),
            Command::CommandLineDelete => Command::CommandLineDelete,
            Command::CommandLineLeft => Command::CommandLineLeft,
            Command::CommandLineRight => Command::CommandLineRight,
            Command::CommandLineEnter => Command::CommandLineEnter,
            Command::ChangeInputMode(m) => Command::ChangeInputMode(*m),
            Command::EditorInsert(s) => Command::EditorInsert(s.clone()),
            Command::EditorDelete(m) => Command::EditorDelete(*m),
            Command::EditorMove(m) => Command::EditorMove(*m),
            Command::EditorSave => Command::EditorSave,
        }
    }
}

/// Clones a command list; the copy holds equal commands in the same order.
pub fn clone_commands(v: &Vec<Command>) -> (r: Vec<Command>)
    ensures
        r@ == v@,
{
    let mut r: Vec<Command> = Vec::new();
    let mut i: usize = 0;
    while i < v.len()
        invariant
            i <= v@.len(),
            r@ == v@.subrange(0, i as int),
        decreases v@.len() - i,
    {
        r.push(v[i].clone());
        i += 1;
        proof {
            assert(r@ =~= v@.subrange(0, i as int));
        }
    }
    proof {
        assert(r@ =~= v@);
    }
    r
}

} // verus!
