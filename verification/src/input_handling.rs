//! The key resolver: consumes key events one at a time, disambiguates
//! single- from multi-key sequences per editing mode, and yields the bound
//! command sequences.  Keymaps are tries: a token maps either to a terminal
//! command list or to an inner table of further bindings.

use crate::app::InputMode;
use crate::commands::{clone_commands, Command};
use crate::motions::Motion;
use crate::strutil::char_to_string;
use vstd::prelude::*;
use vstd::string::*;

verus! {

/// A keymap entry: a terminal command list, or an inner table keyed by the
/// next token of a multi-key sequence.
#[derive(Debug)]
pub enum Keymap {
    One(Vec<Command>),
    Many(Vec<KeyBinding>),
}

/// One binding of a keymap table: a canonical key token and its entry.
/// Tokens within one table are distinct.
#[derive(Debug)]
pub struct KeyBinding {
    pub key: String,
    pub entry: Keymap,
}

/// The entry bound to token `k` in the table `bs`: the first binding whose
/// key reads `k`.
pub open spec fn km_lookup(bs: Seq<KeyBinding>, k: Seq<char>) -> Option<Keymap>
    decreases bs.len(),
{
    if bs.len() == 0 {
        None
    } else if bs[0].key@ == k {
        Some(bs[0].entry)
    } else {
        km_lookup(bs.drop_first(), k)
    }
}

/// The table reached from `bs` by following `keys` through inner tables;
/// `None` if some step is unbound or terminal.
pub open spec fn km_walk(bs: Seq<KeyBinding>, keys: Seq<Seq<char>>) -> Option<Seq<KeyBinding>>
    decreases keys.len(),
{
    if keys.len() == 0 {
        Some(bs)
    } else {
        match km_lookup(bs, keys[0]) {
            Some(Keymap::Many(inner)) => km_walk(inner@, keys.drop_first()),
            _ => None,
        }
    }
}

/// Walking one more key goes through a lookup in the table walked to so far.
proof fn lemma_km_walk_push(bs: Seq<KeyBinding>, keys: Seq<Seq<char>>, k: Seq<char>)
    ensures
        km_walk(bs, keys.push(k)) == (match km_walk(bs, keys) {
            Some(node) => match km_lookup(node, k) {
                Some(Keymap::Many(inner)) => Some(inner@),
                _ => None::<Seq<KeyBinding>>,
            },
            None => None::<Seq<KeyBinding>>,
        }),
    decreases keys.len(),
{
    if keys.len() == 0 {
        assert(keys.push(k)[0] == k);
        assert(keys.push(k).drop_first() =~= keys);
        match km_lookup(bs, k) {
            Some(Keymap::Many(inner)) => {
                assert(km_walk(inner@, keys) == Some(inner@));
            },
            _ => {},
        }
    } else {
        assert(keys.push(k)[0] == keys[0]);
        assert(keys.push(k).drop_first() =~= keys.drop_first().push(k));
        match km_lookup(bs, keys[0]) {
            Some(Keymap::Many(inner)) => {
                lemma_km_walk_push(inner@, keys.drop_first(), k);
            },
            _ => {},
        }
    }
}

/// The views of a sequence of strings.
pub open spec fn views_of(ss: Seq<String>) -> Seq<Seq<char>> {
    Seq::new(ss.len(), |i: int| ss[i]@)
}

/// A key press as the resolver sees it: the named or printable key, and
/// whether the control modifier (alone) was held.
#[derive(Clone, Copy, Debug, PartialEq, Eq, Structural)]
pub enum KeyCode {
    Backspace,
    Enter,
    Left,
    Right,
    Up,
    Down,
    Tab,
    BackTab,
    Esc,
    Char(char),
    Other,
}

#[derive(Clone, Copy, Debug, PartialEq, Eq, Structural)]
pub struct KeyInput {
    pub code: KeyCode,
    pub ctrl: bool,
}

/// The canonical token of a key, before the control marker: named keys map
/// to fixed words, printable characters to themselves, anything else to
/// nothing.
pub open spec fn base_token_spec(code: KeyCode) -> Option<Seq<char>> {
    match code {
        KeyCode::Backspace => Some("back"@),
        KeyCode::Enter => Some("enter"@),
        KeyCode::Left => Some("left"@),
        KeyCode::Right => Some("right"@),
        KeyCode::Up => Some("up"@),
        KeyCode::Down => Some("down"@),
        KeyCode::Tab => Some("tab"@),
        KeyCode::BackTab => Some("backtab"@),
        KeyCode::Esc => Some("esc"@),
        KeyCode::Char(c) => Some(seq![c]),
        KeyCode::Other => None,
    }
}

/// The canonical token of a key event: the base token, prefixed with the
/// control marker when the control modifier is held.
pub open spec fn key_token_spec(ev: KeyInput) -> Option<Seq<char>> {
    match base_token_spec(ev.code) {
        Some(base) => Some(
            if ev.ctrl {
                "ctrl+"@ + base
            } else {
                base
            },
        ),
        None => None,
    }
}

/// Canonicalizes a key event into its token, or nothing for unrecognized
/// events.
pub fn get_valid_key_string_from_event(event: KeyInput) -> (r: Option<String>)
    ensures
        match r {
            Some(s) => key_token_spec(event) == Some(s@),
            None => key_token_spec(event) is None,
        },
{
    let base: Option<String> = match event.code {
        KeyCode::Backspace => Some(String::from_str("back")),
        KeyCode::Enter => Some(String::from_str("enter")),
        KeyCode::Left => Some(String::from_str("left")),
        KeyCode::Right => Some(String::from_str("right")),
        KeyCode::Up => Some(String::from_str("up")),
        KeyCode::Down => Some(String::from_str("down")),
        KeyCode::Tab => Some(String::from_str("tab")),
        KeyCode::BackTab => Some(String::from_str("backtab")),
        KeyCode::Esc => Some(String::from_str("esc")),
        KeyCode::Char(ch) => Some(char_to_string(ch)),
        KeyCode::Other => None,
    };
    match base {
        Some(b) => {
            if event.ctrl {
                let mut s = String::from_str("ctrl+");
                s.append(b.as_str());
                Some(s)
            } else {
                Some(b)
            }
        },
        None => None,
    }
}

/// The resolver's state: the tokens of the unresolved sequence collected so
/// far, and the fixed per-mode root keymaps built at construction.  The
/// active subtree of the data model is derived: it is the table the pending
/// tokens walk to from the current mode's root.
#[derive(Debug)]
pub struct InputStack {
    pub event_stack: Vec<String>,
    pub normal_map: Vec<KeyBinding>,
    pub insert_map: Vec<KeyBinding>,
    pub command_map: Vec<KeyBinding>,
}

/// The character fast path: with no pending sequence and an editing mode
/// that inserts text, a plain printable key is taken as that character.
pub open spec fn character_input_spec(st: InputStack, ev: KeyInput, mode: InputMode) -> Option<
    char,
> {
    if st.event_stack@.len() > 0 {
        None
    } else if mode == InputMode::Normal {
        None
    } else {
        match ev.code {
            KeyCode::Char(c) => if ev.ctrl {
                None
            } else {
                Some(c)
            },
            _ => None,
        }
    }
}

/// What one resolver step does: `pre` and `post` are the resolver before and
/// after, `r` the commands it hands out.
pub open spec fn resolve_step(
    pre: InputStack,
    post: InputStack,
    event: KeyInput,
    mode: InputMode,
    r: Option<Seq<Command>>,
) -> bool {
    &&& post.normal_map == pre.normal_map
    &&& post.insert_map == pre.insert_map
    &&& post.command_map == pre.command_map
    &&& if character_input_spec(pre, event, mode) is Some {
        // Character fast path: the trie is bypassed, the state untouched, and
        // a single mode-specific insert command is emitted.
        &&& post == pre
        &&& (mode == InputMode::Insert ==> (r matches Some(cs) && cs.len() == 1 && (cs[0] matches
        Command::EditorInsert(s) && s@ == seq![character_input_spec(pre, event, mode)->0])))
        &&& (mode == InputMode::Command ==> r == Some(
            seq![Command::CommandLineInsertChar(character_input_spec(pre, event, mode)->0)],
        ))
    } else {
        match key_token_spec(event) {
            // Unrecognized event: the sequence ends, nothing is emitted.
            None => post.pending_keys() == Seq::<Seq<char>>::empty() && r is None,
            Some(tok) => {
                let node = if pre.pending_keys().len() == 0 {
                    Some(pre.root_map(mode))
                } else {
                    pre.active_node(mode)
                };
                match node {
                    Some(bs) => match km_lookup(bs, tok) {
                        // A terminal leaf: its commands are emitted in order
                        // and the sequence resets.
                        Some(Keymap::One(cmds)) => r == Some(cmds@) && post.pending_keys()
                            == Seq::<Seq<char>>::empty(),
                        // An inner table: the token joins the pending
                        // sequence, nothing is emitted yet.
                        Some(Keymap::Many(inner)) => r is None && post.pending_keys()
                            == pre.pending_keys().push(tok),
                        // A dead end: the key is dropped and the sequence
                        // resets.
                        None => r is None && post.pending_keys() == Seq::<Seq<char>>::empty(),
                    },
                    None => r is None && post.pending_keys() == Seq::<Seq<char>>::empty(),
                }
            },
        }
    }
}

/// The commands of a resolver result, as a sequence.
pub open spec fn cmds_view(r: Option<Vec<Command>>) -> Option<Seq<Command>> {
    match r {
        Some(v) => Some(v@),
        None => None,
    }
}

/// First binding of `bs` whose key reads `key`.
fn lookup_binding<'a>(bs: &'a Vec<KeyBinding>, key: &String) -> (r: Option<&'a Keymap>)
    ensures
        match r {
            Some(e) => km_lookup(bs@, key@) == Some(*e),
            None => km_lookup(bs@, key@) is None,
        },
{
    let n = bs.len();
    let mut i: usize = 0;
    proof {
        assert(bs@.skip(0) =~= bs@);
    }
    while i < n
        invariant
            n == bs@.len(),
            i <= n,
            km_lookup(bs@, key@) == km_lookup(bs@.skip(i as int), key@),
        decreases n - i,
    {
        if bs[i].key.eq(key) {
            proof {
                assert(bs@.skip(i as int)[0] == bs@[i as int]);
            }
            return Some(&bs[i].entry);
        }
        proof {
            assert(bs@.skip(i as int)[0] == bs@[i as int]);
            assert(bs@.skip(i as int).drop_first() =~= bs@.skip(i + 1 as int));
        }
        i += 1;
    }
    proof {
        assert(bs@.skip(n as int).len() == 0);
    }
    None
}

/// The table reached from `bs` by following the `keys` in order.
fn walk_bindings<'a>(bs: &'a Vec<KeyBinding>, keys: &Vec<String>) -> (r: Option<
    &'a Vec<KeyBinding>,
>)
    ensures
        match r {
            Some(node) => km_walk(bs@, views_of(keys@)) == Some(node@),
            None => km_walk(bs@, views_of(keys@)) is None,
        },
{
    let n = keys.len();
    let mut current: &Vec<KeyBinding> = bs;
    let mut i: usize = 0;
    proof {
        assert(views_of(keys@).skip(0) =~= views_of(keys@));
    }
    while i < n
        invariant
            n == keys@.len(),
            i <= n,
            km_walk(bs@, views_of(keys@)) == km_walk(current@, views_of(keys@).skip(i as int)),
        decreases n - i,
    {
        proof {
            assert(views_of(keys@).skip(i as int)[0] == keys@[i as int]@);
            assert(views_of(keys@).skip(i as int).drop_first() =~= views_of(keys@).skip(
                i + 1 as int,
            ));
        }
        match lookup_binding(current, &keys[i]) {
            Some(entry) => match entry {
                Keymap::Many(inner) => {
                    current = inner;
                },
                Keymap::One(_) => {
                    return None;
                },
            },
            None => {
                return None;
            },
        }
        i += 1;
    }
    proof {
        assert(views_of(keys@).skip(n as int).len() == 0);
    }
    Some(current)
}

impl InputStack {
    /// The keymap table that `mode` starts sequences from.
    pub open spec fn root_map(&self, mode: InputMode) -> Seq<KeyBinding> {
        match mode {
            InputMode::Normal => self.normal_map@,
            InputMode::Insert => self.insert_map@,
            InputMode::Command => self.command_map@,
        }
    }

    /// The pending key tokens, as character sequences.
    pub open spec fn pending_keys(&self) -> Seq<Seq<char>> {
        views_of(self.event_stack@)
    }

    /// The active subtree: the table the pending tokens walk to from the
    /// mode's root, if they form a valid strict prefix of a bound sequence.
    pub open spec fn active_node(&self, mode: InputMode) -> Option<Seq<KeyBinding>> {
        km_walk(self.root_map(mode), self.pending_keys())
    }

    /// The resolver invariant for a mode: a non-empty pending sequence is a
    /// valid strict prefix of some bound sequence (it reaches an inner
    /// table).
    pub open spec fn wf(&self, mode: InputMode) -> bool {
        self.pending_keys().len() > 0 ==> self.active_node(mode) is Some
    }

    /// A fresh resolver: no pending sequence, and the fixed per-mode keymaps
    /// built once here.
    pub fn new() -> (r: InputStack)
        ensures
            r.pending_keys() == Seq::<Seq<char>>::empty(),
            forall|mode: InputMode| r.wf(mode),
            is_normal_map(r.normal_map@),
            is_insert_map(r.insert_map@),
            is_command_map(r.command_map@),
    {
        InputStack {
            event_stack: Vec::new(),
            normal_map: normal_map_table(),
            insert_map: insert_map_table(),
            command_map: command_map_table(),
        }
    }

    /// The character fast path, as code: `Some` only outside Normal mode,
    /// with no pending sequence, for a plain printable key.
    fn character_input(&self, event: KeyInput, mode: &InputMode) -> (r: Option<char>)
        ensures
            r == character_input_spec(*self, event, *mode),
    {
        if self.event_stack.len() > 0 {
            return None;
        }
        if let InputMode::Normal = mode {
            return None;
        }
        match event.code {
            KeyCode::Char(ch) => if event.ctrl {
                None
            } else {
                Some(ch)
            },
            _ => None,
        }
    }

    /// Resolves one key event in the given mode: either the character fast
    /// path emits an insert command at once, or the event's token steps
    /// through the keymap trie, emitting a leaf's commands, keeping a valid
    /// prefix pending, or dropping a dead-end key.
    pub fn handle_key_event(&mut self, event: KeyInput, mode: &InputMode) -> (r: Option<
        Vec<Command>,
    >)
        ensures
            resolve_step(*old(self), *final(self), event, *mode, cmds_view(r)),
            old(self).wf(*mode) ==> final(self).wf(*mode),
    {
        let ghost pre = *self;
        match self.character_input(event, mode) {
            Some(ch) => {
                match mode {
                    InputMode::Normal => {},
                    InputMode::Insert => {
                        let s = char_to_string(ch);
                        let mut cmds: Vec<Command> = Vec::new();
                        cmds.push(Command::EditorInsert(s));
                        return Some(cmds);
                    },
                    InputMode::Command => {
                        let mut cmds: Vec<Command> = Vec::new();
                        cmds.push(Command::CommandLineInsertChar(ch));
                        proof {
                            assert(cmds@ =~= seq![Command::CommandLineInsertChar(ch)]);
                        }
                        return Some(cmds);
                    },
                }
            },
            None => {},
        }
        let key = get_valid_key_string_from_event(event);
        match key {
            None => {
                self.event_stack.clear();
                proof {
                    assert(self.pending_keys() =~= Seq::<Seq<char>>::empty());
                }
                None
            },
            Some(tok) => {
                let empty_stack = self.event_stack.len() == 0;
                let root: &Vec<KeyBinding> = match mode {
                    InputMode::Normal => &self.normal_map,
                    InputMode::Insert => &self.insert_map,
                    InputMode::Command => &self.command_map,
                };
                let node: Option<&Vec<KeyBinding>> = if empty_stack {
                    Some(root)
                } else {
                    walk_bindings(root, &self.event_stack)
                };
                match node {
                    Some(bs) => {
                        match lookup_binding(bs, &tok) {
                            Some(entry) => match entry {
                                Keymap::One(cmds) => {
                                    let out = clone_commands(cmds);
                                    self.event_stack.clear();
                                    proof {
                                        assert(self.pending_keys() =~= Seq::<Seq<char>>::empty());
                                    }
                                    Some(out)
                                },
                                Keymap::Many(_) => {
                                    let ghost old_stack = self.event_stack@;
                                    let ghost tokv = tok@;
                                    self.event_stack.push(tok);
                                    proof {
                                        assert(self.pending_keys() =~= views_of(old_stack).push(
                                            tokv,
                                        ));
                                        lemma_km_walk_push(
                                            pre.root_map(*mode),
                                            views_of(old_stack),
                                            tokv,
                                        );
                                    }
                                    None
                                },
                            },
                            None => {
                                self.event_stack.clear();
                                proof {
                                    assert(self.pending_keys() =~= Seq::<Seq<char>>::empty());
                                }
                                None
                            },
                        }
                    },
                    None => {
                        self.event_stack.clear();
                        proof {
                            assert(self.pending_keys() =~= Seq::<Seq<char>>::empty());
                        }
                        None
                    },
                }
            },
        }
    }
}

/// A command list of one command.
fn cmds1(a: Command) -> (r: Vec<Command>)
    ensures
        r@ == seq![a],
{
    let mut v: Vec<Command> = Vec::new();
    v.push(a);
    proof {
        assert(v@ =~= seq![a]);
    }
    v
}

/// A command list of two commands.
fn cmds2(a: Command, b: Command) -> (r: Vec<Command>)
    ensures
        r@ == seq![a, b],
{
    let mut v: Vec<Command> = Vec::new();
    v.push(a);
    v.push(b);
    proof {
        assert(v@ =~= seq![a, b]);
    }
    v
}

/// A command list of three commands.
fn cmds3(a: Command, b: Command, c: Command) -> (r: Vec<Command>)
    ensures
        r@ == seq![a, b, c],
{
    let mut v: Vec<Command> = Vec::new();
    v.push(a);
    v.push(b);
    v.push(c);
    proof {
        assert(v@ =~= seq![a, b, c]);
    }
    v
}

/// Builds a one-entry binding.
fn binding(key: &str, entry: Keymap) -> (r: KeyBinding)
    ensures
        r.key@ == key@,
        r.entry == entry,
{
    KeyBinding { key: String::from_str(key), entry }
}

/// The binding at `i` maps token `key` to the single command `cmd`.
pub open spec fn binds_one(m: Seq<KeyBinding>, i: int, key: Seq<char>, cmd: Command) -> bool {
    &&& m[i].key@ == key
    &&& (m[i].entry matches Keymap::One(c) && c@ == seq![cmd])
}

/// The Insert-mode keymap, in full.
pub open spec fn is_insert_map(m: Seq<KeyBinding>) -> bool {
    &&& m.len() == 5
    &&& m[0].key@ == "esc"@
    &&& (m[0].entry matches Keymap::One(c) && c@ == seq![
        Command::ChangeInputMode(InputMode::Normal),
        Command::EditorMove(Motion::CharBackward),
        Command::EditorMove(Motion::CharForward),
    ])
    &&& binds_one(m, 1, "back"@, Command::EditorDelete(Motion::CharBackward))
    &&& binds_one(m, 2, "right"@, Command::EditorMove(Motion::CharForward))
    &&& binds_one(m, 3, "left"@, Command::EditorMove(Motion::CharBackward))
    &&& (m[4].key@ == "enter"@ && (m[4].entry matches Keymap::One(c) && c.len() == 1 && (c[0]
    matches Command::EditorInsert(s) && s@ == "\n"@)))
}

/// The Normal-mode keymap, in full.
pub open spec fn is_normal_map(m: Seq<KeyBinding>) -> bool {
    &&& m.len() == 18
    &&& binds_one(m, 0, "i"@, Command::ChangeInputMode(InputMode::Insert))
    &&& binds_one(m, 1, ":"@, Command::ChangeInputMode(InputMode::Command))
    &&& binds_one(m, 2, "h"@, Command::EditorMove(Motion::CharBackward))
    &&& binds_one(m, 3, "l"@, Command::EditorMove(Motion::CharForward))
    &&& binds_one(m, 4, "left"@, Command::EditorMove(Motion::CharBackward))
    &&& binds_one(m, 5, "right"@, Command::EditorMove(Motion::CharForward))
    &&& binds_one(m, 6, "w"@, Command::EditorMove(Motion::NextWordStart))
    &&& binds_one(m, 7, "W"@, Command::EditorMove(Motion::NextWordProperStart))
    &&& binds_one(m, 8, "e"@, Command::EditorMove(Motion::NextWordEnd))
    &&& binds_one(m, 9, "E"@, Command::EditorMove(Motion::NextWordProperEnd))
    &&& binds_one(m, 10, "b"@, Command::EditorMove(Motion::LastWordStart))
    &&& binds_one(m, 11, "B"@, Command::EditorMove(Motion::LastWordProperStart))
    &&& binds_one(m, 12, "0"@, Command::EditorMove(Motion::LineStart))
    &&& binds_one(m, 13, "$"@, Command::EditorMove(Motion::LineEnd))
    &&& binds_one(m, 14, "enter"@, Command::EditorMove(Motion::NextLineStart))
    &&& binds_one(m, 15, "x"@, Command::EditorDelete(Motion::CharForward))
    &&& m[16].key@ == "g"@
    &&& (m[16].entry matches Keymap::Many(g) && {
        &&& g@.len() == 2
        &&& binds_one(g@, 0, "e"@, Command::EditorMove(Motion::LastWordEnd))
        &&& binds_one(g@, 1, "E"@, Command::EditorMove(Motion::LastWordProperEnd))
    })
    &&& m[17].key@ == "d"@
    &&& (m[17].entry matches Keymap::Many(d) && {
        &&& d@.len() == 3
        &&& binds_one(d@, 0, "w"@, Command::EditorDelete(Motion::NextWordStart))
        &&& binds_one(d@, 1, "e"@, Command::EditorDelete(Motion::NextWordEnd))
        &&& binds_one(d@, 2, "$"@, Command::EditorDelete(Motion::LineEnd))
    })
}

/// The Command-mode keymap, in full.
pub open spec fn is_command_map(m: Seq<KeyBinding>) -> bool {
    &&& m.len() == 5
    &&& m[0].key@ == "esc"@
    &&& (m[0].entry matches Keymap::One(c) && c@ == seq![
        Command::CommandLineStop,
        Command::ChangeInputMode(InputMode::Normal),
    ])
    &&& m[1].key@ == "enter"@
    &&& (m[1].entry matches Keymap::One(c) && c@ == seq![
        Command::CommandLineEnter,
        Command::CommandLineStop,
        Command::ChangeInputMode(InputMode::Normal),
    ])
    &&& binds_one(m, 2, "back"@, Command::CommandLineDelete)
    &&& binds_one(m, 3, "left"@, Command::CommandLineLeft)
    &&& binds_one(m, 4, "right"@, Command::CommandLineRight)
}

/// The Normal-mode root keymap: motions, deletion, and mode switches, with
/// the `g` and `d` prefixes opening two-key sequences.
pub fn normal_map_table() -> (r: Vec<KeyBinding>)
    ensures
        is_normal_map(r@),
{
    let mut g: Vec<KeyBinding> = Vec::new();
    g.push(binding("e", Keymap::One(cmds1(Command::EditorMove(Motion::LastWordEnd)))));
    g.push(binding("E", Keymap::One(cmds1(Command::EditorMove(Motion::LastWordProperEnd)))));
    let mut d: Vec<KeyBinding> = Vec::new();
    d.push(binding("w", Keymap::One(cmds1(Command::EditorDelete(Motion::NextWordStart)))));
    d.push(binding("e", Keymap::One(cmds1(Command::EditorDelete(Motion::NextWordEnd)))));
    d.push(binding("$", Keymap::One(cmds1(Command::EditorDelete(Motion::LineEnd)))));
    let mut m: Vec<KeyBinding> = Vec::new();
    m.push(binding("i", Keymap::One(cmds1(Command::ChangeInputMode(InputMode::Insert)))));
    m.push(binding(":", Keymap::One(cmds1(Command::ChangeInputMode(InputMode::Command)))));
    m.push(binding("h", Keymap::One(cmds1(Command::EditorMove(Motion::CharBackward)))));
    m.push(binding("l", Keymap::One(cmds1(Command::EditorMove(Motion::CharForward)))));
    m.push(binding("left", Keymap::One(cmds1(Command::EditorMove(Motion::CharBackward)))));
    m.push(binding("right", Keymap::One(cmds1(Command::EditorMove(Motion::CharForward)))));
    m.push(binding("w", Keymap::One(cmds1(Command::EditorMove(Motion::NextWordStart)))));
    m.push(binding("W", Keymap::One(cmds1(Command::EditorMove(Motion::NextWordProperStart)))));
    m.push(binding("e", Keymap::One(cmds1(Command::EditorMove(Motion::NextWordEnd)))));
    m.push(binding("E", Keymap::One(cmds1(Command::EditorMove(Motion::NextWordProperEnd)))));
    m.push(binding("b", Keymap::One(cmds1(Command::EditorMove(Motion::LastWordStart)))));
    m.push(binding("B", Keymap::One(cmds1(Command::EditorMove(Motion::LastWordProperStart)))));
    m.push(binding("0", Keymap::One(cmds1(Command::EditorMove(Motion::LineStart)))));
    m.push(binding("$", Keymap::One(cmds1(Command::EditorMove(Motion::LineEnd)))));
    m.push(binding("enter", Keymap::One(cmds1(Command::EditorMove(Motion::NextLineStart)))));
    m.push(binding("x", Keymap::One(cmds1(Command::EditorDelete(Motion::CharForward)))));
    m.push(binding("g", Keymap::Many(g)));
    m.push(binding("d", Keymap::Many(d)));
    m
}

/// The Insert-mode root keymap: escape back to Normal, deletion, arrows and
/// the newline; printable characters take the fast path instead.
pub fn insert_map_table() -> (r: Vec<KeyBinding>)
    ensures
        is_insert_map(r@),
{
    let mut m: Vec<KeyBinding> = Vec::new();
    m.push(
        binding(
            "esc",
            Keymap::One(
                cmds3(
                    Command::ChangeInputMode(InputMode::Normal),
                    Command::EditorMove(Motion::CharBackward),
                    Command::EditorMove(Motion::CharForward),
                ),
            ),
        ),
    );
    m.push(binding("back", Keymap::One(cmds1(Command::EditorDelete(Motion::CharBackward)))));
    m.push(binding("right", Keymap::One(cmds1(Command::EditorMove(Motion::CharForward)))));
    m.push(binding("left", Keymap::One(cmds1(Command::EditorMove(Motion::CharBackward)))));
    m.push(binding("enter", Keymap::One(cmds1(Command::EditorInsert(String::from_str("\n"))))));
    m
}

/// The Command-mode root keymap: finish or abandon the line, edit it, move
/// within it; printable characters take the fast path instead.
pub fn command_map_table() -> (r: Vec<KeyBinding>)
    ensures
        is_command_map(r@),
{
    let mut m: Vec<KeyBinding> = Vec::new();
    m.push(
        binding(
            "esc",
            Keymap::One(
                cmds2(Command::CommandLineStop, Command::ChangeInputMode(InputMode::Normal)),
            ),
        ),
    );
    m.push(
        binding(
            "enter",
            Keymap::One(
                cmds3(
                    Command::CommandLineEnter,
                    Command::CommandLineStop,
                    Command::ChangeInputMode(InputMode::Normal),
                ),
            ),
        ),
    );
    m.push(binding("back", Keymap::One(cmds1(Command::CommandLineDelete))));
    m.push(binding("left", Keymap::One(cmds1(Command::CommandLineLeft))));
    m.push(binding("right", Keymap::One(cmds1(Command::CommandLineRight))));
    m
}

} // verus!
