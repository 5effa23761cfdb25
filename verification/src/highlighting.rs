//! Syntax-highlighting support.  The actual highlight computation is an
//! external collaborator (tree-sitter); this module declares the collaborator
//! types, wraps the calls into it, and verifies the step that turns the
//! collaborator's raw event stream into styled spans over byte ranges.

use tree_sitter_highlight::HighlightEvent;
use vstd::prelude::*;

verus! {

/// Kinds of file content the editor can highlight.
#[derive(Clone, Copy, Debug, PartialEq, Eq, Structural)]
pub enum FileType {
    Rust,
}

/// A style class that a span of source bytes belongs to.
#[derive(Clone, Copy, Debug, PartialEq, Eq, Structural)]
pub enum HighlightGroup {
    Attribute,
    Comment,
    Constant,
    ConstantBuiltin,
    Constructor,
    Escape,
    Function,
    FunctionBuiltin,
    FunctionMethod,
    FunctionMacro,
    Keyword,
    Label,
    Operator,
    Property,
    Punctuation,
    PunctuationBracket,
    PunctuationDelimiter,
    String,
    StringSpecial,
    Tag,
    Type,
    TypeBuiltin,
    Variable,
    VariableBuiltin,
    VariableParameter,
    Unstyled,
}

/// A styled region: the style group applies to bytes `start..end` of the
/// highlighted content.
#[derive(Clone, Copy, Debug, PartialEq, Eq, Structural)]
pub struct HighlightSpan {
    pub group: HighlightGroup,
    pub start: usize,
    pub end: usize,
}

/// One step of the highlighter's output stream, carried as plain values.
#[derive(Clone, Copy, Debug, PartialEq, Eq, Structural)]
pub enum HighlightStep {
    Source { start: usize, end: usize },
    Start { index: usize },
    End,
}

/// The style group that the recognized-name table assigns to highlight index
/// `i`; indices past the table fall back to no styling.
pub open spec fn group_of_index(i: int) -> HighlightGroup {
    if i == 0 {
        HighlightGroup::Attribute
    } else if i == 1 {
        HighlightGroup::Comment
    } else if i == 2 {
        HighlightGroup::Constant
    } else if i == 3 {
        HighlightGroup::ConstantBuiltin
    } else if i == 4 {
        HighlightGroup::Constructor
    } else if i == 5 {
        HighlightGroup::Escape
    } else if i == 6 {
        HighlightGroup::Function
    } else if i == 7 {
        HighlightGroup::FunctionBuiltin
    } else if i == 8 {
        HighlightGroup::FunctionMethod
    } else if i == 9 {
        HighlightGroup::FunctionMacro
    } else if i == 10 {
        HighlightGroup::Keyword
    } else if i == 11 {
        HighlightGroup::Label
    } else if i == 12 {
        HighlightGroup::Operator
    } else if i == 13 {
        HighlightGroup::Property
    } else if i == 14 {
        HighlightGroup::Punctuation
    } else if i == 15 {
        HighlightGroup::PunctuationBracket
    } else if i == 16 {
        HighlightGroup::PunctuationDelimiter
    } else if i == 17 {
        HighlightGroup::String
    } else if i == 18 {
        HighlightGroup::StringSpecial
    } else if i == 19 {
        HighlightGroup::Tag
    } else if i == 20 {
        HighlightGroup::Type
    } else if i == 21 {
        HighlightGroup::TypeBuiltin
    } else if i == 22 {
        HighlightGroup::Variable
    } else if i == 23 {
        HighlightGroup::VariableBuiltin
    } else if i == 24 {
        HighlightGroup::VariableParameter
    } else {
        HighlightGroup::Unstyled
    }
}

/// The spans produced from the event suffix starting at `i`, with `current`
/// the style group in effect.
pub open spec fn spans_of_from(
    evs: Seq<HighlightStep>,
    i: int,
    current: HighlightGroup,
) -> Seq<HighlightSpan>
    decreases evs.len() - i,
{
    if i < 0 || i >= evs.len() {
        seq![]
    } else {
        match evs[i] {
            HighlightStep::Source { start, end } => seq![
                HighlightSpan { group: current, start, end },
            ] + spans_of_from(evs, i + 1, current),
            HighlightStep::Start { index } => spans_of_from(evs, i + 1, group_of_index(
                index as int,
            )),
            HighlightStep::End => spans_of_from(evs, i + 1, HighlightGroup::Unstyled),
        }
    }
}

/// The spans produced from a whole event stream: each source region is styled
/// with the group opened by the nearest preceding start event still in
/// effect, or no styling outside any highlight.
pub open spec fn spans_of(evs: Seq<HighlightStep>) -> Seq<HighlightSpan> {
    spans_of_from(evs, 0, HighlightGroup::Unstyled)
}

pub fn group_for_index(i: usize) -> (g: HighlightGroup)
    ensures
        g == group_of_index(i as int),
{
    if i == 0 {
        HighlightGroup::Attribute
    } else if i == 1 {
        HighlightGroup::Comment
    } else if i == 2 {
        HighlightGroup::Constant
    } else if i == 3 {
        HighlightGroup::ConstantBuiltin
    } else if i == 4 {
        HighlightGroup::Constructor
    } else if i == 5 {
        HighlightGroup::Escape
    } else if i == 6 {
        HighlightGroup::Function
    } else if i == 7 {
        HighlightGroup::FunctionBuiltin
    } else if i == 8 {
        HighlightGroup::FunctionMethod
    } else if i == 9 {
        HighlightGroup::FunctionMacro
    } else if i == 10 {
        HighlightGroup::Keyword
    } else if i == 11 {
        HighlightGroup::Label
    } else if i == 12 {
        HighlightGroup::Operator
    } else if i == 13 {
        HighlightGroup::Property
    } else if i == 14 {
        HighlightGroup::Punctuation
    } else if i == 15 {
        HighlightGroup::PunctuationBracket
    } else if i == 16 {
        HighlightGroup::PunctuationDelimiter
    } else if i == 17 {
        HighlightGroup::String
    } else if i == 18 {
        HighlightGroup::StringSpecial
    } else if i == 19 {
        HighlightGroup::Tag
    } else if i == 20 {
        HighlightGroup::Type
    } else if i == 21 {
        HighlightGroup::TypeBuiltin
    } else if i == 22 {
        HighlightGroup::Variable
    } else if i == 23 {
        HighlightGroup::VariableBuiltin
    } else if i == 24 {
        HighlightGroup::VariableParameter
    } else {
        HighlightGroup::Unstyled
    }
}

/// Turns the highlighter's raw event stream into styled spans: a state
/// machine whose current style is set by start events, cleared by end events,
/// and stamped onto every source region.
pub fn events_to_spans(events: &Vec<HighlightStep>) -> (r: Vec<HighlightSpan>)
    ensures
        r@ == spans_of(events@),
{
    let n = events.len();
    let mut r: Vec<HighlightSpan> = Vec::new();
    let mut current = HighlightGroup::Unstyled;
    let mut i: usize = 0;
    while i < n
        invariant
            n == events@.len(),
            i <= n,
            spans_of(events@) == r@ + spans_of_from(events@, i as int, current),
        decreases n - i,
    {
        match events[i] {
            HighlightStep::Source { start, end } => {
                r.push(HighlightSpan { group: current, start, end });
            },
            HighlightStep::Start { index } => {
                current = group_for_index(index);
            },
            HighlightStep::End => {
                current = HighlightGroup::Unstyled;
            },
        }
        i += 1;
        proof {
            assert(spans_of(events@) =~= r@ + spans_of_from(events@, i as int, current));
        }
    }
    proof {
        assert(spans_of(events@) =~= r@);
    }
    r
}

/// Declares `tree_sitter_highlight::Highlighter`, the collaborator's parser
/// state, as an opaque type that values can be carried through.
#[verifier::external_type_specification]
#[verifier::external_body]
pub struct ExHighlighter(tree_sitter_highlight::Highlighter);

/// Declares `tree_sitter_highlight::HighlightConfiguration`, the compiled
/// grammar and queries for one language, as an opaque type.
#[verifier::external_type_specification]
#[verifier::external_body]
pub struct ExHighlightConfiguration(tree_sitter_highlight::HighlightConfiguration);

/// Relies on `tree_sitter_highlight::Highlighter::new`: a fresh highlighter.
#[verifier::external_body]
pub fn new_highlighter() -> tree_sitter_highlight::Highlighter {
    tree_sitter_highlight::Highlighter::new()
}

/// The capture name whose matches are styled as `group_of_index(i)`.
pub open spec fn highlight_name(i: int) -> Seq<char> {
    if i == 0 {
        "attribute"@
    } else if i == 1 {
        "comment"@
    } else if i == 2 {
        "constant"@
    } else if i == 3 {
        "constant.builtin"@
    } else if i == 4 {
        "constructor"@
    } else if i == 5 {
        "escape"@
    } else if i == 6 {
        "function"@
    } else if i == 7 {
        "function.builtin"@
    } else if i == 8 {
        "function.method"@
    } else if i == 9 {
        "function.macro"@
    } else if i == 10 {
        "keyword"@
    } else if i == 11 {
        "label"@
    } else if i == 12 {
        "operator"@
    } else if i == 13 {
        "property"@
    } else if i == 14 {
        "punctuation"@
    } else if i == 15 {
        "punctuation.bracket"@
    } else if i == 16 {
        "punctuation.delimiter"@
    } else if i == 17 {
        "string"@
    } else if i == 18 {
        "string.special"@
    } else if i == 19 {
        "tag"@
    } else if i == 20 {
        "type"@
    } else if i == 21 {
        "type.builtin"@
    } else if i == 22 {
        "variable"@
    } else if i == 23 {
        "variable.builtin"@
    } else {
        "variable.parameter"@
    }
}

/// The highlight names recognized for Rust content, in the order that ties
/// them to `group_of_index`: the name at position `i` is styled as
/// `group_of_index(i)`.
pub fn rust_highlight_names() -> (r: Vec<&'static str>)
    ensures
        r@.len() == 25,
        forall|i: int| 0 <= i < 25 ==> (#[trigger] r@[i])@ == highlight_name(i),
{
    let mut r: Vec<&'static str> = Vec::new();
    r.push("attribute");
    r.push("comment");
    r.push("constant");
    r.push("constant.builtin");
    r.push("constructor");
    r.push("escape");
    r.push("function");
    r.push("function.builtin");
    r.push("function.method");
    r.push("function.macro");
    r.push("keyword");
    r.push("label");
    r.push("operator");
    r.push("property");
    r.push("punctuation");
    r.push("punctuation.bracket");
    r.push("punctuation.delimiter");
    r.push("string");
    r.push("string.special");
    r.push("tag");
    r.push("type");
    r.push("type.builtin");
    r.push("variable");
    r.push("variable.builtin");
    r.push("variable.parameter");
    r
}

/// Relies on `tree_sitter_highlight::HighlightConfiguration::new` and
/// `configure`, with `tree_sitter_rust`'s grammar and bundled queries: builds
/// the Rust highlight configuration, recognizing the given names in order, or
/// `None` if the queries are rejected.
#[verifier::external_body]
pub fn get_rust_highlight_config(names: &Vec<&str>) -> (r: Option<
    tree_sitter_highlight::HighlightConfiguration,
>) {
    let cfg = tree_sitter_highlight::HighlightConfiguration::new(
        tree_sitter_rust::LANGUAGE.into(),
        "rust",
        tree_sitter_rust::HIGHLIGHTS_QUERY,
        tree_sitter_rust::INJECTIONS_QUERY,
        tree_sitter_rust::TAGS_QUERY,
    );
    cfg.ok().map(
        |mut c|
            {
                c.configure(names.as_slice());
                c
            },
    )
}

/// Relies on `tree_sitter_highlight::Highlighter::highlight`: collects the
/// event stream for `source`, each event carried over as plain values, or an
/// error if highlighting fails.  Nothing is assumed about which events come
/// back; `events_to_spans` is verified for every possible stream.
#[verifier::external_body]
pub fn run_highlight(
    hl: &mut tree_sitter_highlight::Highlighter,
    config: &tree_sitter_highlight::HighlightConfiguration,
    source: &Vec<u8>,
) -> Result<Vec<HighlightStep>, ()> {
    let iter = hl.highlight(config, source.as_slice(), None, None, |_| Option::None).map_err(
        |_| (),
    )?;
    iter.map(
        |ev| match ev.map_err(|_| ())? {
            HighlightEvent::Source { start, end } => Ok(HighlightStep::Source { start, end }),
            HighlightEvent::HighlightStart(h) => Ok(HighlightStep::Start { index: h.0 }),
            HighlightEvent::HighlightEnd => Ok(HighlightStep::End),
        },
    ).collect()
}

/// The highlight spans for `content`: the collaborator's event stream,
/// rendered into spans by `events_to_spans`; empty if highlighting fails.
pub fn calculate_rust_highlights(
    content: &Vec<u8>,
    highlighter: &mut tree_sitter_highlight::Highlighter,
    highlighter_config: &tree_sitter_highlight::HighlightConfiguration,
) -> (r: Vec<HighlightSpan>)
    ensures
        exists|evs: Seq<HighlightStep>| r@ == spans_of(evs),
{
    match run_highlight(highlighter, highlighter_config, content) {
        Ok(evs) => events_to_spans(&evs),
        Err(_) => {
            let r: Vec<HighlightSpan> = Vec::new();
            proof {
                assert(r@ =~= spans_of(Seq::<HighlightStep>::empty()));
            }
            r
        },
    }
}

} // verus!
