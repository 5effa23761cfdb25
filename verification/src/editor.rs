//! The editor buffer: a gap-buffer text store, the cursor into it, the file
//! path the text came from, and the highlight spans recomputed after every
//! mutation.

use crate::app::InputMode;
use crate::gap_buffer::{GapBuffer, GROW_SLACK};
use crate::highlighting::{
    calculate_rust_highlights, get_rust_highlight_config, new_highlighter, rust_highlight_names,
    spans_of, FileType, HighlightSpan, HighlightStep,
};
use crate::motions::{apply_motion, motion_target, Motion};
use vstd::prelude::*;

verus! {

/// The Normal-mode newline backoff: Normal mode never rests the cursor on a
/// line-ending newline, so a landing index whose character is a newline is
/// backed off by one (saturating at 0).  Other modes, and landings on the
/// virtual end-of-text slot, are left alone.
pub open spec fn backoff_newline(t: Seq<char>, i: int, mode: InputMode) -> int {
    if mode == InputMode::Normal && 0 <= i < t.len() && t[i] == '\n' {
        if i > 0 {
            i - 1
        } else {
            0
        }
    } else {
        i
    }
}

/// Where the cursor lands when `m` is applied in `mode` from index `s`: the
/// motion's target, then the Normal-mode newline backoff.
pub open spec fn cursor_after_motion(t: Seq<char>, s: int, m: Motion, mode: InputMode) -> int {
    backoff_newline(t, motion_target(t, s, m), mode)
}

/// The lesser of a deletion span's two endpoints.
pub open spec fn span_low(a: int, b: int) -> int {
    if a <= b {
        a
    } else {
        b
    }
}

/// The text left over when the characters between `a` and `b` (in either
/// order, excluding the character at the higher endpoint) are removed.
pub open spec fn delete_span_text(t: Seq<char>, a: int, b: int) -> Seq<char> {
    let lo = span_low(a, b);
    let hi = if a <= b {
        b
    } else {
        a
    };
    t.subrange(0, lo) + t.subrange(hi, t.len() as int)
}

/// Deletion does not depend on the direction of the motion that produced the
/// span: the endpoints are ordered before anything is removed, so both
/// orders leave the same text and the same cursor.
pub proof fn lemma_delete_order_invariant(t: Seq<char>, a: int, b: int)
    ensures
        delete_span_text(t, a, b) == delete_span_text(t, b, a),
        span_low(a, b) == span_low(b, a),
{
}

pub struct EditorBuffer {
    /// Position of the cursor in the editor area.
    pub cursor_index: usize,
    /// Gap buffer storing the text.
    pub gap_buffer: GapBuffer,
    /// Path the text was loaded from, if any.
    pub path: Option<String>,
    pub filetype: FileType,
    /// External highlighting collaborator.
    pub highlighter: tree_sitter_highlight::Highlighter,
    pub highlighter_config: Option<tree_sitter_highlight::HighlightConfiguration>,
    pub highlight_groups: Vec<HighlightSpan>,
}

impl EditorBuffer {
    /// The buffer invariant: the store is well formed and the cursor lies in
    /// `[0, data_length]`.
    pub open spec fn wf(&self) -> bool {
        &&& self.gap_buffer.wf()
        &&& self.cursor_index <= self.gap_buffer.spec_data_length()
    }

    pub open spec fn text(&self) -> Seq<char> {
        self.gap_buffer.text()
    }

    /// The highlight spans are the rendering of some event stream handed
    /// back by the highlighting collaborator.
    pub open spec fn highlights_fresh(&self) -> bool {
        exists|evs: Seq<HighlightStep>| self.highlight_groups@ == spans_of(evs)
    }

    /// The parts no editing operation touches: path, file type and the
    /// highlight configuration.
    pub open spec fn fixed_parts_unchanged(pre: &EditorBuffer, post: &EditorBuffer) -> bool {
        &&& post.path == pre.path
        &&& post.filetype == pre.filetype
        &&& post.highlighter_config == pre.highlighter_config
    }

    /// What a cursor move does: the cursor lands where the motion and the
    /// newline backoff put it; everything else is untouched.
    pub open spec fn move_rel(
        pre: EditorBuffer,
        post: EditorBuffer,
        m: Motion,
        mode: InputMode,
    ) -> bool {
        &&& post.wf()
        &&& post.cursor_index == cursor_after_motion(
            pre.text(),
            pre.cursor_index as int,
            m,
            mode,
        )
        &&& post.gap_buffer == pre.gap_buffer
        &&& post.highlight_groups == pre.highlight_groups
        &&& post.highlighter == pre.highlighter
        &&& Self::fixed_parts_unchanged(&pre, &post)
    }

    /// What an insertion does: the text gains `s` at the cursor, the cursor
    /// advances by one `CharForward` motion over the new text, and the
    /// highlights are recomputed.
    pub open spec fn insert_rel(
        pre: EditorBuffer,
        post: EditorBuffer,
        s: Seq<char>,
        mode: InputMode,
    ) -> bool {
        &&& post.wf()
        &&& post.text() == pre.text().subrange(0, pre.cursor_index as int) + s
            + pre.text().subrange(pre.cursor_index as int, pre.text().len() as int)
        &&& post.cursor_index == cursor_after_motion(
            post.text(),
            pre.cursor_index as int,
            Motion::CharForward,
            mode,
        )
        &&& Self::fixed_parts_unchanged(&pre, &post)
        &&& post.highlights_fresh()
    }

    /// What a deletion does: the span between the cursor and the motion's
    /// landing point is removed, whichever direction the motion went, the
    /// cursor rests at the span's lower end, and the highlights are
    /// recomputed.
    pub open spec fn delete_rel(
        pre: EditorBuffer,
        post: EditorBuffer,
        m: Motion,
        mode: InputMode,
    ) -> bool {
        let tgt = cursor_after_motion(pre.text(), pre.cursor_index as int, m, mode);
        &&& post.wf()
        &&& post.text() == delete_span_text(pre.text(), pre.cursor_index as int, tgt)
        &&& post.cursor_index == span_low(pre.cursor_index as int, tgt)
        &&& Self::fixed_parts_unchanged(&pre, &post)
        &&& post.highlights_fresh()
    }

    /// Creates a buffer over `text`, cursor at 0, highlights computed.
    pub fn new(text: &str, path: Option<String>) -> (r: EditorBuffer)
        requires
            text@.len() < usize::MAX / 4,
        ensures
            r.wf(),
            r.text() == text@,
            r.cursor_index == 0,
            r.path == path,
            r.filetype == FileType::Rust,
            r.highlights_fresh(),
    {
        let names = rust_highlight_names();
        let config = get_rust_highlight_config(&names);
        let mut eb = EditorBuffer {
            cursor_index: 0,
            gap_buffer: GapBuffer::with_data(text),
            path,
            filetype: FileType::Rust,
            highlighter: new_highlighter(),
            highlighter_config: config,
            highlight_groups: Vec::new(),
        };
        eb.calculate_highlights();
        eb
    }

    /// Recomputes the highlight spans over the full current text, by way of
    /// the external collaborator.  Everything but the highlighting state is
    /// untouched; if the collaborator fails, the spans are empty.
    pub fn calculate_highlights(&mut self)
        requires
            old(self).wf(),
        ensures
            final(self).wf(),
            final(self).cursor_index == old(self).cursor_index,
            final(self).gap_buffer == old(self).gap_buffer,
            Self::fixed_parts_unchanged(old(self), final(self)),
            final(self).highlights_fresh(),
    {
        let content = self.gap_buffer.get_text_as_bytes();
        let mut new_spans: Vec<HighlightSpan> = Vec::new();
        proof {
            assert(new_spans@ =~= spans_of(Seq::<HighlightStep>::empty()));
        }
        match &self.highlighter_config {
            Some(cfg) => {
                new_spans = calculate_rust_highlights(&content, &mut self.highlighter, cfg);
            },
            None => {},
        }
        self.highlight_groups = new_spans;
    }

    /// Applies `motion` to the cursor, then the Normal-mode newline backoff.
    /// The text is untouched.
    pub fn move_cursor(&mut self, motion: &Motion, mode: InputMode)
        requires
            old(self).wf(),
        ensures
            Self::move_rel(*old(self), *final(self), *motion, mode),
    {
        let target = apply_motion(&self.gap_buffer, self.cursor_index, motion);
        self.cursor_index = target;
        let dl = self.gap_buffer.data_length();
        if let InputMode::Normal = mode {
            if self.cursor_index < dl {
                let c = self.gap_buffer.get_at(self.cursor_index);
                if c == '\n' {
                    if self.cursor_index > 0 {
                        self.cursor_index = self.cursor_index - 1;
                    }
                }
            }
        }
    }

    /// Inserts `to_insert` at the cursor, advances the cursor by one
    /// `CharForward` motion, and recomputes highlights.
    pub fn insert(&mut self, to_insert: String, mode: InputMode)
        requires
            old(self).wf(),
            old(self).gap_buffer.buffer@.len() + to_insert@.len() + GROW_SLACK <= usize::MAX,
        ensures
            Self::insert_rel(*old(self), *final(self), to_insert@, mode),
    {
        let at = self.cursor_index;
        self.gap_buffer.insert_at(to_insert.as_str(), at);
        self.move_cursor(&Motion::CharForward, mode);
        self.calculate_highlights();
    }

    /// Deletes the span between the cursor and where `motion` lands,
    /// whichever direction that is; the cursor is left at the lower end, and
    /// highlights are recomputed.
    pub fn delete(&mut self, motion: Motion, mode: InputMode)
        requires
            old(self).wf(),
        ensures
            Self::delete_rel(*old(self), *final(self), motion, mode),
    {
        let delete_start = self.cursor_index;
        self.move_cursor(&motion, mode);
        let delete_end = self.cursor_index;
        let (amount_to_delete, at) = if delete_end < delete_start {
            (delete_start - delete_end, delete_end)
        } else {
            (delete_end - delete_start, delete_start)
        };
        self.gap_buffer.delete_at(amount_to_delete, at);
        self.cursor_index = at;
        self.calculate_highlights();
    }
}

/// On an empty buffer the cursor can only sit at 0, and every motion, in
/// every mode, leaves it there: the landing index is 0 and no character is
/// read for the newline backoff.
pub proof fn lemma_empty_buffer_motions_are_noops(t: Seq<char>, m: Motion, mode: InputMode)
    requires
        t.len() == 0,
    ensures
        cursor_after_motion(t, 0, m, mode) == 0,
{
    crate::motions::lemma_empty_text_motions_are_noops(t, m);
}

} // verus!
