//! The motion engine: pure functions from (text, current index, motion) to a
//! new index.  Motions are phrased over two character classes, *alphanumeric*
//! and *whitespace*: a word is a maximal run of alphanumeric characters or a
//! maximal run of other non-whitespace characters, while a proper word (WORD)
//! is any maximal run of non-whitespace characters.

use crate::gap_buffer::GapBuffer;
use vstd::prelude::*;

verus! {

/// Whether `char::is_alphanumeric` holds of `c`; the Unicode tables behind it
/// are not restated here.
pub uninterp spec fn is_alnum(c: char) -> bool;

/// Whether `char::is_whitespace` holds of `c`; the Unicode tables behind it
/// are not restated here.
pub uninterp spec fn is_wspace(c: char) -> bool;

/// Relies on `char::is_alphanumeric`: the result depends on the character
/// alone.
pub assume_specification[ char::is_alphanumeric ](c: char) -> (r: bool)
    ensures
        r == is_alnum(c),
;

/// Relies on `char::is_whitespace`: the result depends on the character
/// alone.
pub assume_specification[ char::is_whitespace ](c: char) -> (r: bool)
    ensures
        r == is_wspace(c),
;

/// A cursor movement.  A pure selector of algorithm; it carries no state.
#[derive(Clone, Copy, Debug, PartialEq, Eq, Structural)]
pub enum Motion {
    CharForward,
    CharBackward,
    NextWordStart,
    NextWordProperStart,
    NextWordEnd,
    NextWordProperEnd,
    LastWordStart,
    LastWordProperStart,
    LastWordEnd,
    LastWordProperEnd,
    NextLineStart,
    LineStart,
    LineEnd,
}

/// First index in `[i, end)` that satisfies `stop`, or `fallback` if none
/// does.
pub open spec fn scan_fwd(i: int, end: int, fallback: int, stop: spec_fn(int) -> bool) -> int
    decreases end - i,
{
    if i >= end {
        fallback
    } else if stop(i) {
        i
    } else {
        scan_fwd(i + 1, end, fallback, stop)
    }
}

/// Last index in `(0, i]` that satisfies `stop`, or 0 if none does.  Index 0
/// itself is never tested: the backward word scans must not read its
/// predecessor, so 0 is only their saturation point.
pub open spec fn scan_bwd(i: int, stop: spec_fn(int) -> bool) -> int
    decreases i,
{
    if i <= 0 {
        0
    } else if stop(i) {
        i
    } else {
        scan_bwd(i - 1, stop)
    }
}

/// Last index in `[0, i]` that satisfies `stop`, or -1 if none does.  Unlike
/// `scan_bwd` this tests index 0 too; it serves scans whose stop predicate
/// reads only the candidate index itself.
pub open spec fn scan_bwd_to_zero(i: int, stop: spec_fn(int) -> bool) -> int
    decreases i + 1,
{
    if i < 0 {
        -1
    } else if stop(i) {
        i
    } else {
        scan_bwd_to_zero(i - 1, stop)
    }
}

/// Some whitespace character occurs at an index in `[lo, hi)`.
pub open spec fn ws_between(t: Seq<char>, lo: int, hi: int) -> bool {
    exists|j: int| lo <= j < hi && is_wspace(#[trigger] t[j])
}

/// The character a scan starts from is alphanumeric.  The virtual end-of-text
/// slot counts as not alphanumeric.
pub open spec fn start_is_alnum(t: Seq<char>, s: int) -> bool {
    s < t.len() && is_alnum(t[s])
}

/// The character a scan starts from is whitespace.  The virtual end-of-text
/// slot counts as not whitespace.
pub open spec fn start_is_ws(t: Seq<char>, s: int) -> bool {
    s < t.len() && is_wspace(t[s])
}

/// A backward scan from `s` standing at `i` has passed some whitespace:
/// either the start character itself or one strictly between.
pub open spec fn bwd_ws_seen(t: Seq<char>, s: int, i: int) -> bool {
    start_is_ws(t, s) || (exists|j: int| i < j < s && is_wspace(#[trigger] t[j]))
}

/// Where `NextWordStart` stops: a non-whitespace character that either
/// follows a whitespace run or crosses a word-class boundary from the start
/// character.
pub open spec fn nws_stop(t: Seq<char>, s: int, i: int) -> bool {
    !is_wspace(t[i]) && (ws_between(t, s, i) || is_alnum(t[i]) != start_is_alnum(t, s))
}

/// Where `NextWordProperStart` stops: a non-whitespace character immediately
/// following a whitespace run.
pub open spec fn nwps_stop(t: Seq<char>, s: int, i: int) -> bool {
    !is_wspace(t[i]) && ws_between(t, s, i)
}

/// Where `NextWordEnd` stops: the last character of a word.
pub open spec fn word_end_stop(t: Seq<char>, i: int) -> bool {
    !is_wspace(t[i]) && (is_alnum(t[i]) != is_alnum(t[i + 1]) || is_wspace(t[i + 1]))
}

/// Where `NextWordProperEnd` stops: the last character of a proper word.
pub open spec fn word_proper_end_stop(t: Seq<char>, i: int) -> bool {
    !is_wspace(t[i]) && is_wspace(t[i + 1])
}

/// Where `LastWordStart` stops: the first character of a word.
pub open spec fn word_start_stop(t: Seq<char>, i: int) -> bool {
    !is_wspace(t[i]) && (is_alnum(t[i]) != is_alnum(t[i - 1]) || is_wspace(t[i - 1]))
}

/// Where `LastWordProperStart` stops: the first character of a proper word.
pub open spec fn word_proper_start_stop(t: Seq<char>, i: int) -> bool {
    !is_wspace(t[i]) && is_wspace(t[i - 1])
}

/// Where `LastWordEnd` stops, scanning backward from `s`.
pub open spec fn lwe_stop(t: Seq<char>, s: int, i: int) -> bool {
    !is_wspace(t[i]) && (bwd_ws_seen(t, s, i) || is_alnum(t[i]) != start_is_alnum(t, s))
}

/// Where `LastWordProperEnd` stops, scanning backward from `s`.
pub open spec fn lwpe_stop(t: Seq<char>, s: int, i: int) -> bool {
    !is_wspace(t[i]) && bwd_ws_seen(t, s, i)
}

pub open spec fn char_forward_t(t: Seq<char>, s: int) -> int {
    if s + 1 >= t.len() {
        t.len() as int
    } else {
        s + 1
    }
}

pub open spec fn char_backward_t(t: Seq<char>, s: int) -> int {
    if s <= 0 {
        0
    } else {
        s - 1
    }
}

pub open spec fn next_word_start_t(t: Seq<char>, s: int) -> int {
    if t.len() == 0 {
        0
    } else {
        scan_fwd(s + 1, t.len() as int, t.len() - 1, |i: int| nws_stop(t, s, i))
    }
}

pub open spec fn next_word_proper_start_t(t: Seq<char>, s: int) -> int {
    if t.len() == 0 {
        0
    } else {
        scan_fwd(s + 1, t.len() as int, t.len() - 1, |i: int| nwps_stop(t, s, i))
    }
}

pub open spec fn next_word_end_t(t: Seq<char>, s: int) -> int {
    if t.len() == 0 {
        0
    } else {
        scan_fwd(s + 1, t.len() - 1, t.len() - 1, |i: int| word_end_stop(t, i))
    }
}

pub open spec fn next_word_proper_end_t(t: Seq<char>, s: int) -> int {
    if t.len() == 0 {
        0
    } else {
        scan_fwd(s + 1, t.len() - 1, t.len() - 1, |i: int| word_proper_end_stop(t, i))
    }
}

pub open spec fn last_word_start_t(t: Seq<char>, s: int) -> int {
    if s <= 0 {
        0
    } else {
        scan_bwd(s - 1, |i: int| word_start_stop(t, i))
    }
}

pub open spec fn last_word_proper_start_t(t: Seq<char>, s: int) -> int {
    if s <= 0 {
        0
    } else {
        scan_bwd(s - 1, |i: int| word_proper_start_stop(t, i))
    }
}

pub open spec fn last_word_end_t(t: Seq<char>, s: int) -> int {
    if s <= 0 {
        0
    } else {
        scan_bwd(s - 1, |i: int| lwe_stop(t, s, i))
    }
}

pub open spec fn last_word_proper_end_t(t: Seq<char>, s: int) -> int {
    if s <= 0 {
        0
    } else {
        scan_bwd(s - 1, |i: int| lwpe_stop(t, s, i))
    }
}

pub open spec fn line_start_t(t: Seq<char>, s: int) -> int {
    if s <= 0 {
        0
    } else {
        let p = scan_bwd_to_zero(s - 1, |i: int| t[i] == '\n');
        if p >= 0 {
            p + 1
        } else {
            0
        }
    }
}

pub open spec fn line_end_t(t: Seq<char>, s: int) -> int {
    if t.len() == 0 {
        0
    } else {
        scan_fwd(s + 1, t.len() as int, t.len() - 1, |i: int| t[i] == '\n')
    }
}

pub open spec fn next_line_start_t(t: Seq<char>, s: int) -> int {
    if t.len() == 0 {
        0
    } else {
        let p = scan_fwd(s + 1, t.len() as int, -1, |i: int| t[i] == '\n');
        if p >= 0 {
            p + 1
        } else {
            t.len() - 1
        }
    }
}

/// Where each motion lands, starting from index `s` in text `t`.
pub open spec fn motion_target(t: Seq<char>, s: int, m: Motion) -> int {
    match m {
        Motion::CharForward => char_forward_t(t, s),
        Motion::CharBackward => char_backward_t(t, s),
        Motion::NextWordStart => next_word_start_t(t, s),
        Motion::NextWordProperStart => next_word_proper_start_t(t, s),
        Motion::NextWordEnd => next_word_end_t(t, s),
        Motion::NextWordProperEnd => next_word_proper_end_t(t, s),
        Motion::LastWordStart => last_word_start_t(t, s),
        Motion::LastWordProperStart => last_word_proper_start_t(t, s),
        Motion::LastWordEnd => last_word_end_t(t, s),
        Motion::LastWordProperEnd => last_word_proper_end_t(t, s),
        Motion::NextLineStart => next_line_start_t(t, s),
        Motion::LineStart => line_start_t(t, s),
        Motion::LineEnd => line_end_t(t, s),
    }
}

proof fn lemma_scan_fwd_range(i: int, end: int, fallback: int, stop: spec_fn(int) -> bool)
    ensures
        scan_fwd(i, end, fallback, stop) == fallback || (i <= scan_fwd(i, end, fallback, stop)
            < end),
    decreases end - i,
{
    if i >= end {
    } else if stop(i) {
    } else {
        lemma_scan_fwd_range(i + 1, end, fallback, stop);
    }
}

proof fn lemma_scan_bwd_range(i: int, stop: spec_fn(int) -> bool)
    ensures
        0 <= scan_bwd(i, stop),
        scan_bwd(i, stop) <= i || scan_bwd(i, stop) == 0,
    decreases i,
{
    if i <= 0 {
    } else if stop(i) {
    } else {
        lemma_scan_bwd_range(i - 1, stop);
    }
}

proof fn lemma_scan_bwd_to_zero_range(i: int, stop: spec_fn(int) -> bool)
    ensures
        -1 <= scan_bwd_to_zero(i, stop),
        scan_bwd_to_zero(i, stop) <= i || scan_bwd_to_zero(i, stop) == -1,
    decreases i + 1,
{
    if i < 0 {
    } else if stop(i) {
    } else {
        lemma_scan_bwd_to_zero_range(i - 1, stop);
    }
}

/// Every motion lands inside the valid cursor range `[0, t.len()]`.
pub proof fn lemma_motion_target_in_range(t: Seq<char>, s: int, m: Motion)
    requires
        0 <= s <= t.len(),
    ensures
        0 <= motion_target(t, s, m) <= t.len(),
{
    match m {
        Motion::CharForward => {},
        Motion::CharBackward => {},
        Motion::NextWordStart => {
            if t.len() != 0 {
                lemma_scan_fwd_range(s + 1, t.len() as int, t.len() - 1, |i: int| nws_stop(t, s, i));
            }
        },
        Motion::NextWordProperStart => {
            if t.len() != 0 {
                lemma_scan_fwd_range(
                    s + 1,
                    t.len() as int,
                    t.len() - 1,
                    |i: int| nwps_stop(t, s, i),
                );
            }
        },
        Motion::NextWordEnd => {
            if t.len() != 0 {
                lemma_scan_fwd_range(s + 1, t.len() - 1, t.len() - 1, |i: int| word_end_stop(t, i));
            }
        },
        Motion::NextWordProperEnd => {
            if t.len() != 0 {
                lemma_scan_fwd_range(
                    s + 1,
                    t.len() - 1,
                    t.len() - 1,
                    |i: int| word_proper_end_stop(t, i),
                );
            }
        },
        Motion::LastWordStart => {
            if s > 0 {
                lemma_scan_bwd_range(s - 1, |i: int| word_start_stop(t, i));
            }
        },
        Motion::LastWordProperStart => {
            if s > 0 {
                lemma_scan_bwd_range(s - 1, |i: int| word_proper_start_stop(t, i));
            }
        },
        Motion::LastWordEnd => {
            if s > 0 {
                lemma_scan_bwd_range(s - 1, |i: int| lwe_stop(t, s, i));
            }
        },
        Motion::LastWordProperEnd => {
            if s > 0 {
                lemma_scan_bwd_range(s - 1, |i: int| lwpe_stop(t, s, i));
            }
        },
        Motion::NextLineStart => {
            if t.len() != 0 {
                lemma_scan_fwd_range(s + 1, t.len() as int, -1, |i: int| t[i] == '\n');
            }
        },
        Motion::LineStart => {
            if s > 0 {
                lemma_scan_bwd_to_zero_range(s - 1, |i: int| t[i] == '\n');
            }
        },
        Motion::LineEnd => {
            if t.len() != 0 {
                lemma_scan_fwd_range(s + 1, t.len() as int, t.len() - 1, |i: int| t[i] == '\n');
            }
        },
    }
}

/// On an empty text every motion leaves the cursor at index 0.
pub proof fn lemma_empty_text_motions_are_noops(t: Seq<char>, m: Motion)
    requires
        t.len() == 0,
    ensures
        motion_target(t, 0, m) == 0,
{
}

pub fn move_forward_char(gb: &GapBuffer, at: usize) -> (r: usize)
    requires
        gb.wf(),
        at <= gb.spec_data_length(),
    ensures
        r == char_forward_t(gb.text(), at as int),
{
    let dl = gb.data_length();
    if at >= dl {
        dl
    } else {
        at + 1
    }
}

pub fn move_backward_char(gb: &GapBuffer, at: usize) -> (r: usize)
    requires
        gb.wf(),
        at <= gb.spec_data_length(),
    ensures
        r == char_backward_t(gb.text(), at as int),
{
    if at == 0 {
        0
    } else {
        at - 1
    }
}

pub fn move_forward_to_word_start(gb: &GapBuffer, at: usize) -> (r: usize)
    requires
        gb.wf(),
        at <= gb.spec_data_length(),
    ensures
        r == next_word_start_t(gb.text(), at as int),
{
    let ghost t = gb.text();
    let ghost stop = |i: int| nws_stop(t, at as int, i);
    let dl = gb.data_length();
    if dl == 0 {
        return 0;
    }
    if at >= dl {
        return dl - 1;
    }
    let start_char = gb.get_at(at);
    let start_alnum = start_char.is_alphanumeric();
    let mut ws_seen = start_char.is_whitespace();
    let mut candidate = at + 1;
    while candidate < dl
        invariant
            gb.wf(),
            dl == t.len(),
            t == gb.text(),
            at < dl,
            at + 1 <= candidate <= dl,
            start_alnum == start_is_alnum(t, at as int),
            ws_seen == ws_between(t, at as int, candidate as int),
            stop == (|i: int| nws_stop(t, at as int, i)),
            scan_fwd(at + 1 as int, dl as int, dl - 1, stop) == scan_fwd(
                candidate as int,
                dl as int,
                dl - 1,
                stop,
            ),
        decreases dl - candidate,
    {
        let c = gb.get_at(candidate);
        if !c.is_whitespace() {
            if ws_seen {
                return candidate;
            }
            if start_alnum && !c.is_alphanumeric() {
                return candidate;
            }
            if !start_alnum && c.is_alphanumeric() {
                return candidate;
            }
        } else {
            ws_seen = true;
        }
        proof {
            assert(!stop(candidate as int));
            assert(ws_between(t, at as int, candidate + 1 as int) == (ws_between(
                t,
                at as int,
                candidate as int,
            ) || is_wspace(t[candidate as int])));
        }
        candidate += 1;
    }
    dl - 1
}

pub fn move_forward_to_word_proper_start(gb: &GapBuffer, at: usize) -> (r: usize)
    requires
        gb.wf(),
        at <= gb.spec_data_length(),
    ensures
        r == next_word_proper_start_t(gb.text(), at as int),
{
    let ghost t = gb.text();
    let ghost stop = |i: int| nwps_stop(t, at as int, i);
    let dl = gb.data_length();
    if dl == 0 {
        return 0;
    }
    if at >= dl {
        return dl - 1;
    }
    let mut ws_seen = gb.get_at(at).is_whitespace();
    let mut candidate = at + 1;
    while candidate < dl
        invariant
            gb.wf(),
            dl == t.len(),
            t == gb.text(),
            at < dl,
            at + 1 <= candidate <= dl,
            ws_seen == ws_between(t, at as int, candidate as int),
            stop == (|i: int| nwps_stop(t, at as int, i)),
            scan_fwd(at + 1 as int, dl as int, dl - 1, stop) == scan_fwd(
                candidate as int,
                dl as int,
                dl - 1,
                stop,
            ),
        decreases dl - candidate,
    {
        let c = gb.get_at(candidate);
        if ws_seen && !c.is_whitespace() {
            return candidate;
        }
        if c.is_whitespace() {
            ws_seen = true;
        }
        proof {
            assert(!stop(candidate as int));
            assert(ws_between(t, at as int, candidate + 1 as int) == (ws_between(
                t,
                at as int,
                candidate as int,
            ) || is_wspace(t[candidate as int])));
        }
        candidate += 1;
    }
    dl - 1
}

pub fn move_forward_to_word_end(gb: &GapBuffer, at: usize) -> (r: usize)
    requires
        gb.wf(),
        at <= gb.spec_data_length(),
    ensures
        r == next_word_end_t(gb.text(), at as int),
{
    let ghost t = gb.text();
    let ghost stop = |i: int| word_end_stop(t, i);
    let dl = gb.data_length();
    if dl == 0 {
        return 0;
    }
    if at >= dl {
        return dl - 1;
    }
    let mut candidate = at + 1;
    while candidate < dl - 1
        invariant
            gb.wf(),
            dl == t.len(),
            t == gb.text(),
            1 <= dl,
            at + 1 <= candidate,
            candidate <= dl,
            stop == (|i: int| word_end_stop(t, i)),
            scan_fwd(at + 1 as int, dl - 1, dl - 1, stop) == scan_fwd(
                candidate as int,
                dl - 1,
                dl - 1,
                stop,
            ),
        decreases dl - candidate,
    {
        let c = gb.get_at(candidate);
        let next = gb.get_at(candidate + 1);
        if !c.is_whitespace() && ((c.is_alphanumeric() != next.is_alphanumeric())
            || next.is_whitespace()) {
            return candidate;
        }
        proof {
            assert(!stop(candidate as int));
        }
        candidate += 1;
    }
    dl - 1
}

pub fn move_forward_to_word_proper_end(gb: &GapBuffer, at: usize) -> (r: usize)
    requires
        gb.wf(),
        at <= gb.spec_data_length(),
    ensures
        r == next_word_proper_end_t(gb.text(), at as int),
{
    let ghost t = gb.text();
    let ghost stop = |i: int| word_proper_end_stop(t, i);
    let dl = gb.data_length();
    if dl == 0 {
        return 0;
    }
    if at >= dl {
        return dl - 1;
    }
    let mut candidate = at + 1;
    while candidate < dl - 1
        invariant
            gb.wf(),
            dl == t.len(),
            t == gb.text(),
            1 <= dl,
            at + 1 <= candidate,
            candidate <= dl,
            stop == (|i: int| word_proper_end_stop(t, i)),
            scan_fwd(at + 1 as int, dl - 1, dl - 1, stop) == scan_fwd(
                candidate as int,
                dl - 1,
                dl - 1,
                stop,
            ),
        decreases dl - candidate,
    {
        let c = gb.get_at(candidate);
        let next = gb.get_at(candidate + 1);
        if next.is_whitespace() && !c.is_whitespace() {
            return candidate;
        }
        proof {
            assert(!stop(candidate as int));
        }
        candidate += 1;
    }
    dl - 1
}

pub fn move_backward_to_word_start(gb: &GapBuffer, at: usize) -> (r: usize)
    requires
        gb.wf(),
        at <= gb.spec_data_length(),
    ensures
        r == last_word_start_t(gb.text(), at as int),
{
    let ghost t = gb.text();
    let ghost stop = |i: int| word_start_stop(t, i);
    if at == 0 {
        return 0;
    }
    let ghost dl = gb.spec_data_length();
    let mut candidate = at - 1;
    while candidate > 0
        invariant
            gb.wf(),
            t == gb.text(),
            at <= dl == t.len(),
            candidate <= at - 1,
            stop == (|i: int| word_start_stop(t, i)),
            scan_bwd(at - 1, stop) == scan_bwd(candidate as int, stop),
        decreases candidate,
    {
        let c = gb.get_at(candidate);
        let prev = gb.get_at(candidate - 1);
        if !c.is_whitespace() && ((c.is_alphanumeric() != prev.is_alphanumeric())
            || prev.is_whitespace()) {
            return candidate;
        }
        proof {
            assert(!stop(candidate as int));
        }
        candidate -= 1;
    }
    0
}

pub fn move_backward_to_word_proper_start(gb: &GapBuffer, at: usize) -> (r: usize)
    requires
        gb.wf(),
        at <= gb.spec_data_length(),
    ensures
        r == last_word_proper_start_t(gb.text(), at as int),
{
    let ghost t = gb.text();
    let ghost stop = |i: int| word_proper_start_stop(t, i);
    if at == 0 {
        return 0;
    }
    let ghost dl = gb.spec_data_length();
    let mut candidate = at - 1;
    while candidate > 0
        invariant
            gb.wf(),
            t == gb.text(),
            at <= dl == t.len(),
            candidate <= at - 1,
            stop == (|i: int| word_proper_start_stop(t, i)),
            scan_bwd(at - 1, stop) == scan_bwd(candidate as int, stop),
        decreases candidate,
    {
        let c = gb.get_at(candidate);
        let prev = gb.get_at(candidate - 1);
        if prev.is_whitespace() && !c.is_whitespace() {
            return candidate;
        }
        proof {
            assert(!stop(candidate as int));
        }
        candidate -= 1;
    }
    0
}

pub fn move_backward_to_word_end(gb: &GapBuffer, at: usize) -> (r: usize)
    requires
        gb.wf(),
        at <= gb.spec_data_length(),
    ensures
        r == last_word_end_t(gb.text(), at as int),
{
    let ghost t = gb.text();
    let ghost stop = |i: int| lwe_stop(t, at as int, i);
    if at == 0 {
        return 0;
    }
    let dl = gb.data_length();
    let start_alnum: bool;
    let mut ws_seen: bool;
    if at < dl {
        let sc = gb.get_at(at);
        start_alnum = sc.is_alphanumeric();
        ws_seen = sc.is_whitespace();
    } else {
        start_alnum = false;
        ws_seen = false;
    }
    let mut candidate = at - 1;
    while candidate > 0
        invariant
            gb.wf(),
            t == gb.text(),
            at <= dl == t.len(),
            1 <= at,
            candidate <= at - 1,
            start_alnum == start_is_alnum(t, at as int),
            ws_seen == bwd_ws_seen(t, at as int, candidate as int),
            stop == (|i: int| lwe_stop(t, at as int, i)),
            scan_bwd(at - 1, stop) == scan_bwd(candidate as int, stop),
        decreases candidate,
    {
        let c = gb.get_at(candidate);
        if !c.is_whitespace() {
            if ws_seen {
                return candidate;
            }
            if start_alnum && !c.is_alphanumeric() {
                return candidate;
            }
            if !start_alnum && c.is_alphanumeric() {
                return candidate;
            }
        } else {
            ws_seen = true;
        }
        proof {
            assert(!stop(candidate as int));
            assert(bwd_ws_seen(t, at as int, candidate - 1 as int) == (bwd_ws_seen(
                t,
                at as int,
                candidate as int,
            ) || is_wspace(t[candidate as int])));
        }
        candidate -= 1;
    }
    0
}

pub fn move_backward_to_word_proper_end(gb: &GapBuffer, at: usize) -> (r: usize)
    requires
        gb.wf(),
        at <= gb.spec_data_length(),
    ensures
        r == last_word_proper_end_t(gb.text(), at as int),
{
    let ghost t = gb.text();
    let ghost stop = |i: int| lwpe_stop(t, at as int, i);
    if at == 0 {
        return 0;
    }
    let dl = gb.data_length();
    let mut ws_seen: bool;
    if at < dl {
        ws_seen = gb.get_at(at).is_whitespace();
    } else {
        ws_seen = false;
    }
    let mut candidate = at - 1;
    while candidate > 0
        invariant
            gb.wf(),
            t == gb.text(),
            at <= dl == t.len(),
            1 <= at,
            candidate <= at - 1,
            ws_seen == bwd_ws_seen(t, at as int, candidate as int),
            stop == (|i: int| lwpe_stop(t, at as int, i)),
            scan_bwd(at - 1, stop) == scan_bwd(candidate as int, stop),
        decreases candidate,
    {
        let c = gb.get_at(candidate);
        if ws_seen && !c.is_whitespace() {
            return candidate;
        }
        if c.is_whitespace() {
            ws_seen = true;
        }
        proof {
            assert(!stop(candidate as int));
            assert(bwd_ws_seen(t, at as int, candidate - 1 as int) == (bwd_ws_seen(
                t,
                at as int,
                candidate as int,
            ) || is_wspace(t[candidate as int])));
        }
        candidate -= 1;
    }
    0
}

pub fn move_to_line_start(gb: &GapBuffer, at: usize) -> (r: usize)
    requires
        gb.wf(),
        at <= gb.spec_data_length(),
    ensures
        r == line_start_t(gb.text(), at as int),
{
    let ghost t = gb.text();
    let ghost stop = |i: int| t[i] == '\n';
    if at == 0 {
        return 0;
    }
    let ghost dl = gb.spec_data_length();
    let mut candidate = at - 1;
    while candidate > 0
        invariant
            gb.wf(),
            t == gb.text(),
            at <= dl == t.len(),
            candidate <= at - 1,
            stop == (|i: int| t[i] == '\n'),
            scan_bwd_to_zero(at - 1, stop) == scan_bwd_to_zero(candidate as int, stop),
        decreases candidate,
    {
        let c = gb.get_at(candidate);
        if c == '\n' {
            return candidate + 1;
        }
        proof {
            assert(!stop(candidate as int));
        }
        candidate -= 1;
    }
    // A newline at index 0 is a preceding newline too: its stop predicate
    // reads only the candidate itself, so index 0 may be examined safely.
    proof {
        assert(scan_bwd_to_zero(-1, stop) == -1);
        assert(scan_bwd_to_zero(0, stop) == (if stop(0) {
            0int
        } else {
            -1int
        }));
    }
    if gb.get_at(0) == '\n' {
        1
    } else {
        0
    }
}

pub fn move_to_line_end(gb: &GapBuffer, at: usize) -> (r: usize)
    requires
        gb.wf(),
        at <= gb.spec_data_length(),
    ensures
        r == line_end_t(gb.text(), at as int),
{
    let ghost t = gb.text();
    let ghost stop = |i: int| t[i] == '\n';
    let dl = gb.data_length();
    if dl == 0 {
        return 0;
    }
    if at >= dl {
        return dl - 1;
    }
    let mut candidate = at + 1;
    while candidate < dl
        invariant
            gb.wf(),
            dl == t.len(),
            t == gb.text(),
            at + 1 <= candidate <= dl,
            stop == (|i: int| t[i] == '\n'),
            scan_fwd(at + 1 as int, dl as int, dl - 1, stop) == scan_fwd(
                candidate as int,
                dl as int,
                dl - 1,
                stop,
            ),
        decreases dl - candidate,
    {
        let c = gb.get_at(candidate);
        if c == '\n' {
            return candidate;
        }
        proof {
            assert(!stop(candidate as int));
        }
        candidate += 1;
    }
    dl - 1
}

pub fn move_to_next_line_start(gb: &GapBuffer, at: usize) -> (r: usize)
    requires
        gb.wf(),
        at <= gb.spec_data_length(),
    ensures
        r == next_line_start_t(gb.text(), at as int),
{
    let ghost t = gb.text();
    let ghost stop = |i: int| t[i] == '\n';
    let dl = gb.data_length();
    if dl == 0 {
        return 0;
    }
    if at >= dl {
        return dl - 1;
    }
    let mut candidate = at + 1;
    while candidate < dl
        invariant
            gb.wf(),
            dl == t.len(),
            t == gb.text(),
            at + 1 <= candidate <= dl,
            stop == (|i: int| t[i] == '\n'),
            scan_fwd(at + 1 as int, dl as int, -1, stop) == scan_fwd(
                candidate as int,
                dl as int,
                -1,
                stop,
            ),
        decreases dl - candidate,
    {
        let c = gb.get_at(candidate);
        if c == '\n' {
            return candidate + 1;
        }
        proof {
            assert(!stop(candidate as int));
        }
        candidate += 1;
    }
    dl - 1
}

/// Dispatches a motion to its algorithm, returning the index it lands on.
pub fn apply_motion(gb: &GapBuffer, at: usize, motion: &Motion) -> (r: usize)
    requires
        gb.wf(),
        at <= gb.spec_data_length(),
    ensures
        r == motion_target(gb.text(), at as int, *motion),
        0 <= r <= gb.spec_data_length(),
{
    proof {
        lemma_motion_target_in_range(gb.text(), at as int, *motion);
    }
    match motion {
        Motion::CharForward => move_forward_char(gb, at),
        Motion::CharBackward => move_backward_char(gb, at),
        Motion::NextWordStart => move_forward_to_word_start(gb, at),
        Motion::NextWordProperStart => move_forward_to_word_proper_start(gb, at),
        Motion::NextWordEnd => move_forward_to_word_end(gb, at),
        Motion::NextWordProperEnd => move_forward_to_word_proper_end(gb, at),
        Motion::LastWordStart => move_backward_to_word_start(gb, at),
        Motion::LastWordProperStart => move_backward_to_word_proper_start(gb, at),
        Motion::LastWordEnd => move_backward_to_word_end(gb, at),
        Motion::LastWordProperEnd => move_backward_to_word_proper_end(gb, at),
        Motion::NextLineStart => move_to_next_line_start(gb, at),
        Motion::LineStart => move_to_line_start(gb, at),
        Motion::LineEnd => move_to_line_end(gb, at),
    }
}

} // verus!
