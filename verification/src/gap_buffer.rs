//! The gap-buffer text store: character storage logically partitioned into a
//! left segment, a contiguous gap, and a right segment.  Local edits move the
//! gap to the edit point and consume or release gap slots, so their cost is
//! proportional to the distance moved, not to the document size.

use crate::strutil::{chars_to_string, str_to_chars};
use vstd::prelude::*;
use vstd::string::*;

verus! {

/// Smallest capacity a buffer is created with.
pub const MIN_CAPACITY: usize = 16;

/// Extra gap slots added whenever an insertion outgrows the gap, so that
/// further insertions at the same spot stay cheap.
pub const GROW_SLACK: usize = 1024;

/// Termination metric for `cap_up`: how far `c` still is from passing `n`.
pub open spec fn cap_up_metric(c: nat, n: nat) -> nat {
    if c > n {
        0
    } else {
        (n + 1 - c) as nat
    }
}

/// The doubling that `with_data` performs: the least capacity reachable from
/// `c` by doubling that strictly exceeds `n`.
pub open spec fn cap_up(c: nat, n: nat) -> nat
    decreases cap_up_metric(c, n),
{
    if c > n {
        c
    } else if c == 0 {
        0
    } else {
        cap_up(2 * c, n)
    }
}

/// Capacity chosen for a fresh buffer holding `n` characters: the least power
/// of two that is at least `MIN_CAPACITY` and strictly greater than `n`, so
/// the gap is never empty on creation.
pub open spec fn initial_capacity(n: nat) -> nat {
    cap_up(MIN_CAPACITY as nat, n)
}

pub struct GapBuffer {
    pub buffer: Vec<char>,
    pub gap_start: usize,
    pub gap_length: usize,
}

impl GapBuffer {
    /// Structural invariant: the gap lies entirely within the storage.
    pub open spec fn wf(&self) -> bool {
        self.gap_start + self.gap_length <= self.buffer@.len()
    }

    /// First storage index past the gap.
    pub open spec fn spec_tail_start(&self) -> int {
        self.gap_start + self.gap_length
    }

    /// Number of logical characters held.
    pub open spec fn spec_data_length(&self) -> int {
        self.buffer@.len() - self.gap_length
    }

    /// The logical text: left segment then right segment, skipping the gap.
    pub open spec fn text(&self) -> Seq<char> {
        self.buffer@.subrange(0, self.gap_start as int) + self.buffer@.subrange(
            self.spec_tail_start(),
            self.buffer@.len() as int,
        )
    }

    /// The gap invariant, spelled out: the gap fits in the storage and the
    /// logical length is the capacity minus the gap.
    pub proof fn lemma_gap_invariant(&self)
        requires
            self.wf(),
        ensures
            self.gap_start + self.gap_length <= self.buffer@.len(),
            self.text().len() == self.buffer@.len() - self.gap_length,
    {
    }

    pub fn tail_start(&self) -> (r: usize)
        requires
            self.wf(),
        ensures
            r == self.spec_tail_start(),
    {
        // Reading the length bounds the sum below within usize.
        let _n = self.buffer.len();
        self.gap_start + self.gap_length
    }

    pub fn data_length(&self) -> (r: usize)
        requires
            self.wf(),
        ensures
            r == self.spec_data_length(),
            r == self.text().len(),
    {
        self.buffer.len() - self.gap_length
    }

    /// O(1) read of the logical character at `at`.
    pub fn get_at(&self, at: usize) -> (c: char)
        requires
            self.wf(),
            at < self.spec_data_length(),
        ensures
            c == self.text()[at as int],
    {
        // Reading the length bounds the index arithmetic below within usize.
        let _n = self.buffer.len();
        if at < self.gap_start {
            self.buffer[at]
        } else {
            self.buffer[self.gap_start + self.gap_length + (at - self.gap_start)]
        }
    }

    /// Relocates the gap so that it starts at logical index `pos`.  The text
    /// is unchanged; only the physical placement of the gap moves.  Moving the
    /// gap to its current position changes nothing at all.
    pub fn move_gap(&mut self, pos: usize)
        requires
            old(self).wf(),
            pos <= old(self).spec_data_length(),
        ensures
            final(self).wf(),
            final(self).text() == old(self).text(),
            final(self).gap_start == pos,
            final(self).gap_length == old(self).gap_length,
            final(self).buffer@.len() == old(self).buffer@.len(),
            pos == old(self).gap_start ==> *final(self) == *old(self),
    {
        let n = self.buffer.len();
        let ts = self.gap_start + self.gap_length;
        if pos > self.gap_start {
            // Moving the gap right: slide the block between the old and new
            // boundary into the vacated left side, front to back.
            let delta = pos - self.gap_start;
            let mut j: usize = 0;
            while j < delta
                invariant
                    old(self).wf(),
                    pos <= old(self).spec_data_length(),
                    j <= delta,
                    delta == pos - old(self).gap_start,
                    ts == old(self).spec_tail_start(),
                    n == old(self).buffer@.len(),
                    self.gap_start == old(self).gap_start,
                    self.gap_length == old(self).gap_length,
                    self.buffer@.len() == n,
                    forall|k: int|
                        0 <= k < self.gap_start + j ==> self.buffer@[k] == (if k
                            < self.gap_start {
                            old(self).buffer@[k]
                        } else {
                            old(self).buffer@[ts + (k - self.gap_start)]
                        }),
                    forall|k: int|
                        self.gap_start + j <= k < n ==> self.buffer@[k] == old(self).buffer@[k],
                decreases delta - j,
            {
                let c = self.buffer[ts + j];
                self.buffer.set(self.gap_start + j, c);
                j += 1;
            }
            self.gap_start = pos;
            proof {
                assert(self.text() =~= old(self).text());
            }
        } else if pos < self.gap_start {
            // Moving the gap left: slide the block between the new and old gap
            // start into the vacated right side, back to front.
            let delta = self.gap_start - pos;
            let new_ts = ts - delta;
            let mut j: usize = delta;
            while j > 0
                invariant
                    old(self).wf(),
                    pos < old(self).gap_start,
                    j <= delta,
                    delta == old(self).gap_start - pos,
                    ts == old(self).spec_tail_start(),
                    new_ts == ts - delta,
                    n == old(self).buffer@.len(),
                    self.gap_start == old(self).gap_start,
                    self.gap_length == old(self).gap_length,
                    self.buffer@.len() == n,
                    forall|k: int| 0 <= k < new_ts + j ==> self.buffer@[k] == old(self).buffer@[k],
                    forall|k: int|
                        new_ts + j <= k < ts ==> self.buffer@[k] == old(self).buffer@[pos + (k
                            - new_ts)],
                    forall|k: int| ts <= k < n ==> self.buffer@[k] == old(self).buffer@[k],
                decreases j,
            {
                j -= 1;
                let c = self.buffer[pos + j];
                self.buffer.set(new_ts + j, c);
            }
            self.gap_start = pos;
            proof {
                assert(self.text() =~= old(self).text());
            }
        }
    }

    /// Creates a buffer holding `data`, with capacity `initial_capacity` of
    /// the character count and the gap repositioned to logical index 0.
    pub fn with_data(data: &str) -> (gb: GapBuffer)
        requires
            data@.len() < usize::MAX / 4,
        ensures
            gb.wf(),
            gb.text() == data@,
            gb.gap_start == 0,
            gb.buffer@.len() == initial_capacity(data@.len()),
            gb.gap_length == initial_capacity(data@.len()) - data@.len(),
    {
        let mut buffer = str_to_chars(data);
        let len = buffer.len();
        let mut cap: usize = MIN_CAPACITY;
        while cap <= len
            invariant
                len < usize::MAX / 4,
                1 <= cap <= usize::MAX / 2,
                cap_up(cap as nat, len as nat) == initial_capacity(len as nat),
            decreases cap_up_metric(cap as nat, len as nat),
        {
            cap = cap * 2;
        }
        while buffer.len() < cap
            invariant
                len <= buffer@.len() <= cap,
                buffer@.subrange(0, len as int) == data@,
            decreases cap - buffer@.len(),
        {
            buffer.push('_');
            proof {
                assert(buffer@.subrange(0, len as int) =~= data@);
            }
        }
        let mut gb = GapBuffer { buffer, gap_start: len, gap_length: cap - len };
        proof {
            assert(gb.text() =~= data@);
        }
        gb.move_gap(0);
        gb
    }

    /// Enlarges the storage by `amount` slots, all of which join the gap.
    /// The right segment is relocated to the new tail, so the text is
    /// unchanged.
    pub fn grow(&mut self, amount: usize)
        requires
            old(self).wf(),
            old(self).buffer@.len() + amount <= usize::MAX,
        ensures
            final(self).wf(),
            final(self).text() == old(self).text(),
            final(self).gap_start == old(self).gap_start,
            final(self).gap_length == old(self).gap_length + amount,
            final(self).buffer@.len() == old(self).buffer@.len() + amount,
    {
        let n = self.buffer.len();
        let ts = self.gap_start + self.gap_length;
        let tail_size = n - ts;
        let new_len = n + amount;
        self.buffer.resize(new_len, '_');
        let new_ts = new_len - tail_size;
        let mut j: usize = tail_size;
        while j > 0
            invariant
                old(self).wf(),
                j <= tail_size,
                n == old(self).buffer@.len(),
                ts == old(self).spec_tail_start(),
                tail_size == n - ts,
                new_len == n + amount <= usize::MAX,
                new_ts == new_len - tail_size,
                self.gap_start == old(self).gap_start,
                self.gap_length == old(self).gap_length,
                self.buffer@.len() == new_len,
                forall|k: int| 0 <= k < ts + j ==> self.buffer@[k] == old(self).buffer@[k],
                forall|k: int|
                    new_ts + j <= k < new_len ==> self.buffer@[k] == old(self).buffer@[ts + (k
                        - new_ts)],
            decreases j,
        {
            j -= 1;
            let c = self.buffer[ts + j];
            self.buffer.set(new_ts + j, c);
        }
        self.gap_length = self.gap_length + amount;
        proof {
            assert(self.text() =~= old(self).text());
        }
    }

    /// Writes `data` into the gap at its current position.  If the gap is too
    /// small the storage first grows by the excess plus `GROW_SLACK`.
    pub fn insert(&mut self, data: &str)
        requires
            old(self).wf(),
            old(self).buffer@.len() + data@.len() + GROW_SLACK <= usize::MAX,
        ensures
            final(self).wf(),
            final(self).text() == old(self).text().subrange(0, old(self).gap_start as int) + data@
                + old(self).text().subrange(
                old(self).gap_start as int,
                old(self).text().len() as int,
            ),
            final(self).gap_start == old(self).gap_start + data@.len(),
            data@.len() > old(self).gap_length ==> {
                &&& final(self).buffer@.len() == old(self).buffer@.len() + (data@.len() - old(
                    self,
                ).gap_length) + GROW_SLACK
                &&& final(self).gap_length == GROW_SLACK
            },
            data@.len() <= old(self).gap_length ==> {
                &&& final(self).buffer@.len() == old(self).buffer@.len()
                &&& final(self).gap_length == old(self).gap_length - data@.len()
            },
    {
        let chars = str_to_chars(data);
        let m = chars.len();
        if m > self.gap_length {
            self.grow(m - self.gap_length + GROW_SLACK);
        }
        let ghost mid: GapBuffer = *self;
        let n = self.buffer.len();
        let mut j: usize = 0;
        while j < m
            invariant
                mid.wf(),
                j <= m,
                m == chars@.len(),
                m <= mid.gap_length,
                chars@ == data@,
                n == mid.buffer@.len(),
                self.gap_start == mid.gap_start,
                self.gap_length == mid.gap_length,
                self.buffer@.len() == n,
                forall|k: int|
                    self.gap_start <= k < self.gap_start + j ==> self.buffer@[k] == chars@[k
                        - self.gap_start],
                forall|k: int|
                    (0 <= k < self.gap_start || self.gap_start + j <= k < self.buffer@.len())
                        ==> self.buffer@[k] == mid.buffer@[k],
            decreases m - j,
        {
            let c = chars[j];
            self.buffer.set(self.gap_start + j, c);
            j += 1;
        }
        self.gap_start = self.gap_start + m;
        self.gap_length = self.gap_length - m;
        proof {
            assert(self.text() =~= mid.text().subrange(0, mid.gap_start as int) + data@
                + mid.text().subrange(mid.gap_start as int, mid.text().len() as int));
            assert(mid.text() == old(self).text());
            assert(mid.gap_start == old(self).gap_start);
        }
    }

    /// Moves the gap to `at` and then writes `data` there, so the new text
    /// holds `data` beginning at logical index `at`.
    pub fn insert_at(&mut self, data: &str, at: usize)
        requires
            old(self).wf(),
            at <= old(self).spec_data_length(),
            old(self).buffer@.len() + data@.len() + GROW_SLACK <= usize::MAX,
        ensures
            final(self).wf(),
            final(self).text() == old(self).text().subrange(0, at as int) + data@
                + old(self).text().subrange(at as int, old(self).text().len() as int),
            final(self).gap_start == at + data@.len(),
            final(self).spec_data_length() == old(self).spec_data_length() + data@.len(),
    {
        self.move_gap(at);
        self.insert(data);
    }

    /// Moves the gap to `at` and widens it by `num_to_delete`, logically
    /// discarding the `num_to_delete` characters that followed `at`.
    pub fn delete_at(&mut self, num_to_delete: usize, at: usize)
        requires
            old(self).wf(),
            at + num_to_delete <= old(self).spec_data_length(),
        ensures
            final(self).wf(),
            final(self).text() == old(self).text().subrange(0, at as int) + old(
                self,
            ).text().subrange(at + num_to_delete, old(self).text().len() as int),
            final(self).gap_start == at,
            final(self).gap_length == old(self).gap_length + num_to_delete,
            final(self).buffer@.len() == old(self).buffer@.len(),
    {
        self.move_gap(at);
        let ghost mid: GapBuffer = *self;
        // Reading the length bounds the widened gap within usize.
        let _n = self.buffer.len();
        self.gap_length = self.gap_length + num_to_delete;
        proof {
            assert(self.text() =~= mid.text().subrange(0, at as int) + mid.text().subrange(
                at + num_to_delete,
                mid.text().len() as int,
            ));
        }
    }

    /// The current text as a character vector: left segment then right
    /// segment, rebuilt fresh on every call.
    pub fn get_text_as_chars(&self) -> (r: Vec<char>)
        requires
            self.wf(),
        ensures
            r@ == self.text(),
    {
        let n = self.buffer.len();
        let mut r: Vec<char> = Vec::new();
        let mut i: usize = 0;
        let dl = self.data_length();
        while i < dl
            invariant
                self.wf(),
                dl == self.spec_data_length(),
                i <= dl,
                r@ == self.text().subrange(0, i as int),
            decreases dl - i,
        {
            r.push(self.get_at(i));
            i += 1;
            proof {
                assert(r@ =~= self.text().subrange(0, i as int));
            }
        }
        proof {
            assert(r@ =~= self.text());
        }
        r
    }

    /// The current text as an owned string.
    pub fn get_text_as_string(&self) -> (r: String)
        requires
            self.wf(),
        ensures
            r@ == self.text(),
    {
        let chars = self.get_text_as_chars();
        chars_to_string(&chars)
    }

    /// The current text as UTF-8 bytes.
    pub fn get_text_as_bytes(&self) -> (r: Vec<u8>)
        requires
            self.wf(),
        ensures
            r@ == vstd::utf8::encode_utf8(self.text()),
    {
        let s = self.get_text_as_string();
        s.as_str().as_bytes_vec()
    }
}

/// Reading back a freshly created buffer yields the creating string: the
/// round trip from text to buffer and back is the identity.
pub fn created_text_round_trips(data: &str) -> (r: String)
    requires
        data@.len() < usize::MAX / 4,
    ensures
        r@ == data@,
{
    let gb = GapBuffer::with_data(data);
    gb.get_text_as_string()
}

/// Inserting a string at `i` and then deleting that many characters at `i`
/// restores the original text.
pub proof fn lemma_insert_delete_inverse(t: Seq<char>, w: Seq<char>, i: int)
    requires
        0 <= i <= t.len(),
    ensures
        ({
            let spliced = t.subrange(0, i) + w + t.subrange(i, t.len() as int);
            spliced.subrange(0, i) + spliced.subrange(i + w.len(), spliced.len() as int) == t
        }),
{
    let spliced = t.subrange(0, i) + w + t.subrange(i, t.len() as int);
    assert(spliced.subrange(0, i) + spliced.subrange(i + w.len(), spliced.len() as int) =~= t);
}

} // verus!
