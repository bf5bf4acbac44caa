//! Sentence-aware splitting of a text into chunks of bounded length.
//!
//! A text is cut after every `.`, `!` or `?`. Each piece, trimmed of the
//! whitespace around it, is a sentence unit; empty units are dropped. The
//! units are packed greedily, in order, into chunks: a chunk is closed as soon
//! as the next unit would push it over the limit. A unit is never cut, so a
//! chunk that holds a single unit may be longer than the limit.
//!
//! Lengths are counted in characters.

use crate::chars::{string_of, to_chars};
use crate::chunk_laws::lemma_chunks_of_text;
use vstd::prelude::*;

verus! {

/// The characters that end a sentence.
pub open spec fn is_sentence_end(c: char) -> bool {
    c == '.' || c == '!' || c == '?'
}

/// The characters with the Unicode property `White_Space`.
pub open spec fn is_whitespace(c: char) -> bool {
    ||| '\u{9}' <= c <= '\u{D}'
    ||| c == ' '
    ||| c == '\u{85}'
    ||| c == '\u{A0}'
    ||| c == '\u{1680}'
    ||| '\u{2000}' <= c <= '\u{200A}'
    ||| c == '\u{2028}'
    ||| c == '\u{2029}'
    ||| c == '\u{202F}'
    ||| c == '\u{205F}'
    ||| c == '\u{3000}'
}

/// `s` without its leading whitespace.
pub open spec fn trimmed_start(s: Seq<char>) -> Seq<char>
    decreases s.len(),
{
    if s.len() > 0 && is_whitespace(s.first()) {
        trimmed_start(s.drop_first())
    } else {
        s
    }
}

/// `s` without its trailing whitespace.
pub open spec fn trimmed_end(s: Seq<char>) -> Seq<char>
    decreases s.len(),
{
    if s.len() > 0 && is_whitespace(s.last()) {
        trimmed_end(s.drop_last())
    } else {
        s
    }
}

/// `s` without the whitespace at either end.
pub open spec fn trimmed(s: Seq<char>) -> Seq<char> {
    trimmed_end(trimmed_start(s))
}

/// A text that is not empty and has no whitespace at either end.
pub open spec fn is_unit(s: Seq<char>) -> bool {
    s.len() > 0 && !is_whitespace(s.first()) && !is_whitespace(s.last())
}

/// The parts in order, with one space between each two.
pub open spec fn joined(parts: Seq<Seq<char>>) -> Seq<char>
    decreases parts.len(),
{
    if parts.len() == 0 {
        Seq::empty()
    } else if parts.len() == 1 {
        parts[0]
    } else {
        joined(parts.drop_last()) + seq![' '] + parts.last()
    }
}

/// How many characters the first sentence of `s` takes: everything up to and
/// including the first sentence end, or all of `s` where it holds none.
pub open spec fn first_sentence_len(s: Seq<char>) -> nat
    decreases s.len(),
{
    if s.len() == 0 {
        0
    } else if is_sentence_end(s.first()) {
        1
    } else {
        1 + first_sentence_len(s.drop_first())
    }
}

/// The sentences of `s`, one after the other: each ends with the first
/// sentence end that follows the sentence before it, and what stands behind
/// the last sentence end is the last sentence.
pub open spec fn sentences(s: Seq<char>) -> Seq<Seq<char>>
    decreases s.len(),
    via sentences_decreases
{
    if s.len() == 0 {
        Seq::empty()
    } else {
        let n = first_sentence_len(s) as int;
        seq![s.take(n)] + sentences(s.skip(n))
    }
}

#[via_fn]
proof fn sentences_decreases(s: Seq<char>) {
    if s.len() != 0 {
        lemma_first_sentence_len_bounds(s);
    }
}

/// The units of `sentences`: each sentence trimmed, the empty ones left out.
pub open spec fn units_of(sentences: Seq<Seq<char>>) -> Seq<Seq<char>>
    decreases sentences.len(),
{
    if sentences.len() == 0 {
        Seq::empty()
    } else {
        let unit = trimmed(sentences.first());
        let rest = units_of(sentences.drop_first());
        if unit.len() > 0 {
            seq![unit] + rest
        } else {
            rest
        }
    }
}

/// The sentence units of `s`, in the order in which they stand in `s`.
pub open spec fn sentence_units(s: Seq<char>) -> Seq<Seq<char>> {
    units_of(sentences(s))
}

/// The sentence units of a text that is not empty are the unit of its first
/// sentence, where that is not empty, and the sentence units of the rest.
pub proof fn lemma_sentence_units_unfold(s: Seq<char>)
    requires
        s.len() > 0,
    ensures
        ({
            let n = first_sentence_len(s) as int;
            let unit = trimmed(s.take(n));
            let rest = sentence_units(s.skip(n));
            sentence_units(s) == if unit.len() > 0 {
                seq![unit] + rest
            } else {
                rest
            }
        }),
{
    let n = first_sentence_len(s) as int;
    let all = sentences(s);
    assert(all.first() == s.take(n));
    assert(all.drop_first() =~= sentences(s.skip(n)));
}

/// The first sentence of a text that is not empty holds at least one
/// character and no more than the text.
pub proof fn lemma_first_sentence_len_bounds(s: Seq<char>)
    requires
        s.len() > 0,
    ensures
        1 <= first_sentence_len(s) <= s.len(),
    decreases s.len(),
{
    if !is_sentence_end(s.first()) {
        if s.len() > 1 {
            lemma_first_sentence_len_bounds(s.drop_first());
        } else {
            assert(first_sentence_len(s.drop_first()) == 0);
        }
    }
}

/// The chunks closed so far, and the chunk that is still open. The open chunk
/// holds each of its units followed by one space.
pub struct Packing {
    pub closed: Seq<Seq<char>>,
    pub open: Seq<char>,
}

impl Packing {
    /// Nothing packed yet.
    pub open spec fn start() -> Packing {
        Packing { closed: Seq::empty(), open: Seq::empty() }
    }

    /// Whether `unit` no longer goes into the open chunk under `max_len`.
    pub open spec fn overflows(self, unit: Seq<char>, max_len: int) -> bool {
        self.open.len() + unit.len() + 1 > max_len
    }

    /// The open chunk, trimmed, joins the closed ones; an empty one is dropped.
    pub open spec fn close(self) -> Packing {
        if self.open.len() > 0 {
            Packing { closed: self.closed.push(trimmed(self.open)), open: Seq::empty() }
        } else {
            self
        }
    }

    /// `unit` is placed: the open chunk is closed first where the unit would
    /// overflow it, and the unit always goes into the chunk that is then open.
    pub open spec fn place(self, unit: Seq<char>, max_len: int) -> Packing {
        let base = if self.overflows(unit, max_len) {
            self.close()
        } else {
            self
        };
        Packing { closed: base.closed, open: base.open + unit + seq![' '] }
    }

    /// The chunks that result when `units` are placed one after the other and
    /// the last open chunk is closed.
    pub open spec fn finish(self, units: Seq<Seq<char>>, max_len: int) -> Seq<Seq<char>>
        decreases units.len(),
    {
        if units.len() == 0 {
            self.close().closed
        } else {
            self.place(units.first(), max_len).finish(units.drop_first(), max_len)
        }
    }
}

/// The chunks of `text` under the limit `max_len`.
pub open spec fn split_chunks(text: Seq<char>, max_len: int) -> Seq<Seq<char>> {
    Packing::start().finish(sentence_units(text), max_len)
}

/// The texts of a sequence of strings.
pub open spec fn texts(strings: Seq<String>) -> Seq<Seq<char>> {
    Seq::new(strings.len(), |i: int| strings[i]@)
}


/// Whether `c` ends a sentence.
pub fn ends_sentence(c: char) -> (b: bool)
    ensures
        b == is_sentence_end(c),
{
    c == '.' || c == '!' || c == '?'
}

/// Whether `c` is whitespace.
pub fn whitespace(c: char) -> (b: bool)
    ensures
        b == is_whitespace(c),
{
    (c >= '\u{9}' && c <= '\u{D}') || c == ' ' || c == '\u{85}' || c == '\u{A0}' || c == '\u{1680}'
        || (c >= '\u{2000}' && c <= '\u{200A}') || c == '\u{2028}' || c == '\u{2029}' || c
        == '\u{202F}' || c == '\u{205F}' || c == '\u{3000}'
}

/// Leading whitespace can be dropped one character at a time.
proof fn lemma_trimmed_start_step(s: Seq<char>, a: int, end: int)
    requires
        0 <= a < end <= s.len(),
        is_whitespace(s[a]),
    ensures
        trimmed_start(s.subrange(a, end)) == trimmed_start(s.subrange(a + 1, end)),
{
    assert(s.subrange(a, end).drop_first() =~= s.subrange(a + 1, end));
}

/// Trailing whitespace can be dropped one character at a time.
proof fn lemma_trimmed_end_step(s: Seq<char>, a: int, b: int)
    requires
        0 <= a < b <= s.len(),
        is_whitespace(s[b - 1]),
    ensures
        trimmed_end(s.subrange(a, b)) == trimmed_end(s.subrange(a, b - 1)),
{
    assert(s.subrange(a, b).drop_last() =~= s.subrange(a, b - 1));
}

/// Where the characters of `chars` between `start` and `end` begin and end
/// once the whitespace around them is left out.
fn trimmed_range(chars: &Vec<char>, start: usize, end: usize) -> (range: (usize, usize))
    requires
        start <= end <= chars.len(),
    ensures
        start <= range.0 <= range.1 <= end,
        chars@.subrange(range.0 as int, range.1 as int) == trimmed(
            chars@.subrange(start as int, end as int),
        ),
{
    let mut a: usize = start;
    while a < end && whitespace(chars[a])
        invariant
            start <= a <= end <= chars.len(),
            trimmed_start(chars@.subrange(start as int, end as int)) == trimmed_start(
                chars@.subrange(a as int, end as int),
            ),
        decreases end - a,
    {
        proof {
            lemma_trimmed_start_step(chars@, a as int, end as int);
        }
        a = a + 1;
    }
    let mut b: usize = end;
    while b > a && whitespace(chars[b - 1])
        invariant
            a <= b <= end <= chars.len(),
            trimmed_end(chars@.subrange(a as int, end as int)) == trimmed_end(
                chars@.subrange(a as int, b as int),
            ),
        decreases b - a,
    {
        proof {
            lemma_trimmed_end_step(chars@, a as int, b as int);
        }
        b = b - 1;
    }
    (a, b)
}


/// The packing that the chunks built so far and the open chunk stand for.
pub open spec fn packing(chunks: Seq<String>, current: Seq<char>) -> Packing {
    Packing { closed: texts(chunks), open: current }
}

/// The first sentence ends at the first sentence end, or with the text.
pub proof fn lemma_first_sentence_len_at(s: Seq<char>, k: int)
    requires
        0 <= k <= s.len(),
        forall|j: int| 0 <= j < k ==> !is_sentence_end(#[trigger] s[j]),
        k < s.len() ==> is_sentence_end(s[k]),
    ensures
        first_sentence_len(s) == if k < s.len() {
            k + 1
        } else {
            k
        },
    decreases k,
{
    if k > 0 {
        let rest = s.drop_first();
        assert forall|j: int| 0 <= j < k - 1 implies !is_sentence_end(#[trigger] rest[j]) by {
            assert(rest[j] == s[j + 1]);
        }
        lemma_first_sentence_len_at(rest, k - 1);
    }
}

/// Whether a unit of `unit_len` characters no longer goes into an open chunk
/// of `open_len` characters under `max_len`.
fn overflows(open_len: usize, unit_len: usize, max_len: usize) -> (b: bool)
    ensures
        b == (open_len + unit_len + 1 > max_len),
{
    unit_len >= max_len || open_len > max_len - unit_len - 1
}

/// Closes the open chunk: trimmed, it joins `chunks`, unless it is empty.
fn close_chunk(chunks: &mut Vec<String>, current: &mut Vec<char>)
    ensures
        texts(final(chunks)@) == packing(old(chunks)@, old(current)@).close().closed,
        final(current)@ == packing(old(chunks)@, old(current)@).close().open,
{
    if current.len() > 0 {
        let range = trimmed_range(current, 0, current.len());
        let chunk = string_of(current, range.0, range.1);
        assert(current@.subrange(0, current@.len() as int) =~= current@);
        chunks.push(chunk);
        current.clear();
        assert(texts(chunks@) =~= texts(old(chunks)@).push(trimmed(old(current)@)));
    }
}

/// Places the sentence that stands in `chars` between `start` and `end`:
/// its unit goes into the open chunk, after that chunk was closed where the
/// unit would overflow it. A sentence whose unit is empty changes nothing.
fn place_sentence(
    chars: &Vec<char>,
    start: usize,
    end: usize,
    max_len: usize,
    chunks: &mut Vec<String>,
    current: &mut Vec<char>,
)
    requires
        start <= end <= chars.len(),
    ensures
        ({
            let unit = trimmed(chars@.subrange(start as int, end as int));
            let before = packing(old(chunks)@, old(current)@);
            let after = if unit.len() > 0 {
                before.place(unit, max_len as int)
            } else {
                before
            };
            &&& texts(final(chunks)@) == after.closed
            &&& final(current)@ == after.open
        }),
{
    let range = trimmed_range(chars, start, end);
    if range.0 < range.1 {
        let ghost unit = chars@.subrange(range.0 as int, range.1 as int);
        if overflows(current.len(), range.1 - range.0, max_len) {
            close_chunk(chunks, current);
        }
        let ghost base = current@;
        let mut i: usize = range.0;
        while i < range.1
            invariant
                range.0 <= i <= range.1 <= chars.len(),
                current@ == base + chars@.subrange(range.0 as int, i as int),
            decreases range.1 - i,
        {
            current.push(chars[i]);
            i = i + 1;
        }
        current.push(' ');
        assert(current@ =~= base + unit + seq![' ']);
    }
}

/// Splits `text` into chunks at sentence ends. A chunk holds one sentence
/// unit or several, separated by single spaces, and is longer than `max_len`
/// characters only where it holds a single unit that is itself longer.
pub fn split_text_into_chunks(text: &str, max_len: usize) -> (chunks: Vec<String>)
    ensures
        texts(chunks@) == split_chunks(text@, max_len as int),
        forall|k: int| 0 <= k < chunks@.len() ==> is_unit(#[trigger] chunks@[k]@),
        forall|k: int|
            0 <= k < chunks@.len() ==> (#[trigger] chunks@[k]@).len() <= max_len || sentence_units(
                text@,
            ).contains(chunks@[k]@),
{
    let chars = to_chars(text);
    let mut chunks: Vec<String> = Vec::new();
    let mut current: Vec<char> = Vec::new();
    let mut sentence_start: usize = 0;
    let mut i: usize = 0;
    assert(texts(chunks@) =~= Seq::empty());
    assert(chars@.skip(0) =~= chars@);
    while i < chars.len()
        invariant
            chars@ == text@,
            sentence_start <= i <= chars.len(),
            forall|j: int| sentence_start <= j < i ==> !is_sentence_end(#[trigger] chars@[j]),
            split_chunks(text@, max_len as int) == packing(chunks@, current@).finish(
                sentence_units(chars@.skip(sentence_start as int)),
                max_len as int,
            ),
        decreases chars.len() - i,
    {
        if ends_sentence(chars[i]) {
            proof {
                lemma_sentence_units_step(chars@, sentence_start as int, i as int + 1);
                lemma_finish_step(
                    packing(chunks@, current@),
                    trimmed(chars@.subrange(sentence_start as int, i as int + 1)),
                    sentence_units(chars@.skip(i as int + 1)),
                    max_len as int,
                );
            }
            place_sentence(&chars, sentence_start, i + 1, max_len, &mut chunks, &mut current);
            sentence_start = i + 1;
        }
        i = i + 1;
    }
    if sentence_start < chars.len() {
        proof {
            lemma_sentence_units_step(chars@, sentence_start as int, chars@.len() as int);
            lemma_finish_step(
                packing(chunks@, current@),
                trimmed(chars@.subrange(sentence_start as int, chars@.len() as int)),
                sentence_units(chars@.skip(chars@.len() as int)),
                max_len as int,
            );
        }
        place_sentence(&chars, sentence_start, chars.len(), max_len, &mut chunks, &mut current);
    }
    assert(chars@.skip(chars@.len() as int) =~= Seq::empty());
    assert(sentence_units(Seq::empty()) =~= Seq::empty());
    close_chunk(&mut chunks, &mut current);
    proof {
        lemma_chunks_of_text(text@, max_len as int);
        assert forall|k: int| 0 <= k < chunks@.len() implies is_unit(#[trigger] chunks@[k]@)
            && (chunks@[k]@.len() <= max_len || sentence_units(text@).contains(chunks@[k]@)) by {
            assert(texts(chunks@)[k] == chunks@[k]@);
        }
    }
    chunks
}

/// Placing the first of the units and finishing with the rest is finishing
/// with all of them.
proof fn lemma_finish_step(p: Packing, unit: Seq<char>, rest: Seq<Seq<char>>, max_len: int)
    ensures
        p.finish(seq![unit] + rest, max_len) == p.place(unit, max_len).finish(rest, max_len),
{
    let units = seq![unit] + rest;
    assert(units.first() == unit);
    assert(units.drop_first() =~= rest);
}

/// The units of the text from `start` on are the unit of the sentence that
/// ends before `end`, where it is not empty, and then the units from `end` on.
proof fn lemma_sentence_units_step(s: Seq<char>, start: int, end: int)
    requires
        0 <= start < end <= s.len(),
        forall|j: int| start <= j < end - 1 ==> !is_sentence_end(#[trigger] s[j]),
        end < s.len() ==> is_sentence_end(s[end - 1]),
    ensures
        ({
            let unit = trimmed(s.subrange(start, end));
            let rest = sentence_units(s.skip(end));
            sentence_units(s.skip(start)) == if unit.len() > 0 {
                seq![unit] + rest
            } else {
                rest
            }
        }),
{
    let tail = s.skip(start);
    if is_sentence_end(s[end - 1]) {
        assert forall|j: int| 0 <= j < end - 1 - start implies !is_sentence_end(
            #[trigger] tail[j],
        ) by {
            assert(tail[j] == s[start + j]);
        }
        lemma_first_sentence_len_at(tail, end - 1 - start);
    } else {
        assert forall|j: int| 0 <= j < end - start implies !is_sentence_end(#[trigger] tail[j]) by {
            assert(tail[j] == s[start + j]);
        }
        lemma_first_sentence_len_at(tail, end - start);
    }
    assert(first_sentence_len(tail) == end - start);
    assert(tail.take(end - start) =~= s.subrange(start, end));
    assert(tail.skip(end - start) =~= s.skip(end));
    lemma_sentence_units_unfold(tail);
}

} // verus!
