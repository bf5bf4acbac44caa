//! What holds of the chunks of every text.

use crate::text::{
    first_sentence_len, is_sentence_end, is_unit, is_whitespace, joined,
    lemma_first_sentence_len_at, lemma_first_sentence_len_bounds, lemma_sentence_units_unfold,
    sentence_units, sentences, split_chunks, trimmed, trimmed_end, trimmed_start, units_of,
    Packing,
};
use vstd::prelude::*;

verus! {

// Trimming

/// What is left of a text after trimming at the start is empty or begins
/// with a character that is no whitespace.
proof fn lemma_trimmed_start_begins(s: Seq<char>)
    ensures
        trimmed_start(s).len() > 0 ==> !is_whitespace(trimmed_start(s).first()),
    decreases s.len(),
{
    if s.len() > 0 && is_whitespace(s.first()) {
        lemma_trimmed_start_begins(s.drop_first());
    }
}

/// What is left of a text after trimming at the end is empty or ends with a
/// character that is no whitespace, and begins as the text does.
proof fn lemma_trimmed_end_ends(s: Seq<char>)
    ensures
        trimmed_end(s).len() > 0 ==> !is_whitespace(trimmed_end(s).last()) && trimmed_end(
            s,
        ).first() == s.first(),
    decreases s.len(),
{
    if s.len() > 0 && is_whitespace(s.last()) {
        lemma_trimmed_end_ends(s.drop_last());
    }
}

/// A trimmed text is empty or has no whitespace at either end.
pub proof fn lemma_trimmed_is_unit(s: Seq<char>)
    ensures
        trimmed(s).len() > 0 ==> is_unit(trimmed(s)),
{
    lemma_trimmed_start_begins(s);
    lemma_trimmed_end_ends(trimmed_start(s));
}

/// Trimming takes the one space after a unit away again.
pub proof fn lemma_trimmed_unit_with_space(s: Seq<char>)
    requires
        is_unit(s),
    ensures
        trimmed(s + seq![' ']) == s,
{
    let t = s + seq![' '];
    assert(t.first() == s.first());
    assert(trimmed_start(t) == t);
    assert(t.drop_last() =~= s);
    assert(trimmed_end(t) == trimmed_end(s));
}

// Sentences

/// The first sentence holds no sentence end before its last character, and
/// ends with a sentence end unless it is the whole text.
proof fn lemma_first_sentence_holds_one_end(s: Seq<char>)
    requires
        s.len() > 0,
    ensures
        forall|j: int| 0 <= j < first_sentence_len(s) - 1 ==> !is_sentence_end(#[trigger] s[j]),
        first_sentence_len(s) < s.len() ==> is_sentence_end(s[first_sentence_len(s) - 1]),
    decreases s.len(),
{
    if !is_sentence_end(s.first()) && s.len() > 1 {
        let rest = s.drop_first();
        lemma_first_sentence_holds_one_end(rest);
        lemma_first_sentence_len_bounds(rest);
        assert forall|j: int| 0 <= j < first_sentence_len(s) - 1 implies !is_sentence_end(
            #[trigger] s[j],
        ) by {
            if j > 0 {
                assert(s[j] == rest[j - 1]);
            }
        }
        if first_sentence_len(s) < s.len() {
            assert(s[first_sentence_len(s) - 1] == rest[first_sentence_len(rest) - 1]);
        }
    } else if !is_sentence_end(s.first()) {
        assert(first_sentence_len(s.drop_first()) == 0);
    }
}

/// Each sentence of a text holds at least one character and no sentence end
/// before its last character; and each but the last ends with a sentence
/// end.
pub proof fn lemma_sentences_end_at_sentence_ends(s: Seq<char>)
    ensures
        forall|i: int, j: int|
            0 <= i < sentences(s).len() && 0 <= j < sentences(s)[i].len() - 1 ==> !is_sentence_end(
                #[trigger] sentences(s)[i][j],
            ),
        forall|i: int| 0 <= i < sentences(s).len() ==> (#[trigger] sentences(s)[i]).len() > 0,
        forall|i: int|
            0 <= i < sentences(s).len() - 1 ==> is_sentence_end(
                (#[trigger] sentences(s)[i]).last(),
            ),
    decreases s.len(),
{
    if s.len() > 0 {
        lemma_first_sentence_len_bounds(s);
        let n = first_sentence_len(s) as int;
        let first = s.take(n);
        let rest = sentences(s.skip(n));
        lemma_sentences_end_at_sentence_ends(s.skip(n));
        lemma_first_sentence_holds_one_end(s);
        let all = sentences(s);
        assert(all =~= seq![first] + rest);
        assert forall|i: int, j: int|
            0 <= i < all.len() && 0 <= j < all[i].len() - 1 implies !is_sentence_end(
            #[trigger] all[i][j],
        ) by {
            if i > 0 {
                assert(all[i] == rest[i - 1]);
            }
        }
        assert forall|i: int| 0 <= i < all.len() implies (#[trigger] all[i]).len() > 0 by {
            if i > 0 {
                assert(all[i] == rest[i - 1]);
            }
        }
        assert forall|i: int| 0 <= i < all.len() - 1 implies is_sentence_end(
            (#[trigger] all[i]).last(),
        ) by {
            if i > 0 {
                assert(all[i] == rest[i - 1]);
            } else {
                assert(rest.len() > 0);
                assert(n < s.len()) by {
                    if n == s.len() {
                        assert(s.skip(n) =~= Seq::empty());
                    }
                }
            }
        }
    }
}

/// The sentences of a text, one behind the other, are the text: cutting a
/// text into sentences loses nothing and adds nothing.
pub proof fn lemma_sentences_make_the_text(s: Seq<char>)
    ensures
        sentences(s).flatten() == s,
    decreases s.len(),
{
    if s.len() > 0 {
        lemma_first_sentence_len_bounds(s);
        let n = first_sentence_len(s) as int;
        lemma_sentences_make_the_text(s.skip(n));
        let all = sentences(s);
        assert(all.first() == s.take(n));
        assert(all.drop_first() =~= sentences(s.skip(n)));
        assert(s.take(n) + s.skip(n) =~= s);
    }
}

/// Every sentence unit is a text that is not empty and has no whitespace at
/// either end.
pub proof fn lemma_sentence_units_are_units(s: Seq<char>)
    ensures
        forall|j: int|
            0 <= j < sentence_units(s).len() ==> is_unit(#[trigger] sentence_units(s)[j]),
    decreases s.len(),
{
    if s.len() > 0 {
        lemma_first_sentence_len_bounds(s);
        lemma_sentence_units_unfold(s);
        let n = first_sentence_len(s) as int;
        let unit = trimmed(s.take(n));
        let rest = sentence_units(s.skip(n));
        lemma_trimmed_is_unit(s.take(n));
        lemma_sentence_units_are_units(s.skip(n));
        assert forall|j: int| 0 <= j < sentence_units(s).len() implies is_unit(
            #[trigger] sentence_units(s)[j],
        ) by {
            if unit.len() > 0 && j > 0 {
                assert(sentence_units(s)[j] == rest[j - 1]);
            }
        }
    }
}

// Chunks as groups of sentence units

/// The units of a group, each with one space behind it, one after the other:
/// what an open chunk holds.
pub open spec fn spaced(group: Seq<Seq<char>>) -> Seq<char>
    decreases group.len(),
{
    if group.len() == 0 {
        Seq::empty()
    } else {
        spaced(group.drop_last()) + group.last() + seq![' ']
    }
}

/// What a group holds, with its spaces, is the joined group and one space;
/// and the joined group has no whitespace at either end.
proof fn lemma_spaced_is_joined(group: Seq<Seq<char>>)
    requires
        group.len() > 0,
        forall|j: int| 0 <= j < group.len() ==> is_unit(#[trigger] group[j]),
    ensures
        spaced(group) == joined(group) + seq![' '],
        is_unit(joined(group)),
        joined(group).first() == group.first().first(),
    decreases group.len(),
{
    if group.len() == 1 {
        assert(group.drop_last() =~= Seq::empty());
        assert(spaced(group.drop_last()) =~= Seq::empty());
        assert(spaced(group) =~= group[0] + seq![' ']);
    } else {
        let before = group.drop_last();
        assert forall|j: int| 0 <= j < before.len() implies is_unit(#[trigger] before[j]) by {
            assert(before[j] == group[j]);
        }
        lemma_spaced_is_joined(before);
        let grown = joined(before) + seq![' '] + group.last();
        assert(joined(group) == grown);
        assert(grown.first() == joined(before).first());
        assert(grown.last() == group.last().last());
        assert(spaced(group) =~= grown + seq![' ']);
    }
}

/// Whether `groups` are the groups of units that `chunks` are made of under
/// `max_len`: each chunk is its group, joined with single spaces; a group of
/// more than one unit holds, with a space behind each unit, no more than
/// `max_len` characters; and each group but the last ends where the next unit
/// would no longer go in.
pub open spec fn are_groups_of(
    groups: Seq<Seq<Seq<char>>>,
    chunks: Seq<Seq<char>>,
    max_len: int,
) -> bool {
    &&& groups.len() == chunks.len()
    &&& forall|i: int|
        0 <= i < groups.len() ==> (#[trigger] groups[i]).len() > 0 && chunks[i] == joined(
            groups[i],
        )
    &&& forall|i: int, j: int|
        0 <= i < groups.len() && 0 <= j < groups[i].len() ==> is_unit(#[trigger] groups[i][j])
    &&& forall|i: int|
        0 <= i < groups.len() ==> (#[trigger] groups[i]).len() == 1 || spaced(groups[i]).len()
            <= max_len
    &&& forall|i: int|
        0 <= i < groups.len() - 1 ==> spaced(#[trigger] groups[i]).len() + groups[i + 1][0].len()
            + 1 > max_len
}

/// Whether `p` holds the groups `closed` as its closed chunks and the group
/// `open` as its open chunk.
pub open spec fn holds_groups(
    p: Packing,
    closed: Seq<Seq<Seq<char>>>,
    open: Seq<Seq<char>>,
    max_len: int,
) -> bool {
    &&& are_groups_of(closed, p.closed, max_len)
    &&& forall|j: int| 0 <= j < open.len() ==> is_unit(#[trigger] open[j])
    &&& p.open == spaced(open)
    &&& open.len() <= 1 || spaced(open).len() <= max_len
    &&& closed.len() > 0 ==> open.len() > 0 && spaced(closed.last()).len() + open[0].len() + 1
        > max_len
}

/// One more group behind groups of chunks.
proof fn lemma_groups_push(
    groups: Seq<Seq<Seq<char>>>,
    chunks: Seq<Seq<char>>,
    group: Seq<Seq<char>>,
    max_len: int,
)
    requires
        are_groups_of(groups, chunks, max_len),
        group.len() > 0,
        forall|j: int| 0 <= j < group.len() ==> is_unit(#[trigger] group[j]),
        group.len() == 1 || spaced(group).len() <= max_len,
        groups.len() > 0 ==> spaced(groups.last()).len() + group[0].len() + 1 > max_len,
    ensures
        are_groups_of(groups.push(group), chunks.push(joined(group)), max_len),
{
    let more = groups.push(group);
    let longer = chunks.push(joined(group));
    assert forall|i: int| 0 <= i < more.len() implies (#[trigger] more[i]).len() > 0 && longer[i]
        == joined(more[i]) && (more[i].len() == 1 || spaced(more[i]).len() <= max_len) by {
        if i < groups.len() {
            assert(more[i] == groups[i]);
        }
    }
    assert forall|i: int, j: int| 0 <= i < more.len() && 0 <= j < more[i].len() implies is_unit(
        #[trigger] more[i][j],
    ) by {
        if i < groups.len() {
            assert(more[i] == groups[i]);
        }
    }
    assert forall|i: int| 0 <= i < more.len() - 1 implies spaced(#[trigger] more[i]).len() + more[i
        + 1][0].len() + 1 > max_len by {
        assert(more[i] == groups[i]);
        if i + 1 < groups.len() {
            assert(more[i + 1] == groups[i + 1]);
        }
    }
}

/// The groups of units that the chunks are made of, when `units` are placed
/// into a packing that holds groups and the last open chunk is closed.
proof fn lemma_finish_groups(
    p: Packing,
    closed: Seq<Seq<Seq<char>>>,
    open: Seq<Seq<char>>,
    units: Seq<Seq<char>>,
    max_len: int,
) -> (groups: Seq<Seq<Seq<char>>>)
    requires
        holds_groups(p, closed, open, max_len),
        forall|j: int| 0 <= j < units.len() ==> is_unit(#[trigger] units[j]),
    ensures
        are_groups_of(groups, p.finish(units, max_len), max_len),
        groups.flatten() == closed.flatten() + open + units,
    decreases units.len(),
{
    broadcast use Seq::lemma_flatten_push;

    if open.len() > 0 {
        lemma_spaced_is_joined(open);
        lemma_trimmed_unit_with_space(joined(open));
        lemma_groups_push(closed, p.closed, open, max_len);
    }
    if units.len() == 0 {
        assert(closed.flatten() + open + units =~= closed.flatten() + open);
        if open.len() > 0 {
            closed.push(open)
        } else {
            assert(closed.flatten() + open =~= closed.flatten());
            closed
        }
    } else {
        let unit = units.first();
        let rest = units.drop_first();
        let q = p.place(unit, max_len);
        let closes = p.overflows(unit, max_len) && open.len() > 0;
        let next_closed = if closes {
            closed.push(open)
        } else {
            closed
        };
        let next_open = if closes {
            seq![unit]
        } else {
            open.push(unit)
        };
        assert(next_open.drop_last() =~= if closes {
            Seq::<Seq<char>>::empty()
        } else {
            open
        });
        assert(next_open.last() == unit);
        assert(spaced(next_open) == spaced(next_open.drop_last()) + unit + seq![' ']);
        assert(q.open =~= spaced(next_open));
        assert forall|j: int| 0 <= j < next_open.len() implies is_unit(#[trigger] next_open[j]) by {
            if !closes && j < open.len() {
                assert(next_open[j] == open[j]);
            }
        }
        if !closes && open.len() > 0 {
            assert(next_open[0] == open[0]);
        }
        assert forall|j: int| 0 <= j < rest.len() implies is_unit(#[trigger] rest[j]) by {
            assert(rest[j] == units[j + 1]);
        }
        let groups = lemma_finish_groups(q, next_closed, next_open, rest, max_len);
        assert(next_closed.flatten() + next_open + rest =~= closed.flatten() + open + units) by {
            assert(units =~= seq![unit] + rest);
            if closes {
                assert(next_closed.flatten() =~= closed.flatten() + open);
            }
        }
        groups
    }
}

/// The chunks of a text group its sentence units: each chunk is one group of
/// units, joined with single spaces, and the groups, one after the other,
/// hold every sentence unit of the text once and in the order of the text.
/// No unit is lost, none comes twice, and none is cut. The groups are as
/// long as they can be: a group ends only where the next unit would no
/// longer go in, and a group of more than one unit is within `max_len`.
pub proof fn lemma_chunks_group_the_sentences(text: Seq<char>, max_len: int) -> (groups: Seq<
    Seq<Seq<char>>,
>)
    ensures
        are_groups_of(groups, split_chunks(text, max_len), max_len),
        groups.flatten() == sentence_units(text),
{
    lemma_sentence_units_are_units(text);
    let none = Seq::<Seq<Seq<char>>>::empty();
    let groups = lemma_finish_groups(
        Packing::start(),
        none,
        Seq::empty(),
        sentence_units(text),
        max_len,
    );
    assert(none.flatten() + Seq::<Seq<char>>::empty() + sentence_units(text) =~= sentence_units(
        text,
    ));
    groups
}

/// A unit of a group is among the units of all groups.
proof fn lemma_flatten_holds_each_unit(groups: Seq<Seq<Seq<char>>>, i: int, j: int)
    requires
        0 <= i < groups.len(),
        0 <= j < groups[i].len(),
    ensures
        groups.flatten().contains(groups[i][j]),
    decreases groups.len(),
{
    let rest = groups.drop_first();
    if i == 0 {
        assert(groups.flatten()[j] == groups[0][j]);
    } else {
        lemma_flatten_holds_each_unit(rest, i - 1, j);
        let at = choose|at: int|
            0 <= at < rest.flatten().len() && rest.flatten()[at] == rest[i - 1][j];
        assert(groups.flatten()[groups.first().len() + at] == groups[i][j]);
    }
}

/// Two runs of parts joined, with a space between them, are all the parts
/// joined.
proof fn lemma_joined_add(a: Seq<Seq<char>>, b: Seq<Seq<char>>)
    requires
        a.len() > 0,
        b.len() > 0,
    ensures
        joined(a + b) == joined(a) + seq![' '] + joined(b),
    decreases b.len(),
{
    assert((a + b).drop_last() =~= a + b.drop_last());
    assert((a + b).last() == b.last());
    if b.len() == 1 {
        assert(a + b.drop_last() =~= a);
    } else {
        lemma_joined_add(a, b.drop_last());
        assert(joined(a + b) =~= joined(a) + seq![' '] + joined(b));
    }
}

/// Chunks that are groups joined come, joined, to all the units joined.
proof fn lemma_joined_groups(chunks: Seq<Seq<char>>, groups: Seq<Seq<Seq<char>>>)
    requires
        chunks.len() == groups.len(),
        forall|i: int|
            0 <= i < groups.len() ==> (#[trigger] groups[i]).len() > 0 && chunks[i] == joined(
                groups[i],
            ),
    ensures
        joined(chunks) == joined(groups.flatten()),
        (chunks.len() == 0) == (groups.flatten().len() == 0),
    decreases groups.len(),
{
    broadcast use Seq::lemma_flatten_push;

    if groups.len() > 0 {
        let before = groups.drop_last();
        assert(groups =~= before.push(groups.last()));
        assert(groups.flatten() =~= before.flatten() + groups.last());
        assert forall|i: int| 0 <= i < before.len() implies (#[trigger] before[i]).len() > 0
            && chunks.drop_last()[i] == joined(before[i]) by {
            assert(before[i] == groups[i]);
        }
        lemma_joined_groups(chunks.drop_last(), before);
        if before.len() > 0 {
            lemma_joined_add(before.flatten(), groups.last());
        } else {
            assert(before.flatten() + groups.last() =~= groups.last());
        }
    }
}

/// What holds of the chunks of every text: they are the sentence units of the
/// text in order, with single spaces between the units of one chunk; none is
/// empty or has whitespace at either end; and one that is longer than
/// `max_len` is a single sentence unit.
pub proof fn lemma_chunks_of_text(text: Seq<char>, max_len: int)
    ensures
        ({
            let chunks = split_chunks(text, max_len);
            let units = sentence_units(text);
            &&& joined(chunks) == joined(units)
            &&& (chunks.len() == 0) == (units.len() == 0)
            &&& forall|k: int| 0 <= k < chunks.len() ==> is_unit(#[trigger] chunks[k])
            &&& forall|k: int|
                0 <= k < chunks.len() ==> (#[trigger] chunks[k]).len() <= max_len
                    || units.contains(chunks[k])
        }),
{
    let chunks = split_chunks(text, max_len);
    let units = sentence_units(text);
    let groups = lemma_chunks_group_the_sentences(text, max_len);
    lemma_joined_groups(chunks, groups);
    assert forall|k: int| 0 <= k < chunks.len() implies is_unit(#[trigger] chunks[k]) && (
    chunks[k].len() <= max_len || units.contains(chunks[k])) by {
        let group = groups[k];
        assert forall|j: int| 0 <= j < group.len() implies is_unit(#[trigger] group[j]) by {
            assert(group[j] == groups[k][j]);
        }
        lemma_spaced_is_joined(group);
        if group.len() == 1 {
            lemma_flatten_holds_each_unit(groups, k, 0);
        }
    }
}

// What the chunks say

/// `s` without its whitespace: what `s` says, whatever is between the words.
pub open spec fn without_whitespace(s: Seq<char>) -> Seq<char>
    decreases s.len(),
{
    if s.len() == 0 {
        s
    } else if is_whitespace(s.last()) {
        without_whitespace(s.drop_last())
    } else {
        without_whitespace(s.drop_last()).push(s.last())
    }
}

/// One whitespace character says nothing.
proof fn lemma_without_whitespace_of_whitespace(c: char)
    requires
        is_whitespace(c),
    ensures
        without_whitespace(seq![c]) == Seq::<char>::empty(),
{
    let s = seq![c];
    assert(s.last() == c);
    assert(s.drop_last() =~= Seq::empty());
    assert(without_whitespace(s.drop_last()) =~= Seq::empty());
}

/// Two texts one behind the other say, without whitespace, what the first
/// says and then what the second says.
proof fn lemma_without_whitespace_add(a: Seq<char>, b: Seq<char>)
    ensures
        without_whitespace(a + b) == without_whitespace(a) + without_whitespace(b),
    decreases b.len(),
{
    if b.len() == 0 {
        assert(a + b =~= a);
        assert(without_whitespace(a) + without_whitespace(b) =~= without_whitespace(a));
    } else {
        assert((a + b).drop_last() =~= a + b.drop_last());
        assert((a + b).last() == b.last());
        lemma_without_whitespace_add(a, b.drop_last());
        assert(without_whitespace(a + b) =~= without_whitespace(a) + without_whitespace(b));
    }
}

/// Trimming at the start takes nothing but whitespace away.
proof fn lemma_without_whitespace_trimmed_start(s: Seq<char>)
    ensures
        without_whitespace(trimmed_start(s)) == without_whitespace(s),
    decreases s.len(),
{
    if s.len() > 0 && is_whitespace(s.first()) {
        let first = seq![s.first()];
        lemma_without_whitespace_trimmed_start(s.drop_first());
        assert(first + s.drop_first() =~= s);
        lemma_without_whitespace_add(first, s.drop_first());
        lemma_without_whitespace_of_whitespace(s.first());
        assert(without_whitespace(first) + without_whitespace(s.drop_first())
            =~= without_whitespace(s.drop_first()));
    }
}

/// Trimming at the end takes nothing but whitespace away.
proof fn lemma_without_whitespace_trimmed_end(s: Seq<char>)
    ensures
        without_whitespace(trimmed_end(s)) == without_whitespace(s),
    decreases s.len(),
{
    if s.len() > 0 && is_whitespace(s.last()) {
        lemma_without_whitespace_trimmed_end(s.drop_last());
    }
}

/// Trimming takes nothing but whitespace away.
proof fn lemma_without_whitespace_trimmed(s: Seq<char>)
    ensures
        without_whitespace(trimmed(s)) == without_whitespace(s),
        trimmed(s).len() == 0 ==> without_whitespace(s).len() == 0,
{
    lemma_without_whitespace_trimmed_start(s);
    lemma_without_whitespace_trimmed_end(trimmed_start(s));
    assert(without_whitespace(Seq::<char>::empty()).len() == 0);
}

/// Parts joined with spaces say, without whitespace, what the parts say one
/// behind the other.
proof fn lemma_without_whitespace_joined(parts: Seq<Seq<char>>)
    ensures
        without_whitespace(joined(parts)) == without_whitespace(parts.flatten()),
    decreases parts.len(),
{
    broadcast use Seq::lemma_flatten_push;

    if parts.len() == 1 {
        parts.lemma_flatten_one_element();
    } else if parts.len() > 1 {
        let before = parts.drop_last();
        let space = seq![' '];
        lemma_without_whitespace_joined(before);
        assert(parts =~= before.push(parts.last()));
        assert(parts.flatten() =~= before.flatten() + parts.last());
        lemma_without_whitespace_add(before.flatten(), parts.last());
        lemma_without_whitespace_add(joined(before) + space, parts.last());
        lemma_without_whitespace_add(joined(before), space);
        lemma_without_whitespace_of_whitespace(' ');
        assert(without_whitespace(joined(before)) + without_whitespace(space)
            =~= without_whitespace(joined(before)));
    }
}

/// The units of sentences say, without whitespace, what the sentences say.
proof fn lemma_without_whitespace_units(sentences: Seq<Seq<char>>)
    ensures
        without_whitespace(units_of(sentences).flatten()) == without_whitespace(
            sentences.flatten(),
        ),
    decreases sentences.len(),
{
    if sentences.len() > 0 {
        let first = sentences.first();
        let rest = sentences.drop_first();
        let unit = trimmed(first);
        lemma_without_whitespace_units(rest);
        lemma_without_whitespace_trimmed(first);
        lemma_without_whitespace_add(first, rest.flatten());
        if unit.len() > 0 {
            let kept = seq![unit] + units_of(rest);
            assert(kept.first() == unit);
            assert(kept.drop_first() =~= units_of(rest));
            assert(kept.flatten() == unit + units_of(rest).flatten());
            lemma_without_whitespace_add(unit, units_of(rest).flatten());
        } else {
            assert(without_whitespace(first) + without_whitespace(rest.flatten())
                =~= without_whitespace(rest.flatten()));
        }
    }
}

/// The chunks of a text say what the text says: with the whitespace taken
/// out, the chunks, one behind the other, are the text. Splitting changes
/// nothing but whitespace.
pub proof fn lemma_chunks_say_what_the_text_says(text: Seq<char>, max_len: int)
    ensures
        without_whitespace(split_chunks(text, max_len).flatten()) == without_whitespace(text),
{
    let chunks = split_chunks(text, max_len);
    let units = sentence_units(text);
    lemma_chunks_of_text(text, max_len);
    lemma_without_whitespace_joined(chunks);
    lemma_without_whitespace_joined(units);
    lemma_without_whitespace_units(sentences(text));
    lemma_sentences_make_the_text(text);
}

// Texts of one chunk, and chunks of one sentence

/// A text of nothing has no chunks, whatever the limit.
pub proof fn lemma_empty_text_has_no_chunks(max_len: int)
    ensures
        split_chunks(Seq::empty(), max_len) == Seq::<Seq<char>>::empty(),
{
}

/// A text that holds no sentence end is one sentence: its only chunk is the
/// whole text, trimmed, however long it is. Where nothing but whitespace
/// stands in it, it has no chunk.
pub proof fn lemma_text_without_sentence_end(text: Seq<char>, max_len: int)
    requires
        forall|i: int| 0 <= i < text.len() ==> !is_sentence_end(#[trigger] text[i]),
    ensures
        split_chunks(text, max_len) == if trimmed(text).len() > 0 {
            seq![trimmed(text)]
        } else {
            Seq::empty()
        },
{
    if text.len() > 0 {
        let unit = trimmed(text);
        lemma_first_sentence_len_at(text, text.len() as int);
        lemma_sentence_units_unfold(text);
        assert(text.take(text.len() as int) =~= text);
        assert(text.skip(text.len() as int) =~= Seq::empty());
        assert(sentence_units(text.skip(text.len() as int)) =~= Seq::empty());
        if unit.len() > 0 {
            let units = seq![unit];
            assert(sentence_units(text) =~= units);
            lemma_trimmed_is_unit(text);
            lemma_trimmed_unit_with_space(unit);
            let placed = Packing::start().place(unit, max_len);
            assert(placed.open =~= unit + seq![' ']);
            assert(placed.closed =~= Seq::empty());
            assert(units.drop_first() =~= Seq::empty());
            assert(placed.finish(units.drop_first(), max_len) == placed.close().closed);
            assert(placed.close().closed =~= seq![unit]);
        } else {
            assert(sentence_units(text) =~= Seq::empty());
        }
    }
}

/// Where each unit overflows the chunk that holds the unit before it, the
/// chunks are what was closed before and the units themselves.
proof fn lemma_finish_one_by_one(p: Packing, units: Seq<Seq<char>>, max_len: int)
    requires
        forall|j: int| 0 <= j < units.len() ==> is_unit(#[trigger] units[j]),
        forall|j: int|
            0 <= j < units.len() - 1 ==> (#[trigger] units[j]).len() + units[j + 1].len() + 2
                > max_len,
        p.open.len() > 0 && units.len() > 0 ==> p.overflows(units[0], max_len),
    ensures
        p.finish(units, max_len) == p.close().closed + units,
    decreases units.len(),
{
    if units.len() == 0 {
        assert(p.close().closed + units =~= p.close().closed);
    } else {
        let unit = units.first();
        let rest = units.drop_first();
        let q = p.place(unit, max_len);
        assert(q.closed == p.close().closed);
        assert(q.open =~= unit + seq![' ']);
        lemma_trimmed_unit_with_space(unit);
        assert(q.close().closed == q.closed.push(unit));
        assert forall|j: int| 0 <= j < rest.len() implies is_unit(#[trigger] rest[j]) by {
            assert(rest[j] == units[j + 1]);
        }
        assert forall|j: int| 0 <= j < rest.len() - 1 implies (#[trigger] rest[j]).len() + rest[j
            + 1].len() + 2 > max_len by {
            assert(rest[j] == units[j + 1]);
            assert(rest[j + 1] == units[j + 2]);
        }
        if rest.len() > 0 {
            assert(rest[0] == units[1]);
            assert(units[0].len() + units[1].len() + 2 > max_len);
        }
        lemma_finish_one_by_one(q, rest, max_len);
        assert(q.closed.push(unit) + rest =~= p.close().closed + units);
    }
}

/// Where no two sentence units that follow each other go into one chunk,
/// each with the space behind it, every sentence unit is a chunk of its own.
pub proof fn lemma_each_sentence_alone(text: Seq<char>, max_len: int)
    requires
        forall|j: int|
            0 <= j < sentence_units(text).len() - 1 ==> (#[trigger] sentence_units(text)[j]).len()
                + sentence_units(text)[j + 1].len() + 2 > max_len,
    ensures
        split_chunks(text, max_len) == sentence_units(text),
{
    let units = sentence_units(text);
    lemma_sentence_units_are_units(text);
    lemma_finish_one_by_one(Packing::start(), units, max_len);
    assert(Seq::<Seq<char>>::empty() + units =~= units);
}

} // verus!
