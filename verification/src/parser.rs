//! Reading the listings that the package tools print: one update a line,
//! as a name, the installed version and the new version.

use crate::state::{PackageUpdate, PackageUpdateView, UpdateSource};
use crate::text::{chars_of, cut, line_at, lines, spans_within, string_of, word_spans, words, Span};
use vstd::prelude::*;

verus! {

/// The word that the tools write between the installed version and the new
/// one.
pub open spec fn arrow() -> Seq<char> {
    seq!['-', '>']
}

/// Where the first arrow stands among `parts`, or their number where none
/// of them is an arrow.
pub open spec fn arrow_position(parts: Seq<Seq<char>>) -> nat
    decreases parts.len(),
{
    if parts.len() > 0 && parts[0] != arrow() {
        1 + arrow_position(parts.drop_first())
    } else {
        0
    }
}

/// The new version that a line of `parts` names: the word after the first
/// arrow, or the last word where no arrow has a word after it.
pub open spec fn latest_of(parts: Seq<Seq<char>>) -> Seq<char> {
    let i = arrow_position(parts) as int;
    if i + 1 < parts.len() {
        parts[i + 1]
    } else {
        parts.last()
    }
}

/// The update that `line` reports, if it has the three words of one.
pub open spec fn parse_line(line: Seq<char>, source: UpdateSource) -> Option<PackageUpdateView> {
    let parts = words(line);
    if parts.len() < 3 {
        None
    } else {
        Some(
            PackageUpdateView {
                name: parts[0],
                current: parts[1],
                latest: latest_of(parts),
                source,
            },
        )
    }
}

/// The updates that `ls` report, in the order of the lines. A line that
/// reports none leaves no trace.
pub open spec fn records(ls: Seq<Seq<char>>, source: UpdateSource) -> Seq<PackageUpdateView>
    decreases ls.len(),
{
    if ls.len() == 0 {
        Seq::empty()
    } else {
        let rest = records(ls.drop_first(), source);
        match parse_line(ls[0], source) {
            Some(update) => seq![update] + rest,
            None => rest,
        }
    }
}

/// The updates that `text` reports, line by line.
pub open spec fn parse_lines(text: Seq<char>, source: UpdateSource) -> Seq<PackageUpdateView> {
    records(lines(text), source)
}

/// The first arrow stands at `n` where no word before `n` is an arrow and
/// the word at `n` is one, or where no word is an arrow and `n` is their
/// number.
pub proof fn lemma_arrow_position_is(parts: Seq<Seq<char>>, n: int)
    requires
        0 <= n <= parts.len(),
        forall|i: int| 0 <= i < n ==> #[trigger] parts[i] != arrow(),
        n == parts.len() || parts[n] == arrow(),
    ensures
        arrow_position(parts) == n,
    decreases n,
{
    if n > 0 {
        let rest = parts.drop_first();
        assert forall|i: int| 0 <= i < n - 1 implies #[trigger] rest[i] != arrow() by {
            assert(rest[i] == parts[i + 1]);
        }
        lemma_arrow_position_is(rest, n - 1);
    }
}

/// No more updates come out than lines went in.
pub proof fn lemma_records_len(ls: Seq<Seq<char>>, source: UpdateSource)
    ensures
        records(ls, source).len() <= ls.len(),
    decreases ls.len(),
{
    if ls.len() > 0 {
        lemma_records_len(ls.drop_first(), source);
    }
}

/// Whether the word at `span` is an arrow.
fn is_arrow(v: &Vec<char>, span: Span) -> (b: bool)
    requires
        span.start <= span.end <= v.len(),
    ensures
        b == (v@.subrange(span.start as int, span.end as int) == arrow()),
{
    let ghost word = v@.subrange(span.start as int, span.end as int);
    assert(arrow().len() == 2 && arrow()[0] == '-' && arrow()[1] == '>');
    if span.end - span.start == 2 {
        assert(word[0] == v@[span.start as int]);
        assert(word[1] == v@[span.start + 1]);
        let b = v[span.start] == '-' && v[span.start + 1] == '>';
        assert(b ==> word =~= arrow());
        b
    } else {
        assert(word.len() != 2);
        false
    }
}

/// The update that the stretch `from..to` of `v` reports, if it reports
/// one.
fn parse_range(v: &Vec<char>, from: usize, to: usize, source: UpdateSource) -> (r: Option<
    PackageUpdate,
>)
    requires
        from <= to <= v.len(),
    ensures
        r.deep_view() == parse_line(v@.subrange(from as int, to as int), source),
{
    let spans = word_spans(v, from, to);
    let ghost parts = cut(v@, spans@);
    if spans.len() < 3 {
        return None;
    }
    let mut i: usize = 0;
    while i < spans.len() && !is_arrow(v, spans[i])
        invariant
            i <= spans.len(),
            spans_within(spans@, from as int, to as int),
            to <= v.len(),
            parts == cut(v@, spans@),
            forall|j: int| 0 <= j < i ==> #[trigger] parts[j] != arrow(),
        decreases spans.len() - i,
    {
        i += 1;
    }
    proof {
        lemma_arrow_position_is(parts, i as int);
    }
    let last = if i < spans.len() - 1 {
        spans[i + 1]
    } else {
        spans[spans.len() - 1]
    };
    Some(
        PackageUpdate {
            name: string_of(v, spans[0].start, spans[0].end),
            current: string_of(v, spans[1].start, spans[1].end),
            latest: string_of(v, last.start, last.end),
            source,
        },
    )
}

/// Reads one line of a listing. The first word is the package's name, the
/// second its installed version; the new version is the word after the first
/// `->`, or the last word where no such word exists. A line of fewer than
/// three words reports nothing.
pub fn parse_update_line(line: &str, source: UpdateSource) -> (r: Option<PackageUpdate>)
    ensures
        r.deep_view() == parse_line(line@, source),
{
    let v = chars_of(line);
    assert(v@.subrange(0, v.len() as int) == v@);
    parse_range(&v, 0, v.len(), source)
}

/// Reads a listing: the update of each line that reports one, in the order
/// of the lines.
pub fn parse_update_lines(output: &str, source: UpdateSource) -> (r: Vec<PackageUpdate>)
    ensures
        r.deep_view() == parse_lines(output@, source),
{
    let v = chars_of(output);
    let mut found: Vec<PackageUpdate> = Vec::new();
    let mut pos: usize = 0;
    assert(v@.skip(0) == v@);
    assert(found.deep_view() + parse_lines(v@, source) == parse_lines(v@, source));
    while pos < v.len()
        invariant
            pos <= v.len(),
            parse_lines(v@, source) == found.deep_view() + records(
                lines(v@.skip(pos as int)),
                source,
            ),
        decreases v.len() - pos,
    {
        let (end, next) = line_at(&v, pos);
        let update = parse_range(&v, pos, end, source);
        proof {
            let line = v@.subrange(pos as int, end as int);
            let rest = lines(v@.skip(next as int));
            let all = seq![line] + rest;
            assert(all[0] == line);
            assert(all.drop_first() == rest);
        }
        let ghost before = found.deep_view();
        match update {
            Some(u) => {
                found.push(u);
                assert(found.deep_view() == before + seq![u@]);
                assert(before + (seq![u@] + records(lines(v@.skip(next as int)), source)) == (before
                    + seq![u@]) + records(lines(v@.skip(next as int)), source));
            },
            None => {},
        }
        pos = next;
    }
    assert(lines(v@.skip(pos as int)) == Seq::<Seq<char>>::empty());
    assert(found.deep_view() + Seq::<PackageUpdateView>::empty() == found.deep_view());
    found
}

} // verus!
