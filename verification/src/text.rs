//! Text as sequences of characters: the classes of characters the update
//! listings are made of, runs of one class, trimming, lines, words, joining
//! and decimal numbers.
//!
//! Every executable function here works on a `Vec<char>` or a `&str` and is
//! specified over the `Seq<char>` it views.

use vstd::prelude::*;
use vstd::string::StringExecFns;

verus! {

/// `String::push` of the standard library: the string afterwards is the
/// string before with the one character `c` added at its end.
pub assume_specification[ String::push ](s: &mut String, c: char)
    ensures
        final(s)@ == old(s)@.push(c),
;

/// The characters with the Unicode property `White_Space`.
pub open spec fn is_whitespace(c: char) -> bool {
    let u = c as u32;
    ||| 0x09 <= u <= 0x0D
    ||| u == 0x20
    ||| u == 0x85
    ||| u == 0xA0
    ||| u == 0x1680
    ||| 0x2000 <= u <= 0x200A
    ||| u == 0x2028
    ||| u == 0x2029
    ||| u == 0x202F
    ||| u == 0x205F
    ||| u == 0x3000
}

/// A way of sorting characters into those that belong to a run and those
/// that end it.
#[derive(Clone, Copy, Debug, PartialEq, Eq, Structural)]
pub enum CharClass {
    /// White space.
    Space,
    /// Anything but white space.
    Word,
    /// Anything but a line feed.
    Line,
}

/// Whether `c` belongs to a run of `class`.
pub open spec fn in_class(c: char, class: CharClass) -> bool {
    match class {
        CharClass::Space => is_whitespace(c),
        CharClass::Word => !is_whitespace(c),
        CharClass::Line => c != '\n',
    }
}

/// The length of the longest prefix of `s` whose characters are all of
/// `class`.
pub open spec fn run_len(s: Seq<char>, class: CharClass) -> nat
    decreases s.len(),
{
    if s.len() > 0 && in_class(s[0], class) {
        1 + run_len(s.drop_first(), class)
    } else {
        0
    }
}

/// The number of white-space characters at the end of `s`.
pub open spec fn trailing_space(s: Seq<char>) -> nat
    decreases s.len(),
{
    if s.len() > 0 && is_whitespace(s.last()) {
        1 + trailing_space(s.drop_last())
    } else {
        0
    }
}

/// `s` without the white space at its start and at its end.
pub open spec fn trim(s: Seq<char>) -> Seq<char> {
    let t = s.skip(run_len(s, CharClass::Space) as int);
    t.take(t.len() - trailing_space(t))
}

/// Whether `s` holds nothing but white space.
pub open spec fn is_blank(s: Seq<char>) -> bool {
    forall|i: int| 0 <= i < s.len() ==> is_whitespace(#[trigger] s[i])
}

/// A run of `class` ends where the sequence ends or where the first
/// character of another class stands, and nowhere else.
pub proof fn lemma_run_len_is(s: Seq<char>, class: CharClass, n: int)
    requires
        0 <= n <= s.len(),
        forall|i: int| 0 <= i < n ==> in_class(#[trigger] s[i], class),
        n == s.len() || !in_class(s[n], class),
    ensures
        run_len(s, class) == n,
    decreases n,
{
    if n > 0 {
        let t = s.drop_first();
        assert forall|i: int| 0 <= i < n - 1 implies in_class(#[trigger] t[i], class) by {
            assert(t[i] == s[i + 1]);
        }
        lemma_run_len_is(t, class, n - 1);
    }
}

/// A run of `class` is no longer than the sequence, holds characters of
/// `class` only, and ends with the sequence or before a character of
/// another class.
pub proof fn lemma_run_len_bounds(s: Seq<char>, class: CharClass)
    ensures
        run_len(s, class) <= s.len(),
        forall|i: int| 0 <= i < run_len(s, class) ==> in_class(#[trigger] s[i], class),
        run_len(s, class) == s.len() || !in_class(s[run_len(s, class) as int], class),
    decreases s.len(),
{
    if s.len() > 0 && in_class(s[0], class) {
        let t = s.drop_first();
        lemma_run_len_bounds(t, class);
        assert forall|i: int| 0 <= i < run_len(s, class) implies in_class(
            #[trigger] s[i],
            class,
        ) by {
            if i > 0 {
                assert(s[i] == t[i - 1]);
            }
        }
    }
}

/// The white space at the end of `s` has the length `n` where the last
/// `n` characters are white space and the one before them is not.
pub proof fn lemma_trailing_space_is(s: Seq<char>, n: int)
    requires
        0 <= n <= s.len(),
        forall|i: int| s.len() - n <= i < s.len() ==> is_whitespace(#[trigger] s[i]),
        n == s.len() || !is_whitespace(s[s.len() - n - 1]),
    ensures
        trailing_space(s) == n,
    decreases n,
{
    if n > 0 {
        let t = s.drop_last();
        assert forall|i: int| t.len() - (n - 1) <= i < t.len() implies is_whitespace(
            #[trigger] t[i],
        ) by {
            assert(t[i] == s[i]);
        }
        lemma_trailing_space_is(t, n - 1);
    }
}

/// Whether `c` is white space.
pub fn char_is_whitespace(c: char) -> (b: bool)
    ensures
        b == is_whitespace(c),
{
    let u = c as u32;
    (0x09 <= u && u <= 0x0D) || u == 0x20 || u == 0x85 || u == 0xA0 || u == 0x1680 || (0x2000 <= u
        && u <= 0x200A) || u == 0x2028 || u == 0x2029 || u == 0x202F || u == 0x205F || u == 0x3000
}

/// Whether `c` belongs to a run of `class`.
pub fn char_in_class(c: char, class: CharClass) -> (b: bool)
    ensures
        b == in_class(c, class),
{
    match class {
        CharClass::Space => char_is_whitespace(c),
        CharClass::Word => !char_is_whitespace(c),
        CharClass::Line => c != '\n',
    }
}

/// The characters of `s`, one by one.
pub fn chars_of(s: &str) -> (v: Vec<char>)
    ensures
        v@ == s@,
{
    let mut v: Vec<char> = Vec::new();
    for c in it: s.chars()
        invariant
            it.seq() == s@,
            v@ == it.seq().take(it.index() as int),
    {
        v.push(c);
        assert(it.seq().take(it.index() + 1) == it.seq().take(it.index() as int).push(c));
    }
    v
}

/// The characters of `v` from `from` up to `to`, as a string.
pub fn string_of(v: &Vec<char>, from: usize, to: usize) -> (s: String)
    requires
        from <= to <= v.len(),
    ensures
        s@ == v@.subrange(from as int, to as int),
{
    let mut s = String::new();
    let mut i: usize = from;
    while i < to
        invariant
            from <= i <= to <= v.len(),
            s@ == v@.subrange(from as int, i as int),
        decreases to - i,
    {
        s.push(v[i]);
        i += 1;
        assert(v@.subrange(from as int, i as int) == v@.subrange(from as int, i - 1).push(
            v@[i - 1],
        ));
    }
    s
}

/// Where the run of `class` that starts at `from` ends, looking no further
/// than `to`.
pub fn scan_run(v: &Vec<char>, from: usize, to: usize, class: CharClass) -> (end: usize)
    requires
        from <= to <= v.len(),
    ensures
        from <= end <= to,
        end - from == run_len(v@.subrange(from as int, to as int), class),
{
    let mut i: usize = from;
    while i < to && char_in_class(v[i], class)
        invariant
            from <= i <= to <= v.len(),
            forall|j: int| from <= j < i ==> in_class(#[trigger] v@[j], class),
        decreases to - i,
    {
        i += 1;
    }
    proof {
        let s = v@.subrange(from as int, to as int);
        assert forall|j: int| 0 <= j < i - from implies in_class(#[trigger] s[j], class) by {
            assert(s[j] == v@[from + j]);
        }
        lemma_run_len_is(s, class, i - from);
    }
    i
}

/// The white space at the end of `s` is no longer than `s`, holds white
/// space only, and starts with `s` or after a character that is none.
pub proof fn lemma_trailing_space_bounds(s: Seq<char>)
    ensures
        trailing_space(s) <= s.len(),
        forall|i: int|
            s.len() - trailing_space(s) <= i < s.len() ==> is_whitespace(#[trigger] s[i]),
        trailing_space(s) == s.len() || !is_whitespace(s[s.len() - trailing_space(s) - 1]),
    decreases s.len(),
{
    if s.len() > 0 && is_whitespace(s.last()) {
        let t = s.drop_last();
        lemma_trailing_space_bounds(t);
        assert forall|i: int| s.len() - trailing_space(s) <= i < s.len() implies is_whitespace(
            #[trigger] s[i],
        ) by {
            if i < s.len() - 1 {
                assert(s[i] == t[i]);
            }
        }
        if trailing_space(s) != s.len() {
            assert(s[s.len() - trailing_space(s) - 1] == t[t.len() - trailing_space(t) - 1]);
        }
    }
}

/// Trimming leaves nothing exactly of the blank sequences.
pub proof fn lemma_blank_iff_trim_empty(s: Seq<char>)
    ensures
        is_blank(s) <==> trim(s).len() == 0,
        is_blank(s) <==> run_len(s, CharClass::Space) == s.len(),
{
    lemma_run_len_bounds(s, CharClass::Space);
    let k = run_len(s, CharClass::Space) as int;
    let t = s.skip(k);
    lemma_trailing_space_bounds(t);
    if k < s.len() {
        assert(t[0] == s[k]);
        assert(!is_whitespace(s[k]));
        if trailing_space(t) == t.len() {
            assert(is_whitespace(t[0]));
        }
    }
}

/// The bounds, within `from..to`, of what trimming leaves of that stretch.
pub fn trim_range(v: &Vec<char>, from: usize, to: usize) -> (r: (usize, usize))
    requires
        from <= to <= v.len(),
    ensures
        from <= r.0 <= r.1 <= to,
        v@.subrange(r.0 as int, r.1 as int) == trim(v@.subrange(from as int, to as int)),
{
    let a = scan_run(v, from, to, CharClass::Space);
    let mut b: usize = to;
    while b > a && char_is_whitespace(v[b - 1])
        invariant
            a <= b <= to <= v.len(),
            forall|j: int| b <= j < to ==> is_whitespace(#[trigger] v@[j]),
        decreases b,
    {
        b -= 1;
    }
    proof {
        let s = v@.subrange(from as int, to as int);
        let t = s.skip(a - from);
        assert(t == v@.subrange(a as int, to as int));
        assert forall|i: int| t.len() - (to - b) <= i < t.len() implies is_whitespace(
            #[trigger] t[i],
        ) by {
            assert(t[i] == v@[a + i]);
        }
        if b > a {
            assert(t[t.len() - (to - b) - 1] == v@[b - 1]);
        }
        lemma_trailing_space_is(t, to - b);
        assert(t.take(t.len() - (to - b)) == v@.subrange(a as int, b as int));
    }
    (a, b)
}

/// `s` without the white space around it.
pub fn trimmed(s: &str) -> (r: String)
    ensures
        r@ == trim(s@),
{
    let v = chars_of(s);
    let (a, b) = trim_range(&v, 0, v.len());
    assert(v@.subrange(0, v.len() as int) == v@);
    string_of(&v, a, b)
}

/// Whether `s` holds nothing but white space.
pub fn blank(s: &str) -> (b: bool)
    ensures
        b == is_blank(s@),
{
    let v = chars_of(s);
    let end = scan_run(&v, 0, v.len(), CharClass::Space);
    proof {
        assert(v@.subrange(0, v.len() as int) == v@);
        lemma_blank_iff_trim_empty(v@);
    }
    end == v.len()
}

/// A line without the carriage return that stood before its line feed.
pub open spec fn strip_cr(s: Seq<char>) -> Seq<char> {
    if s.len() > 0 && s.last() == '\r' {
        s.drop_last()
    } else {
        s
    }
}

/// The lines of `s`. A line ends with a line feed, or with a carriage return
/// and a line feed, and holds neither; the last line may end with the text
/// instead, and then keeps a carriage return at its end. Text that ends with
/// a line feed has no empty line after it.
pub open spec fn lines(s: Seq<char>) -> Seq<Seq<char>>
    decreases s.len(),
{
    let n = run_len(s, CharClass::Line) as int;
    if s.len() == 0 {
        Seq::empty()
    } else if n >= s.len() {
        seq![s]
    } else {
        seq![strip_cr(s.take(n))] + lines(s.skip(n + 1))
    }
}

/// The words of `s`: its longest stretches free of white space, in order.
pub open spec fn words(s: Seq<char>) -> Seq<Seq<char>>
    decreases s.len(),
{
    let a = run_len(s, CharClass::Space) as int;
    let t = s.skip(a);
    let n = run_len(t, CharClass::Word) as int;
    if 0 < n && a + n <= s.len() {
        seq![t.take(n)] + words(t.skip(n))
    } else {
        Seq::empty()
    }
}

/// A stretch of a text, from `start` up to `end`.
#[derive(Clone, Copy, Debug, PartialEq, Eq, Structural)]
pub struct Span {
    pub start: usize,
    pub end: usize,
}

/// The stretches of `s` that `spans` marks, in order.
pub open spec fn cut(s: Seq<char>, spans: Seq<Span>) -> Seq<Seq<char>> {
    Seq::new(spans.len(), |i: int| s.subrange(spans[i].start as int, spans[i].end as int))
}

/// Whether every one of `spans` lies within `from..to`.
pub open spec fn spans_within(spans: Seq<Span>, from: int, to: int) -> bool {
    forall|i: int|
        0 <= i < spans.len() ==> from <= (#[trigger] spans[i]).start <= spans[i].end <= to
}

/// The line that starts at `pos`: where it ends, and where the text after
/// its line ending starts.
pub fn line_at(v: &Vec<char>, pos: usize) -> (r: (usize, usize))
    requires
        pos < v.len(),
    ensures
        pos <= r.0 <= r.1 <= v.len(),
        pos < r.1,
        lines(v@.skip(pos as int)) == seq![v@.subrange(pos as int, r.0 as int)] + lines(
            v@.skip(r.1 as int),
        ),
{
    let n = scan_run(v, pos, v.len(), CharClass::Line);
    let ghost s = v@.skip(pos as int);
    assert(s == v@.subrange(pos as int, v.len() as int));
    if n == v.len() {
        assert(lines(v@.skip(n as int)) == Seq::<Seq<char>>::empty());
        assert(seq![s] + Seq::<Seq<char>>::empty() == seq![s]);
        (n, n)
    } else {
        let end = if n > pos && v[n - 1] == '\r' {
            n - 1
        } else {
            n
        };
        proof {
            let l = s.take(n - pos);
            assert(l == v@.subrange(pos as int, n as int));
            if n > pos {
                assert(l.last() == v@[n - 1]);
            }
            assert(strip_cr(l) == v@.subrange(pos as int, end as int));
            assert(s.skip(n - pos + 1) == v@.skip(n + 1));
        }
        (end, n + 1)
    }
}

/// The words that stand in `v` between `from` and `to`.
pub fn word_spans(v: &Vec<char>, from: usize, to: usize) -> (spans: Vec<Span>)
    requires
        from <= to <= v.len(),
    ensures
        spans_within(spans@, from as int, to as int),
        cut(v@, spans@) == words(v@.subrange(from as int, to as int)),
{
    let mut spans: Vec<Span> = Vec::new();
    let mut pos: usize = from;
    assert(cut(v@, spans@) == Seq::<Seq<char>>::empty());
    loop
        invariant
            from <= pos <= to <= v.len(),
            spans_within(spans@, from as int, to as int),
            words(v@.subrange(from as int, to as int)) == cut(v@, spans@) + words(
                v@.subrange(pos as int, to as int),
            ),
        ensures
            spans_within(spans@, from as int, to as int),
            cut(v@, spans@) == words(v@.subrange(from as int, to as int)),
        decreases to - pos,
    {
        let a = scan_run(v, pos, to, CharClass::Space);
        let b = scan_run(v, a, to, CharClass::Word);
        let ghost s = v@.subrange(pos as int, to as int);
        let ghost t = s.skip(a - pos);
        assert(t == v@.subrange(a as int, to as int));
        if b == a {
            assert(words(s) == Seq::<Seq<char>>::empty());
            assert(cut(v@, spans@) + Seq::<Seq<char>>::empty() == cut(v@, spans@));
            break;
        }
        proof {
            assert(t.take(b - a) == v@.subrange(a as int, b as int));
            assert(t.skip(b - a) == v@.subrange(b as int, to as int));
            let more = spans@.push(Span { start: a, end: b });
            assert(cut(v@, more) == cut(v@, spans@) + seq![v@.subrange(a as int, b as int)]);
            assert(cut(v@, spans@) + (seq![v@.subrange(a as int, b as int)] + words(
                v@.subrange(b as int, to as int),
            )) == cut(v@, more) + words(v@.subrange(b as int, to as int)));
        }
        spans.push(Span { start: a, end: b });
        pos = b;
    }
    spans
}

/// `parts` one after the other, with `sep` between each two neighbours.
pub open spec fn join(parts: Seq<Seq<char>>, sep: Seq<char>) -> Seq<char>
    decreases parts.len(),
{
    if parts.len() == 0 {
        Seq::empty()
    } else if parts.len() == 1 {
        parts[0]
    } else {
        join(parts.drop_last(), sep) + sep + parts.last()
    }
}

/// Joining one part more adds the separator and the part, or the part alone
/// where it is the first.
pub proof fn lemma_join_push(parts: Seq<Seq<char>>, sep: Seq<char>, part: Seq<char>)
    ensures
        join(parts.push(part), sep) == if parts.len() == 0 {
            part
        } else {
            join(parts, sep) + sep + part
        },
{
    let more = parts.push(part);
    assert(more.drop_last() == parts);
    assert(more.last() == part);
}

/// `parts` one after the other, with `sep` between each two neighbours.
pub fn join_strings(parts: &Vec<String>, sep: &str) -> (r: String)
    ensures
        r@ == join(parts.deep_view(), sep@),
{
    let mut r = String::new();
    let mut i: usize = 0;
    while i < parts.len()
        invariant
            i <= parts.len(),
            r@ == join(parts.deep_view().take(i as int), sep@),
        decreases parts.len() - i,
    {
        proof {
            let done = parts.deep_view().take(i as int);
            assert(parts.deep_view().take(i + 1) == done.push(parts[i as int]@));
            lemma_join_push(done, sep@, parts[i as int]@);
        }
        if i > 0 {
            r.append(sep);
        }
        r.append(parts[i].as_str());
        i += 1;
    }
    assert(parts.deep_view().take(parts.len() as int) == parts.deep_view());
    r
}

/// The character that stands for the digit `d`.
pub open spec fn digit_char(d: nat) -> char
    recommends
        d < 10,
{
    (0x30 + d) as char
}

/// `n` written in decimal, without leading zeros.
pub open spec fn decimal(n: nat) -> Seq<char>
    decreases n,
{
    if n < 10 {
        seq![digit_char(n)]
    } else {
        decimal(n / 10).push(digit_char(n % 10))
    }
}

/// `i` written in decimal, with a minus sign before it where it is negative.
pub open spec fn signed_decimal(i: int) -> Seq<char> {
    if i < 0 {
        seq!['-'] + decimal((-i) as nat)
    } else {
        decimal(i as nat)
    }
}

/// The character that stands for the digit `d`.
fn digit(d: u8) -> (c: char)
    requires
        d < 10,
    ensures
        c == digit_char(d as nat),
{
    (0x30u8 + d) as char
}

/// Adds `n` in decimal to the end of `s`.
pub fn push_decimal(s: &mut String, n: u64)
    ensures
        final(s)@ == old(s)@ + decimal(n as nat),
    decreases n,
{
    if n >= 10 {
        push_decimal(s, n / 10);
    }
    s.push(digit((n % 10) as u8));
    proof {
        if n >= 10 {
            assert(old(s)@ + decimal(n as nat) == (old(s)@ + decimal((n / 10) as nat)).push(
                digit_char((n % 10) as nat),
            ));
        } else {
            assert(old(s)@ + decimal(n as nat) == old(s)@.push(digit_char(n as nat)));
        }
    }
}

/// Adds `i` in decimal to the end of `s`.
pub fn push_signed_decimal(s: &mut String, i: i64)
    ensures
        final(s)@ == old(s)@ + signed_decimal(i as int),
{
    if i < 0 {
        s.push('-');
        let magnitude: u64 = if i == i64::MIN {
            0x8000_0000_0000_0000u64
        } else {
            (-i) as u64
        };
        push_decimal(s, magnitude);
        assert(old(s)@ + signed_decimal(i as int) == old(s)@.push('-') + decimal((-i) as nat));
    } else {
        push_decimal(s, i as u64);
    }
}

/// Whether `a` and `b` hold the same characters.
pub fn same_text(a: &str, b: &str) -> (same: bool)
    ensures
        same == (a@ == b@),
{
    String::from_str(a) == String::from_str(b)
}

/// Adds the characters of `v` from `from` up to `to` to the end of `s`.
pub fn push_range(s: &mut String, v: &Vec<char>, from: usize, to: usize)
    requires
        from <= to <= v.len(),
    ensures
        final(s)@ == old(s)@ + v@.subrange(from as int, to as int),
{
    let mut i: usize = from;
    assert(old(s)@ + v@.subrange(from as int, from as int) == old(s)@);
    while i < to
        invariant
            from <= i <= to <= v.len(),
            s@ == old(s)@ + v@.subrange(from as int, i as int),
        decreases to - i,
    {
        s.push(v[i]);
        i += 1;
        assert(old(s)@ + v@.subrange(from as int, i as int) == (old(s)@ + v@.subrange(
            from as int,
            i - 1,
        )).push(v@[i - 1]));
    }
}

/// Whether the character `c` stands in `v` between `from` and `to`.
pub fn range_contains(v: &Vec<char>, from: usize, to: usize, c: char) -> (found: bool)
    requires
        from <= to <= v.len(),
    ensures
        found == v@.subrange(from as int, to as int).contains(c),
{
    let ghost s = v@.subrange(from as int, to as int);
    let mut i: usize = from;
    while i < to
        invariant
            from <= i <= to <= v.len(),
            s == v@.subrange(from as int, to as int),
            forall|j: int| 0 <= j < i - from ==> s[j] != c,
        decreases to - i,
    {
        if v[i] == c {
            assert(s[i - from] == c);
            return true;
        }
        i += 1;
    }
    false
}

} // verus!
