//! Text helpers: decimal numbers, line splitting and joining.

use vstd::prelude::*;
use vstd::std_specs::iter::IteratorSpec;

verus! {

broadcast use vstd::string::group_string_axioms;

/// `String::push` appends one character to the end of the string.
pub assume_specification[ String::push ](s: &mut String, c: char)
    ensures
        final(s)@ == old(s)@.push(c),
;

/// The texts of a list of strings.
pub open spec fn texts_of(strings: Seq<String>) -> Seq<Seq<char>> {
    Seq::new(strings.len(), |i: int| strings[i]@)
}

/// The character that stands for the digit `d`.
pub open spec fn digit_char(d: nat) -> char
    recommends
        d < 10,
{
    if d == 0 {
        '0'
    } else if d == 1 {
        '1'
    } else if d == 2 {
        '2'
    } else if d == 3 {
        '3'
    } else if d == 4 {
        '4'
    } else if d == 5 {
        '5'
    } else if d == 6 {
        '6'
    } else if d == 7 {
        '7'
    } else if d == 8 {
        '8'
    } else {
        '9'
    }
}

/// The decimal digits of `n`, most significant first, without leading zeros.
pub open spec fn decimal_text(n: nat) -> Seq<char>
    decreases n,
{
    if n < 10 {
        seq![digit_char(n)]
    } else {
        decimal_text(n / 10).push(digit_char(n % 10))
    }
}

fn digit(d: u64) -> (c: char)
    requires
        d < 10,
    ensures
        c == digit_char(d as nat),
{
    if d == 0 {
        '0'
    } else if d == 1 {
        '1'
    } else if d == 2 {
        '2'
    } else if d == 3 {
        '3'
    } else if d == 4 {
        '4'
    } else if d == 5 {
        '5'
    } else if d == 6 {
        '6'
    } else if d == 7 {
        '7'
    } else if d == 8 {
        '8'
    } else {
        '9'
    }
}

/// Writes `n` in decimal.
pub fn to_decimal(n: u64) -> (s: String)
    ensures
        s@ == decimal_text(n as nat),
{
    // Digits below the leading one, least significant first.
    let mut low: Vec<char> = Vec::new();
    let mut rest: u64 = n;
    while rest >= 10
        invariant
            decimal_text(n as nat) == decimal_text(rest as nat) + low@.reverse(),
        decreases rest,
    {
        let ghost before = low@;
        low.push(digit(rest % 10));
        proof {
            let d = digit_char((rest % 10) as nat);
            assert(low@.reverse() =~= seq![d] + before.reverse());
            assert(decimal_text(rest as nat) == decimal_text((rest / 10) as nat).push(d));
            assert(decimal_text((rest / 10) as nat).push(d) + before.reverse() =~= decimal_text(
                (rest / 10) as nat,
            ) + (seq![d] + before.reverse()));
        }
        rest = rest / 10;
    }
    let mut s = String::new();
    s.push(digit(rest));
    let mut i: usize = low.len();
    while i > 0
        invariant
            i <= low.len(),
            s@ == decimal_text(rest as nat) + low@.reverse().subrange(0, low.len() - i),
        decreases i,
    {
        i -= 1;
        s.push(low[i]);
        assert(s@ =~= decimal_text(rest as nat) + low@.reverse().subrange(0, low.len() - i));
    }
    assert(low@.reverse().subrange(0, low.len() as int) =~= low@.reverse());
    s
}

/// Index of the first line feed in `s`, or `s.len()` where it has none.
pub open spec fn first_newline(s: Seq<char>) -> int
    decreases s.len(),
{
    if s.len() == 0 {
        0
    } else if s[0] == '\n' {
        0
    } else {
        1 + first_newline(s.drop_first())
    }
}

/// `line` without the carriage return that ends it, if one does.
pub open spec fn without_cr(line: Seq<char>) -> Seq<char> {
    if line.len() > 0 && line.last() == '\r' {
        line.drop_last()
    } else {
        line
    }
}

/// The lines of a text. A line ends at a line feed, or at a carriage return
/// directly followed by one, and neither belongs to the line. A last line that
/// no line feed ends is kept as it is, unless it is empty.
pub open spec fn lines_of(s: Seq<char>) -> Seq<Seq<char>>
    decreases s.len(),
{
    let i = first_newline(s);
    if s.len() == 0 {
        Seq::empty()
    } else if !(0 <= i < s.len()) {
        seq![s]
    } else {
        seq![without_cr(s.subrange(0, i))] + lines_of(s.subrange(i + 1, s.len() as int))
    }
}

/// `lines` written one after another with a line feed between two of them.
pub open spec fn join_lines(lines: Seq<Seq<char>>) -> Seq<char>
    decreases lines.len(),
{
    if lines.len() == 0 {
        Seq::empty()
    } else if lines.len() == 1 {
        lines[0]
    } else {
        join_lines(lines.drop_last()) + seq!['\n'] + lines.last()
    }
}

/// Whether the text holds no line feed.
pub open spec fn has_no_newline(s: Seq<char>) -> bool {
    forall|i: int| 0 <= i < s.len() ==> s[i] != '\n'
}

proof fn lemma_first_newline_bounds(s: Seq<char>)
    ensures
        0 <= first_newline(s) <= s.len(),
        first_newline(s) < s.len() ==> s[first_newline(s)] == '\n',
        has_no_newline(s) ==> first_newline(s) == s.len(),
    decreases s.len(),
{
    if s.len() > 0 && s[0] != '\n' {
        lemma_first_newline_bounds(s.drop_first());
        if has_no_newline(s) {
            assert forall|i: int| 0 <= i < s.drop_first().len() implies s.drop_first()[i]
                != '\n' by {
                assert(s.drop_first()[i] == s[i + 1]);
            }
        }
    }
}

proof fn lemma_first_newline_after(head: Seq<char>, tail: Seq<char>)
    requires
        has_no_newline(head),
    ensures
        first_newline(head + tail) == head.len() + first_newline(tail),
    decreases head.len(),
{
    if head.len() == 0 {
        assert(head + tail =~= tail);
    } else {
        let rest = head.drop_first();
        assert((head + tail)[0] == head[0]);
        assert((head + tail).drop_first() =~= rest + tail);
        assert forall|i: int| 0 <= i < rest.len() implies rest[i] != '\n' by {
            assert(rest[i] == head[i + 1]);
        }
        lemma_first_newline_after(rest, tail);
    }
}

/// A text whose first line feed comes after `head` starts with the line `head`.
pub proof fn lemma_lines_after_newline(head: Seq<char>, tail: Seq<char>)
    requires
        has_no_newline(head),
    ensures
        lines_of(head + seq!['\n'] + tail) == seq![without_cr(head)] + lines_of(tail),
{
    let s = head + seq!['\n'] + tail;
    assert(s =~= head + (seq!['\n'] + tail));
    lemma_first_newline_after(head, seq!['\n'] + tail);
    assert(first_newline(seq!['\n'] + tail) == 0);
    assert(s.subrange(0, head.len() as int) =~= head);
    assert(s.subrange(head.len() as int + 1, s.len() as int) =~= tail);
}

/// A text without line feeds is one line, or none where it is empty.
pub proof fn lemma_lines_of_last(s: Seq<char>)
    requires
        has_no_newline(s),
    ensures
        lines_of(s) == if s.len() == 0 {
            Seq::<Seq<char>>::empty()
        } else {
            seq![s]
        },
{
    lemma_first_newline_bounds(s);
}

/// Splits a text into its lines.
pub fn split_lines(text: &str) -> (lines: Vec<String>)
    ensures
        texts_of(lines@) == lines_of(text@),
{
    let mut lines: Vec<String> = Vec::new();
    let mut current = String::new();
    // A carriage return was read and is not yet part of `current`.
    let mut held_cr = false;
    let mut it = text.chars();
    assert(texts_of(lines@) =~= Seq::<Seq<char>>::empty());
    assert(Seq::<char>::empty() + it.remaining() =~= text@);
    loop
        invariant
            it.decrease() is Some,
            has_no_newline(current@),
            !held_cr ==> (current@.len() == 0 || current@.last() != '\r'),
            lines_of(text@) == texts_of(lines@) + lines_of(
                current@ + (if held_cr {
                    seq!['\r']
                } else {
                    Seq::empty()
                }) + it.remaining(),
            ),
        decreases it.decrease()->0,
    {
        let ghost rest = it.remaining();
        let ghost done = texts_of(lines@);
        let ghost open = current@ + (if held_cr {
            seq!['\r']
        } else {
            Seq::empty()
        });
        match it.next() {
            None => {
                assert(rest.len() == 0);
                assert(open + rest =~= open);
                if held_cr {
                    current.push('\r');
                }
                assert(current@ =~= open);
                proof {
                    lemma_lines_of_last(open);
                }
                if current.as_str().unicode_len() > 0 {
                    lines.push(current);
                    assert(texts_of(lines@) =~= done + seq![open]);
                }
                return lines;
            },
            Some(c) => {
                assert(rest =~= seq![c] + it.remaining());
                if c == '\n' {
                    proof {
                        lemma_lines_after_newline(open, it.remaining());
                        assert(open + rest =~= open + seq!['\n'] + it.remaining());
                        assert(without_cr(open) =~= current@);
                    }
                    lines.push(current);
                    current = String::new();
                    held_cr = false;
                    assert(texts_of(lines@) =~= done + seq![without_cr(open)]);
                    assert(current@ + Seq::<char>::empty() + it.remaining() =~= it.remaining());
                } else {
                    if held_cr {
                        current.push('\r');
                    }
                    assert(current@ =~= open);
                    if c == '\r' {
                        held_cr = true;
                        assert(open + rest =~= current@ + seq!['\r'] + it.remaining());
                    } else {
                        held_cr = false;
                        current.push(c);
                        assert(open + rest =~= current@ + Seq::<char>::empty() + it.remaining());
                    }
                }
            },
        }
    }
}

/// Joins the lines `lines[start..end]` with line feeds.
pub fn join_range(lines: &Vec<String>, start: usize, end: usize) -> (joined: String)
    requires
        start <= end <= lines.len(),
    ensures
        joined@ == join_lines(texts_of(lines@).subrange(start as int, end as int)),
{
    let mut joined = String::new();
    let mut i: usize = start;
    while i < end
        invariant
            start <= i <= end <= lines.len(),
            joined@ == join_lines(texts_of(lines@).subrange(start as int, i as int)),
        decreases end - i,
    {
        let ghost before = texts_of(lines@).subrange(start as int, i as int);
        let ghost after = texts_of(lines@).subrange(start as int, i + 1);
        assert(after.drop_last() =~= before);
        assert(after.last() == lines@[i as int]@);
        if i > start {
            joined.push('\n');
        }
        joined.append(lines[i].as_str());
        assert(joined@ =~= join_lines(after));
        i += 1;
    }
    joined
}

/// What `str::to_lowercase` returns for a text: its lowercase form, as the
/// Unicode character tables define it.
pub uninterp spec fn lowercase_of(text: Seq<char>) -> Seq<char>;

/// Calls `str::to_lowercase`. Nothing is proved of the call: the result is
/// only given its name, `lowercase_of`.
#[verifier::external_body]
pub(crate) fn to_lowercase(text: &str) -> (lower: String)
    ensures
        lower@ == lowercase_of(text@),
{
    text.to_lowercase()
}

/// Tells whether two texts are the same, character by character.
pub fn same_text(a: &str, b: &str) -> (same: bool)
    ensures
        same == (a@ == b@),
{
    a.to_owned() == b.to_owned()
}

} // verus!
