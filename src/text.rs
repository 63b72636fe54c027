//! Lines of a text and the padding of a line to a width.

use vstd::prelude::*;
use vstd::string::*;

verus! {

/// A line with one carriage return taken off its end, if it has one.
pub open spec fn strip_cr(line: Seq<char>) -> Seq<char> {
    if line.len() > 0 && line.last() == '\r' {
        line.drop_last()
    } else {
        line
    }
}

/// The lines of `rest` when `cur` holds the characters of the line read so far.
pub open spec fn lines_from(rest: Seq<char>, cur: Seq<char>) -> Seq<Seq<char>>
    decreases rest.len(),
{
    if rest.len() == 0 {
        if cur.len() == 0 {
            seq![]
        } else {
            seq![cur]
        }
    } else if rest[0] == '\n' {
        seq![strip_cr(cur)] + lines_from(rest.skip(1), seq![])
    } else {
        lines_from(rest.skip(1), cur.push(rest[0]))
    }
}

/// The lines of a text: it is split after each line feed, a line feed ends its line
/// together with one carriage return before it, and a last line with no line feed
/// counts only when it is not empty.
pub open spec fn lines_of(text: Seq<char>) -> Seq<Seq<char>> {
    lines_from(text, seq![])
}

/// The views of a sequence of strings.
pub open spec fn texts(v: Seq<String>) -> Seq<Seq<char>> {
    v.map_values(|s: String| s@)
}

/// The number of terminal columns that a string takes up, by the Unicode width
/// tables that the padding relies on.
pub uninterp spec fn display_width(s: Seq<char>) -> nat;

/// `n` spaces.
pub open spec fn spaces(n: nat) -> Seq<char> {
    Seq::new(n, |i: int| ' ')
}

/// `s` followed by spaces up to `width` columns; unchanged when it already takes
/// up that many.
pub open spec fn padded(s: Seq<char>, width: nat) -> Seq<char> {
    if display_width(s) < width {
        s + spaces((width - display_width(s)) as nat)
    } else {
        s
    }
}

/// The character count of the longest line, 0 when there is none.
pub open spec fn longest(lines: Seq<Seq<char>>) -> nat
    decreases lines.len(),
{
    if lines.len() == 0 {
        0
    } else {
        let rest = longest(lines.drop_last());
        if lines.last().len() > rest {
            lines.last().len()
        } else {
            rest
        }
    }
}

/// No line is longer than the longest.
pub proof fn lemma_longest_is_max(lines: Seq<Seq<char>>, k: int)
    requires
        0 <= k < lines.len(),
    ensures
        lines[k].len() <= longest(lines),
    decreases lines.len(),
{
    if k < lines.len() - 1 {
        lemma_longest_is_max(lines.drop_last(), k);
    }
}

/// A text has at most as many lines as characters.
pub proof fn lemma_line_count(rest: Seq<char>, cur: Seq<char>)
    ensures
        lines_from(rest, cur).len() <= rest.len() + if cur.len() > 0 { 1int } else { 0int },
    decreases rest.len(),
{
    if rest.len() > 0 {
        if rest[0] == '\n' {
            lemma_line_count(rest.skip(1), seq![]);
        } else {
            lemma_line_count(rest.skip(1), cur.push(rest[0]));
        }
    }
}

/// Relies on std's `str::lines`: line feeds end lines, a carriage return right
/// before one goes with it, and a final line feed opens no empty line.
#[verifier::external_body]
fn std_lines(text: &str) -> (r: Vec<String>)
    ensures
        texts(r@) == lines_of(text@),
{
    text.lines().map(|l| l.to_string()).collect()
}

/// The lines of `text`.
pub fn split_lines(text: &str) -> (r: Vec<String>)
    ensures
        texts(r@) == lines_of(text@),
{
    std_lines(text)
}

/// Relies on pad's `PadStr::pad_to_width`: spaces on the right up to `width`
/// display columns, no truncation.
#[verifier::external_body]
fn pad_to_width(s: &str, width: usize) -> (r: String)
    ensures
        display_width(s@) < width ==> r@ == s@ + spaces((width - display_width(s@)) as nat),
        display_width(s@) >= width ==> r@ == s@,
{
    pad::PadStr::pad_to_width(s, width)
}

/// `line` padded on the right with spaces to `width` display columns.
pub fn pad_line(line: &String, width: usize) -> (r: String)
    ensures
        r@ == padded(line@, width as nat),
{
    pad_to_width(line.as_str(), width)
}

/// The character count of the longest of `lines`.
pub fn longest_line(lines: &Vec<String>) -> (r: usize)
    ensures
        r == longest(texts(lines@)),
{
    let mut m: usize = 0;
    let mut k: usize = 0;
    while k < lines.len()
        invariant
            k <= lines@.len(),
            m == longest(texts(lines@.take(k as int))),
        decreases lines@.len() - k,
    {
        let n = lines[k].as_str().unicode_len();
        proof {
            let t = texts(lines@.take(k as int + 1));
            assert(t.drop_last() =~= texts(lines@.take(k as int)));
            assert(t.last() == lines@[k as int]@);
        }
        if n > m {
            m = n;
        }
        k = k + 1;
    }
    assert(lines@.take(k as int) =~= lines@);
    m
}

} // verus!
