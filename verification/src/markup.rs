//! The markup of a drawing without the element that wraps it.

use vstd::prelude::*;

verus! {

/// How many characters of a text stand before its first line feed.
pub open spec fn line_len(text: Seq<char>) -> nat
    decreases text.len(),
{
    if text.len() == 0 || text[0] == '\n' {
        0
    } else {
        1 + line_len(text.drop_first())
    }
}

/// A line without the carriage return that it ends with, if it ends with one.
pub open spec fn without_return(line: Seq<char>) -> Seq<char> {
    if line.len() > 0 && line.last() == '\r' {
        line.drop_last()
    } else {
        line
    }
}

/// The lines of a text. A line ends at a line feed, or at a carriage
/// return that a line feed follows; its ending is no part of the line.
/// What stands after the last line feed is a line too, unless it is empty.
pub open spec fn lines_of(text: Seq<char>) -> Seq<Seq<char>>
    decreases text.len(),
{
    if text.len() == 0 {
        Seq::empty()
    } else if line_len(text) >= text.len() {
        seq![text]
    } else {
        seq![without_return(text.take(line_len(text) as int))] + lines_of(
            text.skip(line_len(text) as int + 1),
        )
    }
}

/// Whether `pattern` occurs somewhere in `text`.
pub open spec fn contains_text(text: Seq<char>, pattern: Seq<char>) -> bool {
    exists|i: int|
        0 <= i <= text.len() - pattern.len() && #[trigger] text.subrange(i, i + pattern.len())
            == pattern
}

/// `str::lines`, each line copied into a string of its own: the result
/// holds the lines of the text in order. Lines end at `\n` or `\r\n`, a
/// bare `\r` ends none, and the endings are left out; an ending at the
/// end of the text opens no further line.
#[verifier::external_body]
fn split_lines(text: &str) -> (lines: Vec<String>)
    ensures
        lines.deep_view() == lines_of(text@),
{
    text.lines().map(String::from).collect()
}

/// The characters of a text, one by one.
fn chars_of(text: &str) -> (r: Vec<char>)
    ensures
        r@ == text@,
{
    let mut out: Vec<char> = Vec::new();
    for c in it: text.chars()
        invariant
            it.seq() == text@,
            out@ == it.seq().take(it.index()),
    {
        out.push(c);
    }
    out
}

/// Whether `pattern` stands in `text` at position `at`.
fn stands_at(text: &Vec<char>, pattern: &Vec<char>, at: usize) -> (r: bool)
    requires
        at + pattern.len() <= text.len(),
    ensures
        r == (text@.subrange(at as int, at + pattern.len()) == pattern@),
{
    let ghost part = text@.subrange(at as int, at + pattern.len());
    let mut k: usize = 0;
    while k < pattern.len()
        invariant
            at + pattern.len() <= text.len(),
            part == text@.subrange(at as int, at + pattern.len()),
            k <= pattern.len(),
            forall|j: int| 0 <= j < k ==> part[j] == pattern@[j],
        decreases pattern.len() - k,
    {
        if text[at + k] != pattern[k] {
            assert(part[k as int] != pattern@[k as int]);
            return false;
        }
        k += 1;
    }
    assert(part =~= pattern@);
    true
}

/// Whether `pattern` occurs somewhere in the characters of `text`.
pub fn occurs_in(text: &Vec<char>, pattern: &Vec<char>) -> (found: bool)
    ensures
        found == contains_text(text@, pattern@),
{
    if pattern.len() > text.len() {
        return false;
    }
    let last = text.len() - pattern.len();
    let mut at: usize = 0;
    loop
        invariant
            last == text.len() - pattern.len(),
            at <= last,
            forall|i: int|
                0 <= i < at ==> #[trigger] text@.subrange(i, i + pattern.len()) != pattern@,
        decreases last - at,
    {
        if stands_at(text, pattern, at) {
            return true;
        }
        if at == last {
            return false;
        }
        at += 1;
    }
}

/// Whether `pattern` occurs somewhere in `text`.
pub fn has_text(text: &str, pattern: &str) -> (found: bool)
    ensures
        found == contains_text(text@, pattern@),
{
    let characters = chars_of(text);
    let wanted = chars_of(pattern);
    occurs_in(&characters, &wanted)
}

/// Whether a line opens or closes the element that wraps a drawing.
pub open spec fn is_wrapper_line(line: Seq<char>) -> bool {
    contains_text(line, "<svg"@) || contains_text(line, "</svg>"@)
}

/// The lines that neither open nor close the wrapping element, in order.
pub open spec fn kept_lines(lines: Seq<Seq<char>>) -> Seq<Seq<char>>
    decreases lines.len(),
{
    if lines.len() == 0 {
        Seq::empty()
    } else if is_wrapper_line(lines.last()) {
        kept_lines(lines.drop_last())
    } else {
        kept_lines(lines.drop_last()).push(lines.last())
    }
}

/// The lines written one after the other, with a line feed between
/// each two of them.
pub open spec fn joined(lines: Seq<Seq<char>>) -> Seq<char>
    decreases lines.len(),
{
    if lines.len() == 0 {
        Seq::empty()
    } else if lines.len() == 1 {
        lines[0]
    } else {
        joined(lines.drop_last()) + "\n"@ + lines.last()
    }
}

/// What a document draws, without the lines of the element that wraps it.
pub open spec fn inner_markup_of(document: Seq<char>) -> Seq<char> {
    joined(kept_lines(lines_of(document)))
}

/// Joins the lines that neither open nor close the wrapping element.
pub fn join_kept_lines(lines: &Vec<String>) -> (r: String)
    ensures
        r@ == joined(kept_lines(lines.deep_view())),
{
    let ghost all = lines.deep_view();
    let opening = chars_of("<svg");
    let closing = chars_of("</svg>");
    let mut inner = String::new();
    let mut any = false;
    let mut i: usize = 0;
    assert(all.take(0) =~= Seq::empty());
    while i < lines.len()
        invariant
            i <= lines.len(),
            all == lines.deep_view(),
            opening@ == "<svg"@,
            closing@ == "</svg>"@,
            any == (kept_lines(all.take(i as int)).len() > 0),
            inner@ == joined(kept_lines(all.take(i as int))),
        decreases lines.len() - i,
    {
        let line = lines[i].as_str();
        let characters = chars_of(line);
        let ghost before = kept_lines(all.take(i as int));
        assert(all.take(i + 1).drop_last() =~= all.take(i as int));
        assert(all.take(i + 1).last() == line@);
        if !occurs_in(&characters, &opening) && !occurs_in(&characters, &closing) {
            if any {
                inner.append("\n");
            }
            inner.append(line);
            any = true;
            assert(before.push(line@).drop_last() =~= before);
            assert(inner@ =~= joined(before.push(line@)));
        }
        i += 1;
    }
    assert(all.take(i as int) =~= all);
    inner
}

/// Takes the lines that open and close the wrapping element out of the
/// markup of a drawing.
pub fn inner_markup(document: &str) -> (r: String)
    ensures
        r@ == inner_markup_of(document@),
{
    let lines = split_lines(document);
    join_kept_lines(&lines)
}

} // verus!
