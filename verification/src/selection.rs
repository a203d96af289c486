//! Selections of lines and characters, and the text operations on what they cover.

use crate::annotation::LineRange;
use crate::text::{chars_of, control, decimal, decimal_text, is_control};
use vstd::prelude::*;
use vstd::string::*;

verus! {

/// The text of a reference to lines of a file: `path:line`, or `path:first-last`, whichever end
/// comes first.
pub open spec fn line_reference(path: Seq<char>, start: int, end: int) -> Seq<char> {
    let (lo, hi) = if start <= end {
        (start, end)
    } else {
        (end, start)
    };
    if lo == hi {
        path + seq![':'] + decimal(lo as nat)
    } else {
        path + seq![':'] + decimal(lo as nat) + seq!['-'] + decimal(hi as nat)
    }
}

/// Formats a reference to lines of a file.
pub fn format_line_reference(rel_path: &str, start: usize, end: usize) -> (r: String)
    ensures
        r@ == line_reference(rel_path@, start as int, end as int),
{
    let (lo, hi): (usize, usize) = if start <= end {
        (start, end)
    } else {
        (end, start)
    };
    let mut out = rel_path.to_owned();
    out.push(':');
    out.append(decimal_text(lo).as_str());
    if lo != hi {
        out.push('-');
        out.append(decimal_text(hi).as_str());
    }
    assert(out@ =~= line_reference(rel_path@, start as int, end as int));
    out
}

/// A selection reads the same whichever way it was made.
pub proof fn references_ignore_direction(path: Seq<char>, start: int, end: int)
    ensures
        line_reference(path, start, end) == line_reference(path, end, start),
{
}

/// The number of spaces that a text starts with.
pub open spec fn padding(text: Seq<char>) -> int
    decreases text.len(),
{
    if text.len() > 0 && text[0] == ' ' {
        1 + padding(text.skip(1))
    } else {
        0
    }
}

/// The index after the separators that follow a line number at `at`: one space, then a bar with
/// one space of its own. `at` itself where there is neither.
pub open spec fn after_separator(text: Seq<char>, at: int) -> int {
    let spaced = if at < text.len() && text[at] == ' ' {
        at + 1
    } else {
        at
    };
    if spaced < text.len() && (text[spaced] == '\u{2502}' || text[spaced] == '|') {
        if spaced + 1 < text.len() && text[spaced + 1] == ' ' {
            spaced + 2
        } else {
            spaced + 1
        }
    } else {
        spaced
    }
}

/// The width of the line-number gutter of a displayed line: padding, the number `n` of the line,
/// and a separator. 0 where the line does not start that way.
pub open spec fn gutter_width(text: Seq<char>, n: int) -> int {
    let pad = padding(text);
    let end = pad + decimal(n as nat).len();
    if end <= text.len() && text.subrange(pad, end) == decimal(n as nat) && after_separator(text, end)
        > end {
        after_separator(text, end)
    } else {
        0
    }
}

/// The padding of a text that starts with `n` spaces and goes on otherwise.
proof fn lemma_padding(text: Seq<char>, n: int)
    requires
        0 <= n <= text.len(),
        forall|k: int| 0 <= k < n ==> text[k] == ' ',
        n == text.len() || text[n] != ' ',
    ensures
        padding(text) == n,
    decreases n,
{
    if n > 0 {
        lemma_padding(text.skip(1), n - 1);
    }
}

/// The width of the line-number gutter of a displayed line.
pub fn gutter_of(chars: &Vec<char>, n: usize) -> (r: usize)
    ensures
        r == gutter_width(chars@, n as int),
        r <= chars@.len(),
{
    let mut pad: usize = 0;
    while pad < chars.len() && chars[pad] == ' '
        invariant
            pad <= chars@.len(),
            forall|k: int| 0 <= k < pad ==> chars@[k] == ' ',
        decreases chars.len() - pad,
    {
        pad += 1;
    }
    proof {
        lemma_padding(chars@, pad as int);
    }
    let number = chars_of(decimal_text(n).as_str());
    if number.len() > chars.len() - pad {
        return 0;
    }
    let end: usize = pad + number.len();
    for i in 0..number.len()
        invariant
            end == pad + number@.len(),
            end <= chars@.len(),
            number@ == decimal(n as nat),
            pad == padding(chars@),
            forall|k: int| 0 <= k < i ==> chars@[pad + k] == number@[k],
    {
        if chars[pad + i] != number[i] {
            assert(chars@.subrange(pad as int, end as int)[i as int] != number@[i as int]);
            return 0;
        }
    }
    assert(chars@.subrange(pad as int, end as int) =~= number@);
    let mut at: usize = end;
    if at < chars.len() && chars[at] == ' ' {
        at += 1;
    }
    if at < chars.len() && (chars[at] == '\u{2502}' || chars[at] == '|') {
        at += 1;
        if at < chars.len() && chars[at] == ' ' {
            at += 1;
        }
    }
    if at > end {
        at
    } else {
        0
    }
}

/// Removes the line-number gutter from a displayed line, where it shows the number `n`. A line
/// without that number, or without a separator after it, stays as it is.
pub fn strip_line_gutter(plain: &str, n: usize) -> (r: &str)
    ensures
        r@ == plain@.skip(gutter_width(plain@, n as int)),
{
    let chars = chars_of(plain);
    let width: usize = gutter_of(&chars, n);
    let rest = plain.substring_char(width, chars.len());
    assert(rest@ =~= plain@.skip(width as int));
    rest
}

/// A text without control characters, except tabs.
pub open spec fn printable(text: Seq<char>) -> Seq<char> {
    text.filter(|c: char| !control(c) || c == '\t')
}

/// Drops control characters from a line, except tabs.
pub fn filter_control_keep_tabs(s: &str) -> (r: String)
    ensures
        r@ == printable(s@),
{
    let chars = chars_of(s);
    let mut out = String::new();
    let ghost keep = |c: char| !control(c) || c == '\t';
    proof {
        reveal(Seq::filter);
        assert(chars@.take(0) =~= Seq::empty());
    }
    for i in 0..chars.len()
        invariant
            keep == (|c: char| !control(c) || c == '\t'),
            out@ == chars@.take(i as int).filter(keep),
    {
        let c = chars[i];
        proof {
            reveal(Seq::filter);
            assert(chars@.take(i + 1).drop_last() =~= chars@.take(i as int));
            assert(chars@.take(i + 1).last() == c);
        }
        if !is_control(c) || c == '\t' {
            out.push(c);
        }
    }
    assert(chars@.take(chars@.len() as int) =~= chars@);
    out
}

/// A text without control characters.
pub open spec fn sanitized(text: Seq<char>) -> Seq<char> {
    text.filter(|c: char| !control(c))
}

/// Drops every control character from a text.
pub fn sanitize_control(s: &str) -> (r: String)
    ensures
        r@ == sanitized(s@),
{
    let chars = chars_of(s);
    let mut out = String::new();
    let ghost keep = |c: char| !control(c);
    proof {
        reveal(Seq::filter);
        assert(chars@.take(0) =~= Seq::empty());
    }
    for i in 0..chars.len()
        invariant
            keep == (|c: char| !control(c)),
            out@ == chars@.take(i as int).filter(keep),
    {
        let c = chars[i];
        proof {
            reveal(Seq::filter);
            assert(chars@.take(i + 1).drop_last() =~= chars@.take(i as int));
            assert(chars@.take(i + 1).last() == c);
        }
        if !is_control(c) {
            out.push(c);
        }
    }
    assert(chars@.take(chars@.len() as int) =~= chars@);
    out
}

/// No control character reaches the clipboard or a notice through a sanitized text.
pub proof fn sanitized_text_has_no_control_characters(text: Seq<char>, i: int)
    requires
        0 <= i < sanitized(text).len(),
    ensures
        !control(sanitized(text)[i]),
{
    text.lemma_filter_pred(|c: char| !control(c), i);
}

/// The caret that a column of a line stands for: one column per character, at most the end of the
/// line.
pub fn char_index_at_col(s: &str, col: usize) -> (r: usize)
    ensures
        r == if col < s@.len() {
            col as nat
        } else {
            s@.len()
        },
{
    let len: usize = s.unicode_len();
    if col < len {
        col
    } else {
        len
    }
}

/// A selection in the content pane. `anchor` is the line where it started, `marker` the line of
/// its other end, both from 1. While `char_mode` holds, the columns are carets in those lines and
/// the selection covers the characters between them; otherwise it covers whole lines.
#[derive(Debug, Clone, Copy, PartialEq, Eq, Structural)]
pub struct LineSelectState {
    pub anchor: usize,
    pub marker: usize,
    pub anchor_col: usize,
    pub marker_col: usize,
    pub char_mode: bool,
}

/// A line number kept between 1 and `last`.
pub open spec fn clamped_line(line: usize, last: usize) -> usize {
    let low = if line < 1 {
        1
    } else {
        line
    };
    let high = if last < 1 {
        1
    } else {
        last
    };
    if low > high {
        high
    } else {
        low
    }
}

/// The pair `a` does not come after the pair `b`.
pub open spec fn pair_le(a: (usize, usize), b: (usize, usize)) -> bool {
    a.0 < b.0 || (a.0 == b.0 && a.1 <= b.1)
}

impl LineSelectState {
    /// A selection of one whole line.
    pub open spec fn on_line(line: usize) -> Self {
        LineSelectState {
            anchor: line,
            marker: line,
            anchor_col: 0,
            marker_col: 0,
            char_mode: false,
        }
    }

    /// A selection of no character, at a caret.
    pub open spec fn at_caret(line: usize, col: usize, last: usize) -> Self {
        let l = clamped_line(line, last);
        LineSelectState { anchor: l, marker: l, anchor_col: col, marker_col: col, char_mode: true }
    }

    /// The selection with its other end moved to a caret.
    pub open spec fn dragged(self, line: usize, col: usize, last: usize) -> Self {
        LineSelectState {
            marker: clamped_line(line, last),
            marker_col: col,
            char_mode: true,
            ..self
        }
    }

    /// The selection of the line that the marker moves to.
    pub open spec fn moved(self, line: usize, last: usize) -> Self {
        LineSelectState {
            marker: clamped_line(line, last),
            anchor: clamped_line(line, last),
            char_mode: false,
            ..self
        }
    }

    /// The selection of the lines up to the one that the marker moves to.
    pub open spec fn extended(self, line: usize, last: usize) -> Self {
        LineSelectState { marker: clamped_line(line, last), char_mode: false, ..self }
    }

    /// The lines that the selection covers, in order.
    pub open spec fn line_span(self) -> (usize, usize) {
        if self.anchor <= self.marker {
            (self.anchor, self.marker)
        } else {
            (self.marker, self.anchor)
        }
    }

    /// The carets between which the selection lies, in order.
    pub open spec fn caret_span(self) -> ((usize, usize), (usize, usize)) {
        let (a, m) = ((self.anchor, self.anchor_col), (self.marker, self.marker_col));
        if pair_le(a, m) {
            (a, m)
        } else {
            (m, a)
        }
    }

    /// A selection of one whole line.
    pub fn new(line: usize) -> (r: Self)
        ensures
            r == Self::on_line(line),
    {
        LineSelectState {
            anchor: line,
            marker: line,
            anchor_col: 0,
            marker_col: 0,
            char_mode: false,
        }
    }

    /// Starts a selection of characters at a caret.
    pub fn begin_char(&mut self, line: usize, col: usize, last: usize)
        ensures
            *final(self) == Self::at_caret(line, col, last),
    {
        let l: usize = Self::clamp(line, last);
        self.anchor = l;
        self.marker = l;
        self.anchor_col = col;
        self.marker_col = col;
        self.char_mode = true;
    }

    /// Moves the other end of a selection of characters.
    pub fn drag_char(&mut self, line: usize, col: usize, last: usize)
        ensures
            *final(self) == old(self).dragged(line, col, last),
    {
        self.marker = Self::clamp(line, last);
        self.marker_col = col;
        self.char_mode = true;
    }

    /// Whether the selection covers characters.
    pub fn is_char_mode(&self) -> (r: bool)
        ensures
            r == self.char_mode,
    {
        self.char_mode
    }

    /// The carets between which the selection lies, in order.
    pub fn char_span(&self) -> (r: ((usize, usize), (usize, usize)))
        ensures
            r == self.caret_span(),
            pair_le(r.0, r.1),
    {
        let (a, m) = ((self.anchor, self.anchor_col), (self.marker, self.marker_col));
        if self.anchor < self.marker || (self.anchor == self.marker && self.anchor_col
            <= self.marker_col) {
            (a, m)
        } else {
            (m, a)
        }
    }

    /// Moves the marker and selects its line alone.
    pub fn move_to(&mut self, line: usize, last: usize)
        ensures
            *final(self) == old(self).moved(line, last),
    {
        self.marker = Self::clamp(line, last);
        self.anchor = self.marker;
        self.char_mode = false;
    }

    /// Moves the marker and keeps the anchor.
    pub fn extend_to(&mut self, line: usize, last: usize)
        ensures
            *final(self) == old(self).extended(line, last),
    {
        self.marker = Self::clamp(line, last);
        self.char_mode = false;
    }

    /// The marker's line.
    pub fn marker(&self) -> (r: usize)
        ensures
            r == self.marker,
    {
        self.marker
    }

    /// The lines that the selection covers, in order.
    pub fn selection(&self) -> (r: (usize, usize))
        ensures
            r == self.line_span(),
            r.0 <= r.1,
    {
        if self.anchor <= self.marker {
            (self.anchor, self.marker)
        } else {
            (self.marker, self.anchor)
        }
    }

    fn clamp(line: usize, last: usize) -> (r: usize)
        ensures
            r == clamped_line(line, last),
    {
        let low: usize = if line < 1 { 1 } else { line };
        let high: usize = if last < 1 { 1 } else { last };
        if low > high {
            high
        } else {
            low
        }
    }
}

/// Whatever moves a selection, its marker stays on a line of the file.
pub proof fn markers_stay_in_the_file(
    state: LineSelectState,
    line: usize,
    col: usize,
    last: usize,
)
    requires
        last >= 1,
    ensures
        1 <= state.moved(line, last).marker <= last,
        1 <= state.extended(line, last).marker <= last,
        1 <= state.dragged(line, col, last).marker <= last,
        1 <= LineSelectState::at_caret(line, col, last).marker <= last,
{
}

/// A drag selects the same characters in either direction.
pub proof fn drags_select_alike_in_both_directions(
    a: (usize, usize),
    b: (usize, usize),
    last: usize,
)
    requires
        1 <= a.0 <= last,
        1 <= b.0 <= last,
    ensures
        LineSelectState::at_caret(a.0, a.1, last).dragged(b.0, b.1, last).caret_span()
            == LineSelectState::at_caret(b.0, b.1, last).dragged(a.0, a.1, last).caret_span(),
{
}

/// A line lies in one of the ranges.
pub open spec fn covered(ranges: Seq<LineRange>, line: int) -> bool {
    exists|i: int| #[trigger] covers(ranges, i, line)
}

/// A line lies in range `i`.
pub open spec fn covers(ranges: Seq<LineRange>, i: int, line: int) -> bool {
    0 <= i < ranges.len() && ranges[i].from_line() <= line <= ranges[i].to_line()
}

/// The ranges come in order, with at least one line between each two.
pub open spec fn separated(ranges: Seq<LineRange>) -> bool {
    forall|i: int, j: int|
        0 <= i < j < ranges.len() ==> (#[trigger] ranges[i]).to_line() + 1 < (
        #[trigger] ranges[j]).from_line()
}

/// The ranges come in the order of their starts.
spec fn by_start(ranges: Seq<LineRange>) -> bool {
    forall|i: int, j: int|
        0 <= i < j < ranges.len() ==> (#[trigger] ranges[i]).from_line() <= (
        #[trigger] ranges[j]).from_line()
}

/// Sorts ranges by their starts.
fn sort_ranges(ranges: Vec<LineRange>) -> (r: Vec<LineRange>)
    ensures
        by_start(r@),
        forall|line: int| covered(r@, line) <==> covered(ranges@, line),
{
    let mut out: Vec<LineRange> = Vec::new();
    for i in 0..ranges.len()
        invariant
            by_start(out@),
            forall|line: int| covered(out@, line) <==> covered(ranges@.take(i as int), line),
    {
        let range = ranges[i];
        let start: usize = range.start();
        let mut at: usize = out.len();
        while at > 0 && out[at - 1].start() > start
            invariant
                at <= out@.len(),
                forall|k: int| at <= k < out@.len() ==> (#[trigger] out@[k]).from_line() > start,
            decreases at,
        {
            at -= 1;
        }
        let ghost before = out@;
        out.insert(at, range);
        proof {
            let after = out@;
            assert forall|a: int, b: int| 0 <= a < b < after.len() implies (
            #[trigger] after[a]).from_line() <= (#[trigger] after[b]).from_line() by {
                let (pa, pb) = (if a < at { a } else { a - 1 }, if b < at { b } else { b - 1 });
                if a == at {
                    assert(before[pb].from_line() > start);
                } else if b == at {
                    if pa < at - 1 {
                        assert(before[pa].from_line() <= before[at - 1].from_line());
                    }
                } else {
                    assert(before[pa].from_line() <= before[pb].from_line());
                }
            }
            let (done, more) = (ranges@.take(i as int), ranges@.take(i + 1));
            assert forall|line: int| covered(after, line) <==> covered(more, line) by {
                if covered(after, line) {
                    let k = choose|k: int| covers(after, k, line);
                    if k == at {
                        assert(covers(more, i as int, line));
                    } else {
                        let p = if k < at { k } else { k - 1 };
                        assert(covers(before, p, line));
                        assert(covered(before, line));
                        assert(covered(done, line));
                        let d = choose|d: int| covers(done, d, line);
                        assert(covers(more, d, line));
                    }
                }
                if covered(more, line) {
                    let k = choose|k: int| covers(more, k, line);
                    if k == i {
                        assert(covers(after, at as int, line));
                    } else {
                        assert(covers(done, k, line));
                        assert(covered(done, line) && covered(before, line));
                        let p = choose|p: int| covers(before, p, line);
                        assert(covers(after, if p < at { p } else { p + 1 }, line));
                    }
                }
            }
        }
    }
    assert(ranges@.take(ranges@.len() as int) =~= ranges@);
    out
}

/// Merges ranges that overlap or touch: the result covers the same lines, in order, with a gap
/// between each two ranges.
pub fn merge_line_ranges(ranges: Vec<LineRange>) -> (r: Vec<LineRange>)
    ensures
        separated(r@),
        forall|line: int| covered(r@, line) <==> covered(ranges@, line),
{
    let sorted = sort_ranges(ranges);
    let mut merged: Vec<LineRange> = Vec::new();
    for i in 0..sorted.len()
        invariant
            by_start(sorted@),
            separated(merged@),
            merged@.len() == 0 <==> i == 0,
            merged@.len() > 0 ==> merged@.last().from_line() <= sorted@[i - 1].from_line(),
            forall|line: int| covered(merged@, line) <==> covered(sorted@.take(i as int), line),
    {
        let range = sorted[i];
        let (start, end): (usize, usize) = (range.start(), range.end());
        let ghost before = merged@;
        let ghost (done, more) = (sorted@.take(i as int), sorted@.take(i + 1));
        let n: usize = merged.len();
        if i > 0 {
            assert(sorted@[i - 1].from_line() <= range.from_line());
        }
        if n > 0 && (merged[n - 1].end() == usize::MAX || start <= merged[n - 1].end() + 1) {
            let current = merged[n - 1];
            let last: usize = if current.end() > end { current.end() } else { end };
            let first: usize = current.start();
            match LineRange::new(first, last) {
                Ok(joined) => {
                    merged.set(n - 1, joined);
                    proof {
                        let after = merged@;
                        assert forall|a: int, b: int| 0 <= a < b < after.len() implies (
                        #[trigger] after[a]).to_line() + 1 < (#[trigger] after[b]).from_line() by {
                            assert(before[a].to_line() + 1 < before[b].from_line());
                        }
                        assert forall|line: int| covered(after, line) <==> covered(more, line) by {
                            if covered(after, line) {
                                let k = choose|k: int| covers(after, k, line);
                                if k == n - 1 && line > current.to_line() {
                                    assert(covers(more, i as int, line));
                                } else {
                                    assert(covers(before, k, line));
                                    assert(covered(before, line));
                        assert(covered(done, line));
                                    let d = choose|d: int| covers(done, d, line);
                                    assert(covers(more, d, line));
                                }
                            }
                            if covered(more, line) {
                                let k = choose|k: int| covers(more, k, line);
                                if k == i {
                                    assert(covers(after, n - 1, line));
                                } else {
                                    assert(covers(done, k, line));
                                    assert(covered(done, line) && covered(before, line));
                                    let p = choose|p: int| covers(before, p, line);
                                    assert(covers(after, p, line));
                                }
                            }
                        }
                    }
                },
                Err(_) => {
                    assert(false);
                },
            }
        } else {
            merged.push(range);
            proof {
                let after = merged@;
                assert forall|a: int, b: int| 0 <= a < b < after.len() implies (
                #[trigger] after[a]).to_line() + 1 < (#[trigger] after[b]).from_line() by {
                    if b == n {
                        if a < n - 1 {
                            assert(before[a].to_line() + 1 < before[n - 1].from_line());
                        }
                    } else {
                        assert(before[a].to_line() + 1 < before[b].from_line());
                    }
                }
                assert forall|line: int| covered(after, line) <==> covered(more, line) by {
                    if covered(after, line) {
                        let k = choose|k: int| covers(after, k, line);
                        if k == n {
                            assert(covers(more, i as int, line));
                        } else {
                            assert(covers(before, k, line));
                            assert(covered(before, line));
                        assert(covered(done, line));
                            let d = choose|d: int| covers(done, d, line);
                            assert(covers(more, d, line));
                        }
                    }
                    if covered(more, line) {
                        let k = choose|k: int| covers(more, k, line);
                        if k == i {
                            assert(covers(after, n as int, line));
                        } else {
                            assert(covers(done, k, line));
                            assert(covered(done, line) && covered(before, line));
                            let p = choose|p: int| covers(before, p, line);
                            assert(covers(after, p, line));
                        }
                    }
                }
            }
        }
    }
    assert(sorted@.take(sorted@.len() as int) =~= sorted@);
    merged
}

/// Ranges that come in order with gaps are determined by the lines that they cover.
pub proof fn separated_ranges_are_determined(a: Seq<LineRange>, b: Seq<LineRange>)
    requires
        separated(a),
        separated(b),
        forall|i: int| 0 <= i < a.len() ==> 1 <= (#[trigger] a[i]).from_line() <= a[i].to_line(),
        forall|i: int| 0 <= i < b.len() ==> 1 <= (#[trigger] b[i]).from_line() <= b[i].to_line(),
        forall|line: int| covered(a, line) <==> covered(b, line),
    ensures
        a == b,
    decreases a.len(),
{
    if a.len() == 0 {
        if b.len() > 0 {
            assert(covers(b, 0, b[0].from_line()));
            assert(covered(a, b[0].from_line()));
        }
        assert(a =~= b);
    } else {
        assert(covers(a, 0, a[0].from_line()));
        assert(covered(b, a[0].from_line()));
        lemma_first_range(a, b);
        lemma_first_range(b, a);
        a[0].same(b[0]);
        let (ra, rb) = (a.skip(1), b.skip(1));
        assert forall|line: int| covered(ra, line) <==> covered(rb, line) by {
            lemma_rest_covers(a, line);
            lemma_rest_covers(b, line);
        }
        assert(separated(ra)) by {
            assert forall|i: int, j: int| 0 <= i < j < ra.len() implies (
            #[trigger] ra[i]).to_line() + 1 < (#[trigger] ra[j]).from_line() by {
                assert(a[i + 1].to_line() + 1 < a[j + 1].from_line());
            }
        }
        assert(separated(rb)) by {
            assert forall|i: int, j: int| 0 <= i < j < rb.len() implies (
            #[trigger] rb[i]).to_line() + 1 < (#[trigger] rb[j]).from_line() by {
                assert(b[i + 1].to_line() + 1 < b[j + 1].from_line());
            }
        }
        separated_ranges_are_determined(ra, rb);
        assert(a =~= seq![a[0]] + ra);
        assert(b =~= seq![b[0]] + rb);
    }
}

/// The first range of `a` starts no earlier and ends no later than that of `b`, where both cover
/// the same lines.
proof fn lemma_first_range(a: Seq<LineRange>, b: Seq<LineRange>)
    requires
        a.len() > 0,
        separated(a),
        separated(b),
        forall|i: int| 0 <= i < a.len() ==> 1 <= (#[trigger] a[i]).from_line() <= a[i].to_line(),
        forall|i: int| 0 <= i < b.len() ==> 1 <= (#[trigger] b[i]).from_line() <= b[i].to_line(),
        forall|line: int| covered(a, line) <==> covered(b, line),
    ensures
        b.len() > 0,
        a[0].from_line() >= b[0].from_line(),
        a[0].from_line() == b[0].from_line() ==> a[0].to_line() <= b[0].to_line(),
{
    let s = a[0].from_line();
    assert(covers(a, 0, s));
    assert(covered(b, s));
    let k = choose|k: int| covers(b, k, s);
    if k > 0 {
        assert(b[0].to_line() + 1 < b[k].from_line());
    }
    if a[0].from_line() == b[0].from_line() && a[0].to_line() > b[0].to_line() {
        let line = b[0].to_line() + 1;
        assert(covers(a, 0, line));
        assert(covered(b, line));
        let m = choose|m: int| covers(b, m, line);
        if m > 0 {
            assert(b[0].to_line() + 1 < b[m].from_line());
        }
    }
}

/// The ranges after the first cover the lines that all cover, without those of the first.
proof fn lemma_rest_covers(a: Seq<LineRange>, line: int)
    requires
        a.len() > 0,
        separated(a),
        forall|i: int| 0 <= i < a.len() ==> 1 <= (#[trigger] a[i]).from_line() <= a[i].to_line(),
    ensures
        covered(a.skip(1), line) <==> covered(a, line) && !(a[0].from_line() <= line
            <= a[0].to_line()),
{
    let rest = a.skip(1);
    if covered(rest, line) {
        let k = choose|k: int| covers(rest, k, line);
        assert(covers(a, k + 1, line));
        assert(a[0].to_line() + 1 < a[k + 1].from_line());
    }
    if covered(a, line) && !(a[0].from_line() <= line <= a[0].to_line()) {
        let k = choose|k: int| covers(a, k, line);
        assert(covers(rest, k - 1, line));
    }
}

} // verus!
