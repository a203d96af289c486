//! The lines of the content pane: their text, the gutter in front of it, what a selection copies,
//! and the rows that they take.

use super::state::{Body, ContentLine, RenderResult};
use crate::selection::{
    filter_control_keep_tabs, gutter_of, gutter_width, printable,
};
use crate::text::{chars_of, texts};
use vstd::prelude::*;
use vstd::string::*;

verus! {

/// Texts one after another.
pub open spec fn flat(parts: Seq<Seq<char>>) -> Seq<char>
    decreases parts.len(),
{
    if parts.len() == 0 {
        Seq::empty()
    } else {
        flat(parts.drop_last()) + parts.last()
    }
}

/// The lines `lo` to `hi` of a text, one under another.
pub open spec fn stacked(lines: spec_fn(int) -> Seq<char>, lo: int, hi: int) -> Seq<char>
    decreases hi - lo,
{
    if lo > hi {
        Seq::empty()
    } else if lo == hi {
        lines(lo)
    } else {
        stacked(lines, lo, hi - 1).push('\n') + lines(hi)
    }
}

/// A number kept between two bounds.
pub open spec fn between(n: int, lo: int, hi: int) -> int {
    if n < lo {
        lo
    } else if n > hi {
        hi
    } else {
        n
    }
}

/// What is left of `n` after taking `m` away, at least 0.
pub open spec fn less(n: int, m: int) -> int {
    if n > m {
        n - m
    } else {
        0
    }
}

/// The smaller of two numbers.
pub open spec fn at_most(n: int, limit: int) -> int {
    if n > limit {
        limit
    } else {
        n
    }
}

/// `ratatui::text::Line::width` of a line with these pieces: the columns that it takes.
pub uninterp spec fn line_width(spans: Seq<Seq<char>>) -> nat;

/// `ratatui::text::Line::width` is a function of the line's pieces: the columns that their texts
/// take together. How many columns each character takes is left to `ratatui`.
#[verifier::external_body]
fn width_of(line: &ContentLine) -> (r: usize)
    ensures
        r == line_width(texts(line.spans@)),
{
    let spans: Vec<ratatui::text::Span> = line.spans.iter().map(|s| ratatui::text::Span::raw(s.as_str())).collect();
    ratatui::text::Line::from(spans).width()
}

impl Body {
    /// How many lines are displayed.
    pub open spec fn line_count(self) -> nat {
        match self {
            Body::Rendered(result) => result.content@.len(),
            _ => 1,
        }
    }

    /// The pieces of the displayed line `i`, from 0.
    pub open spec fn line_spans(self, i: int) -> Seq<Seq<char>> {
        match self {
            Body::Blank => seq![""@],
            Body::Rendering => seq!["Rendering\u{2026}"@],
            Body::Guidance(reason) => seq![reason.label_text()],
            Body::Rendered(result) => texts(result.content@[i].spans@),
        }
    }

    /// The text of the displayed line `i`, from 0.
    pub open spec fn line_text(self, i: int) -> Seq<char> {
        flat(self.line_spans(i))
    }

    /// The messages about the displayed lines.
    pub open spec fn messages(self) -> Seq<String> {
        match self {
            Body::Rendered(result) => result.notices@,
            _ => Seq::empty(),
        }
    }

    /// The source lines behind the displayed ones.
    pub open spec fn source_lines(self) -> Option<Seq<String>> {
        match self {
            Body::Rendered(RenderResult { source: Some(lines), .. }) => Some(lines@),
            _ => None,
        }
    }

    /// The displayed line `n`, from 1, without control characters but tabs.
    pub open spec fn shown(self, n: int) -> Seq<char> {
        printable(self.line_text(n - 1))
    }

    /// The source behind the displayed line `n`, from 1.
    pub open spec fn source_text(self, n: int) -> Option<Seq<char>> {
        match self.source_lines() {
            Some(lines) if 1 <= n <= lines.len() => Some(lines[n - 1]@),
            _ => None,
        }
    }

    /// The width of the gutter in front of the displayed line `n`, from 1. Only a line with a
    /// source has one: what precedes the source where the line ends in it, else what looks like
    /// the line's number.
    pub open spec fn gutter(self, n: int) -> int {
        match self.source_text(n) {
            None => 0,
            Some(source) => if printable(source).is_suffix_of(self.shown(n)) {
                self.shown(n).len() - printable(source).len()
            } else {
                gutter_width(self.shown(n), n)
            },
        }
    }

    /// What copying the whole line `n` gives: its source, or the displayed text where there is
    /// none.
    pub open spec fn copied_line(self, n: int) -> Seq<char> {
        match self.source_text(n) {
            Some(source) => printable(source),
            None => self.shown(n),
        }
    }

    /// What copying the lines `start` to `end` gives.
    pub open spec fn copied_lines(self, start: int, end: int) -> Seq<char> {
        if self.line_count() == 0 {
            Seq::empty()
        } else {
            stacked(
                |n: int| self.copied_line(n),
                between(start, 1, self.line_count() as int),
                between(end, 1, self.line_count() as int),
            )
        }
    }

    /// The part of line `n` that lies between the columns, counted without the gutter.
    pub open spec fn cut_line(self, n: int, from: Option<int>, to: Option<int>) -> Seq<char> {
        let code = self.shown(n).skip(self.gutter(n));
        let len = code.len() as int;
        let start = match from {
            Some(col) => at_most(less(col, self.gutter(n)), len),
            None => 0,
        };
        let end = match to {
            Some(col) => at_most(less(col, self.gutter(n)), len),
            None => len,
        };
        if start < end {
            code.subrange(start, end)
        } else {
            Seq::empty()
        }
    }

    /// What copying the characters between two carets gives. A caret is a line, from 1, and a
    /// column of the displayed line.
    pub open spec fn copied_chars(self, lo: (usize, usize), hi: (usize, usize)) -> Seq<char> {
        if self.line_count() == 0 {
            Seq::empty()
        } else {
            let first = between(lo.0 as int, 1, self.line_count() as int);
            let last = between(hi.0 as int, 1, self.line_count() as int);
            stacked(
                |n: int|
                    self.cut_line(
                        n,
                        if n == first {
                            Some(lo.1 as int)
                        } else {
                            None
                        },
                        if n == last {
                            Some(hi.1 as int)
                        } else {
                            None
                        },
                    ),
                first,
                last,
            )
        }
    }

    /// How many lines are displayed.
    pub fn len(&self) -> (r: usize)
        ensures
            r == self.line_count(),
    {
        match self {
            Body::Rendered(result) => result.content.len(),
            _ => 1,
        }
    }

    /// The text of the displayed line `i`, from 0.
    pub fn plain_line(&self, i: usize) -> (r: String)
        requires
            i < self.line_count(),
        ensures
            r@ == self.line_text(i as int),
    {
        match self {
            Body::Blank => {
                proof {
                    lemma_one_piece(""@);
                }
                "".to_owned()
            },
            Body::Rendering => {
                proof {
                    lemma_one_piece("Rendering\u{2026}"@);
                }
                "Rendering\u{2026}".to_owned()
            },
            Body::Guidance(reason) => {
                let label = reason.label();
                proof {
                    lemma_one_piece(label@);
                }
                label.to_owned()
            },
            Body::Rendered(result) => {
                let line = &result.content[i];
                let mut out = String::new();
                for k in 0..line.spans.len()
                    invariant
                        out@ == flat(texts(line.spans@).take(k as int)),
                {
                    out.append(line.spans[k].as_str());
                    proof {
                        let parts = texts(line.spans@);
                        assert(parts.take(k + 1).drop_last() =~= parts.take(k as int));
                        assert(parts.take(k + 1).last() == line.spans@[k as int]@);
                    }
                }
                assert(texts(line.spans@).take(line.spans@.len() as int) =~= texts(line.spans@));
                out
            },
        }
    }

    /// The source behind the displayed line `n`, from 1.
    pub fn source_line(&self, n: usize) -> (r: Option<&str>)
        ensures
            r is Some <==> self.source_text(n as int) is Some,
            r matches Some(text) ==> Some(text@) == self.source_text(n as int),
    {
        match self {
            Body::Rendered(RenderResult { source: Some(lines), .. }) => {
                if n >= 1 && n <= lines.len() {
                    Some(lines[n - 1].as_str())
                } else {
                    None
                }
            },
            _ => None,
        }
    }

    /// The displayed line `n`, from 1, without control characters but tabs.
    pub fn filtered_display_line(&self, n: usize) -> (r: String)
        requires
            1 <= n <= self.line_count(),
        ensures
            r@ == self.shown(n as int),
    {
        filter_control_keep_tabs(self.plain_line(n - 1).as_str())
    }

    /// The width of the gutter in front of the displayed line `n`, from 1.
    pub fn gutter_len_of(&self, n: usize) -> (r: usize)
        requires
            1 <= n <= self.line_count(),
        ensures
            r == self.gutter(n as int),
            r <= self.shown(n as int).len(),
    {
        match self.source_line(n) {
            None => 0,
            Some(text) => {
                let shown = chars_of(self.filtered_display_line(n).as_str());
                let source = chars_of(filter_control_keep_tabs(text).as_str());
                if ends_with(&shown, &source) {
                    shown.len() - source.len()
                } else {
                    gutter_of(&shown, n)
                }
            },
        }
    }

    /// The lines `start` to `end`, from 1, for the clipboard.
    pub fn selected_lines_text(&self, start: usize, end: usize) -> (r: String)
        ensures
            r@ == self.copied_lines(start as int, end as int),
    {
        let total: usize = self.len();
        let mut out = String::new();
        if total == 0 {
            return out;
        }
        let lo: usize = clamp_line(start, total);
        let hi: usize = clamp_line(end, total);
        let ghost lines = |n: int| self.copied_line(n);
        if lo > hi {
            return out;
        }
        let mut n: usize = lo;
        out = self.line_for_copy(n);
        while n < hi
            invariant
                lines == (|n: int| self.copied_line(n)),
                1 <= lo <= n <= hi <= self.line_count(),
                out@ == stacked(lines, lo as int, n as int),
            decreases hi - n,
        {
            n += 1;
            out.push('\n');
            out.append(self.line_for_copy(n).as_str());
        }
        out
    }

    /// The line `n`, from 1, for the clipboard.
    fn line_for_copy(&self, n: usize) -> (r: String)
        requires
            1 <= n <= self.line_count(),
        ensures
            r@ == self.copied_line(n as int),
    {
        match self.source_line(n) {
            Some(text) => filter_control_keep_tabs(text),
            None => self.filtered_display_line(n),
        }
    }

    /// The part of line `n` between two columns, without the gutter.
    fn piece_of(&self, n: usize, from: Option<usize>, to: Option<usize>) -> (r: String)
        requires
            1 <= n <= self.line_count(),
        ensures
            r@ == self.cut_line(
                n as int,
                match from {
                    Some(col) => Some(col as int),
                    None => None,
                },
                match to {
                    Some(col) => Some(col as int),
                    None => None,
                },
            ),
    {
        let shown = self.filtered_display_line(n);
        let gutter: usize = self.gutter_len_of(n);
        let total: usize = shown.as_str().unicode_len();
        let len: usize = total - gutter;
        let start: usize = match from {
            Some(col) => least(col.saturating_sub(gutter), len),
            None => 0,
        };
        let end: usize = match to {
            Some(col) => least(col.saturating_sub(gutter), len),
            None => len,
        };
        let ghost code = self.shown(n as int).skip(gutter as int);
        if start < end {
            let piece = shown.as_str().substring_char(gutter + start, gutter + end);
            assert(piece@ =~= code.subrange(start as int, end as int));
            piece.to_owned()
        } else {
            String::new()
        }
    }

    /// The characters between two carets, for the clipboard.
    pub fn char_selection_text(&self, lo: (usize, usize), hi: (usize, usize)) -> (r: String)
        ensures
            r@ == self.copied_chars(lo, hi),
    {
        let total: usize = self.len();
        let mut out = String::new();
        if total == 0 {
            return out;
        }
        let first: usize = clamp_line(lo.0, total);
        let last: usize = clamp_line(hi.0, total);
        if first > last {
            return out;
        }
        let ghost lines = |n: int|
            self.cut_line(
                n,
                if n == first {
                    Some(lo.1 as int)
                } else {
                    None
                },
                if n == last {
                    Some(hi.1 as int)
                } else {
                    None
                },
            );
        let mut n: usize = first;
        out = self.piece_of(
            n,
            Some(lo.1),
            if first == last {
                Some(hi.1)
            } else {
                None
            },
        );
        while n < last
            invariant
                lines == (|n: int|
                    self.cut_line(
                        n,
                        if n == first {
                            Some(lo.1 as int)
                        } else {
                            None
                        },
                        if n == last {
                            Some(hi.1 as int)
                        } else {
                            None
                        },
                    )),
                1 <= first <= n <= last <= self.line_count(),
                out@ == stacked(lines, first as int, n as int),
            decreases last - n,
        {
            n += 1;
            out.push('\n');
            out.append(
                self.piece_of(
                    n,
                    None,
                    if n == last {
                        Some(hi.1)
                    } else {
                        None
                    },
                ).as_str(),
            );
        }
        out
    }

    /// The columns of the displayed line `i`.
    pub open spec fn columns(self, i: int) -> nat {
        line_width(self.line_spans(i))
    }

    /// No displayed line takes more than `n` columns, and one takes as many, if there are any.
    pub open spec fn widest_is(self, n: nat) -> bool {
        &&& forall|i: int| 0 <= i < self.line_count() ==> #[trigger] self.columns(i) <= n
        &&& self.line_count() == 0 ==> n == 0
        &&& self.line_count() > 0 ==> exists|i: int|
            0 <= i < self.line_count() && #[trigger] self.columns(i) == n
    }

    /// The columns of the widest displayed line.
    pub open spec fn widest(self) -> nat {
        choose|n: nat| self.widest_is(n)
    }

    /// The columns of the widest displayed line.
    pub fn widest_line(&self) -> (r: usize)
        ensures
            r == self.widest(),
            self.widest_is(r as nat),
    {
        let total: usize = self.len();
        let mut widest: usize = 0;
        let ghost mut at: int = 0;
        for i in 0..total
            invariant
                total == self.line_count(),
                i > 0 ==> 0 <= at < i && self.columns(at) == widest,
                i == 0 ==> widest == 0,
                forall|k: int| 0 <= k < i ==> #[trigger] self.columns(k) <= widest,
        {
            let width: usize = self.columns_of(i);
            assert(width == self.columns(i as int));
            if width > widest || i == 0 {
                widest = width;
                proof {
                    at = i as int;
                }
            }
        }
        proof {
            assert(total > 0 ==> self.columns(at) == widest);
            assert(self.widest_is(widest as nat));
            let chosen = self.widest();
            assert(self.widest_is(chosen));
            if total > 0 {
                let j = choose|j: int| 0 <= j < self.line_count() && #[trigger] self.columns(j)
                    == chosen;
                assert(self.columns(j) <= widest);
                assert(self.columns(at) <= chosen);
            }
        }
        widest
    }

    /// The columns of the displayed line `i`.
    fn columns_of(&self, i: usize) -> (r: usize)
        requires
            i < self.line_count(),
        ensures
            r == self.columns(i as int),
    {
        match self {
            Body::Blank => width_of_text(""),
            Body::Rendering => width_of_text("Rendering\u{2026}"),
            Body::Guidance(reason) => width_of_text(reason.label()),
            Body::Rendered(result) => width_of(&result.content[i]),
        }
    }
}

/// The columns of a line of one piece.
fn width_of_text(text: &str) -> (r: usize)
    ensures
        r == line_width(seq![text@]),
{
    let line = ContentLine { spans: vec![text.to_owned()] };
    assert(texts(line.spans@) =~= seq![text@]);
    width_of(&line)
}

/// A line of one piece is that piece.
proof fn lemma_one_piece(text: Seq<char>)
    ensures
        flat(seq![text]) == text,
{
    assert(seq![text].drop_last() =~= Seq::<Seq<char>>::empty());
    assert(flat(seq![text].drop_last()) =~= Seq::<char>::empty());
    assert(flat(seq![text]) =~= text);
}

/// A line number kept between 1 and `total`.
fn clamp_line(line: usize, total: usize) -> (r: usize)
    requires
        total >= 1,
    ensures
        r == between(line as int, 1, total as int),
{
    if line < 1 {
        1
    } else if line > total {
        total
    } else {
        line
    }
}

/// The smaller of two numbers.
pub fn least(n: usize, limit: usize) -> (r: usize)
    ensures
        r == at_most(n as int, limit as int),
{
    if n > limit {
        limit
    } else {
        n
    }
}

/// Tests whether a text ends in another.
fn ends_with(text: &Vec<char>, tail: &Vec<char>) -> (r: bool)
    ensures
        r == tail@.is_suffix_of(text@),
        r ==> tail@.len() <= text@.len(),
{
    if tail.len() > text.len() {
        return false;
    }
    let offset: usize = text.len() - tail.len();
    for i in 0..tail.len()
        invariant
            offset == text.len() - tail.len(),
            tail.len() <= text.len(),
            forall|k: int| 0 <= k < i ==> text@[offset + k] == tail@[k],
    {
        if text[offset + i] != tail[i] {
            assert(text@.subrange(offset as int, text@.len() as int)[i as int] != tail@[i as int]);
            return false;
        }
    }
    assert(text@.subrange(offset as int, text@.len() as int) =~= tail@);
    true
}

/// The rows of one line when it is wrapped: how many there are, and the character that each starts
/// with.
#[derive(Debug)]
pub struct LineRows {
    pub rows: usize,
    pub starts: Vec<usize>,
}

/// How the displayed lines wrap at the width of the pane, by themselves and behind the one column
/// that marks selected lines.
#[derive(Debug)]
pub struct Layout {
    pub plain: Vec<LineRows>,
    pub marked: Vec<LineRows>,
}

/// The rows that line `i` takes: at least one.
pub open spec fn rows_of(lines: Seq<LineRows>, i: int) -> nat {
    if 0 <= i < lines.len() && lines[i].rows > 0 {
        lines[i].rows as nat
    } else {
        1
    }
}

/// The rows that the first `n` lines take.
pub open spec fn rows_before(lines: Seq<LineRows>, n: nat) -> nat
    decreases n,
{
    if n == 0 {
        0
    } else {
        rows_before(lines, (n - 1) as nat) + rows_of(lines, n - 1)
    }
}

/// The line, from 1, that the row `row` belongs to, where there are `total` lines: the last one
/// for rows past the end.
pub open spec fn line_at(lines: Seq<LineRows>, row: int, total: nat) -> int {
    if row >= rows_before(lines, total) {
        if total == 0 {
            1
        } else {
            total as int
        }
    } else {
        line_within(lines, row, total)
    }
}

/// The line, from 1, that the row `row` belongs to: the first one that ends after it.
pub open spec fn line_within(lines: Seq<LineRows>, row: int, total: nat) -> int
    decreases total,
{
    if total == 0 || row >= rows_before(lines, (total - 1) as nat) {
        total as int
    } else {
        line_within(lines, row, (total - 1) as nat)
    }
}

/// More lines take more rows.
pub proof fn rows_grow(lines: Seq<LineRows>, m: nat, n: nat)
    requires
        m <= n,
    ensures
        rows_before(lines, m) + (n - m) <= rows_before(lines, n),
    decreases n,
{
    if m < n {
        rows_grow(lines, m, (n - 1) as nat);
    }
}

/// The first row of each line belongs to that line.
pub proof fn first_rows_belong_to_their_lines(lines: Seq<LineRows>, line: nat, total: nat)
    requires
        1 <= line <= total,
    ensures
        line_at(lines, rows_before(lines, (line - 1) as nat) as int, total) == line,
    decreases total,
{
    let row = rows_before(lines, (line - 1) as nat) as int;
    rows_grow(lines, (line - 1) as nat, total);
    if line < total {
        rows_grow(lines, (line - 1) as nat, (total - 1) as nat);
        first_rows_belong_to_their_lines(lines, line, (total - 1) as nat);
    }
}

/// Every row belongs to a line whose rows it lies between.
pub proof fn rows_lie_within_their_lines(lines: Seq<LineRows>, row: nat, total: nat)
    requires
        row < rows_before(lines, total),
    ensures
        1 <= line_at(lines, row as int, total) <= total,
        rows_before(lines, (line_at(lines, row as int, total) - 1) as nat) <= row < rows_before(
            lines,
            line_at(lines, row as int, total) as nat,
        ),
    decreases total,
{
    if total > 0 && row < rows_before(lines, (total - 1) as nat) {
        rows_lie_within_their_lines(lines, row, (total - 1) as nat);
    }
}

impl Layout {
    /// The rows of the lines, behind the marker or not.
    pub open spec fn lines(self, marked: bool) -> Seq<LineRows> {
        if marked {
            self.marked@
        } else {
            self.plain@
        }
    }

    /// The rows that line `i` takes.
    fn rows(&self, marked: bool, i: usize) -> (r: usize)
        ensures
            r == rows_of(self.lines(marked), i as int),
    {
        let lines = if marked {
            &self.marked
        } else {
            &self.plain
        };
        if i < lines.len() && lines[i].rows > 0 {
            lines[i].rows
        } else {
            1
        }
    }

    /// The rows that the first `n` lines take, at most the largest number.
    pub fn rows_above(&self, marked: bool, n: usize) -> (r: usize)
        ensures
            r == at_most(rows_before(self.lines(marked), n as nat) as int, usize::MAX as int),
    {
        let mut sum: usize = 0;
        for i in 0..n
            invariant
                sum == at_most(
                    rows_before(self.lines(marked), i as nat) as int,
                    usize::MAX as int,
                ),
        {
            sum = sum.saturating_add(self.rows(marked, i));
        }
        sum
    }

    /// The line, from 1, that a row belongs to, where there are `total` lines.
    pub fn line_at_row(&self, marked: bool, row: usize, total: usize) -> (r: usize)
        requires
            row < usize::MAX,
        ensures
            r == line_at(self.lines(marked), row as int, total as nat),
    {
        let mut sum: usize = 0;
        for i in 0..total
            invariant
                row < usize::MAX,
                sum == at_most(
                    rows_before(self.lines(marked), i as nat) as int,
                    usize::MAX as int,
                ),
                row >= sum,
        {
            sum = sum.saturating_add(self.rows(marked, i));
            if row < sum {
                proof {
                    let lines = self.lines(marked);
                    lemma_line_within(lines, row as int, (i + 1) as nat, total as nat);
                    rows_grow(lines, (i + 1) as nat, total as nat);
                }
                return i + 1;
            }
        }
        if total == 0 {
            1
        } else {
            total
        }
    }

    /// The characters that the rows of line `i` start with.
    pub open spec fn starts(self, marked: bool, i: int) -> Seq<usize> {
        if 0 <= i < self.lines(marked).len() {
            self.lines(marked)[i].starts@
        } else {
            Seq::empty()
        }
    }

    /// How many rows of line `i` are listed.
    pub fn start_count(&self, marked: bool, i: usize) -> (r: usize)
        ensures
            r == self.starts(marked, i as int).len(),
    {
        let lines = if marked {
            &self.marked
        } else {
            &self.plain
        };
        if i < lines.len() {
            lines[i].starts.len()
        } else {
            0
        }
    }

    /// The character that row `k` of line `i` starts with.
    pub fn start_at(&self, marked: bool, i: usize, k: usize) -> (r: usize)
        requires
            k < self.starts(marked, i as int).len(),
        ensures
            r == self.starts(marked, i as int)[k as int],
    {
        let lines = if marked {
            &self.marked
        } else {
            &self.plain
        };
        lines[i].starts[k]
    }
}

/// A row before the end of line `n` and not before its start belongs to line `n`.
proof fn lemma_line_within(lines: Seq<LineRows>, row: int, n: nat, total: nat)
    requires
        1 <= n <= total,
        row < rows_before(lines, n),
        row >= rows_before(lines, (n - 1) as nat),
    ensures
        line_within(lines, row, total) == n,
    decreases total,
{
    if n < total {
        rows_grow(lines, n, (total - 1) as nat);
        lemma_line_within(lines, row, n, (total - 1) as nat);
    }
}

/// Dragging over part of a line copies exactly the displayed characters between the columns, where
/// these lie behind the gutter.
pub proof fn dragging_copies_what_is_displayed(body: Body, n: usize, a: usize, b: usize)
    requires
        1 <= n <= body.line_count(),
        body.gutter(n as int) <= a <= b <= body.shown(n as int).len(),
        body.gutter(n as int) >= 0,
    ensures
        body.copied_chars((n, a), (n, b)) == body.shown(n as int).subrange(a as int, b as int),
{
    assert(body.copied_chars((n, a), (n, b)) =~= body.shown(n as int).subrange(
        a as int,
        b as int,
    ));
}

/// The gutter is never copied: a drag that starts in it copies what a drag from its end does, and
/// a drag within it copies nothing.
pub proof fn gutters_are_not_copied(body: Body, n: usize, a: usize, b: usize)
    requires
        1 <= n <= body.line_count(),
        0 <= a <= body.gutter(n as int) <= body.shown(n as int).len(),
        a <= b,
    ensures
        b <= body.gutter(n as int) ==> body.copied_chars((n, a), (n, b)).len() == 0,
        body.gutter(n as int) <= b <= body.shown(n as int).len() ==> body.copied_chars(
            (n, a),
            (n, b),
        ) == body.shown(n as int).subrange(body.gutter(n as int), b as int),
{
    if body.gutter(n as int) <= b && b <= body.shown(n as int).len() {
        assert(body.copied_chars((n, a), (n, b)) =~= body.shown(n as int).subrange(
            body.gutter(n as int),
            b as int,
        ));
    }
}

/// A drag past the end of a line stops at its end.
pub proof fn drags_end_with_their_line(body: Body, n: usize, a: usize, b: usize)
    requires
        1 <= n <= body.line_count(),
        0 <= body.gutter(n as int) <= a <= body.shown(n as int).len() <= b,
    ensures
        body.copied_chars((n, a), (n, b)) == body.shown(n as int).subrange(
            a as int,
            body.shown(n as int).len() as int,
        ),
{
    assert(body.copied_chars((n, a), (n, b)) =~= body.shown(n as int).subrange(
        a as int,
        body.shown(n as int).len() as int,
    ));
}

/// A drag over two lines or more copies the rest of the first, the lines between without their
/// gutters, and the start of the last, one under another.
pub proof fn drags_over_lines_copy_them_in_order(
    body: Body,
    first: usize,
    a: usize,
    last: usize,
    b: usize,
)
    requires
        1 <= first < last <= body.line_count(),
        0 <= body.gutter(first as int) <= a <= body.shown(first as int).len(),
        0 <= body.gutter(last as int) <= b <= body.shown(last as int).len(),
        forall|n: int|
            first < n < last ==> 0 <= #[trigger] body.gutter(n) <= body.shown(n).len(),
    ensures
        exists|between: Seq<char>|
            body.copied_chars((first, a), (last, b)) == (body.shown(first as int).skip(
                a as int,
            ) + between).push('\n') + #[trigger] copied_tail(body, last, b) && (last == first + 1
                ==> between.len() == 0) && (last == first + 2 ==> between == seq!['\n'] + body.shown(
                first + 1,
            ).skip(body.gutter(first + 1))),
{
    let lines = |n: int|
        body.cut_line(
            n,
            if n == first {
                Some(a as int)
            } else {
                None
            },
            if n == last {
                Some(b as int)
            } else {
                None
            },
        );
    lemma_stacked_head(lines, first as int, last - 1);
    let head = body.shown(first as int).skip(a as int);
    assert(lines(first as int) =~= head);
    assert(lines(last as int) =~= copied_tail(body, last, b));
    let whole = stacked(lines, first as int, last - 1);
    let between = whole.skip(head.len() as int);
    assert(whole =~= head + between);
    assert(body.copied_chars((first, a), (last, b)) =~= stacked(
        lines,
        first as int,
        last as int,
    ));
    if last == first + 2 {
        let mid = body.shown(first + 1).skip(body.gutter(first + 1));
        assert(lines(first + 1) =~= mid);
        reveal_with_fuel(stacked, 2);
        assert(whole =~= head.push('\n') + mid);
        assert(between =~= seq!['\n'] + mid);
    }
    assert(body.copied_chars((first, a), (last, b)) =~= (head + between).push('\n') + copied_tail(
        body,
        last,
        b,
    ));
}

/// The characters of a displayed line from the end of its gutter to a column.
pub open spec fn copied_tail(body: Body, n: usize, b: usize) -> Seq<char> {
    body.shown(n as int).subrange(body.gutter(n as int), b as int)
}

/// Lines under one another begin with the first of them.
proof fn lemma_stacked_head(lines: spec_fn(int) -> Seq<char>, lo: int, hi: int)
    requires
        lo <= hi,
    ensures
        stacked(lines, lo, hi).len() >= lines(lo).len(),
        stacked(lines, lo, hi).take(lines(lo).len() as int) == lines(lo),
    decreases hi - lo,
{
    if lo < hi {
        lemma_stacked_head(lines, lo, hi - 1);
        let part = stacked(lines, lo, hi - 1);
        let whole = part.push('\n') + lines(hi);
        assert(whole.take(lines(lo).len() as int) =~= part.take(lines(lo).len() as int));
    } else {
        assert(lines(lo).take(lines(lo).len() as int) =~= lines(lo));
    }
}

/// A displayed line that ends in its source has what precedes it as its gutter, and selecting all
/// of its characters copies the source: what copying the line does.
pub proof fn selecting_a_line_copies_its_source(body: Body, n: usize, gutter: Seq<char>, source: Seq<char>)
    requires
        1 <= n <= body.line_count(),
        body.source_text(n as int) == Some(source),
        body.shown(n as int) == gutter + printable(source),
        body.shown(n as int).len() <= usize::MAX,
    ensures
        body.gutter(n as int) == gutter.len(),
        body.copied_chars((n, 0), (n, body.shown(n as int).len() as usize)) == printable(source),
        body.copied_lines(n as int, n as int) == printable(source),
{
    let shown = body.shown(n as int);
    let code = printable(source);
    assert(code.is_suffix_of(shown)) by {
        assert(shown.subrange(shown.len() - code.len(), shown.len() as int) =~= code);
    }
    assert(body.copied_chars((n, 0), (n, shown.len() as usize)) =~= code);
}

/// A line without a source has no gutter, and is copied as it is displayed.
pub proof fn lines_without_source_are_copied_as_displayed(body: Body, n: usize)
    requires
        1 <= n <= body.line_count(),
        body.source_text(n as int) is None,
        body.shown(n as int).len() <= usize::MAX,
    ensures
        body.gutter(n as int) == 0,
        body.copied_lines(n as int, n as int) == body.shown(n as int),
        body.copied_chars((n, 0), (n, body.shown(n as int).len() as usize)) == body.shown(n as int),
{
    assert(body.copied_chars((n, 0), (n, body.shown(n as int).len() as usize)) =~= body.shown(
        n as int,
    ));
}

/// Copying lines copies each of them once, in order: a line more adds itself at the end, under the
/// ones before it.
pub proof fn lines_are_copied_in_order(body: Body, start: usize, end: usize)
    requires
        1 <= start < end <= body.line_count(),
    ensures
        body.copied_lines(start as int, end as int) == body.copied_lines(
            start as int,
            end - 1,
        ).push('\n') + body.copied_lines(end as int, end as int),
{
}

/// Line numbers past the end of the content stand for its last line, and 0 for its first.
pub proof fn copied_lines_exist(body: Body, start: int, end: int)
    requires
        body.line_count() > 0,
        start <= 1,
        end >= body.line_count(),
    ensures
        body.copied_lines(start, end) == body.copied_lines(1, body.line_count() as int),
{
}

} // verus!
