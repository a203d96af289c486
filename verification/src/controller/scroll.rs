//! Scrolling, and the cells of the content pane.

use super::actions::Effects;
use super::content::{at_most, between, least, less, line_at, rows_before, Layout};
use super::state::{Controller, Modal, Navigation};
use vstd::prelude::*;
use vstd::string::*;

verus! {

/// Entry `k` of a list, a default past its end.
pub open spec fn entry_or(list: Seq<usize>, k: int, default: int) -> int {
    if 0 <= k < list.len() {
        list[k] as int
    } else {
        default
    }
}

/// A number of cells in the range of a screen.
fn cells(n: usize) -> (r: u16)
    ensures
        r == at_most(n as int, u16::MAX as int),
{
    if n > u16::MAX as usize {
        u16::MAX
    } else {
        n as u16
    }
}

/// An offset moved by `delta` between 0 and `max`.
pub fn shifted(offset: u16, delta: i32, max: u16) -> (r: u16)
    ensures
        r == between(offset + delta, 0, max as int),
{
    let next: i64 = offset as i64 + delta as i64;
    if next < 0 {
        0
    } else if next > max as i64 {
        max
    } else {
        next as u16
    }
}

impl Controller {
    /// Lines are selected, which marks them in a column of its own.
    pub open spec fn marks_lines(self) -> bool {
        self.modal is LineSelect
    }

    /// The rows that the displayed lines take, at most as many as a screen can address.
    pub open spec fn total_rows(self, layout: Layout) -> int {
        at_most(
            if self.wraps() {
                rows_before(layout.lines(self.marks_lines()), self.pane.body.line_count()) as int
            } else {
                self.pane.body.line_count() as int
            },
            u16::MAX as int,
        )
    }

    /// The largest offset that leaves no empty rows below the last line.
    pub open spec fn max_scroll(self, layout: Layout) -> int {
        less(self.total_rows(layout), self.screen.content_height as int)
    }

    /// The columns past the right edge of the content pane: none where lines are wrapped.
    pub open spec fn max_hscroll(self) -> int {
        if self.wraps() {
            0
        } else {
            less(
                at_most(self.pane.body.widest() as int, u16::MAX as int),
                self.screen.content_width as int,
            )
        }
    }

    /// The row that a line, from 1, starts in.
    pub open spec fn row_of(self, layout: Layout, line: int) -> int {
        if self.wraps() {
            rows_before(layout.lines(self.marks_lines()), less(line, 1) as nat) as int
        } else {
            less(line, 1)
        }
    }

    /// The line, from 1, that a row belongs to.
    pub open spec fn line_of(self, layout: Layout, row: int) -> int {
        if self.wraps() {
            line_at(layout.lines(self.marks_lines()), row, self.pane.body.line_count())
        } else {
            row + 1
        }
    }

    /// The content scrolled to an offset.
    pub open spec fn scrolled_to(self, offset: int) -> Controller {
        Controller { nav: Navigation { content_scroll: offset as u16, ..self.nav }, ..self }
    }

    /// The content scrolled sideways to an offset.
    pub open spec fn hscrolled_to(self, offset: int) -> Controller {
        Controller { nav: Navigation { content_hscroll: offset as u16, ..self.nav }, ..self }
    }

    /// The content scrolled by `delta` rows.
    pub open spec fn scrolled(self, layout: Layout, delta: int) -> Controller {
        self.scrolled_to(between(self.nav.content_scroll + delta, 0, self.max_scroll(layout)))
    }

    /// The content scrolled sideways by `delta` columns.
    pub open spec fn hscrolled(self, delta: int) -> Controller {
        self.hscrolled_to(between(self.nav.content_hscroll + delta, 0, self.max_hscroll()))
    }

    /// The content scrolled to a line, from 1: the last one for numbers past the end.
    pub open spec fn at_line(self, layout: Layout, line: int) -> Controller {
        let count = self.pane.body.line_count() as int;
        let target = between(
            line,
            1,
            if count == 0 {
                1
            } else {
                count
            },
        );
        self.scrolled_to(
            at_most(
                at_most(self.row_of(layout, target), u16::MAX as int),
                self.max_scroll(layout),
            ),
        )
    }

    /// The content scrolled so that nothing past its end is shown, in either direction.
    pub open spec fn reclamped(self, layout: Layout) -> Controller {
        self.scrolled_to(at_most(self.nav.content_scroll as int, self.max_scroll(layout))).hscrolled_to(
            at_most(self.nav.content_hscroll as int, self.max_hscroll()),
        )
    }

    /// The row of the content that is drawn in a row of the screen.
    pub open spec fn row_under(self, row: u16) -> int {
        self.nav.content_scroll + match self.screen.geom.content_inner {
            Some(area) => less(row as int, area.y as int),
            None => 0,
        }
    }

    /// The column of the content that is drawn in a column of the screen.
    pub open spec fn column_under(self, col: u16) -> int {
        self.nav.content_hscroll + match self.screen.geom.content_inner {
            Some(area) => less(col as int, area.x as int),
            None => col as int,
        }
    }

    /// The line, from 1, that is drawn in a row of the screen.
    pub open spec fn line_under(self, layout: Layout, row: u16) -> int {
        between(
            self.line_of(layout, self.row_under(row)),
            1,
            self.pane.body.line_count() as int,
        )
    }

    /// The caret under a cell of the screen: a line, from 1, and a character of the displayed
    /// line. A cell past the end of a row stands for its end.
    pub open spec fn caret_under(self, layout: Layout, col: u16, row: u16) -> (int, int) {
        if self.pane.body.line_count() == 0 {
            (1, 0)
        } else {
            let line = self.line_under(layout, row);
            let len = self.pane.body.shown(line).len() as int;
            let marker = if self.marks_lines() {
                1int
            } else {
                0
            };
            let column = self.column_under(col);
            if !self.wraps() {
                (line, at_most(less(column, marker), len))
            } else {
                let below = less(self.row_under(row), self.row_of(layout, line));
                (
                    line,
                    caret_in(layout.starts(self.marks_lines(), line - 1), below, column, marker, len),
                )
            }
        }
    }

    /// Whether line selection is open.
    pub fn line_select_active(&self) -> (r: bool)
        ensures
            r == self.marks_lines(),
    {
        match self.modal {
            Modal::LineSelect(_) => true,
            _ => false,
        }
    }

    /// The rows that the displayed lines take.
    pub fn rendered_line_count(&self, layout: &Layout) -> (r: u16)
        ensures
            r == self.total_rows(*layout),
    {
        let count: usize = self.pane.body.len();
        if self.effective_wrap() {
            cells(layout.rows_above(self.line_select_active(), count))
        } else {
            cells(count)
        }
    }

    /// The largest offset of the content.
    pub fn max_content_scroll(&self, layout: &Layout) -> (r: u16)
        ensures
            r == self.max_scroll(*layout),
    {
        self.rendered_line_count(layout).saturating_sub(self.screen.content_height)
    }

    /// The largest sideways offset of the content.
    pub fn max_content_hscroll(&self) -> (r: u16)
        ensures
            r == self.max_hscroll(),
    {
        if self.effective_wrap() {
            0
        } else {
            cells(self.pane.body.widest_line()).saturating_sub(self.screen.content_width)
        }
    }

    /// The row that a line, from 1, starts in.
    pub fn content_row_of_line(&self, layout: &Layout, line: usize) -> (r: usize)
        ensures
            r == at_most(self.row_of(*layout, line as int), usize::MAX as int),
    {
        let above: usize = line.saturating_sub(1);
        if self.effective_wrap() {
            layout.rows_above(self.line_select_active(), above)
        } else {
            above
        }
    }

    /// The line, from 1, that a row belongs to.
    pub fn line_at_content_row(&self, layout: &Layout, row: usize) -> (r: usize)
        requires
            row < usize::MAX,
        ensures
            r == self.line_of(*layout, row as int),
    {
        if self.effective_wrap() {
            layout.line_at_row(self.line_select_active(), row, self.pane.body.len())
        } else {
            row + 1
        }
    }

    /// Scrolls the content by `delta` rows.
    pub fn scroll_content(&mut self, layout: &Layout, delta: i32)
        ensures
            *final(self) == old(self).scrolled(*layout, delta as int),
    {
        let max: u16 = self.max_content_scroll(layout);
        let next: u16 = shifted(self.nav.content_scroll, delta, max);
        self.nav.content_scroll = next;
    }

    /// Scrolls the content sideways by `delta` columns.
    pub fn scroll_content_h(&mut self, delta: i32) -> (r: Effects)
        ensures
            *final(self) == old(self).hscrolled(delta as int),
            r == Effects::repaint(),
    {
        let max: u16 = self.max_content_hscroll();
        let next: u16 = shifted(self.nav.content_hscroll, delta, max);
        self.nav.content_hscroll = next;
        Effects::redraw()
    }

    /// Scrolls the content so that nothing past its end is shown.
    pub fn reclamp(&mut self, layout: &Layout)
        ensures
            *final(self) == old(self).reclamped(*layout),
    {
        let (max, hmax): (u16, u16) = (
            self.max_content_scroll(layout),
            self.max_content_hscroll(),
        );
        let (scroll, hscroll): (u16, u16) = (self.nav.content_scroll, self.nav.content_hscroll);
        self.nav = Navigation {
            content_scroll: if scroll > max {
                max
            } else {
                scroll
            },
            content_hscroll: if hscroll > hmax {
                hmax
            } else {
                hscroll
            },
            ..self.nav
        };
    }

    /// Scrolls the content to a line, from 1.
    pub fn scroll_to_line(&mut self, layout: &Layout, line: usize)
        ensures
            *final(self) == old(self).at_line(*layout, line as int),
    {
        let count: usize = self.pane.body.len();
        let last: usize = if count == 0 {
            1
        } else {
            count
        };
        let target: usize = if line < 1 {
            1
        } else {
            least(line, last)
        };
        let row: u16 = cells(self.content_row_of_line(layout, target));
        let max: u16 = self.max_content_scroll(layout);
        self.nav.content_scroll = if row > max {
            max
        } else {
            row
        };
    }

    /// The line under a cell of the screen, the row of the content, and the column.
    fn cell_under(&self, layout: &Layout, col: u16, row: u16) -> (r: (usize, usize, usize))
        requires
            self.pane.body.line_count() > 0,
        ensures
            r.0 == self.line_under(*layout, row),
            r.1 == self.row_under(row),
            r.2 == self.column_under(col),
            1 <= r.0,
    {
        let down: u16 = match self.screen.geom.content_inner {
            Some(area) => row.saturating_sub(area.y),
            None => 0,
        };
        let across: u16 = match self.screen.geom.content_inner {
            Some(area) => col.saturating_sub(area.x),
            None => col,
        };
        let display_row: usize = self.nav.content_scroll as usize + down as usize;
        let column: usize = self.nav.content_hscroll as usize + across as usize;
        let found: usize = self.line_at_content_row(layout, display_row);
        let line: usize = if found < 1 {
            1
        } else {
            least(found, self.pane.body.len())
        };
        (line, display_row, column)
    }

    /// The caret under a cell of the screen.
    pub fn char_at_content_col(&self, layout: &Layout, col: u16, row: u16) -> (r: (usize, usize))
        ensures
            (r.0 as int, r.1 as int) == self.caret_under(*layout, col, row),
    {
        if self.pane.body.len() == 0 {
            return (1, 0);
        }
        let (line, display_row, column): (usize, usize, usize) = self.cell_under(layout, col, row);
        let marked = self.line_select_active();
        let text = self.pane.body.filtered_display_line(line);
        let len: usize = text.as_str().unicode_len();
        let marker: usize = if marked {
            1
        } else {
            0
        };
        if !self.effective_wrap() {
            return (line, least(column.saturating_sub(marker), len));
        }
        let below: usize = display_row.saturating_sub(self.content_row_of_line(layout, line));
        (line, layout.caret_in_line(marked, line - 1, below, column, marker, len))
    }
}

/// The character under a column of a line that wraps at `starts`, `below` rows under its first. The
/// first row starts behind the column that marks the line.
pub open spec fn caret_in(
    starts: Seq<usize>,
    below: int,
    column: int,
    marker: int,
    len: int,
) -> int {
    let k = at_most(below, less(starts.len() as int, 1));
    let within = if k == 0 {
        less(column, marker)
    } else {
        column
    };
    at_most(entry_or(starts, k, 0) + within, entry_or(starts, k + 1, len))
}

impl Layout {
    /// The character under a column of line `i`.
    fn caret_in_line(
        &self,
        marked: bool,
        i: usize,
        below: usize,
        column: usize,
        marker: usize,
        len: usize,
    ) -> (r: usize)
        ensures
            r == caret_in(
                self.starts(marked, i as int),
                below as int,
                column as int,
                marker as int,
                len as int,
            ),
    {
        let count: usize = self.start_count(marked, i);
        let k: usize = least(below, count.saturating_sub(1));
        let base: usize = if k < count {
            self.start_at(marked, i, k)
        } else {
            0
        };
        let end: usize = if k < count && k + 1 < count {
            self.start_at(marked, i, k + 1)
        } else {
            len
        };
        let within: usize = if k == 0 {
            column.saturating_sub(marker)
        } else {
            column
        };
        least(base.saturating_add(within), end)
    }
}

/// Scrolling stays within the content, whatever it is asked to do.
pub proof fn scrolling_stays_in_the_content(state: Controller, layout: Layout, delta: int, line: int)
    ensures
        state.scrolled(layout, delta).nav.content_scroll <= state.max_scroll(layout),
        state.hscrolled(delta).nav.content_hscroll <= state.max_hscroll(),
        state.at_line(layout, line).nav.content_scroll <= state.max_scroll(layout),
        state.reclamped(layout).nav.content_scroll <= state.max_scroll(layout),
        state.reclamped(layout).nav.content_hscroll <= state.max_hscroll(),
{
}

/// The row that a line starts in belongs to that line.
pub proof fn lines_and_rows_agree(state: Controller, layout: Layout, line: int)
    requires
        1 <= line <= state.pane.body.line_count(),
    ensures
        state.line_of(layout, state.row_of(layout, line)) == line,
{
    super::content::first_rows_belong_to_their_lines(
        layout.lines(state.marks_lines()),
        line as nat,
        state.pane.body.line_count(),
    );
}

/// A line that is jumped to starts on the screen, where the content has no more rows than a screen
/// can address.
pub proof fn jumps_show_their_line(state: Controller, layout: Layout, line: int)
    requires
        1 <= line <= state.pane.body.line_count(),
        state.total_rows(layout) < u16::MAX,
        state.screen.content_height > 0,
    ensures
        ({
            let top = state.at_line(layout, line).nav.content_scroll;
            top <= state.row_of(layout, line) < top + state.screen.content_height
        }),
{
    super::content::rows_grow(
        layout.lines(state.marks_lines()),
        (line - 1) as nat,
        state.pane.body.line_count(),
    );
}

} // verus!
