//! What scrolling, selecting and searching the content promise.

use crate::controller::actions::{Action, Arrival, Clip, Effects, Run};
use crate::controller::content::{rows_before, rows_of, Layout};
use crate::controller::infile::{all_digits, digit_value, line_number, value_of};
use crate::controller::state::{
    Body, Controller, Match, Modal, NodeKind, Notice, PromptMode, RenderResult,
};
use crate::input::{Key, KeyCode};
use crate::selection::LineSelectState;
use crate::text::{decimal, digit};
use crate::view_policy::ViewMode;
use vstd::prelude::*;

verus! {

/// The content scrolls no further than to where its last row is the last one of the pane, and not
/// at all where it fits. Unwrapped, each line takes a row.
pub proof fn the_last_row_ends_the_scroll(state: Controller, layout: Layout)
    requires
        !state.wraps(),
        state.pane.body.line_count() <= u16::MAX,
    ensures
        state.pane.body.line_count() >= state.screen.content_height ==> state.max_scroll(layout)
            + state.screen.content_height == state.pane.body.line_count(),
        state.pane.body.line_count() <= state.screen.content_height ==> state.max_scroll(layout)
            == 0,
{
}

/// Wrapped, a line takes the rows of its layout, at least one, and the next line starts below them.
pub proof fn wrapped_lines_follow_each_other(state: Controller, layout: Layout, line: int)
    requires
        state.wraps(),
        !(state.modal is LineSelect),
        1 <= line,
    ensures
        state.row_of(layout, 1) == 0,
        line <= layout.plain@.len() && layout.plain@[line - 1].rows > 0 ==> state.row_of(
            layout,
            line + 1,
        ) == state.row_of(layout, line) + layout.plain@[line - 1].rows,
        state.row_of(layout, line + 1) >= state.row_of(layout, line) + 1,
{
    let lines = layout.lines(false);
    assert(lines == layout.plain@);
    assert(rows_before(lines, line as nat) == rows_before(lines, (line - 1) as nat) + rows_of(
        lines,
        line - 1,
    ));
    assert(rows_before(lines, 0) == 0);
}

/// While lines are selected, their marks take a column, and the layout with that column counts.
pub proof fn marked_lines_have_their_own_layout(state: Controller, layout: Layout, line: int)
    requires
        state.wraps(),
        state.modal is LineSelect,
        1 <= line <= layout.marked@.len(),
        layout.marked@[line - 1].rows > 0,
    ensures
        state.row_of(layout, line + 1) == state.row_of(layout, line) + layout.marked@[line - 1].rows,
{
    let lines = layout.lines(true);
    assert(lines == layout.marked@);
    assert(rows_before(lines, line as nat) == rows_before(lines, (line - 1) as nat) + rows_of(
        lines,
        line - 1,
    ));
}

/// A jump to a line that is not wrapped puts it at the top, or ends with the content; a line past
/// the end counts as the last one.
pub proof fn jumps_put_their_line_at_the_top(state: Controller, layout: Layout, line: int)
    requires
        !state.wraps(),
        1 <= state.pane.body.line_count() <= u16::MAX,
        line >= 1,
    ensures
        line <= state.pane.body.line_count() && line - 1 <= state.max_scroll(layout)
            ==> state.at_line(layout, line).nav.content_scroll == line - 1,
        line <= state.pane.body.line_count() && line - 1 > state.max_scroll(layout)
            ==> state.at_line(layout, line).nav.content_scroll == state.max_scroll(layout),
        line > state.pane.body.line_count() ==> state.at_line(layout, line) == state.at_line(
            layout,
            state.pane.body.line_count() as int,
        ),
        state.at_line(layout, line).nav.content_hscroll == state.nav.content_hscroll,
{
}

/// Scrolling by two distances is scrolling by their sum, and scrolling back undoes it, as long as
/// the content does not end.
pub proof fn scrolls_add_up(state: Controller, layout: Layout, a: int, b: int)
    requires
        0 <= state.nav.content_scroll + a <= state.max_scroll(layout),
        0 <= state.nav.content_scroll + a + b <= state.max_scroll(layout),
    ensures
        state.scrolled(layout, a).nav.content_scroll == state.nav.content_scroll + a,
        state.scrolled(layout, a).scrolled(layout, b).nav.content_scroll
            == state.nav.content_scroll + a + b,
{
    let there = state.scrolled(layout, a);
    assert(there.wraps() == state.wraps());
    assert(there.max_scroll(layout) == state.max_scroll(layout));
}

/// Wrapped content does not scroll sideways.
pub proof fn wrapped_content_has_no_columns_left(state: Controller, delta: int)
    requires
        state.wraps(),
    ensures
        state.max_hscroll() == 0,
        state.hscrolled(delta).nav.content_hscroll == 0,
{
}

/// Under the cell that is `k` rows below the top of the content and `c` columns right of its edge
/// lies the line that many rows below the scrolled ones, and the character that many columns right
/// of the scrolled ones, less the column of the marks; past the end of the line lies its end.
pub proof fn cells_stand_for_characters(
    state: Controller,
    layout: Layout,
    col: u16,
    row: u16,
    caret: (usize, usize),
)
    requires
        call_ensures(Controller::char_at_content_col, (&state, &layout, col, row), caret),
        !state.wraps(),
        state.screen.geom.content_inner matches Some(area) && area.x <= col && area.y <= row,
        state.pane.body.line_count() > 0,
    ensures
        ({
            let area = state.screen.geom.content_inner->0;
            let line = state.nav.content_scroll + (row - area.y) + 1;
            let column = state.nav.content_hscroll + (col - area.x);
            let mark = if state.modal is LineSelect {
                1int
            } else {
                0
            };
            &&& line <= state.pane.body.line_count() ==> caret.0 == line
            &&& line > state.pane.body.line_count() ==> caret.0 == state.pane.body.line_count()
            &&& mark <= column <= state.pane.body.shown(caret.0 as int).len() + mark ==> caret.1
                == column - mark
            &&& column > state.pane.body.shown(caret.0 as int).len() + mark ==> caret.1
                == state.pane.body.shown(caret.0 as int).len()
        }),
{
}

/// In a wrapped line the character under a cell is counted from the one that its row starts with,
/// and does not reach into the next row.
pub proof fn wrapped_rows_start_where_the_last_ended(
    starts: Seq<usize>,
    below: int,
    column: int,
    len: int,
)
    requires
        0 <= below < starts.len(),
        0 <= column,
    ensures
        ({
            let caret = crate::controller::scroll::caret_in(starts, below, column, 0, len);
            &&& below + 1 < starts.len() && starts[below] + column <= starts[below + 1] ==> caret
                == starts[below] + column
            &&& below + 1 < starts.len() && starts[below] + column > starts[below + 1] ==> caret
                == starts[below + 1]
            &&& below + 1 == starts.len() && starts[below] + column <= len ==> caret
                == starts[below] + column
            &&& below + 1 == starts.len() && starts[below] + column > len ==> caret == len
        }),
{
}

/// A line of the selection that is on the screen is not scrolled; one above it becomes the first
/// row, one below it the last.
pub proof fn the_selection_scrolls_as_little_as_possible(state: Controller, layout: Layout, line: int)
    requires
        1 <= line <= state.pane.body.line_count(),
        state.total_rows(layout) < u16::MAX,
        state.screen.content_height > 0,
        state.nav.content_scroll <= state.max_scroll(layout),
    ensures
        ({
            let row = state.row_of(layout, line);
            let top = state.nav.content_scroll as int;
            let next = state.shows_line(layout, line).nav.content_scroll as int;
            &&& top <= row < top + state.screen.content_height ==> next == top
            &&& row < top ==> next == row
            &&& row >= top + state.screen.content_height ==> next + state.screen.content_height
                == row + 1
        }),
{
    crate::controller::content::rows_grow(
        layout.lines(state.marks_lines()),
        (line - 1) as nat,
        state.pane.body.line_count(),
    );
    assert(rows_before(layout.lines(state.marks_lines()), line as nat) == rows_before(
        layout.lines(state.marks_lines()),
        (line - 1) as nat,
    ) + rows_of(layout.lines(state.marks_lines()), line - 1));
    crate::controller::content::rows_grow(
        layout.lines(state.marks_lines()),
        line as nat,
        state.pane.body.line_count(),
    );
}

/// The keys for the line below and the line above move the marked line by one, within the file. By
/// themselves they select that line alone; with Shift the selection grows from where it started.
pub proof fn line_keys_move_by_one(s: LineSelectState, key: Key, last: usize)
    requires
        1 <= s.marker <= last,
        1 <= s.anchor <= last,
        Controller::selection_keyed(s, key, last) is Some,
    ensures
        ({
            let next = Controller::selection_keyed(s, key, last)->0;
            let down = key.code == KeyCode::Char('j') || key.code == KeyCode::Char('J') || key.code
                == KeyCode::Down;
            let grows = key.code == KeyCode::Char('J') || key.code == KeyCode::Char('K') || (
            key.code == KeyCode::Down || key.code == KeyCode::Up) && key.modifiers.shift;
            &&& down && s.marker < last ==> next.marker == s.marker + 1
            &&& down && s.marker == last ==> next.marker == last
            &&& !down && s.marker > 1 ==> next.marker == s.marker - 1
            &&& !down && s.marker == 1 ==> next.marker == 1
            &&& grows ==> next.anchor == s.anchor
            &&& !grows ==> next.anchor == next.marker
            &&& !next.char_mode
        }),
{
}

/// Enter copies a reference to the selected lines of the selected file, the smaller number first,
/// and ends the selection. Esc ends it without copying.
pub proof fn references_name_the_selected_lines(r: Run, key: Key, layout: Layout)
    requires
        Controller::line_keyed(r, key, layout),
        r.from.modal is LineSelect,
        key.modifiers.at_most_shift(),
        r.from.tree.cursor < r.from.tree.nodes@.len(),
        r.from.tree.nodes@[r.from.tree.cursor as int].kind == NodeKind::File,
    ensures
        ({
            let s = r.from.modal->LineSelect_0;
            let path = r.from.tree.nodes@[r.from.tree.cursor as int].path;
            &&& key.code == KeyCode::Enter && s.anchor <= s.marker ==> r.after == r.before.push(
                Action::Copy(Clip::Reference { path, start: s.anchor, end: s.marker }),
            )
            &&& key.code == KeyCode::Enter && s.anchor > s.marker ==> r.after == r.before.push(
                Action::Copy(Clip::Reference { path, start: s.marker, end: s.anchor }),
            )
        }),
        key.code == KeyCode::Enter || key.code == KeyCode::Esc ==> r.to.modal is Closed,
        key.code == KeyCode::Esc ==> r.after == r.before,
        r.to.tree == r.from.tree,
{
}

/// The key for the content copies the selected lines; where characters are selected it copies
/// those, or the line of the click where the selection holds none.
pub proof fn contents_are_what_is_selected(r: Run, key: Key, layout: Layout)
    requires
        Controller::line_keyed(r, key, layout),
        r.from.modal is LineSelect,
        key.modifiers.at_most_shift(),
        key.code == KeyCode::Char('y') || key.code == KeyCode::Char('Y'),
        r.from.file_selected(),
    ensures
        ({
            let s = r.from.modal->LineSelect_0;
            let (lo, hi) = s.caret_span();
            let copied = r.from.pane.body.copied_chars(lo, hi);
            &&& !s.char_mode && s.anchor <= s.marker ==> r.after == r.before.push(
                Action::Copy(Clip::Lines { start: s.anchor, end: s.marker }),
            )
            &&& !s.char_mode && s.anchor > s.marker ==> r.after == r.before.push(
                Action::Copy(Clip::Lines { start: s.marker, end: s.anchor }),
            )
            &&& s.char_mode && copied.len() > 0 ==> r.after == r.before.push(
                Action::Copy(Clip::Selection { lo, hi }),
            )
            &&& s.char_mode && copied.len() == 0 && s.anchor == s.marker ==> r.after
                == r.before.push(Action::Copy(Clip::Lines { start: s.marker, end: s.marker }))
        }),
        r.to.modal is Closed,
{
}

/// Line selection starts at the first line on the screen where the source of the file is
/// displayed; otherwise it waits for the render of the source.
pub proof fn line_selection_starts_at_the_top(r: Run, layout: Layout)
    requires
        Controller::selection_entered(r, layout),
        r.from.tree.cursor < r.from.tree.nodes@.len(),
        r.from.tree.nodes@[r.from.tree.cursor as int].kind == NodeKind::File,
    ensures
        ({
            let source = r.from.selected_mode() == Some(ViewMode::SyntaxContent);
            let current = r.from.pane.renders.applied == r.from.pane.renders.latest;
            &&& source && current ==> r.after == r.before && (r.to.modal matches Modal::LineSelect(s)
                && s.anchor == s.marker && !s.char_mode && (!r.from.wraps()
                && r.from.nav.content_scroll < r.from.pane.body.line_count() ==> s.marker
                == r.from.nav.content_scroll + 1))
            &&& !(source && current) ==> r.to.pane.renders.line_select == Some(
                r.to.pane.renders.latest,
            )
            &&& !source ==> r.to.overrides@[r.from.tree.nodes@[r.from.tree.cursor as int].path@]
                == ViewMode::SyntaxContent
        }),
        r.to.pointer.drag is None,
        r.to.pane.selection is None,
{
    let from = r.from.released();
    assert(from.selected() == r.from.selected());
    assert(from.mode_of(r.from.selected()->0.path@) == r.from.mode_of(
        r.from.selected()->0.path@,
    ));
    assert(from.wraps() == r.from.wraps());
}

/// When the render that a jump waits for arrives, the content is scrolled to the line, and the jump
/// is over.
pub proof fn queued_jumps_are_made(
    from: Controller,
    to: Controller,
    effects: Option<Effects>,
    before: Seq<Action>,
    after: Seq<Action>,
    result: RenderResult,
    layout: Layout,
    line: usize,
)
    requires
        Controller::polled(
            from,
            to,
            effects,
            before,
            after,
            Arrival::Render { seq: from.pane.renders.latest, result },
            layout,
        ),
        from.pane.renders.goto == Some((from.pane.renders.latest, line)),
        from.pane.renders.line_select is None,
    ensures
        to.pane.renders.goto is None,
        to.pane.body == Body::Rendered(result),
        !to.wraps() && 1 <= line <= result.content@.len() <= u16::MAX && line - 1 <= to.max_scroll(
            layout,
        ) ==> to.nav.content_scroll == line - 1,
        to.nav.content_scroll <= to.max_scroll(layout),
{
    let seq = from.pane.renders.latest;
    let shown = from.displays(seq, result);
    let reflow = from.pane.renders.reflow == Some(seq);
    let placed = if reflow {
        shown.stays(layout)
    } else {
        shown
    };
    assert(to.nav == placed.at_line(layout, line as int).nav);
    assert(to.wraps() == placed.wraps());
    assert(to.pane.body == placed.pane.body);
    assert(to.screen == placed.screen);
    assert(to.modal == placed.modal);
    assert(to.max_scroll(layout) == placed.max_scroll(layout));
}

/// When the render that line selection waits for arrives, it starts, if there are lines.
pub proof fn queued_selections_start(
    from: Controller,
    to: Controller,
    effects: Option<Effects>,
    before: Seq<Action>,
    after: Seq<Action>,
    result: RenderResult,
    layout: Layout,
)
    requires
        Controller::polled(
            from,
            to,
            effects,
            before,
            after,
            Arrival::Render { seq: from.pane.renders.latest, result },
            layout,
        ),
        from.pane.renders.line_select == Some(from.pane.renders.latest),
    ensures
        to.pane.renders.line_select is None,
        result.content@.len() > 0 ==> (to.modal matches Modal::LineSelect(s) && s.anchor == s.marker
            && !s.char_mode),
        result.content@.len() == 0 ==> to.modal == from.modal,
{
}

/// Another file's render ends a committed search, and is searched for what is being typed.
pub proof fn searches_follow_the_content(
    from: Controller,
    to: Controller,
    effects: Option<Effects>,
    before: Seq<Action>,
    after: Seq<Action>,
    result: RenderResult,
    layout: Layout,
)
    requires
        Controller::polled(
            from,
            to,
            effects,
            before,
            after,
            Arrival::Render { seq: from.pane.renders.latest, result },
            layout,
        ),
        from.pane.renders.line_select is None,
    ensures
        from.modal matches Modal::Prompt(p) && p.mode == PromptMode::Search ==> after
            == before.push(Action::FindMatches),
        !(from.modal is Prompt) && from.pane.renders.reflow != Some(from.pane.renders.latest)
            ==> to.pane.search is None && after == before,
        !(from.modal is Prompt) && from.pane.renders.reflow == Some(from.pane.renders.latest) && (
        from.pane.search matches Some(s) && s.query@.len() > 0) ==> after == before.push(
            Action::FindAgain,
        ) && to.pane.search == from.pane.search,
{
}

/// A number that is typed is the line that is gone to.
pub proof fn typed_numbers_are_read_back(n: nat)
    requires
        n <= usize::MAX,
    ensures
        line_number(decimal(n)) == n,
{
    lemma_value_of_decimal(n);
}

/// The digits of a number stand for it.
proof fn lemma_value_of_decimal(n: nat)
    ensures
        all_digits(decimal(n)),
        value_of(decimal(n)) == n,
    decreases n,
{
    reveal_with_fuel(value_of, 2);
    if n < 10 {
        assert(digit_value(digit(n)) == n);
        assert(decimal(n).drop_last() =~= Seq::<char>::empty());
    } else {
        lemma_value_of_decimal(n / 10);
        let last = digit(n % 10);
        assert(digit_value(last) == n % 10);
        assert(decimal(n) == decimal(n / 10).push(last));
        assert(decimal(n).drop_last() =~= decimal(n / 10));
        assert forall|i: int| 0 <= i < decimal(n).len() implies #[trigger] digit_value(
            decimal(n)[i],
        ) >= 0 by {
            if i < decimal(n / 10).len() {
                assert(digit_value(decimal(n / 10)[i]) >= 0);
            }
        }
    }
}

/// Only digits are typed into the prompt for a line; the search prompt takes every character, and
/// looks for the text after each.
pub proof fn prompts_take_what_they_ask_for(r: Run, key: Key, c: char, layout: Layout)
    requires
        Controller::prompt_keyed(r, key, layout),
        r.from.modal is Prompt,
        key.code == KeyCode::Char(c),
        key.modifiers.at_most_shift(),
    ensures
        ({
            let p = r.from.modal->Prompt_0;
            &&& p.mode == PromptMode::GoToLine && '0' <= c <= '9' ==> (
            r.to.modal matches Modal::Prompt(q) && q.input.text() == p.input.text().push(c)
                && r.after == r.before)
            &&& p.mode == PromptMode::GoToLine && !('0' <= c <= '9') ==> r.to == r.from && r.after
                == r.before
            &&& p.mode == PromptMode::Search ==> (r.to.modal matches Modal::Prompt(q)
                && q.input.text() == p.input.text().push(c) && q.saved_scroll == p.saved_scroll)
                && r.after == r.before.push(Action::FindMatches)
        }),
        r.to.nav == r.from.nav,
        r.to.tree == r.from.tree,
{
}

/// Confirming a search keeps what was found; an empty one is dropped.
pub proof fn confirmed_searches_are_kept(r: Run, key: Key, layout: Layout)
    requires
        Controller::prompt_keyed(r, key, layout),
        r.from.modal matches Modal::Prompt(p) && p.mode == PromptMode::Search,
        key.code == KeyCode::Enter,
    ensures
        r.to.modal is Closed,
        r.from.modal->Prompt_0.input.text().len() > 0 ==> r.to.pane.search == r.from.pane.search,
        r.from.modal->Prompt_0.input.text().len() == 0 ==> r.to.pane.search is None,
        r.to.nav == r.from.nav,
        r.after == r.before,
{
}

/// What was found is remembered with what was looked for, and the first match comes into view.
pub proof fn the_first_match_is_shown(r: Run, matches: Vec<Match>, layout: Layout)
    requires
        Controller::matched(r, matches, layout),
    ensures
        r.to.pane.search matches Some(s) && s.matches == matches && s.current == 0 && s.query@
            == r.from.prompt_text(),
        matches@.len() == 0 ==> r.to.nav == r.from.nav,
        matches@.len() > 0 && !r.from.wraps() && matches@[0].line < r.from.pane.body.line_count()
            && r.from.pane.body.line_count() <= u16::MAX && matches@[0].line <= r.from.max_scroll(
            layout,
        ) ==> r.to.nav.content_scroll == matches@[0].line,
{
    assert(r.from.pane.body.line_count() <= u16::MAX && matches@.len() > 0 && matches@[0].line
        < r.from.pane.body.line_count() ==> matches@[0].line < usize::MAX);
    let searched = Controller {
        pane: crate::controller::state::Pane { search: r.to.pane.search, ..r.from.pane },
        ..r.from
    };
    assert(searched.wraps() == r.from.wraps());
    assert(searched.max_scroll(layout) == r.from.max_scroll(layout));
}

/// The next match is the one after the current one, and after the last one the first, which the
/// user is told; the previous one is the other way round. The match comes into view.
pub proof fn matches_are_gone_through_in_order(state: Controller, layout: Layout)
    requires
        state.pane.search matches Some(s) && s.current < s.matches@.len(),
        !(state.modal is Prompt),
    ensures
        ({
            let s = state.pane.search->0;
            let len = s.matches@.len();
            let next = state.next_match_step(layout).next;
            let prev = state.prev_match_step(layout).next;
            &&& s.current + 1 < len ==> next.pane.search->0.current == s.current + 1 && next.notice
                == state.notice
            &&& s.current + 1 == len ==> next.pane.search->0.current == 0 && next.notice == Some(
                Notice::WrappedToFirst,
            )
            &&& s.current > 0 ==> prev.pane.search->0.current == s.current - 1 && prev.notice
                == state.notice
            &&& s.current == 0 ==> prev.pane.search->0.current == len - 1 && prev.notice == Some(
                Notice::WrappedToLast,
            )
            &&& next.pane.search->0.matches == s.matches && next.pane.search->0.query == s.query
            &&& prev.pane.search->0.matches == s.matches && prev.pane.search->0.query == s.query
        }),
{
    let s = state.pane.search->0;
    let len: usize = s.matches.len();
    assert(len == s.matches@.len());
    let n = len as int;
    let c = s.current as int;
    assert(c + 1 < n ==> (c + 1) % n == c + 1) by (nonlinear_arith)
        requires
            0 <= c < n,
    ;
    assert(n % n == 0) by (nonlinear_arith)
        requires
            n > 0,
    ;
    assert(c > 0 ==> (c + n - 1) % n == c - 1) by (nonlinear_arith)
        requires
            0 <= c < n,
    ;
    assert((n - 1) % n == n - 1) by (nonlinear_arith)
        requires
            n > 0,
    ;
    assert(state.next_match_step(layout).next.pane.search->0.current == state.index_after());
    assert(state.prev_match_step(layout).next.pane.search->0.current == state.index_before());
}

/// The current match of a search is in view where it is gone to.
pub proof fn the_current_match_is_in_view(state: Controller, layout: Layout, index: int)
    requires
        state.pane.search matches Some(s) && 0 <= index < s.matches@.len() && s.matches@[index].line
            < state.pane.body.line_count(),
        !state.wraps(),
        state.pane.body.line_count() <= u16::MAX,
    ensures
        ({
            let line = state.pane.search->0.matches@[index].line;
            let next = state.at_match(layout, index, None).next;
            &&& line <= state.max_scroll(layout) ==> next.nav.content_scroll == line
            &&& line > state.max_scroll(layout) ==> next.nav.content_scroll == state.max_scroll(
                layout,
            )
        }),
{
    let s = state.pane.search->0;
    let moved = Controller {
        pane: crate::controller::state::Pane {
            search: Some(crate::controller::state::SearchState { current: index as usize, ..s }),
            ..state.pane
        },
        ..state
    };
    assert(moved.wraps() == state.wraps());
    assert(moved.max_scroll(layout) == state.max_scroll(layout));
}

/// Looking again in lines that were laid out anew keeps the query and the place among the matches,
/// as far as there are as many.
pub proof fn searching_again_keeps_the_place(state: Controller, matches: Vec<Match>)
    requires
        state.pane.search is Some,
    ensures
        ({
            let s = state.pane.search->0;
            let next = state.matched_again(matches).pane.search;
            &&& next matches Some(t) && t.query == s.query && t.matches == matches
            &&& s.current < matches@.len() ==> next->0.current == s.current
            &&& s.current >= matches@.len() > 0 ==> next->0.current == matches@.len() - 1
        }),
        state.matched_again(matches).nav == state.nav,
{
    let len: usize = matches.len();
    assert(len == matches@.len());
}

/// The prompts open over a file only, empty, and remember where the content stood.
pub proof fn prompts_open_over_files(r: Run)
    requires
        !(r.from.modal is Picker || r.from.modal is Finder),
    ensures
        Controller::goto_opened(r) && r.from.selected_mode() is Some ==> (
        r.to.modal matches Modal::Prompt(p) && p.mode == PromptMode::GoToLine
            && p.input.text().len() == 0 && p.saved_scroll == r.from.nav.content_scroll),
        Controller::goto_opened(r) && r.from.selected_mode() is None ==> r.to.modal == r.from.modal
            && r.to.notice == Some(Notice::SelectFileForLine),
        Controller::search_opened(r) && r.from.selected_mode() is Some ==> (
        r.to.modal matches Modal::Prompt(p) && p.mode == PromptMode::Search && p.input.text().len()
            == 0 && p.saved_scroll == r.from.nav.content_scroll) && r.to.pane.search is None,
        Controller::search_opened(r) && r.from.selected_mode() is None ==> r.to.modal
            == r.from.modal && r.to.notice == Some(Notice::SelectFileForSearch),
        Controller::search_opened(r) && r.from.selected_mode() is Some
            && r.from.screen.content_width == 0 ==> r.to.nav.zoomed,
{
}

} // verus!
