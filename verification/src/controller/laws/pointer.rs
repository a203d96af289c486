//! What the mouse promises over bars, selections, titles and overlays.

use crate::controller::actions::{Action, Run};
use crate::controller::content::Layout;
use crate::controller::state::{Controller, Drag, Focus, Modal};
use crate::input::{within, Mouse, MouseButton, MouseKind, Rect};
use crate::pointer::{double_click, offset_at, scrollbar_ends_reach_the_ends, ClickOrigin};
use vstd::prelude::*;

verus! {

/// The ends of the content's scrollbar lead to the first row and to the last ones.
pub proof fn the_content_bar_reaches_both_ends(state: Controller, layout: Layout, track: Rect)
    requires
        state.screen.geom.content_vbar == Some(track),
        track.height > 1,
        track.y + track.height <= u16::MAX,
        state.max_scroll(layout) > 0,
    ensures
        state.content_bar_step(track.y, layout).next.nav.content_scroll == 0,
        state.content_bar_step(
            (track.y + track.height - 1) as u16,
            layout,
        ).next.nav.content_scroll == state.max_scroll(layout),
{
    scrollbar_ends_reach_the_ends(track.y, track.height, state.max_scroll(layout));
}

/// The ends of the content's lower scrollbar lead to the first column and to the last ones.
pub proof fn the_content_hbar_reaches_both_ends(state: Controller, track: Rect)
    requires
        state.screen.geom.content_hbar == Some(track),
        track.width > 1,
        track.x + track.width <= u16::MAX,
        state.max_hscroll() > 0,
    ensures
        state.content_hbar_step(track.x).next.nav.content_hscroll == 0,
        state.content_hbar_step((track.x + track.width - 1) as u16).next.nav.content_hscroll
            == state.max_hscroll(),
{
    scrollbar_ends_reach_the_ends(track.x, track.width, state.max_hscroll());
}

/// The ends of the tree's scrollbar lead to its first row and to its last ones, without selecting.
pub proof fn the_tree_bar_reaches_both_ends(state: Controller, track: Rect, area: Rect)
    requires
        state.screen.geom.tree_vbar == Some(track),
        state.screen.geom.tree_inner == Some(area),
        track.height > 1,
        track.y + track.height <= u16::MAX,
        area.height < state.tree.nodes@.len() <= u16::MAX,
    ensures
        state.tree_bar_step(track.y).next.nav.tree_scroll == 0,
        state.tree_bar_step((track.y + track.height - 1) as u16).next.nav.tree_scroll + area.height
            == state.tree.nodes@.len(),
        state.tree_bar_step(track.y).next.tree == state.tree,
        !state.tree_bar_step(track.y).next.nav.tree_follow_selection,
{
    scrollbar_ends_reach_the_ends(track.y, track.height, state.max_tree_rows());
}

/// The ends of the tree's lower scrollbar lead to its first column and to its last ones.
pub proof fn the_tree_hbar_reaches_both_ends(state: Controller, track: Rect)
    requires
        state.screen.geom.tree_hbar == Some(track),
        1 < track.width < state.screen.geom.tree_content_width,
        track.x + track.width <= u16::MAX,
    ensures
        state.tree_hbar_step(track.x).next.nav.tree_hscroll == 0,
        state.tree_hbar_step((track.x + track.width - 1) as u16).next.nav.tree_hscroll + track.width
            == state.screen.geom.tree_content_width,
{
    scrollbar_ends_reach_the_ends(
        track.x,
        track.width,
        state.screen.geom.tree_content_width - track.width,
    );
}

/// A place on a scrollbar stands for the nearest offset to the same share of the whole.
pub proof fn scrollbars_round_to_the_nearest(pos: u16, start: u16, len: u16, max: int)
    requires
        len > 1,
        max > 0,
        start <= pos < start + len,
    ensures
        ({
            let offset = offset_at(pos, start, len, max)->0;
            let (exact, span) = ((pos - start) * max, len - 1);
            2 * (offset * span - exact) <= span && 2 * (exact - offset * span) <= span
        }),
{
    let span = len - 1;
    let exact = (pos - start) * max;
    let h = span / 2;
    let offset = (exact + h) / span;
    assert(crate::pointer::along(pos, start, len) == pos - start);
    assert(offset * span <= exact + h < offset * span + span) by (nonlinear_arith)
        requires
            span > 0,
            offset == (exact + h) / span,
    ;
}

/// A drag that scrolls is the one that was started on that bar.
pub proof fn drags_move_what_was_pressed(state: Controller, col: u16, row: u16, layout: Layout)
    ensures
        state.pointer.drag == Some(Drag::TreeV) || state.pointer.drag == Some(Drag::TreeH)
            || state.pointer.drag == Some(Drag::Divider) ==> state.drag_step(
            col,
            row,
            layout,
        ).next.nav.content_scroll == state.nav.content_scroll,
        state.pointer.drag == Some(Drag::ContentV) ==> state.drag_step(col, row, layout)
            == state.content_bar_step(row, layout) && state.drag_step(
            col,
            row,
            layout,
        ).next.nav.tree_scroll == state.nav.tree_scroll,
        state.pointer.drag == Some(Drag::ContentH) ==> state.drag_step(
            col,
            row,
            layout,
        ).next.nav.content_scroll == state.nav.content_scroll,
        state.pointer.drag is None ==> state.drag_step(col, row, layout).next == state,
        state.drag_step(col, row, layout).next.tree == state.tree,
        state.drag_step(col, row, layout).actions.len() == 0,
        state.drag_step(col, row, layout).next.pointer == state.pointer,
{
}

/// A press in the content starts a selection at the character under it, and a drag moves its other
/// end to the character under the mouse.
pub proof fn selections_follow_the_mouse(
    state: Controller,
    layout: Layout,
    col: u16,
    row: u16,
    caret: (usize, usize),
)
    requires
        call_ensures(Controller::char_at_content_col, (&state, &layout, col, row), caret),
        1 <= caret.0 <= state.pane.body.line_count(),
        state.pane.selection is Some,
        state.pane.body.line_count() <= usize::MAX,
    ensures
        state.grows_to(col, row, layout).pane.selection matches Some(s) && (s.marker, s.marker_col)
            == caret && s.char_mode && (s.anchor, s.anchor_col) == (
            state.pane.selection->0.anchor,
            state.pane.selection->0.anchor_col,
        ),
{
}

/// A press in the content starts a selection of no character at the one under it.
pub proof fn presses_start_at_the_character_under_them(
    state: Controller,
    layout: Layout,
    col: u16,
    row: u16,
    caret: (usize, usize),
)
    requires
        call_ensures(Controller::char_at_content_col, (&state, &layout, col, row), caret),
        1 <= caret.0 <= state.pane.body.line_count() <= usize::MAX,
        state.region(col, row) is Content,
        !(state.pane.body is Rendering),
    ensures
        state.press_step(col, row, layout).next.pane.selection matches Some(s) && (
        s.anchor, s.anchor_col) == caret && (s.marker, s.marker_col) == caret && s.char_mode,
{
    let focused = state.unclicked().focuses(Focus::Content).drags(None);
    assert(focused.wraps() == state.wraps());
    assert(focused.caret_under(layout, col, row) == state.caret_under(layout, col, row));
}

/// The second click on the title zooms the content, or returns to the split; the first one only
/// moves the focus.
pub proof fn the_title_zooms_on_the_second_click(state: Controller, col: u16, row: u16, now: u64)
    requires
        state.region(col, row) is ContentTitle,
    ensures
        ({
            let double = double_click(
                state.pointer.last_click,
                row,
                now,
                ClickOrigin::ContentTitle,
            );
            let next = state.click_step(col, row, now).next;
            &&& double ==> next.nav.zoomed != state.nav.zoomed && next.pointer.last_click is None
            &&& !double ==> next.nav.zoomed == state.nav.zoomed && next.nav.focus == Focus::Content
                && (next.pointer.last_click matches Some(click) && click.row == row && click.at
                == now && click.origin == ClickOrigin::ContentTitle)
        }),
{
}

/// The sideways wheel over the tree scrolls the tree, and not the content.
pub proof fn the_wheel_scrolls_the_tree_sideways(r: Run, ev: Mouse, layout: Layout, now: u64, area: Rect)
    requires
        Controller::columns_moused(r, ev, layout, now),
        !ev.modifiers.shift,
        r.from.region(ev.column, ev.row) is TreeRow,
        r.from.screen.geom.tree_inner == Some(area),
    ensures
        ev.kind == MouseKind::ScrollRight && r.from.nav.tree_hscroll + 8 + area.width
            <= r.from.screen.geom.tree_content_width ==> r.to.nav.tree_hscroll
            == r.from.nav.tree_hscroll + 8 && r.to.nav.content_hscroll
            == r.from.nav.content_hscroll,
        ev.kind == MouseKind::ScrollLeft && 8 <= r.from.nav.tree_hscroll && r.from.nav.tree_hscroll
            + area.width <= r.from.screen.geom.tree_content_width ==> r.to.nav.tree_hscroll
            == r.from.nav.tree_hscroll - 8,
{
    if ev.kind == MouseKind::ScrollRight {
        assert(r.takes(r.from.hwheel_step(ev.column, ev.row, 8)));
    }
    if ev.kind == MouseKind::ScrollLeft {
        assert(r.takes(r.from.hwheel_step(ev.column, ev.row, -8)));
    }
}

/// The ends of the finder's scrollbar select the first match and the last one.
pub proof fn the_finder_bar_reaches_both_ends(r: Run, row: u16, track: Rect)
    requires
        r.from.modal matches Modal::Finder(f) && f.ranked().len() > 1 && f.ranked().len()
            <= usize::MAX,
        r.from.screen.geom.finder_vbar == Some(track),
        track.height > 1,
        track.y + track.height <= u16::MAX,
        Controller::finder_scrolled(r, row, r.from.pointer),
    ensures
        row == track.y ==> (r.to.modal matches Modal::Finder(n) && n.position() == 0),
        row == track.y + track.height - 1 ==> (r.to.modal matches Modal::Finder(n) && n.position()
            == n.ranked().len() - 1),
{
    let max = r.from.modal->Finder_0.ranked().len() - 1;
    scrollbar_ends_reach_the_ends(track.y, track.height, max);
}

/// The switch of the finder's scope searches the other one for the same text.
pub proof fn the_finder_switch_changes_the_scope(r: Run, ev: Mouse, now: u64)
    requires
        Controller::finder_moused(r, ev, now),
        r.from.modal is Finder,
        !ev.modifiers.shift,
        ev.kind == MouseKind::Up(MouseButton::Left),
        r.from.pointer.drag is None,
        within(r.from.screen.geom.finder_scope_button, ev.column, ev.row),
    ensures
        r.to.modal matches Modal::Finder(n) && n.whole() != (r.from.modal->Finder_0).whole()
            && n.query_text() == (r.from.modal->Finder_0).query_text(),
        r.after == r.before,
{
}

/// The switch of the full-text search searches the other scope for the same text, and the wheel
/// moves its selection.
pub proof fn the_search_switch_changes_the_scope(r: Run, ev: Mouse)
    requires
        Controller::search_overlay_moused(r, ev),
        r.from.modal is WorkspaceSearch,
        !ev.modifiers.shift,
    ensures
        ev.kind == MouseKind::Up(MouseButton::Left) && within(
            r.from.screen.geom.workspace_search_scope_button,
            ev.column,
            ev.row,
        ) ==> (r.to.modal matches Modal::WorkspaceSearch(n) && n.workspace
            != r.from.modal->WorkspaceSearch_0.workspace && n.input.text()
            == r.from.modal->WorkspaceSearch_0.input.text()),
        ev.kind == MouseKind::ScrollDown && r.from.modal->WorkspaceSearch_0.cursor
            + r.from.prefs.wheel_step < r.from.modal->WorkspaceSearch_0.matches@.len() ==> (
        r.to.modal matches Modal::WorkspaceSearch(n) && n.cursor
            == r.from.modal->WorkspaceSearch_0.cursor + r.from.prefs.wheel_step),
        ev.kind == MouseKind::ScrollUp && r.from.modal->WorkspaceSearch_0.cursor
            >= r.from.prefs.wheel_step && r.from.modal->WorkspaceSearch_0.cursor
            < r.from.modal->WorkspaceSearch_0.matches@.len() ==> (
        r.to.modal matches Modal::WorkspaceSearch(n) && n.cursor
            == r.from.modal->WorkspaceSearch_0.cursor - r.from.prefs.wheel_step),
{
    let s = r.from.modal->WorkspaceSearch_0;
    let len: usize = s.matches.len();
    assert(len == s.matches@.len());
}

/// The tab of the help overlay that a cell lies in is the first one that holds it.
pub proof fn tabs_are_hit_where_they_are_drawn(
    tabs: Seq<(usize, Rect)>,
    col: u16,
    row: u16,
    k: int,
)
    requires
        0 <= k < tabs.len(),
        tabs[k].1.holds(col, row),
        forall|i: int| 0 <= i < k ==> !(#[trigger] tabs[i]).1.holds(col, row),
    ensures
        Controller::tab_at(tabs, col, row) == Some(tabs[k].0),
    decreases k,
{
    if k > 0 {
        assert(!tabs[0].1.holds(col, row));
        assert forall|i: int| 0 <= i < k - 1 implies !(#[trigger] tabs.skip(1)[i]).1.holds(
            col,
            row,
        ) by {
            assert(tabs.skip(1)[i] == tabs[i + 1]);
        }
        tabs_are_hit_where_they_are_drawn(tabs.skip(1), col, row, k - 1);
    }
}

/// A press on a tab of the help overlay shows its section; the wheel scrolls the shown one, down
/// and up.
pub proof fn the_help_follows_the_mouse(r: Run, ev: Mouse)
    requires
        Controller::help_moused(r, ev),
        r.from.modal matches Modal::Help(h) && h.active < h.sections@.len(),
        !ev.modifiers.shift,
    ensures
        ({
            let h = r.from.modal->Help_0;
            let geom = r.from.screen.geom;
            let at = h.active as int;
            let step = r.from.prefs.wheel_step;
            &&& (ev.kind == MouseKind::Down(MouseButton::Left) && (Controller::tab_at(
                geom.help_tabs@,
                ev.column,
                ev.row,
            ) matches Some(k) && k < h.sections@.len())) ==> (r.to.modal matches Modal::Help(n)
                && Some(n.active) == Controller::tab_at(geom.help_tabs@, ev.column, ev.row))
            &&& ev.kind == MouseKind::ScrollDown && h.sections@[at].scroll + step
                + geom.help_body_height <= geom.help_body_rows ==> (r.to.modal matches Modal::Help(
                n,
            ) && n.active == h.active && n.sections@[at].scroll == h.sections@[at].scroll + step)
            &&& ev.kind == MouseKind::ScrollUp && h.sections@[at].scroll >= step
                && h.sections@[at].scroll + geom.help_body_height <= geom.help_body_rows ==> (
            r.to.modal matches Modal::Help(n) && n.active == h.active && n.sections@[at].scroll
                == h.sections@[at].scroll - step)
        }),
        r.after == r.before,
{
    assert(r.before + Seq::<Action>::empty() =~= r.before);
}

/// A cell lies in a rectangle that starts at or before it and ends behind it.
pub proof fn rectangles_hold_their_cells(rect: Rect, col: u16, row: u16)
    requires
        rect.x + rect.width <= u16::MAX,
        rect.y + rect.height <= u16::MAX,
    ensures
        rect.holds(col, row) <==> rect.x <= col < rect.x + rect.width && rect.y <= row < rect.y
            + rect.height,
        within(Some(rect), col, row) == rect.holds(col, row),
        !within(None, col, row),
{
}

} // verus!
