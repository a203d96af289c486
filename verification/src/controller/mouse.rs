//! The mouse over the two columns.

use super::actions::{run, Action, Clip, Effects, Run, Step, Then, TreeOp};
use super::content::{at_most, between, less, Layout};
use super::scroll::shifted;
use super::state::{
    Body, Controller, Drag, Focus, Modal, Navigation, NodeKind, Pane, PaneGeometry, Pointer,
    HSCROLL_STEP,
};
use crate::config::TreePosition;
use crate::input::{is_within, within, Mouse, MouseButton, MouseKind};
use crate::pointer::{
    double_click, is_double_click, offset_at, track_to_offset, Click, ClickOrigin,
};
use crate::selection::LineSelectState;
use vstd::prelude::*;

verus! {

/// What a cell of the last frame belongs to.
#[derive(Debug, Clone, Copy, PartialEq, Eq, Structural)]
pub enum MouseRegion {
    /// A row of the tree, which may lie below the last one.
    TreeRow(usize),
    TreeCollapseButton,
    TreePinButton,
    TreeCloseButton,
    Content,
    /// The title above the content.
    ContentTitle,
    Divider,
    ContentVBar,
    ContentHBar,
    TreeVBar,
    TreeHBar,
    Outside,
}

impl Controller {
    /// What a cell of the last frame belongs to. The divider comes first, then buttons and
    /// scrollbars, which lie inside the panes.
    pub open spec fn region(self, col: u16, row: u16) -> MouseRegion {
        let geom = self.screen.geom;
        if geom.divider_x matches Some(x) && (col == x || col + 1 == x) {
            MouseRegion::Divider
        } else if within(geom.tree_collapse_button, col, row) {
            MouseRegion::TreeCollapseButton
        } else if within(geom.tree_pin_button, col, row) {
            MouseRegion::TreePinButton
        } else if within(geom.tree_close_button, col, row) {
            MouseRegion::TreeCloseButton
        } else if within(geom.content_vbar, col, row) {
            MouseRegion::ContentVBar
        } else if within(geom.content_hbar, col, row) {
            MouseRegion::ContentHBar
        } else if within(geom.tree_vbar, col, row) {
            MouseRegion::TreeVBar
        } else if within(geom.tree_hbar, col, row) {
            MouseRegion::TreeHBar
        } else if within(geom.tree_inner, col, row) {
            MouseRegion::TreeRow(((row - geom.tree_inner->0.y) + geom.tree_scroll) as usize)
        } else if within(geom.content_title_rect, col, row) {
            MouseRegion::ContentTitle
        } else if within(geom.content_inner, col, row) {
            MouseRegion::Content
        } else {
            MouseRegion::Outside
        }
    }

    /// What a cell of the last frame belongs to.
    pub fn hit_test(&self, col: u16, row: u16) -> (r: MouseRegion)
        ensures
            r == self.region(col, row),
    {
        let geom = &self.screen.geom;
        if let Some(x) = geom.divider_x {
            if col == x || (x > 0 && col == x - 1) {
                return MouseRegion::Divider;
            }
        }
        if is_within(geom.tree_collapse_button, col, row) {
            return MouseRegion::TreeCollapseButton;
        }
        if is_within(geom.tree_pin_button, col, row) {
            return MouseRegion::TreePinButton;
        }
        if is_within(geom.tree_close_button, col, row) {
            return MouseRegion::TreeCloseButton;
        }
        if is_within(geom.content_vbar, col, row) {
            return MouseRegion::ContentVBar;
        }
        if is_within(geom.content_hbar, col, row) {
            return MouseRegion::ContentHBar;
        }
        if is_within(geom.tree_vbar, col, row) {
            return MouseRegion::TreeVBar;
        }
        if is_within(geom.tree_hbar, col, row) {
            return MouseRegion::TreeHBar;
        }
        if let Some(area) = geom.tree_inner {
            if area.contains(col, row) {
                return MouseRegion::TreeRow(
                    (row - area.y) as usize + geom.tree_scroll as usize,
                );
            }
        }
        if is_within(geom.content_title_rect, col, row) {
            return MouseRegion::ContentTitle;
        }
        if is_within(geom.content_inner, col, row) {
            return MouseRegion::Content;
        }
        MouseRegion::Outside
    }

    /// No click waits for a second one.
    pub open spec fn unclicked(self) -> Controller {
        Controller { pointer: Pointer { last_click: None, ..self.pointer }, ..self }
    }

    /// A click waits for a second one.
    pub open spec fn clicked(self, col: u16, row: u16, now: u64, origin: ClickOrigin) -> Controller {
        Controller {
            pointer: Pointer {
                last_click: Some(Click { column: col, row, at: now, origin }),
                ..self.pointer
            },
            ..self
        }
    }

    /// The button drags something, or nothing.
    pub open spec fn drags(self, drag: Option<Drag>) -> Controller {
        Controller { pointer: Pointer { drag, ..self.pointer }, ..self }
    }

    /// A pane has the focus.
    pub open spec fn focuses(self, focus: Focus) -> Controller {
        Controller { nav: Navigation { focus, ..self.nav }, ..self }
    }

    /// Characters are selected, or none.
    pub open spec fn marks_chars(self, selection: Option<LineSelectState>) -> Controller {
        Controller { pane: Pane { selection, ..self.pane }, ..self }
    }

    /// The rows of the tree below its pane.
    pub open spec fn max_tree_rows(self) -> int {
        let height = match self.screen.geom.tree_inner {
            Some(area) => area.height as int,
            None => 0,
        };
        at_most(less(self.tree.nodes@.len() as int, height), u16::MAX as int)
    }

    /// The tree scrolled to a row, whatever is selected.
    pub open spec fn tree_scrolled_to(self, offset: int) -> Controller {
        Controller {
            nav: Navigation {
                focus: Focus::Tree,
                tree_scroll: offset as u16,
                tree_follow_selection: false,
                ..self.nav
            },
            ..self
        }
    }

    /// The wheel scrolls the pane under it. The tree scrolls without moving the selection.
    pub open spec fn wheel_step(self, col: u16, row: u16, delta: int, layout: Layout) -> Step {
        match self.region(col, row) {
            MouseRegion::Content => self.scrolled(layout, delta).shows(),
            MouseRegion::TreeRow(_) | MouseRegion::TreeVBar => self.tree_scrolled_to(
                between(self.nav.tree_scroll + delta, 0, self.max_tree_rows()),
            ).shows(),
            _ => self.quiet(),
        }
    }

    /// The wheel scrolls the pane under it sideways.
    pub open spec fn hwheel_step(self, col: u16, row: u16, delta: int) -> Step {
        match self.region(col, row) {
            MouseRegion::Content => self.hscrolled(delta).shows(),
            MouseRegion::TreeRow(_) => self.tree_hscroll_step(delta),
            _ => self.quiet(),
        }
    }

    /// The content scrolls to where its scrollbar is pressed.
    pub open spec fn content_bar_step(self, row: u16, layout: Layout) -> Step {
        match self.screen.geom.content_vbar {
            Some(track) => match offset_at(
                row,
                track.y,
                track.height,
                self.max_scroll(layout),
            ) {
                Some(offset) => self.scrolled_to(offset).shows(),
                None => self.quiet(),
            },
            None => self.quiet(),
        }
    }

    /// The content scrolls sideways to where its scrollbar is pressed.
    pub open spec fn content_hbar_step(self, col: u16) -> Step {
        match self.screen.geom.content_hbar {
            Some(track) => match offset_at(col, track.x, track.width, self.max_hscroll()) {
                Some(offset) => self.hscrolled_to(offset).shows(),
                None => self.quiet(),
            },
            None => self.quiet(),
        }
    }

    /// The tree scrolls to where its scrollbar is pressed.
    pub open spec fn tree_bar_step(self, row: u16) -> Step {
        match self.screen.geom.tree_vbar {
            Some(track) => match offset_at(row, track.y, track.height, self.max_tree_rows()) {
                Some(offset) => self.tree_scrolled_to(offset).shows(),
                None => self.quiet(),
            },
            None => self.quiet(),
        }
    }

    /// The tree scrolls sideways to where its scrollbar is pressed.
    pub open spec fn tree_hbar_step(self, col: u16) -> Step {
        match self.screen.geom.tree_hbar {
            Some(track) => match offset_at(
                col,
                track.x,
                track.width,
                less(self.screen.geom.tree_content_width as int, track.width as int),
            ) {
                Some(offset) => self.tree_hscrolled_to(offset).shows(),
                None => self.quiet(),
            },
            None => self.quiet(),
        }
    }

    /// The columns of the tree if the divider stood at a column.
    pub open spec fn tree_columns(self, col: u16) -> int {
        let geom = self.screen.geom;
        match self.prefs.tree_position {
            TreePosition::Left => less(col as int, geom.area_x as int),
            TreePosition::Right => less(geom.area_x + geom.area_width, col as int),
        }
    }

    /// The divider follows the mouse.
    pub open spec fn divider_step(self, col: u16) -> Step {
        let width = self.screen.geom.area_width;
        if width == 0 {
            self.quiet()
        } else {
            let taken = self.takes_split();
            taken.split_at((taken.tree_columns(col) * 100) / (width as int)).shows()
        }
    }

    /// The content scrolls a row when the mouse is dragged past its edge.
    pub open spec fn autoscrolled(self, row: u16, layout: Layout) -> Controller {
        match self.screen.geom.content_inner {
            Some(area) => if row < area.y {
                self.scrolled(layout, -1)
            } else if row >= area.y + area.height {
                self.scrolled(layout, 1)
            } else {
                self
            },
            None => self,
        }
    }

    /// The number of the last displayed line.
    pub open spec fn last_line(self) -> usize {
        if self.pane.body.line_count() == 0 {
            1
        } else {
            self.pane.body.line_count() as usize
        }
    }

    /// What a press on a region outside the content drags.
    pub open spec fn drag_of(region: MouseRegion) -> Option<Drag> {
        match region {
            MouseRegion::Divider => Some(Drag::Divider),
            MouseRegion::ContentVBar => Some(Drag::ContentV),
            MouseRegion::ContentHBar => Some(Drag::ContentH),
            MouseRegion::TreeVBar => Some(Drag::TreeV),
            MouseRegion::TreeHBar => Some(Drag::TreeH),
            _ => None,
        }
    }

    /// A press in the content starts a selection at the character under it, unless that is only a
    /// placeholder. A press elsewhere ends a selection; on a scrollbar it scrolls.
    pub open spec fn press_step(self, col: u16, row: u16, layout: Layout) -> Step {
        let region = self.region(col, row);
        if region == MouseRegion::Content {
            let focused = self.unclicked().focuses(Focus::Content).drags(None);
            if self.pane.body is Rendering {
                focused.shows()
            } else {
                let (line, caret) = focused.caret_under(layout, col, row);
                focused.marks_chars(
                    Some(
                        LineSelectState::at_caret(
                            line as usize,
                            caret as usize,
                            focused.last_line(),
                        ),
                    ),
                ).drags(Some(Drag::ContentSelect)).shows()
            }
        } else {
            let pressed = self.marks_chars(None).drags(Self::drag_of(region));
            let step = match region {
                MouseRegion::ContentVBar => pressed.content_bar_step(row, layout),
                MouseRegion::ContentHBar => pressed.content_hbar_step(col),
                MouseRegion::TreeVBar => pressed.tree_bar_step(row),
                MouseRegion::TreeHBar => pressed.tree_hbar_step(col),
                _ => pressed.quiet(),
            };
            if self.pane.selection is Some {
                Step { effects: Effects::repaint(), ..step }
            } else {
                step
            }
        }
    }

    /// A selection grows to the character under the mouse.
    pub open spec fn grows_to(self, col: u16, row: u16, layout: Layout) -> Controller {
        let (line, caret) = self.caret_under(layout, col, row);
        self.marks_chars(
            match self.pane.selection {
                Some(s) => Some(s.dragged(line as usize, caret as usize, self.last_line())),
                None => None,
            },
        )
    }

    /// The mouse moves with its button held.
    pub open spec fn drag_step(self, col: u16, row: u16, layout: Layout) -> Step {
        match self.pointer.drag {
            Some(Drag::Divider) => self.divider_step(col),
            Some(Drag::ContentV) => self.content_bar_step(row, layout),
            Some(Drag::ContentH) => self.content_hbar_step(col),
            Some(Drag::TreeV) => self.tree_bar_step(row),
            Some(Drag::TreeH) => self.tree_hbar_step(col),
            Some(Drag::ContentSelect) => self.grows_to(col, row, layout).autoscrolled(
                row,
                layout,
            ).shows(),
            _ => self.quiet(),
        }
    }

    /// Nothing is selected, or a selection without characters.
    pub open spec fn selection_collapsed(self) -> bool {
        match self.pane.selection {
            Some(s) => s.caret_span().0 == s.caret_span().1,
            None => true,
        }
    }

    /// The button is released: a selection is copied, a scrollbar let go, and without a drag it was
    /// a click.
    pub open spec fn release_step(self, col: u16, row: u16, now: u64) -> Step {
        let let_go = self.drags(None);
        match self.pointer.drag {
            Some(Drag::ContentSelect) => if self.selection_collapsed() {
                let_go.unclicked().marks_chars(None).focuses(Focus::Content).shows()
            } else {
                let_go.unclicked().copy_dragged_step()
            },
            Some(_) => let_go.unclicked().quiet(),
            None => let_go.click_step(col, row, now),
        }
    }

    /// A click: on a row it selects, and the second one activates; on the title the second one
    /// zooms; on the content it moves the focus.
    pub open spec fn click_step(self, col: u16, row: u16, now: u64) -> Step {
        match self.region(col, row) {
            MouseRegion::TreeCollapseButton => self.unclicked().focuses(
                Focus::Tree,
            ).collapse_all_step(),
            MouseRegion::TreePinButton => self.unclicked().pin_step(),
            MouseRegion::TreeCloseButton => self.unclicked().close_explicitly_step(),
            MouseRegion::TreeRow(index) => if index >= self.tree.nodes@.len() {
                self.unclicked().quiet()
            } else {
                self.click_row_step(
                    col,
                    row,
                    now,
                    index,
                    double_click(self.pointer.last_click, row, now, ClickOrigin::Tree),
                )
            },
            MouseRegion::ContentTitle => {
                let focused = self.focuses(Focus::Content);
                if double_click(self.pointer.last_click, row, now, ClickOrigin::ContentTitle) {
                    focused.unclicked().zoom_step()
                } else {
                    focused.clicked(col, row, now, ClickOrigin::ContentTitle).shows()
                }
            },
            MouseRegion::Content => self.unclicked().focuses(Focus::Content).shows(),
            _ => self.unclicked().quiet(),
        }
    }

    /// A click on a row of the tree.
    pub open spec fn click_row_step(
        self,
        col: u16,
        row: u16,
        now: u64,
        index: usize,
        double: bool,
    ) -> Step {
        let chosen = Controller {
            notice: None,
            ..self.clicked(col, row, now, ClickOrigin::Tree).focuses(Focus::Tree).selects(
                index as int,
            )
        };
        if double {
            let opened = chosen.refreshed().activate_step();
            Step { actions: chosen.refresh_actions() + opened.actions, ..opened }
        } else {
            chosen.renders()
        }
    }

    /// The right button on a row selects it and opens its menu.
    pub open spec fn right_pressed(r: Run, col: u16, row: u16) -> bool {
        match r.from.region(col, row) {
            MouseRegion::TreeRow(index) if index < r.from.tree.nodes@.len() => {
                let chosen = r.from.focuses(Focus::Tree).selects(index as int);
                &&& r.to.modal matches Modal::ContextMenu(menu) && menu.fresh((col, row))
                &&& r.takes(
                    Step {
                        next: Controller { modal: r.to.modal, ..chosen.refreshed() },
                        ..chosen.renders()
                    },
                )
            },
            _ => r.takes(r.from.quiet()),
        }
    }

    /// A mouse event over the columns. With Shift it belongs to the terminal.
    pub open spec fn columns_moused(r: Run, ev: Mouse, layout: Layout, now: u64) -> bool {
        let s = r.from;
        let wheel = s.prefs.wheel_step as int;
        let across = HSCROLL_STEP as int;
        if ev.modifiers.shift {
            r.takes(s.quiet())
        } else {
            match ev.kind {
                MouseKind::ScrollDown => r.takes(s.wheel_step(ev.column, ev.row, wheel, layout)),
                MouseKind::ScrollUp => r.takes(s.wheel_step(ev.column, ev.row, -wheel, layout)),
                MouseKind::ScrollRight => r.takes(s.hwheel_step(ev.column, ev.row, across)),
                MouseKind::ScrollLeft => r.takes(s.hwheel_step(ev.column, ev.row, -across)),
                MouseKind::Down(MouseButton::Left) => r.takes(
                    s.press_step(ev.column, ev.row, layout),
                ),
                MouseKind::Drag(MouseButton::Left) => r.takes(
                    s.drag_step(ev.column, ev.row, layout),
                ),
                MouseKind::Up(MouseButton::Left) => r.takes(
                    s.release_step(ev.column, ev.row, now),
                ),
                MouseKind::Down(MouseButton::Right) => Self::right_pressed(r, ev.column, ev.row),
                _ => r.takes(s.quiet()),
            }
        }
    }

    /// A mouse event while lines are selected: a press in the content starts a selection of
    /// characters, a drag extends it, and nothing else does anything.
    pub open spec fn line_mouse_step(self, ev: Mouse, layout: Layout) -> Step {
        let s = self.modal->LineSelect_0;
        let (line, caret) = self.caret_under(layout, ev.column, ev.row);
        if ev.modifiers.shift {
            self.quiet()
        } else {
            match ev.kind {
                MouseKind::Down(MouseButton::Left) => if self.region(ev.column, ev.row)
                    == MouseRegion::Content {
                    Controller {
                        modal: Modal::LineSelect(
                            LineSelectState::at_caret(
                                line as usize,
                                caret as usize,
                                self.last_line(),
                            ),
                        ),
                        ..self
                    }.drags(Some(Drag::ContentSelect)).shows()
                } else {
                    self.drags(None).quiet()
                },
                MouseKind::Drag(MouseButton::Left) => if self.pointer.drag == Some(
                    Drag::ContentSelect,
                ) {
                    Controller {
                        modal: Modal::LineSelect(
                            s.dragged(line as usize, caret as usize, self.last_line()),
                        ),
                        ..self
                    }.autoscrolled(ev.row, layout).shows()
                } else {
                    self.quiet()
                },
                MouseKind::Up(MouseButton::Left) => if self.pointer.drag == Some(
                    Drag::ContentSelect,
                ) {
                    self.drags(None).shows()
                } else {
                    self.quiet()
                },
                _ => self.quiet(),
            }
        }
    }

    /// A mouse event: the open overlay takes it, or the columns do.
    pub open spec fn moused(r: Run, ev: Mouse, layout: Layout, now: u64) -> bool {
        match r.from.modal {
            Modal::Closed => Self::columns_moused(r, ev, layout, now),
            Modal::LineSelect(_) => r.takes(r.from.line_mouse_step(ev, layout)),
            Modal::Help(_) => Self::help_moused(r, ev),
            Modal::Finder(_) => Self::finder_moused(r, ev, now),
            Modal::WorkspaceSearch(_) => Self::search_overlay_moused(r, ev),
            Modal::ContextMenu(_) => Self::menu_moused(r, ev, layout, now),
            _ => r.takes(r.from.quiet()),
        }
    }

    /// Takes a mouse event.
    pub fn handle_mouse(&mut self, ev: Mouse, layout: &Layout, now: u64, out: &mut Vec<Action>) -> (r:
        Effects)
        ensures
            Self::moused(
                run(*old(self), *final(self), r, old(out)@, final(out)@),
                ev,
                *layout,
                now,
            ),
    {
        match &self.modal {
            Modal::Closed => self.handle_column_mouse(ev, layout, now, out),
            Modal::LineSelect(_) => self.handle_line_select_mouse(ev, layout, out),
            Modal::Help(_) => self.handle_help_mouse(ev, out),
            Modal::Finder(_) => self.handle_finder_mouse(ev, now, out),
            Modal::WorkspaceSearch(_) => self.handle_workspace_search_mouse(ev, out),
            Modal::ContextMenu(_) => self.handle_context_menu_mouse(ev, layout, now, out),
            _ => Effects::noop(),
        }
    }

    /// A mouse event over the columns.
    fn handle_column_mouse(
        &mut self,
        ev: Mouse,
        layout: &Layout,
        now: u64,
        out: &mut Vec<Action>,
    ) -> (r: Effects)
        ensures
            Self::columns_moused(
                run(*old(self), *final(self), r, old(out)@, final(out)@),
                ev,
                *layout,
                now,
            ),
    {
        if ev.modifiers.shift {
            return Effects::noop();
        }
        let wheel: i32 = self.prefs.wheel_step as i32;
        let across: i32 = HSCROLL_STEP as i32;
        match ev.kind {
            MouseKind::ScrollDown => self.scroll_at(ev.column, ev.row, wheel, layout, out),
            MouseKind::ScrollUp => self.scroll_at(ev.column, ev.row, -wheel, layout, out),
            MouseKind::ScrollRight => self.hscroll_at(ev.column, ev.row, across, out),
            MouseKind::ScrollLeft => self.hscroll_at(ev.column, ev.row, -across, out),
            MouseKind::Down(MouseButton::Left) => self.press(ev.column, ev.row, layout, out),
            MouseKind::Drag(MouseButton::Left) => self.drag_to(ev.column, ev.row, layout, out),
            MouseKind::Up(MouseButton::Left) => self.release(ev.column, ev.row, now, out),
            MouseKind::Down(MouseButton::Right) => self.press_right(ev.column, ev.row, out),
            _ => Effects::noop(),
        }
    }

    /// Scrolls the pane under the mouse.
    fn scroll_at(
        &mut self,
        col: u16,
        row: u16,
        delta: i32,
        layout: &Layout,
        out: &mut Vec<Action>,
    ) -> (r: Effects)
        ensures
            run(*old(self), *final(self), r, old(out)@, final(out)@).takes(
                old(self).wheel_step(col, row, delta as int, *layout),
            ),
    {
        match self.hit_test(col, row) {
            MouseRegion::Content => {
                self.scroll_content(layout, delta);
                Effects::redraw()
            },
            MouseRegion::TreeRow(_) | MouseRegion::TreeVBar => {
                let max: u16 = self.max_tree_scroll();
                let next: u16 = shifted(self.nav.tree_scroll, delta, max);
                self.set_tree_scroll(next);
                Effects::redraw()
            },
            _ => Effects::noop(),
        }
    }

    /// Scrolls the tree to a row.
    fn set_tree_scroll(&mut self, offset: u16)
        ensures
            *final(self) == old(self).tree_scrolled_to(offset as int),
    {
        self.nav = Navigation {
            focus: Focus::Tree,
            tree_scroll: offset,
            tree_follow_selection: false,
            ..self.nav
        };
    }

    /// The rows of the tree below its pane.
    fn max_tree_scroll(&self) -> (r: u16)
        ensures
            r == self.max_tree_rows(),
    {
        let height: usize = match self.screen.geom.tree_inner {
            Some(area) => area.height as usize,
            None => 0,
        };
        let below: usize = self.tree.nodes.len().saturating_sub(height);
        if below > u16::MAX as usize {
            u16::MAX
        } else {
            below as u16
        }
    }

    /// Scrolls the pane under the mouse sideways.
    fn hscroll_at(&mut self, col: u16, row: u16, delta: i32, out: &mut Vec<Action>) -> (r: Effects)
        ensures
            run(*old(self), *final(self), r, old(out)@, final(out)@).takes(
                old(self).hwheel_step(col, row, delta as int),
            ),
    {
        match self.hit_test(col, row) {
            MouseRegion::Content => self.scroll_content_h(delta),
            MouseRegion::TreeRow(_) => self.scroll_tree_h(delta),
            _ => Effects::noop(),
        }
    }

    /// Scrolls the content to where its scrollbar is pressed.
    fn scroll_content_to_row(&mut self, row: u16, layout: &Layout) -> (r: Effects)
        ensures
            run(*old(self), *final(self), r, Seq::empty(), Seq::empty()).takes(
                old(self).content_bar_step(row, *layout),
            ),
    {
        let max: u16 = self.max_content_scroll(layout);
        match self.screen.geom.content_vbar {
            Some(track) => match track_to_offset(row, track.y, track.height, max) {
                Some(offset) => {
                    self.nav.content_scroll = offset;
                    Effects::redraw()
                },
                None => Effects::noop(),
            },
            None => Effects::noop(),
        }
    }

    /// Scrolls the content sideways to where its scrollbar is pressed.
    fn scroll_content_h_to_col(&mut self, col: u16) -> (r: Effects)
        ensures
            run(*old(self), *final(self), r, Seq::empty(), Seq::empty()).takes(
                old(self).content_hbar_step(col),
            ),
    {
        let max: u16 = self.max_content_hscroll();
        match self.screen.geom.content_hbar {
            Some(track) => match track_to_offset(col, track.x, track.width, max) {
                Some(offset) => {
                    self.nav.content_hscroll = offset;
                    Effects::redraw()
                },
                None => Effects::noop(),
            },
            None => Effects::noop(),
        }
    }

    /// Scrolls the tree to where its scrollbar is pressed.
    fn scroll_tree_to_row(&mut self, row: u16) -> (r: Effects)
        ensures
            run(*old(self), *final(self), r, Seq::empty(), Seq::empty()).takes(
                old(self).tree_bar_step(row),
            ),
    {
        let max: u16 = self.max_tree_scroll();
        match self.screen.geom.tree_vbar {
            Some(track) => match track_to_offset(row, track.y, track.height, max) {
                Some(offset) => {
                    self.set_tree_scroll(offset);
                    Effects::redraw()
                },
                None => Effects::noop(),
            },
            None => Effects::noop(),
        }
    }

    /// Scrolls the tree sideways to where its scrollbar is pressed.
    fn scroll_tree_h_to_col(&mut self, col: u16) -> (r: Effects)
        ensures
            run(*old(self), *final(self), r, Seq::empty(), Seq::empty()).takes(
                old(self).tree_hbar_step(col),
            ),
    {
        match self.screen.geom.tree_hbar {
            Some(track) => {
                let max: u16 = self.screen.geom.tree_content_width.saturating_sub(track.width);
                match track_to_offset(col, track.x, track.width, max) {
                    Some(offset) => {
                        self.nav.tree_hscroll = offset;
                        Effects::redraw()
                    },
                    None => Effects::noop(),
                }
            },
            None => Effects::noop(),
        }
    }

    /// Moves the divider to a column.
    fn resize_split_to_col(&mut self, col: u16) -> (r: Effects)
        ensures
            run(*old(self), *final(self), r, Seq::empty(), Seq::empty()).takes(
                old(self).divider_step(col),
            ),
    {
        let width: u16 = self.screen.geom.area_width;
        if width == 0 {
            return Effects::noop();
        }
        self.engage_manual_split();
        let columns: u32 = match self.prefs.tree_position {
            TreePosition::Left => col.saturating_sub(self.screen.geom.area_x) as u32,
            TreePosition::Right => {
                let edge: u32 = self.screen.geom.area_x as u32 + self.screen.geom.area_width as u32;
                if edge > col as u32 {
                    edge - col as u32
                } else {
                    0
                }
            },
        };
        let pct: u32 = columns * 100 / width as u32;
        self.set_split(pct as i64);
        Effects::redraw()
    }

    /// Scrolls the content a row when the mouse is past its edge.
    fn autoscroll_selection(&mut self, row: u16, layout: &Layout)
        ensures
            *final(self) == old(self).autoscrolled(row, *layout),
    {
        if let Some(area) = self.screen.geom.content_inner {
            if row < area.y {
                self.scroll_content(layout, -1);
            } else if row as u32 >= area.y as u32 + area.height as u32 {
                self.scroll_content(layout, 1);
            }
        }
    }

    /// The number of the last displayed line.
    fn last_line_number(&self) -> (r: usize)
        ensures
            r == self.last_line(),
    {
        let count: usize = self.pane.body.len();
        if count == 0 {
            1
        } else {
            count
        }
    }

    /// A press of the left button over the columns.
    fn press(&mut self, col: u16, row: u16, layout: &Layout, out: &mut Vec<Action>) -> (r: Effects)
        ensures
            run(*old(self), *final(self), r, old(out)@, final(out)@).takes(
                old(self).press_step(col, row, *layout),
            ),
    {
        let region = self.hit_test(col, row);
        if region == MouseRegion::Content {
            self.pointer = Pointer { last_click: None, drag: None };
            self.nav.focus = Focus::Content;
            let placeholder = match &self.pane.body {
                Body::Rendering => true,
                _ => false,
            };
            if placeholder {
                return Effects::redraw();
            }
            let (line, caret): (usize, usize) = self.char_at_content_col(layout, col, row);
            let last: usize = self.last_line_number();
            let mut selection = LineSelectState::new(line);
            selection.begin_char(line, caret, last);
            self.pane.selection = Some(selection);
            self.pointer.drag = Some(Drag::ContentSelect);
            return Effects::redraw();
        }
        let had_selection = self.pane.selection.is_some();
        self.pane.selection = None;
        self.pointer.drag = match region {
            MouseRegion::Divider => Some(Drag::Divider),
            MouseRegion::ContentVBar => Some(Drag::ContentV),
            MouseRegion::ContentHBar => Some(Drag::ContentH),
            MouseRegion::TreeVBar => Some(Drag::TreeV),
            MouseRegion::TreeHBar => Some(Drag::TreeH),
            _ => None,
        };
        let effects = match region {
            MouseRegion::ContentVBar => self.scroll_content_to_row(row, layout),
            MouseRegion::ContentHBar => self.scroll_content_h_to_col(col),
            MouseRegion::TreeVBar => self.scroll_tree_to_row(row),
            MouseRegion::TreeHBar => self.scroll_tree_h_to_col(col),
            _ => Effects::noop(),
        };
        if had_selection {
            Effects::redraw()
        } else {
            effects
        }
    }

    /// The mouse moved with its left button held.
    fn drag_to(&mut self, col: u16, row: u16, layout: &Layout, out: &mut Vec<Action>) -> (r: Effects)
        ensures
            run(*old(self), *final(self), r, old(out)@, final(out)@).takes(
                old(self).drag_step(col, row, *layout),
            ),
    {
        match self.pointer.drag {
            Some(Drag::Divider) => self.resize_split_to_col(col),
            Some(Drag::ContentV) => self.scroll_content_to_row(row, layout),
            Some(Drag::ContentH) => self.scroll_content_h_to_col(col),
            Some(Drag::TreeV) => self.scroll_tree_to_row(row),
            Some(Drag::TreeH) => self.scroll_tree_h_to_col(col),
            Some(Drag::ContentSelect) => {
                let (line, caret): (usize, usize) = self.char_at_content_col(layout, col, row);
                let last: usize = self.last_line_number();
                if let Some(s) = self.pane.selection {
                    let mut selection = s;
                    selection.drag_char(line, caret, last);
                    self.pane.selection = Some(selection);
                }
                self.autoscroll_selection(row, layout);
                Effects::redraw()
            },
            _ => Effects::noop(),
        }
    }

    /// The left button was released over the columns.
    fn release(&mut self, col: u16, row: u16, now: u64, out: &mut Vec<Action>) -> (r: Effects)
        ensures
            run(*old(self), *final(self), r, old(out)@, final(out)@).takes(
                old(self).release_step(col, row, now),
            ),
    {
        let drag = self.pointer.drag;
        self.pointer.drag = None;
        match drag {
            Some(Drag::ContentSelect) => {
                let collapsed = match &self.pane.selection {
                    Some(s) => {
                        let (lo, hi) = s.char_span();
                        lo.0 == hi.0 && lo.1 == hi.1
                    },
                    None => true,
                };
                self.pointer.last_click = None;
                if collapsed {
                    self.pane.selection = None;
                    self.nav.focus = Focus::Content;
                    Effects::redraw()
                } else {
                    self.copy_content_selection(out)
                }
            },
            Some(_) => {
                self.pointer.last_click = None;
                Effects::noop()
            },
            None => self.handle_click(col, row, now, out),
        }
    }

    /// The left button was clicked over the columns.
    fn handle_click(&mut self, col: u16, row: u16, now: u64, out: &mut Vec<Action>) -> (r: Effects)
        ensures
            run(*old(self), *final(self), r, old(out)@, final(out)@).takes(
                old(self).click_step(col, row, now),
            ),
    {
        let previous = self.pointer.last_click;
        match self.hit_test(col, row) {
            MouseRegion::TreeCollapseButton => {
                self.pointer.last_click = None;
                self.nav.focus = Focus::Tree;
                self.collapse_all(out)
            },
            MouseRegion::TreePinButton => {
                self.pointer.last_click = None;
                self.toggle_pin(out)
            },
            MouseRegion::TreeCloseButton => {
                self.pointer.last_click = None;
                self.close_explicitly(out)
            },
            MouseRegion::TreeRow(index) => {
                if index >= self.tree.nodes.len() {
                    self.pointer.last_click = None;
                    return Effects::noop();
                }
                let double = is_double_click(previous, (col, row), now, ClickOrigin::Tree);
                self.click_row(col, row, now, index, double, out)
            },
            MouseRegion::ContentTitle => {
                let double = is_double_click(previous, (col, row), now, ClickOrigin::ContentTitle);
                self.nav.focus = Focus::Content;
                if double {
                    self.pointer.last_click = None;
                    return self.toggle_zoom(out);
                }
                self.pointer.last_click = Some(
                    Click { column: col, row, at: now, origin: ClickOrigin::ContentTitle },
                );
                Effects::redraw()
            },
            MouseRegion::Content => {
                self.pointer.last_click = None;
                self.nav.focus = Focus::Content;
                Effects::redraw()
            },
            _ => {
                self.pointer.last_click = None;
                Effects::noop()
            },
        }
    }

    /// A row of the tree was clicked.
    fn click_row(
        &mut self,
        col: u16,
        row: u16,
        now: u64,
        index: usize,
        double: bool,
        out: &mut Vec<Action>,
    ) -> (r: Effects)
        requires
            index < old(self).tree.nodes@.len(),
        ensures
            run(*old(self), *final(self), r, old(out)@, final(out)@).takes(
                old(self).click_row_step(col, row, now, index, double),
            ),
    {
        self.pointer.last_click = Some(
            Click { column: col, row, at: now, origin: ClickOrigin::Tree },
        );
        self.notice = None;
        self.nav.focus = Focus::Tree;
        self.select_row(index);
        self.dispatch_render(out);
        if double {
            return self.activate(out);
        }
        Effects::redraw()
    }

    /// The right button was pressed over the columns.
    fn press_right(&mut self, col: u16, row: u16, out: &mut Vec<Action>) -> (r: Effects)
        ensures
            Self::right_pressed(
                run(*old(self), *final(self), r, old(out)@, final(out)@),
                col,
                row,
            ),
    {
        if let MouseRegion::TreeRow(index) = self.hit_test(col, row) {
            if index < self.tree.nodes.len() {
                self.nav.focus = Focus::Tree;
                self.select_row(index);
                self.dispatch_render(out);
                return self.show_context_menu_at(col, row, out);
            }
        }
        Effects::noop()
    }

    /// A mouse event while lines are selected.
    fn handle_line_select_mouse(&mut self, ev: Mouse, layout: &Layout, out: &mut Vec<Action>) -> (r:
        Effects)
        requires
            old(self).modal is LineSelect,
        ensures
            run(*old(self), *final(self), r, old(out)@, final(out)@).takes(
                old(self).line_mouse_step(ev, *layout),
            ),
    {
        if ev.modifiers.shift {
            return Effects::noop();
        }
        let mut state = match &self.modal {
            Modal::LineSelect(s) => *s,
            _ => {
                return Effects::noop();
            },
        };
        let last: usize = self.last_line_number();
        match ev.kind {
            MouseKind::Down(MouseButton::Left) => {
                if self.hit_test(ev.column, ev.row) != MouseRegion::Content {
                    self.pointer.drag = None;
                    return Effects::noop();
                }
                let (line, caret): (usize, usize) = self.char_at_content_col(
                    layout,
                    ev.column,
                    ev.row,
                );
                state.begin_char(line, caret, last);
                self.modal = Modal::LineSelect(state);
                self.pointer.drag = Some(Drag::ContentSelect);
                Effects::redraw()
            },
            MouseKind::Drag(MouseButton::Left) => {
                if self.pointer.drag != Some(Drag::ContentSelect) {
                    return Effects::noop();
                }
                let (line, caret): (usize, usize) = self.char_at_content_col(
                    layout,
                    ev.column,
                    ev.row,
                );
                state.drag_char(line, caret, last);
                self.modal = Modal::LineSelect(state);
                self.autoscroll_selection(ev.row, layout);
                Effects::redraw()
            },
            MouseKind::Up(MouseButton::Left) => {
                if self.pointer.drag == Some(Drag::ContentSelect) {
                    self.pointer.drag = None;
                    return Effects::redraw();
                }
                Effects::noop()
            },
            _ => Effects::noop(),
        }
    }
}

/// Dragging the divider keeps both columns.
pub proof fn drags_keep_both_columns(state: Controller, col: u16)
    requires
        state.screen.geom.area_width > 0,
    ensures
        state.split_floor() <= state.divider_step(col).next.prefs.split_pct
            <= crate::config::MAX_TREE_WIDTH,
{
}

/// The wheel scrolls the tree without selecting another row or rendering anything.
pub proof fn the_wheel_leaves_the_selection(
    state: Controller,
    col: u16,
    row: u16,
    delta: int,
    layout: Layout,
)
    ensures
        state.wheel_step(col, row, delta, layout).next.tree == state.tree,
        state.wheel_step(col, row, delta, layout).actions.len() == 0,
{
}

/// The mouse does nothing beneath an overlay that is operated by keys.
pub proof fn keyboard_overlays_ignore_the_mouse(r: Run, ev: Mouse, layout: Layout, now: u64)
    requires
        Controller::moused(r, ev, layout, now),
        r.from.modal is Picker || r.from.modal is Prompt || r.from.modal is Annotations
            || r.from.modal is AnnotationEditor || r.from.modal is DiscardConfirm,
    ensures
        r.to == r.from,
        r.after == r.before,
{
}

/// With Shift held, the mouse over the columns belongs to the terminal.
pub proof fn shifted_mouse_events_are_left_alone(r: Run, ev: Mouse, layout: Layout, now: u64)
    requires
        Controller::moused(r, ev, layout, now),
        ev.modifiers.shift,
        r.from.modal is Closed,
    ensures
        r.to == r.from,
        r.after == r.before,
        r.effects == Effects::none(),
{
}

/// A cell of the tree's area that nothing else covers belongs to the row that is drawn there: `k`
/// rows below the top of the area, with the tree scrolled by `s`, that is row `s + k`.
pub proof fn cells_of_the_tree_are_its_rows(state: Controller, col: u16, row: u16, region: MouseRegion)
    requires
        call_ensures(Controller::hit_test, (&state, col, row), region),
        state.screen.geom.tree_inner matches Some(area) && area.x <= col < area.x + area.width
            <= u16::MAX && area.y <= row < area.y + area.height <= u16::MAX,
        state.screen.geom.divider_x matches Some(x) ==> col != x && col + 1 != x,
        !within(state.screen.geom.tree_collapse_button, col, row),
        !within(state.screen.geom.tree_pin_button, col, row),
        !within(state.screen.geom.tree_close_button, col, row),
        !within(state.screen.geom.content_vbar, col, row),
        !within(state.screen.geom.content_hbar, col, row),
        !within(state.screen.geom.tree_vbar, col, row),
        !within(state.screen.geom.tree_hbar, col, row),
    ensures
        region matches MouseRegion::TreeRow(index) && index == state.screen.geom.tree_scroll + (row
            - state.screen.geom.tree_inner->0.y),
{
}

/// Scrolling the tree by a row and moving up by a cell leads to the same row of the tree.
pub proof fn scrolled_rows_stay_under_the_mouse(
    before: Controller,
    after: Controller,
    col: u16,
    row: u16,
    there: MouseRegion,
    here: MouseRegion,
)
    requires
        row >= 1,
        before.screen.geom.tree_scroll < u16::MAX,
        after.screen.geom == (PaneGeometry {
            tree_scroll: (before.screen.geom.tree_scroll + 1) as u16,
            ..before.screen.geom
        }),
        call_ensures(Controller::hit_test, (&before, col, row), there),
        call_ensures(Controller::hit_test, (&after, col, (row - 1) as u16), here),
        there is TreeRow,
        here is TreeRow,
    ensures
        here == there,
{
}

/// A click on a row of the tree selects that row, and leaves the rows as they are.
pub proof fn clicks_select_the_row_under_them(r: Run, ev: Mouse, layout: Layout, now: u64, index: usize)
    requires
        Controller::moused(r, ev, layout, now),
        r.from.modal is Closed,
        !ev.modifiers.shift,
        ev.kind == MouseKind::Up(MouseButton::Left),
        r.from.pointer.drag is None,
        call_ensures(
            Controller::hit_test,
            (&r.from, ev.column, ev.row),
            MouseRegion::TreeRow(index),
        ),
        index < r.from.tree.nodes@.len(),
    ensures
        r.to.tree.cursor == index,
        r.to.tree.nodes == r.from.tree.nodes,
        r.to.modal is Closed,
        r.to.notice is None,
{
    let let_go = r.from.drags(None);
    assert(r.takes(r.from.release_step(ev.column, ev.row, now)));
    assert(let_go.region(ev.column, ev.row) == MouseRegion::TreeRow(index));
    let double = double_click(let_go.pointer.last_click, ev.row, now, ClickOrigin::Tree);
    assert(r.takes(let_go.click_row_step(ev.column, ev.row, now, index, double)));
    lemma_row_clicked(let_go, ev.column, ev.row, now, index, double);
}

/// What a click on a row of the tree leads to.
proof fn lemma_row_clicked(
    state: Controller,
    col: u16,
    row: u16,
    now: u64,
    index: usize,
    double: bool,
)
    requires
        index < state.tree.nodes@.len(),
    ensures
        state.click_row_step(col, row, now, index, double).next.tree.cursor == index,
        state.click_row_step(col, row, now, index, double).next.tree.nodes == state.tree.nodes,
        state.click_row_step(col, row, now, index, double).next.modal == state.modal,
        state.click_row_step(col, row, now, index, double).next.notice is None,
{
}

/// A first click on a file gives the tree the focus and asks for one render, of that file. A second
/// one in time shows the file in the whole frame, and a directory is opened or closed by it.
pub proof fn second_clicks_activate(
    state: Controller,
    col: u16,
    row: u16,
    now: u64,
    index: usize,
    double: bool,
)
    requires
        index < state.tree.nodes@.len(),
    ensures
        ({
            let node = state.tree.nodes@[index as int];
            let step = state.click_row_step(col, row, now, index, double);
            &&& node.kind == NodeKind::File ==> step.actions.len() == 1 && (
            step.actions[0] matches Action::Render(job) && job.path == node.path)
            &&& !double ==> step.next.nav.focus == Focus::Tree && step.next.nav.zoomed
                == state.nav.zoomed
            &&& double && node.kind == NodeKind::File ==> step.next.nav.focus == Focus::Content
                && step.next.nav.zoomed
            &&& double && node.kind == NodeKind::Dir ==> step.actions.len() > 0
                && step.actions.last() == (Action::Tree {
                op: if node.expanded {
                    TreeOp::Collapse(node.path)
                } else {
                    TreeOp::Expand(node.path)
                },
                then: Then::Nothing,
            })
        }),
{
}

/// The right button on a row of the tree selects it, gives the tree the focus and opens the row's
/// menu where the mouse is.
pub proof fn right_clicks_open_the_menu_of_their_row(
    r: Run,
    ev: Mouse,
    layout: Layout,
    now: u64,
    index: usize,
)
    requires
        Controller::moused(r, ev, layout, now),
        r.from.modal is Closed,
        !ev.modifiers.shift,
        ev.kind == MouseKind::Down(MouseButton::Right),
        call_ensures(
            Controller::hit_test,
            (&r.from, ev.column, ev.row),
            MouseRegion::TreeRow(index),
        ),
        index < r.from.tree.nodes@.len(),
    ensures
        r.to.tree.cursor == index,
        r.to.tree.nodes == r.from.tree.nodes,
        r.to.nav.focus == Focus::Tree,
        r.to.modal matches Modal::ContextMenu(menu) && menu.fresh((ev.column, ev.row)),
{
    assert(r.from.region(ev.column, ev.row) == MouseRegion::TreeRow(index));
    assert(Controller::right_pressed(r, ev.column, ev.row));
}

/// Over the content the wheel scrolls it by the steps that are preferred: down towards its end and
/// up towards its start. Over the tree it scrolls the tree in the same way.
pub proof fn the_wheel_scrolls_what_is_under_it(r: Run, ev: Mouse, layout: Layout, now: u64)
    requires
        Controller::moused(r, ev, layout, now),
        r.from.modal is Closed,
        !ev.modifiers.shift,
        ev.kind == MouseKind::ScrollDown || ev.kind == MouseKind::ScrollUp,
    ensures
        ({
            let step = r.from.prefs.wheel_step;
            let there = r.from.region(ev.column, ev.row);
            let height = match r.from.screen.geom.tree_inner {
                Some(area) => area.height as int,
                None => 0,
            };
            &&& there is Content && ev.kind == MouseKind::ScrollDown
                && r.from.nav.content_scroll + step <= r.from.max_scroll(layout)
                ==> r.to.nav.content_scroll == r.from.nav.content_scroll + step
            &&& there is Content && ev.kind == MouseKind::ScrollUp && step
                <= r.from.nav.content_scroll <= r.from.max_scroll(layout)
                ==> r.to.nav.content_scroll == r.from.nav.content_scroll - step
            &&& there is TreeRow && ev.kind == MouseKind::ScrollDown && r.from.nav.tree_scroll
                + step + height <= r.from.tree.nodes@.len() && r.from.nav.tree_scroll + step
                <= u16::MAX ==> r.to.nav.tree_scroll == r.from.nav.tree_scroll + step
            &&& there is TreeRow && ev.kind == MouseKind::ScrollUp && step
                <= r.from.nav.tree_scroll && r.from.nav.tree_scroll + height
                <= r.from.tree.nodes@.len() ==> r.to.nav.tree_scroll == r.from.nav.tree_scroll
                - step
            &&& there is TreeRow ==> !r.to.nav.tree_follow_selection && r.to.nav.content_scroll
                == r.from.nav.content_scroll
            &&& there is Content ==> r.to.nav.tree_scroll == r.from.nav.tree_scroll
        }),
        r.to.tree == r.from.tree,
        r.after == r.before,
{
    let step = r.from.prefs.wheel_step as int;
    assert(r.takes(
        r.from.wheel_step(
            ev.column,
            ev.row,
            if ev.kind == MouseKind::ScrollDown {
                step
            } else {
                -step
            },
            layout,
        ),
    ));
}

/// The sideways wheel scrolls the content by eight columns, to the right and back.
pub proof fn the_wheel_scrolls_sideways(r: Run, ev: Mouse, layout: Layout, now: u64)
    requires
        Controller::moused(r, ev, layout, now),
        r.from.modal is Closed,
        !ev.modifiers.shift,
        r.from.region(ev.column, ev.row) is Content,
    ensures
        ev.kind == MouseKind::ScrollRight && r.from.nav.content_hscroll + 8 <= r.from.max_hscroll()
            ==> r.to.nav.content_hscroll == r.from.nav.content_hscroll + 8,
        ev.kind == MouseKind::ScrollLeft && 8 <= r.from.nav.content_hscroll <= r.from.max_hscroll()
            ==> r.to.nav.content_hscroll == r.from.nav.content_hscroll - 8,
{
    if ev.kind == MouseKind::ScrollRight {
        assert(r.takes(r.from.hwheel_step(ev.column, ev.row, 8)));
    }
    if ev.kind == MouseKind::ScrollLeft {
        assert(r.takes(r.from.hwheel_step(ev.column, ev.row, -8)));
    }
}

/// The divider goes where the mouse is: the tree takes the columns on its own side of the mouse, as
/// a share of the width.
pub proof fn the_divider_follows_the_mouse(state: Controller, col: u16)
    requires
        state.screen.geom.area_width > 0,
        state.screen.geom.area_x <= col <= state.screen.geom.area_x
            + state.screen.geom.area_width,
    ensures
        ({
            let geom = state.screen.geom;
            let columns = match state.prefs.tree_position {
                TreePosition::Left => col - geom.area_x,
                TreePosition::Right => geom.area_x + geom.area_width - col,
            };
            let share = (columns * 100) / (geom.area_width as int);
            let step = state.divider_step(col);
            &&& geom.min_split_pct <= share <= crate::config::MAX_TREE_WIDTH
                ==> step.next.prefs.split_pct == share
            &&& step.next.prefs.split_manual
            &&& step.actions.len() == 0
        }),
{
}

/// A press on the divider or on a scrollbar drags that one, and a press elsewhere outside the
/// content drags nothing and ends the selection.
pub proof fn presses_drag_what_is_under_them(r: Run, ev: Mouse, layout: Layout, now: u64)
    requires
        Controller::moused(r, ev, layout, now),
        r.from.modal is Closed,
        !ev.modifiers.shift,
        ev.kind == MouseKind::Down(MouseButton::Left),
    ensures
        ({
            let there = r.from.region(ev.column, ev.row);
            &&& there is Divider ==> r.to.pointer.drag == Some(Drag::Divider)
            &&& there is ContentVBar ==> r.to.pointer.drag == Some(Drag::ContentV)
            &&& there is ContentHBar ==> r.to.pointer.drag == Some(Drag::ContentH)
            &&& there is TreeVBar ==> r.to.pointer.drag == Some(Drag::TreeV)
            &&& there is TreeHBar ==> r.to.pointer.drag == Some(Drag::TreeH)
            &&& there is TreeRow || there is Outside || there is ContentTitle
                ==> r.to.pointer.drag is None
            &&& there is Content ==> r.to.nav.focus == Focus::Content
            &&& there is Content && !(r.from.pane.body is Rendering) ==> r.to.pointer.drag == Some(
                Drag::ContentSelect,
            ) && r.to.pane.selection is Some
            &&& there is Content && r.from.pane.body is Rendering ==> r.to.pointer.drag is None
            &&& !(there is Content) ==> r.to.pane.selection is None
        }),
        r.to.tree == r.from.tree,
        r.after == r.before,
{
    assert(r.takes(r.from.press_step(ev.column, ev.row, layout)));
}

/// Letting the button go ends every drag, and drags of the divider and of scrollbars with nothing
/// else.
pub proof fn releases_end_drags(state: Controller, col: u16, row: u16, now: u64)
    requires
        state.pointer.drag is Some,
    ensures
        state.release_step(col, row, now).next.pointer.drag is None,
        state.release_step(col, row, now).next.pointer.last_click is None,
        state.release_step(col, row, now).next.tree == state.tree,
        state.pointer.drag != Some(Drag::ContentSelect) ==> state.release_step(
            col,
            row,
            now,
        ).actions.len() == 0 && !state.release_step(col, row, now).effects.redraw,
{
}

/// The drag that is let go copies what it selected, if that is anything.
pub proof fn dragged_selections_are_copied(state: Controller, col: u16, row: u16, now: u64)
    requires
        state.pointer.drag == Some(Drag::ContentSelect),
        state.pane.selection is Some,
        state.file_selected(),
    ensures
        ({
            let s = state.pane.selection->0;
            let step = state.release_step(col, row, now);
            let (lo, hi) = s.caret_span();
            &&& lo == hi ==> step.actions.len() == 0 && step.next.pane.selection is None
            &&& lo != hi && state.pane.body.copied_chars(lo, hi).len() > 0 ==> step.actions
                == seq![Action::Copy(Clip::Dragged { lo, hi })] && step.next.pane.selection
                == state.pane.selection
        }),
{
}

/// Dragging past the upper edge of the content scrolls it up by a row, and past the lower edge down
/// by one.
pub proof fn drags_scroll_at_the_edges(state: Controller, row: u16, layout: Layout)
    requires
        state.screen.geom.content_inner is Some,
    ensures
        ({
            let area = state.screen.geom.content_inner->0;
            let next = state.autoscrolled(row, layout);
            &&& row < area.y && 1 <= state.nav.content_scroll <= state.max_scroll(layout)
                ==> next.nav.content_scroll == state.nav.content_scroll - 1
            &&& row >= area.y + area.height && state.nav.content_scroll + 1
                <= state.max_scroll(layout) ==> next.nav.content_scroll == state.nav.content_scroll
                + 1
            &&& area.y <= row < area.y + area.height ==> next == state
        }),
{
}

/// The buttons above the tree do what their names say.
pub proof fn buttons_do_what_they_say(state: Controller, col: u16, row: u16, now: u64)
    ensures
        ({
            let there = state.region(col, row);
            let step = state.click_step(col, row, now);
            &&& there is TreePinButton ==> step.next.prefs.pinned != state.prefs.pinned
            &&& there is TreeCloseButton && state.annotations.listed().len() == 0
                ==> step.effects.quit
            &&& there is TreeCollapseButton && !state.prefs.changed_only && !state.prefs.status_mode
                ==> step.actions == seq![
                Action::Tree { op: TreeOp::CollapseAll, then: Then::Render },
            ]
            &&& there is Content ==> step.next.nav.focus == Focus::Content
            &&& there is ContentTitle ==> step.next.nav.focus == Focus::Content || step.next.nav.focus
                == Focus::Tree && state.nav.zoomed
        }),
{
}

/// The button, scrollbar or pane that a cell belongs to is the one drawn there, the divider and the
/// buttons before the bars, and the bars before the panes.
pub proof fn cells_belong_to_what_is_drawn_there(
    state: Controller,
    col: u16,
    row: u16,
    region: MouseRegion,
)
    requires
        call_ensures(Controller::hit_test, (&state, col, row), region),
    ensures
        ({
            let geom = state.screen.geom;
            &&& geom.divider_x == Some(col) ==> region is Divider
            &&& region is Divider ==> (geom.divider_x matches Some(x) && (col == x || col + 1 == x))
            &&& region is TreeCollapseButton ==> within(geom.tree_collapse_button, col, row)
            &&& region is TreePinButton ==> within(geom.tree_pin_button, col, row)
            &&& region is TreeCloseButton ==> within(geom.tree_close_button, col, row)
            &&& region is ContentVBar ==> within(geom.content_vbar, col, row)
            &&& region is ContentHBar ==> within(geom.content_hbar, col, row)
            &&& region is TreeVBar ==> within(geom.tree_vbar, col, row)
            &&& region is TreeHBar ==> within(geom.tree_hbar, col, row)
            &&& region is TreeRow ==> within(geom.tree_inner, col, row)
            &&& region is ContentTitle ==> within(geom.content_title_rect, col, row)
            &&& region is Content ==> within(geom.content_inner, col, row)
            &&& region is Outside ==> !within(geom.tree_inner, col, row) && !within(
                geom.content_inner,
                col,
                row,
            ) && !within(geom.content_title_rect, col, row)
            &&& region is TreeRow || region is Content ==> !within(geom.tree_vbar, col, row)
                && !within(geom.content_vbar, col, row) && !within(geom.tree_pin_button, col, row)
        }),
{
}

/// While lines are selected, a press in the content starts a selection of characters there, a drag
/// extends it to the mouse, and the button's release keeps it.
pub proof fn the_mouse_selects_characters_of_lines(r: Run, ev: Mouse, layout: Layout, now: u64)
    requires
        Controller::moused(r, ev, layout, now),
        r.from.modal is LineSelect,
        !ev.modifiers.shift,
    ensures
        ev.kind == MouseKind::Down(MouseButton::Left) && r.from.region(ev.column, ev.row)
            is Content ==> r.to.pointer.drag == Some(Drag::ContentSelect) && (
        r.to.modal matches Modal::LineSelect(s) && s.char_mode && s.anchor == s.marker),
        ev.kind == MouseKind::Drag(MouseButton::Left) && r.from.pointer.drag == Some(
            Drag::ContentSelect,
        ) ==> (r.to.modal matches Modal::LineSelect(s) && s.anchor
            == r.from.modal->LineSelect_0.anchor),
        ev.kind == MouseKind::Up(MouseButton::Left) ==> r.to.modal == r.from.modal,
        r.after == r.before,
{
    assert(r.takes(r.from.line_mouse_step(ev, layout)));
}

} // verus!
