//! Selecting lines and characters of the content, and copying them.

use super::actions::{run, Action, Clip, Effects, Run, Step};
use super::content::{at_most, between, Layout};
use super::state::{Controller, Modal, Pane, Pointer, Renders};
use crate::input::{Key, KeyCode};
use crate::selection::LineSelectState;
use crate::view_policy::ViewMode;
use vstd::prelude::*;
use vstd::string::*;

verus! {

/// A line number one further.
pub open spec fn below(line: usize) -> usize {
    if line == usize::MAX {
        line
    } else {
        (line + 1) as usize
    }
}

/// A line number one less, at least 0.
pub open spec fn above(line: usize) -> usize {
    if line == 0 {
        0
    } else {
        (line - 1) as usize
    }
}

impl Controller {
    /// The line, from 1, at the top of the content pane.
    pub open spec fn top_line(self, layout: Layout) -> int {
        let count = self.pane.body.line_count() as int;
        between(
            self.line_of(layout, self.nav.content_scroll as int),
            1,
            if count == 0 {
                1
            } else {
                count
            },
        )
    }

    /// Nothing of the mouse is left over.
    pub open spec fn released(self) -> Controller {
        Controller {
            pointer: Pointer { last_click: None, drag: None },
            pane: Pane { selection: None, ..self.pane },
            ..self
        }
    }

    /// Line selection starts once the latest render is displayed.
    pub open spec fn queues_selection(self) -> Controller {
        Controller {
            pane: Pane {
                renders: Renders {
                    line_select: Some(self.pane.renders.latest),
                    ..self.pane.renders
                },
                ..self.pane
            },
            ..self
        }
    }

    /// Line selection starts at the top line: now where the source is displayed, else once it is
    /// rendered.
    pub open spec fn selection_entered(r: Run, layout: Layout) -> bool {
        let from = r.from.released();
        if from.shows_source() && from.up_to_date() {
            r.takes(
                Controller {
                    modal: Modal::LineSelect(
                        LineSelectState::on_line(from.top_line(layout) as usize),
                    ),
                    ..from
                }.shows(),
            )
        } else if !from.file_selected() {
            r.takes(from.shows())
        } else if from.shows_source() {
            r.takes(from.queues_selection().shows())
        } else {
            let chosen = Controller { overrides: r.to.overrides, ..from };
            &&& r.to.overrides@ == r.from.overrides@.insert(
                from.selected()->0.path@,
                ViewMode::SyntaxContent,
            )
            &&& r.takes(
                Step { next: chosen.refreshed().queues_selection(), ..chosen.renders() },
            )
        }
    }

    /// Starts line selection at the top line.
    pub fn enter_line_select_at_top(&mut self, layout: &Layout, out: &mut Vec<Action>) -> (r: Effects)
        ensures
            Self::selection_entered(
                run(*old(self), *final(self), r, old(out)@, final(out)@),
                *layout,
            ),
    {
        self.pointer = Pointer { last_click: None, drag: None };
        self.pane.selection = None;
        let source = self.selected_view_mode() == Some(ViewMode::SyntaxContent);
        if source && self.pane.renders.applied == self.pane.renders.latest {
            let top: usize = self.top_of(layout);
            self.modal = Modal::LineSelect(LineSelectState::new(top));
        } else if let Some(path) = self.selected_file() {
            if !source {
                self.overrides.insert(path, ViewMode::SyntaxContent);
                self.dispatch_render(out);
            }
            self.pane.renders.line_select = Some(self.pane.renders.latest);
        }
        Effects::redraw()
    }

    /// The line, from 1, at the top of the content pane.
    pub fn top_of(&self, layout: &Layout) -> (r: usize)
        ensures
            r == self.top_line(*layout),
            r >= 1,
    {
        let count: usize = self.pane.body.len();
        let last: usize = if count == 0 {
            1
        } else {
            count
        };
        let line: usize = self.line_at_content_row(layout, self.nav.content_scroll as usize);
        if line < 1 {
            1
        } else if line > last {
            last
        } else {
            line
        }
    }

    /// The lines that are selected.
    pub open spec fn selected_lines(self) -> Option<(usize, usize)> {
        match self.modal {
            Modal::LineSelect(s) => Some(s.line_span()),
            _ => None,
        }
    }

    /// The lines that are selected, in order.
    pub fn line_selection(&self) -> (r: Option<(usize, usize)>)
        ensures
            r == self.selected_lines(),
    {
        match &self.modal {
            Modal::LineSelect(s) => Some(s.selection()),
            _ => None,
        }
    }

    /// Line selection is over.
    pub open spec fn selection_left(self) -> Controller {
        Controller {
            modal: Modal::Closed,
            pane: Pane {
                renders: Renders { line_select: None, ..self.pane.renders },
                ..self.pane
            },
            ..self
        }
    }

    /// Leaves line selection.
    pub fn exit_line_select(&mut self)
        ensures
            *final(self) == old(self).selection_left(),
    {
        self.modal = Modal::Closed;
        self.pane.renders.line_select = None;
    }

    /// Copies a reference to the selected lines of the selected file.
    pub open spec fn copy_reference_step(self) -> Step {
        match self.selected_lines() {
            Some((start, end)) if self.file_selected() => self.selection_left().asks(
                Action::Copy(Clip::Reference { path: self.selected()->0.path, start, end }),
            ),
            _ => self.quiet(),
        }
    }

    /// Copies a reference to the selected lines.
    pub fn copy_line_reference(&mut self, out: &mut Vec<Action>) -> (r: Effects)
        ensures
            run(*old(self), *final(self), r, old(out)@, final(out)@).takes(
                old(self).copy_reference_step(),
            ),
    {
        match (self.line_selection(), self.selected_file()) {
            (Some((start, end)), Some(path)) => {
                self.exit_line_select();
                out.push(Action::Copy(Clip::Reference { path, start, end }));
                Effects::redraw()
            },
            _ => Effects::noop(),
        }
    }

    /// What copying the selection puts on the clipboard: the selected characters; where there are
    /// none, the line of the click; and whole lines where lines are selected.
    pub open spec fn content_clip(self, s: LineSelectState) -> Clip {
        let (start, end) = s.line_span();
        let (lo, hi) = s.caret_span();
        if !s.char_mode {
            Clip::Lines { start, end }
        } else if self.pane.body.copied_chars(lo, hi).len() > 0 {
            Clip::Selection { lo, hi }
        } else {
            Clip::Lines { start: end, end }
        }
    }

    /// Copies what is selected of the selected file.
    pub open spec fn copy_content_step(self) -> Step {
        match self.modal {
            Modal::LineSelect(s) if self.file_selected() => self.selection_left().asks(
                Action::Copy(self.content_clip(s)),
            ),
            _ => self.quiet(),
        }
    }

    /// Copies what is selected.
    pub fn copy_line_content(&mut self, out: &mut Vec<Action>) -> (r: Effects)
        ensures
            run(*old(self), *final(self), r, old(out)@, final(out)@).takes(
                old(self).copy_content_step(),
            ),
    {
        let state = match &self.modal {
            Modal::LineSelect(s) => *s,
            _ => {
                return Effects::noop();
            },
        };
        if self.selected_file().is_none() {
            return Effects::noop();
        }
        let (start, end) = state.selection();
        let clip = if !state.is_char_mode() {
            Clip::Lines { start, end }
        } else {
            let (lo, hi) = state.char_span();
            if self.pane.body.char_selection_text(lo, hi).as_str().is_empty() {
                Clip::Lines { start: end, end }
            } else {
                Clip::Selection { lo, hi }
            }
        };
        self.exit_line_select();
        out.push(Action::Copy(clip));
        Effects::redraw()
    }

    /// Copies what was dragged over in the content of a file, if that is anything.
    pub open spec fn copy_dragged_step(self) -> Step {
        match self.pane.selection {
            Some(s) if self.file_selected() && self.pane.body.copied_chars(
                s.caret_span().0,
                s.caret_span().1,
            ).len() > 0 => self.asks(
                Action::Copy(Clip::Dragged { lo: s.caret_span().0, hi: s.caret_span().1 }),
            ),
            _ => self.shows(),
        }
    }

    /// Copies what was dragged over.
    pub fn copy_content_selection(&mut self, out: &mut Vec<Action>) -> (r: Effects)
        ensures
            run(*old(self), *final(self), r, old(out)@, final(out)@).takes(
                old(self).copy_dragged_step(),
            ),
    {
        if let Some(s) = &self.pane.selection {
            let (lo, hi) = s.char_span();
            if self.selected_file().is_some() && !self.pane.body.char_selection_text(
                lo,
                hi,
            ).as_str().is_empty() {
                out.push(Action::Copy(Clip::Dragged { lo, hi }));
            }
        }
        Effects::redraw()
    }

    /// The width of the gutter in front of a line, from 1, kept among the displayed ones.
    pub open spec fn gutter_at(self, line: int) -> int {
        let count = self.pane.body.line_count() as int;
        if count == 0 {
            0
        } else {
            self.pane.body.gutter(between(line, 1, count))
        }
    }

    /// The width of the gutter in front of a line.
    pub fn content_gutter_len(&self, line: usize) -> (r: usize)
        ensures
            r == self.gutter_at(line as int),
    {
        let count: usize = self.pane.body.len();
        if count == 0 {
            0
        } else {
            let n: usize = if line < 1 {
                1
            } else if line > count {
                count
            } else {
                line
            };
            self.pane.body.gutter_len_of(n)
        }
    }

    /// The width of the gutter in front of the marked line, 0 outside line selection.
    pub fn selection_gutter_len(&self) -> (r: usize)
        ensures
            r == match self.modal {
                Modal::LineSelect(s) => self.gutter_at(s.marker as int),
                _ => 0,
            },
    {
        match &self.modal {
            Modal::LineSelect(s) => self.content_gutter_len(s.marker()),
            _ => 0,
        }
    }

    /// The content scrolled as little as possible to show a line, from 1.
    pub open spec fn shows_line(self, layout: Layout, line: int) -> Controller {
        let row = self.row_of(layout, line);
        let (scroll, height) = (
            self.nav.content_scroll as int,
            self.screen.content_height as int,
        );
        let target = if row < scroll {
            row
        } else if height > 0 && row >= scroll + height {
            row + 1 - height
        } else {
            scroll
        };
        self.scrolled_to(at_most(at_most(target, u16::MAX as int), self.max_scroll(layout)))
    }

    /// The selection that a key leads to.
    pub open spec fn selection_keyed(
        s: LineSelectState,
        key: Key,
        last: usize,
    ) -> Option<LineSelectState> {
        let shift = key.modifiers.shift;
        let (target, extend) = match key.code {
            KeyCode::Char('j') => (below(s.marker), false),
            KeyCode::Char('k') => (above(s.marker), false),
            KeyCode::Char('J') => (below(s.marker), true),
            KeyCode::Char('K') => (above(s.marker), true),
            KeyCode::Down => (below(s.marker), shift),
            KeyCode::Up => (above(s.marker), shift),
            _ => (0, false),
        };
        match key.code {
            KeyCode::Char('j') | KeyCode::Char('k') | KeyCode::Char('J') | KeyCode::Char('K')
            | KeyCode::Down | KeyCode::Up => Some(
                if extend {
                    s.extended(target, last)
                } else {
                    s.moved(target, last)
                },
            ),
            _ => None,
        }
    }

    /// The selection moved, with the marked line in view.
    pub open spec fn move_selection_step(self, key: Key, layout: Layout) -> Step {
        match self.modal {
            Modal::LineSelect(s) => match Self::selection_keyed(
                s,
                key,
                self.pane.body.line_count() as usize,
            ) {
                Some(next) => Controller { modal: Modal::LineSelect(next), ..self }.shows_line(
                    layout,
                    next.marker as int,
                ).shows(),
                None => self.quiet(),
            },
            _ => self.quiet(),
        }
    }

    /// Scrolls the content as little as possible to show a line.
    fn show_line(&mut self, layout: &Layout, line: usize)
        ensures
            *final(self) == old(self).shows_line(*layout, line as int),
    {
        let row: usize = self.content_row_of_line(layout, line);
        let (scroll, height): (usize, usize) = (
            self.nav.content_scroll as usize,
            self.screen.content_height as usize,
        );
        let target: usize = if row < scroll {
            row
        } else if height > 0 && row >= scroll + height {
            row - (height - 1)
        } else {
            scroll
        };
        let max: u16 = self.max_content_scroll(layout);
        self.nav.content_scroll = if target > max as usize {
            max
        } else {
            target as u16
        };
    }

    /// Moves the selection.
    fn move_line_selection(&mut self, key: Key, layout: &Layout, out: &mut Vec<Action>) -> (r: Effects)
        ensures
            run(*old(self), *final(self), r, old(out)@, final(out)@).takes(
                old(self).move_selection_step(key, *layout),
            ),
    {
        let state = match &self.modal {
            Modal::LineSelect(s) => *s,
            _ => {
                return Effects::noop();
            },
        };
        let last: usize = self.pane.body.len();
        let down: usize = state.marker.saturating_add(1);
        let up: usize = state.marker.saturating_sub(1);
        let (target, extend): (usize, bool) = match key.code {
            KeyCode::Char('j') => (down, false),
            KeyCode::Char('k') => (up, false),
            KeyCode::Char('J') => (down, true),
            KeyCode::Char('K') => (up, true),
            KeyCode::Down => (down, key.modifiers.shift),
            KeyCode::Up => (up, key.modifiers.shift),
            _ => {
                return Effects::noop();
            },
        };
        let mut next = state;
        if extend {
            next.extend_to(target, last);
        } else {
            next.move_to(target, last);
        }
        self.modal = Modal::LineSelect(next);
        self.show_line(layout, next.marker);
        Effects::redraw()
    }

    /// A key for line selection.
    pub open spec fn line_keyed(r: Run, key: Key, layout: Layout) -> bool {
        let plain = !key.modifiers.shift;
        if !key.modifiers.at_most_shift() {
            r.takes(r.from.quiet())
        } else {
            match key.code {
                KeyCode::Esc => r.takes(r.from.selection_left().shows()),
                KeyCode::Enter => r.takes(r.from.copy_reference_step()),
                KeyCode::Char('a') if plain => Self::selection_annotated(r),
                KeyCode::Char('y') | KeyCode::Char('Y') => r.takes(r.from.copy_content_step()),
                _ => r.takes(r.from.move_selection_step(key, layout)),
            }
        }
    }

    /// A key for line selection: the arrows and `j`/`k` move the marked line, and with Shift extend
    /// the selection; Enter copies a reference, `y` the content; `a` annotates; Esc leaves.
    pub fn handle_line_select_key(&mut self, key: Key, layout: &Layout, out: &mut Vec<Action>) -> (r:
        Effects)
        ensures
            Self::line_keyed(
                run(*old(self), *final(self), r, old(out)@, final(out)@),
                key,
                *layout,
            ),
    {
        if !key.modifiers.only_shift() {
            return Effects::noop();
        }
        match key.code {
            KeyCode::Esc => {
                self.exit_line_select();
                Effects::redraw()
            },
            KeyCode::Enter => self.copy_line_reference(out),
            KeyCode::Char('a') if !key.modifiers.shift => {
                self.add_annotation_for_line_selection(out)
            },
            KeyCode::Char('y') | KeyCode::Char('Y') => self.copy_line_content(out),
            _ => self.move_line_selection(key, layout, out),
        }
    }
}

/// The marked line is on the screen after every move, where the content has no more rows than a
/// screen can address.
pub proof fn marked_lines_stay_visible(state: Controller, layout: Layout, line: int)
    requires
        1 <= line <= state.pane.body.line_count(),
        state.total_rows(layout) < u16::MAX,
        state.screen.content_height > 0,
    ensures
        ({
            let top = state.shows_line(layout, line).nav.content_scroll;
            top <= state.row_of(layout, line) < top + state.screen.content_height
        }),
{
    super::content::rows_grow(
        layout.lines(state.marks_lines()),
        (line - 1) as nat,
        state.pane.body.line_count(),
    );
}

/// Moves keep the marked line among the displayed ones.
pub proof fn marked_lines_exist(s: LineSelectState, key: Key, last: usize)
    requires
        last >= 1,
        Controller::selection_keyed(s, key, last) is Some,
    ensures
        1 <= Controller::selection_keyed(s, key, last)->0.marker <= last,
        !Controller::selection_keyed(s, key, last)->0.char_mode,
{
}

} // verus!
