//! The go-to-file overlay.

use super::actions::{run, Action, Effects, Place, Run, Step, Then, TreeOp};
use super::state::{Controller, Drag, Modal, NodeKind, Pointer};
use crate::finder::{FinderMove, FinderState};
use crate::input::{is_within, within, Key, KeyCode, Mouse, MouseButton, MouseKind};
use crate::paths::{lossy_text, named, names_of, parent_of, relative};
use crate::pointer::{
    along, double_click, is_double_click, steps, track_fraction, Click, ClickOrigin,
};
use vstd::prelude::*;
use vstd::string::*;

verus! {

impl Controller {
    /// The directory of a row: itself, or the one that holds the file.
    pub open spec fn dir_of(self, place: Place) -> Seq<u8> {
        match place.kind {
            NodeKind::Dir => place.path@,
            NodeKind::File => match parent_of(place.path@) {
                Some(dir) => dir,
                None => self.repo.root@,
            },
        }
    }

    /// That directory as seen from the root.
    pub open spec fn scope_of(self, place: Place) -> Seq<u8> {
        match relative(self.dir_of(place), self.repo.root@) {
            Some(rel) => rel,
            None => self.dir_of(place),
        }
    }

    /// Lists the files for the overlay.
    pub open spec fn finder_step(self) -> Step {
        match self.selected() {
            Some(node) => self.asks(
                Action::IndexFiles(Place { path: node.path, kind: node.kind }),
            ),
            None => self.quiet(),
        }
    }

    /// The overlay is open over the files, narrowed to the directory of the selected row.
    pub open spec fn finder_opened(r: Run, place: Place, candidates: Seq<String>) -> bool {
        let scope = r.from.scope_of(place);
        &&& r.to.modal matches Modal::Finder(f) && {
            &&& f.sound()
            &&& f.files() == candidates
            &&& f.query_text() == Seq::<char>::empty() && f.query_caret() == 0
            &&& f.ranked() == Seq::<usize>::empty()
            &&& f.position() == 0 && f.offset() == 0 && !f.whole()
            &&& f.scope_dir() == lossy_text(scope)
            &&& f.scope_name() == if named(names_of(scope)).len() == 0 {
                "./"@
            } else {
                named(names_of(scope)).push('/')
            }
        }
        &&& r.takes(
            Controller {
                modal: r.to.modal,
                pointer: Pointer { last_click: None, ..r.from.pointer },
                ..r.from
            }.shows(),
        )
    }

    /// Lists the files for the overlay.
    pub fn open_finder(&mut self, out: &mut Vec<Action>) -> (r: Effects)
        ensures
            run(*old(self), *final(self), r, old(out)@, final(out)@).takes(
                old(self).finder_step(),
            ),
    {
        match self.selected_node() {
            Some(node) => {
                out.push(
                    Action::IndexFiles(Place { path: node.path.clone(), kind: node.kind }),
                );
                Effects::redraw()
            },
            None => Effects::noop(),
        }
    }

    /// The files were listed: the overlay opens.
    pub fn finder_ready(&mut self, place: Place, candidates: Vec<String>, out: &mut Vec<Action>) -> (r:
        Effects)
        ensures
            Self::finder_opened(
                run(*old(self), *final(self), r, old(out)@, final(out)@),
                place,
                candidates@,
            ),
    {
        let dir = match place.kind {
            NodeKind::Dir => place.path.clone(),
            NodeKind::File => match place.path.parent() {
                Some(dir) => dir,
                None => self.repo.root.clone(),
            },
        };
        let scope = match dir.strip_prefix(&self.repo.root) {
            Some(rel) => rel,
            None => dir,
        };
        let name = scope.text();
        let mut label = scope.names_text();
        if label.as_str().is_empty() {
            label = "./".to_owned();
        } else {
            label.push('/');
        }
        self.modal = Modal::Finder(FinderState::within(candidates, name, label));
        self.pointer.last_click = None;
        Effects::redraw()
    }

    /// The overlay changed, and this is what else did.
    pub open spec fn finder_changed(r: Run, change: FinderMove, pointer: Pointer) -> bool {
        &&& r.to.modal matches Modal::Finder(next) && (r.from.modal->Finder_0).leads(change, next)
        &&& r.takes(Controller { modal: r.to.modal, pointer, ..r.from }.shows())
    }

    /// Changes the overlay.
    fn change_finder(&mut self, change: FinderMove)
        requires
            old(self).modal is Finder,
        ensures
            *final(self) == (Controller { modal: final(self).modal, ..*old(self) }),
            final(self).modal matches Modal::Finder(next) && (old(self).modal->Finder_0).leads(
                change,
                next,
            ),
    {
        let mut taken = Modal::Closed;
        std::mem::swap(&mut self.modal, &mut taken);
        if let Modal::Finder(f) = taken {
            let mut f = f;
            f.apply(change);
            self.modal = Modal::Finder(f);
        }
    }

    /// The overlay is gone, and no click is left over.
    pub open spec fn finder_closed(self) -> Controller {
        Controller {
            modal: Modal::Closed,
            pointer: Pointer { last_click: None, ..self.pointer },
            ..self
        }
    }

    /// Shows the file at a position of the matches.
    pub open spec fn open_found_step(self, f: FinderState, position: int) -> Step {
        let name = f.files()[f.ranked()[position] as int];
        self.finder_closed().asks(
            Action::Tree {
                op: TreeOp::RevealNamed { root: self.repo.root, name },
                then: Then::Found(name),
            },
        )
    }

    /// Confirms the overlay: shows the selected match, if there is one.
    pub open spec fn confirm_finder_step(self) -> Step {
        match self.modal {
            Modal::Finder(f) if f.ranked().len() > 0 => self.open_found_step(f, f.position()),
            _ => self.quiet(),
        }
    }

    /// Confirms the overlay.
    fn confirm_finder(&mut self, out: &mut Vec<Action>) -> (r: Effects)
        ensures
            run(*old(self), *final(self), r, old(out)@, final(out)@).takes(
                old(self).confirm_finder_step(),
            ),
    {
        let name = match &self.modal {
            Modal::Finder(f) => match f.selected_candidate_index() {
                Some(i) => f.candidates()[i].clone(),
                None => {
                    return Effects::noop();
                },
            },
            _ => {
                return Effects::noop();
            },
        };
        self.modal = Modal::Closed;
        self.pointer.last_click = None;
        let op = TreeOp::RevealNamed { root: self.repo.root.clone(), name: name.clone() };
        out.push(Action::Tree { op, then: Then::Found(name) });
        Effects::redraw()
    }

    /// The change that a key asks for.
    pub open spec fn finder_move_of(key: Key) -> Option<FinderMove> {
        match key.code {
            KeyCode::Char(c) => if key.modifiers.at_most_shift() {
                Some(FinderMove::Push(c))
            } else {
                None
            },
            KeyCode::Backspace => Some(FinderMove::Backspace),
            KeyCode::Up => Some(FinderMove::MoveSelection((-1) as isize)),
            KeyCode::Down => Some(FinderMove::MoveSelection(1)),
            KeyCode::Tab => Some(FinderMove::ToggleScope),
            KeyCode::Left => Some(FinderMove::ScrollLeft),
            KeyCode::Right => Some(FinderMove::ScrollRight),
            _ => None,
        }
    }

    /// A key for the overlay. Whatever it does, it ends a pending double click.
    pub open spec fn finder_keyed(r: Run, key: Key) -> bool {
        let unclicked = Pointer { last_click: None, ..r.from.pointer };
        if !(r.from.modal is Finder) {
            r.takes(r.from.quiet())
        } else {
            match key.code {
                KeyCode::Enter => r.takes(r.from.confirm_finder_step()),
                KeyCode::Esc => r.takes(r.from.finder_closed().shows()),
                _ => match Self::finder_move_of(key) {
                    Some(change) => Self::finder_changed(r, change, unclicked),
                    None => r.takes(Controller { pointer: unclicked, ..r.from }.quiet()),
                },
            }
        }
    }

    /// A key for the overlay.
    pub fn handle_finder_key(&mut self, key: Key, out: &mut Vec<Action>) -> (r: Effects)
        ensures
            Self::finder_keyed(run(*old(self), *final(self), r, old(out)@, final(out)@), key),
    {
        if !self.finder_open() {
            return Effects::noop();
        }
        let change = match key.code {
            KeyCode::Enter => {
                return self.confirm_finder(out);
            },
            KeyCode::Esc => {
                self.modal = Modal::Closed;
                self.pointer.last_click = None;
                return Effects::redraw();
            },
            KeyCode::Char(c) => {
                if key.modifiers.only_shift() {
                    Some(FinderMove::Push(c))
                } else {
                    None
                }
            },
            KeyCode::Backspace => Some(FinderMove::Backspace),
            KeyCode::Up => Some(FinderMove::MoveSelection(-1)),
            KeyCode::Down => Some(FinderMove::MoveSelection(1)),
            KeyCode::Tab => Some(FinderMove::ToggleScope),
            KeyCode::Left => Some(FinderMove::ScrollLeft),
            KeyCode::Right => Some(FinderMove::ScrollRight),
            _ => None,
        };
        self.pointer.last_click = None;
        match change {
            Some(m) => {
                self.change_finder(m);
                Effects::redraw()
            },
            None => Effects::noop(),
        }
    }

    /// Whether the overlay is open.
    pub fn finder_open(&self) -> (r: bool)
        ensures
            r == (self.modal is Finder),
    {
        match &self.modal {
            Modal::Finder(_) => true,
            _ => false,
        }
    }

    /// The match that a row of the scrollbar stands for.
    pub open spec fn match_at(f: FinderState, row: u16, start: u16, len: u16) -> int {
        let max = f.ranked().len() - 1;
        (along(row, start, len) * max + steps(len) / 2) / steps(len)
    }

    /// The scrollbar was pressed or dragged at a row: the match that it stands for is selected.
    pub open spec fn finder_scrolled(r: Run, row: u16, pointer: Pointer) -> bool {
        let f = r.from.modal->Finder_0;
        match r.from.screen.geom.finder_vbar {
            Some(track) if steps(track.height) > 0 && f.ranked().len() > 0 => {
                Self::finder_changed(
                    r,
                    FinderMove::Select(Self::match_at(f, row, track.y, track.height) as usize),
                    pointer,
                )
            },
            _ => r.takes(Controller { pointer, ..r.from }.quiet()),
        }
    }

    /// A cell was clicked: the switch of the scope, or a match, which is selected, and opened with
    /// the second click. Other cells do nothing.
    pub open spec fn finder_clicked(r: Run, col: u16, row: u16, now: u64) -> bool {
        let f = r.from.modal->Finder_0;
        let geom = r.from.screen.geom;
        let unclicked = Pointer { last_click: None, ..r.from.pointer };
        if within(geom.finder_scope_button, col, row) {
            Self::finder_changed(r, FinderMove::ToggleScope, unclicked)
        } else if !within(geom.finder_rows, col, row) {
            r.takes(Controller { pointer: unclicked, ..r.from }.quiet())
        } else {
            let index = geom.finder_scroll + (row - geom.finder_rows->0.y);
            if index >= f.ranked().len() {
                r.takes(Controller { pointer: unclicked, ..r.from }.quiet())
            } else if double_click(r.from.pointer.last_click, row, now, ClickOrigin::Finder) {
                r.takes(r.from.open_found_step(f, index))
            } else {
                Self::finder_changed(
                    r,
                    FinderMove::Select(index as usize),
                    Pointer {
                        last_click: Some(
                            Click { column: col, row, at: now, origin: ClickOrigin::Finder },
                        ),
                        ..r.from.pointer
                    },
                )
            }
        }
    }

    /// A mouse event for the overlay.
    pub open spec fn finder_moused(r: Run, ev: Mouse, now: u64) -> bool {
        let pointer = r.from.pointer;
        let step = r.from.prefs.wheel_step;
        if !(r.from.modal is Finder) || ev.modifiers.shift {
            r.takes(r.from.quiet())
        } else {
            match ev.kind {
                MouseKind::ScrollDown => Self::finder_changed(
                    r,
                    FinderMove::MoveSelection(step as isize),
                    pointer,
                ),
                MouseKind::ScrollUp => Self::finder_changed(
                    r,
                    FinderMove::MoveSelection((-step) as isize),
                    pointer,
                ),
                MouseKind::ScrollRight => Self::finder_changed(
                    r,
                    FinderMove::ScrollRight,
                    pointer,
                ),
                MouseKind::ScrollLeft => Self::finder_changed(r, FinderMove::ScrollLeft, pointer),
                MouseKind::Down(MouseButton::Left) => if within(
                    r.from.screen.geom.finder_vbar,
                    ev.column,
                    ev.row,
                ) {
                    Self::finder_scrolled(
                        r,
                        ev.row,
                        Pointer { drag: Some(Drag::FinderV), ..pointer },
                    )
                } else {
                    r.takes(
                        Controller {
                            pointer: Pointer { drag: None, ..pointer },
                            ..r.from
                        }.quiet(),
                    )
                },
                MouseKind::Drag(MouseButton::Left) => if pointer.drag == Some(Drag::FinderV) {
                    Self::finder_scrolled(r, ev.row, pointer)
                } else {
                    r.takes(r.from.quiet())
                },
                MouseKind::Up(MouseButton::Left) => if pointer.drag is Some {
                    r.takes(
                        Controller {
                            pointer: Pointer { last_click: None, drag: None },
                            ..r.from
                        }.quiet(),
                    )
                } else {
                    Self::finder_clicked(r, ev.column, ev.row, now)
                },
                _ => r.takes(r.from.quiet()),
            }
        }
    }

    /// A mouse event for the overlay.
    pub fn handle_finder_mouse(&mut self, ev: Mouse, now: u64, out: &mut Vec<Action>) -> (r: Effects)
        ensures
            Self::finder_moused(
                run(*old(self), *final(self), r, old(out)@, final(out)@),
                ev,
                now,
            ),
    {
        if !self.finder_open() || ev.modifiers.shift {
            return Effects::noop();
        }
        let step: isize = self.prefs.wheel_step as isize;
        match ev.kind {
            MouseKind::ScrollDown => {
                self.change_finder(FinderMove::MoveSelection(step));
                Effects::redraw()
            },
            MouseKind::ScrollUp => {
                self.change_finder(FinderMove::MoveSelection(-step));
                Effects::redraw()
            },
            MouseKind::ScrollRight => {
                self.change_finder(FinderMove::ScrollRight);
                Effects::redraw()
            },
            MouseKind::ScrollLeft => {
                self.change_finder(FinderMove::ScrollLeft);
                Effects::redraw()
            },
            MouseKind::Down(MouseButton::Left) => {
                if is_within(self.screen.geom.finder_vbar, ev.column, ev.row) {
                    self.pointer.drag = Some(Drag::FinderV);
                    self.finder_scroll_to_row(ev.row)
                } else {
                    self.pointer.drag = None;
                    Effects::noop()
                }
            },
            MouseKind::Drag(MouseButton::Left) => {
                if self.pointer.drag == Some(Drag::FinderV) {
                    self.finder_scroll_to_row(ev.row)
                } else {
                    Effects::noop()
                }
            },
            MouseKind::Up(MouseButton::Left) => {
                if self.pointer.drag.is_some() {
                    self.pointer = Pointer { last_click: None, drag: None };
                    Effects::noop()
                } else {
                    self.handle_finder_click(ev.column, ev.row, now, out)
                }
            },
            _ => Effects::noop(),
        }
    }

    /// Selects the match that a row of the scrollbar stands for.
    fn finder_scroll_to_row(&mut self, row: u16) -> (r: Effects)
        requires
            old(self).modal is Finder,
        ensures
            Self::finder_scrolled(
                run(*old(self), *final(self), r, Seq::empty(), Seq::empty()),
                row,
                old(self).pointer,
            ),
    {
        let total: usize = match &self.modal {
            Modal::Finder(f) => f.matches().len(),
            _ => 0,
        };
        match self.screen.geom.finder_vbar {
            None => Effects::noop(),
            Some(track) => {
                let (rel, span): (u32, u32) = track_fraction(row, track.y, track.height);
                if span == 0 || total == 0 {
                    return Effects::noop();
                }
                let max: usize = total - 1;
                assert(rel * max <= span * max) by (nonlinear_arith)
                    requires
                        rel <= span,
                ;
                assert(rel * max <= 0xffff_ffff * 0xffff_ffff_ffff_ffff) by (nonlinear_arith)
                    requires
                        rel <= 0xffff_ffff,
                        max <= 0xffff_ffff_ffff_ffff,
                ;
                let index: u128 = (rel as u128 * max as u128 + (span / 2) as u128) / span as u128;
                assert(index <= max) by (nonlinear_arith)
                    requires
                        span > 0,
                        rel * max <= span * max,
                        index == (rel * max + span / 2) / span as int,
                ;
                self.change_finder(FinderMove::Select(index as usize));
                Effects::redraw()
            },
        }
    }

    /// A click in the overlay.
    fn handle_finder_click(&mut self, col: u16, row: u16, now: u64, out: &mut Vec<Action>) -> (r:
        Effects)
        requires
            old(self).modal is Finder,
        ensures
            Self::finder_clicked(
                run(*old(self), *final(self), r, old(out)@, final(out)@),
                col,
                row,
                now,
            ),
    {
        if is_within(self.screen.geom.finder_scope_button, col, row) {
            self.pointer.last_click = None;
            self.change_finder(FinderMove::ToggleScope);
            return Effects::redraw();
        }
        let total: usize = match &self.modal {
            Modal::Finder(f) => {
                f.check();
                f.matches().len()
            },
            _ => 0,
        };
        match self.screen.geom.finder_rows {
            Some(rows) => if rows.contains(col, row) {
                let index: usize = self.screen.geom.finder_scroll as usize + (row
                    - rows.y) as usize;
                if index < total {
                    let double = is_double_click(
                        self.pointer.last_click,
                        (col, row),
                        now,
                        ClickOrigin::Finder,
                    );
                    self.pointer.last_click = Some(
                        Click { column: col, row, at: now, origin: ClickOrigin::Finder },
                    );
                    self.change_finder(FinderMove::Select(index));
                    if double {
                        return self.confirm_finder(out);
                    }
                    return Effects::redraw();
                }
            },
            None => {},
        }
        self.pointer.last_click = None;
        Effects::noop()
    }
}

/// Keys and clicks in the overlay change nothing beneath it: the tree, the content and the
/// preferences stay as they were until a file is opened.
pub proof fn the_finder_is_modal(r: Run, key: Key, ev: Mouse, now: u64)
    requires
        r.from.modal is Finder,
        Controller::finder_keyed(r, key) || Controller::finder_moused(r, ev, now),
    ensures
        r.to.tree == r.from.tree,
        r.to.pane == r.from.pane,
        r.to.prefs == r.from.prefs,
        r.to.nav == r.from.nav,
{
}

} // verus!
