//! The full-text search overlay.

use super::actions::{run, Action, Effects, Run, SearchOutcome, Step, Then, TreeOp};
use super::render::next_seq;
use super::state::{
    Controller, Host, Modal, NodeKind, Notice, Pointer, SearchFailure, WorkspaceSearchState,
};
use crate::finder::{move_cursor, moved};
use crate::input::{is_within, within, Key, KeyCode, Mouse, MouseButton, MouseKind};
use crate::paths::{named, names_of, relative, FilePath};
use crate::prompt::{Edit, PromptInput};
use vstd::prelude::*;
use vstd::string::*;

verus! {

impl WorkspaceSearchState {
    /// What is searched: the whole root, or the place that the overlay was opened at.
    pub open spec fn scope_path(self, root: FilePath) -> FilePath {
        if self.workspace {
            root
        } else {
            self.scope
        }
    }

    /// Nothing was found.
    pub open spec fn empty(self) -> bool {
        self.matches@.len() == 0 && self.cursor == 0 && !self.limited
    }

    /// The name of what is searched.
    pub fn scope_label(&self) -> (r: &str)
        ensures
            r@ == if self.workspace {
                "workspace"@
            } else {
                self.label@
            },
    {
        if self.workspace {
            "workspace"
        } else {
            self.label.as_str()
        }
    }

    /// Whether there is something to look for.
    pub open spec fn asks_for(self, text: Seq<char>, caret: nat) -> bool {
        self.input.text() == text && self.input.caret() == caret
    }
}

impl Controller {
    /// The running search is given up.
    pub open spec fn search_stopped(self) -> Controller {
        Controller { host: Host { search_running: false, ..self.host }, ..self }
    }

    /// The request that ends the running search, if there is one.
    pub open spec fn stop_request(self) -> Seq<Action> {
        if self.host.search_running {
            seq![Action::CancelSearch]
        } else {
            Seq::empty()
        }
    }

    /// The overlay is open for the selected row, if the search program is there.
    pub open spec fn text_search_opened(r: Run) -> bool {
        if r.from.host.searcher != Some(true) {
            r.takes(r.from.tells(Notice::SearchUnavailable))
        } else {
            match r.from.selected() {
                None => r.takes(r.from.quiet()),
                Some(node) => {
                    let name = named(
                        names_of(
                            match relative(node.path@, r.from.repo.root@) {
                                Some(rel) => rel,
                                None => node.path@,
                            },
                        ),
                    );
                    &&& r.to.modal matches Modal::WorkspaceSearch(s) && {
                        &&& s.asks_for(Seq::empty(), 0)
                        &&& s.scope == node.path
                        &&& s.label@ == if node.kind == NodeKind::Dir {
                            name.push('/')
                        } else {
                            name
                        }
                        &&& !s.workspace && !s.pending && s.error is None && s.empty()
                    }
                    &&& r.takes(
                        Controller {
                            modal: r.to.modal,
                            notice: None,
                            pointer: Pointer { last_click: None, ..r.from.pointer },
                            ..r.from
                        }.shows(),
                    )
                },
            }
        }
    }

    /// Opens the overlay for the selected row.
    pub fn open_text_search(&mut self, out: &mut Vec<Action>) -> (r: Effects)
        ensures
            Self::text_search_opened(run(*old(self), *final(self), r, old(out)@, final(out)@)),
    {
        let available = match self.host.searcher {
            Some(installed) => installed,
            None => false,
        };
        if !available {
            self.notice = Some(Notice::SearchUnavailable);
            return Effects::redraw();
        }
        let (scope, is_dir) = match self.selected_node() {
            Some(node) => (node.path.clone(), node.kind == NodeKind::Dir),
            None => {
                return Effects::noop();
            },
        };
        let mut label = match self.rel(&scope) {
            Some(rel) => rel.names_text(),
            None => scope.names_text(),
        };
        if is_dir {
            label.push('/');
        }
        self.modal = Modal::WorkspaceSearch(
            WorkspaceSearchState {
                input: PromptInput::new(),
                scope,
                label,
                workspace: false,
                matches: Vec::new(),
                cursor: 0,
                pending: false,
                limited: false,
                error: None,
            },
        );
        self.notice = None;
        self.pointer.last_click = None;
        Effects::redraw()
    }

    /// The text of the overlay, with this caret and this choice of the scope, is searched for:
    /// what was found before is gone, a running search ended, and a new one started where there is
    /// a text.
    pub open spec fn searched(r: Run, text: Seq<char>, caret: nat, workspace: bool) -> bool {
        let before = r.from.modal->WorkspaceSearch_0;
        let after = r.to.modal->WorkspaceSearch_0;
        let starts = text.len() > 0 && r.from.host.searcher is Some;
        &&& r.to.modal is WorkspaceSearch
        &&& after.asks_for(text, caret)
        &&& after.scope == before.scope && after.label == before.label && after.workspace
            == workspace
        &&& after.empty()
        &&& after.pending == starts
        &&& after.error == if text.len() > 0 && !starts {
            Some(SearchFailure::Unavailable)
        } else {
            None
        }
        &&& r.takes(
            if starts {
                let seq = next_seq(r.from.host.search_seq);
                Step {
                    next: Controller {
                        modal: r.to.modal,
                        host: Host { search_seq: seq, search_running: true, ..r.from.host },
                        ..r.from
                    },
                    effects: Effects::repaint(),
                    actions: r.from.stop_request() + seq![
                        Action::SearchText { seq, scope: after.scope_path(r.from.repo.root) },
                    ],
                }
            } else {
                Step {
                    actions: r.from.stop_request(),
                    ..Controller { modal: r.to.modal, ..r.from.search_stopped() }.shows()
                }
            },
        )
    }

    /// Ends the running search.
    fn cancel_workspace_search(&mut self, out: &mut Vec<Action>)
        ensures
            *final(self) == old(self).search_stopped(),
            final(out)@ == old(out)@ + old(self).stop_request(),
    {
        if self.host.search_running {
            out.push(Action::CancelSearch);
        }
        self.host.search_running = false;
        assert(out@ =~= old(out)@ + old(self).stop_request());
    }

    /// Searches for a text in a scope.
    fn search_for(&mut self, input: PromptInput, workspace: bool, out: &mut Vec<Action>) -> (r:
        Effects)
        requires
            old(self).modal is WorkspaceSearch,
        ensures
            Self::searched(
                run(*old(self), *final(self), r, old(out)@, final(out)@),
                input.text(),
                input.caret(),
                workspace,
            ),
    {
        self.cancel_workspace_search(out);
        let mut taken = Modal::Closed;
        std::mem::swap(&mut self.modal, &mut taken);
        if let Modal::WorkspaceSearch(state) = taken {
            let empty = input.is_empty();
            let present = self.host.searcher.is_some();
            let place = if workspace {
                self.repo.root.clone()
            } else {
                state.scope.clone()
            };
            let WorkspaceSearchState { input: _, scope, label, .. } = state;
            self.modal = Modal::WorkspaceSearch(
                WorkspaceSearchState {
                    input,
                    scope,
                    label,
                    workspace,
                    matches: Vec::new(),
                    cursor: 0,
                    pending: !empty && present,
                    limited: false,
                    error: if !empty && !present {
                        Some(SearchFailure::Unavailable)
                    } else {
                        None
                    },
                },
            );
            if !empty && present {
                let seq: u64 = if self.host.search_seq == u64::MAX {
                    0
                } else {
                    self.host.search_seq + 1
                };
                self.host = Host { search_seq: seq, search_running: true, ..self.host };
                out.push(Action::SearchText { seq, scope: place });
            }
        }
        Effects::redraw()
    }

    /// The text of the overlay is searched for after a change of it.
    pub open spec fn search_typed(r: Run, edit: Edit) -> bool {
        let s = r.from.modal->WorkspaceSearch_0;
        let (text, caret) = edit.of(s.input.text(), s.input.caret());
        Self::searched(r, text, caret, s.workspace)
    }

    /// The caret of the overlay moved; nothing else did.
    pub open spec fn search_caret_moved(r: Run, edit: Edit) -> bool {
        let before = r.from.modal->WorkspaceSearch_0;
        let (text, caret) = edit.of(before.input.text(), before.input.caret());
        &&& r.to.modal matches Modal::WorkspaceSearch(after) && after == (WorkspaceSearchState {
            input: after.input,
            ..before
        }) && after.asks_for(text, caret)
        &&& r.takes(Controller { modal: r.to.modal, ..r.from }.shows())
    }

    /// Another line is selected.
    pub open spec fn search_selects(self, cursor: int) -> Step {
        Controller {
            modal: Modal::WorkspaceSearch(
                WorkspaceSearchState {
                    cursor: cursor as usize,
                    ..self.modal->WorkspaceSearch_0
                },
            ),
            ..self
        }.shows()
    }

    /// The selection moves by some lines.
    pub open spec fn search_moves(self, delta: int) -> Step {
        let s = self.modal->WorkspaceSearch_0;
        self.search_selects(moved(s.cursor as int, delta, s.matches@.len() as int))
    }

    /// The overlay is gone.
    pub open spec fn search_closed(self) -> Controller {
        Controller {
            modal: Modal::Closed,
            pointer: Pointer { last_click: None, ..self.pointer },
            ..self.search_stopped()
        }
    }

    /// Shows the selected line.
    pub open spec fn confirm_search_step(self) -> Step {
        let s = self.modal->WorkspaceSearch_0;
        if s.cursor < s.matches@.len() {
            let hit = s.matches@[s.cursor as int];
            Step {
                next: self.search_closed(),
                effects: Effects::repaint(),
                actions: self.stop_request() + seq![
                    Action::Tree {
                        op: TreeOp::RevealNamed { root: self.repo.root, name: hit.path },
                        then: Then::Hit { name: hit.path, line: hit.line },
                    },
                ],
            }
        } else {
            self.quiet()
        }
    }

    /// A key for the overlay.
    pub open spec fn search_overlay_keyed(r: Run, key: Key) -> bool {
        let s = r.from.modal->WorkspaceSearch_0;
        if !(r.from.modal is WorkspaceSearch) {
            r.takes(r.from.quiet())
        } else {
            match key.code {
                KeyCode::Char(c) => if key.modifiers.at_most_shift() {
                    Self::search_typed(r, Edit::Insert(c))
                } else {
                    r.takes(r.from.quiet())
                },
                KeyCode::Backspace => Self::search_typed(r, Edit::Backspace),
                KeyCode::Delete => Self::search_typed(r, Edit::Delete),
                KeyCode::Left => Self::search_caret_moved(r, Edit::Left),
                KeyCode::Right => Self::search_caret_moved(r, Edit::Right),
                KeyCode::Home => Self::search_caret_moved(r, Edit::Home),
                KeyCode::End => Self::search_caret_moved(r, Edit::End),
                KeyCode::Up => r.takes(r.from.search_moves(-1)),
                KeyCode::Down => r.takes(r.from.search_moves(1)),
                KeyCode::Tab => Self::searched(r, s.input.text(), s.input.caret(), !s.workspace),
                KeyCode::Enter => r.takes(r.from.confirm_search_step()),
                KeyCode::Esc => r.takes(
                    Step { actions: r.from.stop_request(), ..r.from.search_closed().shows() },
                ),
                _ => r.takes(r.from.quiet()),
            }
        }
    }

    /// Whether the overlay is open.
    pub fn workspace_search_open(&self) -> (r: bool)
        ensures
            r == (self.modal is WorkspaceSearch),
    {
        match &self.modal {
            Modal::WorkspaceSearch(_) => true,
            _ => false,
        }
    }

    /// A copy of the overlay's input, and whether the whole workspace is searched.
    fn search_input(&self) -> (r: (PromptInput, bool))
        requires
            self.modal is WorkspaceSearch,
        ensures
            r.0 == self.modal->WorkspaceSearch_0.input,
            r.1 == self.modal->WorkspaceSearch_0.workspace,
    {
        match &self.modal {
            Modal::WorkspaceSearch(s) => (s.input.duplicate(), s.workspace),
            _ => (PromptInput::new(), false),
        }
    }

    /// Changes the text of the overlay and searches for it.
    fn type_search(&mut self, edit: Edit, out: &mut Vec<Action>) -> (r: Effects)
        requires
            old(self).modal is WorkspaceSearch,
        ensures
            Self::search_typed(run(*old(self), *final(self), r, old(out)@, final(out)@), edit),
    {
        let (input, workspace) = self.search_input();
        let mut input = input;
        input.apply(edit);
        self.search_for(input, workspace, out)
    }

    /// Moves the caret of the overlay.
    fn move_search_caret(&mut self, edit: Edit, out: &mut Vec<Action>) -> (r: Effects)
        requires
            old(self).modal is WorkspaceSearch,
        ensures
            Self::search_caret_moved(
                run(*old(self), *final(self), r, old(out)@, final(out)@),
                edit,
            ),
    {
        let mut taken = Modal::Closed;
        std::mem::swap(&mut self.modal, &mut taken);
        if let Modal::WorkspaceSearch(state) = taken {
            let WorkspaceSearchState {
                input,
                scope,
                label,
                workspace,
                matches,
                cursor,
                pending,
                limited,
                error,
            } = state;
            let mut input = input;
            input.apply(edit);
            self.modal = Modal::WorkspaceSearch(
                WorkspaceSearchState {
                    input,
                    scope,
                    label,
                    workspace,
                    matches,
                    cursor,
                    pending,
                    limited,
                    error,
                },
            );
        }
        Effects::redraw()
    }

    /// Selects a line.
    fn select_hit(&mut self, cursor: usize)
        requires
            old(self).modal is WorkspaceSearch,
        ensures
            *final(self) == old(self).search_selects(cursor as int).next,
    {
        let mut taken = Modal::Closed;
        std::mem::swap(&mut self.modal, &mut taken);
        if let Modal::WorkspaceSearch(state) = taken {
            let WorkspaceSearchState {
                input,
                scope,
                label,
                workspace,
                matches,
                cursor: _,
                pending,
                limited,
                error,
            } = state;
            self.modal = Modal::WorkspaceSearch(
                WorkspaceSearchState {
                    input,
                    scope,
                    label,
                    workspace,
                    matches,
                    cursor,
                    pending,
                    limited,
                    error,
                },
            );
        }
    }

    /// Moves the selection by some lines.
    fn move_hit(&mut self, delta: isize) -> (r: Effects)
        requires
            old(self).modal is WorkspaceSearch,
        ensures
            *final(self) == old(self).search_moves(delta as int).next,
            r == Effects::repaint(),
    {
        let next: usize = match &self.modal {
            Modal::WorkspaceSearch(s) => move_cursor(s.cursor, delta, s.matches.len()),
            _ => 0,
        };
        self.select_hit(next);
        Effects::redraw()
    }

    /// Shows the selected line.
    fn confirm_workspace_search(&mut self, out: &mut Vec<Action>) -> (r: Effects)
        requires
            old(self).modal is WorkspaceSearch,
        ensures
            run(*old(self), *final(self), r, old(out)@, final(out)@).takes(
                old(self).confirm_search_step(),
            ),
    {
        let (name, line) = match &self.modal {
            Modal::WorkspaceSearch(s) => {
                if s.cursor >= s.matches.len() {
                    return Effects::noop();
                }
                let hit = &s.matches[s.cursor];
                (hit.path.clone(), hit.line)
            },
            _ => {
                return Effects::noop();
            },
        };
        self.cancel_workspace_search(out);
        self.modal = Modal::Closed;
        self.pointer.last_click = None;
        let op = TreeOp::RevealNamed { root: self.repo.root.clone(), name: name.clone() };
        out.push(Action::Tree { op, then: Then::Hit { name, line } });
        Effects::redraw()
    }

    /// A key for the overlay.
    pub fn handle_workspace_search_key(&mut self, key: Key, out: &mut Vec<Action>) -> (r: Effects)
        ensures
            Self::search_overlay_keyed(
                run(*old(self), *final(self), r, old(out)@, final(out)@),
                key,
            ),
    {
        if !self.workspace_search_open() {
            return Effects::noop();
        }
        match key.code {
            KeyCode::Char(c) => {
                if key.modifiers.only_shift() {
                    self.type_search(Edit::Insert(c), out)
                } else {
                    Effects::noop()
                }
            },
            KeyCode::Backspace => self.type_search(Edit::Backspace, out),
            KeyCode::Delete => self.type_search(Edit::Delete, out),
            KeyCode::Left => self.move_search_caret(Edit::Left, out),
            KeyCode::Right => self.move_search_caret(Edit::Right, out),
            KeyCode::Home => self.move_search_caret(Edit::Home, out),
            KeyCode::End => self.move_search_caret(Edit::End, out),
            KeyCode::Up => self.move_hit(-1),
            KeyCode::Down => self.move_hit(1),
            KeyCode::Tab => self.toggle_workspace_search_scope(out),
            KeyCode::Enter => self.confirm_workspace_search(out),
            KeyCode::Esc => {
                self.cancel_workspace_search(out);
                self.modal = Modal::Closed;
                self.pointer.last_click = None;
                Effects::redraw()
            },
            _ => Effects::noop(),
        }
    }

    /// Searches the whole workspace instead of the place, or the other way round.
    fn toggle_workspace_search_scope(&mut self, out: &mut Vec<Action>) -> (r: Effects)
        requires
            old(self).modal is WorkspaceSearch,
        ensures
            ({
                let s = old(self).modal->WorkspaceSearch_0;
                Self::searched(
                    run(*old(self), *final(self), r, old(out)@, final(out)@),
                    s.input.text(),
                    s.input.caret(),
                    !s.workspace,
                )
            }),
    {
        let (input, workspace) = self.search_input();
        self.search_for(input, !workspace, out)
    }

    /// A mouse event for the overlay: a click on the switch of the scope or on a line, or the
    /// wheel. A line takes two rows.
    pub open spec fn search_overlay_moused(r: Run, ev: Mouse) -> bool {
        let s = r.from.modal->WorkspaceSearch_0;
        let geom = r.from.screen.geom;
        let step = r.from.prefs.wheel_step as int;
        if !(r.from.modal is WorkspaceSearch) || ev.modifiers.shift {
            r.takes(r.from.quiet())
        } else {
            match ev.kind {
                MouseKind::Up(MouseButton::Left) => if within(
                    geom.workspace_search_scope_button,
                    ev.column,
                    ev.row,
                ) {
                    Self::searched(r, s.input.text(), s.input.caret(), !s.workspace)
                } else if within(geom.workspace_search_rows, ev.column, ev.row) {
                    let index = geom.workspace_search_scroll + (ev.row
                        - geom.workspace_search_rows->0.y) / 2;
                    r.takes(
                        if index < s.matches@.len() {
                            r.from.search_selects(index)
                        } else {
                            r.from.quiet()
                        },
                    )
                } else {
                    r.takes(r.from.quiet())
                },
                MouseKind::ScrollDown => r.takes(r.from.search_moves(step)),
                MouseKind::ScrollUp => r.takes(r.from.search_moves(-step)),
                _ => r.takes(r.from.quiet()),
            }
        }
    }

    /// A mouse event for the overlay.
    pub fn handle_workspace_search_mouse(&mut self, ev: Mouse, out: &mut Vec<Action>) -> (r: Effects)
        ensures
            Self::search_overlay_moused(
                run(*old(self), *final(self), r, old(out)@, final(out)@),
                ev,
            ),
    {
        if !self.workspace_search_open() || ev.modifiers.shift {
            return Effects::noop();
        }
        let step: isize = self.prefs.wheel_step as isize;
        match ev.kind {
            MouseKind::Up(MouseButton::Left) => {
                if is_within(self.screen.geom.workspace_search_scope_button, ev.column, ev.row) {
                    return self.toggle_workspace_search_scope(out);
                }
                let total: usize = match &self.modal {
                    Modal::WorkspaceSearch(s) => s.matches.len(),
                    _ => 0,
                };
                if let Some(rows) = self.screen.geom.workspace_search_rows {
                    if rows.contains(ev.column, ev.row) {
                        let index: usize = self.screen.geom.workspace_search_scroll as usize + (
                        (ev.row - rows.y) / 2) as usize;
                        if index < total {
                            self.select_hit(index);
                            return Effects::redraw();
                        }
                    }
                }
                Effects::noop()
            },
            MouseKind::ScrollDown => self.move_hit(step),
            MouseKind::ScrollUp => self.move_hit(-step),
            _ => Effects::noop(),
        }
    }

    /// What a search brought is shown, if it is the latest one and the overlay is still open. The
    /// answer to an earlier one leaves the latest one running.
    pub open spec fn search_arrived(
        from: Controller,
        to: Controller,
        seq: u64,
        outcome: SearchOutcome,
        shown: bool,
    ) -> bool {
        let stopped = from.search_stopped();
        let before = from.modal->WorkspaceSearch_0;
        if !from.host.search_running || seq != from.host.search_seq {
            to == from && !shown
        } else if !(from.modal is WorkspaceSearch) {
            to == stopped && !shown
        } else {
            match outcome {
                SearchOutcome::Found { matches, limited } => {
                    &&& shown
                    &&& to == (Controller {
                        modal: Modal::WorkspaceSearch(
                            WorkspaceSearchState {
                                matches,
                                limited,
                                cursor: 0,
                                pending: false,
                                error: None,
                                ..before
                            },
                        ),
                        ..stopped
                    })
                },
                SearchOutcome::Interrupted => {
                    &&& !shown
                    &&& to == (Controller {
                        modal: Modal::WorkspaceSearch(
                            WorkspaceSearchState { pending: false, ..before },
                        ),
                        ..stopped
                    })
                },
                SearchOutcome::Failed => {
                    &&& shown
                    &&& to.modal matches Modal::WorkspaceSearch(after) && after.matches@.len() == 0
                        && after == (WorkspaceSearchState {
                        matches: after.matches,
                        limited: false,
                        pending: false,
                        error: Some(SearchFailure::Failed),
                        ..before
                    })
                    &&& to == (Controller { modal: to.modal, ..stopped })
                },
            }
        }
    }

    /// A search ended.
    pub fn search_finished(&mut self, seq: u64, outcome: SearchOutcome) -> (r: bool)
        ensures
            Self::search_arrived(*old(self), *final(self), seq, outcome, r),
    {
        if !self.host.search_running || seq != self.host.search_seq {
            return false;
        }
        self.host.search_running = false;
        if !self.workspace_search_open() {
            return false;
        }
        let mut taken = Modal::Closed;
        std::mem::swap(&mut self.modal, &mut taken);
        if let Modal::WorkspaceSearch(state) = taken {
            let WorkspaceSearchState {
                input,
                scope,
                label,
                workspace,
                matches: before,
                cursor,
                pending: _,
                limited: was_limited,
                error,
            } = state;
            let (matches, limited, cursor, error, shown) = match outcome {
                SearchOutcome::Found { matches, limited } => (matches, limited, 0, None, true),
                SearchOutcome::Interrupted => (before, was_limited, cursor, error, false),
                SearchOutcome::Failed => (
                    Vec::new(),
                    false,
                    cursor,
                    Some(SearchFailure::Failed),
                    true,
                ),
            };
            self.modal = Modal::WorkspaceSearch(
                WorkspaceSearchState {
                    input,
                    scope,
                    label,
                    workspace,
                    matches,
                    cursor,
                    pending: false,
                    limited,
                    error,
                },
            );
            return shown;
        }
        false
    }

    /// The search with this number runs.
    pub open spec fn searching(self, seq: u64) -> bool {
        self.host.search_running && seq == self.host.search_seq
    }

    /// A search that ended without an answer failed, if it is the latest one and the overlay is
    /// still open.
    pub open spec fn search_vanished(self, seq: u64) -> Controller {
        if self.searching(seq) && self.modal is WorkspaceSearch {
            Controller {
                modal: Modal::WorkspaceSearch(
                    WorkspaceSearchState {
                        pending: false,
                        error: Some(SearchFailure::Failed),
                        ..self.modal->WorkspaceSearch_0
                    },
                ),
                ..self.search_stopped()
            }
        } else if self.searching(seq) {
            self.search_stopped()
        } else {
            self
        }
    }

    /// A search ended without an answer.
    pub fn search_lost(&mut self, seq: u64) -> (r: bool)
        ensures
            *final(self) == old(self).search_vanished(seq),
            r == (old(self).searching(seq) && old(self).modal is WorkspaceSearch),
    {
        if !self.host.search_running || seq != self.host.search_seq {
            return false;
        }
        self.host.search_running = false;
        if !self.workspace_search_open() {
            return false;
        }
        let mut taken = Modal::Closed;
        std::mem::swap(&mut self.modal, &mut taken);
        if let Modal::WorkspaceSearch(state) = taken {
            let WorkspaceSearchState {
                input,
                scope,
                label,
                workspace,
                matches,
                cursor,
                pending: _,
                limited,
                error: _,
            } = state;
            self.modal = Modal::WorkspaceSearch(
                WorkspaceSearchState {
                    input,
                    scope,
                    label,
                    workspace,
                    matches,
                    cursor,
                    pending: false,
                    limited,
                    error: Some(SearchFailure::Failed),
                },
            );
        }
        true
    }
}

/// The answer to a search that is no longer wanted changes nothing, and neither does its loss: the
/// search that was started since runs on, and its own answer is still shown.
pub proof fn late_answers_are_dropped(
    from: Controller,
    to: Controller,
    seq: u64,
    outcome: SearchOutcome,
    shown: bool,
)
    requires
        Controller::search_arrived(from, to, seq, outcome, shown),
        seq != from.host.search_seq,
    ensures
        !shown,
        to == from,
        from.search_vanished(seq) == from,
{
}

/// Each change of the text or the scope starts over: what was found before is gone, and the search
/// that was running has another number than the one that is started.
pub proof fn every_change_starts_over(r: Run, text: Seq<char>, caret: nat, workspace: bool)
    requires
        Controller::searched(r, text, caret, workspace),
    ensures
        r.to.modal->WorkspaceSearch_0.matches@.len() == 0,
        r.to.host.search_running ==> r.to.host.search_seq != r.from.host.search_seq,
        r.to.host.search_running == r.to.modal->WorkspaceSearch_0.pending,
{
}

} // verus!
