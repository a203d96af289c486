//! Moving through the tree, the filters of the tree, the layout of the panes, and leaving.

use super::actions::{
    run, Action, AfterGit, Clip, Effects, Filter, HostRequest, PathKind, Run, Step, Then, TreeOp,
};
use super::content::{between, Layout};
use super::render::is_markdown;
use super::state::{
    Controller, DiscardAction, Flash, Focus, Host, Modal, Navigation, NodeKind, Notice, Preferences,
    TreeView, FLASH_DIM, FLASH_FULL, HSCROLL_STEP, SPLIT_DRAG_MIN,
};
use crate::config::MAX_TREE_WIDTH;
use crate::finder::{move_cursor, moved};
use crate::git::Baseline;
use crate::view_policy::{diff_view, is_diff_view, mode_after, next_mode};
use vstd::prelude::*;

verus! {

/// The other baseline.
pub open spec fn other_baseline(baseline: Baseline) -> Baseline {
    match baseline {
        Baseline::Head => Baseline::Base,
        Baseline::Base => Baseline::Head,
    }
}

/// A moment some milliseconds later.
pub open spec fn later(now: u64, delay: u64) -> u64 {
    if now + delay > u64::MAX {
        u64::MAX
    } else {
        (now + delay) as u64
    }
}

impl Controller {
    /// The next frame brings the selected row into view.
    pub open spec fn follows(self) -> Controller {
        Controller { nav: Navigation { tree_follow_selection: true, ..self.nav }, ..self }
    }

    /// Another row is selected.
    pub open spec fn selects(self, row: int) -> Controller {
        Controller { tree: TreeView { cursor: row as usize, ..self.tree }, ..self }
    }

    /// The content fills the frame and has the focus.
    pub open spec fn zooms(self) -> Controller {
        Controller { nav: Navigation { zoomed: true, focus: Focus::Content, ..self.nav }, ..self }
    }

    /// Tree and content stand side by side, and the tree has the focus.
    pub open spec fn splits(self) -> Controller {
        Controller { nav: Navigation { zoomed: false, focus: Focus::Tree, ..self.nav }, ..self }
    }

    /// The viewer's pane is in full screen, or not.
    pub open spec fn fills_screen(self, on: bool) -> Controller {
        Controller { host: Host { zoomed: on, ..self.host }, ..self }
    }

    /// The request that puts the viewer's pane into full screen, or takes it out.
    pub open spec fn zoom_request(self, on: bool) -> Seq<Action> {
        if self.host.present {
            seq![Action::Host(HostRequest::Zoom(on))]
        } else {
            Seq::empty()
        }
    }

    /// The viewer's pane is out of full screen.
    pub open spec fn releases(self) -> Controller {
        if self.host.zoomed {
            self.fills_screen(false)
        } else {
            self
        }
    }

    /// The request that takes the viewer's pane out of full screen, if the viewer put it there.
    pub open spec fn release_request(self) -> Seq<Action> {
        if self.host.zoomed {
            self.zoom_request(false)
        } else {
            Seq::empty()
        }
    }

    /// Moves the selection, or scrolls the content.
    pub open spec fn navigate_step(self, layout: Layout, delta: int) -> Step {
        match self.nav.focus {
            Focus::Content => self.scrolled(layout, delta).shows(),
            Focus::Tree => self.selects(
                moved(self.tree.cursor as int, delta, self.tree.nodes@.len() as int),
            ).follows().renders(),
        }
    }

    /// Opens or closes the selected directory, or scrolls the content sideways.
    pub open spec fn expand_step(self, expand: bool) -> Step {
        match self.nav.focus {
            Focus::Content => self.hscrolled(
                if expand {
                    HSCROLL_STEP as int
                } else {
                    -(HSCROLL_STEP as int)
                },
            ).shows(),
            Focus::Tree => match self.selected() {
                Some(node) if node.kind == NodeKind::Dir => self.follows().asks(
                    Action::Tree {
                        op: if expand {
                            TreeOp::Expand(node.path)
                        } else {
                            TreeOp::Collapse(node.path)
                        },
                        then: Then::Nothing,
                    },
                ),
                _ => self.quiet(),
            },
        }
    }

    /// Closes every directory.
    pub open spec fn collapse_all_step(self) -> Step {
        if self.nav.focus != Focus::Tree {
            self.quiet()
        } else if self.prefs.changed_only || self.prefs.status_mode {
            self.tells(Notice::CollapseUnavailable)
        } else {
            Controller {
                nav: Navigation {
                    tree_scroll: 0,
                    tree_hscroll: 0,
                    tree_follow_selection: true,
                    ..self.nav
                },
                ..self
            }.asks(Action::Tree { op: TreeOp::CollapseAll, then: Then::Render })
        }
    }

    /// Pins the viewer, or unpins it.
    pub open spec fn pin_step(self) -> Step {
        Controller { prefs: Preferences { pinned: !self.prefs.pinned, ..self.prefs }, ..self }.tells(
            if self.prefs.pinned {
                Notice::Unpinned
            } else {
                Notice::Pinned
            },
        )
    }

    /// Opens or closes a directory, or shows a file in the whole frame.
    pub open spec fn activate_step(self) -> Step {
        match self.selected() {
            None => self.quiet(),
            Some(node) => match node.kind {
                NodeKind::Dir => self.follows().asks(
                    Action::Tree {
                        op: if node.expanded {
                            TreeOp::Collapse(node.path)
                        } else {
                            TreeOp::Expand(node.path)
                        },
                        then: Then::Nothing,
                    },
                ),
                NodeKind::File => self.zooms().shows(),
            },
        }
    }

    /// Shows a file on the whole screen, or returns to the split.
    pub open spec fn fullscreen_step(self) -> Step {
        if self.host.zoomed {
            Step { actions: self.zoom_request(false), ..self.fills_screen(false).splits().shows() }
        } else if self.file_selected() {
            Step { actions: self.zoom_request(true), ..self.zooms().fills_screen(true).shows() }
        } else {
            self.activate_step()
        }
    }

    /// Shows or hides ignored files.
    pub open spec fn ignore_step(self) -> Step {
        let show = !self.prefs.show_ignored;
        Controller { prefs: Preferences { show_ignored: show, ..self.prefs }, ..self }.follows().asks(
            Action::Tree { op: TreeOp::ShowIgnored(show), then: Then::Render },
        )
    }

    /// Shows or hides dotfiles.
    pub open spec fn hidden_step(self) -> Step {
        let hidden = !self.prefs.hide_hidden;
        Controller { prefs: Preferences { hide_hidden: hidden, ..self.prefs }, ..self }.follows().asks(
            Action::Tree { op: TreeOp::HideHidden(hidden), then: Then::Render },
        )
    }

    /// Lists only files changed against the baseline, or every file. Leaves status mode.
    pub open spec fn changed_only_step(self) -> Step {
        if !self.repo.is_git_repo {
            self.quiet()
        } else {
            let only = !self.prefs.changed_only;
            Controller {
                prefs: Preferences {
                    changed_only: only,
                    status_mode: self.prefs.status_mode && !only,
                    ..self.prefs
                },
                ..self
            }.follows().asks(
                Action::Tree {
                    op: TreeOp::Filter(
                        if only {
                            Filter::Changed
                        } else {
                            Filter::Everything
                        },
                    ),
                    then: Then::Render,
                },
            )
        }
    }

    /// Enters status mode, which ends the other filter, or leaves it. Outside a repository it can
    /// only be left.
    pub open spec fn status_mode_step(self) -> Step {
        if !self.repo.is_git_repo && !self.prefs.status_mode {
            self.quiet()
        } else if self.prefs.status_mode {
            let left = Controller {
                prefs: Preferences { status_mode: false, ..self.prefs },
                ..self
            }.follows();
            if self.prefs.changed_only {
                left.renders()
            } else {
                left.asks(
                    Action::Tree { op: TreeOp::Filter(Filter::Everything), then: Then::Render },
                )
            }
        } else {
            Controller {
                prefs: Preferences { status_mode: true, changed_only: false, ..self.prefs },
                ..self
            }.follows().asks(
                Action::Tree { op: TreeOp::Filter(Filter::Status), then: Then::Render },
            )
        }
    }

    /// Compares with the other baseline.
    pub open spec fn baseline_step(self) -> Step {
        if !self.repo.is_git_repo {
            self.quiet()
        } else {
            let baseline = other_baseline(self.prefs.baseline);
            Controller { prefs: Preferences { baseline, ..self.prefs }, ..self }.asks(
                Action::QueryChanged(baseline),
            )
        }
    }

    /// A hint that names the diff presentation.
    pub open spec fn flashes(self, now: u64) -> Controller {
        Controller {
            flash: Some(
                Flash {
                    mode: self.prefs.diff_render_mode,
                    dim_at: later(now, FLASH_FULL),
                    deadline: later(later(now, FLASH_FULL), FLASH_DIM),
                    dim: false,
                },
            ),
            ..self
        }
    }

    /// The selected file is shown as a diff.
    pub open spec fn shows_diff(self) -> bool {
        self.file_selected() && is_diff_view(self.mode_of(self.selected()->0.path@))
    }

    /// Presents diffs in the next way.
    pub open spec fn diff_render_step(self, now: u64) -> Step {
        if self.shows_diff() {
            Controller {
                prefs: Preferences {
                    diff_render_mode: self.prefs.diff_render_mode.following(),
                    ..self.prefs
                },
                ..self
            }.flashes(now).renders()
        } else {
            self.quiet()
        }
    }

    /// The view after the current one of a file.
    pub open spec fn view_after(self, path: Seq<u8>) -> crate::view_policy::ViewMode {
        mode_after(
            self.mode_of(path),
            super::render::names_markdown(path),
            self.counts_as_changed(path),
        )
    }

    /// The next view of the selected file was chosen and rendered.
    pub open spec fn view_cycled(r: Run) -> bool {
        if r.from.file_selected() {
            let path = r.from.selected()->0.path@;
            &&& r.to.overrides@ == r.from.overrides@.insert(path, r.from.view_after(path))
            &&& r.takes(Controller { overrides: r.to.overrides, ..r.from }.renders())
        } else {
            r.takes(r.from.quiet())
        }
    }

    /// Hands the selection to another program, or shows it in the file manager.
    pub open spec fn hand_off_step(self, reveal: bool) -> Step {
        match self.selected() {
            Some(node) if self.host.opener => self.asks(Action::Open { path: node.path, reveal }),
            _ => self.quiet(),
        }
    }

    /// Hands the selected file to the editor.
    pub open spec fn editor_step(self) -> Step {
        if self.file_selected() {
            self.asks(Action::Edit(self.selected()->0.path))
        } else {
            self.quiet()
        }
    }

    /// Copies the path of the selection.
    pub open spec fn copy_path_step(self, kind: PathKind) -> Step {
        match self.selected() {
            Some(node) => self.asks(Action::Copy(Clip::Path { path: node.path, kind })),
            None => self.quiet(),
        }
    }

    /// Moves the focus to the other pane, unless only one is shown.
    pub open spec fn focus_step(self) -> Step {
        if self.nav.zoomed {
            self.quiet()
        } else {
            Controller {
                nav: Navigation {
                    focus: match self.nav.focus {
                        Focus::Tree => Focus::Content,
                        Focus::Content => Focus::Tree,
                    },
                    ..self.nav
                },
                ..self
            }.shows()
        }
    }

    /// Shows the content in the whole frame, or returns to the split and leaves full screen.
    pub open spec fn zoom_step(self) -> Step {
        if self.nav.zoomed {
            Step { actions: self.release_request(), ..self.splits().releases().shows() }
        } else {
            self.zooms().shows()
        }
    }

    /// Leaves, or asks first where annotations would be lost.
    pub open spec fn close_explicitly_step(self) -> Step {
        if self.prefs.confirm_discard && self.annotations.listed().len() > 0 {
            Controller { modal: Modal::DiscardConfirm(DiscardAction::Quit), ..self }.shows()
        } else {
            Step {
                next: self.releases(),
                effects: Effects::leave(),
                actions: self.release_request(),
            }
        }
    }

    /// Undoes one thing at a time: a selection, the launched range, a search, the zoomed content;
    /// then leaves, unless the viewer is pinned.
    pub open spec fn close_step(self) -> Step {
        if self.pane.selection is Some {
            Controller { pane: super::state::Pane { selection: None, ..self.pane }, ..self }.shows()
        } else if self.pane.range_flash is Some {
            Controller {
                pane: super::state::Pane { range_flash: None, ..self.pane },
                ..self
            }.shows()
        } else if self.pane.search is Some && !(self.modal is Prompt) {
            Controller { pane: super::state::Pane { search: None, ..self.pane }, ..self }.shows()
        } else if self.nav.zoomed {
            Step { actions: self.release_request(), ..self.splits().releases().shows() }
        } else if self.prefs.pinned {
            self.tells(Notice::StillPinned)
        } else {
            self.close_explicitly_step()
        }
    }

    /// Wraps the content if it was not wrapped, and the other way round.
    pub open spec fn wrap_switched(self) -> Controller {
        Controller {
            prefs: Preferences { wrap_override: Some(!self.wraps()), ..self.prefs },
            ..self
        }
    }

    /// Switches wrapping. Prose is laid out anew by its renderer.
    pub open spec fn wrap_step(self, layout: Layout) -> Step {
        let switched = self.wrap_switched().reclamped(layout);
        Step {
            next: switched.reflowed_if(switched.shows_prose()),
            effects: Effects::repaint(),
            actions: switched.reflow_actions(switched.shows_prose()),
        }
    }

    /// Reads git's state again and renders the selection.
    pub open spec fn refresh_step(self) -> Step {
        if self.repo.is_git_repo {
            self.asks(Action::QueryGit(AfterGit::Render))
        } else {
            self.renders()
        }
    }

    /// Reads git's state again because the pane got the focus.
    pub open spec fn focus_gained_step(self) -> Step {
        if self.repo.is_git_repo {
            self.asks(Action::QueryGit(AfterGit::RenderIfMoved(self.selected_path())))
        } else {
            self.quiet()
        }
    }

    /// Hides the note about a newer version.
    pub open spec fn dismiss_step(self) -> Step {
        if self.update.available is Some && !self.update.dismissed {
            Controller {
                update: super::state::Update { dismissed: true, ..self.update },
                ..self
            }.shows()
        } else {
            self.quiet()
        }
    }

    /// The lowest share of the tree that a resize reaches, in percent.
    pub open spec fn split_floor(self) -> int {
        if self.screen.geom.area_width > 0 {
            if self.screen.geom.min_split_pct > MAX_TREE_WIDTH {
                MAX_TREE_WIDTH as int
            } else {
                self.screen.geom.min_split_pct as int
            }
        } else {
            SPLIT_DRAG_MIN as int
        }
    }

    /// The share of the width that the tree was drawn with, in percent: its text, its borders and
    /// its scrollbar.
    pub open spec fn drawn_share(self) -> int {
        let geom = self.screen.geom;
        let outer = geom.tree_inner->0.width + 2 + (if geom.tree_vbar is Some {
            2int
        } else {
            0
        });
        (outer * 100) / (geom.area_width as int)
    }

    /// The split is in the user's hands from here on, starting from what is drawn.
    pub open spec fn takes_split(self) -> Controller {
        if self.prefs.split_manual {
            self
        } else {
            let geom = self.screen.geom;
            Controller {
                prefs: Preferences {
                    split_manual: true,
                    split_pct: if geom.tree_inner is Some && geom.area_width > 0 {
                        between(
                            self.drawn_share(),
                            self.split_floor(),
                            MAX_TREE_WIDTH as int,
                        ) as u16
                    } else {
                        self.prefs.split_pct
                    },
                    ..self.prefs
                },
                ..self
            }
        }
    }

    /// The tree has another share of the width.
    pub open spec fn split_at(self, pct: int) -> Controller {
        Controller {
            prefs: Preferences {
                split_pct: between(pct, self.split_floor(), MAX_TREE_WIDTH as int) as u16,
                ..self.prefs
            },
            ..self
        }
    }

    /// Gives the tree more of the width, or less.
    pub open spec fn resize_step(self, delta: int) -> Step {
        let taken = self.takes_split();
        taken.split_at(taken.prefs.split_pct + delta).shows()
    }
}

/// A moment some milliseconds later.
pub fn after(now: u64, delay: u64) -> (r: u64)
    ensures
        r == later(now, delay),
{
    now.saturating_add(delay)
}

impl Controller {
    /// Moves the selection by `delta` rows, or scrolls the content where that has the focus.
    pub fn navigate(&mut self, layout: &Layout, delta: i32, out: &mut Vec<Action>) -> (r: Effects)
        ensures
            run(*old(self), *final(self), r, old(out)@, final(out)@).takes(
                old(self).navigate_step(*layout, delta as int),
            ),
    {
        match self.nav.focus {
            Focus::Content => {
                self.scroll_content(layout, delta);
            },
            Focus::Tree => {
                let row: usize = move_cursor(
                    self.tree.cursor,
                    delta as isize,
                    self.tree.nodes.len(),
                );
                self.select_row(row);
                self.follow();
                self.dispatch_render(out);
            },
        }
        Effects::redraw()
    }

    /// Selects a row.
    pub fn select_row(&mut self, row: usize)
        ensures
            *final(self) == old(self).selects(row as int),
    {
        self.tree.cursor = row;
    }

    /// Brings the selected row into view with the next frame.
    pub fn follow(&mut self)
        ensures
            *final(self) == old(self).follows(),
    {
        self.nav.tree_follow_selection = true;
    }

    /// Opens the selected directory, or scrolls the content to the right.
    pub fn expand(&mut self, out: &mut Vec<Action>) -> (r: Effects)
        ensures
            run(*old(self), *final(self), r, old(out)@, final(out)@).takes(
                old(self).expand_step(true),
            ),
    {
        match self.nav.focus {
            Focus::Content => {
                self.scroll_content_h(HSCROLL_STEP as i32)
            },
            Focus::Tree => match self.selected_dir() {
                Some(path) => {
                    self.follow();
                    out.push(Action::Tree { op: TreeOp::Expand(path), then: Then::Nothing });
                    Effects::redraw()
                },
                None => {
                    Effects::noop()
                },
            },
        }
    }

    /// Closes the selected directory, or scrolls the content to the left.
    pub fn collapse(&mut self, out: &mut Vec<Action>) -> (r: Effects)
        ensures
            run(*old(self), *final(self), r, old(out)@, final(out)@).takes(
                old(self).expand_step(false),
            ),
    {
        match self.nav.focus {
            Focus::Content => {
                self.scroll_content_h(-(HSCROLL_STEP as i32))
            },
            Focus::Tree => match self.selected_dir() {
                Some(path) => {
                    self.follow();
                    out.push(Action::Tree { op: TreeOp::Collapse(path), then: Then::Nothing });
                    Effects::redraw()
                },
                None => {
                    Effects::noop()
                },
            },
        }
    }

    /// The path of the selected directory.
    fn selected_dir(&self) -> (r: Option<crate::paths::FilePath>)
        ensures
            r is Some <==> (self.selected() matches Some(node) && node.kind == NodeKind::Dir),
            r is Some ==> r == self.selected_path(),
    {
        match self.selected_node() {
            Some(node) => if node.kind == NodeKind::Dir {
                Some(node.path.clone())
            } else {
                None
            },
            None => None,
        }
    }

    /// Closes every directory, unless the tree lists changed files only.
    pub fn collapse_all(&mut self, out: &mut Vec<Action>) -> (r: Effects)
        ensures
            run(*old(self), *final(self), r, old(out)@, final(out)@).takes(
                old(self).collapse_all_step(),
            ),
    {
        if self.nav.focus != Focus::Tree {
            return Effects::noop();
        }
        if self.prefs.changed_only || self.prefs.status_mode {
            self.notice = Some(Notice::CollapseUnavailable);
            return Effects::redraw();
        }
        self.nav = Navigation {
            tree_scroll: 0,
            tree_hscroll: 0,
            tree_follow_selection: true,
            ..self.nav
        };
        out.push(Action::Tree { op: TreeOp::CollapseAll, then: Then::Render });
        Effects::redraw()
    }

    /// Pins the viewer, or unpins it.
    pub fn toggle_pin(&mut self, out: &mut Vec<Action>) -> (r: Effects)
        ensures
            run(*old(self), *final(self), r, old(out)@, final(out)@).takes(old(self).pin_step()),
    {
        self.notice = Some(
            if self.prefs.pinned {
                Notice::Unpinned
            } else {
                Notice::Pinned
            },
        );
        self.prefs.pinned = !self.prefs.pinned;
        Effects::redraw()
    }

    /// Opens or closes the selected directory, or shows the selected file in the whole frame.
    pub fn activate(&mut self, out: &mut Vec<Action>) -> (r: Effects)
        ensures
            run(*old(self), *final(self), r, old(out)@, final(out)@).takes(
                old(self).activate_step(),
            ),
    {
        match self.selected_node() {
            None => {
                Effects::noop()
            },
            Some(node) => match node.kind {
                NodeKind::Dir => {
                    let path = node.path.clone();
                    let op = if node.expanded {
                        TreeOp::Collapse(path)
                    } else {
                        TreeOp::Expand(path)
                    };
                    self.follow();
                    out.push(Action::Tree { op, then: Then::Nothing });
                    Effects::redraw()
                },
                NodeKind::File => {
                    self.zoom_in();
                    Effects::redraw()
                },
            },
        }
    }

    /// Shows the content in the whole frame.
    pub fn zoom_in(&mut self)
        ensures
            *final(self) == old(self).zooms(),
    {
        self.nav = Navigation { zoomed: true, focus: Focus::Content, ..self.nav };
    }

    /// Shows tree and content side by side.
    pub fn zoom_out(&mut self)
        ensures
            *final(self) == old(self).splits(),
    {
        self.nav = Navigation { zoomed: false, focus: Focus::Tree, ..self.nav };
    }

    /// Puts the viewer's pane into full screen, or takes it out.
    fn host_zoom(&mut self, on: bool, out: &mut Vec<Action>)
        ensures
            *final(self) == old(self).fills_screen(on),
            final(out)@ == old(out)@ + old(self).zoom_request(on),
    {
        self.host.zoomed = on;
        if self.host.present {
            out.push(Action::Host(HostRequest::Zoom(on)));
        }
        assert(out@ =~= old(out)@ + old(self).zoom_request(on));
    }

    /// Takes the viewer's pane out of full screen, if the viewer put it there.
    pub fn leave_host_zoom(&mut self, out: &mut Vec<Action>)
        ensures
            *final(self) == old(self).releases(),
            final(out)@ == old(out)@ + old(self).release_request(),
    {
        if self.host.zoomed {
            self.host_zoom(false, out);
        }
        assert(out@ =~= old(out)@ + old(self).release_request());
    }

    /// Shows the selected file on the whole screen, or returns to the split.
    pub fn open_fullscreen(&mut self, out: &mut Vec<Action>) -> (r: Effects)
        ensures
            run(*old(self), *final(self), r, old(out)@, final(out)@).takes(
                old(self).fullscreen_step(),
            ),
    {
        if self.host.zoomed {
            self.host_zoom(false, out);
            self.zoom_out();
            return Effects::redraw();
        }
        let is_file = self.selected_file().is_some();
        let effects = self.activate(out);
        if is_file {
            assert(out@ =~= old(out)@);
            self.host_zoom(true, out);
        }
        effects
    }

    /// Shows or hides ignored files.
    pub fn toggle_ignore(&mut self, out: &mut Vec<Action>) -> (r: Effects)
        ensures
            run(*old(self), *final(self), r, old(out)@, final(out)@).takes(
                old(self).ignore_step(),
            ),
    {
        let show = !self.prefs.show_ignored;
        self.prefs.show_ignored = show;
        self.follow();
        out.push(Action::Tree { op: TreeOp::ShowIgnored(show), then: Then::Render });
        Effects::redraw()
    }

    /// Shows or hides dotfiles.
    pub fn toggle_hidden(&mut self, out: &mut Vec<Action>) -> (r: Effects)
        ensures
            run(*old(self), *final(self), r, old(out)@, final(out)@).takes(
                old(self).hidden_step(),
            ),
    {
        let hidden = !self.prefs.hide_hidden;
        self.prefs.hide_hidden = hidden;
        self.follow();
        out.push(Action::Tree { op: TreeOp::HideHidden(hidden), then: Then::Render });
        Effects::redraw()
    }

    /// Lists only files changed against the baseline, or every file.
    pub fn toggle_changed_only(&mut self, out: &mut Vec<Action>) -> (r: Effects)
        ensures
            run(*old(self), *final(self), r, old(out)@, final(out)@).takes(
                old(self).changed_only_step(),
            ),
    {
        if !self.repo.is_git_repo {
            return Effects::noop();
        }
        let only = !self.prefs.changed_only;
        self.prefs = Preferences {
            changed_only: only,
            status_mode: self.prefs.status_mode && !only,
            ..self.prefs
        };
        self.follow();
        let filter = if only {
            Filter::Changed
        } else {
            Filter::Everything
        };
        out.push(Action::Tree { op: TreeOp::Filter(filter), then: Then::Render });
        Effects::redraw()
    }

    /// Enters status mode, or leaves it.
    pub fn toggle_status_mode(&mut self, out: &mut Vec<Action>) -> (r: Effects)
        ensures
            run(*old(self), *final(self), r, old(out)@, final(out)@).takes(
                old(self).status_mode_step(),
            ),
    {
        if !self.repo.is_git_repo && !self.prefs.status_mode {
            return Effects::noop();
        }
        if self.prefs.status_mode {
            self.prefs.status_mode = false;
            self.follow();
            if self.prefs.changed_only {
                self.dispatch_render(out);
            } else {
                out.push(
                    Action::Tree { op: TreeOp::Filter(Filter::Everything), then: Then::Render },
                );
            }
        } else {
            self.prefs = Preferences { status_mode: true, changed_only: false, ..self.prefs };
            self.follow();
            out.push(Action::Tree { op: TreeOp::Filter(Filter::Status), then: Then::Render });
        }
        Effects::redraw()
    }

    /// Compares with the other baseline.
    pub fn toggle_baseline(&mut self, out: &mut Vec<Action>) -> (r: Effects)
        ensures
            run(*old(self), *final(self), r, old(out)@, final(out)@).takes(
                old(self).baseline_step(),
            ),
    {
        if !self.repo.is_git_repo {
            return Effects::noop();
        }
        let baseline = match self.prefs.baseline {
            Baseline::Head => Baseline::Base,
            Baseline::Base => Baseline::Head,
        };
        self.prefs.baseline = baseline;
        out.push(Action::QueryChanged(baseline));
        Effects::redraw()
    }

    /// Presents diffs in the next way, where the selected file is shown as a diff.
    pub fn cycle_diff_render(&mut self, now: u64, out: &mut Vec<Action>) -> (r: Effects)
        ensures
            run(*old(self), *final(self), r, old(out)@, final(out)@).takes(
                old(self).diff_render_step(now),
            ),
    {
        let shown = match self.selected_file() {
            Some(path) => diff_view(self.effective_mode(&path)),
            None => false,
        };
        if !shown {
            return Effects::noop();
        }
        let mode = self.prefs.diff_render_mode.next();
        self.prefs.diff_render_mode = mode;
        let dim_at: u64 = after(now, FLASH_FULL);
        self.flash = Some(Flash { mode, dim_at, deadline: after(dim_at, FLASH_DIM), dim: false });
        self.dispatch_render(out);
        Effects::redraw()
    }

    /// Shows the selected file in its next view.
    pub fn cycle_view(&mut self, out: &mut Vec<Action>) -> (r: Effects)
        ensures
            Self::view_cycled(run(*old(self), *final(self), r, old(out)@, final(out)@)),
    {
        match self.selected_file() {
            None => {
                Effects::noop()
            },
            Some(path) => {
                let current = self.effective_mode(&path);
                let next = next_mode(current, is_markdown(&path), self.is_changed(&path));
                self.overrides.insert(path, next);
                self.dispatch_render(out);
                Effects::redraw()
            },
        }
    }

    /// Hands the selection to the program that opens it.
    pub fn open_with_app(&mut self, out: &mut Vec<Action>) -> (r: Effects)
        ensures
            run(*old(self), *final(self), r, old(out)@, final(out)@).takes(
                old(self).hand_off_step(false),
            ),
    {
        self.hand_off(false, out)
    }

    /// Shows the selection in the file manager.
    pub fn reveal_in_file_manager(&mut self, out: &mut Vec<Action>) -> (r: Effects)
        ensures
            run(*old(self), *final(self), r, old(out)@, final(out)@).takes(
                old(self).hand_off_step(true),
            ),
    {
        self.hand_off(true, out)
    }

    fn hand_off(&mut self, reveal: bool, out: &mut Vec<Action>) -> (r: Effects)
        ensures
            run(*old(self), *final(self), r, old(out)@, final(out)@).takes(
                old(self).hand_off_step(reveal),
            ),
    {
        match self.path_of_selection() {
            Some(path) => if self.host.opener {
                out.push(Action::Open { path, reveal });
                return Effects::redraw();
            },
            None => {},
        }
        Effects::noop()
    }

    /// Hands the selected file to the editor.
    pub fn open_in_editor(&mut self, out: &mut Vec<Action>) -> (r: Effects)
        ensures
            run(*old(self), *final(self), r, old(out)@, final(out)@).takes(
                old(self).editor_step(),
            ),
    {
        match self.selected_file() {
            Some(path) => {
                out.push(Action::Edit(path));
                Effects::redraw()
            },
            None => {
                Effects::noop()
            },
        }
    }

    /// Copies the path of the selection.
    pub fn copy_path(&mut self, kind: PathKind, out: &mut Vec<Action>) -> (r: Effects)
        ensures
            run(*old(self), *final(self), r, old(out)@, final(out)@).takes(
                old(self).copy_path_step(kind),
            ),
    {
        match self.path_of_selection() {
            Some(path) => {
                out.push(Action::Copy(Clip::Path { path, kind }));
                Effects::redraw()
            },
            None => {
                Effects::noop()
            },
        }
    }

    /// Moves the focus to the other pane, unless only the content is shown.
    pub fn toggle_focus(&mut self, out: &mut Vec<Action>) -> (r: Effects)
        ensures
            run(*old(self), *final(self), r, old(out)@, final(out)@).takes(old(self).focus_step()),
    {
        if self.nav.zoomed {
            return Effects::noop();
        }
        self.nav.focus = match self.nav.focus {
            Focus::Tree => Focus::Content,
            Focus::Content => Focus::Tree,
        };
        Effects::redraw()
    }

    /// Shows the content in the whole frame, or returns to the split.
    pub fn toggle_zoom(&mut self, out: &mut Vec<Action>) -> (r: Effects)
        ensures
            run(*old(self), *final(self), r, old(out)@, final(out)@).takes(old(self).zoom_step()),
    {
        if self.nav.zoomed {
            self.zoom_out();
            self.leave_host_zoom(out);
        } else {
            self.zoom_in();
        }
        Effects::redraw()
    }

    /// Leaves, or asks first where annotations would be lost.
    pub fn close_explicitly(&mut self, out: &mut Vec<Action>) -> (r: Effects)
        ensures
            run(*old(self), *final(self), r, old(out)@, final(out)@).takes(
                old(self).close_explicitly_step(),
            ),
    {
        if self.prefs.confirm_discard && !self.annotations.is_empty() {
            self.modal = Modal::DiscardConfirm(DiscardAction::Quit);
            return Effects::redraw();
        }
        self.leave_host_zoom(out);
        Effects::quit()
    }

    /// The close key: undoes one thing at a time, then leaves.
    pub fn close_or_unzoom(&mut self, out: &mut Vec<Action>) -> (r: Effects)
        ensures
            run(*old(self), *final(self), r, old(out)@, final(out)@).takes(old(self).close_step()),
    {
        if self.pane.selection.is_some() {
            self.pane.selection = None;
            return Effects::redraw();
        }
        if self.pane.range_flash.is_some() {
            self.pane.range_flash = None;
            return Effects::redraw();
        }
        if self.pane.search.is_some() && !self.prompt_open() {
            self.pane.search = None;
            return Effects::redraw();
        }
        if self.nav.zoomed {
            self.zoom_out();
            self.leave_host_zoom(out);
            return Effects::redraw();
        }
        if self.prefs.pinned {
            self.notice = Some(Notice::StillPinned);
            return Effects::redraw();
        }
        self.close_explicitly(out)
    }

    /// Whether the bottom prompt is open.
    pub fn prompt_open(&self) -> (r: bool)
        ensures
            r == (self.modal is Prompt),
    {
        match self.modal {
            Modal::Prompt(_) => true,
            _ => false,
        }
    }

    /// Switches wrapping.
    pub fn toggle_wrap(&mut self, layout: &Layout, out: &mut Vec<Action>) -> (r: Effects)
        ensures
            run(*old(self), *final(self), r, old(out)@, final(out)@).takes(
                old(self).wrap_step(*layout),
            ),
    {
        let wrap = self.effective_wrap();
        self.prefs.wrap_override = Some(!wrap);
        self.reclamp(layout);
        self.rerender_after_wrap_toggle(out);
        Effects::redraw()
    }

    /// Reads git's state again and renders the selection.
    pub fn refresh(&mut self, out: &mut Vec<Action>) -> (r: Effects)
        ensures
            run(*old(self), *final(self), r, old(out)@, final(out)@).takes(
                old(self).refresh_step(),
            ),
    {
        if self.repo.is_git_repo {
            out.push(Action::QueryGit(AfterGit::Render));
        } else {
            self.dispatch_render(out);
        }
        Effects::redraw()
    }

    /// Reads git's state again because the pane got the focus.
    pub fn handle_focus_gained(&mut self, out: &mut Vec<Action>) -> (r: Effects)
        ensures
            run(*old(self), *final(self), r, old(out)@, final(out)@).takes(
                old(self).focus_gained_step(),
            ),
    {
        if self.repo.is_git_repo {
            let before = self.path_of_selection();
            out.push(Action::QueryGit(AfterGit::RenderIfMoved(before)));
            Effects::redraw()
        } else {
            Effects::noop()
        }
    }

    /// Hides the note about a newer version for the rest of the session.
    pub fn dismiss_update(&mut self, out: &mut Vec<Action>) -> (r: Effects)
        ensures
            run(*old(self), *final(self), r, old(out)@, final(out)@).takes(
                old(self).dismiss_step(),
            ),
    {
        if self.update.available.is_some() && !self.update.dismissed {
            self.update.dismissed = true;
            return Effects::redraw();
        }
        Effects::noop()
    }

    /// The lowest share of the tree that a resize reaches, in percent.
    fn split_floor_pct(&self) -> (r: u16)
        ensures
            r == self.split_floor(),
            r <= MAX_TREE_WIDTH,
    {
        if self.screen.geom.area_width > 0 {
            if self.screen.geom.min_split_pct > MAX_TREE_WIDTH {
                MAX_TREE_WIDTH
            } else {
                self.screen.geom.min_split_pct
            }
        } else {
            SPLIT_DRAG_MIN
        }
    }

    /// Takes the split into the user's hands.
    pub fn engage_manual_split(&mut self)
        ensures
            *final(self) == old(self).takes_split(),
    {
        if self.prefs.split_manual {
            return;
        }
        let floor: u16 = self.split_floor_pct();
        if let Some(tree) = self.screen.geom.tree_inner {
            if self.screen.geom.area_width > 0 {
                let gutter: u32 = if self.screen.geom.tree_vbar.is_some() {
                    2
                } else {
                    0
                };
                let outer: u32 = tree.width as u32 + 2 + gutter;
                let share: u32 = outer * 100 / self.screen.geom.area_width as u32;
                let pct: u16 = clamped_share(share as i64, floor);
                self.prefs = Preferences { split_manual: true, split_pct: pct, ..self.prefs };
                return;
            }
        }
        self.prefs.split_manual = true;
    }

    /// Gives the tree another share of the width.
    pub fn set_split(&mut self, pct: i64)
        ensures
            *final(self) == old(self).split_at(pct as int),
    {
        let floor: u16 = self.split_floor_pct();
        self.prefs.split_pct = clamped_share(pct, floor);
    }

    /// Gives the tree more of the width, or less.
    pub fn resize_split(&mut self, delta: i16, out: &mut Vec<Action>) -> (r: Effects)
        ensures
            run(*old(self), *final(self), r, old(out)@, final(out)@).takes(
                old(self).resize_step(delta as int),
            ),
    {
        self.engage_manual_split();
        let pct: i64 = self.prefs.split_pct as i64 + delta as i64;
        self.set_split(pct);
        Effects::redraw()
    }
}

/// A share kept between a floor and the largest one.
fn clamped_share(share: i64, floor: u16) -> (r: u16)
    requires
        floor <= MAX_TREE_WIDTH,
    ensures
        r == between(share as int, floor as int, MAX_TREE_WIDTH as int),
{
    if share < floor as i64 {
        floor
    } else if share > MAX_TREE_WIDTH as i64 {
        MAX_TREE_WIDTH
    } else {
        share as u16
    }
}

/// The two filters of the tree exclude each other: whatever switches one on switches the other
/// off.
pub proof fn filters_exclude_each_other(state: Controller)
    requires
        !(state.prefs.changed_only && state.prefs.status_mode),
    ensures
        ({
            let p = state.changed_only_step().next.prefs;
            !(p.changed_only && p.status_mode)
        }),
        ({
            let p = state.status_mode_step().next.prefs;
            !(p.changed_only && p.status_mode)
        }),
{
}

/// Outside a repository nothing that needs git happens.
pub proof fn git_keys_rest_without_a_repository(state: Controller)
    requires
        !state.repo.is_git_repo,
    ensures
        state.changed_only_step() == state.quiet(),
        state.baseline_step() == state.quiet(),
        state.focus_gained_step() == state.quiet(),
        !state.prefs.status_mode ==> state.status_mode_step() == state.quiet(),
        state.prefs.status_mode ==> !state.status_mode_step().next.prefs.status_mode,
{
}

/// Whatever leaves the zoomed content, or leaves the viewer, takes the pane out of the full screen
/// that the viewer put it into.
pub proof fn every_exit_leaves_full_screen(state: Controller)
    ensures
        state.nav.zoomed ==> !state.zoom_step().next.host.zoomed,
        state.host.zoomed ==> !state.fullscreen_step().next.host.zoomed,
        state.close_step().effects.quit ==> !state.close_step().next.host.zoomed,
        state.close_explicitly_step().effects.quit
            ==> !state.close_explicitly_step().next.host.zoomed,
        state.host.zoomed && state.host.present && state.close_step().effects.quit
            ==> state.close_step().actions == seq![Action::Host(HostRequest::Zoom(false))],
{
}

/// The close key undoes one layer at a time, and leaves only from the bare split.
pub proof fn closing_is_layered(state: Controller)
    requires
        state.close_step().effects.quit,
    ensures
        state.pane.selection is None,
        state.pane.range_flash is None,
        state.pane.search is None || state.modal is Prompt,
        !state.nav.zoomed,
        !state.prefs.pinned,
        !state.prefs.confirm_discard || state.annotations.listed().len() == 0,
{
}

/// No resize squeezes a column to nothing: the tree's share stays between the floor and the
/// largest one.
pub proof fn splits_stay_in_bounds(state: Controller, delta: int)
    ensures
        state.split_floor() <= state.resize_step(delta).next.prefs.split_pct <= MAX_TREE_WIDTH,
{
}

/// Activating a directory changes whether it is open: a closed one is asked to be opened and an
/// open one to be closed, itself and no other. Activating a file shows it in the whole frame.
pub proof fn activating_changes_what_is_open(r: Run)
    requires
        r.takes(r.from.activate_step()),
        r.from.tree.cursor < r.from.tree.nodes@.len(),
    ensures
        ({
            let node = r.from.tree.nodes@[r.from.tree.cursor as int];
            &&& node.kind == NodeKind::Dir && node.expanded ==> r.after == r.before.push(
                Action::Tree { op: TreeOp::Collapse(node.path), then: Then::Nothing },
            )
            &&& node.kind == NodeKind::Dir && !node.expanded ==> r.after == r.before.push(
                Action::Tree { op: TreeOp::Expand(node.path), then: Then::Nothing },
            )
            &&& node.kind == NodeKind::Dir ==> r.to.nav.tree_follow_selection && r.to.nav.zoomed
                == r.from.nav.zoomed && r.to.nav.focus == r.from.nav.focus
            &&& node.kind == NodeKind::File ==> r.after == r.before && r.to.nav.zoomed
                && r.to.nav.focus == Focus::Content
        }),
        r.to.tree == r.from.tree,
{
}

/// With the focus on the tree, a move selects the row that many further down or up, the last or the
/// first one where there are not as many, brings it into view and renders it.
pub proof fn moves_select_another_row(r: Run, layout: Layout, delta: int)
    requires
        r.takes(r.from.navigate_step(layout, delta)),
        r.from.nav.focus == Focus::Tree,
        r.from.tree.cursor < r.from.tree.nodes@.len(),
    ensures
        ({
            let len = r.from.tree.nodes@.len();
            let target = r.from.tree.cursor + delta;
            &&& 0 <= target < len ==> r.to.tree.cursor == target
            &&& target < 0 ==> r.to.tree.cursor == 0
            &&& target >= len ==> r.to.tree.cursor == len - 1
        }),
        r.to.tree.nodes == r.from.tree.nodes,
        r.to.nav.tree_follow_selection,
        r.from.tree.nodes@[r.to.tree.cursor as int].kind == NodeKind::File ==> r.after.len()
            == r.before.len() + 1 && (r.after.last() matches Action::Render(job) && job.path
            == r.from.tree.nodes@[r.to.tree.cursor as int].path),
{
    let len: usize = r.from.tree.nodes.len();
    assert(len == r.from.tree.nodes@.len());
}

/// With the focus on the content, a move scrolls it that many rows, and selects nothing.
pub proof fn moves_scroll_the_content(r: Run, layout: Layout, delta: int)
    requires
        r.takes(r.from.navigate_step(layout, delta)),
        r.from.nav.focus == Focus::Content,
    ensures
        r.to.tree == r.from.tree,
        r.after == r.before,
        0 <= r.from.nav.content_scroll + delta <= r.from.max_scroll(layout)
            ==> r.to.nav.content_scroll == r.from.nav.content_scroll + delta,
        r.from.nav.content_scroll + delta < 0 ==> r.to.nav.content_scroll == 0,
        r.from.nav.content_scroll + delta > r.from.max_scroll(layout) >= 0
            ==> r.to.nav.content_scroll == r.from.max_scroll(layout),
{
}

/// On a directory, the key that opens asks to open it and the one that closes to close it; on a
/// file neither does anything. In the content the one scrolls to the right and the other back.
pub proof fn open_and_close_keys_differ(r: Run, expand: bool)
    requires
        r.takes(r.from.expand_step(expand)),
        r.from.tree.cursor < r.from.tree.nodes@.len(),
    ensures
        ({
            let node = r.from.tree.nodes@[r.from.tree.cursor as int];
            &&& r.from.nav.focus == Focus::Tree && node.kind == NodeKind::Dir && expand ==> r.after
                == r.before.push(
                Action::Tree { op: TreeOp::Expand(node.path), then: Then::Nothing },
            ) && r.to.nav.tree_follow_selection
            &&& r.from.nav.focus == Focus::Tree && node.kind == NodeKind::Dir && !expand ==> r.after
                == r.before.push(
                Action::Tree { op: TreeOp::Collapse(node.path), then: Then::Nothing },
            ) && r.to.nav.tree_follow_selection
            &&& r.from.nav.focus == Focus::Tree && node.kind == NodeKind::File ==> r.after
                == r.before && r.to == r.from
        }),
        r.from.nav.focus == Focus::Content ==> r.after == r.before && r.to.tree == r.from.tree,
        r.from.nav.focus == Focus::Content && expand && r.from.nav.content_hscroll + 8
            <= r.from.max_hscroll() ==> r.to.nav.content_hscroll == r.from.nav.content_hscroll + 8,
        r.from.nav.focus == Focus::Content && !expand && 8 <= r.from.nav.content_hscroll
            <= r.from.max_hscroll() ==> r.to.nav.content_hscroll == r.from.nav.content_hscroll - 8,
{
}

/// Closing every directory is asked for from the tree while it lists every file, and starts the
/// tree over at its top; under a filter the user is told why not.
pub proof fn every_directory_is_closed_from_the_tree(r: Run)
    requires
        r.takes(r.from.collapse_all_step()),
    ensures
        r.from.nav.focus == Focus::Tree && !r.from.prefs.changed_only && !r.from.prefs.status_mode
            ==> r.after == r.before.push(
            Action::Tree { op: TreeOp::CollapseAll, then: Then::Render },
        ) && r.to.nav.tree_scroll == 0 && r.to.nav.tree_hscroll == 0
            && r.to.nav.tree_follow_selection,
        r.from.nav.focus == Focus::Tree && (r.from.prefs.changed_only || r.from.prefs.status_mode)
            ==> r.after == r.before && r.to.notice == Some(Notice::CollapseUnavailable)
            && r.to.nav == r.from.nav,
        r.from.nav.focus == Focus::Content ==> r.after == r.before && r.to == r.from,
{
}

/// The pin is a switch, and the user is told how it stands.
pub proof fn pinning_switches_back(state: Controller)
    ensures
        state.pin_step().next.prefs.pinned != state.prefs.pinned,
        state.pin_step().next.pin_step().next.prefs == state.prefs,
        state.pin_step().next.notice == Some(
            if state.prefs.pinned {
                Notice::Unpinned
            } else {
                Notice::Pinned
            },
        ),
{
}

/// Ignored files and dotfiles are shown and hidden by switches, each its own.
pub proof fn hiding_switches_back(state: Controller)
    ensures
        state.ignore_step().next.prefs.show_ignored != state.prefs.show_ignored,
        state.ignore_step().next.prefs.hide_hidden == state.prefs.hide_hidden,
        state.ignore_step().next.ignore_step().next.prefs == state.prefs,
        state.hidden_step().next.prefs.hide_hidden != state.prefs.hide_hidden,
        state.hidden_step().next.prefs.show_ignored == state.prefs.show_ignored,
        state.hidden_step().next.hidden_step().next.prefs == state.prefs,
{
}

/// The focus goes to the other pane and back, while both are shown.
pub proof fn the_focus_switches_back(state: Controller)
    ensures
        !state.nav.zoomed ==> state.focus_step().next.nav.focus != state.nav.focus,
        !state.nav.zoomed ==> state.focus_step().next.focus_step().next.nav == state.nav,
        state.nav.zoomed ==> state.focus_step().next.nav == state.nav,
{
}

/// In a repository the baseline and each of the two filters are switches.
pub proof fn git_settings_switch(state: Controller)
    requires
        state.repo.is_git_repo,
    ensures
        state.baseline_step().next.prefs.baseline != state.prefs.baseline,
        state.baseline_step().next.baseline_step().next.prefs == state.prefs,
        state.changed_only_step().next.prefs.changed_only != state.prefs.changed_only,
        state.status_mode_step().next.prefs.status_mode != state.prefs.status_mode,
{
}

/// What the tree is asked for is what the preferences say afterwards, and it is rendered once the
/// tree has done it.
pub proof fn the_tree_follows_the_preferences(state: Controller)
    ensures
        state.ignore_step().actions == seq![
            Action::Tree {
                op: TreeOp::ShowIgnored(state.ignore_step().next.prefs.show_ignored),
                then: Then::Render,
            },
        ],
        state.hidden_step().actions == seq![
            Action::Tree {
                op: TreeOp::HideHidden(state.hidden_step().next.prefs.hide_hidden),
                then: Then::Render,
            },
        ],
        state.repo.is_git_repo && !state.prefs.changed_only ==> state.changed_only_step().actions
            == seq![Action::Tree { op: TreeOp::Filter(Filter::Changed), then: Then::Render }]
            && !state.changed_only_step().next.prefs.status_mode,
        state.repo.is_git_repo && state.prefs.changed_only ==> state.changed_only_step().actions
            == seq![Action::Tree { op: TreeOp::Filter(Filter::Everything), then: Then::Render }],
        state.repo.is_git_repo && !state.prefs.status_mode ==> state.status_mode_step().actions
            == seq![Action::Tree { op: TreeOp::Filter(Filter::Status), then: Then::Render }]
            && !state.status_mode_step().next.prefs.changed_only,
        state.prefs.status_mode && !state.prefs.changed_only ==> state.status_mode_step().actions
            == seq![Action::Tree { op: TreeOp::Filter(Filter::Everything), then: Then::Render }],
        state.ignore_step().next.nav.tree_follow_selection,
        state.hidden_step().next.nav.tree_follow_selection,
        state.repo.is_git_repo ==> state.changed_only_step().next.nav.tree_follow_selection,
        state.repo.is_git_repo ==> state.status_mode_step().next.nav.tree_follow_selection,
{
}

/// Another baseline is followed by the question which files have changed against it.
pub proof fn the_new_baseline_is_asked_about(r: Run)
    requires
        r.takes(r.from.baseline_step()),
        r.from.repo.is_git_repo,
    ensures
        r.after == r.before.push(Action::QueryChanged(r.to.prefs.baseline)),
        r.to.prefs.baseline == Baseline::Head <==> r.from.prefs.baseline == Baseline::Base,
        r.to.tree == r.from.tree,
        r.to.repo == r.from.repo,
{
}

/// Where a diff is shown, the key for its presentation renders it in another one, names that in a
/// hint which is bright for 1600 and dim for another 700 milliseconds, and keeps the file's view.
pub proof fn presentations_are_named_and_rendered(r: Run, now: u64)
    requires
        r.takes(r.from.diff_render_step(now)),
        r.from.tree.cursor < r.from.tree.nodes@.len(),
        r.from.tree.nodes@[r.from.tree.cursor as int].kind == NodeKind::File,
        now + 2300 <= u64::MAX,
    ensures
        ({
            let node = r.from.tree.nodes@[r.from.tree.cursor as int];
            let mode = r.from.mode_of(node.path@);
            &&& mode == crate::view_policy::ViewMode::Diff || mode
                == crate::view_policy::ViewMode::FullDiff ==> {
                &&& r.to.prefs.diff_render_mode != r.from.prefs.diff_render_mode
                &&& r.to.flash matches Some(flash) && flash.mode == r.to.prefs.diff_render_mode
                    && flash.dim_at == now + 1600 && flash.deadline == now + 2300 && !flash.dim
                &&& r.after.len() == r.before.len() + 1
                &&& r.after.last() matches Action::Render(job) && job.path == node.path && job.mode
                    == mode && job.diff_render_mode == r.to.prefs.diff_render_mode
            }
            &&& mode != crate::view_policy::ViewMode::Diff && mode
                != crate::view_policy::ViewMode::FullDiff ==> r.to == r.from && r.after == r.before
        }),
        r.to.overrides == r.from.overrides,
{
}

/// Cycling the view of a file shows it in another one that it has, where it has two, leaves other
/// files alone, and renders it in that view unless working-tree diffs are forced.
pub proof fn cycling_renders_the_view_it_chose(r: Run)
    requires
        Controller::view_cycled(r),
        r.from.tree.cursor < r.from.tree.nodes@.len(),
        r.from.tree.nodes@[r.from.tree.cursor as int].kind == NodeKind::File,
    ensures
        ({
            let path = r.from.tree.nodes@[r.from.tree.cursor as int].path;
            &&& r.to.overrides@.dom().contains(path@)
            &&& forall|other: Seq<u8>|
                other != path@ ==> (r.to.overrides@.dom().contains(other)
                    <==> r.from.overrides@.dom().contains(other)) && (
                r.from.overrides@.dom().contains(other) ==> #[trigger] r.to.overrides@[other]
                    == r.from.overrides@[other])
            &&& r.after.len() == r.before.len() + 1
            &&& r.after.last() matches Action::Render(job) && job.path == path && (
            !r.from.prefs.status_mode ==> job.mode == r.to.overrides@[path@])
            &&& !r.from.prefs.status_mode ==> r.to.mode_of(path@) == r.to.overrides@[path@]
        }),
{
}

/// The selection is what is handed to the editor, to another program or the file manager, and what
/// is copied; the editor takes files only.
pub proof fn the_selection_is_handed_over(r: Run, reveal: bool, kind: PathKind)
    requires
        r.from.tree.cursor < r.from.tree.nodes@.len(),
    ensures
        ({
            let node = r.from.tree.nodes@[r.from.tree.cursor as int];
            &&& r.takes(r.from.hand_off_step(reveal)) && r.from.host.opener ==> r.after
                == r.before.push(Action::Open { path: node.path, reveal })
            &&& r.takes(r.from.hand_off_step(reveal)) && !r.from.host.opener ==> r.after == r.before
            &&& r.takes(r.from.editor_step()) && node.kind == NodeKind::File ==> r.after
                == r.before.push(Action::Edit(node.path))
            &&& r.takes(r.from.editor_step()) && node.kind == NodeKind::Dir ==> r.after == r.before
            &&& r.takes(r.from.copy_path_step(kind)) ==> r.after == r.before.push(
                Action::Copy(Clip::Path { path: node.path, kind }),
            )
        }),
        r.takes(r.from.hand_off_step(reveal)) || r.takes(r.from.editor_step()) || r.takes(
            r.from.copy_path_step(kind),
        ) ==> r.to == r.from,
{
}

/// Full screen and the zoomed content are left as they were entered: the host is asked once each
/// way, and at the end tree and content stand side by side with the focus on the tree.
pub proof fn full_screen_is_left_as_entered(state: Controller)
    requires
        state.tree.cursor < state.tree.nodes@.len(),
        state.tree.nodes@[state.tree.cursor as int].kind == NodeKind::File,
        !state.host.zoomed,
    ensures
        ({
            let entered = state.fullscreen_step();
            let left = entered.next.fullscreen_step();
            &&& entered.next.host.zoomed && entered.next.nav.zoomed && entered.next.nav.focus
                == Focus::Content
            &&& !left.next.host.zoomed && !left.next.nav.zoomed && left.next.nav.focus
                == Focus::Tree
            &&& state.host.present ==> entered.actions == seq![
                Action::Host(HostRequest::Zoom(true)),
            ] && left.actions == seq![Action::Host(HostRequest::Zoom(false))]
            &&& !state.host.present ==> entered.actions.len() == 0 && left.actions.len() == 0
        }),
        ({
            let zoomed = state.zoom_step();
            &&& !state.nav.zoomed ==> zoomed.next.nav.zoomed && zoomed.next.nav.focus
                == Focus::Content && zoomed.actions.len() == 0
            &&& !state.nav.zoomed ==> !zoomed.next.zoom_step().next.nav.zoomed
                && zoomed.next.zoom_step().next.nav.focus == Focus::Tree
        }),
{
}

/// The close key undoes the topmost of what is open and leaves the rest: first a selection, then
/// the launched range, then a search, then the zoomed content.
pub proof fn closing_undoes_one_thing(r: Run)
    requires
        r.takes(r.from.close_step()),
    ensures
        r.from.pane.selection is Some ==> r.to.pane.selection is None && r.to.pane.range_flash
            == r.from.pane.range_flash && r.to.pane.search == r.from.pane.search && r.to.nav
            == r.from.nav && !r.effects.quit,
        r.from.pane.selection is None && r.from.pane.range_flash is Some
            ==> r.to.pane.range_flash is None && r.to.pane.search == r.from.pane.search && r.to.nav
            == r.from.nav && !r.effects.quit,
        r.from.pane.selection is None && r.from.pane.range_flash is None && r.from.pane.search
            is Some && !(r.from.modal is Prompt) ==> r.to.pane.search is None && r.to.nav
            == r.from.nav && !r.effects.quit,
        r.from.pane.selection is None && r.from.pane.range_flash is None && r.from.pane.search
            is None && r.from.nav.zoomed ==> !r.to.nav.zoomed && r.to.nav.focus == Focus::Tree
            && !r.to.host.zoomed && !r.effects.quit,
        r.from.pane.selection is None && r.from.pane.range_flash is None && r.from.pane.search
            is None && !r.from.nav.zoomed && r.from.prefs.pinned ==> r.to.notice == Some(
            Notice::StillPinned,
        ) && !r.effects.quit,
        r.from.pane.selection is None && r.from.pane.range_flash is None && r.from.pane.search
            is None && !r.from.nav.zoomed && !r.from.prefs.pinned ==> if r.from.prefs.confirm_discard
            && r.from.annotations.listed().len() > 0 {
            r.to.modal == Modal::DiscardConfirm(DiscardAction::Quit) && !r.effects.quit
        } else {
            r.effects.quit
        },
{
}

/// Switching wrapping wraps what was not wrapped and the other way round, keeps the view, and has
/// prose laid out anew for the width of the pane, or without one.
pub proof fn wrapping_is_switched(r: Run, layout: Layout)
    requires
        r.takes(r.from.wrap_step(layout)),
    ensures
        r.to.wraps() != r.from.wraps(),
        r.to.prefs.wrap_override == Some(r.to.wraps()),
        r.to.pane.body == r.from.pane.body,
        r.to.tree == r.from.tree,
        r.after.len() <= r.before.len() + 1,
        r.after.len() == r.before.len() + 1 ==> (r.after.last() matches Action::Render(job)
            && job.mode == crate::view_policy::ViewMode::RenderedMarkdown && (job.wrap_width is Some
            ==> r.to.wraps()) && r.to.pane.renders.reflow == Some(job.seq)),
        r.from.shows_prose() ==> r.after.len() == r.before.len() + 1,
{
    let switched = r.from.wrap_switched().reclamped(layout);
    assert(switched.selected() == r.from.selected());
    assert(r.from.selected() is Some ==> switched.mode_of(r.from.selected()->0.path@)
        == r.from.mode_of(r.from.selected()->0.path@));
}

/// In a repository, reading the state again starts with git; elsewhere the selection is rendered.
/// When the pane gets the focus, the selection is only rendered if git moved it.
pub proof fn refreshing_starts_with_git(r: Run)
    ensures
        r.takes(r.from.refresh_step()) && r.from.repo.is_git_repo ==> r.after == r.before.push(
            Action::QueryGit(AfterGit::Render),
        ) && r.to == r.from,
        r.takes(r.from.refresh_step()) && !r.from.repo.is_git_repo && r.from.file_selected()
            ==> r.after.len() == r.before.len() + 1 && (r.after.last() matches Action::Render(job)
            && Some(job.path) == r.from.selected_path()),
        r.takes(r.from.focus_gained_step()) && r.from.repo.is_git_repo ==> r.after
            == r.before.push(
            Action::QueryGit(AfterGit::RenderIfMoved(r.from.selected_path())),
        ) && r.to == r.from,
{
}

/// Growing the tree gives it that many points more of the width and shrinking it as many less,
/// within the bounds; from then on the split is the user's.
pub proof fn resizing_moves_the_divider(r: Run, delta: int)
    requires
        r.takes(r.from.resize_step(delta)),
        r.from.prefs.split_manual,
    ensures
        r.to.prefs.split_manual,
        r.from.split_floor() <= r.from.prefs.split_pct + delta <= MAX_TREE_WIDTH
            ==> r.to.prefs.split_pct == r.from.prefs.split_pct + delta,
        r.from.prefs.split_pct + delta > MAX_TREE_WIDTH ==> r.to.prefs.split_pct == MAX_TREE_WIDTH,
        r.from.prefs.split_pct + delta < r.from.split_floor() <= MAX_TREE_WIDTH
            ==> r.to.prefs.split_pct == r.from.split_floor(),
        r.after == r.before,
{
}

/// The first resize starts from the share that the tree was drawn with: its text, two cells of
/// border, and two more for a scrollbar.
pub proof fn the_first_resize_starts_from_what_is_drawn(r: Run, delta: int)
    requires
        r.takes(r.from.resize_step(delta)),
        !r.from.prefs.split_manual,
        r.from.screen.geom.area_width > 0,
        r.from.screen.geom.tree_inner is Some,
    ensures
        r.to.prefs.split_manual,
        ({
            let geom = r.from.screen.geom;
            let cells = geom.tree_inner->0.width + (if geom.tree_vbar is Some {
                4int
            } else {
                2
            });
            let share = (cells * 100) / (geom.area_width as int);
            &&& geom.min_split_pct <= share <= MAX_TREE_WIDTH && geom.min_split_pct <= share + delta
                <= MAX_TREE_WIDTH ==> r.to.prefs.split_pct == share + delta
        }),
{
}

/// The note about a newer version is hidden once, and stays hidden.
pub proof fn update_notes_are_hidden(r: Run)
    requires
        r.takes(r.from.dismiss_step()),
        r.from.update.available is Some,
    ensures
        r.to.update.dismissed,
        r.to.update.available == r.from.update.available,
        r.effects.redraw <==> !r.from.update.dismissed,
{
}

} // verus!
