//! The start of a session, its way to another root, and its end.

use super::actions::{run, Action, Clip, Effects, Filter, Run, Step};
use super::state::{
    Body, Controller, DiscardAction, Host, Modal, Navigation, Notice, Overrides, Pane, PaneGeometry,
    Pointer, Preferences, Renders, Repo, Resolved, Screen, TreeView, Update,
};
use crate::annotation::AnnotationStore;
use crate::config::{
    TreeIcons, TreePosition, ViewerPaneRatio, DEFAULT_SCROLL_LINES, DEFAULT_TREE_MAX_COLS,
    DEFAULT_TREE_WIDTH,
};
use crate::git::Baseline;
use crate::input::{Key, KeyCode};
use crate::paths::FilePath;
use crate::view_policy::{DiffRenderMode, ViewMode};
use vstd::prelude::*;

verus! {

/// A copy of an optional text.
pub fn copy_text(text: &Option<String>) -> (r: Option<String>)
    ensures
        r == *text,
{
    match text {
        Some(t) => Some(t.clone()),
        None => None,
    }
}

impl DiscardAction {
    /// The key that goes on without copying the annotations.
    pub open spec fn proceed_code(self) -> KeyCode {
        match self {
            DiscardAction::Quit => KeyCode::Char('q'),
            DiscardAction::SwitchRoot(_) => KeyCode::Enter,
        }
    }

    /// The key that goes on without copying the annotations.
    pub fn proceed_key(&self) -> (r: KeyCode)
        ensures
            r == self.proceed_code(),
    {
        match self {
            DiscardAction::Quit => KeyCode::Char('q'),
            DiscardAction::SwitchRoot(_) => KeyCode::Enter,
        }
    }

    /// What goes on, in a word.
    pub open spec fn verb_text(self) -> Seq<char> {
        match self {
            DiscardAction::Quit => "quit"@,
            DiscardAction::SwitchRoot(_) => "switch"@,
        }
    }

    /// What goes on, in a word.
    pub fn verb(&self) -> (r: &'static str)
        ensures
            r@ == self.verb_text(),
    {
        match self {
            DiscardAction::Quit => "quit",
            DiscardAction::SwitchRoot(_) => "switch",
        }
    }
}

impl Preferences {
    /// The preferences before any configuration is applied.
    pub open spec fn unconfigured(self, baseline: Baseline) -> bool {
        &&& !self.show_ignored && !self.hide_hidden && !self.changed_only && !self.status_mode
        &&& self.baseline == baseline
        &&& self.diff_render_mode == DiffRenderMode::Delta
        &&& self.split_pct == DEFAULT_TREE_WIDTH
        &&& !self.split_manual
        &&& self.tree_position == TreePosition::Left
        &&& self.tree_max_cols == DEFAULT_TREE_MAX_COLS
        &&& self.tree_icons == TreeIcons::Unicode
        &&& self.wrap_override is None
        &&& !self.pinned
        &&& self.confirm_discard
        &&& self.open_workspace_with_viewer
        &&& self.viewer_pane_ratio.share() == crate::config::DEFAULT_VIEWER_PANE_RATIO_UNITS
        &&& self.wheel_step == DEFAULT_SCROLL_LINES
    }

    /// The preferences before any configuration is applied.
    pub fn new(baseline: Baseline) -> (r: Self)
        ensures
            r.unconfigured(baseline),
    {
        Preferences {
            show_ignored: false,
            hide_hidden: false,
            changed_only: false,
            status_mode: false,
            baseline,
            diff_render_mode: DiffRenderMode::Delta,
            split_pct: DEFAULT_TREE_WIDTH,
            split_manual: false,
            tree_position: TreePosition::Left,
            tree_max_cols: DEFAULT_TREE_MAX_COLS,
            tree_icons: TreeIcons::Unicode,
            wrap_override: None,
            pinned: false,
            confirm_discard: true,
            open_workspace_with_viewer: true,
            viewer_pane_ratio: ViewerPaneRatio::resolve(None),
            wheel_step: DEFAULT_SCROLL_LINES,
        }
    }
}

impl PaneGeometry {
    /// Nothing has been drawn.
    pub open spec fn undrawn(self) -> bool {
        &&& self.area_x == 0 && self.area_width == 0 && self.divider_x is None
        &&& self.tree_inner is None && self.tree_vbar is None && self.tree_hbar is None
        &&& self.tree_scroll == 0 && self.tree_content_width == 0
        &&& self.tree_collapse_button is None && self.tree_pin_button is None
        &&& self.tree_close_button is None
        &&& self.content_inner is None && self.content_vbar is None && self.content_hbar is None
        &&& self.content_title_rect is None
        &&& self.finder_rows is None && self.finder_vbar is None && self.finder_scope_button is None
        &&& self.finder_scroll == 0 && self.finder_max_hscroll == 0 && self.picker_max_hscroll == 0
        &&& self.help_tabs@.len() == 0 && self.help_body_rows == 0 && self.help_body_height == 0
        &&& self.context_menu_rect is None && self.workspace_search_rows is None
        &&& self.workspace_search_scope_button is None && self.workspace_search_scroll == 0
        &&& self.min_split_pct == 0
    }

    /// The geometry before the first frame.
    pub fn new() -> (r: Self)
        ensures
            r.undrawn(),
    {
        PaneGeometry {
            area_x: 0,
            area_width: 0,
            divider_x: None,
            tree_inner: None,
            tree_vbar: None,
            tree_hbar: None,
            tree_scroll: 0,
            tree_content_width: 0,
            tree_collapse_button: None,
            tree_pin_button: None,
            tree_close_button: None,
            content_inner: None,
            content_vbar: None,
            content_hbar: None,
            content_title_rect: None,
            finder_rows: None,
            finder_vbar: None,
            finder_scope_button: None,
            finder_scroll: 0,
            finder_max_hscroll: 0,
            picker_max_hscroll: 0,
            help_tabs: Vec::new(),
            help_body_rows: 0,
            help_body_height: 0,
            context_menu_rect: None,
            workspace_search_rows: None,
            workspace_search_scope_button: None,
            workspace_search_scroll: 0,
            min_split_pct: 0,
        }
    }
}

impl Controller {
    /// A session that has not shown anything yet.
    pub open spec fn starts_at(self, resolved: Resolved, baseline: Baseline, tree: TreeView) -> bool {
        &&& self.repo == (Repo {
            root: resolved.root,
            is_git_repo: resolved.is_git_repo,
            branch: resolved.branch,
            base_branch: resolved.base_branch,
            git_status: None,
            changed: None,
            status_pending: false,
        })
        &&& self.prefs.unconfigured(baseline)
        &&& self.nav == Navigation::start()
        &&& self.tree == tree
        &&& self.overrides@ == Map::<Seq<u8>, ViewMode>::empty()
        &&& self.pane == (Pane {
            body: Body::Blank,
            path: None,
            renders: Renders { latest: 0, applied: 0, reflow: None, goto: None, line_select: None },
            search: None,
            selection: None,
            range_flash: None,
        })
        &&& self.screen.width == 0 && self.screen.content_width == 0 && self.screen.content_height
            == 0
        &&& !self.screen.pending_open_zoom
        &&& self.screen.geom.undrawn()
        &&& self.pointer == (Pointer { last_click: None, drag: None })
        &&& self.modal is Closed
        &&& self.annotations.listed().len() == 0
        &&& self.notice is None
        &&& self.flash is None
        &&& self.host == (Host {
            zoomed: false,
            present: false,
            opener: false,
            searcher: None,
            search_seq: 0,
            search_running: false,
        })
        &&& self.update == (Update { available: None, dismissed: false, pending: false })
    }

    /// Starts a session at a root, whose rows are listed in `tree`: its git state is read and the
    /// selection rendered.
    pub fn new(
        resolved: Resolved,
        baseline: Baseline,
        tree: TreeView,
        out: &mut Vec<Action>,
    ) -> (r: Self)
        ensures
            exists|start: Controller| #[trigger]
                start.starts_at(resolved, baseline, tree) && run(
                    start,
                    r,
                    Effects::repaint(),
                    old(out)@,
                    final(out)@,
                ).takes(start.refresh_step()),
    {
        let mut start = Controller {
            repo: Repo {
                root: resolved.root,
                is_git_repo: resolved.is_git_repo,
                branch: resolved.branch,
                base_branch: resolved.base_branch,
                git_status: None,
                changed: None,
                status_pending: false,
            },
            prefs: Preferences::new(baseline),
            nav: Navigation::new(),
            tree,
            overrides: Overrides::new(),
            pane: Pane {
                body: Body::Blank,
                path: None,
                renders: Renders {
                    latest: 0,
                    applied: 0,
                    reflow: None,
                    goto: None,
                    line_select: None,
                },
                search: None,
                selection: None,
                range_flash: None,
            },
            screen: Screen {
                width: 0,
                content_width: 0,
                content_height: 0,
                geom: PaneGeometry::new(),
                pending_open_zoom: false,
            },
            pointer: Pointer { last_click: None, drag: None },
            modal: Modal::Closed,
            annotations: AnnotationStore::new(),
            notice: None,
            flash: None,
            host: Host {
                zoomed: false,
                present: false,
                opener: false,
                searcher: None,
                search_seq: 0,
                search_running: false,
            },
            update: Update { available: None, dismissed: false, pending: false },
        };
        let ghost first = start;
        let effects = start.refresh(out);
        assert(first.starts_at(resolved, baseline, tree));
        assert(run(first, start, effects, old(out)@, out@).takes(first.refresh_step()));
        start
    }

    /// Leaves without asking.
    pub open spec fn quit_step(self) -> Step {
        Step {
            next: Controller { modal: Modal::Closed, ..self }.releases(),
            effects: Effects::leave(),
            actions: self.release_request(),
        }
    }

    /// Goes on with what the user agreed to. A directory is looked at once more before it becomes
    /// the root.
    pub open spec fn proceed_step(self, action: DiscardAction) -> Step {
        match action {
            DiscardAction::Quit => self.quit_step(),
            DiscardAction::SwitchRoot(resolved) => Controller { modal: Modal::Closed, ..self }.asks(
                Action::RecheckRoot(resolved),
            ),
        }
    }

    /// The keys of the question about unsaved annotations: the key that goes on, `y` to copy the
    /// annotations first, Esc to stay.
    pub open spec fn discard_key_step(self, key: Key) -> Step {
        match self.modal {
            Modal::DiscardConfirm(action) if key.modifiers.at_most_shift() => if key.code
                == action.proceed_code() {
                self.proceed_step(action)
            } else {
                match key.code {
                    KeyCode::Char('y') | KeyCode::Char('Y') => if self.annotations.listed().len()
                        == 0 {
                        self.shows()
                    } else {
                        self.asks(Action::Copy(Clip::Discarded))
                    },
                    KeyCode::Esc => Controller { modal: Modal::Closed, ..self }.shows(),
                    _ => self.quiet(),
                }
            },
            _ => self.quiet(),
        }
    }

    /// The filter that the rows of a new root are listed under. In a repository the changed files
    /// are not known yet.
    pub open spec fn filter_at(self, resolved: Resolved) -> Filter {
        if resolved.is_git_repo {
            Filter::Keep
        } else if self.prefs.status_mode {
            Filter::Status
        } else if self.prefs.changed_only {
            Filter::Changed
        } else {
            Filter::Everything
        }
    }

    /// The session moved to another root: the preferences stay, everything that belonged to the old
    /// root is gone.
    pub open spec fn rerooted(r: Run, resolved: Resolved) -> bool {
        let from = r.from;
        let count = from.annotations.listed().len();
        &&& r.to.annotations.listed().len() == 0
        &&& r.to.overrides@ == Map::<Seq<u8>, ViewMode>::empty()
        &&& r.takes(
            Step {
                next: Controller {
                    repo: Repo {
                        root: resolved.root,
                        is_git_repo: resolved.is_git_repo,
                        branch: resolved.branch,
                        base_branch: from.repo.base_branch,
                        git_status: None,
                        changed: None,
                        status_pending: resolved.is_git_repo,
                    },
                    nav: Navigation::start(),
                    overrides: r.to.overrides,
                    pane: Pane { path: None, ..from.pane },
                    pointer: Pointer { last_click: None, ..from.pointer },
                    modal: Modal::Closed,
                    annotations: r.to.annotations,
                    notice: if count > 0 {
                        Some(Notice::AnnotationsCleared(count as usize))
                    } else {
                        None
                    },
                    flash: None,
                    ..from.releases()
                },
                effects: Effects::repaint(),
                actions: from.release_request() + seq![
                    Action::Rebuild {
                        resolved,
                        show_ignored: from.prefs.show_ignored,
                        hide_hidden: from.prefs.hide_hidden,
                        filter: from.filter_at(resolved),
                    },
                ] + (if resolved.is_git_repo {
                    seq![Action::FetchStatus(from.prefs.baseline)]
                } else {
                    Seq::empty()
                }),
            },
        )
    }

    /// Moves the session to another root.
    fn apply_re_root(&mut self, resolved: Resolved, out: &mut Vec<Action>) -> (r: Effects)
        ensures
            Self::rerooted(run(*old(self), *final(self), r, old(out)@, final(out)@), resolved),
    {
        let filter = if resolved.is_git_repo {
            Filter::Keep
        } else if self.prefs.status_mode {
            Filter::Status
        } else if self.prefs.changed_only {
            Filter::Changed
        } else {
            Filter::Everything
        };
        self.leave_host_zoom(out);
        self.repo = Repo {
            root: resolved.root.clone(),
            is_git_repo: resolved.is_git_repo,
            branch: copy_text(&resolved.branch),
            base_branch: copy_text(&self.repo.base_branch),
            git_status: None,
            changed: None,
            status_pending: resolved.is_git_repo,
        };
        self.nav = Navigation::new();
        self.overrides = Overrides::new();
        self.pane.path = None;
        let cleared: usize = self.annotations.clear();
        self.notice = if cleared > 0 {
            Some(Notice::AnnotationsCleared(cleared))
        } else {
            None
        };
        self.flash = None;
        self.modal = Modal::Closed;
        self.pointer.last_click = None;
        let fetch = resolved.is_git_repo;
        out.push(
            Action::Rebuild {
                resolved,
                show_ignored: self.prefs.show_ignored,
                hide_hidden: self.prefs.hide_hidden,
                filter,
            },
        );
        if fetch {
            out.push(Action::FetchStatus(self.prefs.baseline));
        }
        Effects::redraw()
    }

    /// Asks to look at a directory that is to become the root.
    pub fn re_root(&mut self, target: FilePath, out: &mut Vec<Action>) -> (r: Effects)
        ensures
            run(*old(self), *final(self), r, old(out)@, final(out)@).takes(
                old(self).asks(Action::ResolveRoot(target)),
            ),
    {
        out.push(Action::ResolveRoot(target));
        Effects::redraw()
    }

    /// A directory that is to become the root was looked at. Nothing changes where it is no
    /// directory or already the root; where annotations would be lost, the user is asked first.
    pub open spec fn switched(
        r: Run,
        target: FilePath,
        resolved: Option<Resolved>,
        same: bool,
    ) -> bool {
        match resolved {
            None => r.takes(r.from.tells(Notice::CannotSwitch(target))),
            Some(found) => if same {
                r.takes(r.from.shows())
            } else if r.from.prefs.confirm_discard && r.from.annotations.listed().len() > 0 {
                r.takes(
                    Controller {
                        modal: Modal::DiscardConfirm(DiscardAction::SwitchRoot(found)),
                        ..r.from
                    }.shows(),
                )
            } else {
                Self::rerooted(r, found)
            },
        }
    }

    /// A directory that is to become the root was looked at: what was found, if it is a directory,
    /// and whether it is the root already.
    pub fn root_resolved(
        &mut self,
        target: FilePath,
        resolved: Option<Resolved>,
        same: bool,
        out: &mut Vec<Action>,
    ) -> (r: Effects)
        ensures
            Self::switched(
                run(*old(self), *final(self), r, old(out)@, final(out)@),
                target,
                resolved,
                same,
            ),
    {
        match resolved {
            None => {
                self.notice = Some(Notice::CannotSwitch(target));
                Effects::redraw()
            },
            Some(found) => {
                if same {
                    return Effects::redraw();
                }
                if self.prefs.confirm_discard && !self.annotations.is_empty() {
                    self.modal = Modal::DiscardConfirm(DiscardAction::SwitchRoot(found));
                    return Effects::redraw();
                }
                self.apply_re_root(found, out)
            },
        }
    }

    /// The directory that the user agreed to was looked at once more: it may be gone, or have
    /// become the root, by now.
    pub open spec fn rechecked(r: Run, resolved: Resolved, is_dir: bool, same: bool) -> bool {
        if !is_dir {
            r.takes(r.from.tells(Notice::CannotSwitch(resolved.root)))
        } else if same {
            r.takes(r.from.shows())
        } else {
            Self::rerooted(r, resolved)
        }
    }

    /// The directory that the user agreed to was looked at once more.
    pub fn root_rechecked(
        &mut self,
        resolved: Resolved,
        is_dir: bool,
        same: bool,
        out: &mut Vec<Action>,
    ) -> (r: Effects)
        ensures
            Self::rechecked(
                run(*old(self), *final(self), r, old(out)@, final(out)@),
                resolved,
                is_dir,
                same,
            ),
    {
        if !is_dir {
            self.notice = Some(Notice::CannotSwitch(resolved.root.clone()));
            return Effects::redraw();
        }
        if same {
            return Effects::redraw();
        }
        self.apply_re_root(resolved, out)
    }

    /// Whether the question about unsaved annotations is open.
    pub fn discard_confirm_open(&self) -> (r: bool)
        ensures
            r == (self.modal is DiscardConfirm),
    {
        match self.modal {
            Modal::DiscardConfirm(_) => true,
            _ => false,
        }
    }

    /// Leaves without asking.
    fn quit_now(&mut self, out: &mut Vec<Action>) -> (r: Effects)
        ensures
            run(*old(self), *final(self), r, old(out)@, final(out)@).takes(old(self).quit_step()),
    {
        self.modal = Modal::Closed;
        self.leave_host_zoom(out);
        Effects::quit()
    }

    /// Goes on with what the user agreed to.
    pub open spec fn proceeds(self) -> Step {
        match self.modal {
            Modal::DiscardConfirm(action) => self.proceed_step(action),
            _ => self.shows(),
        }
    }

    /// Goes on with what the user agreed to.
    pub fn proceed(&mut self, out: &mut Vec<Action>) -> (r: Effects)
        ensures
            run(*old(self), *final(self), r, old(out)@, final(out)@).takes(old(self).proceeds()),
    {
        if !self.discard_confirm_open() {
            return Effects::redraw();
        }
        let mut taken = Modal::Closed;
        std::mem::swap(&mut self.modal, &mut taken);
        match taken {
            Modal::DiscardConfirm(DiscardAction::SwitchRoot(resolved)) => {
                out.push(Action::RecheckRoot(resolved));
                Effects::redraw()
            },
            _ => self.quit_now(out),
        }
    }

    /// The keys of the question about unsaved annotations.
    pub fn handle_discard_confirm_key(&mut self, key: Key, out: &mut Vec<Action>) -> (r: Effects)
        ensures
            run(*old(self), *final(self), r, old(out)@, final(out)@).takes(
                old(self).discard_key_step(key),
            ),
    {
        if !key.modifiers.only_shift() {
            return Effects::noop();
        }
        let proceed = match &self.modal {
            Modal::DiscardConfirm(action) => action.proceed_key(),
            _ => {
                return Effects::noop();
            },
        };
        if key.code == proceed {
            return self.proceed(out);
        }
        match key.code {
            KeyCode::Char('y') | KeyCode::Char('Y') => {
                if !self.annotations.is_empty() {
                    out.push(Action::Copy(Clip::Discarded));
                }
                Effects::redraw()
            },
            KeyCode::Esc => {
                self.modal = Modal::Closed;
                Effects::redraw()
            },
            _ => Effects::noop(),
        }
    }
}

/// Another root keeps every preference, and starts at the top of its tree with no overlay, no
/// annotations and no chosen views.
pub proof fn another_root_keeps_preferences(r: Run, resolved: Resolved)
    requires
        Controller::rerooted(r, resolved),
    ensures
        r.to.prefs == r.from.prefs,
        r.to.repo.root == resolved.root,
        r.to.repo.base_branch == r.from.repo.base_branch,
        r.to.nav == Navigation::start(),
        r.to.modal is Closed,
        r.to.annotations.listed().len() == 0,
        !r.to.host.zoomed,
{
}

/// While annotations are held, neither leaving nor switching the root goes on without a question.
pub proof fn annotations_are_not_lost_unasked(
    state: Controller,
    r: Run,
    target: FilePath,
    resolved: Option<Resolved>,
    same: bool,
)
    requires
        state.prefs.confirm_discard,
        state.annotations.listed().len() > 0,
        r.from == state,
        Controller::switched(r, target, resolved, same),
    ensures
        !state.close_step().effects.quit,
        state.close_step().next.annotations == state.annotations,
        !r.effects.quit,
        r.to.annotations == state.annotations,
        r.to.repo == state.repo,
{
}

/// Only the key that was offered, or `y` after the copy succeeded, discards annotations: no key
/// changes them, and no other key leaves.
pub proof fn questions_are_answered_by_their_keys(state: Controller, key: Key)
    requires
        state.modal is DiscardConfirm,
        key.code != (state.modal->DiscardConfirm_0).proceed_code() || !key.modifiers.at_most_shift(),
    ensures
        !state.discard_key_step(key).effects.quit,
        state.discard_key_step(key).next.annotations == state.annotations,
        state.discard_key_step(key).next.repo == state.repo,
        state.discard_key_step(key).next.modal is Closed ==> key.code == KeyCode::Esc,
{
}

} // verus!
