//! What each intent does, and where each key goes.

use super::actions::{run, Action, Effects, PathKind, Run, Step};
use super::content::{between, less, Layout};
use super::scroll::shifted;
use super::state::{Controller, Focus, Modal, Navigation, HSCROLL_STEP, SPLIT_STEP};
use crate::input::{Intent, Key};
use vstd::prelude::*;

verus! {

impl Controller {
    /// The columns of the tree past the right edge of its pane.
    pub open spec fn max_tree_hscroll(self) -> int {
        match self.screen.geom.tree_inner {
            Some(area) => less(self.screen.geom.tree_content_width as int, area.width as int),
            None => 0,
        }
    }

    /// The tree scrolled sideways to an offset.
    pub open spec fn tree_hscrolled_to(self, offset: int) -> Controller {
        Controller { nav: Navigation { tree_hscroll: offset as u16, ..self.nav }, ..self }
    }

    /// The tree scrolled sideways by `delta` columns.
    pub open spec fn tree_hscroll_step(self, delta: int) -> Step {
        self.tree_hscrolled_to(
            between(self.nav.tree_hscroll + delta, 0, self.max_tree_hscroll()),
        ).shows()
    }

    /// The tree scrolled sideways by a key, where it has the focus.
    pub open spec fn tree_hscroll_key_step(self, delta: int) -> Step {
        if self.nav.focus == Focus::Tree {
            self.tree_hscroll_step(delta)
        } else {
            self.quiet()
        }
    }

    /// Scrolls the tree sideways by `delta` columns.
    pub fn scroll_tree_h(&mut self, delta: i32) -> (r: Effects)
        ensures
            *final(self) == old(self).tree_hscroll_step(delta as int).next,
            r == Effects::repaint(),
    {
        let max: u16 = match self.screen.geom.tree_inner {
            Some(area) => self.screen.geom.tree_content_width.saturating_sub(area.width),
            None => 0,
        };
        self.nav.tree_hscroll = shifted(self.nav.tree_hscroll, delta, max);
        Effects::redraw()
    }

    /// Scrolls the tree sideways, where it has the focus.
    pub fn scroll_tree_h_focus(&mut self, delta: i32) -> (r: Effects)
        ensures
            *final(self) == old(self).tree_hscroll_key_step(delta as int).next,
            r == old(self).tree_hscroll_key_step(delta as int).effects,
    {
        if self.nav.focus != Focus::Tree {
            return Effects::noop();
        }
        self.scroll_tree_h(delta)
    }

    /// An intent about the tree was carried out.
    pub open spec fn tree_done(r: Run, intent: Intent, layout: Layout, now: u64) -> bool {
        let s = r.from;
        match intent {
            Intent::NavUp => r.takes(s.navigate_step(layout, -1)),
            Intent::NavDown => r.takes(s.navigate_step(layout, 1)),
            Intent::Expand => r.takes(s.expand_step(true)),
            Intent::Collapse => r.takes(s.expand_step(false)),
            Intent::CollapseAll => r.takes(s.collapse_all_step()),
            Intent::Activate => r.takes(s.activate_step()),
            Intent::ToggleIgnore => r.takes(s.ignore_step()),
            Intent::ToggleHidden => r.takes(s.hidden_step()),
            Intent::ToggleChangedOnly => r.takes(s.changed_only_step()),
            Intent::ToggleStatusMode => r.takes(s.status_mode_step()),
            Intent::ToggleBaseline => r.takes(s.baseline_step()),
            Intent::Refresh => r.takes(s.refresh_step()),
            _ => false,
        }
    }

    /// An intent about the selection was carried out.
    pub open spec fn file_done(r: Run, intent: Intent, layout: Layout, now: u64) -> bool {
        let s = r.from;
        match intent {
            Intent::CycleDiffRender => r.takes(s.diff_render_step(now)),
            Intent::CycleView => Self::view_cycled(r),
            Intent::OpenInEditor => r.takes(s.editor_step()),
            Intent::OpenWithApp => r.takes(s.hand_off_step(false)),
            Intent::RevealInFileManager => r.takes(s.hand_off_step(true)),
            Intent::CopyRepoPath => r.takes(s.copy_path_step(PathKind::Repo)),
            Intent::CopyAbsPath => r.takes(s.copy_path_step(PathKind::Absolute)),
            Intent::AddAnnotation => Self::annotation_opened(r),
            Intent::OpenWorkspace => r.takes(s.workspace_step()),
            Intent::OpenPaneHere => r.takes(s.pane_step()),
            _ => false,
        }
    }

    /// An intent about the panes was carried out.
    pub open spec fn pane_done(r: Run, intent: Intent, layout: Layout, now: u64) -> bool {
        let s = r.from;
        match intent {
            Intent::OpenFullscreen => r.takes(s.fullscreen_step()),
            Intent::ToggleFocus => r.takes(s.focus_step()),
            Intent::ShrinkTree => r.takes(s.resize_step(-(SPLIT_STEP as int))),
            Intent::GrowTree => r.takes(s.resize_step(SPLIT_STEP as int)),
            Intent::ToggleWrap => r.takes(s.wrap_step(layout)),
            Intent::ToggleZoom => r.takes(s.zoom_step()),
            Intent::TogglePin => r.takes(s.pin_step()),
            Intent::DismissUpdate => r.takes(s.dismiss_step()),
            Intent::TreeScrollLeft => r.takes(s.tree_hscroll_key_step(-(HSCROLL_STEP as int))),
            Intent::TreeScrollRight => match s.nav.focus {
                Focus::Tree => r.takes(s.tree_hscroll_key_step(HSCROLL_STEP as int)),
                Focus::Content => if s.pane.body.line_count() == 0 {
                    r.takes(s.quiet())
                } else {
                    Self::selection_entered(r, layout)
                },
            },
            Intent::Close => r.takes(s.close_step()),
            _ => false,
        }
    }

    /// An intent that opens an overlay, or goes through its results, was carried out.
    pub open spec fn overlay_done(r: Run, intent: Intent, layout: Layout, now: u64) -> bool {
        let s = r.from;
        match intent {
            Intent::ShowAnnotations => r.takes(s.annotation_list_at(0).shows()),
            Intent::SwitchWorktree => r.takes(s.picker_step()),
            Intent::OpenFinder => r.takes(s.finder_step()),
            Intent::OpenTextSearch => Self::text_search_opened(r),
            Intent::OpenGoToLine => Self::goto_opened(r),
            Intent::OpenSearch => Self::search_opened(r),
            Intent::NextMatch => r.takes(s.next_match_step(layout)),
            Intent::PrevMatch => r.takes(s.prev_match_step(layout)),
            Intent::ShowContextMenu => Self::menu_opened(r, 8, s.menu_row() as u16),
            Intent::ShowHelp => r.takes(s.asks(Action::PrepareHelp)),
            _ => false,
        }
    }

    /// An intent was carried out with no overlay in its way.
    pub open spec fn carried_out(r: Run, intent: Intent, layout: Layout, now: u64) -> bool {
        match intent {
            Intent::NavUp
            | Intent::NavDown
            | Intent::Expand
            | Intent::Collapse
            | Intent::CollapseAll
            | Intent::Activate
            | Intent::ToggleIgnore
            | Intent::ToggleHidden
            | Intent::ToggleChangedOnly
            | Intent::ToggleStatusMode
            | Intent::ToggleBaseline
            | Intent::Refresh => Self::tree_done(r, intent, layout, now),
            Intent::CycleDiffRender
            | Intent::CycleView
            | Intent::OpenInEditor
            | Intent::OpenWithApp
            | Intent::RevealInFileManager
            | Intent::CopyRepoPath
            | Intent::CopyAbsPath
            | Intent::AddAnnotation
            | Intent::OpenWorkspace
            | Intent::OpenPaneHere => Self::file_done(r, intent, layout, now),
            Intent::OpenFullscreen
            | Intent::ToggleFocus
            | Intent::ShrinkTree
            | Intent::GrowTree
            | Intent::ToggleWrap
            | Intent::ToggleZoom
            | Intent::TogglePin
            | Intent::DismissUpdate
            | Intent::TreeScrollLeft
            | Intent::TreeScrollRight
            | Intent::Close => Self::pane_done(r, intent, layout, now),
            _ => Self::overlay_done(r, intent, layout, now),
        }
    }

    /// The intent is one of these.
    pub open spec fn about_tree(intent: Intent) -> bool {
        match intent {
            Intent::NavUp
            | Intent::NavDown
            | Intent::Expand
            | Intent::Collapse
            | Intent::CollapseAll
            | Intent::Activate
            | Intent::ToggleIgnore
            | Intent::ToggleHidden
            | Intent::ToggleChangedOnly
            | Intent::ToggleStatusMode
            | Intent::ToggleBaseline
            | Intent::Refresh => true,
            _ => false,
        }
    }

    /// The intent is one of these.
    pub open spec fn about_file(intent: Intent) -> bool {
        match intent {
            Intent::CycleDiffRender
            | Intent::CycleView
            | Intent::OpenInEditor
            | Intent::OpenWithApp
            | Intent::RevealInFileManager
            | Intent::CopyRepoPath
            | Intent::CopyAbsPath
            | Intent::AddAnnotation
            | Intent::OpenWorkspace
            | Intent::OpenPaneHere => true,
            _ => false,
        }
    }

    /// The intent is one of these.
    pub open spec fn about_pane(intent: Intent) -> bool {
        match intent {
            Intent::OpenFullscreen
            | Intent::ToggleFocus
            | Intent::ShrinkTree
            | Intent::GrowTree
            | Intent::ToggleWrap
            | Intent::ToggleZoom
            | Intent::TogglePin
            | Intent::DismissUpdate
            | Intent::TreeScrollLeft
            | Intent::TreeScrollRight
            | Intent::Close => true,
            _ => false,
        }
    }

    /// The intent is one of these.
    pub open spec fn about_overlay(intent: Intent) -> bool {
        match intent {
            Intent::ShowAnnotations
            | Intent::SwitchWorktree
            | Intent::OpenFinder
            | Intent::OpenTextSearch
            | Intent::OpenGoToLine
            | Intent::OpenSearch
            | Intent::NextMatch
            | Intent::PrevMatch
            | Intent::ShowContextMenu
            | Intent::ShowHelp => true,
            _ => false,
        }
    }

    /// An overlay takes the keys as they are typed, so that no intent reaches what is beneath.
    pub open spec fn takes_keys(self) -> bool {
        match self.modal {
            Modal::Closed | Modal::Picker(_) | Modal::DiscardConfirm(_) => false,
            _ => true,
        }
    }

    /// An intent was carried out. The notice of the action before it is gone; an open picker takes
    /// it, another overlay swallows it.
    pub open spec fn intended(r: Run, intent: Intent, layout: Layout, now: u64) -> bool {
        let from = Controller { notice: None, ..r.from };
        let told = Run { from, ..r };
        if from.modal is Picker {
            told.takes(from.picker_intent_step(intent))
        } else if from.takes_keys() {
            told.takes(from.quiet())
        } else {
            Self::carried_out(told, intent, layout, now)
        }
    }

    /// Carries out an intent.
    pub fn handle(
        &mut self,
        intent: Intent,
        layout: &Layout,
        now: u64,
        out: &mut Vec<Action>,
    ) -> (r: Effects)
        ensures
            Self::intended(
                run(*old(self), *final(self), r, old(out)@, final(out)@),
                intent,
                *layout,
                now,
            ),
    {
        self.notice = None;
        match &self.modal {
            Modal::Picker(_) => self.handle_picker_intent(intent, out),
            Modal::Closed | Modal::DiscardConfirm(_) => self.carry_out(intent, layout, now, out),
            _ => Effects::noop(),
        }
    }

    /// Carries out an intent about the tree.
    fn do_tree(
        &mut self,
        intent: Intent,
        layout: &Layout,
        now: u64,
        out: &mut Vec<Action>,
    ) -> (r: Effects)
        requires
            Self::about_tree(intent),
        ensures
            Self::tree_done(
                run(*old(self), *final(self), r, old(out)@, final(out)@),
                intent,
                *layout,
                now,
            ),
    {
        match intent {
            Intent::NavUp => self.navigate(layout, -1, out),
            Intent::NavDown => self.navigate(layout, 1, out),
            Intent::Expand => self.expand(out),
            Intent::Collapse => self.collapse(out),
            Intent::CollapseAll => self.collapse_all(out),
            Intent::Activate => self.activate(out),
            Intent::ToggleIgnore => self.toggle_ignore(out),
            Intent::ToggleHidden => self.toggle_hidden(out),
            Intent::ToggleChangedOnly => self.toggle_changed_only(out),
            Intent::ToggleStatusMode => self.toggle_status_mode(out),
            Intent::ToggleBaseline => self.toggle_baseline(out),
            Intent::Refresh => self.refresh(out),
            _ => Effects::noop(),
        }
    }

    /// Carries out an intent about the selection.
    fn do_file(
        &mut self,
        intent: Intent,
        layout: &Layout,
        now: u64,
        out: &mut Vec<Action>,
    ) -> (r: Effects)
        requires
            Self::about_file(intent),
        ensures
            Self::file_done(
                run(*old(self), *final(self), r, old(out)@, final(out)@),
                intent,
                *layout,
                now,
            ),
    {
        match intent {
            Intent::CycleDiffRender => self.cycle_diff_render(now, out),
            Intent::CycleView => self.cycle_view(out),
            Intent::OpenInEditor => self.open_in_editor(out),
            Intent::OpenWithApp => self.open_with_app(out),
            Intent::RevealInFileManager => self.reveal_in_file_manager(out),
            Intent::CopyRepoPath => self.copy_path(PathKind::Repo, out),
            Intent::CopyAbsPath => self.copy_path(PathKind::Absolute, out),
            Intent::AddAnnotation => self.add_annotation(out),
            Intent::OpenWorkspace => self.open_workspace(out),
            Intent::OpenPaneHere => self.open_pane_here(out),
            _ => Effects::noop(),
        }
    }

    /// Carries out an intent about the panes.
    fn do_pane(
        &mut self,
        intent: Intent,
        layout: &Layout,
        now: u64,
        out: &mut Vec<Action>,
    ) -> (r: Effects)
        requires
            Self::about_pane(intent),
        ensures
            Self::pane_done(
                run(*old(self), *final(self), r, old(out)@, final(out)@),
                intent,
                *layout,
                now,
            ),
    {
        match intent {
            Intent::OpenFullscreen => self.open_fullscreen(out),
            Intent::ToggleFocus => self.toggle_focus(out),
            Intent::ShrinkTree => self.resize_split(-(SPLIT_STEP as i16), out),
            Intent::GrowTree => self.resize_split(SPLIT_STEP as i16, out),
            Intent::ToggleWrap => self.toggle_wrap(layout, out),
            Intent::ToggleZoom => self.toggle_zoom(out),
            Intent::TogglePin => self.toggle_pin(out),
            Intent::DismissUpdate => self.dismiss_update(out),
            Intent::TreeScrollLeft => self.scroll_tree_h_focus(-(HSCROLL_STEP as i32)),
            Intent::TreeScrollRight => match self.nav.focus {
                Focus::Tree => self.scroll_tree_h_focus(HSCROLL_STEP as i32),
                Focus::Content => {
                    if self.pane.body.len() == 0 {
                        Effects::noop()
                    } else {
                        self.enter_line_select_at_top(layout, out)
                    }
                },
            },
            Intent::Close => self.close_or_unzoom(out),
            _ => Effects::noop(),
        }
    }

    /// Carries out an intent that opens an overlay, or goes through its results.
    fn do_overlay(
        &mut self,
        intent: Intent,
        layout: &Layout,
        now: u64,
        out: &mut Vec<Action>,
    ) -> (r: Effects)
        requires
            Self::about_overlay(intent),
        ensures
            Self::overlay_done(
                run(*old(self), *final(self), r, old(out)@, final(out)@),
                intent,
                *layout,
                now,
            ),
    {
        match intent {
            Intent::ShowAnnotations => self.show_annotations(out),
            Intent::SwitchWorktree => self.open_worktree_picker(out),
            Intent::OpenFinder => self.open_finder(out),
            Intent::OpenTextSearch => self.open_text_search(out),
            Intent::OpenGoToLine => self.open_go_to_line(out),
            Intent::OpenSearch => self.open_search(out),
            Intent::NextMatch => self.next_match(layout, out),
            Intent::PrevMatch => self.prev_match(layout, out),
            Intent::ShowContextMenu => self.show_context_menu(out),
            Intent::ShowHelp => self.open_help(out),
            _ => Effects::noop(),
        }
    }

    /// Carries out an intent with no overlay in its way.
    fn carry_out(
        &mut self,
        intent: Intent,
        layout: &Layout,
        now: u64,
        out: &mut Vec<Action>,
    ) -> (r: Effects)
        ensures
            Self::carried_out(
                run(*old(self), *final(self), r, old(out)@, final(out)@),
                intent,
                *layout,
                now,
            ),
    {
        match intent {
            Intent::NavUp
            | Intent::NavDown
            | Intent::Expand
            | Intent::Collapse
            | Intent::CollapseAll
            | Intent::Activate
            | Intent::ToggleIgnore
            | Intent::ToggleHidden
            | Intent::ToggleChangedOnly
            | Intent::ToggleStatusMode
            | Intent::ToggleBaseline
            | Intent::Refresh => self.do_tree(intent, layout, now, out),
            Intent::CycleDiffRender
            | Intent::CycleView
            | Intent::OpenInEditor
            | Intent::OpenWithApp
            | Intent::RevealInFileManager
            | Intent::CopyRepoPath
            | Intent::CopyAbsPath
            | Intent::AddAnnotation
            | Intent::OpenWorkspace
            | Intent::OpenPaneHere => self.do_file(intent, layout, now, out),
            Intent::OpenFullscreen
            | Intent::ToggleFocus
            | Intent::ShrinkTree
            | Intent::GrowTree
            | Intent::ToggleWrap
            | Intent::ToggleZoom
            | Intent::TogglePin
            | Intent::DismissUpdate
            | Intent::TreeScrollLeft
            | Intent::TreeScrollRight
            | Intent::Close => self.do_pane(intent, layout, now, out),
            _ => self.do_overlay(intent, layout, now, out),
        }
    }

    /// A key was typed. The open overlay takes it; where none takes keys, the intent that it is
    /// bound to, if any, is carried out.
    pub open spec fn key_typed(
        r: Run,
        key: Key,
        bound: Option<Intent>,
        layout: Layout,
        now: u64,
    ) -> bool {
        match r.from.modal {
            Modal::Finder(_) => Self::finder_keyed(r, key),
            Modal::WorkspaceSearch(_) => Self::search_overlay_keyed(r, key),
            Modal::Prompt(_) => Self::prompt_keyed(r, key, layout),
            Modal::Help(_) => Self::help_keyed(r, key),
            Modal::LineSelect(_) => Self::line_keyed(r, key, layout),
            Modal::Annotations(_) => Self::list_keyed(r, key),
            Modal::AnnotationEditor(_) => Self::editor_keyed(r, key),
            Modal::DiscardConfirm(_) => r.takes(r.from.discard_key_step(key)),
            Modal::ContextMenu(_) => Self::menu_keyed(r, key, layout, now),
            Modal::Closed | Modal::Picker(_) => match bound {
                Some(intent) => Self::intended(r, intent, layout, now),
                None => r.takes(r.from.quiet()),
            },
        }
    }

    /// Takes a key, with the intent that it is bound to.
    pub fn handle_key(
        &mut self,
        key: Key,
        bound: Option<Intent>,
        layout: &Layout,
        now: u64,
        out: &mut Vec<Action>,
    ) -> (r: Effects)
        ensures
            Self::key_typed(
                run(*old(self), *final(self), r, old(out)@, final(out)@),
                key,
                bound,
                *layout,
                now,
            ),
    {
        match &self.modal {
            Modal::Finder(_) => self.handle_finder_key(key, out),
            Modal::WorkspaceSearch(_) => self.handle_workspace_search_key(key, out),
            Modal::Prompt(_) => self.handle_prompt_key(key, layout, out),
            Modal::Help(_) => self.handle_help_key(key, out),
            Modal::LineSelect(_) => self.handle_line_select_key(key, layout, out),
            Modal::Annotations(_) => self.handle_annotations_key(key, out),
            Modal::AnnotationEditor(_) => self.handle_annotation_editor_key(key, out),
            Modal::DiscardConfirm(_) => self.handle_discard_confirm_key(key, out),
            Modal::ContextMenu(_) => self.handle_context_menu_key(key, layout, now, out),
            Modal::Closed | Modal::Picker(_) => match bound {
                Some(intent) => self.handle(intent, layout, now, out),
                None => Effects::noop(),
            },
        }
    }
}

/// While an overlay takes the keys, no intent changes anything but the notice.
pub proof fn overlays_swallow_intents(r: Run, intent: Intent, layout: Layout, now: u64)
    requires
        Controller::intended(r, intent, layout, now),
        r.from.takes_keys(),
    ensures
        r.to == (Controller { notice: None, ..r.from }),
        r.after == r.before,
        r.effects == Effects::none(),
{
}

} // verus!
