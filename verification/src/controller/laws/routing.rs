//! Where keys and intents go, and what follows from one operation for another.

use crate::controller::actions::{
    Action, Arrival, Effects, HostRequest, Place, Run, Then, TreeOp,
};
use crate::controller::content::Layout;
use crate::controller::state::{
    Controller, DiscardAction, Focus, Modal, NodeKind, Notice, PromptMode, RenderResult, TreeView,
};
use crate::git::Baseline;
use crate::input::{Intent, Key, KeyCode};
use crate::paths::{names_of, named, relative};
use vstd::prelude::*;

verus! {

/// Esc closes the overlay that is open, whatever it is bound to; the tree and the preferences stay
/// as they were.
pub proof fn escape_closes_the_open_overlay(
    r: Run,
    key: Key,
    bound: Option<Intent>,
    layout: Layout,
    now: u64,
)
    requires
        Controller::key_typed(r, key, bound, layout, now),
        key.code == KeyCode::Esc,
        key.modifiers.at_most_shift(),
        r.from.modal is Help || r.from.modal is Finder || r.from.modal is Prompt || r.from.modal
            is WorkspaceSearch || r.from.modal is Annotations || r.from.modal is LineSelect
            || r.from.modal is ContextMenu || r.from.modal is DiscardConfirm,
    ensures
        r.to.modal is Closed,
        r.to.tree == r.from.tree,
        r.to.prefs == r.from.prefs,
        !r.effects.quit,
{
}

/// Without an overlay a key does what it is bound to, and one that is bound to nothing does nothing.
pub proof fn unbound_keys_do_nothing(r: Run, key: Key, layout: Layout, now: u64)
    requires
        Controller::key_typed(r, key, None, layout, now),
        r.from.modal is Closed || r.from.modal is Picker,
    ensures
        r.to == r.from,
        r.after == r.before,
        !r.effects.redraw,
{
}

/// A character that is typed goes into the open prompt, finder or search.
pub proof fn typed_characters_go_to_the_overlay(
    r: Run,
    c: char,
    key: Key,
    bound: Option<Intent>,
    layout: Layout,
    now: u64,
)
    requires
        Controller::key_typed(r, key, bound, layout, now),
        key.code == KeyCode::Char(c),
        key.modifiers.at_most_shift(),
    ensures
        r.from.modal matches Modal::Finder(f) ==> (r.to.modal matches Modal::Finder(n)
            && n.query_text() == f.query_text().push(c)),
        (r.from.modal matches Modal::Prompt(p) && p.mode == PromptMode::Search) ==> (
        r.to.modal matches Modal::Prompt(n) && n.input.text()
            == r.from.modal->Prompt_0.input.text().push(c)),
        r.from.modal matches Modal::WorkspaceSearch(s) ==> (
        r.to.modal matches Modal::WorkspaceSearch(n) && n.input.text() == s.input.text().insert(
            s.input.caret() as int,
            c,
        )),
        r.from.modal matches Modal::AnnotationEditor(e) ==> (
        r.to.modal matches Modal::AnnotationEditor(n) && n.input.text() == e.input.text().insert(
            e.input.caret() as int,
            c,
        ) && n.target == e.target && n.error is None),
{
}

/// The intents for a directory open it and close it by their names, and activating does whichever
/// is missing.
pub proof fn directories_are_opened_by_name(r: Run, layout: Layout, now: u64)
    requires
        r.from.modal is Closed,
        r.from.nav.focus == Focus::Tree,
        r.from.tree.cursor < r.from.tree.nodes@.len(),
        r.from.tree.nodes@[r.from.tree.cursor as int].kind == NodeKind::Dir,
    ensures
        ({
            let node = r.from.tree.nodes@[r.from.tree.cursor as int];
            let opens = r.after =~= r.before.push(
                Action::Tree { op: TreeOp::Expand(node.path), then: Then::Nothing },
            );
            let closes = r.after =~= r.before.push(
                Action::Tree { op: TreeOp::Collapse(node.path), then: Then::Nothing },
            );
            &&& Controller::tree_done(r, Intent::Expand, layout, now) ==> opens
            &&& Controller::tree_done(r, Intent::Collapse, layout, now) ==> closes
            &&& Controller::tree_done(r, Intent::Activate, layout, now) && node.expanded ==> closes
            &&& Controller::tree_done(r, Intent::Activate, layout, now) && !node.expanded ==> opens
        }),
{
}

/// The intents for the filters and the baseline reach their own.
pub proof fn filters_are_switched_by_name(r: Run, layout: Layout, now: u64)
    requires
        r.from.modal is Closed,
        r.from.repo.is_git_repo,
    ensures
        Controller::tree_done(r, Intent::ToggleChangedOnly, layout, now) ==> r.to.prefs.changed_only
            != r.from.prefs.changed_only && r.to.prefs.baseline == r.from.prefs.baseline,
        Controller::tree_done(r, Intent::ToggleStatusMode, layout, now) ==> r.to.prefs.status_mode
            != r.from.prefs.status_mode && r.to.prefs.baseline == r.from.prefs.baseline,
        Controller::tree_done(r, Intent::ToggleBaseline, layout, now) ==> r.to.prefs.baseline
            != r.from.prefs.baseline && r.to.prefs.changed_only == r.from.prefs.changed_only
            && r.to.prefs.status_mode == r.from.prefs.status_mode,
        Controller::overlay_done(r, Intent::SwitchWorktree, layout, now) ==> r.after == r.before.push(
            Action::ListWorktrees,
        ),
{
}

/// The intents for the panes reach their own: the focus, the zoom and wrapping.
pub proof fn panes_are_switched_by_name(r: Run, layout: Layout, now: u64)
    requires
        r.from.modal is Closed,
        !r.from.nav.zoomed,
    ensures
        Controller::pane_done(r, Intent::ToggleFocus, layout, now) ==> r.to.nav.focus
            != r.from.nav.focus && !r.to.nav.zoomed,
        Controller::pane_done(r, Intent::ToggleZoom, layout, now) ==> r.to.nav.zoomed
            && r.to.nav.focus == Focus::Content && r.to.prefs == r.from.prefs,
        Controller::pane_done(r, Intent::ToggleWrap, layout, now) ==> r.to.prefs.wrap_override
            == Some(!r.from.wraps()) && r.to.nav.zoomed == r.from.nav.zoomed,
{
}

/// The intents for the file reach their own: the editor gets the selected file.
pub proof fn files_are_edited_by_name(r: Run, layout: Layout, now: u64)
    requires
        r.from.modal is Closed,
        r.from.tree.cursor < r.from.tree.nodes@.len(),
        r.from.tree.nodes@[r.from.tree.cursor as int].kind == NodeKind::File,
    ensures
        ({
            let node = r.from.tree.nodes@[r.from.tree.cursor as int];
            &&& Controller::file_done(r, Intent::OpenInEditor, layout, now) ==> r.after
                == r.before.push(Action::Edit(node.path))
            &&& Controller::overlay_done(r, Intent::OpenFinder, layout, now) ==> r.after
                == r.before.push(
                Action::IndexFiles(Place { path: node.path, kind: NodeKind::File }),
            )
            &&& Controller::tree_done(r, Intent::Activate, layout, now) ==> r.to.nav.zoomed
                && r.to.nav.focus == Focus::Content
            &&& Controller::overlay_done(r, Intent::OpenGoToLine, layout, now) ==> (
            r.to.modal matches Modal::Prompt(p) && p.mode == PromptMode::GoToLine)
            &&& Controller::overlay_done(r, Intent::OpenSearch, layout, now) ==> (
            r.to.modal matches Modal::Prompt(p) && p.mode == PromptMode::Search)
        }),
{
}

/// The intents for the matches of a search go on and back by their names.
pub proof fn matches_are_visited_by_name(r: Run, layout: Layout, now: u64)
    requires
        r.from.modal is Closed,
        r.from.pane.search matches Some(s) && 0 < s.current && s.current + 1 < s.matches@.len(),
    ensures
        Controller::overlay_done(r, Intent::NextMatch, layout, now) ==> (
        r.to.pane.search matches Some(n) && n.current == r.from.pane.search->0.current + 1),
        Controller::overlay_done(r, Intent::PrevMatch, layout, now) ==> (
        r.to.pane.search matches Some(n) && n.current == r.from.pane.search->0.current - 1),
{
    crate::controller::laws::content::matches_are_gone_through_in_order(r.from, layout);
}

/// Each new intent starts without the notice of the last action.
pub proof fn notices_last_until_the_next_action(r: Run, layout: Layout, now: u64)
    requires
        r.from.modal is Closed,
    ensures
        Controller::intended(r, Intent::ToggleFocus, layout, now) ==> r.to.notice is None,
{
}

/// The keys that scroll the tree sideways move it by eight columns; in the content the one to the
/// right starts line selection.
pub proof fn the_tree_is_scrolled_by_name(r: Run, layout: Layout, now: u64)
    requires
        r.from.modal is Closed,
        r.from.nav.focus == Focus::Tree,
        r.from.screen.geom.tree_inner is Some,
    ensures
        Controller::pane_done(r, Intent::TreeScrollRight, layout, now) && r.from.nav.tree_hscroll + 8
            + r.from.screen.geom.tree_inner->0.width <= r.from.screen.geom.tree_content_width
            ==> r.to.nav.tree_hscroll == r.from.nav.tree_hscroll + 8,
        Controller::pane_done(r, Intent::TreeScrollLeft, layout, now) && r.from.nav.tree_hscroll >= 8
            && r.from.nav.tree_hscroll + r.from.screen.geom.tree_inner->0.width
            <= r.from.screen.geom.tree_content_width ==> r.to.nav.tree_hscroll
            == r.from.nav.tree_hscroll - 8,
{
}

/// A render that arrives ends the selection made in what was displayed before, and is then the one
/// that is displayed.
pub proof fn arriving_renders_end_the_selection(
    from: Controller,
    to: Controller,
    effects: Option<Effects>,
    before: Seq<Action>,
    after: Seq<Action>,
    result: RenderResult,
    layout: Layout,
)
    requires
        Controller::polled(
            from,
            to,
            effects,
            before,
            after,
            Arrival::Render { seq: from.pane.renders.latest, result },
            layout,
        ),
    ensures
        to.pane.selection is None,
        to.pane.renders.reflow is None,
        to.pane.renders.latest == from.pane.renders.latest,
        to.pane.renders.applied == from.pane.renders.latest,
        effects matches Some(e) && e.redraw && !e.quit,
        to.tree == from.tree && to.prefs == from.prefs,
{
}

/// A file that the finder found is made visible.
pub proof fn found_files_are_made_visible(r: Run, tree: TreeView, name: String, now: u64)
    requires
        Controller::listed(r, tree, Then::Found(name), true, now),
    ensures
        r.from.screen.content_width == 0 ==> r.to.nav.zoomed && r.to.nav.focus == Focus::Content,
        r.from.screen.content_width > 0 ==> r.to.nav.zoomed == r.from.nav.zoomed && r.to.nav.focus
            == r.from.nav.focus,
        r.to.pane.renders.goto is None,
{
}

/// Whatever leaves the zoomed content or the session asks the host to leave full screen, where the
/// viewer had asked for it, and does not ask otherwise.
pub proof fn full_screen_is_left_once(state: Controller)
    requires
        state.host.present,
        state.nav.zoomed,
    ensures
        state.host.zoomed ==> state.zoom_step().actions == seq![
            Action::Host(HostRequest::Zoom(false)),
        ],
        !state.host.zoomed ==> state.zoom_step().actions.len() == 0,
        state.host.zoomed ==> state.quit_step().actions == seq![
            Action::Host(HostRequest::Zoom(false)),
        ],
        !state.host.zoomed ==> state.quit_step().actions.len() == 0,
        state.quit_step().effects.quit && state.quit_step().next.modal is Closed,
        state.pane.selection is None && state.pane.range_flash is None && state.pane.search is None
            && state.host.zoomed ==> state.close_step().actions == seq![
            Action::Host(HostRequest::Zoom(false)),
        ],
{
}

/// Agreeing to lose the annotations leaves, or has the directory looked at once more.
pub proof fn agreement_goes_on(state: Controller)
    ensures
        state.modal == Modal::DiscardConfirm(DiscardAction::Quit) ==> state.proceeds().effects.quit,
        state.modal matches Modal::DiscardConfirm(DiscardAction::SwitchRoot(resolved))
            ==> state.proceeds().actions == seq![Action::RecheckRoot(resolved)]
            && !state.proceeds().effects.quit,
{
}

/// A hit that is shown while a search still runs ends that search first.
pub proof fn shown_hits_end_the_search(r: Run, key: Key)
    requires
        Controller::search_overlay_keyed(r, key),
        r.from.modal matches Modal::WorkspaceSearch(s) && s.cursor < s.matches@.len(),
        key.code == KeyCode::Enter,
        r.from.host.search_running,
    ensures
        r.after.len() == r.before.len() + 2,
        r.after[r.before.len() as int] == Action::CancelSearch,
        r.after.last() is Tree,
        !r.to.host.search_running,
{
}

/// The full-text search is labelled with the selected row as seen from the root, a directory with a
/// slash behind it.
pub proof fn searches_are_labelled_with_their_scope(r: Run)
    requires
        Controller::text_search_opened(r),
        r.from.host.searcher == Some(true),
        r.from.tree.cursor < r.from.tree.nodes@.len(),
        relative(
            r.from.tree.nodes@[r.from.tree.cursor as int].path@,
            r.from.repo.root@,
        ) is Some,
    ensures
        ({
            let node = r.from.tree.nodes@[r.from.tree.cursor as int];
            let name = named(names_of(relative(node.path@, r.from.repo.root@)->0));
            r.to.modal matches Modal::WorkspaceSearch(s) && (node.kind == NodeKind::Dir ==> s.label@
                == name.push('/')) && (node.kind == NodeKind::File ==> s.label@ == name)
        }),
{
}

/// The finder names the directory that it is narrowed to, and the root by a dot.
pub proof fn the_finder_names_its_scope(r: Run, path: crate::paths::FilePath, candidates: Seq<String>)
    requires
        Controller::finder_opened(r, Place { path, kind: NodeKind::Dir }, candidates),
        relative(path@, r.from.repo.root@) is Some,
    ensures
        ({
            let names = names_of(relative(path@, r.from.repo.root@)->0);
            r.to.modal matches Modal::Finder(f) && (names.len() == 0 ==> f.scope_name() == "./"@)
                && (named(names).len() > 0 ==> f.scope_name() == named(names).push('/'))
        }),
{
}

/// While working-tree diffs are forced, the baseline that is preferred does not matter to what is
/// rendered; otherwise it does.
pub proof fn preferred_baselines_count_outside_status_mode(
    state: Controller,
    path: crate::paths::FilePath,
    other: Baseline,
)
    ensures
        ({
            let changed = Controller {
                prefs: crate::controller::state::Preferences { baseline: other, ..state.prefs },
                ..state
            };
            let job = changed.job(path, crate::view_policy::ViewMode::Diff, false);
            &&& !state.prefs.status_mode ==> job.baseline == other
            &&& state.prefs.status_mode && state.repo.is_git_repo ==> job.baseline == Baseline::Head
            &&& !state.repo.is_git_repo ==> job.baseline == other
        }),
{
}

/// A notice about the last action does not keep anything else from being done: what it was about is
/// told, and the state is otherwise the same.
pub proof fn notices_change_nothing_else(state: Controller, notice: Notice)
    ensures
        state.tells(notice).next.notice == Some(notice),
        state.tells(notice).next == (Controller { notice: Some(notice), ..state }),
        state.tells(notice).actions.len() == 0,
        state.tells(notice).effects.redraw && !state.tells(notice).effects.quit,
{
}

} // verus!
