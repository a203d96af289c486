//! What is shown and reported of the session, and what arrives for it.

use crate::controller::actions::{
    Action, Arrival, EditorOutcome, Effects, Filter, HostRequest, Place, Run, Then, TreeOp,
};
use crate::controller::content::Layout;
use crate::controller::events::{EditorVisit, SpawnError};
use crate::controller::state::{
    AnnotationEditorMode, Controller, Focus, Modal, NodeKind, SearchFailure,
};
use crate::controller::view::{FinderView, PickerView, ViewState};
use crate::controller::workspace::HostEnv;
use crate::git::{Baseline, StatusMap};
use crate::input::{Intent, Key, KeyCode};
use crate::paths::{lossy_text, name_of, ordinary, FilePath};
use crate::text::texts;
use vstd::prelude::*;
use vstd::utf8::{decode_utf8, valid_utf8};

verus! {

/// The session reports its preferences as they are.
pub proof fn preferences_are_reported(state: Controller, on: bool, share: u16, baseline: Baseline)
    ensures
        call_ensures(Controller::show_ignored, (&state,), on) ==> on == state.prefs.show_ignored,
        call_ensures(Controller::hide_hidden, (&state,), on) ==> on == state.prefs.hide_hidden,
        call_ensures(Controller::changed_only, (&state,), on) ==> on == state.prefs.changed_only,
        call_ensures(Controller::status_mode, (&state,), on) ==> on == state.prefs.status_mode,
        call_ensures(Controller::wrap_override, (&state,), on) ==> on == (
        state.prefs.wrap_override == Some(true)),
        call_ensures(Controller::zoomed, (&state,), on) ==> on == state.nav.zoomed,
        call_ensures(Controller::split_pct, (&state,), share) ==> share == state.prefs.split_pct,
        call_ensures(Controller::baseline, (&state,), baseline) ==> baseline
            == state.prefs.baseline,
{
}

/// The session reports which overlay is open.
pub proof fn overlays_are_reported(state: Controller, on: bool)
    ensures
        call_ensures(Controller::prompt_open, (&state,), on) ==> on == state.modal is Prompt,
        call_ensures(Controller::finder_open, (&state,), on) ==> on == state.modal is Finder,
        call_ensures(Controller::help_open, (&state,), on) ==> on == state.modal is Help,
        call_ensures(Controller::context_menu_open, (&state,), on) ==> on == state.modal
            is ContextMenu,
        call_ensures(Controller::workspace_search_open, (&state,), on) ==> on == state.modal
            is WorkspaceSearch,
        call_ensures(Controller::line_select_active, (&state,), on) ==> on == state.modal
            is LineSelect,
        call_ensures(Controller::discard_confirm_open, (&state,), on) ==> on == state.modal
            is DiscardConfirm,
        call_ensures(Controller::annotation_modal_open, (&state,), on) ==> on == (state.modal
            is Annotations || state.modal is AnnotationEditor),
        call_ensures(Controller::line_select_pending, (&state,), on) ==> on
            == state.pane.renders.line_select is Some,
        call_ensures(Controller::status_refresh_pending, (&state,), on) ==> on
            == state.repo.status_pending,
{
}

/// The session reports where it stands: the focus, the place in the content, the line that a jump
/// waits for, and the highlighted range.
pub proof fn places_are_reported(
    state: Controller,
    focus: Focus,
    offset: u16,
    line: Option<usize>,
    range: Option<(usize, usize)>,
)
    ensures
        call_ensures(Controller::focus, (&state,), focus) ==> focus == state.nav.focus,
        call_ensures(Controller::content_scroll, (&state,), offset) ==> offset
            == state.nav.content_scroll,
        call_ensures(Controller::pending_goto_line, (&state,), line) ==> (line is Some
            <==> state.pane.renders.goto is Some) && (line matches Some(n) ==> n
            == (state.pane.renders.goto->0).1),
        call_ensures(Controller::open_range_flash_lines, (&state,), range) ==> (range is Some
            <==> state.pane.range_flash is Some) && (range matches Some(lines) ==> lines.0
            == state.pane.range_flash->0.start && lines.1 == state.pane.range_flash->0.end),
{
}

/// What the user is told starts with the last action.
pub proof fn the_last_action_is_told_first(state: Controller, layout: Layout, view: ViewState)
    requires
        call_ensures(Controller::view_state, (&state, &layout), view),
    ensures
        state.notice matches Some(notice) ==> texts(view.notices@).len() > 0 && texts(
            view.notices@,
        )[0] == notice.message(),
        state.notice is None ==> texts(view.notices@) == texts(state.pane.body.messages()),
        state.flash is Some <==> view.flash is Some,
        (state.flash is Some && view.flash is Some) ==> view.flash->0.dim == state.flash->0.dim,
{
    if state.notice is None {
        assert(Seq::<Seq<char>>::empty() + texts(state.pane.body.messages()) =~= texts(
            state.pane.body.messages(),
        ));
    }
}

/// The content is titled with the name of the displayed file, and the tree with that of the root.
pub proof fn titles_are_names(
    state: Controller,
    layout: Layout,
    view: ViewState,
    dir: Seq<u8>,
    name: Seq<u8>,
)
    requires
        call_ensures(Controller::view_state, (&state, &layout), view),
        ordinary(name),
        forall|k: int| 0 <= k < name.len() ==> (#[trigger] name[k]) != crate::paths::SLASH,
    ensures
        (state.pane.path matches Some(path) && path@ == dir.push(crate::paths::SLASH) + name) ==> (
        view.content_title matches Some(title) && title@ == lossy_text(name)),
        state.repo.root@ == dir.push(crate::paths::SLASH) + name ==> view.root_name@ == lossy_text(
            name,
        ),
{
    let path = dir.push(crate::paths::SLASH) + name;
    crate::paths::lemma_name_start(path);
    let at = dir.len() + 1;
    assert(path[at - 1] == crate::paths::SLASH);
    assert forall|k: int| at <= k < path.len() implies path[k] != crate::paths::SLASH by {
        assert(path[k] == name[k - at]);
    }
    let start = crate::paths::name_start(path);
    if start < at {
        assert(path[at - 1] != crate::paths::SLASH);
    } else if start > at {
        assert(path[start - 1] == crate::paths::SLASH);
    }
    assert(name_of(path) =~= name);
}

/// The finder is drawn with its query and with the files of its matches, best first.
pub proof fn the_finder_lists_its_matches(state: Controller, view: Option<FinderView>)
    requires
        call_ensures(Controller::finder_view, (&state,), view),
    ensures
        view is Some <==> state.modal is Finder,
        state.modal matches Modal::Finder(f) ==> {
            &&& view->0.query@ == f.query_text()
            &&& view->0.cursor == f.position()
            &&& view->0.workspace == f.whole()
            &&& view->0.matches@.len() == f.ranked().len()
            &&& forall|i: int|
                0 <= i < f.ranked().len() ==> #[trigger] view->0.matches@[i]
                    == f.files()[f.ranked()[i] as int]
        },
{
}

/// The picker is drawn with a row for each worktree, in their order.
pub proof fn the_picker_lists_its_worktrees(state: Controller, view: Option<PickerView>, i: int)
    requires
        call_ensures(Controller::picker_view, (&state,), view),
        state.modal matches Modal::Picker(p) && 0 <= i < p.rows@.len(),
    ensures
        ({
            let p = state.modal->Picker_0;
            &&& view is Some && view->0.rows@.len() == p.rows@.len() && view->0.cursor == p.cursor
            &&& view->0.rows@[i].path@ == lossy_text(p.rows@[i].path@)
            &&& view->0.rows@[i].branch == p.rows@[i].branch
            &&& view->0.rows@[i].is_current == p.rows@[i].is_current
            &&& view->0.rows@[i].detached == p.rows@[i].detached
        }),
{
}

/// A selection is drawn from its first character to its last one.
pub proof fn selections_are_drawn_in_order(state: Controller, layout: Layout, view: ViewState)
    requires
        call_ensures(Controller::view_state, (&state, &layout), view),
        view.content_selection is Some,
    ensures
        ({
            let v = view.content_selection->0;
            let s = state.pane.selection->0;
            let (start, end) = ((v.start_line, v.start_col), (v.end_line, v.end_col));
            &&& v.start_line < v.end_line || v.start_line == v.end_line && v.start_col < v.end_col
            &&& start == (s.anchor, s.anchor_col) && end == (s.marker, s.marker_col) || start == (
                s.marker,
                s.marker_col,
            ) && end == (s.anchor, s.anchor_col)
        }),
{
}

/// A status that was waited for is taken over and marks the tree; one that was lost is not waited
/// for any longer.
pub proof fn awaited_states_are_taken_over(
    from: Controller,
    to: Controller,
    effects: Option<Effects>,
    before: Seq<Action>,
    after: Seq<Action>,
    status: StatusMap,
    changed: StatusMap,
    layout: Layout,
)
    ensures
        Controller::polled(
            from,
            to,
            effects,
            before,
            after,
            Arrival::Status { status, changed },
            layout,
        ) && from.repo.status_pending ==> {
            &&& to.repo.git_status == Some(status) && to.repo.changed == Some(changed)
            &&& !to.repo.status_pending
            &&& effects is Some
            &&& after.len() == before.len() + 1
            &&& after.last() matches Action::Tree { op: TreeOp::Mark(filter), then: Then::Render }
                && (from.prefs.status_mode ==> filter == Filter::Status)
        },
        Controller::polled(from, to, effects, before, after, Arrival::StatusLost, layout) ==> {
            &&& !to.repo.status_pending
            &&& to.repo.git_status == from.repo.git_status
            &&& effects is None
        },
{
}

/// The result of the check for a newer version is shown once it is known.
pub proof fn newer_versions_are_shown(
    from: Controller,
    to: Controller,
    effects: Option<Effects>,
    before: Seq<Action>,
    after: Seq<Action>,
    available: Option<String>,
    layout: Layout,
)
    requires
        Controller::polled(
            from,
            to,
            effects,
            before,
            after,
            Arrival::Update(available),
            layout,
        ),
    ensures
        from.update.pending ==> to.update.available == available && !to.update.pending && effects
            is Some,
        !from.update.pending ==> to == from && effects is None,
        to.update.dismissed == from.update.dismissed,
{
}

/// A search that ends without an answer has failed.
pub proof fn lost_searches_have_failed(state: Controller)
    requires
        state.host.search_running,
        state.modal is WorkspaceSearch,
    ensures
        ({
            let next = state.search_vanished(state.host.search_seq);
            &&& !next.host.search_running
            &&& next.modal matches Modal::WorkspaceSearch(n) && n.error == Some(
                SearchFailure::Failed,
            ) && !n.pending
        }),
{
}

/// The visit to the editor succeeded only where nothing failed before it ended.
pub proof fn visits_end_with_their_first_failure(visit: EditorVisit, outcome: EditorOutcome)
    requires
        call_ensures(EditorVisit::outcome, (visit,), outcome),
    ensures
        outcome is TookOver <==> visit.suspend_error is None && visit.launch_error is None,
        visit.suspend_error matches Some(reason) ==> outcome == EditorOutcome::NotLaunched(reason),
        (visit.suspend_error is None && visit.launch_error is Some) ==> match visit.launch_error->0 {
            SpawnError::NotLaunched(reason) => outcome == EditorOutcome::NotLaunched(reason),
            SpawnError::NonZeroExit(detail) => outcome == EditorOutcome::NonZeroExit(detail),
        },
{
}

/// The first frame decides whether the launched file fills the frame: where the content has no
/// column of its own.
pub proof fn launched_files_are_visible(state: Controller, width: u16, height: u16, layout: Layout)
    requires
        state.screen.pending_open_zoom,
    ensures
        ({
            let step = state.viewport_step(width, height, layout);
            &&& width == 0 ==> step.next.nav.zoomed && step.next.nav.focus == Focus::Content
                && step.effects.redraw
            &&& width > 0 ==> step.next.nav.zoomed == state.nav.zoomed && step.next.nav.focus
                == state.nav.focus && !step.effects.redraw
        }),
{
}

/// Content that is scrolled within its bounds stays where it is when its size is measured anew.
pub proof fn measured_content_stays(state: Controller, layout: Layout)
    ensures
        state.nav.content_scroll <= state.max_scroll(layout) ==> state.reclamped(
            layout,
        ).nav.content_scroll == state.nav.content_scroll,
        state.nav.content_hscroll <= state.max_hscroll() ==> state.reclamped(
            layout,
        ).nav.content_hscroll == state.nav.content_hscroll,
        state.nav.content_scroll > state.max_scroll(layout) >= 0 ==> state.reclamped(
            layout,
        ).nav.content_scroll == state.max_scroll(layout),
        state.reclamped(layout).nav.tree_scroll == state.nav.tree_scroll,
{
}

/// A workspace is named after its directory.
pub proof fn workspaces_are_named_after_their_directory(path: FilePath, env: HostEnv)
    requires
        ordinary(name_of(path@)),
        valid_utf8(name_of(path@)),
    ensures
        HostRequest::CreateWorkspace(Place { path, kind: NodeKind::Dir }).arguments(env)[5]
            == decode_utf8(name_of(path@)),
{
}

/// The viewer is opened beside the pane that was named, at the right, for the directory of the row.
pub proof fn viewers_open_beside_their_pane(place: Place, pane: String, env: HostEnv)
    ensures
        ({
            let args = HostRequest::OpenViewer { place, pane }.arguments(env);
            &&& args[9] == "--target-pane"@ && args[10] == pane@
            &&& args[11] == "--direction"@ && args[12] == "right"@
            &&& args[14] == env.root_variable@.push('=') + lossy_text(place.dir())
            &&& env.config_dir is None ==> args.len() == 16
            &&& env.config_dir matches Some(config) ==> args.len() == 18 && args[17]
                == "HERDR_PLUGIN_CONFIG_DIR="@ + config@
        }),
{
}

/// A terminal that is to have more than half of the width grows to the right, and one that is to
/// have less shrinks from there, each by the difference to a half.
pub proof fn terminals_are_resized_by_the_difference(
    place: Place,
    pane: String,
    ratio: crate::config::ViewerPaneRatio,
    env: HostEnv,
)
    ensures
        ({
            let args = HostRequest::ResizeTerminal { place, pane, ratio }.arguments(env);
            &&& args[3] == pane@
            &&& ratio.share() < 500_000 ==> args[5] == "right"@ && args[7]
                == crate::config::decimal_text_of((500_000 - ratio.share()) as nat)
            &&& ratio.share() > 500_000 ==> args[5] == "left"@ && args[7]
                == crate::config::decimal_text_of((ratio.share() - 500_000) as nat)
        }),
{
}

/// An editor that was opened from the list returns to it when it is canceled.
pub proof fn canceled_edits_return_to_the_list(r: Run, key: Key)
    requires
        Controller::editor_keyed(r, key),
        r.from.modal is AnnotationEditor,
        key.code == KeyCode::Esc,
        key.modifiers.at_most_shift(),
    ensures
        (r.from.modal->AnnotationEditor_0.mode matches AnnotationEditorMode::Edit {
            id,
            overview_cursor,
        } && overview_cursor < r.from.annotations.listed().len()) ==> (
        r.to.modal matches Modal::Annotations(list) && list.cursor
            == r.from.modal->AnnotationEditor_0.mode->Edit_overview_cursor),
        r.from.modal->AnnotationEditor_0.mode == AnnotationEditorMode::Add(None) ==> r.to.modal
            is Closed,
        r.after == r.before,
{
}

/// The keys of a row's menu: down and up move by an entry, Esc closes it, and the number of an entry
/// carries it out once the menu is gone.
pub proof fn menu_keys_choose_and_close(r: Run, key: Key, layout: Layout, now: u64)
    requires
        Controller::menu_keyed(r, key, layout, now),
        r.from.modal matches Modal::ContextMenu(menu) && menu.cursor + 1 < menu.items@.len(),
        r.from.notice is None,
    ensures
        key.code == KeyCode::Down ==> (r.to.modal matches Modal::ContextMenu(n) && n.cursor
            == r.from.modal->ContextMenu_0.cursor + 1),
        key.code == KeyCode::Esc ==> r.to.modal is Closed && r.after == r.before,
        key.code == KeyCode::Enter && r.from.modal->ContextMenu_0.items@[r.from.modal->ContextMenu_0.cursor as int].intent
            == Intent::OpenWorkspace && r.from.host.present && (r.from.tree.cursor
            < r.from.tree.nodes@.len()) ==> r.after == r.before.push(
            Action::Host(
                HostRequest::CreateWorkspace(
                    Place {
                        path: r.from.tree.nodes@[r.from.tree.cursor as int].path,
                        kind: r.from.tree.nodes@[r.from.tree.cursor as int].kind,
                    },
                ),
            ),
        ) && r.to.modal is Closed,
{
    let menu = r.from.modal->ContextMenu_0;
    let len: usize = menu.items.len();
    assert(len == menu.items@.len());
    let c = menu.cursor as int;
    let n = len as int;
    assert(c + 1 < n ==> (c + 1) % n == c + 1) by (nonlinear_arith)
        requires
            0 <= c < n,
    ;
    let closed = r.from.menu_closed();
    assert(Controller { notice: None, ..closed } == closed);
}

} // verus!
