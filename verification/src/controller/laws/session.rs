//! What renders, replies, roots and the host promise.

use crate::controller::actions::{
    Action, AfterGit, Clip, EditorOutcome, Filter, HostRequest, OpenTarget, OpenerOutcome,
    PathKind, Place, Run, Then, TreeOp,
};
use crate::controller::content::Layout;
use crate::controller::state::{
    Body, Controller, DiscardAction, EmptyReason, Focus, Modal, NodeKind, Notice, PaneGeometry,
    Resolved, TreeView,
};
use crate::controller::workspace::HostEnv;
use crate::git::{Baseline, StatusMap};
use crate::input::{Key, KeyCode};
use crate::paths::{joined, lossy_text, relative, text_path, FilePath};
use crate::selection::sanitized;
use crate::text::decimal;
use crate::view_policy::{DiffRenderMode, ViewMode};
use vstd::prelude::*;

verus! {

/// A file that is rendered is the selected one, in its view, as the preferences have it now, and
/// with the number that the session waits for.
pub proof fn renders_are_of_the_selection(state: Controller)
    requires
        state.tree.cursor < state.tree.nodes@.len(),
        state.tree.nodes@[state.tree.cursor as int].kind == NodeKind::File,
    ensures
        state.renders().actions.len() == 1,
        state.renders().actions[0] matches Action::Render(job) && {
            let node = state.tree.nodes@[state.tree.cursor as int];
            &&& job.path == node.path
            &&& job.root == state.repo.root
            &&& job.is_git == state.repo.is_git_repo
            &&& !job.directory_diff
            &&& job.seq == state.renders().next.pane.renders.latest
            &&& job.mode == state.mode_of(node.path@)
            &&& job.diff_render_mode == state.prefs.diff_render_mode
            &&& !state.prefs.status_mode ==> job.baseline == state.prefs.baseline
            &&& state.prefs.status_mode && state.repo.is_git_repo ==> job.baseline == Baseline::Head
                && job.mode == ViewMode::Diff
            &&& state.screen.content_width == 0 ==> job.pane_width is None && job.wrap_width is None
            &&& state.screen.content_width > 0 ==> job.pane_width == Some(
                state.screen.content_width,
            )
            &&& state.screen.content_width > 0 && state.wraps() ==> job.wrap_width
                == job.pane_width
            &&& !state.wraps() ==> job.wrap_width is None
        },
{
}

/// What belonged to the content before is gone once another one is asked for: the place in it, the
/// search, the selection, the highlighted range, and jumps that waited for it.
pub proof fn new_content_starts_at_its_top(state: Controller)
    ensures
        ({
            let next = state.renders().next;
            &&& next.nav.content_scroll == 0 && next.nav.content_hscroll == 0
            &&& next.pane.search is None && next.pane.selection is None && next.pane.range_flash
                is None
            &&& next.pane.renders.goto is None && next.pane.renders.line_select is None
            &&& next.pane.renders.applied == state.pane.renders.applied
            &&& next.nav.focus == state.nav.focus && next.nav.zoomed == state.nav.zoomed
            &&& next.nav.tree_scroll == state.nav.tree_scroll
            &&& next.tree == state.tree && next.prefs == state.prefs && next.overrides
                == state.overrides && next.modal == state.modal
        }),
{
}

/// Where no file is selected the pane says so, and nothing is rendered, except the diff of a
/// directory where working-tree diffs are forced.
pub proof fn directories_have_no_content(state: Controller)
    ensures
        state.tree.cursor >= state.tree.nodes@.len() ==> state.renders().next.pane.body
            == Body::Guidance(EmptyReason::NoFiles) && state.renders().actions.len() == 0
            && state.renders().next.pane.path is None,
        state.tree.cursor < state.tree.nodes@.len() && state.tree.nodes@[state.tree.cursor as int].kind
            == NodeKind::Dir && !(state.prefs.status_mode && state.repo.is_git_repo)
            ==> state.renders().next.pane.body == Body::Guidance(EmptyReason::Directory)
            && state.renders().actions.len() == 0 && state.renders().next.pane.path is None,
        state.tree.cursor < state.tree.nodes@.len() && state.tree.nodes@[state.tree.cursor as int].kind
            == NodeKind::Dir && state.prefs.status_mode && state.repo.is_git_repo
            ==> state.renders().actions.len() == 1 && (
        state.renders().actions[0] matches Action::Render(job) && job.directory_diff && job.mode
            == ViewMode::Diff && job.baseline == Baseline::Head && job.path
            == state.tree.nodes@[state.tree.cursor as int].path) && state.renders().next.pane.body
            == state.pane.body,
{
}

/// A file opens in the view that was chosen for it. Where none was, a changed file opens in its
/// diff, else markdown as prose, else its source.
pub proof fn chosen_views_come_first(state: Controller, path: Seq<u8>)
    requires
        !state.prefs.status_mode,
    ensures
        state.overrides@.dom().contains(path) ==> state.mode_of(path) == state.overrides@[path],
        ({
            let rel = relative(path, state.repo.root@);
            let changed = rel is Some && (state.repo.changed matches Some(map)
                && map@.dom().contains(rel->0));
            let prose = crate::controller::render::names_markdown(path);
            &&& !state.overrides@.dom().contains(path) && changed ==> state.mode_of(path)
                == ViewMode::Diff
            &&& !state.overrides@.dom().contains(path) && !changed && prose ==> state.mode_of(path)
                == ViewMode::RenderedMarkdown
            &&& !state.overrides@.dom().contains(path) && !changed && !prose ==> state.mode_of(path)
                == ViewMode::SyntaxContent
        }),
{
}

/// What is laid out by a program that goes by the width is laid out anew for another width, with
/// that width, and the render is one that keeps the place.
pub proof fn other_widths_are_laid_out_anew(
    state: Controller,
    width: u16,
    height: u16,
    layout: Layout,
)
    requires
        state.tree.cursor < state.tree.nodes@.len(),
        state.tree.nodes@[state.tree.cursor as int].kind == NodeKind::File,
        width > 0,
    ensures
        ({
            let path = state.tree.nodes@[state.tree.cursor as int].path;
            let step = state.viewport_step(width, height, layout);
            let mode = state.mode_of(path@);
            let rendered = (mode == ViewMode::Diff || mode == ViewMode::FullDiff)
                && state.prefs.diff_render_mode != DiffRenderMode::Raw || mode
                == ViewMode::RenderedMarkdown && state.wraps();
            &&& step.next.screen.content_width == width && step.next.screen.content_height == height
            &&& width != state.screen.content_width && rendered ==> step.actions.len() == 1 && (
            step.actions[0] matches Action::Render(job) && job.path == path && job.pane_width
                == Some(width) && job.mode == mode && step.next.pane.renders.reflow == Some(
                job.seq,
            ) && step.next.pane.renders.latest == job.seq)
            &&& width == state.screen.content_width || !rendered ==> step.actions.len() == 0
            &&& step.next.pane.body == state.pane.body
            &&& step.next.nav.content_scroll <= state.nav.content_scroll
            &&& step.next.nav.content_hscroll <= state.nav.content_hscroll
        }),
{
    let drawn = state.first_frame(width);
    let path = state.tree.nodes@[state.tree.cursor as int].path;
    assert(drawn.selected() == state.selected());
    assert(drawn.mode_of(path@) == state.mode_of(path@));
    let fitted = drawn.resized(width, height, layout);
    assert(fitted.selected() == state.selected());
    assert(fitted.mode_of(path@) == state.mode_of(path@));
    assert(fitted.wraps() == state.wraps());
}

/// What git said is kept as it was said, marks the rows of the tree under the filter that is
/// active, and makes a reading in the background out of date.
pub proof fn the_state_of_git_is_taken_over(
    r: Run,
    status: StatusMap,
    changed: StatusMap,
    branch: Option<String>,
    after: AfterGit,
)
    requires
        r.takes(r.from.git_step(status, changed, branch, after)),
    ensures
        r.to.repo.git_status == Some(status),
        r.to.repo.changed == Some(changed),
        r.to.repo.branch == branch,
        !r.to.repo.status_pending,
        r.to.repo.root == r.from.repo.root,
        r.to.prefs == r.from.prefs,
        r.after.len() == r.before.len() + 1,
        r.after.last() matches Action::Tree { op: TreeOp::Mark(filter), then } && {
            &&& r.from.prefs.status_mode ==> filter == Filter::Status
            &&& !r.from.prefs.status_mode && r.from.prefs.changed_only ==> filter == Filter::Changed
            &&& !r.from.prefs.status_mode && !r.from.prefs.changed_only ==> filter == Filter::Keep
            &&& after is Render <==> then is Render
            &&& after matches AfterGit::RenderIfMoved(path) ==> then == Then::RenderIfMoved(path)
        },
        r.from.prefs.status_mode || r.from.prefs.changed_only ==> r.to.nav.tree_follow_selection,
{
}

/// The files changed against another baseline are kept; the tree is filtered by them where they
/// filter it, and the selection rendered otherwise.
pub proof fn other_baselines_refilter_the_tree(r: Run, changed: StatusMap)
    requires
        r.takes(r.from.changed_step(changed)),
    ensures
        r.to.repo.changed == Some(changed),
        r.to.repo.git_status == r.from.repo.git_status,
        !r.to.repo.status_pending,
        r.from.prefs.changed_only && !r.from.prefs.status_mode ==> r.after == r.before.push(
            Action::Tree { op: TreeOp::Filter(Filter::Changed), then: Then::Render },
        ),
        !(r.from.prefs.changed_only && !r.from.prefs.status_mode) && r.from.file_selected() ==> (
        r.after.len() == r.before.len() + 1 && (r.after.last() matches Action::Render(job)
            && Some(job.path) == r.from.selected_path())),
{
}

/// Rows that were listed anew are shown as they are, and what was to follow does: nothing, a render
/// of the selection, or one only where another row is selected than before.
pub proof fn listings_are_followed_up(r: Run, tree: TreeView, then: Then, revealed: bool, now: u64)
    requires
        Controller::listed(r, tree, then, revealed, now),
    ensures
        r.to.tree == tree,
        then is Nothing ==> r.after == r.before && r.to.pane == r.from.pane,
        ({
            let file = tree.cursor < tree.nodes@.len() && tree.nodes@[tree.cursor as int].kind
                == NodeKind::File;
            let rendered = r.after.len() == r.before.len() + 1 && (
            r.after.last() matches Action::Render(job) && job.path
                == tree.nodes@[tree.cursor as int].path);
            &&& then is Render && file ==> rendered
            &&& (then matches Then::RenderIfMoved(before) && file && before is Some && before->0@
                == tree.nodes@[tree.cursor as int].path@) ==> r.after == r.before && r.to.pane
                == r.from.pane
            &&& (then matches Then::RenderIfMoved(before) && file && (before is None || before->0@
                != tree.nodes@[tree.cursor as int].path@)) ==> rendered
                && r.to.nav.tree_follow_selection
            &&& then is Found && revealed && file ==> rendered && r.to.nav.tree_follow_selection
        }),
{
    let from = r.from.lists(tree);
    assert(from.selected() == if tree.cursor < tree.nodes@.len() {
        Some(tree.nodes@[tree.cursor as int])
    } else {
        None
    });
}

/// A file that could not be revealed is named, and nothing is rendered.
pub proof fn missing_files_are_named(r: Run, tree: TreeView, then: Then, now: u64)
    requires
        Controller::listed(r, tree, then, false, now),
    ensures
        then matches Then::Found(name) ==> r.to.notice == Some(Notice::CannotOpen(name)) && r.after
            == r.before,
        then matches Then::Hit { name, line } ==> r.to.notice == Some(Notice::CannotOpen(name))
            && r.after == r.before,
        then matches Then::Launched(target) ==> r.to.notice == Some(
            Notice::CannotOpen(target.path),
        ) && r.after == r.before,
{
}

/// A hit of the full-text search is shown in the source of its file, where the content jumps to its
/// line; the content is made visible for it.
pub proof fn hits_lead_to_their_line(r: Run, tree: TreeView, name: String, line: usize, now: u64)
    requires
        Controller::listed(r, tree, Then::Hit { name, line }, true, now),
    ensures
        r.to.pane.renders.goto == Some((r.to.pane.renders.latest, line)),
        r.to.overrides@[joined(r.from.repo.root@, text_path(name@))] == ViewMode::SyntaxContent,
        r.from.screen.content_width == 0 ==> r.to.nav.zoomed && r.to.nav.focus == Focus::Content,
        r.from.screen.content_width > 0 ==> r.to.nav.zoomed == r.from.nav.zoomed && r.to.nav.focus
            == r.from.nav.focus,
        tree.cursor < tree.nodes@.len() && tree.nodes@[tree.cursor as int].kind == NodeKind::File
            ==> r.after.len() == r.before.len() + 1 && (r.after.last() matches Action::Render(job)
            && job.path == tree.nodes@[tree.cursor as int].path && job.seq
            == r.to.pane.renders.latest),
{
}

/// What the launch command asked for is opened: with a line the content jumps to it in the source,
/// with two the range between them is highlighted for a second.
pub proof fn launched_files_open_at_their_line(r: Run, tree: TreeView, target: OpenTarget, now: u64)
    requires
        Controller::listed(r, tree, Then::Launched(target), true, now),
        now + 1000 <= u64::MAX,
    ensures
        r.to.notice == Some(
            Notice::Opened { path: target.path, line: target.line, end_line: target.end_line },
        ),
        r.to.screen.pending_open_zoom,
        target.line matches Some(line) ==> r.to.pane.renders.goto == Some(
            (r.to.pane.renders.latest, line),
        ),
        target.line is None ==> r.to.pane.renders.goto is None && r.to.overrides
            == r.from.overrides,
        (target.line matches Some(a) && target.end_line matches Some(b)) ==> (
        r.to.pane.range_flash matches Some(flash) && flash.start <= flash.end && (flash.start
            == target.line->0 && flash.end == target.end_line->0 || flash.start
            == target.end_line->0 && flash.end == target.line->0) && flash.deadline == now + 1000),
        target.line is None || target.end_line is None ==> r.to.pane.range_flash is None,
        target.line is Some && tree.cursor < tree.nodes@.len() && tree.nodes@[tree.cursor as int].kind
            == NodeKind::File && !(r.from.prefs.status_mode && tree.changed_only)
            ==> r.to.mode_of(tree.nodes@[tree.cursor as int].path@) == ViewMode::SyntaxContent,
{
    if target.line is Some && tree.cursor < tree.nodes@.len() && tree.nodes@[tree.cursor as int].kind
        == NodeKind::File && !(r.from.prefs.status_mode && tree.changed_only) {
        let path = tree.nodes@[tree.cursor as int].path@;
        let shown = r.from.reveals(tree);
        assert(shown.selected() == Some(tree.nodes@[tree.cursor as int]));
        assert(!r.to.forces_diff());
        assert(r.to.counts_as_changed(path) == shown.counts_as_changed(path));
    }
}

/// A file that the launch command names is revealed in the tree; one outside the root is refused.
pub proof fn launched_files_lie_below_the_root(r: Run, target: OpenTarget, place: Option<FilePath>)
    requires
        r.takes(r.from.open_target_step(target, place)),
    ensures
        place matches Some(path) ==> r.after == r.before.push(
            Action::Tree { op: TreeOp::Reveal(path), then: Then::Launched(target) },
        ) && r.to == r.from,
        place is None ==> r.after == r.before && r.to.notice == Some(
            Notice::OutsideRoot(target.path),
        ),
{
}

/// A copied path is the whole path, or the path as seen from the root where it lies below it.
pub proof fn copied_paths_are_as_asked(state: Controller, path: FilePath, text: String)
    ensures
        call_ensures(
            Controller::clip_text,
            (&state, &Clip::Path { path, kind: PathKind::Absolute }),
            text,
        ) ==> text@ == sanitized(lossy_text(path@)),
        (relative(path@, state.repo.root@) matches Some(rel) && call_ensures(
            Controller::clip_text,
            (&state, &Clip::Path { path, kind: PathKind::Repo }),
            text,
        )) ==> text@ == sanitized(lossy_text(relative(path@, state.repo.root@)->0)),
        relative(path@, state.repo.root@) is None && call_ensures(
            Controller::clip_text,
            (&state, &Clip::Path { path, kind: PathKind::Repo }),
            text,
        ) ==> text@ == sanitized(lossy_text(path@)),
{
}

/// A reference is the path as seen from the root, a colon, and the line, or the first and the last
/// one with a hyphen between.
pub proof fn references_are_spelled_out(
    state: Controller,
    path: FilePath,
    start: usize,
    end: usize,
    text: String,
)
    requires
        call_ensures(
            Controller::clip_text,
            (&state, &Clip::Reference { path, start, end }),
            text,
        ),
        relative(path@, state.repo.root@) is Some,
    ensures
        ({
            let name = lossy_text(relative(path@, state.repo.root@)->0);
            &&& start == end ==> text@ == sanitized(name + seq![':'] + decimal(start as nat))
            &&& start < end ==> text@ == sanitized(
                name + seq![':'] + decimal(start as nat) + seq!['-'] + decimal(end as nat),
            )
            &&& start > end ==> text@ == sanitized(
                name + seq![':'] + decimal(end as nat) + seq!['-'] + decimal(start as nat),
            )
        }),
{
}

/// Lines and selections are copied from the displayed content.
pub proof fn content_is_copied_from_the_pane(
    state: Controller,
    start: usize,
    end: usize,
    lo: (usize, usize),
    hi: (usize, usize),
    text: String,
)
    ensures
        call_ensures(Controller::clip_text, (&state, &Clip::Lines { start, end }), text) ==> text@
            == state.pane.body.copied_lines(start as int, end as int),
        call_ensures(Controller::clip_text, (&state, &Clip::Selection { lo, hi }), text) ==> text@
            == state.pane.body.copied_chars(lo, hi),
        call_ensures(Controller::clip_text, (&state, &Clip::Dragged { lo, hi }), text) ==> text@
            == state.pane.body.copied_chars(lo, hi),
{
}

/// The user is told what was copied, or why it was not; nothing else of the session changes, except
/// that annotations which were to be discarded are given up once they are copied.
pub proof fn copies_are_reported(r: Run, clip: Clip, text: String, error: Option<String>)
    requires
        r.takes(r.from.copied_step(clip, text, error)),
    ensures
        error is None && (clip is Path || clip is Reference) ==> r.to.notice == Some(
            Notice::Copied(text),
        ),
        error is None && (clip is Selection || clip is Dragged) ==> r.to.notice == Some(
            Notice::SelectionCopied,
        ),
        (error is None && clip matches Clip::Lines { start, end }) ==> r.to.notice == Some(
            Notice::LinesCopied(clip->Lines_start, clip->Lines_end),
        ),
        error is None && clip is Annotations ==> (
        r.to.notice matches Some(Notice::AnnotationsCopied(n)) && (
        r.from.annotations.listed().len() <= usize::MAX ==> n == r.from.annotations.listed().len())),
        error is Some && clip is Path ==> r.to.notice == Some(Notice::PathNotCopied(error->0)),
        error is Some && clip is Reference ==> r.to.notice == Some(
            Notice::ReferenceNotCopied(error->0),
        ),
        error is Some && (clip is Selection || clip is Dragged) ==> r.to.notice == Some(
            Notice::SelectionNotCopied(error->0),
        ),
        error is Some && (clip is Annotations || clip is Discarded) ==> r.to.notice == Some(
            Notice::AnnotationsNotCopied(error->0),
        ),
        !(clip is Discarded) || error is Some ==> r.to == (Controller {
            notice: r.to.notice,
            ..r.from
        }) && r.after == r.before && !r.effects.quit,
        (error is None && clip is Discarded && r.from.modal == Modal::DiscardConfirm(
            DiscardAction::Quit,
        )) ==> r.effects.quit,
{
}

/// Once the editor ran, the screen is painted anew and the state read again; where it did not draw,
/// nothing is; a failure is told.
pub proof fn the_editor_leaves_traces(r: Run, outcome: EditorOutcome)
    requires
        r.takes(r.from.editor_returned_step(outcome)),
    ensures
        outcome is NoTakeover ==> !r.effects.clear && r.after == r.before && r.to == r.from,
        !(outcome is NoTakeover) ==> r.effects.clear && r.effects.redraw,
        outcome is TookOver || outcome is NonZeroExit ==> (r.from.repo.is_git_repo ==> r.after
            == r.before.push(Action::QueryGit(AfterGit::Render))),
        outcome matches EditorOutcome::NotLaunched(reason) ==> r.after == r.before && r.to.notice
            == Some(Notice::EditorNotLaunched(reason)),
        outcome matches EditorOutcome::NonZeroExit(detail) ==> r.to.notice == Some(
            Notice::EditorFailed(detail),
        ),
        !r.effects.quit,
{
}

/// A program that did not start, or failed, is told of: the file manager where the file was to be
/// shown in it, another program otherwise.
pub proof fn failed_programs_are_told_of(r: Run, reveal: bool, outcome: OpenerOutcome)
    requires
        r.takes(r.from.opener_returned_step(reveal, outcome)),
    ensures
        outcome is Launched ==> r.to.notice == r.from.notice,
        outcome matches OpenerOutcome::NotLaunched(reason) ==> r.to.notice == Some(
            if reveal {
                Notice::RevealNotLaunched(reason)
            } else {
                Notice::OpenerNotLaunched(reason)
            },
        ),
        outcome matches OpenerOutcome::NonZeroExit(detail) ==> r.to.notice == Some(
            if reveal {
                Notice::RevealFailed(detail)
            } else {
                Notice::OpenerFailed(detail)
            },
        ),
        r.after == r.before,
{
}

/// Another root is asked for with the filters that are preferred, and its status against the
/// baseline that is; annotations that are dropped with the old one are counted.
pub proof fn other_roots_are_built_as_preferred(r: Run, resolved: Resolved)
    requires
        Controller::rerooted(r, resolved),
        !r.from.host.zoomed,
    ensures
        r.to.repo.is_git_repo == resolved.is_git_repo,
        r.to.repo.branch == resolved.branch,
        r.to.repo.git_status is None && r.to.repo.changed is None,
        r.to.repo.status_pending == resolved.is_git_repo,
        r.to.pane.path is None,
        r.to.flash is None,
        resolved.is_git_repo ==> r.after.len() == r.before.len() + 2 && r.after.last()
            == Action::FetchStatus(r.from.prefs.baseline),
        !resolved.is_git_repo ==> r.after.len() == r.before.len() + 1,
        r.after[r.before.len() as int] matches Action::Rebuild {
            resolved: built,
            show_ignored,
            hide_hidden,
            filter,
        } && built == resolved && show_ignored == r.from.prefs.show_ignored && hide_hidden
            == r.from.prefs.hide_hidden && (resolved.is_git_repo ==> filter == Filter::Keep) && (
        !resolved.is_git_repo && !r.from.prefs.status_mode && !r.from.prefs.changed_only ==> filter
            == Filter::Everything),
        r.from.annotations.listed().len() == 0 ==> r.to.notice is None,
        r.from.annotations.listed().len() > 0 ==> r.to.notice == Some(
            Notice::AnnotationsCleared(r.from.annotations.listed().len() as usize),
        ),
{
}

/// A directory becomes the root unless it is none, is the root already, or annotations would be
/// lost unasked; what the user agreed to is looked at once more.
pub proof fn roots_are_switched_on_agreement(
    r: Run,
    target: FilePath,
    resolved: Resolved,
    is_dir: bool,
    same: bool,
)
    ensures
        Controller::switched(r, target, None, same) ==> r.to.notice == Some(
            Notice::CannotSwitch(target),
        ) && r.to.repo == r.from.repo && r.after == r.before,
        Controller::switched(r, target, Some(resolved), true) ==> r.to == r.from && r.after
            == r.before,
        Controller::switched(r, target, Some(resolved), false) && r.from.annotations.listed().len()
            == 0 ==> r.to.repo.root == resolved.root,
        Controller::switched(r, target, Some(resolved), false) && !r.from.prefs.confirm_discard
            ==> r.to.repo.root == resolved.root,
        Controller::switched(r, target, Some(resolved), false) && r.from.prefs.confirm_discard
            && r.from.annotations.listed().len() > 0 ==> r.to.modal == Modal::DiscardConfirm(
            DiscardAction::SwitchRoot(resolved),
        ) && r.to.repo == r.from.repo,
        Controller::rechecked(r, resolved, true, false) ==> r.to.repo.root == resolved.root,
        Controller::rechecked(r, resolved, true, true) || Controller::rechecked(
            r,
            resolved,
            false,
            same,
        ) ==> r.to.repo == r.from.repo && r.to.annotations == r.from.annotations && r.after
            == r.before,
        Controller::rechecked(r, resolved, false, same) ==> r.to.notice == Some(
            Notice::CannotSwitch(resolved.root),
        ),
{
}

/// The question about annotations is answered by its keys: `q` leaves and Enter switches, each only
/// where that was asked about, `y` copies first, and Esc stays.
pub proof fn answers_do_what_was_asked(state: Controller, key: Key)
    requires
        state.modal is DiscardConfirm,
        key.modifiers.at_most_shift(),
    ensures
        ({
            let step = state.discard_key_step(key);
            let quits = state.modal->DiscardConfirm_0 is Quit;
            &&& quits && key.code == KeyCode::Char('q') ==> step.effects.quit
            &&& quits && key.code != KeyCode::Char('q') ==> !step.effects.quit
            &&& !quits ==> !step.effects.quit
            &&& (state.modal matches Modal::DiscardConfirm(DiscardAction::SwitchRoot(resolved))
                && key.code == KeyCode::Enter) ==> step.actions == seq![
                Action::RecheckRoot((state.modal->DiscardConfirm_0)->SwitchRoot_0),
            ] && step.next.modal is Closed
            &&& (key.code == KeyCode::Char('y') || key.code == KeyCode::Char('Y'))
                && state.annotations.listed().len() > 0 ==> step.actions == seq![
                Action::Copy(Clip::Discarded),
            ] && step.next.modal == state.modal
            &&& key.code == KeyCode::Esc ==> step.next.modal is Closed && step.actions.len() == 0
                && step.next.annotations == state.annotations
        }),
{
}

/// A workspace and a terminal are asked for at the selected row, where there is a host to ask.
pub proof fn hosts_are_asked_at_the_selection(r: Run)
    requires
        r.from.tree.cursor < r.from.tree.nodes@.len(),
    ensures
        ({
            let node = r.from.tree.nodes@[r.from.tree.cursor as int];
            let place = Place { path: node.path, kind: node.kind };
            &&& r.takes(r.from.workspace_step()) && r.from.host.present ==> r.after
                == r.before.push(Action::Host(HostRequest::CreateWorkspace(place)))
            &&& r.takes(r.from.workspace_step()) && !r.from.host.present ==> r.to.notice == Some(
                Notice::WorkspaceUnavailable,
            ) && r.after == r.before
            &&& r.takes(r.from.pane_step()) && r.from.host.present ==> r.after == r.before.push(
                Action::Host(HostRequest::SplitPane(place)),
            )
            &&& r.takes(r.from.pane_step()) && !r.from.host.present ==> r.to.notice == Some(
                Notice::PaneUnavailable,
            ) && r.after == r.before
        }),
{
}

/// Opening a workspace goes from its creation to its panes, from these to the viewer, and from
/// there to the terminal's share, each at the same place; without the viewer it ends at once.
pub proof fn workspaces_open_step_by_step(
    state: Controller,
    place: Place,
    workspace: String,
    pane: String,
)
    ensures
        state.prefs.open_workspace_with_viewer ==> state.workspace_created_step(
            place,
            Ok(Some(workspace)),
        ).actions == seq![Action::Host(HostRequest::ListPanes { place, workspace })],
        !state.prefs.open_workspace_with_viewer ==> state.workspace_created_step(
            place,
            Ok(Some(workspace)),
        ).next.notice == Some(Notice::WorkspaceOpened(place)),
        state.panes_listed_step(place, Some(pane)).actions == seq![
            Action::Host(HostRequest::OpenViewer { place, pane }),
        ],
        state.panes_listed_step(place, None).next.notice == Some(
            Notice::WorkspaceWithoutTerminal(place),
        ),
        state.prefs.viewer_pane_ratio.share() != 500_000 ==> state.viewer_opened_step(
            place,
            pane,
            None,
        ).actions == seq![
            Action::Host(
                HostRequest::ResizeTerminal { place, pane, ratio: state.prefs.viewer_pane_ratio },
            ),
        ],
        state.prefs.viewer_pane_ratio.share() == 500_000 ==> state.viewer_opened_step(
            place,
            pane,
            None,
        ).next.notice == Some(Notice::WorkspaceWithViewer(place)),
        state.terminal_resized_step(place, None).next.notice == Some(
            Notice::WorkspaceWithViewer(place),
        ),
{
}

/// The host is asked about the directory of a row: the row itself, or the one that holds the file.
pub proof fn hosts_are_told_the_directory(path: FilePath, env: HostEnv)
    ensures
        ({
            let dir = Place { path, kind: NodeKind::Dir };
            let args = HostRequest::SplitPane(dir).arguments(env);
            args[args.len() - 2] == lossy_text(path@)
        }),
        ({
            let dir = Place { path, kind: NodeKind::Dir };
            HostRequest::CreateWorkspace(dir).arguments(env)[3] == lossy_text(path@)
        }),
        ({
            let file = Place { path, kind: NodeKind::File };
            crate::paths::parent_of(path@) matches Some(holder) ==> {
                &&& HostRequest::CreateWorkspace(file).arguments(env)[3] == lossy_text(holder)
                &&& HostRequest::SplitPane(file).arguments(env)[6] == lossy_text(holder)
            }
        }),
        HostRequest::Zoom(true).arguments(env).last() == "--on"@,
        HostRequest::Zoom(false).arguments(env).last() == "--off"@,
{
}

/// What was drawn is what the mouse is measured against afterwards, and the tree is scrolled as it
/// was drawn.
pub proof fn geometry_is_remembered(from: Controller, to: Controller, geom: PaneGeometry)
    requires
        from.measured(geom, to),
    ensures
        to.screen.geom == geom,
        geom.tree_inner is Some ==> to.nav.tree_scroll == geom.tree_scroll
            && !to.nav.tree_follow_selection,
        geom.tree_inner is None ==> to.nav == from.nav,
        to.tree == from.tree && to.prefs == from.prefs && to.pane == from.pane,
        to.modal is Finder <==> from.modal is Finder,
        to.modal is Help <==> from.modal is Help,
{
}

/// The tree scrolls sideways by a key only where it has the focus, and no further than its columns
/// reach.
pub proof fn the_tree_scrolls_sideways_within_its_columns(state: Controller, delta: int)
    requires
        state.screen.geom.tree_inner is Some,
    ensures
        state.nav.focus == Focus::Content ==> state.tree_hscroll_key_step(delta).next == state,
        ({
            let area = state.screen.geom.tree_inner->0;
            let next = state.tree_hscroll_key_step(delta).next.nav.tree_hscroll;
            let target = state.nav.tree_hscroll + delta;
            state.nav.focus == Focus::Tree ==> {
                &&& 0 <= target && target + area.width <= state.screen.geom.tree_content_width
                    ==> next == target
                &&& target < 0 ==> next == 0
                &&& target >= 0 && target + area.width > state.screen.geom.tree_content_width
                    >= area.width ==> next + area.width == state.screen.geom.tree_content_width
                &&& state.screen.geom.tree_content_width <= area.width ==> next == 0
            }
        }),
{
}

} // verus!
