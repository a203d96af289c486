//! What the actions bring back.

use super::actions::{
    run, Action, AfterGit, Clip, EditorOutcome, Effects, Filter, OpenTarget, OpenerOutcome, PathKind,
    Run, Step, Then, TreeOp,
};
use super::intents::{after, later};
use super::state::{
    Controller, Navigation, Notice, OpenRangeFlash, Pane, Preferences, Renders, Repo, Screen,
    TreeView, OPEN_RANGE_FLASH,
};
use crate::annotation::export;
use crate::git::StatusMap;
use crate::paths::{joined, lossy_text, relative, text_path, FilePath};
use crate::selection::{format_line_reference, line_reference, sanitize_control, sanitized};
use crate::view_policy::ViewMode;
use vstd::prelude::*;

verus! {

/// The bytes of an optional path.
pub open spec fn path_bytes(path: Option<FilePath>) -> Option<Seq<u8>> {
    match path {
        Some(p) => Some(p@),
        None => None,
    }
}

/// Tests whether two optional paths are the same.
fn same_path(a: &Option<FilePath>, b: &Option<FilePath>) -> (r: bool)
    ensures
        r == (path_bytes(*a) == path_bytes(*b)),
{
    match (a, b) {
        (Some(p), Some(q)) => p.same(q),
        (None, None) => true,
        _ => false,
    }
}

/// What follows the listing of the rows once git was asked.
pub open spec fn then_of(after: AfterGit) -> Then {
    match after {
        AfterGit::Render => Then::Render,
        AfterGit::RenderIfMoved(path) => Then::RenderIfMoved(path),
    }
}

impl Controller {
    /// The filter that is active: the tree lists what it names, or is left as it is.
    pub open spec fn active_filter(self) -> Filter {
        if self.prefs.status_mode {
            Filter::Status
        } else if self.prefs.changed_only {
            Filter::Changed
        } else {
            Filter::Keep
        }
    }

    /// What git said is known, and an active filter follows it.
    pub open spec fn informed(self, status: StatusMap, changed: StatusMap) -> Controller {
        Controller {
            repo: Repo { git_status: Some(status), changed: Some(changed), ..self.repo },
            nav: Navigation {
                tree_follow_selection: self.nav.tree_follow_selection || self.prefs.changed_only
                    || self.prefs.status_mode,
                ..self.nav
            },
            ..self
        }
    }

    /// The state was read while the user waited: a reading in the background is out of date.
    pub open spec fn settled(self) -> Controller {
        Controller { repo: Repo { status_pending: false, ..self.repo }, ..self }
    }

    /// The rows of the tree were marked and filtered.
    pub open spec fn marks(self, then: Then) -> Step {
        self.asks(Action::Tree { op: TreeOp::Mark(self.active_filter()), then })
    }

    /// Git was asked for the status, the changed files and the branch.
    pub open spec fn git_step(
        self,
        status: StatusMap,
        changed: StatusMap,
        branch: Option<String>,
        after: AfterGit,
    ) -> Step {
        let known = self.informed(status, changed).settled();
        Controller { repo: Repo { branch, ..known.repo }, ..known }.marks(then_of(after))
    }

    /// Git was asked for the files changed against another baseline.
    pub open spec fn changed_step(self, changed: StatusMap) -> Step {
        let known = Controller {
            repo: Repo { changed: Some(changed), status_pending: false, ..self.repo },
            ..self
        };
        if self.prefs.changed_only && !self.prefs.status_mode {
            known.follows().asks(
                Action::Tree { op: TreeOp::Filter(Filter::Changed), then: Then::Render },
            )
        } else {
            known.renders()
        }
    }

    /// The rows were listed.
    pub open spec fn lists(self, tree: TreeView) -> Controller {
        Controller { tree, ..self }
    }

    /// The rows were listed so that a file is among them, which may have relaxed the filters: the
    /// preferences follow the tree.
    pub open spec fn reveals(self, tree: TreeView) -> Controller {
        Controller {
            prefs: Preferences {
                changed_only: tree.changed_only && !self.prefs.status_mode,
                status_mode: tree.changed_only && self.prefs.status_mode,
                hide_hidden: tree.hide_hidden,
                show_ignored: tree.show_ignored,
                ..self.prefs
            },
            tree,
            ..self
        }.follows()
    }

    /// The content fills the frame if it is not visible otherwise.
    pub open spec fn visible(self) -> Controller {
        if self.screen.content_width == 0 {
            self.zooms()
        } else {
            self
        }
    }

    /// The content jumps to a line once the latest render is displayed.
    pub open spec fn jumps(self, line: Option<usize>) -> Controller {
        match line {
            Some(n) => Controller {
                pane: Pane {
                    renders: Renders {
                        goto: Some((self.pane.renders.latest, n)),
                        ..self.pane.renders
                    },
                    ..self.pane
                },
                ..self
            },
            None => self,
        }
    }

    /// A range of lines is highlighted for a while.
    pub open spec fn highlights(self, target: OpenTarget, now: u64) -> Controller {
        match (target.line, target.end_line) {
            (Some(a), Some(b)) => Controller {
                pane: Pane {
                    range_flash: Some(
                        OpenRangeFlash {
                            start: if a <= b {
                                a
                            } else {
                                b
                            },
                            end: if a <= b {
                                b
                            } else {
                                a
                            },
                            deadline: later(now, OPEN_RANGE_FLASH),
                        },
                    ),
                    ..self.pane
                },
                ..self
            },
            _ => self,
        }
    }

    /// What the launch command asked for is shown.
    pub open spec fn launched(r: Run, tree: TreeView, target: OpenTarget, now: u64) -> bool {
        let shown = r.from.reveals(tree);
        let ready = Controller {
            screen: Screen { pending_open_zoom: true, ..shown.screen },
            notice: Some(
                Notice::Opened {
                    path: target.path,
                    line: target.line,
                    end_line: target.end_line,
                },
            ),
            ..shown
        };
        let switch = target.line is Some && ready.file_selected() && ready.selected_mode() != Some(
            ViewMode::SyntaxContent,
        );
        let chosen = Controller { overrides: r.to.overrides, ..ready };
        &&& if switch {
            r.to.overrides@ == r.from.overrides@.insert(
                ready.selected()->0.path@,
                ViewMode::SyntaxContent,
            )
        } else {
            r.to.overrides == r.from.overrides
        }
        &&& r.takes(
            Step {
                next: chosen.refreshed().jumps(target.line).highlights(target, now),
                ..chosen.renders()
            },
        )
    }

    /// The rows were listed anew, and what was to follow happened. `revealed` tells whether the
    /// file that was asked for is among them.
    pub open spec fn listed(r: Run, tree: TreeView, then: Then, revealed: bool, now: u64) -> bool {
        let from = r.from.lists(tree);
        match then {
            Then::Nothing => r.takes(from.shows()),
            Then::Render => r.takes(from.renders()),
            Then::RenderIfMoved(before) => r.takes(
                if path_bytes(from.selected_path()) == path_bytes(before) {
                    from.shows()
                } else {
                    from.follows().renders()
                },
            ),
            Then::Found(name) => r.takes(
                if revealed {
                    r.from.reveals(tree).visible().renders()
                } else {
                    from.tells(Notice::CannotOpen(name))
                },
            ),
            Then::Hit { name, line } => if revealed {
                let chosen = Controller { overrides: r.to.overrides, ..r.from.reveals(tree) };
                &&& r.to.overrides@ == r.from.overrides@.insert(
                    joined(r.from.repo.root@, text_path(name@)),
                    ViewMode::SyntaxContent,
                )
                &&& r.takes(
                    Step {
                        next: chosen.refreshed().jumps(Some(line)).visible(),
                        ..chosen.renders()
                    },
                )
            } else {
                r.takes(from.tells(Notice::CannotOpen(name)))
            },
            Then::Launched(target) => if revealed {
                Self::launched(r, tree, target, now)
            } else {
                r.takes(from.tells(Notice::CannotOpen(target.path)))
            },
        }
    }

    /// The text of a path as it goes to the clipboard: seen from the root where it lies below it.
    pub open spec fn shown_path(self, path: Seq<u8>, kind: PathKind) -> Seq<char> {
        match (kind, relative(path, self.repo.root@)) {
            (PathKind::Repo, Some(rel)) => lossy_text(rel),
            _ => lossy_text(path),
        }
    }

    /// The text that goes to the clipboard.
    pub open spec fn clip_chars(self, clip: Clip) -> Seq<char> {
        match clip {
            Clip::Path { path, kind } => sanitized(self.shown_path(path@, kind)),
            Clip::Reference { path, start, end } => sanitized(
                line_reference(
                    self.shown_path(path@, PathKind::Repo),
                    start as int,
                    end as int,
                ),
            ),
            Clip::Lines { start, end } => self.pane.body.copied_lines(start as int, end as int),
            Clip::Selection { lo, hi } | Clip::Dragged { lo, hi } => self.pane.body.copied_chars(
                lo,
                hi,
            ),
            Clip::Annotations | Clip::Discarded => export(self.annotations.listed()),
        }
    }

    /// The notice about something that went to the clipboard.
    pub open spec fn copied_notice(self, clip: Clip, text: String) -> Notice {
        match clip {
            Clip::Path { .. } | Clip::Reference { .. } => Notice::Copied(text),
            Clip::Lines { start, end } => Notice::LinesCopied(start, end),
            Clip::Selection { .. } | Clip::Dragged { .. } => Notice::SelectionCopied,
            Clip::Annotations | Clip::Discarded => Notice::AnnotationsCopied(
                self.annotations.listed().len() as usize,
            ),
        }
    }

    /// The notice about something that did not go to the clipboard.
    pub open spec fn not_copied_notice(clip: Clip, error: String) -> Notice {
        match clip {
            Clip::Path { .. } => Notice::PathNotCopied(error),
            Clip::Reference { .. } => Notice::ReferenceNotCopied(error),
            Clip::Lines { start, end } => Notice::LinesNotCopied(start, end, error),
            Clip::Selection { .. } | Clip::Dragged { .. } => Notice::SelectionNotCopied(error),
            Clip::Annotations | Clip::Discarded => Notice::AnnotationsNotCopied(error),
        }
    }

    /// The clipboard was written, or not. Annotations that were to be discarded are, once they are
    /// on the clipboard, and stay where they were otherwise.
    pub open spec fn copied_step(self, clip: Clip, text: String, error: Option<String>) -> Step {
        match error {
            Some(message) => self.tells(Self::not_copied_notice(clip, message)),
            None => {
                let told = Controller { notice: Some(self.copied_notice(clip, text)), ..self };
                if clip is Discarded {
                    told.proceeds()
                } else {
                    told.shows()
                }
            },
        }
    }

    /// The editor returned. Where it ran, the file may have changed and the screen has.
    pub open spec fn editor_returned_step(self, outcome: EditorOutcome) -> Step {
        match outcome {
            EditorOutcome::TookOver => Step { effects: Effects::wipe(), ..self.refresh_step() },
            EditorOutcome::NoTakeover => self.shows(),
            EditorOutcome::NotLaunched(reason) => Step {
                effects: Effects::wipe(),
                ..self.tells(Notice::EditorNotLaunched(reason))
            },
            EditorOutcome::NonZeroExit(detail) => Step {
                effects: Effects::wipe(),
                ..Controller { notice: Some(Notice::EditorFailed(detail)), ..self }.refresh_step()
            },
        }
    }

    /// The program that a file was handed to was started, or not.
    pub open spec fn opener_returned_step(self, reveal: bool, outcome: OpenerOutcome) -> Step {
        match outcome {
            OpenerOutcome::Launched => self.shows(),
            OpenerOutcome::NotLaunched(reason) => self.tells(
                if reveal {
                    Notice::RevealNotLaunched(reason)
                } else {
                    Notice::OpenerNotLaunched(reason)
                },
            ),
            OpenerOutcome::NonZeroExit(detail) => self.tells(
                if reveal {
                    Notice::RevealFailed(detail)
                } else {
                    Notice::OpenerFailed(detail)
                },
            ),
        }
    }

    /// The launch command asked for a file: `place` is where it lies, if that is below the root.
    pub open spec fn open_target_step(self, target: OpenTarget, place: Option<FilePath>) -> Step {
        match place {
            None => self.tells(Notice::OutsideRoot(target.path)),
            Some(path) => self.asks(
                Action::Tree { op: TreeOp::Reveal(path), then: Then::Launched(target) },
            ),
        }
    }

    /// Takes over what git said.
    pub fn apply_git_state(&mut self, status: StatusMap, changed: StatusMap)
        ensures
            *final(self) == old(self).informed(status, changed),
    {
        self.repo.git_status = Some(status);
        self.repo.changed = Some(changed);
        if self.prefs.changed_only || self.prefs.status_mode {
            self.follow();
        }
    }

    /// The filter that is active.
    pub fn filter(&self) -> (r: Filter)
        ensures
            r == self.active_filter(),
    {
        if self.prefs.status_mode {
            Filter::Status
        } else if self.prefs.changed_only {
            Filter::Changed
        } else {
            Filter::Keep
        }
    }

    /// Git was asked for the status, the changed files and the branch.
    pub fn git_refreshed(
        &mut self,
        status: StatusMap,
        changed: StatusMap,
        branch: Option<String>,
        after: AfterGit,
        out: &mut Vec<Action>,
    ) -> (r: Effects)
        ensures
            run(*old(self), *final(self), r, old(out)@, final(out)@).takes(
                old(self).git_step(status, changed, branch, after),
            ),
    {
        self.apply_git_state(status, changed);
        self.repo.status_pending = false;
        self.repo.branch = branch;
        let then = match after {
            AfterGit::Render => Then::Render,
            AfterGit::RenderIfMoved(path) => Then::RenderIfMoved(path),
        };
        out.push(Action::Tree { op: TreeOp::Mark(self.filter()), then });
        Effects::redraw()
    }

    /// Git was asked for the files changed against another baseline.
    pub fn changed_refreshed(&mut self, changed: StatusMap, out: &mut Vec<Action>) -> (r: Effects)
        ensures
            run(*old(self), *final(self), r, old(out)@, final(out)@).takes(
                old(self).changed_step(changed),
            ),
    {
        self.repo.changed = Some(changed);
        self.repo.status_pending = false;
        if self.prefs.changed_only && !self.prefs.status_mode {
            self.follow();
            out.push(Action::Tree { op: TreeOp::Filter(Filter::Changed), then: Then::Render });
        } else {
            self.dispatch_render(out);
        }
        Effects::redraw()
    }

    /// Takes over rows among which a file is shown, and the filters that they were listed under.
    fn take_revealed(&mut self, tree: TreeView)
        ensures
            *final(self) == old(self).reveals(tree),
    {
        self.prefs = Preferences {
            changed_only: tree.changed_only && !self.prefs.status_mode,
            status_mode: tree.changed_only && self.prefs.status_mode,
            hide_hidden: tree.hide_hidden,
            show_ignored: tree.show_ignored,
            ..self.prefs
        };
        self.tree = tree;
        self.follow();
    }

    /// Shows the content in the whole frame if it is not visible otherwise.
    pub fn make_visible(&mut self)
        ensures
            *final(self) == old(self).visible(),
    {
        if self.screen.content_width == 0 {
            self.zoom_in();
        }
    }

    /// Jumps to a line once the latest render is displayed.
    pub fn queue_goto(&mut self, line: Option<usize>)
        ensures
            *final(self) == old(self).jumps(line),
    {
        if let Some(n) = line {
            self.pane.renders.goto = Some((self.pane.renders.latest, n));
        }
    }

    /// Shows what the launch command asked for.
    fn launch(&mut self, tree: TreeView, target: OpenTarget, now: u64, out: &mut Vec<Action>)
        ensures
            Self::launched(
                run(*old(self), *final(self), Effects::repaint(), old(out)@, final(out)@),
                tree,
                target,
                now,
            ),
    {
        self.take_revealed(tree);
        self.screen.pending_open_zoom = true;
        let OpenTarget { path: name, line, end_line } = target;
        self.notice = Some(Notice::Opened { path: name, line, end_line });
        if line.is_some() {
            if self.selected_view_mode() != Some(ViewMode::SyntaxContent) {
                if let Some(path) = self.selected_file() {
                    self.overrides.insert(path, ViewMode::SyntaxContent);
                }
            }
        }
        self.dispatch_render(out);
        self.queue_goto(line);
        if let Some(a) = line {
            if let Some(b) = end_line {
                let (start, end): (usize, usize) = if a <= b {
                    (a, b)
                } else {
                    (b, a)
                };
                let deadline: u64 = after(now, OPEN_RANGE_FLASH);
                self.pane.range_flash = Some(OpenRangeFlash { start, end, deadline });
            }
        }
    }

    /// The rows were listed anew.
    pub fn tree_listed(
        &mut self,
        tree: TreeView,
        then: Then,
        revealed: bool,
        now: u64,
        out: &mut Vec<Action>,
    ) -> (r: Effects)
        ensures
            Self::listed(
                run(*old(self), *final(self), r, old(out)@, final(out)@),
                tree,
                then,
                revealed,
                now,
            ),
    {
        match then {
            Then::Nothing => {
                self.tree = tree;
            },
            Then::Render => {
                self.tree = tree;
                self.dispatch_render(out);
            },
            Then::RenderIfMoved(before) => {
                self.tree = tree;
                if !same_path(&self.path_of_selection(), &before) {
                    self.follow();
                    self.dispatch_render(out);
                }
            },
            Then::Found(name) => {
                if revealed {
                    self.take_revealed(tree);
                    self.make_visible();
                    self.dispatch_render(out);
                } else {
                    self.tree = tree;
                    self.notice = Some(Notice::CannotOpen(name));
                }
            },
            Then::Hit { name, line } => {
                if revealed {
                    self.take_revealed(tree);
                    let path = self.repo.root.join(&FilePath::of_text(name.as_str()));
                    self.overrides.insert(path, ViewMode::SyntaxContent);
                    self.dispatch_render(out);
                    self.queue_goto(Some(line));
                    self.make_visible();
                } else {
                    self.tree = tree;
                    self.notice = Some(Notice::CannotOpen(name));
                }
            },
            Then::Launched(target) => {
                if revealed {
                    self.launch(tree, target, now, out);
                } else {
                    self.tree = tree;
                    self.notice = Some(Notice::CannotOpen(target.path));
                }
            },
        }
        Effects::redraw()
    }

    /// A path as it goes to the clipboard.
    fn path_text(&self, path: &FilePath, kind: PathKind) -> (r: String)
        ensures
            r@ == self.shown_path(path@, kind),
    {
        match kind {
            PathKind::Repo => match self.rel(path) {
                Some(rel) => rel.text(),
                None => path.text(),
            },
            PathKind::Absolute => path.text(),
        }
    }

    /// The text that goes to the clipboard.
    pub fn clip_text(&self, clip: &Clip) -> (r: String)
        ensures
            r@ == self.clip_chars(*clip),
    {
        match clip {
            Clip::Path { path, kind } => sanitize_control(self.path_text(path, *kind).as_str()),
            Clip::Reference { path, start, end } => {
                let name = self.path_text(path, PathKind::Repo);
                sanitize_control(format_line_reference(name.as_str(), *start, *end).as_str())
            },
            Clip::Lines { start, end } => self.pane.body.selected_lines_text(*start, *end),
            Clip::Selection { lo, hi } => self.pane.body.char_selection_text(*lo, *hi),
            Clip::Dragged { lo, hi } => self.pane.body.char_selection_text(*lo, *hi),
            Clip::Annotations => self.annotations.canonical_text(),
            Clip::Discarded => self.annotations.canonical_text(),
        }
    }

    /// The clipboard was written with `text`, or not, and why.
    pub fn copied(
        &mut self,
        clip: Clip,
        text: String,
        error: Option<String>,
        out: &mut Vec<Action>,
    ) -> (r: Effects)
        ensures
            run(*old(self), *final(self), r, old(out)@, final(out)@).takes(
                old(self).copied_step(clip, text, error),
            ),
    {
        let count: usize = self.annotations.len();
        match error {
            Some(message) => {
                self.notice = Some(
                    match clip {
                        Clip::Path { .. } => Notice::PathNotCopied(message),
                        Clip::Reference { .. } => Notice::ReferenceNotCopied(message),
                        Clip::Lines { start, end } => Notice::LinesNotCopied(start, end, message),
                        Clip::Selection { .. } => Notice::SelectionNotCopied(message),
                        Clip::Dragged { .. } => Notice::SelectionNotCopied(message),
                        Clip::Annotations => Notice::AnnotationsNotCopied(message),
                        Clip::Discarded => Notice::AnnotationsNotCopied(message),
                    },
                );
                Effects::redraw()
            },
            None => {
                let discard = match clip {
                    Clip::Discarded => true,
                    _ => false,
                };
                self.notice = Some(
                    match clip {
                        Clip::Path { .. } => Notice::Copied(text),
                        Clip::Reference { .. } => Notice::Copied(text),
                        Clip::Lines { start, end } => Notice::LinesCopied(start, end),
                        Clip::Selection { .. } => Notice::SelectionCopied,
                        Clip::Dragged { .. } => Notice::SelectionCopied,
                        Clip::Annotations => Notice::AnnotationsCopied(count),
                        Clip::Discarded => Notice::AnnotationsCopied(count),
                    },
                );
                if discard {
                    self.proceed(out)
                } else {
                    Effects::redraw()
                }
            },
        }
    }

    /// The editor returned.
    pub fn editor_returned(&mut self, outcome: EditorOutcome, out: &mut Vec<Action>) -> (r: Effects)
        ensures
            run(*old(self), *final(self), r, old(out)@, final(out)@).takes(
                old(self).editor_returned_step(outcome),
            ),
    {
        match outcome {
            EditorOutcome::TookOver => {
                let _ = self.refresh(out);
                Effects::clear()
            },
            EditorOutcome::NoTakeover => Effects::redraw(),
            EditorOutcome::NotLaunched(reason) => {
                self.notice = Some(Notice::EditorNotLaunched(reason));
                Effects::clear()
            },
            EditorOutcome::NonZeroExit(detail) => {
                self.notice = Some(Notice::EditorFailed(detail));
                let _ = self.refresh(out);
                Effects::clear()
            },
        }
    }

    /// The program that a file was handed to was started, or not.
    pub fn opener_returned(
        &mut self,
        reveal: bool,
        outcome: OpenerOutcome,
        out: &mut Vec<Action>,
    ) -> (r: Effects)
        ensures
            run(*old(self), *final(self), r, old(out)@, final(out)@).takes(
                old(self).opener_returned_step(reveal, outcome),
            ),
    {
        match outcome {
            OpenerOutcome::Launched => {},
            OpenerOutcome::NotLaunched(reason) => {
                self.notice = Some(
                    if reveal {
                        Notice::RevealNotLaunched(reason)
                    } else {
                        Notice::OpenerNotLaunched(reason)
                    },
                );
            },
            OpenerOutcome::NonZeroExit(detail) => {
                self.notice = Some(
                    if reveal {
                        Notice::RevealFailed(detail)
                    } else {
                        Notice::OpenerFailed(detail)
                    },
                );
            },
        }
        Effects::redraw()
    }

    /// Shows what the launch command asked for, if it lies below the root.
    pub fn apply_open_target(
        &mut self,
        target: OpenTarget,
        place: Option<FilePath>,
        out: &mut Vec<Action>,
    ) -> (r: Effects)
        ensures
            run(*old(self), *final(self), r, old(out)@, final(out)@).takes(
                old(self).open_target_step(target, place),
            ),
    {
        match place {
            None => {
                self.notice = Some(Notice::OutsideRoot(target.path));
            },
            Some(path) => {
                out.push(Action::Tree { op: TreeOp::Reveal(path), then: Then::Launched(target) });
            },
        }
        Effects::redraw()
    }
}

/// Annotations survive a copy that failed, and the question about them stays open.
pub proof fn failed_copies_discard_nothing(state: Controller, text: String, error: String)
    ensures
        state.copied_step(Clip::Discarded, text, Some(error)).next.annotations
            == state.annotations,
        state.copied_step(Clip::Discarded, text, Some(error)).next.modal == state.modal,
        !state.copied_step(Clip::Discarded, text, Some(error)).effects.quit,
{
}

/// Nothing but the text of lines, which keeps tabs and line ends, and of annotations brings a
/// control character to the clipboard.
pub proof fn copied_paths_have_no_control_characters(state: Controller, clip: Clip, i: int)
    requires
        clip is Path || clip is Reference,
        0 <= i < state.clip_chars(clip).len(),
    ensures
        !crate::text::control(state.clip_chars(clip)[i]),
{
    match clip {
        Clip::Path { path, kind } => {
            crate::selection::sanitized_text_has_no_control_characters(
                state.shown_path(path@, kind),
                i,
            );
        },
        Clip::Reference { path, start, end } => {
            crate::selection::sanitized_text_has_no_control_characters(
                line_reference(state.shown_path(path@, PathKind::Repo), start as int, end as int),
                i,
            );
        },
        _ => {},
    }
}

/// A file that was revealed leaves the two filters exclusive, in step with the tree.
pub proof fn revealed_files_keep_the_filters_in_step(state: Controller, tree: TreeView)
    ensures
        ({
            let p = state.reveals(tree).prefs;
            &&& !(p.changed_only && p.status_mode)
            &&& (p.changed_only || p.status_mode) == tree.changed_only
            &&& p.hide_hidden == tree.hide_hidden
            &&& p.show_ignored == tree.show_ignored
        }),
{
}

} // verus!
