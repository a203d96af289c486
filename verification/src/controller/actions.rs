//! What the run loop does for the controller.

use super::state::{Controller, NodeKind, Resolved, SearchHit};
use crate::config::ViewerPaneRatio;
use crate::git::Baseline;
use crate::paths::{joined, text_path, FilePath};
use crate::view_policy::{DiffRenderMode, ViewMode};
use vstd::prelude::*;

verus! {

/// What the run loop does with the screen after an event.
#[derive(Debug, Clone, Copy, PartialEq, Eq, Structural)]
pub struct Effects {
    /// Repaint the frame.
    pub redraw: bool,
    /// Leave.
    pub quit: bool,
    /// Clear the screen before repainting, because another program drew on it.
    pub clear: bool,
}

impl Effects {
    /// Repaint.
    pub open spec fn repaint() -> Self {
        Effects { redraw: true, quit: false, clear: false }
    }

    /// Do nothing.
    pub open spec fn none() -> Self {
        Effects { redraw: false, quit: false, clear: false }
    }

    /// Leave.
    pub open spec fn leave() -> Self {
        Effects { redraw: false, quit: true, clear: false }
    }

    /// Clear and repaint.
    pub open spec fn wipe() -> Self {
        Effects { redraw: true, quit: false, clear: true }
    }

    /// Repaint.
    pub fn redraw() -> (r: Self)
        ensures
            r == Self::repaint(),
    {
        Effects { redraw: true, quit: false, clear: false }
    }

    /// Do nothing.
    pub fn noop() -> (r: Self)
        ensures
            r == Self::none(),
    {
        Effects { redraw: false, quit: false, clear: false }
    }

    /// Leave.
    pub fn quit() -> (r: Self)
        ensures
            r == Self::leave(),
    {
        Effects { redraw: false, quit: true, clear: false }
    }

    /// Clear and repaint.
    pub fn clear() -> (r: Self)
        ensures
            r == Self::wipe(),
    {
        Effects { redraw: true, quit: false, clear: true }
    }
}

impl Default for Effects {
    fn default() -> (r: Self)
        ensures
            r == Self::none(),
    {
        Effects::noop()
    }
}

/// A render for the worker. The worker reads the diff itself, so that nothing slow happens where
/// the keys are handled.
#[derive(Debug)]
pub struct RenderJob {
    pub seq: u64,
    pub root: FilePath,
    pub path: FilePath,
    pub mode: ViewMode,
    pub baseline: Baseline,
    pub is_git: bool,
    /// The diff covers everything below the path.
    pub directory_diff: bool,
    /// The width that prose is wrapped to.
    pub wrap_width: Option<u16>,
    /// The width of the pane.
    pub pane_width: Option<u16>,
    pub diff_render_mode: DiffRenderMode,
}

/// Which files the tree lists.
#[derive(Debug, Clone, Copy, PartialEq, Eq, Structural)]
pub enum Filter {
    /// As before.
    Keep,
    /// Every file.
    Everything,
    /// The files changed against the baseline.
    Changed,
    /// The files that differ in the working tree.
    Status,
}

/// A change of the tree that lists its rows anew.
#[derive(Debug)]
pub enum TreeOp {
    Expand(FilePath),
    Collapse(FilePath),
    CollapseAll,
    ShowIgnored(bool),
    HideHidden(bool),
    Filter(Filter),
    /// Mark the rows with the working tree's status, then filter them.
    Mark(Filter),
    /// Open the directories above a file and select it, relaxing filters that hide it.
    Reveal(FilePath),
    /// The same for a file that is named as seen from a root.
    RevealNamed { root: FilePath, name: String },
}

impl TreeOp {
    /// The file that is revealed.
    pub open spec fn revealed(self) -> Option<Seq<u8>> {
        match self {
            TreeOp::Reveal(path) => Some(path@),
            TreeOp::RevealNamed { root, name } => Some(joined(root@, text_path(name@))),
            _ => None,
        }
    }

    /// The file that is revealed.
    pub fn target(&self) -> (r: Option<FilePath>)
        ensures
            r is Some <==> self.revealed() is Some,
            r matches Some(path) ==> Some(path@) == self.revealed(),
    {
        match self {
            TreeOp::Reveal(path) => Some(path.clone()),
            TreeOp::RevealNamed { root, name } => Some(
                root.join(&FilePath::of_text(name.as_str())),
            ),
            _ => None,
        }
    }
}

/// What the launch command asked to open.
#[derive(Debug)]
pub struct OpenTarget {
    /// The path as it was written.
    pub path: String,
    pub line: Option<usize>,
    pub end_line: Option<usize>,
}

/// What follows once the tree's rows are listed anew.
#[derive(Debug)]
pub enum Then {
    Nothing,
    /// Render the selected file.
    Render,
    /// Render the selected file if it is not the one that was selected before.
    RenderIfMoved(Option<FilePath>),
    /// Show the file that the finder found.
    Found(String),
    /// Show the line that the full-text search found.
    Hit { name: String, line: usize },
    /// Show what the launch command asked for.
    Launched(OpenTarget),
}

/// What follows once git has been asked.
#[derive(Debug)]
pub enum AfterGit {
    Render,
    RenderIfMoved(Option<FilePath>),
}

/// A row of the tree.
#[derive(Debug)]
pub struct Place {
    pub path: FilePath,
    pub kind: NodeKind,
}

/// A request to the host.
#[derive(Debug)]
pub enum HostRequest {
    /// Put the viewer's pane into full screen, or take it out.
    Zoom(bool),
    CreateWorkspace(Place),
    /// List the panes of a new workspace.
    ListPanes { place: Place, workspace: String },
    /// Open the viewer beside the first terminal of a new workspace.
    OpenViewer { place: Place, pane: String },
    /// Give that terminal its share of the width.
    ResizeTerminal { place: Place, pane: String, ratio: ViewerPaneRatio },
    /// Open a terminal below the viewer.
    SplitPane(Place),
}

/// Which form of a path is copied.
#[derive(Debug, Clone, Copy, PartialEq, Eq, Structural)]
pub enum PathKind {
    Repo,
    Absolute,
}

/// What goes to the clipboard.
#[derive(Debug)]
pub enum Clip {
    Path { path: FilePath, kind: PathKind },
    Reference { path: FilePath, start: usize, end: usize },
    Lines { start: usize, end: usize },
    /// The characters between two carets.
    Selection { lo: (usize, usize), hi: (usize, usize) },
    /// The same, dragged outside line selection.
    Dragged { lo: (usize, usize), hi: (usize, usize) },
    Annotations,
    /// The annotations, before they are discarded.
    Discarded,
}

/// What the run loop does, in order.
#[derive(Debug)]
pub enum Action {
    /// Hand a render to the worker.
    Render(RenderJob),
    /// Change the tree and list its rows.
    Tree { op: TreeOp, then: Then },
    /// Read the status, the changed files and the branch.
    QueryGit(AfterGit),
    /// Read the files changed against a baseline.
    QueryChanged(Baseline),
    /// Read the status and the changed files in the background.
    FetchStatus(Baseline),
    /// Build the tree, the worker and the git access of another root, with these filters.
    Rebuild { resolved: Resolved, show_ignored: bool, hide_hidden: bool, filter: Filter },
    /// Look at a directory that is to become the root.
    ResolveRoot(FilePath),
    /// Look once more at a directory that is to become the root.
    RecheckRoot(Resolved),
    Host(HostRequest),
    Copy(Clip),
    /// Hand a file to the editor.
    Edit(FilePath),
    /// Hand a file to another program, or show it in the file manager.
    Open { path: FilePath, reveal: bool },
    /// List the files below the root for the finder, which narrows to a place.
    IndexFiles(Place),
    ListWorktrees,
    PrepareHelp,
    /// Find a text in the displayed lines, as it is typed.
    FindMatches,
    /// Find the committed text again in lines that were laid out anew.
    FindAgain,
    /// Search the files of a scope for the text of the overlay.
    SearchText { seq: u64, scope: FilePath },
    CancelSearch,
}

/// A finished piece of background work.
#[derive(Debug)]
pub enum Arrival {
    Render { seq: u64, result: super::state::RenderResult },
    Status { status: crate::git::StatusMap, changed: crate::git::StatusMap },
    StatusLost,
    Update(Option<String>),
    UpdateLost,
    Search { seq: u64, outcome: SearchOutcome },
    SearchLost { seq: u64 },
}

/// How a full-text search ended.
#[derive(Debug)]
pub enum SearchOutcome {
    Found { matches: Vec<SearchHit>, limited: bool },
    Interrupted,
    Failed,
}

/// How handing a file to the editor ended.
#[derive(Debug)]
pub enum EditorOutcome {
    /// The editor ran and drew over the terminal.
    TookOver,
    /// Nothing was drawn.
    NoTakeover,
    /// The editor did not start, and why.
    NotLaunched(String),
    /// The editor ran and ended with a failure status.
    NonZeroExit(String),
}

/// How handing a file to another program ended.
#[derive(Debug)]
pub enum OpenerOutcome {
    Launched,
    NotLaunched(String),
    NonZeroExit(String),
}

/// A step of the controller: the state it leads to, what the run loop does with the screen, and
/// the actions it asks for.
pub struct Step {
    pub next: Controller,
    pub effects: Effects,
    pub actions: Seq<Action>,
}

/// A step that a handler took: the state before and after it, what it returned, and the actions
/// that were asked for before and after it.
pub struct Run {
    pub from: Controller,
    pub to: Controller,
    pub effects: Effects,
    pub before: Seq<Action>,
    pub after: Seq<Action>,
}

impl Run {
    /// The handler took this step.
    pub open spec fn takes(self, step: Step) -> bool {
        &&& self.to == step.next
        &&& self.effects == step.effects
        &&& self.after =~= self.before + step.actions
    }
}

/// The step that a handler took.
pub open spec fn run(
    from: Controller,
    to: Controller,
    effects: Effects,
    before: Seq<Action>,
    after: Seq<Action>,
) -> Run {
    Run { from, to, effects, before, after }
}

impl Controller {
    /// Nothing happens but what led to this state.
    pub open spec fn quiet(self) -> Step {
        Step { next: self, effects: Effects::none(), actions: Seq::empty() }
    }

    /// This state is shown.
    pub open spec fn shows(self) -> Step {
        Step { next: self, effects: Effects::repaint(), actions: Seq::empty() }
    }

    /// This state is shown, and an action asked for.
    pub open spec fn asks(self, action: Action) -> Step {
        Step { next: self, effects: Effects::repaint(), actions: seq![action] }
    }

    /// The selection of this state is rendered.
    pub open spec fn renders(self) -> Step {
        Step {
            next: self.refreshed(),
            effects: Effects::repaint(),
            actions: self.refresh_actions(),
        }
    }

    /// This state is shown with a notice.
    pub open spec fn tells(self, notice: super::state::Notice) -> Step {
        Controller { notice: Some(notice), ..self }.shows()
    }
}

} // verus!
