//! The parts of the session's state.

use super::actions::Place;
use crate::annotation::{AnnotationStore, AnnotationTarget};
use crate::config::{TreeIcons, TreePosition, ViewerPaneRatio};
use crate::finder::FinderState;
use crate::git::{Baseline, StatusMap};
use crate::input::{Intent, Rect};
use crate::paths::FilePath;
use crate::pointer::Click;
use crate::prompt::PromptInput;
use crate::selection::LineSelectState;
use crate::view_policy::{DiffRenderMode, ViewMode};
use vstd::prelude::*;

verus! {

/// How many percentage points one resize key moves the divider.
pub const SPLIT_STEP: u16 = 5;

/// The lowest share of the tree that a resize reaches before anything has been drawn.
pub const SPLIT_DRAG_MIN: u16 = 10;

/// How many columns one horizontal-scroll key moves a pane.
pub const HSCROLL_STEP: u16 = 8;

/// How long a hint stays at full brightness, in milliseconds.
pub const FLASH_FULL: u64 = 1600;

/// How long a hint stays dimmed after that, in milliseconds.
pub const FLASH_DIM: u64 = 700;

/// How long the range that the viewer was launched on stays highlighted, in milliseconds.
pub const OPEN_RANGE_FLASH: u64 = 1000;

/// The pane that the keys go to.
#[derive(Debug, Clone, Copy, PartialEq, Eq, Structural)]
pub enum Focus {
    Tree,
    Content,
}

/// What a row of the tree stands for.
#[derive(Debug, Clone, Copy, PartialEq, Eq, Structural)]
pub enum NodeKind {
    Dir,
    File,
}

/// A visible row of the tree.
#[derive(Debug)]
pub struct TreeNode {
    pub path: FilePath,
    pub kind: NodeKind,
    pub expanded: bool,
}

/// The visible rows of the tree, the selected one, and the filters they were listed under.
#[derive(Debug)]
pub struct TreeView {
    pub nodes: Vec<TreeNode>,
    pub cursor: usize,
    pub changed_only: bool,
    pub hide_hidden: bool,
    pub show_ignored: bool,
}

/// What the user prefers, kept when another root is opened.
#[derive(Debug, Clone, Copy)]
pub struct Preferences {
    pub show_ignored: bool,
    pub hide_hidden: bool,
    /// The tree lists the files changed against the baseline.
    pub changed_only: bool,
    /// The tree lists the files that differ in the working tree, and content shows their diffs.
    pub status_mode: bool,
    pub baseline: Baseline,
    pub diff_render_mode: DiffRenderMode,
    /// The tree's share of the width, in percent.
    pub split_pct: u16,
    /// The split was changed by hand, which lifts the limit on the tree's columns.
    pub split_manual: bool,
    pub tree_position: TreePosition,
    pub tree_max_cols: u16,
    pub tree_icons: TreeIcons,
    /// Wrapping forced on or off; otherwise each view has its own default.
    pub wrap_override: Option<bool>,
    /// The close keys do not quit.
    pub pinned: bool,
    /// Discarding annotations asks first.
    pub confirm_discard: bool,
    pub open_workspace_with_viewer: bool,
    pub viewer_pane_ratio: ViewerPaneRatio,
    /// How far one wheel step scrolls.
    pub wheel_step: u16,
}

/// Where the user is, reset when another root is opened.
#[derive(Debug, Clone, Copy, PartialEq, Eq, Structural)]
pub struct Navigation {
    pub focus: Focus,
    /// The content fills the frame.
    pub zoomed: bool,
    pub content_scroll: u16,
    pub content_hscroll: u16,
    pub tree_scroll: u16,
    pub tree_hscroll: u16,
    /// The next frame brings the selected row into view.
    pub tree_follow_selection: bool,
}

impl Navigation {
    /// The start of a session: the tree has the focus and nothing is scrolled.
    pub open spec fn start() -> Self {
        Navigation {
            focus: Focus::Tree,
            zoomed: false,
            content_scroll: 0,
            content_hscroll: 0,
            tree_scroll: 0,
            tree_hscroll: 0,
            tree_follow_selection: true,
        }
    }

    /// The start of a session.
    pub fn new() -> (r: Self)
        ensures
            r == Self::start(),
    {
        Navigation {
            focus: Focus::Tree,
            zoomed: false,
            content_scroll: 0,
            content_hscroll: 0,
            tree_scroll: 0,
            tree_hscroll: 0,
            tree_follow_selection: true,
        }
    }
}

/// Where things were drawn in the last frame.
#[derive(Debug)]
pub struct PaneGeometry {
    pub area_x: u16,
    pub area_width: u16,
    pub divider_x: Option<u16>,
    pub tree_inner: Option<Rect>,
    pub tree_vbar: Option<Rect>,
    pub tree_hbar: Option<Rect>,
    pub tree_scroll: u16,
    pub tree_content_width: u16,
    pub tree_collapse_button: Option<Rect>,
    pub tree_pin_button: Option<Rect>,
    pub tree_close_button: Option<Rect>,
    pub content_inner: Option<Rect>,
    pub content_vbar: Option<Rect>,
    pub content_hbar: Option<Rect>,
    pub content_title_rect: Option<Rect>,
    pub finder_rows: Option<Rect>,
    pub finder_vbar: Option<Rect>,
    pub finder_scope_button: Option<Rect>,
    pub finder_scroll: u16,
    pub finder_max_hscroll: u16,
    pub picker_max_hscroll: u16,
    pub help_tabs: Vec<(usize, Rect)>,
    pub help_body_rows: u16,
    pub help_body_height: u16,
    pub context_menu_rect: Option<Rect>,
    pub workspace_search_rows: Option<Rect>,
    pub workspace_search_scope_button: Option<Rect>,
    pub workspace_search_scroll: u16,
    /// The lowest share of the tree that keeps it usable at this width, in percent.
    pub min_split_pct: u16,
}

/// The renders that were asked for, and what waits for them.
#[derive(Debug, Clone, Copy)]
pub struct Renders {
    /// The number of the latest render that was asked for.
    pub latest: u64,
    /// The number of the render that is displayed.
    pub applied: u64,
    /// The number of a render that only lays the displayed content out anew.
    pub reflow: Option<u64>,
    /// A line to jump to once the render of that number is displayed.
    pub goto: Option<(u64, usize)>,
    /// Line selection to start once the render of that number is displayed.
    pub line_select: Option<u64>,
}

/// Why the content pane has no file to show.
#[derive(Debug, Clone, Copy, PartialEq, Eq, Structural)]
pub enum EmptyReason {
    /// A directory is selected.
    Directory,
    /// The tree lists nothing.
    NoFiles,
}

impl EmptyReason {
    /// The guidance shown in place of content.
    pub open spec fn label_text(self) -> Seq<char> {
        match self {
            EmptyReason::Directory => "Directory: select a file to view"@,
            EmptyReason::NoFiles => "No files"@,
        }
    }

    /// The guidance shown in place of content.
    pub fn label(self) -> (r: &'static str)
        ensures
            r@ == self.label_text(),
    {
        match self {
            EmptyReason::Directory => "Directory: select a file to view",
            EmptyReason::NoFiles => "No files",
        }
    }
}

/// A line of rendered content, in pieces of one style each.
#[derive(Debug)]
pub struct ContentLine {
    pub spans: Vec<String>,
}

/// A finished render: the lines, messages about them, and the source lines behind them where each
/// displayed line stands for one of those.
#[derive(Debug)]
pub struct RenderResult {
    pub content: Vec<ContentLine>,
    pub notices: Vec<String>,
    pub source: Option<Vec<String>>,
}

/// What the content pane shows.
#[derive(Debug)]
pub enum Body {
    /// Nothing yet.
    Blank,
    /// A placeholder until the render that was asked for is finished.
    Rendering,
    /// Guidance, because no file is selected.
    Guidance(EmptyReason),
    /// A finished render.
    Rendered(RenderResult),
}

/// A hint that fades by itself.
#[derive(Debug, Clone, Copy, PartialEq, Eq, Structural)]
pub struct Flash {
    /// The diff presentation that the hint names.
    pub mode: DiffRenderMode,
    pub dim_at: u64,
    pub deadline: u64,
    pub dim: bool,
}

/// The range that the viewer was launched on, highlighted for a while.
#[derive(Debug, Clone, Copy, PartialEq, Eq, Structural)]
pub struct OpenRangeFlash {
    pub start: usize,
    pub end: usize,
    pub deadline: u64,
}

/// What a held left button drags.
#[derive(Debug, Clone, Copy, PartialEq, Eq, Structural)]
pub enum Drag {
    Divider,
    ContentV,
    ContentH,
    TreeV,
    TreeH,
    FinderV,
    ContentSelect,
    /// An overlay took the press; its release does nothing.
    ModalConsumed,
}

/// A match of the in-file search: the displayed line, from 0, and the characters of it.
#[derive(Debug, Clone, Copy, PartialEq, Eq, Structural)]
pub struct Match {
    pub line: usize,
    pub start: usize,
    pub end: usize,
}

/// The in-file search: what was typed, where it occurs, and which occurrence is current.
#[derive(Debug)]
pub struct SearchState {
    pub query: String,
    pub matches: Vec<Match>,
    pub current: usize,
}

/// What the bottom prompt asks for.
#[derive(Debug, Clone, Copy, PartialEq, Eq, Structural)]
pub enum PromptMode {
    GoToLine,
    Search,
}

/// The bottom prompt. `saved_scroll` is where the content stood when it opened.
#[derive(Debug)]
pub struct PromptState {
    pub mode: PromptMode,
    pub input: PromptInput,
    pub saved_scroll: u16,
}

/// A worktree of the repository.
#[derive(Debug)]
pub struct Worktree {
    pub path: FilePath,
    pub branch: Option<String>,
    pub detached: bool,
    pub is_current: bool,
}

/// The worktree picker: the worktrees, what their agents do, the selected row and the horizontal
/// offset.
#[derive(Debug)]
pub struct PickerState {
    pub rows: Vec<Worktree>,
    pub agent_statuses: Vec<Option<String>>,
    pub cursor: usize,
    pub hscroll: u16,
}

/// A section of the help overlay.
#[derive(Debug)]
pub struct HelpSectionState {
    pub label: String,
    pub body: Vec<ContentLine>,
    pub scroll: u16,
}

/// The help overlay: its sections and the one that is shown.
#[derive(Debug)]
pub struct HelpState {
    pub sections: Vec<HelpSectionState>,
    pub active: usize,
}

/// A line that the full-text search found.
#[derive(Debug)]
pub struct SearchHit {
    /// The file, relative to the root.
    pub path: String,
    pub line: usize,
    pub text: String,
}

/// Why a full-text search brought nothing.
#[derive(Debug, Clone, Copy, PartialEq, Eq, Structural)]
pub enum SearchFailure {
    Unavailable,
    Failed,
}

/// The full-text search overlay.
#[derive(Debug)]
pub struct WorkspaceSearchState {
    pub input: PromptInput,
    /// What is searched unless the whole workspace is.
    pub scope: FilePath,
    pub label: String,
    pub workspace: bool,
    pub matches: Vec<SearchHit>,
    pub cursor: usize,
    pub pending: bool,
    pub limited: bool,
    pub error: Option<SearchFailure>,
}

/// The list of annotations, with the selected one.
#[derive(Debug, Clone, Copy, PartialEq, Eq, Structural)]
pub struct AnnotationListState {
    pub cursor: usize,
}

/// What an annotation editor does when it is done.
#[derive(Debug, Clone, Copy, PartialEq, Eq, Structural)]
pub enum AnnotationEditorMode {
    /// It adds an annotation; canceling restores the line selection it was opened from.
    Add(Option<LineSelectState>),
    /// It changes the annotation `id` and returns to the list.
    Edit { id: u64, overview_cursor: usize },
}

/// The annotation editor.
#[derive(Debug)]
pub struct AnnotationEditorState {
    pub target: AnnotationTarget,
    pub input: PromptInput,
    pub error: Option<crate::annotation::AnnotationError>,
    pub mode: AnnotationEditorMode,
}

/// An entry of the context menu.
#[derive(Debug, Clone, Copy, PartialEq, Eq)]
pub struct ContextMenuItem {
    pub intent: Intent,
    pub label: &'static str,
    pub shortcut: &'static str,
}

/// The context menu: its entries, the selected one, and where it was opened.
#[derive(Debug)]
pub struct ContextMenuState {
    pub items: Vec<ContextMenuItem>,
    pub cursor: usize,
    pub anchor: (u16, u16),
}

/// A directory that can be the root of a session, and what is known of its repository.
#[derive(Debug)]
pub struct Resolved {
    pub root: FilePath,
    pub repo_root: Option<FilePath>,
    pub is_git_repo: bool,
    pub is_worktree: bool,
    pub base_branch: Option<String>,
    pub branch: Option<String>,
}

/// What goes on once the user agrees to lose the annotations.
#[derive(Debug)]
pub enum DiscardAction {
    Quit,
    SwitchRoot(Resolved),
}

/// The overlay that is open; at most one is.
#[derive(Debug)]
pub enum Modal {
    Closed,
    Picker(PickerState),
    Finder(FinderState),
    WorkspaceSearch(WorkspaceSearchState),
    Prompt(PromptState),
    Help(HelpState),
    LineSelect(LineSelectState),
    Annotations(AnnotationListState),
    AnnotationEditor(AnnotationEditorState),
    ContextMenu(ContextMenuState),
    DiscardConfirm(DiscardAction),
}

/// A view chosen for a file.
#[derive(Debug)]
pub struct Override {
    pub path: FilePath,
    pub mode: ViewMode,
}

/// The views that the user chose, by file.
#[derive(Debug)]
pub struct Overrides {
    pub entries: Vec<Override>,
}

/// What to tell the user about the last action.
#[derive(Debug)]
pub enum Notice {
    /// What was copied.
    Copied(String),
    /// The path was not copied, and why.
    PathNotCopied(String),
    SelectionCopied,
    SelectionNotCopied(String),
    /// The line reference was not copied, and why.
    ReferenceNotCopied(String),
    /// Lines of the file were copied.
    LinesCopied(usize, usize),
    LinesNotCopied(usize, usize, String),
    AnnotationsCopied(usize),
    AnnotationsNotCopied(String),
    /// Annotations were dropped with the root they belonged to.
    AnnotationsCleared(usize),
    EditorNotLaunched(String),
    EditorFailed(String),
    OpenerNotLaunched(String),
    OpenerFailed(String),
    RevealNotLaunched(String),
    RevealFailed(String),
    /// A file of the finder, the search or the launch command could not be opened.
    CannotOpen(String),
    /// The launch command named a file outside the root.
    OutsideRoot(String),
    /// The file that the launch command named is open.
    Opened { path: String, line: Option<usize>, end_line: Option<usize> },
    CollapseUnavailable,
    Pinned,
    Unpinned,
    StillPinned,
    /// The directory is no root for a session.
    CannotSwitch(FilePath),
    NoRepository,
    NoWorktrees,
    SearchUnavailable,
    SelectFileForLine,
    SelectFileForSearch,
    WrappedToFirst,
    WrappedToLast,
    SelectFileToAnnotate,
    DirectoryNotAnnotated,
    OutsideCurrentRoot,
    CannotAnnotate,
    WorkspaceUnavailable,
    WorkspaceFailed(String),
    WorkspaceOpened(Place),
    WorkspaceWithoutId(Place),
    WorkspaceWithoutTerminal(Place),
    WorkspaceWithoutViewer(Place, String),
    WorkspaceWithViewer(Place),
    WorkspaceRatioFailed(Place, ViewerPaneRatio, String),
    PaneUnavailable,
    PaneFailed(String),
    PaneOpened(Place),
}

/// The root and what git knows of it.
#[derive(Debug)]
pub struct Repo {
    pub root: FilePath,
    pub is_git_repo: bool,
    pub branch: Option<String>,
    /// The branch that the launch named as the base.
    pub base_branch: Option<String>,
    /// The working tree's status; nothing where it is not known.
    pub git_status: Option<StatusMap>,
    /// The files changed against the baseline; nothing where they are not known.
    pub changed: Option<StatusMap>,
    /// The status of a new root is being read.
    pub status_pending: bool,
}

/// The content pane.
#[derive(Debug)]
pub struct Pane {
    pub body: Body,
    /// The file whose content is displayed.
    pub path: Option<FilePath>,
    pub renders: Renders,
    pub search: Option<SearchState>,
    /// Characters that are selected with the mouse.
    pub selection: Option<LineSelectState>,
    pub range_flash: Option<OpenRangeFlash>,
}

/// The last frame.
#[derive(Debug)]
pub struct Screen {
    pub width: u16,
    /// The size of the text in the content pane.
    pub content_width: u16,
    pub content_height: u16,
    pub geom: PaneGeometry,
    /// The first frame decides whether the launched file fills the frame.
    pub pending_open_zoom: bool,
}

/// The mouse.
#[derive(Debug, Clone, Copy)]
pub struct Pointer {
    pub last_click: Option<Click>,
    pub drag: Option<Drag>,
}

/// What surrounds the viewer.
#[derive(Debug, Clone, Copy)]
pub struct Host {
    /// The viewer put its own pane into full screen.
    pub zoomed: bool,
    /// The host can be asked.
    pub present: bool,
    /// Files can be handed to other programs.
    pub opener: bool,
    /// There is a full-text search, and whether its program is installed.
    pub searcher: Option<bool>,
    /// The number of the latest full-text search.
    pub search_seq: u64,
    /// A full-text search is running.
    pub search_running: bool,
}

/// A newer version of the viewer.
#[derive(Debug)]
pub struct Update {
    pub available: Option<String>,
    pub dismissed: bool,
    /// The check is running.
    pub pending: bool,
}

/// The session.
#[derive(Debug)]
pub struct Controller {
    pub repo: Repo,
    pub prefs: Preferences,
    pub nav: Navigation,
    pub tree: TreeView,
    /// The views that the user chose.
    pub overrides: Overrides,
    pub pane: Pane,
    pub screen: Screen,
    pub pointer: Pointer,
    pub modal: Modal,
    pub annotations: AnnotationStore,
    pub notice: Option<Notice>,
    pub flash: Option<Flash>,
    pub host: Host,
    pub update: Update,
}

} // verus!
