//! What is drawn: the state as the screen shows it.

use super::annotation::AnnotationIndicatorsView;
use super::content::Layout;
use super::help::footer_hint;
use super::state::{
    Body, ContentLine, ContextMenuState, Controller, DiscardAction, Focus, HelpSectionState, Match,
    Modal, PromptMode, SearchFailure, SearchHit, SearchState, TreeNode, Worktree,
};
use crate::annotation::{Annotation, AnnotationTarget, LineRange};
use crate::config::{TreeIcons, TreePosition};
use crate::paths::{lossy_text, name_of, ordinary, FilePath};
use crate::selection::LineSelectState;
use crate::text::{decimal, decimal_text, same_text, texts};
use crate::view_policy::ViewMode;
use vstd::prelude::*;
use vstd::string::*;

verus! {

/// A hint that fades.
#[derive(Debug, Clone, Copy, PartialEq, Eq)]
pub struct FlashLine {
    pub text: &'static str,
    pub dim: bool,
}

/// A row of the worktree picker.
#[derive(Debug)]
pub struct PickerRowView {
    pub path: String,
    pub branch: Option<String>,
    pub detached: bool,
    pub is_current: bool,
    /// What the agent in the worktree does.
    pub agent: Option<String>,
}

/// The worktree picker.
#[derive(Debug)]
pub struct PickerView {
    pub rows: Vec<PickerRowView>,
    pub cursor: usize,
    pub hscroll: u16,
}

/// The finder.
#[derive(Debug)]
pub struct FinderView {
    pub query: String,
    pub scope_label: String,
    pub workspace: bool,
    pub matches: Vec<String>,
    pub cursor: usize,
    pub hscroll: u16,
}

/// The full-text search.
#[derive(Debug)]
pub struct WorkspaceSearchView<'a> {
    pub query: String,
    pub scope_label: String,
    pub workspace: bool,
    pub matches: &'a Vec<SearchHit>,
    pub cursor: usize,
    pub pending: bool,
    pub limited: bool,
    pub error: Option<&'static str>,
}

/// What an annotation is about.
#[derive(Debug)]
pub struct AnnotationTargetView {
    pub path: FilePath,
    pub lines: Option<LineRange>,
}

/// An annotation in a list.
#[derive(Debug)]
pub struct AnnotationRowView {
    pub target: AnnotationTargetView,
    pub note: String,
}

/// The list of annotations.
#[derive(Debug)]
pub struct AnnotationOverviewView {
    pub rows: Vec<AnnotationRowView>,
    pub cursor: usize,
}

/// The question whether annotations may be lost.
#[derive(Debug)]
pub struct DiscardConfirmView {
    pub rows: Vec<AnnotationRowView>,
    pub verb: &'static str,
    pub proceed_key: &'static str,
}

/// What the annotation editor does.
#[derive(Debug, Clone, Copy, PartialEq, Eq, Structural)]
pub enum AnnotationEditorKind {
    Add,
    Edit,
}

/// The annotation editor. `cursor` is a byte offset into the text.
#[derive(Debug)]
pub struct AnnotationEditorView {
    pub kind: AnnotationEditorKind,
    pub target: AnnotationTargetView,
    pub text: String,
    pub cursor: usize,
    pub error: Option<&'static str>,
}

/// The matches of the in-file search.
#[derive(Debug)]
pub struct ContentSearch<'a> {
    pub matches: &'a Vec<Match>,
    pub current: usize,
}

/// Selected characters, from one caret to another, behind a gutter.
#[derive(Debug, Clone, Copy, PartialEq, Eq, Structural)]
pub struct CharSelView {
    pub start_line: usize,
    pub start_col: usize,
    pub end_line: usize,
    pub end_col: usize,
    pub gutter: usize,
}

/// Selected lines. A passive selection is only highlighted.
#[derive(Debug, Clone, Copy, PartialEq, Eq, Structural)]
pub struct LineSelectView {
    pub marker: usize,
    pub start: usize,
    pub end: usize,
    pub char_sel: Option<CharSelView>,
    pub passive: bool,
}

/// The help overlay.
#[derive(Debug)]
pub struct HelpView<'a> {
    pub active: usize,
    pub labels: Vec<String>,
    pub body: &'a Vec<ContentLine>,
    pub scroll: u16,
    pub hint: &'static str,
    pub center: bool,
}

/// An entry of the context menu.
#[derive(Debug, Clone, Copy, PartialEq, Eq)]
pub struct ContextMenuItemRowView {
    pub label: &'static str,
    pub shortcut: &'static str,
}

/// The context menu.
#[derive(Debug)]
pub struct ContextMenuView {
    pub items: Vec<ContextMenuItemRowView>,
    pub cursor: usize,
    pub anchor: (u16, u16),
}

/// The overlays; at most one is there.
#[derive(Debug)]
pub struct Overlays<'a> {
    pub picker: Option<PickerView>,
    pub finder: Option<FinderView>,
    pub workspace_search: Option<WorkspaceSearchView<'a>>,
    pub annotation_overview: Option<AnnotationOverviewView>,
    pub annotation_editor: Option<AnnotationEditorView>,
    pub discard_confirm: Option<DiscardConfirmView>,
    pub help: Option<HelpView<'a>>,
    pub context_menu: Option<ContextMenuView>,
}

/// Everything that is drawn.
#[derive(Debug)]
pub struct ViewState<'a> {
    pub nodes: &'a Vec<TreeNode>,
    pub selected: usize,
    pub content: &'a Body,
    pub notices: Vec<String>,
    pub flash: Option<FlashLine>,
    pub focus: Focus,
    pub width: u16,
    pub content_scroll: u16,
    pub content_hscroll: u16,
    pub tree_scroll: u16,
    pub tree_follow_selection: bool,
    pub tree_hscroll: u16,
    /// The rows that the content takes.
    pub content_rows: u16,
    pub wrap: bool,
    /// The content keeps a column free on the left.
    pub content_pad_left: bool,
    pub split_pct: u16,
    pub tree_position: TreePosition,
    pub tree_max_cols: u16,
    pub tree_icons: TreeIcons,
    pub split_manual: bool,
    pub zoomed: bool,
    pub pinned: bool,
    pub update_banner: Option<String>,
    pub annotation_count: usize,
    pub annotation_indicators: AnnotationIndicatorsView,
    /// The name of the root's directory, empty for the root of the file system.
    pub root_name: String,
    pub branch: Option<String>,
    pub prompt: Option<String>,
    pub content_title: Option<String>,
    pub content_rendering: bool,
    pub search: Option<ContentSearch<'a>>,
    pub line_select: Option<LineSelectView>,
    pub content_selection: Option<CharSelView>,
    pub overlays: Overlays<'a>,
}

/// The name of a file or directory, `None` for the root of the file system, for `.` and for `..`.
pub open spec fn title_of(path: Seq<u8>) -> Option<Seq<char>> {
    let name = name_of(path);
    if ordinary(name) {
        Some(lossy_text(name))
    } else {
        None
    }
}

/// The name of a file or directory.
fn title(path: &FilePath) -> (r: Option<String>)
    ensures
        r is Some <==> title_of(path@) is Some,
        r matches Some(name) ==> Some(name@) == title_of(path@),
{
    let name = path.file_name();
    if name.is_ordinary() {
        Some(name.text())
    } else {
        None
    }
}

/// The number of a match, from 1.
pub open spec fn ordinal(current: usize) -> int {
    if current == usize::MAX {
        usize::MAX as int
    } else {
        current + 1
    }
}

/// The number of a match among all, as in `3/7`.
pub open spec fn standing(search: SearchState) -> Seq<char> {
    decimal(ordinal(search.current) as nat) + "/"@ + decimal(search.matches@.len())
}

/// The number of a match among all.
fn standing_text(search: &SearchState) -> (r: String)
    ensures
        r@ == standing(*search),
{
    let mut out = decimal_text(search.current.saturating_add(1));
    out.append("/");
    out.append(decimal_text(search.matches.len()).as_str());
    out
}

/// What follows the query of a search that is typed.
pub open spec fn count_fragment(query: Seq<char>, search: Option<SearchState>) -> Seq<char> {
    match search {
        Some(s) if query.len() > 0 => if s.matches@.len() == 0 {
            " (no matches)"@
        } else {
            " ("@ + standing(s) + ")"@
        },
        _ => ""@,
    }
}

/// The line about a committed search.
pub open spec fn status_of(search: SearchState) -> Seq<char> {
    if search.matches@.len() == 0 {
        "Search: "@ + search.query@ + " (no matches) \u{b7} Esc clear"@
    } else {
        "Search: "@ + search.query@ + " ("@ + standing(search)
            + ") \u{b7} n next \u{b7} N prev \u{b7} Esc clear"@
    }
}

/// What a failed full-text search is answered with.
pub open spec fn failure_text(failure: SearchFailure) -> Seq<char> {
    match failure {
        SearchFailure::Unavailable => "ripgrep (`rg`) is unavailable"@,
        SearchFailure::Failed => "ripgrep search failed"@,
    }
}

impl SearchFailure {
    /// What the user is told.
    pub fn message(self) -> (r: &'static str)
        ensures
            r@ == failure_text(self),
    {
        match self {
            SearchFailure::Unavailable => "ripgrep (`rg`) is unavailable",
            SearchFailure::Failed => "ripgrep search failed",
        }
    }
}

/// A row of the picker stands for a worktree and what its agent does.
pub open spec fn picks(row: PickerRowView, tree: Worktree, agent: Option<String>) -> bool {
    &&& row.path@ == lossy_text(tree.path@)
    &&& row.branch == tree.branch
    &&& row.detached == tree.detached
    &&& row.is_current == tree.is_current
    &&& row.agent == agent
}

/// What an annotation is about.
pub open spec fn aims(view: AnnotationTargetView, target: AnnotationTarget) -> bool {
    view.path@ == target.file() && view.lines == target.range()
}

/// What an annotation is about.
fn target_view(target: &AnnotationTarget) -> (r: AnnotationTargetView)
    ensures
        aims(r, *target),
{
    AnnotationTargetView { path: target.path().clone(), lines: target.lines() }
}

/// The rows list the annotations in their order.
pub open spec fn rows_list(rows: Seq<AnnotationRowView>, notes: Seq<Annotation>) -> bool {
    &&& rows.len() == notes.len()
    &&& forall|i: int|
        0 <= i < rows.len() ==> aims((#[trigger] rows[i]).target, notes[i].target) && rows[i].note
            == notes[i].text
}

/// The characters between the ends of a selection.
pub open spec fn chars_of_selection(s: LineSelectState, gutter: int) -> CharSelView {
    let (lo, hi) = s.caret_span();
    CharSelView {
        start_line: lo.0,
        start_col: lo.1,
        end_line: hi.0,
        end_col: hi.1,
        gutter: gutter as usize,
    }
}

/// The labels of the help sections.
pub open spec fn labels_of(sections: Seq<HelpSectionState>) -> Seq<Seq<char>> {
    sections.map_values(|section: HelpSectionState| section.label@)
}

/// The key that goes on without copying the annotations, as it is shown.
pub open spec fn proceed_sign(action: DiscardAction) -> Seq<char> {
    match action {
        DiscardAction::Quit => "q"@,
        DiscardAction::SwitchRoot(_) => "\u{23ce}"@,
    }
}

impl ContextMenuState {
    /// The view shows the entries of the menu.
    pub open spec fn pictured(self, view: ContextMenuView) -> bool {
        &&& view.items@.len() == self.items@.len()
        &&& forall|i: int|
            0 <= i < view.items@.len() ==> (#[trigger] view.items@[i]).label
                == self.items@[i].label && view.items@[i].shortcut == self.items@[i].shortcut
        &&& view.cursor == self.cursor
        &&& view.anchor == self.anchor
    }

    /// The menu as it is drawn.
    pub fn to_view(&self) -> (r: ContextMenuView)
        ensures
            self.pictured(r),
    {
        let mut items: Vec<ContextMenuItemRowView> = Vec::new();
        for i in 0..self.items.len()
            invariant
                items@.len() == i,
                forall|k: int|
                    0 <= k < i ==> (#[trigger] items@[k]).label == self.items@[k].label
                        && items@[k].shortcut == self.items@[k].shortcut,
        {
            items.push(
                ContextMenuItemRowView {
                    label: self.items[i].label,
                    shortcut: self.items[i].shortcut,
                },
            );
        }
        ContextMenuView { items, cursor: self.cursor, anchor: self.anchor }
    }
}

impl Controller {
    /// Everything that the user is told: about the last action, then about the content.
    pub open spec fn told(self) -> Seq<Seq<char>> {
        (match self.notice {
            Some(notice) => seq![notice.message()],
            None => Seq::empty(),
        }) + texts(self.pane.body.messages())
    }

    /// Everything that the user is told.
    pub fn notices(&self) -> (r: Vec<String>)
        ensures
            texts(r@) == self.told(),
    {
        let mut out: Vec<String> = Vec::new();
        if let Some(notice) = &self.notice {
            out.push(notice.text());
        }
        let ghost head = texts(out@);
        assert(head =~= match self.notice {
            Some(notice) => seq![notice.message()],
            None => Seq::empty(),
        });
        if let Body::Rendered(result) = &self.pane.body {
            for i in 0..result.notices.len()
                invariant
                    texts(out@) =~= head + texts(result.notices@.take(i as int)),
            {
                let ghost before = out@;
                out.push(result.notices[i].clone());
                proof {
                    let (taken, next) = (result.notices@.take(i as int), result.notices@[i as int]);
                    assert(result.notices@.take(i + 1) =~= taken.push(next));
                    assert(texts(before.push(next)) =~= texts(before).push(next@));
                    assert(texts(taken.push(next)) =~= texts(taken).push(next@));
                }
            }
            assert(result.notices@.take(result.notices@.len() as int) =~= result.notices@);
        } else {
            assert(texts(out@) =~= head + texts(self.pane.body.messages()));
        }
        out
    }

    /// The bottom line: what is typed into the prompt, else what was searched for.
    pub open spec fn bottom_text(self) -> Option<Seq<char>> {
        match self.modal {
            Modal::Prompt(p) => Some(
                match p.mode {
                    PromptMode::GoToLine => "Go to line: "@ + p.input.text(),
                    PromptMode::Search => "Search: "@ + p.input.text() + count_fragment(
                        p.input.text(),
                        self.pane.search,
                    ),
                },
            ),
            _ => match self.pane.search {
                Some(s) => Some(status_of(s)),
                None => None,
            },
        }
    }

    /// What follows the query of a search that is typed.
    fn search_count_fragment(&self, query: &str) -> (r: String)
        ensures
            r@ == count_fragment(query@, self.pane.search),
    {
        match &self.pane.search {
            Some(s) => {
                if query.is_empty() {
                    "".to_owned()
                } else if s.matches.len() == 0 {
                    " (no matches)".to_owned()
                } else {
                    let mut out = " (".to_owned();
                    out.append(standing_text(s).as_str());
                    out.append(")");
                    out
                }
            },
            None => "".to_owned(),
        }
    }

    /// The line about a committed search.
    fn search_status_line(&self) -> (r: Option<String>)
        ensures
            r is Some <==> self.pane.search is Some,
            r matches Some(line) ==> line@ == status_of(self.pane.search->0),
    {
        match &self.pane.search {
            Some(s) => {
                let mut out = "Search: ".to_owned();
                out.append(s.query.as_str());
                if s.matches.len() == 0 {
                    out.append(" (no matches) \u{b7} Esc clear");
                } else {
                    out.append(" (");
                    out.append(standing_text(s).as_str());
                    out.append(") \u{b7} n next \u{b7} N prev \u{b7} Esc clear");
                }
                Some(out)
            },
            None => None,
        }
    }

    /// The bottom line.
    pub fn bottom_line(&self) -> (r: Option<String>)
        ensures
            r is Some <==> self.bottom_text() is Some,
            r matches Some(line) ==> Some(line@) == self.bottom_text(),
    {
        match &self.modal {
            Modal::Prompt(p) => {
                let mut out = match p.mode {
                    PromptMode::GoToLine => "Go to line: ".to_owned(),
                    PromptMode::Search => "Search: ".to_owned(),
                };
                out.append(p.input.query());
                if p.mode == PromptMode::Search {
                    out.append(self.search_count_fragment(p.input.query()).as_str());
                }
                Some(out)
            },
            _ => self.search_status_line(),
        }
    }

    /// The banner about a newer version, unless it was dismissed.
    pub fn update_banner(&self) -> (r: Option<String>)
        ensures
            r == if self.update.dismissed {
                None
            } else {
                self.update.available
            },
    {
        if self.update.dismissed {
            None
        } else {
            super::session::copy_text(&self.update.available)
        }
    }

    /// The picker is drawn as it is.
    pub open spec fn picker_pictured(self, view: Option<PickerView>) -> bool {
        match (self.modal, view) {
            (Modal::Picker(p), Some(v)) => {
                &&& v.cursor == p.cursor
                &&& v.hscroll == p.hscroll
                &&& v.rows@.len() == p.rows@.len()
                &&& forall|i: int|
                    0 <= i < v.rows@.len() ==> picks(
                        #[trigger] v.rows@[i],
                        p.rows@[i],
                        if i < p.agent_statuses@.len() {
                            p.agent_statuses@[i]
                        } else {
                            None
                        },
                    )
            },
            (Modal::Picker(_), None) => false,
            (_, v) => v is None,
        }
    }

    /// The picker as it is drawn.
    pub fn picker_view(&self) -> (r: Option<PickerView>)
        ensures
            self.picker_pictured(r),
    {
        if let Modal::Picker(p) = &self.modal {
            let mut rows: Vec<PickerRowView> = Vec::new();
            for i in 0..p.rows.len()
                invariant
                    rows@.len() == i,
                    forall|k: int|
                        0 <= k < i ==> picks(
                            #[trigger] rows@[k],
                            p.rows@[k],
                            if k < p.agent_statuses@.len() {
                                p.agent_statuses@[k]
                            } else {
                                None
                            },
                        ),
            {
                rows.push(
                    PickerRowView {
                        path: p.rows[i].path.text(),
                        branch: super::session::copy_text(&p.rows[i].branch),
                        detached: p.rows[i].detached,
                        is_current: p.rows[i].is_current,
                        agent: if i < p.agent_statuses.len() {
                            super::session::copy_text(&p.agent_statuses[i])
                        } else {
                            None
                        },
                    },
                );
            }
            Some(PickerView { rows, cursor: p.cursor, hscroll: p.hscroll })
        } else {
            None
        }
    }

    /// The finder is drawn as it is.
    pub open spec fn finder_pictured(self, view: Option<FinderView>) -> bool {
        match (self.modal, view) {
            (Modal::Finder(f), Some(v)) => {
                &&& v.query@ == f.query_text()
                &&& v.scope_label@ == if f.whole() {
                    "workspace"@
                } else {
                    f.scope_name()
                }
                &&& v.workspace == f.whole()
                &&& v.matches@.len() == f.ranked().len()
                &&& forall|i: int|
                    0 <= i < v.matches@.len() ==> #[trigger] v.matches@[i]
                        == f.files()[f.ranked()[i] as int]
                &&& v.cursor == f.position()
                &&& v.hscroll == f.offset()
            },
            (Modal::Finder(_), None) => false,
            (_, v) => v is None,
        }
    }

    /// The finder as it is drawn.
    pub fn finder_view(&self) -> (r: Option<FinderView>)
        ensures
            self.finder_pictured(r),
    {
        if let Modal::Finder(f) = &self.modal {
            f.check();
            let files = f.candidates();
            let ranked = f.matches();
            let mut matches: Vec<String> = Vec::new();
            for i in 0..ranked.len()
                invariant
                    ranked@ == f.ranked(),
                    files@ == f.files(),
                    f.sound(),
                    matches@.len() == i,
                    forall|k: int|
                        0 <= k < i ==> #[trigger] matches@[k] == files@[ranked@[k] as int],
            {
                assert((f.ranked()[i as int] as int) < files@.len());
                matches.push(files[ranked[i]].clone());
            }
            Some(
                FinderView {
                    query: f.query().to_owned(),
                    scope_label: f.scope_label().to_owned(),
                    workspace: f.workspace(),
                    matches,
                    cursor: f.cursor(),
                    hscroll: f.hscroll(),
                },
            )
        } else {
            None
        }
    }

    /// The full-text search is drawn as it is.
    pub open spec fn search_pictured(self, view: Option<WorkspaceSearchView>) -> bool {
        match (self.modal, view) {
            (Modal::WorkspaceSearch(s), Some(v)) => {
                &&& v.query@ == s.input.text()
                &&& v.scope_label@ == if s.workspace {
                    "workspace"@
                } else {
                    s.label@
                }
                &&& v.workspace == s.workspace
                &&& *v.matches == s.matches
                &&& v.cursor == s.cursor
                &&& v.pending == s.pending
                &&& v.limited == s.limited
                &&& match (v.error, s.error) {
                    (Some(message), Some(failure)) => message@ == failure_text(failure),
                    (None, None) => true,
                    _ => false,
                }
            },
            (Modal::WorkspaceSearch(_), None) => false,
            (_, v) => v is None,
        }
    }

    /// The full-text search as it is drawn.
    pub fn workspace_search_view(&self) -> (r: Option<WorkspaceSearchView<'_>>)
        ensures
            self.search_pictured(r),
    {
        if let Modal::WorkspaceSearch(s) = &self.modal {
            Some(
                WorkspaceSearchView {
                    query: s.input.query().to_owned(),
                    scope_label: s.scope_label().to_owned(),
                    workspace: s.workspace,
                    matches: &s.matches,
                    cursor: s.cursor,
                    pending: s.pending,
                    limited: s.limited,
                    error: match s.error {
                        Some(failure) => Some(failure.message()),
                        None => None,
                    },
                },
            )
        } else {
            None
        }
    }

    /// The annotations as rows, in their order.
    fn annotation_rows(&self) -> (r: Vec<AnnotationRowView>)
        ensures
            rows_list(r@, self.annotations.listed()),
    {
        let notes = self.annotations.ordered();
        let mut rows: Vec<AnnotationRowView> = Vec::new();
        for i in 0..notes.len()
            invariant
                rows@.len() == i,
                forall|k: int|
                    0 <= k < i ==> aims((#[trigger] rows@[k]).target, notes@[k].target)
                        && rows@[k].note == notes@[k].text,
        {
            rows.push(
                AnnotationRowView {
                    target: target_view(&notes[i].target),
                    note: notes[i].text.clone(),
                },
            );
        }
        rows
    }

    /// The list of annotations is drawn as it is.
    pub open spec fn overview_pictured(self, view: Option<AnnotationOverviewView>) -> bool {
        match (self.modal, view) {
            (Modal::Annotations(list), Some(v)) => v.cursor == list.cursor && rows_list(
                v.rows@,
                self.annotations.listed(),
            ),
            (Modal::Annotations(_), None) => false,
            (_, v) => v is None,
        }
    }

    /// The list of annotations as it is drawn.
    pub fn annotation_overview_view(&self) -> (r: Option<AnnotationOverviewView>)
        ensures
            self.overview_pictured(r),
    {
        match &self.modal {
            Modal::Annotations(list) => Some(
                AnnotationOverviewView { rows: self.annotation_rows(), cursor: list.cursor },
            ),
            _ => None,
        }
    }

    /// The question about the annotations is drawn as it is.
    pub open spec fn confirm_pictured(self, view: Option<DiscardConfirmView>) -> bool {
        match (self.modal, view) {
            (Modal::DiscardConfirm(action), Some(v)) => {
                &&& rows_list(v.rows@, self.annotations.listed())
                &&& v.verb@ == action.verb_text()
                &&& v.proceed_key@ == proceed_sign(action)
            },
            (Modal::DiscardConfirm(_), None) => false,
            (_, v) => v is None,
        }
    }

    /// The question about the annotations as it is drawn.
    pub fn discard_confirm_view(&self) -> (r: Option<DiscardConfirmView>)
        ensures
            self.confirm_pictured(r),
    {
        match &self.modal {
            Modal::DiscardConfirm(action) => Some(
                DiscardConfirmView {
                    rows: self.annotation_rows(),
                    verb: action.verb(),
                    proceed_key: match action {
                        DiscardAction::Quit => "q",
                        DiscardAction::SwitchRoot(_) => "\u{23ce}",
                    },
                },
            ),
            _ => None,
        }
    }

    /// The annotation editor is drawn as it is.
    pub open spec fn editor_pictured(self, view: Option<AnnotationEditorView>) -> bool {
        match (self.modal, view) {
            (Modal::AnnotationEditor(editor), Some(v)) => {
                &&& v.kind == if editor.mode is Edit {
                    AnnotationEditorKind::Edit
                } else {
                    AnnotationEditorKind::Add
                }
                &&& aims(v.target, editor.target)
                &&& v.text@ == editor.input.text()
                &&& v.cursor == vstd::utf8::encode_utf8(
                    editor.input.text().take(editor.input.caret() as int),
                ).len()
                &&& match (v.error, editor.error) {
                    (Some(message), Some(error)) => message@ == error.message_text(),
                    (None, None) => true,
                    _ => false,
                }
            },
            (Modal::AnnotationEditor(_), None) => false,
            (_, v) => v is None,
        }
    }

    /// The annotation editor as it is drawn.
    pub fn annotation_editor_view(&self) -> (r: Option<AnnotationEditorView>)
        ensures
            self.editor_pictured(r),
    {
        match &self.modal {
            Modal::AnnotationEditor(editor) => Some(
                AnnotationEditorView {
                    kind: if editor.is_edit() {
                        AnnotationEditorKind::Edit
                    } else {
                        AnnotationEditorKind::Add
                    },
                    target: target_view(editor.target()),
                    text: editor.text().to_owned(),
                    cursor: editor.cursor(),
                    error: editor.error(),
                },
            ),
            _ => None,
        }
    }

    /// The help overlay is drawn as it is: the active section, centered where it is `About`.
    pub open spec fn help_pictured(self, view: Option<HelpView>) -> bool {
        match self.modal {
            Modal::Help(help) if help.active < help.sections@.len() => {
                let section = help.sections@[help.active as int];
                view matches Some(v) && {
                    &&& v.active == help.active
                    &&& texts(v.labels@) == labels_of(help.sections@)
                    &&& *v.body == section.body
                    &&& v.scroll == section.scroll
                    &&& v.hint@
                        == "Tab/\u{2190}\u{2192} switch \u{b7} 1-9 jump \u{b7} j/k scroll \u{b7} Esc/q/? close"@
                    &&& v.center == (section.label@ == "About"@)
                }
            },
            _ => view is None,
        }
    }

    /// The help overlay as it is drawn.
    pub fn help_view(&self) -> (r: Option<HelpView<'_>>)
        ensures
            self.help_pictured(r),
    {
        if let Modal::Help(help) = &self.modal {
            if help.active < help.sections.len() {
                let mut labels: Vec<String> = Vec::new();
                for i in 0..help.sections.len()
                    invariant
                        texts(labels@) =~= labels_of(help.sections@.take(i as int)),
                {
                    let ghost before = labels@;
                    labels.push(help.sections[i].label.clone());
                    proof {
                        let (taken, next) = (
                            help.sections@.take(i as int),
                            help.sections@[i as int],
                        );
                        assert(help.sections@.take(i + 1) =~= taken.push(next));
                        assert(texts(before.push(next.label)) =~= texts(before).push(next.label@));
                        assert(labels_of(taken.push(next)) =~= labels_of(taken).push(next.label@));
                    }
                }
                assert(help.sections@.take(help.sections@.len() as int) =~= help.sections@);
                let section = &help.sections[help.active];
                return Some(
                    HelpView {
                        active: help.active,
                        labels,
                        body: &section.body,
                        scroll: section.scroll,
                        hint: footer_hint(),
                        center: same_text(section.label.as_str(), "About"),
                    },
                );
            }
        }
        None
    }

    /// The context menu is drawn as it is.
    pub open spec fn menu_pictured(self, view: Option<ContextMenuView>) -> bool {
        match (self.modal, view) {
            (Modal::ContextMenu(menu), Some(v)) => menu.pictured(v),
            (Modal::ContextMenu(_), None) => false,
            (_, v) => v is None,
        }
    }

    /// The context menu as it is drawn.
    pub fn context_menu_view(&self) -> (r: Option<ContextMenuView>)
        ensures
            self.menu_pictured(r),
    {
        match &self.modal {
            Modal::ContextMenu(menu) => Some(menu.to_view()),
            _ => None,
        }
    }

    /// The overlay that is open is drawn as it is, and no other.
    pub open spec fn overlays_pictured(self, view: Overlays) -> bool {
        &&& self.picker_pictured(view.picker)
        &&& self.finder_pictured(view.finder)
        &&& self.search_pictured(view.workspace_search)
        &&& self.overview_pictured(view.annotation_overview)
        &&& self.editor_pictured(view.annotation_editor)
        &&& self.confirm_pictured(view.discard_confirm)
        &&& self.help_pictured(view.help)
        &&& self.menu_pictured(view.context_menu)
    }

    /// The overlays as they are drawn.
    fn overlays(&self) -> (r: Overlays<'_>)
        ensures
            self.overlays_pictured(r),
    {
        Overlays {
            picker: self.picker_view(),
            finder: self.finder_view(),
            workspace_search: self.workspace_search_view(),
            annotation_overview: self.annotation_overview_view(),
            annotation_editor: self.annotation_editor_view(),
            discard_confirm: self.discard_confirm_view(),
            help: self.help_view(),
            context_menu: self.context_menu_view(),
        }
    }

    /// The displayed file is shown as prose or as a diff, which brings no gutter of its own.
    pub open spec fn transformed(self) -> bool {
        self.pane.path matches Some(path) && self.mode_of(path@) != ViewMode::SyntaxContent
    }

    /// The selected lines as they are drawn: those of line selection, else the launched range.
    pub open spec fn lines_pictured(self) -> Option<LineSelectView> {
        match self.modal {
            Modal::LineSelect(s) => Some(
                LineSelectView {
                    marker: s.marker,
                    start: s.line_span().0,
                    end: s.line_span().1,
                    char_sel: if s.char_mode {
                        Some(chars_of_selection(s, self.gutter_at(s.marker as int)))
                    } else {
                        None
                    },
                    passive: false,
                },
            ),
            _ => match self.pane.range_flash {
                Some(f) => Some(
                    LineSelectView {
                        marker: f.start,
                        start: f.start,
                        end: f.end,
                        char_sel: None,
                        passive: true,
                    },
                ),
                None => None,
            },
        }
    }

    /// The selected lines as they are drawn.
    fn line_select_view(&self) -> (r: Option<LineSelectView>)
        ensures
            r == self.lines_pictured(),
    {
        let gutter: usize = self.selection_gutter_len();
        match &self.modal {
            Modal::LineSelect(s) => {
                let (start, end) = s.selection();
                let char_sel = if s.is_char_mode() {
                    let (lo, hi) = s.char_span();
                    Some(
                        CharSelView {
                            start_line: lo.0,
                            start_col: lo.1,
                            end_line: hi.0,
                            end_col: hi.1,
                            gutter,
                        },
                    )
                } else {
                    None
                };
                Some(LineSelectView { marker: s.marker(), start, end, char_sel, passive: false })
            },
            _ => match &self.pane.range_flash {
                Some(f) => Some(
                    LineSelectView {
                        marker: f.start,
                        start: f.start,
                        end: f.end,
                        char_sel: None,
                        passive: true,
                    },
                ),
                None => None,
            },
        }
    }

    /// The characters selected with the mouse as they are drawn: none while there are none.
    pub open spec fn selection_pictured(self) -> Option<CharSelView> {
        match self.pane.selection {
            Some(s) if s.caret_span().0 != s.caret_span().1 => Some(
                chars_of_selection(s, self.gutter_at(s.caret_span().0.0 as int)),
            ),
            _ => None,
        }
    }

    /// The characters selected with the mouse as they are drawn.
    fn content_selection_view(&self) -> (r: Option<CharSelView>)
        ensures
            r == self.selection_pictured(),
    {
        match &self.pane.selection {
            Some(s) => {
                let (lo, hi) = s.char_span();
                if lo.0 == hi.0 && lo.1 == hi.1 {
                    None
                } else {
                    Some(
                        CharSelView {
                            start_line: lo.0,
                            start_col: lo.1,
                            end_line: hi.0,
                            end_col: hi.1,
                            gutter: self.content_gutter_len(lo.0),
                        },
                    )
                }
            },
            None => None,
        }
    }

    /// The columns are drawn as they are.
    pub open spec fn columns_pictured(self, layout: Layout, view: ViewState) -> bool {
        &&& *view.nodes == self.tree.nodes
        &&& view.selected == self.tree.cursor
        &&& *view.content == self.pane.body
        &&& view.focus == self.nav.focus
        &&& view.width == self.screen.width
        &&& view.content_scroll == self.nav.content_scroll
        &&& view.content_hscroll == self.nav.content_hscroll
        &&& view.tree_scroll == self.nav.tree_scroll
        &&& view.tree_follow_selection == self.nav.tree_follow_selection
        &&& view.tree_hscroll == self.nav.tree_hscroll
        &&& view.content_rows == self.total_rows(layout)
        &&& view.wrap == self.wraps()
        &&& view.content_pad_left == self.transformed()
        &&& view.split_pct == self.prefs.split_pct
        &&& view.tree_position == self.prefs.tree_position
        &&& view.tree_max_cols == self.prefs.tree_max_cols
        &&& view.tree_icons == self.prefs.tree_icons
        &&& view.split_manual == self.prefs.split_manual
        &&& view.zoomed == self.nav.zoomed
        &&& view.pinned == self.prefs.pinned
    }

    /// Titles, messages and the bottom line are drawn as they are.
    pub open spec fn texts_pictured(self, view: ViewState) -> bool {
        &&& texts(view.notices@) == self.told()
        &&& match (view.flash, self.flash) {
            (Some(line), Some(flash)) => line.text@ == flash.mode.label_text() && line.dim
                == flash.dim,
            (None, None) => true,
            _ => false,
        }
        &&& view.update_banner == if self.update.dismissed {
            None
        } else {
            self.update.available
        }
        &&& view.root_name@ == match title_of(self.repo.root@) {
            Some(name) => name,
            None => ""@,
        }
        &&& view.branch == self.repo.branch
        &&& view.prompt is Some <==> self.bottom_text() is Some
        &&& view.prompt matches Some(line) ==> Some(line@) == self.bottom_text()
        &&& match (view.content_title, self.pane.path) {
            (Some(title), Some(path)) => Some(title@) == title_of(path@),
            (None, Some(path)) => title_of(path@) is None,
            (title, None) => title is None,
        }
        &&& view.content_rendering == self.pane.body is Rendering
    }

    /// Matches, selections and marks are drawn as they are.
    pub open spec fn marks_pictured(self, view: ViewState) -> bool {
        &&& match (view.search, self.pane.search) {
            (Some(v), Some(s)) => *v.matches == s.matches && v.current == s.current,
            (None, None) => true,
            _ => false,
        }
        &&& view.line_select == self.lines_pictured()
        &&& view.content_selection == self.selection_pictured()
        &&& view.annotation_count == self.annotations.listed().len()
        &&& self.indicated_by(view.annotation_indicators)
    }

    /// The state is drawn as it is.
    pub open spec fn pictured(self, layout: Layout, view: ViewState) -> bool {
        &&& self.columns_pictured(layout, view)
        &&& self.texts_pictured(view)
        &&& self.marks_pictured(view)
        &&& self.overlays_pictured(view.overlays)
    }

    /// The state as it is drawn. `layout` is that of the displayed content.
    pub fn view_state(&self, layout: &Layout) -> (r: ViewState<'_>)
        ensures
            self.pictured(*layout, r),
    {
        let content_pad_left = match &self.pane.path {
            Some(path) => self.effective_mode(path) != ViewMode::SyntaxContent,
            None => false,
        };
        ViewState {
            nodes: &self.tree.nodes,
            selected: self.tree.cursor,
            content: &self.pane.body,
            notices: self.notices(),
            flash: match &self.flash {
                Some(flash) => Some(FlashLine { text: flash.mode.label(), dim: flash.dim }),
                None => None,
            },
            focus: self.nav.focus,
            width: self.screen.width,
            content_scroll: self.nav.content_scroll,
            content_hscroll: self.nav.content_hscroll,
            tree_scroll: self.nav.tree_scroll,
            tree_follow_selection: self.nav.tree_follow_selection,
            tree_hscroll: self.nav.tree_hscroll,
            content_rows: self.rendered_line_count(layout),
            wrap: self.effective_wrap(),
            content_pad_left,
            split_pct: self.prefs.split_pct,
            tree_position: self.prefs.tree_position,
            tree_max_cols: self.prefs.tree_max_cols,
            tree_icons: self.prefs.tree_icons,
            split_manual: self.prefs.split_manual,
            zoomed: self.nav.zoomed,
            pinned: self.prefs.pinned,
            update_banner: self.update_banner(),
            annotation_count: self.annotations.len(),
            annotation_indicators: self.annotation_indicators_view(),
            root_name: match title(&self.repo.root) {
                Some(name) => name,
                None => "".to_owned(),
            },
            branch: super::session::copy_text(&self.repo.branch),
            prompt: self.bottom_line(),
            content_title: match &self.pane.path {
                Some(path) => title(path),
                None => None,
            },
            content_rendering: match &self.pane.body {
                Body::Rendering => true,
                _ => false,
            },
            search: match &self.pane.search {
                Some(s) => Some(ContentSearch { matches: &s.matches, current: s.current }),
                None => None,
            },
            line_select: self.line_select_view(),
            content_selection: self.content_selection_view(),
            overlays: self.overlays(),
        }
    }
}

/// At most one overlay is drawn.
pub proof fn one_overlay_is_drawn(state: Controller, view: Overlays)
    requires
        state.overlays_pictured(view),
    ensures
        view.finder is Some ==> view.picker is None && view.workspace_search is None
            && view.annotation_overview is None && view.annotation_editor is None
            && view.discard_confirm is None && view.help is None && view.context_menu is None,
        view.picker is Some ==> view.workspace_search is None && view.annotation_overview is None
            && view.annotation_editor is None && view.discard_confirm is None && view.help is None
            && view.context_menu is None,
        view.workspace_search is Some ==> view.annotation_overview is None
            && view.annotation_editor is None && view.discard_confirm is None && view.help is None
            && view.context_menu is None,
        view.annotation_overview is Some ==> view.annotation_editor is None
            && view.discard_confirm is None && view.help is None && view.context_menu is None,
        view.annotation_editor is Some ==> view.discard_confirm is None && view.help is None
            && view.context_menu is None,
        view.discard_confirm is Some ==> view.help is None && view.context_menu is None,
        view.help is Some ==> view.context_menu is None,
{
}

/// The list of annotations and the question whether they may be lost name the same ones.
pub proof fn lost_annotations_are_the_listed_ones(
    notes: Seq<Annotation>,
    listed: Seq<AnnotationRowView>,
    asked: Seq<AnnotationRowView>,
    i: int,
)
    requires
        rows_list(listed, notes),
        rows_list(asked, notes),
        0 <= i < notes.len(),
    ensures
        listed.len() == asked.len(),
        listed[i].target.path@ == asked[i].target.path@,
        listed[i].target.lines == asked[i].target.lines,
        listed[i].note == asked[i].note,
{
}

} // verus!
