//! What is selected, how it is shown, and the renders that are asked for.

use super::actions::{Action, RenderJob};
use super::state::{
    Body, Controller, EmptyReason, Navigation, NodeKind, Override, Overrides, Pane, Renders, TreeNode,
};
use crate::git::{Baseline, StatusMap};
use crate::paths::{extension_of, relative, FilePath};
use crate::view_policy::{default_mode, is_diff_view, opening_mode, DiffRenderMode, ViewMode};
use vstd::prelude::*;

verus! {

/// The number of the render after `seq`.
pub open spec fn next_seq(seq: u64) -> u64 {
    if seq == u64::MAX {
        0
    } else {
        (seq + 1) as u64
    }
}

/// A byte with an ASCII letter in lower case.
pub open spec fn lower_byte(b: u8) -> u8 {
    if 0x41 <= b <= 0x5a {
        (b + 0x20) as u8
    } else {
        b
    }
}

/// The bytes of `md`.
pub open spec fn md() -> Seq<u8> {
    seq![0x6du8, 0x64u8]
}

/// The bytes of `markdown`.
pub open spec fn markdown() -> Seq<u8> {
    seq![0x6du8, 0x61u8, 0x72u8, 0x6bu8, 0x64u8, 0x6fu8, 0x77u8, 0x6eu8]
}

/// A path names a markdown file: its extension is `md` or `markdown` in any case.
pub open spec fn names_markdown(path: Seq<u8>) -> bool {
    extension_of(path) matches Some(ext) && (ext.map_values(|b: u8| lower_byte(b)) == md()
        || ext.map_values(|b: u8| lower_byte(b)) == markdown())
}

/// Tests whether bytes spell an ASCII word in any case.
fn spells(bytes: &[u8], word: &[u8]) -> (r: bool)
    ensures
        r == (bytes@.map_values(|b: u8| lower_byte(b)) == word@),
{
    let ghost lowered = bytes@.map_values(|b: u8| lower_byte(b));
    if bytes.len() != word.len() {
        return false;
    }
    for i in 0..bytes.len()
        invariant
            lowered == bytes@.map_values(|b: u8| lower_byte(b)),
            bytes@.len() == word@.len(),
            forall|k: int| 0 <= k < i ==> lowered[k] == word@[k],
    {
        let b: u8 = bytes[i];
        let c: u8 = if b >= 0x41 && b <= 0x5a {
            b + 0x20
        } else {
            b
        };
        assert(lowered[i as int] == c);
        if c != word[i] {
            return false;
        }
    }
    assert(lowered =~= word@);
    true
}

/// Tests whether a path names a markdown file.
pub fn is_markdown(path: &FilePath) -> (r: bool)
    ensures
        r == names_markdown(path@),
{
    match path.extension() {
        Some(ext) => {
            let (short, long): ([u8; 2], [u8; 8]) = (
                [0x6d, 0x64],
                [0x6d, 0x61, 0x72, 0x6b, 0x64, 0x6f, 0x77, 0x6e],
            );
            assert(short@ =~= md());
            assert(long@ =~= markdown());
            spells(ext.as_bytes(), &short) || spells(ext.as_bytes(), &long)
        },
        None => false,
    }
}

/// The view chosen for a path among these choices.
pub open spec fn chosen(entries: Seq<Override>, path: Seq<u8>) -> Option<ViewMode>
    decreases entries.len(),
{
    if entries.len() == 0 {
        None
    } else if entries.last().path@ == path {
        Some(entries.last().mode)
    } else {
        chosen(entries.drop_last(), path)
    }
}

impl View for Overrides {
    type V = Map<Seq<u8>, ViewMode>;

    open spec fn view(&self) -> Map<Seq<u8>, ViewMode> {
        Map::new(
            |path: Seq<u8>| chosen(self.entries@, path) is Some,
            |path: Seq<u8>| chosen(self.entries@, path)->0,
        )
    }
}

/// Which entry decides for a path.
proof fn lemma_chosen(entries: Seq<Override>, i: int, path: Seq<u8>)
    requires
        0 <= i < entries.len(),
        entries[i].path@ == path,
        forall|k: int| i < k < entries.len() ==> (#[trigger] entries[k]).path@ != path,
    ensures
        chosen(entries, path) == Some(entries[i].mode),
    decreases entries.len(),
{
    if i < entries.len() - 1 {
        assert(entries.last().path@ != path);
        lemma_chosen(entries.drop_last(), i, path);
    }
}

/// Nothing is chosen for a path without an entry.
proof fn lemma_not_chosen(entries: Seq<Override>, path: Seq<u8>)
    requires
        forall|k: int| 0 <= k < entries.len() ==> (#[trigger] entries[k]).path@ != path,
    ensures
        chosen(entries, path) is None,
    decreases entries.len(),
{
    if entries.len() > 0 {
        assert(entries.last().path@ != path);
        assert forall|k: int| 0 <= k < entries.drop_last().len() implies (
        #[trigger] entries.drop_last()[k]).path@ != path by {
            assert(entries[k].path@ != path);
        }
        lemma_not_chosen(entries.drop_last(), path);
    }
}

/// An entry that replaces another for the same path changes nothing for other paths.
proof fn lemma_replaced(entries: Seq<Override>, i: int, entry: Override, path: Seq<u8>)
    requires
        0 <= i < entries.len(),
        entry.path@ == entries[i].path@,
        path != entry.path@,
    ensures
        chosen(entries.update(i, entry), path) == chosen(entries, path),
    decreases entries.len(),
{
    let after = entries.update(i, entry);
    if i == entries.len() - 1 {
        assert(after.drop_last() =~= entries.drop_last());
    } else {
        assert(after.drop_last() =~= entries.drop_last().update(i, entry));
        lemma_replaced(entries.drop_last(), i, entry, path);
    }
}

impl Overrides {
    /// No choices.
    pub fn new() -> (r: Self)
        ensures
            r@ == Map::<Seq<u8>, ViewMode>::empty(),
    {
        let r = Overrides { entries: Vec::new() };
        assert(r@ =~= Map::<Seq<u8>, ViewMode>::empty());
        r
    }

    /// The view chosen for a file.
    pub fn get(&self, path: &FilePath) -> (r: Option<ViewMode>)
        ensures
            r is Some <==> self@.dom().contains(path@),
            r matches Some(mode) ==> mode == self@[path@],
    {
        let mut i: usize = self.entries.len();
        while i > 0
            invariant
                i <= self.entries@.len(),
                forall|k: int|
                    i <= k < self.entries@.len() ==> (#[trigger] self.entries@[k]).path@ != path@,
            decreases i,
        {
            i -= 1;
            if self.entries[i].path.same(path) {
                proof {
                    lemma_chosen(self.entries@, i as int, path@);
                }
                return Some(self.entries[i].mode);
            }
        }
        proof {
            lemma_not_chosen(self.entries@, path@);
        }
        None
    }

    /// Chooses a view for a file.
    pub fn insert(&mut self, path: FilePath, mode: ViewMode)
        ensures
            final(self)@ == old(self)@.insert(path@, mode),
    {
        let ghost before = self.entries@;
        let entry = Override { path: path.clone(), mode };
        let mut i: usize = self.entries.len();
        while i > 0
            invariant
                i <= self.entries@.len(),
                self.entries@ == before,
                before == old(self).entries@,
                entry.path@ == path@,
                entry.mode == mode,
                forall|k: int|
                    i <= k < self.entries@.len() ==> (#[trigger] self.entries@[k]).path@ != path@,
            decreases i,
        {
            i -= 1;
            if self.entries[i].path.same(&path) {
                self.entries.set(i, entry);
                proof {
                    let after = self.entries@;
                    lemma_chosen(after, i as int, path@);
                    assert forall|p: Seq<u8>| p != path@ implies #[trigger] chosen(after, p)
                        == chosen(before, p) by {
                        lemma_replaced(before, i as int, entry, p);
                    }
                    assert(self@ =~= old(self)@.insert(path@, mode));
                }
                return;
            }
        }
        self.entries.push(entry);
        proof {
            let after = self.entries@;
            assert(after.drop_last() =~= before);
            assert(chosen(after, path@) == Some(mode));
            assert forall|p: Seq<u8>| p != path@ implies #[trigger] chosen(after, p) == chosen(
                before,
                p,
            ) by {}
            assert(self@ =~= old(self)@.insert(path@, mode));
        }
    }
}

/// A set of files, nothing where it is not known, holds a path.
pub open spec fn lists(files: Option<StatusMap>, path: Seq<u8>) -> bool {
    files matches Some(map) && map@.dom().contains(path)
}

/// Tests whether a set of files holds a path.
fn is_listed(files: &Option<StatusMap>, path: &FilePath) -> (r: bool)
    ensures
        r == lists(*files, path@),
{
    match files {
        Some(map) => map.contains_key(path),
        None => false,
    }
}

impl Controller {
    /// The selected row.
    pub open spec fn selected(self) -> Option<TreeNode> {
        if self.tree.cursor < self.tree.nodes@.len() {
            Some(self.tree.nodes@[self.tree.cursor as int])
        } else {
            None
        }
    }

    /// The selected row is a file.
    pub open spec fn file_selected(self) -> bool {
        self.selected() matches Some(node) && node.kind == NodeKind::File
    }

    /// The path of the selected row.
    pub open spec fn selected_path(self) -> Option<FilePath> {
        match self.selected() {
            Some(node) => Some(node.path),
            None => None,
        }
    }

    /// Content shows working-tree diffs, whatever else was chosen.
    pub open spec fn forces_diff(self) -> bool {
        self.prefs.status_mode && self.repo.is_git_repo
    }

    /// A file is one of those that the active filter counts as changed.
    pub open spec fn counts_as_changed(self, path: Seq<u8>) -> bool {
        relative(path, self.repo.root@) matches Some(rel) && lists(
            if self.prefs.status_mode {
                self.repo.git_status
            } else {
                self.repo.changed
            },
            rel,
        )
    }

    /// The view of a file: the working-tree diff where that is forced, else the one that was
    /// chosen, else the one it opens in.
    pub open spec fn mode_of(self, path: Seq<u8>) -> ViewMode {
        if self.forces_diff() {
            ViewMode::Diff
        } else if self.overrides@.dom().contains(path) {
            self.overrides@[path]
        } else {
            opening_mode(names_markdown(path), self.counts_as_changed(path))
        }
    }

    /// The view of the selection: that of a file, a diff for a directory where diffs are forced.
    pub open spec fn selected_mode(self) -> Option<ViewMode> {
        match self.selected() {
            Some(node) if node.kind == NodeKind::File => Some(self.mode_of(node.path@)),
            Some(_) if self.forces_diff() => Some(ViewMode::Diff),
            _ => None,
        }
    }

    /// The content is wrapped: as forced, else if the selected file is shown as prose.
    pub open spec fn wraps(self) -> bool {
        match self.prefs.wrap_override {
            Some(wrap) => wrap,
            None => self.file_selected() && self.mode_of(self.selected()->0.path@)
                == ViewMode::RenderedMarkdown,
        }
    }

    /// The render of a path.
    pub open spec fn job(self, path: FilePath, mode: ViewMode, directory_diff: bool) -> RenderJob {
        RenderJob {
            seq: next_seq(self.pane.renders.latest),
            root: self.repo.root,
            path,
            mode,
            baseline: if self.forces_diff() {
                Baseline::Head
            } else {
                self.prefs.baseline
            },
            is_git: self.repo.is_git_repo,
            directory_diff,
            wrap_width: if self.screen.content_width > 0 && self.wraps() {
                Some(self.screen.content_width)
            } else {
                None
            },
            pane_width: if self.screen.content_width > 0 {
                Some(self.screen.content_width)
            } else {
                None
            },
            diff_render_mode: self.prefs.diff_render_mode,
        }
    }

    /// The content pane shows guidance.
    pub open spec fn cleared(self, reason: EmptyReason) -> Controller {
        Controller { pane: Pane { body: Body::Guidance(reason), path: None, ..self.pane }, ..self }
    }

    /// What is left when the content changes: nothing that belongs to the old content.
    pub open spec fn unscrolled(self) -> Controller {
        Controller {
            nav: Navigation { content_scroll: 0, content_hscroll: 0, ..self.nav },
            pane: Pane {
                renders: Renders {
                    latest: next_seq(self.pane.renders.latest),
                    goto: None,
                    line_select: None,
                    ..self.pane.renders
                },
                search: None,
                selection: None,
                range_flash: None,
                ..self.pane
            },
            ..self
        }
    }

    /// The state after a render of the selection was asked for.
    pub open spec fn refreshed(self) -> Controller {
        match self.selected() {
            None => self.unscrolled().cleared(EmptyReason::NoFiles),
            Some(node) => if node.kind == NodeKind::Dir && !self.forces_diff() {
                self.unscrolled().cleared(EmptyReason::Directory)
            } else {
                self.unscrolled()
            },
        }
    }

    /// The render of the selection: none where the pane shows guidance.
    pub open spec fn refresh_actions(self) -> Seq<Action> {
        match self.selected() {
            Some(node) => if node.kind == NodeKind::File {
                seq![Action::Render(self.job(node.path, self.mode_of(node.path@), false))]
            } else if self.forces_diff() {
                seq![Action::Render(self.job(node.path, ViewMode::Diff, true))]
            } else {
                Seq::empty()
            },
            None => Seq::empty(),
        }
    }

    /// The state after a new layout of the displayed file was asked for.
    pub open spec fn reflowed(self) -> Controller {
        Controller {
            pane: Pane {
                renders: Renders {
                    latest: next_seq(self.pane.renders.latest),
                    reflow: Some(next_seq(self.pane.renders.latest)),
                    ..self.pane.renders
                },
                ..self.pane
            },
            ..self
        }
    }

    /// The selected file is laid out by a program that goes by the width of the pane: prose that
    /// is fit to the pane, and diffs that are not shown raw.
    pub open spec fn depends_on_width(self) -> bool {
        self.file_selected() && match self.mode_of(self.selected()->0.path@) {
            ViewMode::RenderedMarkdown => self.wraps(),
            ViewMode::Diff | ViewMode::FullDiff => self.prefs.diff_render_mode
                != DiffRenderMode::Raw,
            ViewMode::SyntaxContent => false,
        }
    }

    /// The selected file is shown as prose.
    pub open spec fn shows_prose(self) -> bool {
        self.file_selected() && self.mode_of(self.selected()->0.path@)
            == ViewMode::RenderedMarkdown
    }

    /// The state after the selected file was laid out anew, where that is needed.
    pub open spec fn reflowed_if(self, needed: bool) -> Controller {
        if needed {
            self.reflowed()
        } else {
            self
        }
    }

    /// The new layout of the selected file, where one is needed.
    pub open spec fn reflow_actions(self, needed: bool) -> Seq<Action> {
        if needed {
            seq![
                Action::Render(
                    self.job(
                        self.selected()->0.path,
                        self.mode_of(self.selected()->0.path@),
                        false,
                    ),
                ),
            ]
        } else {
            Seq::empty()
        }
    }

    /// The selected row.
    pub fn selected_node(&self) -> (r: Option<&TreeNode>)
        ensures
            r is Some <==> self.selected() is Some,
            r matches Some(node) ==> self.selected() == Some(*node),
    {
        if self.tree.cursor < self.tree.nodes.len() {
            Some(&self.tree.nodes[self.tree.cursor])
        } else {
            None
        }
    }

    /// The path of the selected row.
    pub fn path_of_selection(&self) -> (r: Option<FilePath>)
        ensures
            r == self.selected_path(),
    {
        match self.selected_node() {
            Some(node) => Some(node.path.clone()),
            None => None,
        }
    }

    /// The path of the selected file.
    pub fn selected_file(&self) -> (r: Option<FilePath>)
        ensures
            r is Some <==> self.file_selected(),
            r is Some ==> r == self.selected_path(),
    {
        match self.selected_node() {
            Some(node) => if node.kind == NodeKind::File {
                Some(node.path.clone())
            } else {
                None
            },
            None => None,
        }
    }

    /// A path as seen from the root.
    pub fn rel(&self, path: &FilePath) -> (r: Option<FilePath>)
        ensures
            r is Some <==> relative(path@, self.repo.root@) is Some,
            r matches Some(rel) ==> Some(rel@) == relative(path@, self.repo.root@),
    {
        path.strip_prefix(&self.repo.root)
    }

    /// Whether a file counts as changed.
    pub fn is_changed(&self, path: &FilePath) -> (r: bool)
        ensures
            r == self.counts_as_changed(path@),
    {
        match self.rel(path) {
            Some(rel) => if self.prefs.status_mode {
                is_listed(&self.repo.git_status, &rel)
            } else {
                is_listed(&self.repo.changed, &rel)
            },
            None => false,
        }
    }

    /// The view of a file.
    pub fn effective_mode(&self, path: &FilePath) -> (r: ViewMode)
        ensures
            r == self.mode_of(path@),
    {
        if self.prefs.status_mode && self.repo.is_git_repo {
            return ViewMode::Diff;
        }
        match self.overrides.get(path) {
            Some(mode) => mode,
            None => default_mode(is_markdown(path), self.is_changed(path)),
        }
    }

    /// The view of the selection.
    pub fn selected_view_mode(&self) -> (r: Option<ViewMode>)
        ensures
            r == self.selected_mode(),
    {
        match self.selected_node() {
            Some(node) => if node.kind == NodeKind::File {
                Some(self.effective_mode(&node.path))
            } else if self.prefs.status_mode && self.repo.is_git_repo {
                Some(ViewMode::Diff)
            } else {
                None
            },
            None => None,
        }
    }

    /// Whether the content is wrapped.
    pub fn effective_wrap(&self) -> (r: bool)
        ensures
            r == self.wraps(),
    {
        match self.prefs.wrap_override {
            Some(wrap) => wrap,
            None => match self.selected_node() {
                Some(node) => node.kind == NodeKind::File && self.effective_mode(&node.path)
                    == ViewMode::RenderedMarkdown,
                None => false,
            },
        }
    }

    /// The render of a path.
    fn render_job(&self, path: FilePath, mode: ViewMode, directory_diff: bool) -> (r: RenderJob)
        ensures
            r == self.job(path, mode, directory_diff),
    {
        RenderJob {
            seq: if self.pane.renders.latest == u64::MAX {
                0
            } else {
                self.pane.renders.latest + 1
            },
            root: self.repo.root.clone(),
            path,
            mode,
            baseline: if self.prefs.status_mode && self.repo.is_git_repo {
                Baseline::Head
            } else {
                self.prefs.baseline
            },
            is_git: self.repo.is_git_repo,
            directory_diff,
            wrap_width: if self.screen.content_width > 0 && self.effective_wrap() {
                Some(self.screen.content_width)
            } else {
                None
            },
            pane_width: if self.screen.content_width > 0 {
                Some(self.screen.content_width)
            } else {
                None
            },
            diff_render_mode: self.prefs.diff_render_mode,
        }
    }

    /// Shows guidance in place of content.
    fn clear_content(&mut self, reason: EmptyReason)
        ensures
            *final(self) == old(self).cleared(reason),
    {
        self.pane.body = Body::Guidance(reason);
        self.pane.path = None;
    }

    /// Drops what belongs to the content that was displayed, and counts a new render.
    fn reset_content(&mut self)
        ensures
            *final(self) == old(self).unscrolled(),
    {
        self.nav = Navigation { content_scroll: 0, content_hscroll: 0, ..self.nav };
        self.pane.renders = Renders {
            latest: if self.pane.renders.latest == u64::MAX {
                0
            } else {
                self.pane.renders.latest + 1
            },
            goto: None,
            line_select: None,
            ..self.pane.renders
        };
        self.pane.search = None;
        self.pane.selection = None;
        self.pane.range_flash = None;
    }

    /// Asks for a render of the selection. It starts at the top, without the search and the
    /// highlights of what was displayed before; a render that is still on its way is superseded.
    pub fn dispatch_render(&mut self, out: &mut Vec<Action>)
        ensures
            *final(self) == old(self).refreshed(),
            final(out)@ == old(out)@ + old(self).refresh_actions(),
    {
        let job = match self.selected_node() {
            Some(node) => {
                let path = node.path.clone();
                if node.kind == NodeKind::File {
                    let mode = self.effective_mode(&path);
                    Some(self.render_job(path, mode, false))
                } else if self.prefs.status_mode && self.repo.is_git_repo {
                    Some(self.render_job(path, ViewMode::Diff, true))
                } else {
                    None
                }
            },
            None => None,
        };
        let empty = self.selected_node().is_none();
        self.reset_content();
        match job {
            Some(job) => {
                out.push(Action::Render(job));
            },
            None => {
                if empty {
                    self.clear_content(EmptyReason::NoFiles);
                } else {
                    self.clear_content(EmptyReason::Directory);
                }
            },
        }
        assert(out@ =~= old(out)@ + old(self).refresh_actions());
    }

    /// Asks for a new layout of the selected file where `needed`, leaving the scroll and the
    /// search as they are.
    fn reflow_if(&mut self, needed: bool, out: &mut Vec<Action>)
        requires
            needed ==> old(self).file_selected(),
        ensures
            *final(self) == old(self).reflowed_if(needed),
            final(out)@ == old(out)@ + old(self).reflow_actions(needed),
    {
        if needed {
            if let Some(path) = self.selected_file() {
                let mode = self.effective_mode(&path);
                let job = self.render_job(path, mode, false);
                self.pane.renders.latest = job.seq;
                self.pane.renders.reflow = Some(job.seq);
                out.push(Action::Render(job));
            }
        }
        assert(out@ =~= old(out)@ + old(self).reflow_actions(needed));
    }

    /// Lays the selected file out anew after wrapping was switched, where that is the renderer's
    /// work.
    pub fn rerender_after_wrap_toggle(&mut self, out: &mut Vec<Action>)
        ensures
            *final(self) == old(self).reflowed_if(old(self).shows_prose()),
            final(out)@ == old(out)@ + old(self).reflow_actions(old(self).shows_prose()),
    {
        let needed = match self.selected_node() {
            Some(node) => node.kind == NodeKind::File && self.effective_mode(&node.path)
                == ViewMode::RenderedMarkdown,
            None => false,
        };
        self.reflow_if(needed, out);
    }

    /// Lays the selected file out anew after the pane got another width, where that is the
    /// renderer's work.
    pub fn rerender_after_resize(&mut self, out: &mut Vec<Action>)
        ensures
            *final(self) == old(self).reflowed_if(old(self).depends_on_width()),
            final(out)@ == old(out)@ + old(self).reflow_actions(old(self).depends_on_width()),
    {
        let needed = match self.selected_node() {
            Some(node) => node.kind == NodeKind::File && match self.effective_mode(&node.path) {
                ViewMode::RenderedMarkdown => self.effective_wrap(),
                ViewMode::Diff | ViewMode::FullDiff => self.prefs.diff_render_mode
                    != DiffRenderMode::Raw,
                ViewMode::SyntaxContent => false,
            },
            None => false,
        };
        self.reflow_if(needed, out);
    }

    /// The worker took a render: the content pane shows a placeholder until it is finished, unless
    /// it only lays out anew what is displayed, or a later one was asked for.
    pub fn render_queued(&mut self, seq: u64)
        ensures
            *final(self) == (if seq == old(self).pane.renders.latest && old(self).pane.renders.reflow != Some(
                seq,
            ) {
                Controller { pane: Pane { body: Body::Rendering, ..old(self).pane }, ..*old(self) }
            } else {
                *old(self)
            }),
    {
        let reflow = match self.pane.renders.reflow {
            Some(n) => n == seq,
            None => false,
        };
        if seq == self.pane.renders.latest && !reflow {
            self.pane.body = Body::Rendering;
        }
    }
}

/// What the worker reads from git for a render.
#[derive(Debug)]
pub enum DiffSource {
    /// Nothing.
    Nothing,
    /// The diff of a file, with the whole file around it or not.
    File { rel: FilePath, full_context: bool },
    /// The diff of everything below a directory.
    Directory { rel: FilePath },
}

impl RenderJob {
    /// The diff that a render needs: none outside a repository and for other views; that of the
    /// directory, or of the whole tree where the path lies outside it; that of the file, if it
    /// lies in the tree.
    pub open spec fn needs(self, source: DiffSource) -> bool {
        match source {
            DiffSource::Nothing => !is_diff_view(self.mode) || !self.is_git || (
            !self.directory_diff && relative(self.path@, self.root@) is None),
            DiffSource::File { rel, full_context } => {
                &&& is_diff_view(self.mode) && self.is_git && !self.directory_diff
                &&& Some(rel@) == relative(self.path@, self.root@)
                &&& full_context == (self.mode == ViewMode::FullDiff)
            },
            DiffSource::Directory { rel } => {
                &&& is_diff_view(self.mode) && self.is_git && self.directory_diff
                &&& rel@ == match relative(self.path@, self.root@) {
                    Some(r) => r,
                    None => Seq::empty(),
                }
            },
        }
    }

    /// The diff that a render needs.
    pub fn diff_source(&self) -> (r: DiffSource)
        ensures
            self.needs(r),
    {
        if !crate::view_policy::diff_view(self.mode) || !self.is_git {
            return DiffSource::Nothing;
        }
        match (self.path.strip_prefix(&self.root), self.directory_diff) {
            (Some(rel), true) => DiffSource::Directory { rel },
            (None, true) => DiffSource::Directory { rel: FilePath::new(Vec::new()) },
            (Some(rel), false) => DiffSource::File {
                rel,
                full_context: self.mode == ViewMode::FullDiff,
            },
            (None, false) => DiffSource::Nothing,
        }
    }
}

/// A render that was asked for supersedes every earlier one: the numbers differ.
pub proof fn each_render_supersedes_the_last(state: Controller)
    ensures
        state.refreshed().pane.renders.latest != state.pane.renders.latest,
        state.reflowed().pane.renders.latest != state.pane.renders.latest,
{
}

/// A new layout keeps what the user sees: the scroll, the search, the selection and the body.
pub proof fn new_layouts_keep_the_view(state: Controller, needed: bool)
    ensures
        state.reflowed_if(needed).nav == state.nav,
        state.reflowed_if(needed).pane.search == state.pane.search,
        state.reflowed_if(needed).pane.selection == state.pane.selection,
        state.reflowed_if(needed).pane.body == state.pane.body,
        state.reflowed_if(needed).pane.path == state.pane.path,
{
}

/// While working-tree diffs are forced, every render is one, against the last commit.
pub proof fn forced_diffs_show_the_working_tree(state: Controller, path: FilePath, mode: ViewMode)
    requires
        state.forces_diff(),
    ensures
        state.mode_of(path@) == ViewMode::Diff,
        state.job(path, mode, false).baseline == Baseline::Head,
        state.refresh_actions().len() == 1 <==> state.selected() is Some,
{
}

/// What a render of a file below the root of a repository asks git: the diff of that file where a
/// diff is shown, with the whole file around the changes exactly where the full diff is, and
/// nothing for any other view.
pub proof fn full_diffs_ask_for_the_whole_file(job: RenderJob, source: DiffSource)
    requires
        call_ensures(RenderJob::diff_source, (&job,), source),
        job.is_git,
        !job.directory_diff,
        relative(job.path@, job.root@) is Some,
    ensures
        job.mode == ViewMode::FullDiff ==> (source matches DiffSource::File { rel, full_context }
            && Some(rel@) == relative(job.path@, job.root@) && full_context == true),
        job.mode == ViewMode::Diff ==> (source matches DiffSource::File { rel, full_context }
            && Some(rel@) == relative(job.path@, job.root@) && full_context == false),
        job.mode == ViewMode::SyntaxContent || job.mode == ViewMode::RenderedMarkdown ==> source
            is Nothing,
{
}

/// The two diffs of one file are two questions about the same file, which differ in how much of
/// it surrounds the changes.
pub proof fn the_two_diffs_are_different_questions(
    whole: RenderJob,
    part: RenderJob,
    asked: DiffSource,
    other: DiffSource,
)
    requires
        call_ensures(RenderJob::diff_source, (&whole,), asked),
        call_ensures(RenderJob::diff_source, (&part,), other),
        whole.mode == ViewMode::FullDiff,
        part.mode == ViewMode::Diff,
        whole.path@ == part.path@,
        whole.root@ == part.root@,
        whole.is_git && part.is_git,
        !whole.directory_diff && !part.directory_diff,
        relative(whole.path@, whole.root@) is Some,
    ensures
        asked matches DiffSource::File { rel, full_context } && full_context && (
        other matches DiffSource::File { rel: same, full_context: around } && !around && same@
            == rel@),
{
}

/// The diff of a directory covers what lies below it, and the whole tree where the directory is
/// the root or lies elsewhere. Neither a file nor a directory has a diff outside a repository,
/// and a file has none that does not lie below the root.
pub proof fn directory_diffs_cover_the_directory(job: RenderJob, source: DiffSource)
    requires
        call_ensures(RenderJob::diff_source, (&job,), source),
        job.mode == ViewMode::Diff || job.mode == ViewMode::FullDiff,
    ensures
        !job.is_git ==> source is Nothing,
        job.is_git && job.directory_diff ==> source is Directory,
        job.is_git && job.directory_diff && job.path@ == job.root@ ==> (
        source matches DiffSource::Directory { rel } && (job.root@.len() > 0 ==> rel@.len() == 0)),
        job.is_git && job.directory_diff && relative(job.path@, job.root@) is Some ==> (
        source matches DiffSource::Directory { rel } && Some(rel@) == relative(
            job.path@,
            job.root@,
        )),
        job.is_git && job.directory_diff && relative(job.path@, job.root@) is None ==> (
        source matches DiffSource::Directory { rel } && rel@.len() == 0),
        job.is_git && !job.directory_diff && relative(job.path@, job.root@) is None ==> source
            is Nothing,
{
}

} // verus!
