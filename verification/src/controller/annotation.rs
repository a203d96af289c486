//! Annotations of the session: the list, the editor and the marks.

use super::actions::{run, Action, Clip, Effects, Run};
use super::state::{
    AnnotationEditorMode, AnnotationEditorState, AnnotationListState, Controller, Modal, NodeKind,
    Notice, Pointer,
};
use crate::annotation::{
    added_at, annotatable, blank, edited, has_id, AnnotationError, AnnotationTarget, LineRange,
};
use crate::git::path_views;
use crate::input::{Key, KeyCode};
use crate::paths::{joined, relative, FilePath};
use crate::prompt::{Edit, PromptInput};
use crate::selection::{covered, merge_line_ranges, separated, LineSelectState};
use vstd::prelude::*;
use vstd::string::*;

verus! {

impl Controller {
    /// The annotation editor is open for a new annotation.
    pub open spec fn annotates(
        self,
        file: Seq<u8>,
        lines: Option<(int, int)>,
        restore: Option<LineSelectState>,
    ) -> bool {
        self.modal matches Modal::AnnotationEditor(editor) && {
            &&& editor.target.file() == file
            &&& match (editor.target.range(), lines) {
                (Some(range), Some((start, end))) => range.from_line() == start && range.to_line()
                    == end,
                (None, None) => true,
                _ => false,
            }
            &&& editor.input.text() == Seq::<char>::empty()
            &&& editor.input.caret() == 0
            &&& editor.error is None
            &&& editor.mode == AnnotationEditorMode::Add(restore)
        }
    }

    /// The editor for the selected file was opened, or why it was not.
    pub open spec fn annotation_opened(r: Run) -> bool {
        match r.from.selected() {
            None => r.takes(r.from.tells(Notice::SelectFileToAnnotate)),
            Some(node) => if node.kind != NodeKind::File {
                r.takes(r.from.tells(Notice::DirectoryNotAnnotated))
            } else {
                match relative(node.path@, r.from.repo.root@) {
                    None => r.takes(r.from.tells(Notice::OutsideCurrentRoot)),
                    Some(rel) => if annotatable(rel) {
                        &&& r.to.annotates(rel, None, None)
                        &&& r.takes(Controller { modal: r.to.modal, ..r.from }.shows())
                    } else {
                        r.takes(r.from.tells(Notice::CannotAnnotate))
                    },
                }
            },
        }
    }

    /// The editor for the selected lines was opened, if they are lines of a file in the tree.
    pub open spec fn selection_annotated(r: Run) -> bool {
        match (r.from.modal, r.from.selected()) {
            (Modal::LineSelect(s), Some(node)) => {
                let (start, end) = s.line_span();
                match relative(node.path@, r.from.repo.root@) {
                    Some(rel) if node.kind == NodeKind::File && annotatable(rel) && start >= 1 => {
                        &&& r.to.annotates(rel, Some((start as int, end as int)), Some(s))
                        &&& r.takes(
                            Controller {
                                modal: r.to.modal,
                                pointer: Pointer { drag: None, ..r.from.pointer },
                                ..r.from
                            }.shows(),
                        )
                    },
                    _ => r.takes(r.from.quiet()),
                }
            },
            _ => r.takes(r.from.quiet()),
        }
    }

    /// Opens the editor for the selected file.
    pub fn add_annotation(&mut self, out: &mut Vec<Action>) -> (r: Effects)
        ensures
            Self::annotation_opened(run(*old(self), *final(self), r, old(out)@, final(out)@)),
    {
        let (path, is_file) = match self.selected_node() {
            None => {
                self.notice = Some(Notice::SelectFileToAnnotate);
                return Effects::redraw();
            },
            Some(node) => (node.path.clone(), node.kind == NodeKind::File),
        };
        if !is_file {
            self.notice = Some(Notice::DirectoryNotAnnotated);
            return Effects::redraw();
        }
        match self.rel(&path) {
            None => {
                self.notice = Some(Notice::OutsideCurrentRoot);
            },
            Some(rel) => match AnnotationTarget::for_file(rel) {
                Err(_) => {
                    self.notice = Some(Notice::CannotAnnotate);
                },
                Ok(target) => {
                    self.open_editor(target, None);
                },
            },
        }
        Effects::redraw()
    }

    /// Opens the editor for a new annotation.
    fn open_editor(&mut self, target: AnnotationTarget, restore: Option<LineSelectState>)
        ensures
            *final(self) == (Controller { modal: final(self).modal, ..*old(self) }),
            final(self).modal matches Modal::AnnotationEditor(editor) && editor.target == target
                && editor.input.text() == Seq::<char>::empty() && editor.input.caret() == 0
                && editor.error is None && editor.mode == AnnotationEditorMode::Add(restore),
    {
        self.modal = Modal::AnnotationEditor(
            AnnotationEditorState {
                target,
                input: PromptInput::new(),
                error: None,
                mode: AnnotationEditorMode::Add(restore),
            },
        );
    }

    /// Opens the editor for the selected lines.
    pub fn add_annotation_for_line_selection(&mut self, out: &mut Vec<Action>) -> (r: Effects)
        ensures
            Self::selection_annotated(run(*old(self), *final(self), r, old(out)@, final(out)@)),
    {
        let state = match &self.modal {
            Modal::LineSelect(s) => *s,
            _ => {
                return Effects::noop();
            },
        };
        let path = match self.selected_file() {
            Some(path) => path,
            None => {
                return Effects::noop();
            },
        };
        let (start, end) = state.selection();
        match (self.rel(&path), LineRange::new(start, end)) {
            (Some(rel), Ok(lines)) => match AnnotationTarget::for_lines(rel, lines) {
                Ok(target) => {
                    self.pointer.drag = None;
                    self.open_editor(target, Some(state));
                    Effects::redraw()
                },
                Err(_) => Effects::noop(),
            },
            _ => Effects::noop(),
        }
    }

    /// The list of annotations is open.
    pub open spec fn annotation_list_at(self, cursor: int) -> Controller {
        Controller {
            modal: Modal::Annotations(AnnotationListState { cursor: cursor as usize }),
            ..self
        }
    }

    /// A position kept within a list.
    pub open spec fn within_list(cursor: int, len: int) -> int {
        if len == 0 {
            0
        } else if cursor >= len {
            len - 1
        } else {
            cursor
        }
    }

    /// Opens the list of annotations.
    pub fn show_annotations(&mut self, out: &mut Vec<Action>) -> (r: Effects)
        ensures
            run(*old(self), *final(self), r, old(out)@, final(out)@).takes(
                old(self).annotation_list_at(0).shows(),
            ),
    {
        self.modal = Modal::Annotations(AnnotationListState { cursor: 0 });
        Effects::redraw()
    }

    /// The editor for the selected annotation was opened.
    pub open spec fn edit_opened(r: Run, cursor: usize) -> bool {
        let notes = r.from.annotations.listed();
        if cursor < notes.len() {
            let note = notes[cursor as int];
            &&& r.to.modal matches Modal::AnnotationEditor(editor) && editor.target == note.target
                && editor.input.text() == note.text@ && editor.input.caret() == note.text@.len()
                && editor.error is None && editor.mode == (AnnotationEditorMode::Edit {
                id: note.id,
                overview_cursor: cursor,
            })
            &&& r.takes(Controller { modal: r.to.modal, ..r.from }.shows())
        } else {
            r.takes(r.from.quiet())
        }
    }

    /// The selected annotation was removed.
    pub open spec fn deleted(r: Run, cursor: usize) -> bool {
        let notes = r.from.annotations.listed();
        let left = r.to.annotations.listed();
        &&& left == if cursor < notes.len() {
            notes.remove(cursor as int)
        } else {
            notes
        }
        &&& r.takes(
            Controller { annotations: r.to.annotations, ..r.from }.annotation_list_at(
                Self::within_list(cursor as int, left.len() as int),
            ).shows(),
        )
    }

    /// A key for the list of annotations.
    pub open spec fn list_keyed(r: Run, key: Key) -> bool {
        match r.from.modal {
            Modal::Annotations(list) if key.modifiers.at_most_shift() => {
                let len = r.from.annotations.listed().len() as int;
                match key.code {
                    KeyCode::Esc | KeyCode::Char('q') => r.takes(
                        Controller { modal: Modal::Closed, ..r.from }.shows(),
                    ),
                    KeyCode::Down | KeyCode::Char('j') => r.takes(
                        r.from.annotation_list_at(
                            Self::within_list(list.cursor + 1, len),
                        ).shows(),
                    ),
                    KeyCode::Up | KeyCode::Char('k') => r.takes(
                        r.from.annotation_list_at(
                            super::lineselect::above(list.cursor) as int,
                        ).shows(),
                    ),
                    KeyCode::Enter | KeyCode::Char('e') => Self::edit_opened(r, list.cursor),
                    KeyCode::Char('d') => Self::deleted(r, list.cursor),
                    KeyCode::Char('D') => {
                        &&& r.to.annotations.listed().len() == 0
                        &&& r.takes(
                            Controller {
                                annotations: r.to.annotations,
                                ..r.from
                            }.annotation_list_at(0).shows(),
                        )
                    },
                    KeyCode::Char('y') => if len == 0 {
                        r.takes(r.from.quiet())
                    } else {
                        r.takes(
                            Controller { modal: Modal::Closed, ..r.from }.asks(
                                Action::Copy(Clip::Annotations),
                            ),
                        )
                    },
                    _ => r.takes(r.from.quiet()),
                }
            },
            _ => r.takes(r.from.quiet()),
        }
    }

    /// A key for the list of annotations.
    pub fn handle_annotations_key(&mut self, key: Key, out: &mut Vec<Action>) -> (r: Effects)
        ensures
            Self::list_keyed(run(*old(self), *final(self), r, old(out)@, final(out)@), key),
    {
        if !key.modifiers.only_shift() {
            return Effects::noop();
        }
        let cursor: usize = match &self.modal {
            Modal::Annotations(list) => list.cursor,
            _ => {
                return Effects::noop();
            },
        };
        let len: usize = self.annotations.len();
        match key.code {
            KeyCode::Esc | KeyCode::Char('q') => {
                self.modal = Modal::Closed;
                Effects::redraw()
            },
            KeyCode::Down | KeyCode::Char('j') => {
                let next: usize = if len == 0 {
                    0
                } else if cursor >= len - 1 {
                    len - 1
                } else {
                    cursor + 1
                };
                self.modal = Modal::Annotations(AnnotationListState { cursor: next });
                Effects::redraw()
            },
            KeyCode::Up | KeyCode::Char('k') => {
                self.modal = Modal::Annotations(
                    AnnotationListState { cursor: cursor.saturating_sub(1) },
                );
                Effects::redraw()
            },
            KeyCode::Enter | KeyCode::Char('e') => self.edit_selected_annotation(cursor, out),
            KeyCode::Char('d') => self.delete_selected_annotation(cursor, out),
            KeyCode::Char('D') => {
                let _ = self.annotations.clear();
                self.modal = Modal::Annotations(AnnotationListState { cursor: 0 });
                Effects::redraw()
            },
            KeyCode::Char('y') => {
                if len == 0 {
                    return Effects::noop();
                }
                self.modal = Modal::Closed;
                out.push(Action::Copy(Clip::Annotations));
                Effects::redraw()
            },
            _ => Effects::noop(),
        }
    }

    /// Opens the editor for an annotation of the list.
    fn edit_selected_annotation(&mut self, cursor: usize, out: &mut Vec<Action>) -> (r: Effects)
        ensures
            Self::edit_opened(run(*old(self), *final(self), r, old(out)@, final(out)@), cursor),
    {
        let notes = self.annotations.ordered();
        if cursor >= notes.len() {
            return Effects::noop();
        }
        let note = &notes[cursor];
        let editor = AnnotationEditorState {
            target: note.target.clone(),
            input: PromptInput::with_text(note.text.as_str()),
            error: None,
            mode: AnnotationEditorMode::Edit { id: note.id, overview_cursor: cursor },
        };
        self.modal = Modal::AnnotationEditor(editor);
        Effects::redraw()
    }

    /// Removes an annotation of the list.
    fn delete_selected_annotation(&mut self, cursor: usize, out: &mut Vec<Action>) -> (r: Effects)
        ensures
            Self::deleted(run(*old(self), *final(self), r, old(out)@, final(out)@), cursor),
    {
        if cursor < self.annotations.len() {
            self.annotations.remove_at(cursor);
        }
        let len: usize = self.annotations.len();
        let next: usize = if len == 0 {
            0
        } else if cursor >= len {
            len - 1
        } else {
            cursor
        };
        self.modal = Modal::Annotations(AnnotationListState { cursor: next });
        Effects::redraw()
    }

    /// The input changed, and the error that was shown is gone.
    pub open spec fn input_edited(r: Run, edit: Edit) -> bool {
        let before = r.from.modal->AnnotationEditor_0;
        &&& r.to.modal matches Modal::AnnotationEditor(editor) && editor.target == before.target
            && editor.mode == before.mode && editor.error is None && (
        editor.input.text(), editor.input.caret()) == edit.of(
            before.input.text(),
            before.input.caret(),
        )
        &&& r.takes(Controller { modal: r.to.modal, ..r.from }.shows())
    }

    /// The overlay that an editor returns to when it is canceled.
    pub open spec fn canceled(self, mode: AnnotationEditorMode) -> Modal {
        match mode {
            AnnotationEditorMode::Add(Some(s)) => Modal::LineSelect(s),
            AnnotationEditorMode::Add(None) => Modal::Closed,
            AnnotationEditorMode::Edit { overview_cursor, .. } => Modal::Annotations(
                AnnotationListState {
                    cursor: Self::within_list(
                        overview_cursor as int,
                        self.annotations.listed().len() as int,
                    ) as usize,
                },
            ),
        }
    }

    /// The annotation was refused: the editor stays open and tells why.
    pub open spec fn refused(r: Run, error: AnnotationError) -> bool {
        r.takes(
            Controller {
                modal: Modal::AnnotationEditor(
                    AnnotationEditorState {
                        error: Some(error),
                        ..r.from.modal->AnnotationEditor_0
                    },
                ),
                ..r.from
            }.shows(),
        )
    }

    /// A new annotation is in the store.
    pub open spec fn note_added(r: Run, at: int) -> bool {
        let editor = r.from.modal->AnnotationEditor_0;
        &&& 0 <= at <= r.from.annotations.listed().len()
        &&& added_at(
            r.from.annotations.listed(),
            r.to.annotations.listed(),
            at,
            r.from.annotations.coming_id(),
            editor.target,
            editor.input.text(),
        )
    }

    /// The annotation was saved, unless its text is blank or what it changes is gone.
    pub open spec fn saved(r: Run) -> bool {
        let editor = r.from.modal->AnnotationEditor_0;
        let text = editor.input.text();
        if blank(text) {
            Self::refused(r, AnnotationError::EmptyText)
        } else {
            match editor.mode {
                AnnotationEditorMode::Add(_) => if r.from.annotations.coming_id() < u64::MAX {
                    &&& exists|at: int| #[trigger] Self::note_added(r, at)
                    &&& r.takes(
                        Controller {
                            annotations: r.to.annotations,
                            modal: Modal::Closed,
                            ..r.from
                        }.shows(),
                    )
                } else {
                    Self::refused(r, AnnotationError::UnknownAnnotation)
                },
                AnnotationEditorMode::Edit { id, overview_cursor } => if has_id(
                    r.from.annotations.listed(),
                    id,
                ) {
                    &&& edited(
                        r.from.annotations.listed(),
                        r.to.annotations.listed(),
                        id,
                        text,
                    )
                    &&& r.takes(
                        Controller {
                            annotations: r.to.annotations,
                            ..r.from
                        }.annotation_list_at(
                            Self::within_list(
                                overview_cursor as int,
                                r.to.annotations.listed().len() as int,
                            ),
                        ).shows(),
                    )
                } else {
                    Self::refused(r, AnnotationError::UnknownAnnotation)
                },
            }
        }
    }

    /// A key for the annotation editor.
    pub open spec fn editor_keyed(r: Run, key: Key) -> bool {
        match r.from.modal {
            Modal::AnnotationEditor(editor) if key.modifiers.at_most_shift() => match key.code {
                KeyCode::Esc => r.takes(
                    Controller { modal: r.from.canceled(editor.mode), ..r.from }.shows(),
                ),
                KeyCode::Enter => Self::saved(r),
                _ => match edit_of(key.code) {
                    Some(edit) => Self::input_edited(r, edit),
                    None => r.takes(r.from.quiet()),
                },
            },
            _ => r.takes(r.from.quiet()),
        }
    }

    /// A key for the annotation editor.
    pub fn handle_annotation_editor_key(&mut self, key: Key, out: &mut Vec<Action>) -> (r: Effects)
        ensures
            Self::editor_keyed(run(*old(self), *final(self), r, old(out)@, final(out)@), key),
    {
        if !key.modifiers.only_shift() {
            return Effects::noop();
        }
        match &self.modal {
            Modal::AnnotationEditor(_) => {},
            _ => {
                return Effects::noop();
            },
        }
        match key.code {
            KeyCode::Esc => self.cancel_annotation_editor(out),
            KeyCode::Enter => self.save_annotation_editor(out),
            _ => match edit_for(key.code) {
                Some(edit) => self.edit_annotation_input(edit, out),
                None => Effects::noop(),
            },
        }
    }

    /// Changes the input of the editor.
    fn edit_annotation_input(&mut self, edit: Edit, out: &mut Vec<Action>) -> (r: Effects)
        requires
            old(self).modal is AnnotationEditor,
        ensures
            Self::input_edited(run(*old(self), *final(self), r, old(out)@, final(out)@), edit),
    {
        let mut taken = Modal::Closed;
        std::mem::swap(&mut self.modal, &mut taken);
        if let Modal::AnnotationEditor(editor) = taken {
            let AnnotationEditorState { target, input, error: _, mode } = editor;
            let mut input = input;
            input.apply(edit);
            self.modal = Modal::AnnotationEditor(
                AnnotationEditorState { target, input, error: None, mode },
            );
        }
        Effects::redraw()
    }

    /// Closes the editor without saving.
    fn cancel_annotation_editor(&mut self, out: &mut Vec<Action>) -> (r: Effects)
        requires
            old(self).modal is AnnotationEditor,
        ensures
            run(*old(self), *final(self), r, old(out)@, final(out)@).takes(
                Controller {
                    modal: old(self).canceled(old(self).modal->AnnotationEditor_0.mode),
                    ..*old(self)
                }.shows(),
            ),
    {
        let len: usize = self.annotations.len();
        let next = match &self.modal {
            Modal::AnnotationEditor(editor) => match editor.mode {
                AnnotationEditorMode::Add(Some(s)) => Modal::LineSelect(s),
                AnnotationEditorMode::Add(None) => Modal::Closed,
                AnnotationEditorMode::Edit { overview_cursor, .. } => Modal::Annotations(
                    AnnotationListState { cursor: in_list(overview_cursor, len) },
                ),
            },
            _ => Modal::Closed,
        };
        self.modal = next;
        Effects::redraw()
    }

    /// Saves what the editor holds.
    fn save_annotation_editor(&mut self, out: &mut Vec<Action>) -> (r: Effects)
        requires
            old(self).modal is AnnotationEditor,
        ensures
            Self::saved(run(*old(self), *final(self), r, old(out)@, final(out)@)),
    {
        let mut taken = Modal::Closed;
        std::mem::swap(&mut self.modal, &mut taken);
        if let Modal::AnnotationEditor(editor) = taken {
            let AnnotationEditorState { target, input, error: _, mode } = editor;
            let refused = match mode {
                AnnotationEditorMode::Add(_) => match self.annotations.add_note(
                    target.clone(),
                    input.query(),
                ) {
                    Ok(_) => {
                        proof {
                            let r = run(*old(self), *self, Effects::repaint(), old(out)@, out@);
                            let at = choose|at: int|
                                {
                                    &&& 0 <= at <= old(self).annotations.listed().len()
                                    &&& #[trigger] added_at(
                                        old(self).annotations.listed(),
                                        self.annotations.listed(),
                                        at,
                                        old(self).annotations.coming_id(),
                                        target,
                                        input.text(),
                                    )
                                };
                            assert(Self::note_added(r, at));
                        }
                        None
                    },
                    Err(error) => Some(error),
                },
                AnnotationEditorMode::Edit { id, overview_cursor } => match self.annotations.edit(
                    id,
                    input.query(),
                ) {
                    Ok(()) => {
                        self.modal = Modal::Annotations(
                            AnnotationListState {
                                cursor: in_list(overview_cursor, self.annotations.len()),
                            },
                        );
                        None
                    },
                    Err(error) => Some(error),
                },
            };
            if let Some(error) = refused {
                self.modal = Modal::AnnotationEditor(
                    AnnotationEditorState { target, input, error: Some(error), mode },
                );
            }
        }
        Effects::redraw()
    }

    /// Whether the list of annotations or the editor is open.
    pub fn annotation_modal_open(&self) -> (r: bool)
        ensures
            r == (self.modal is Annotations || self.modal is AnnotationEditor),
    {
        match &self.modal {
            Modal::Annotations(_) | Modal::AnnotationEditor(_) => true,
            _ => false,
        }
    }

    /// Whether keys go to the annotations as they are typed.
    pub fn annotation_raw_keys_owned(&self) -> (r: bool)
        ensures
            r == (self.modal is Annotations || self.modal is AnnotationEditor
                || self.modal is DiscardConfirm),
    {
        self.annotation_modal_open() || self.discard_confirm_open()
    }

    /// A line of the displayed file, from 1, is annotated, and its source displayed.
    pub open spec fn line_annotated(self, line: int) -> bool {
        &&& self.pane.body.source_lines() is Some
        &&& exists|i: int| #[trigger] self.note_covers(i, line)
    }

    /// The annotation `i` covers a line of the displayed file.
    pub open spec fn note_covers(self, i: int, line: int) -> bool {
        &&& self.note_displayed(i)
        &&& self.annotations.listed()[i].target.range() matches Some(range) && range.from_line()
            <= line <= range.to_line()
    }

    /// The annotation `i` belongs to the displayed file.
    pub open spec fn note_displayed(self, i: int) -> bool {
        &&& 0 <= i < self.annotations.listed().len()
        &&& self.pane.path matches Some(path) && relative(path@, self.repo.root@) == Some(
            self.annotations.listed()[i].target.file(),
        )
    }

    /// The annotation `i` is about a file.
    pub open spec fn note_on(self, i: int, file: Seq<u8>) -> bool {
        &&& 0 <= i < self.annotations.listed().len()
        &&& file == joined(self.repo.root@, self.annotations.listed()[i].target.file())
    }

    /// The files are those that annotations are about, each of them once.
    pub open spec fn files_listed(self, files: Seq<FilePath>) -> bool {
        &&& path_views(files).no_duplicates()
        &&& forall|file: Seq<u8>| #[trigger]
            path_views(files).contains(file) <==> exists|i: int| self.note_on(i, file)
    }

    /// The files that annotations are about.
    fn annotated_files(&self) -> (r: Vec<FilePath>)
        ensures
            self.files_listed(r@),
    {
        let notes = self.annotations.ordered();
        let mut files: Vec<FilePath> = Vec::new();
        for i in 0..notes.len()
            invariant
                notes@ == self.annotations.listed(),
                path_views(files@).no_duplicates(),
                forall|file: Seq<u8>| #[trigger]
                    path_views(files@).contains(file) <==> exists|k: int|
                        k < i && #[trigger] self.note_on(k, file),
        {
            let path = self.repo.root.join(notes[i].target.path());
            let ghost before = path_views(files@);
            let ghost new = path@;
            assert(self.note_on(i as int, new));
            if !lists_path(&files, &path) {
                files.push(path);
                assert(path_views(files@) =~= before.push(new));
                assert(path_views(files@)[before.len() as int] == new);
            }
            let ghost after = path_views(files@);
            assert forall|file: Seq<u8>| #[trigger] after.contains(file) <==> exists|k: int|
                k < i + 1 && #[trigger] self.note_on(k, file) by {
                if after.contains(file) {
                    let p = choose|p: int| 0 <= p < after.len() && after[p] == file;
                    if p < before.len() {
                        assert(before[p] == file);
                        assert(before.contains(file));
                    } else {
                        assert(self.note_on(i as int, file));
                    }
                }
                if exists|k: int| k < i + 1 && #[trigger] self.note_on(k, file) {
                    let k = choose|k: int| k < i + 1 && #[trigger] self.note_on(k, file);
                    if k < i {
                        assert(before.contains(file));
                        let p = choose|p: int| 0 <= p < before.len() && before[p] == file;
                        assert(after[p] == file);
                    } else {
                        assert(file == new);
                        assert(after.contains(new));
                    }
                }
            }
        }
        files
    }

    /// The marks for annotations: the annotated files, whether the displayed one is among them, and
    /// its annotated lines.
    pub open spec fn indicated_by(self, view: AnnotationIndicatorsView) -> bool {
        &&& self.files_listed(view.annotated_files@)
        &&& view.displayed_file_annotated == exists|i: int| #[trigger] self.note_displayed(i)
        &&& separated(view.displayed_line_ranges@)
        &&& forall|line: int|
            covered(view.displayed_line_ranges@, line) <==> self.line_annotated(line)
    }

    /// The marks for annotations.
    pub fn annotation_indicators_view(&self) -> (r: AnnotationIndicatorsView)
        ensures
            self.indicated_by(r),
    {
        let shown = match &self.pane.path {
            Some(path) => path.strip_prefix(&self.repo.root),
            None => None,
        };
        let source = match &self.pane.body {
            super::state::Body::Rendered(result) => result.source.is_some(),
            _ => false,
        };
        let notes = self.annotations.ordered();
        let mut ranges: Vec<LineRange> = Vec::new();
        let mut annotated = false;
        let ghost mut covers: Seq<int> = Seq::empty();
        for i in 0..notes.len()
            invariant
                notes@ == self.annotations.listed(),
                source == self.pane.body.source_lines() is Some,
                match shown {
                    Some(rel) => self.pane.path matches Some(path) && relative(
                        path@,
                        self.repo.root@,
                    ) == Some(rel@),
                    None => !(self.pane.path matches Some(path) && relative(
                        path@,
                        self.repo.root@,
                    ) is Some),
                },
                annotated == exists|k: int| k < i && #[trigger] self.note_displayed(k),
                covers.len() == ranges@.len(),
                forall|j: int|
                    0 <= j < covers.len() ==> 0 <= #[trigger] covers[j] < i && source
                        && self.note_displayed(covers[j])
                        && self.annotations.listed()[covers[j]].target.range() == Some(ranges@[j]),
                forall|k: int|
                    k < i && source && #[trigger] self.note_displayed(k) && notes@[k].target.range()
                        is Some ==> exists|j: int| 0 <= j < covers.len() && #[trigger] covers[j] == k,
        {
            let target = &notes[i].target;
            let displayed = match &shown {
                Some(rel) => rel.same(target.path()),
                None => false,
            };
            assert(displayed == self.note_displayed(i as int));
            let ghost (old_covers, old_ranges) = (covers, ranges@);
            if displayed {
                annotated = true;
                if source {
                    if let Some(range) = target.lines() {
                        ranges.push(range);
                        proof {
                            covers = covers.push(i as int);
                            assert(covers[old_covers.len() as int] == i);
                        }
                    }
                }
            }
            assert forall|k: int|
                k < i + 1 && source && #[trigger] self.note_displayed(k) && notes@[k].target.range()
                    is Some implies exists|j: int|
                0 <= j < covers.len() && #[trigger] covers[j] == k by {
                if k < i {
                    let j = choose|j: int| 0 <= j < old_covers.len() && #[trigger] old_covers[j] == k;
                    assert(covers[j] == k);
                } else {
                    assert(covers[old_covers.len() as int] == k);
                }
            }
        }
        let ghost all = ranges@;
        assert forall|line: int| covered(all, line) <==> self.line_annotated(line) by {
            if covered(all, line) {
                let j = choose|j: int| crate::selection::covers(all, j, line);
                assert(self.note_covers(covers[j], line));
            }
            if self.line_annotated(line) {
                let k = choose|k: int| #[trigger] self.note_covers(k, line);
                assert(self.note_displayed(k));
                let j = choose|j: int| 0 <= j < covers.len() && #[trigger] covers[j] == k;
                assert(crate::selection::covers(all, j, line));
            }
        }
        let merged = merge_line_ranges(ranges);
        assert forall|line: int|
            covered(merged@, line) <==> self.line_annotated(line) by {
            assert(covered(all, line) <==> self.line_annotated(line));
        }
        AnnotationIndicatorsView {
            annotated_files: self.annotated_files(),
            displayed_file_annotated: annotated,
            displayed_line_ranges: merged,
        }
    }
}

/// Whether a path is among others.
fn lists_path(files: &Vec<FilePath>, path: &FilePath) -> (r: bool)
    ensures
        r == path_views(files@).contains(path@),
{
    for i in 0..files.len()
        invariant
            forall|k: int| 0 <= k < i ==> (#[trigger] path_views(files@)[k]) != path@,
    {
        if files[i].same(path) {
            assert(path_views(files@)[i as int] == path@);
            return true;
        }
    }
    false
}

/// The marks for annotations.
#[derive(Debug)]
pub struct AnnotationIndicatorsView {
    /// The annotated files, each once.
    pub annotated_files: Vec<FilePath>,
    pub displayed_file_annotated: bool,
    pub displayed_line_ranges: Vec<LineRange>,
}

/// The change of an input that a key asks for.
pub open spec fn edit_of(code: KeyCode) -> Option<Edit> {
    match code {
        KeyCode::Backspace => Some(Edit::Backspace),
        KeyCode::Delete => Some(Edit::Delete),
        KeyCode::Left => Some(Edit::Left),
        KeyCode::Right => Some(Edit::Right),
        KeyCode::Home => Some(Edit::Home),
        KeyCode::End => Some(Edit::End),
        KeyCode::Char(c) => Some(Edit::Insert(c)),
        _ => None,
    }
}

/// The change of an input that a key asks for.
pub fn edit_for(code: KeyCode) -> (r: Option<Edit>)
    ensures
        r == edit_of(code),
{
    match code {
        KeyCode::Backspace => Some(Edit::Backspace),
        KeyCode::Delete => Some(Edit::Delete),
        KeyCode::Left => Some(Edit::Left),
        KeyCode::Right => Some(Edit::Right),
        KeyCode::Home => Some(Edit::Home),
        KeyCode::End => Some(Edit::End),
        KeyCode::Char(c) => Some(Edit::Insert(c)),
        _ => None,
    }
}

/// A position kept within a list.
fn in_list(cursor: usize, len: usize) -> (r: usize)
    ensures
        r == Controller::within_list(cursor as int, len as int),
{
    if len == 0 {
        0
    } else if cursor >= len {
        len - 1
    } else {
        cursor
    }
}

/// A blank text is never saved: the annotations stay as they were and the editor stays open.
pub proof fn blank_notes_are_refused(r: Run)
    requires
        r.from.modal is AnnotationEditor,
        blank(r.from.modal->AnnotationEditor_0.input.text()),
        Controller::saved(r),
    ensures
        r.to.annotations == r.from.annotations,
        r.to.modal matches Modal::AnnotationEditor(editor) && editor.error == Some(
            AnnotationError::EmptyText,
        ) && editor.input == r.from.modal->AnnotationEditor_0.input,
{
}

/// Canceling the editor changes no annotation, and restores the line selection that it was opened
/// from.
pub proof fn canceled_editors_change_nothing(r: Run, key: Key)
    requires
        r.from.modal is AnnotationEditor,
        key.code == KeyCode::Esc,
        Controller::editor_keyed(r, key),
    ensures
        r.to.annotations == r.from.annotations,
        key.modifiers.at_most_shift() ==> (
        r.from.modal->AnnotationEditor_0.mode matches AnnotationEditorMode::Add(Some(s))
            ==> r.to.modal == Modal::LineSelect(s)),
{
}

} // verus!
