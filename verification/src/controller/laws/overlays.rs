//! What the overlays promise.

use crate::annotation::{export, listed_before, Annotation};
use crate::controller::actions::{Action, Clip, Place, Run, SearchOutcome, Then, TreeOp};
use crate::controller::content::Layout;
use crate::controller::context_menu::menu_items;
use crate::controller::help::HelpMove;
use crate::controller::state::{
    AnnotationEditorMode, ContextMenuState, Controller, Drag, HelpState, Modal, NodeKind, Notice,
    SearchFailure,
};
use crate::input::{within, Intent, Key, KeyCode, Mouse, MouseButton, MouseKind};
use crate::paths::{parent_of, relative};
use crate::pointer::{double_click, ClickOrigin};
use crate::prompt::Edit;
use crate::text::decimal;
use vstd::prelude::*;

verus! {

/// The finder indexes the files for the selected row, and is narrowed to the row's directory as
/// seen from the root: the directory itself, or the one that holds the file.
pub proof fn the_finder_opens_in_the_directory(r: Run, place: Place, candidates: Seq<String>, dir: Seq<u8>)
    requires
        Controller::finder_opened(r, place, candidates),
        place.kind == NodeKind::Dir && dir == place.path@ || place.kind == NodeKind::File
            && parent_of(place.path@) == Some(dir),
        relative(dir, r.from.repo.root@) is Some,
    ensures
        r.to.modal matches Modal::Finder(f) && f.files() == candidates && f.query_text().len() == 0
            && f.ranked().len() == 0 && !f.whole() && f.scope_dir() == crate::paths::lossy_text(
            relative(dir, r.from.repo.root@)->0,
        ),
        r.to.pointer.last_click is None,
        r.to.tree == r.from.tree,
{
}

/// The file that the finder opens is the one at the selected position of its matches, and the
/// finder is gone.
pub proof fn the_finder_opens_the_selected_match(r: Run, key: Key)
    requires
        Controller::finder_keyed(r, key),
        r.from.modal matches Modal::Finder(f) && f.ranked().len() > 0,
        key.code == KeyCode::Enter,
    ensures
        ({
            let f = r.from.modal->Finder_0;
            let name = f.files()[f.ranked()[f.position()] as int];
            r.after == r.before.push(
                Action::Tree {
                    op: TreeOp::RevealNamed { root: r.from.repo.root, name },
                    then: Then::Found(name),
                },
            )
        }),
        r.to.modal is Closed,
{
}

/// The arrow keys of the finder move its selection by one, within the matches; typing starts the
/// selection over, and Tab searches the other scope for the same text.
pub proof fn finder_keys_move_the_selection(r: Run, key: Key)
    requires
        Controller::finder_keyed(r, key),
        r.from.modal matches Modal::Finder(f) && f.sound(),
    ensures
        ({
            let f = r.from.modal->Finder_0;
            let len = f.ranked().len();
            &&& key.code == KeyCode::Down ==> (r.to.modal matches Modal::Finder(n) && n.ranked()
                == f.ranked() && (f.position() + 1 < len ==> n.position() == f.position() + 1) && (
            f.position() + 1 == len ==> n.position() == f.position()))
            &&& key.code == KeyCode::Up ==> (r.to.modal matches Modal::Finder(n) && n.ranked()
                == f.ranked() && (f.position() > 0 ==> n.position() == f.position() - 1) && (
            f.position() == 0 ==> n.position() == 0))
            &&& key.code == KeyCode::Tab ==> (r.to.modal matches Modal::Finder(n) && n.whole()
                != f.whole() && n.query_text() == f.query_text() && n.position() == 0)
            &&& (key.code matches KeyCode::Char(c) && key.modifiers.at_most_shift()) ==> (
            r.to.modal matches Modal::Finder(n) && n.query_text() == f.query_text().push(
                key.code->Char_0,
            ) && n.position() == 0 && n.whole() == f.whole())
            &&& key.code == KeyCode::Backspace && f.query_caret() == f.query_text().len() > 0 ==> (
            r.to.modal matches Modal::Finder(n) && n.query_text() == f.query_text().drop_last())
            &&& key.code == KeyCode::Right && f.offset() + 8 <= u16::MAX ==> (
            r.to.modal matches Modal::Finder(n) && n.offset() == f.offset() + 8)
            &&& key.code == KeyCode::Left && f.offset() >= 8 ==> (
            r.to.modal matches Modal::Finder(n) && n.offset() == f.offset() - 8)
            &&& key.code == KeyCode::Esc ==> r.to.modal is Closed
        }),
        key.code != KeyCode::Enter ==> r.after == r.before,
        r.to.pointer.last_click is None || !(r.from.modal is Finder) || key.code == KeyCode::Enter,
{
    if key.code == KeyCode::Backspace {
        let f = r.from.modal->Finder_0;
        let text = f.query_text();
        if f.query_caret() == text.len() && text.len() > 0 {
            assert(text.remove(text.len() - 1) =~= text.drop_last());
        }
    }
}

/// A click on a row of the finder selects the match that is drawn there, and the second one opens
/// it.
pub proof fn finder_clicks_select_what_is_drawn_there(r: Run, ev: Mouse, now: u64)
    requires
        Controller::finder_moused(r, ev, now),
        r.from.modal matches Modal::Finder(f) && f.sound(),
        !ev.modifiers.shift,
        ev.kind == MouseKind::Up(MouseButton::Left),
        r.from.pointer.drag is None,
        !within(r.from.screen.geom.finder_scope_button, ev.column, ev.row),
        within(r.from.screen.geom.finder_rows, ev.column, ev.row),
    ensures
        ({
            let f = r.from.modal->Finder_0;
            let geom = r.from.screen.geom;
            let index = geom.finder_scroll + (ev.row - geom.finder_rows->0.y);
            let double = double_click(r.from.pointer.last_click, ev.row, now, ClickOrigin::Finder);
            &&& index < f.ranked().len() && !double ==> (r.to.modal matches Modal::Finder(n)
                && n.position() == index && n.ranked() == f.ranked()) && (
            r.to.pointer.last_click matches Some(click) && click.row == ev.row && click.at == now)
            &&& index < f.ranked().len() && double ==> r.to.modal is Closed && r.after
                == r.before.push(
                Action::Tree {
                    op: TreeOp::RevealNamed {
                        root: r.from.repo.root,
                        name: f.files()[f.ranked()[index] as int],
                    },
                    then: Then::Found(f.files()[f.ranked()[index] as int]),
                },
            )
            &&& index >= f.ranked().len() ==> r.to.modal == r.from.modal && r.after == r.before
        }),
{
}

/// The wheel over the finder moves its selection: down towards the last match, up towards the
/// first.
pub proof fn the_wheel_moves_the_finder(r: Run, ev: Mouse, now: u64)
    requires
        Controller::finder_moused(r, ev, now),
        r.from.modal matches Modal::Finder(f) && f.sound(),
        !ev.modifiers.shift,
    ensures
        ({
            let f = r.from.modal->Finder_0;
            let step = r.from.prefs.wheel_step;
            &&& ev.kind == MouseKind::ScrollDown && f.position() + step < f.ranked().len() ==> (
            r.to.modal matches Modal::Finder(n) && n.position() == f.position() + step)
            &&& ev.kind == MouseKind::ScrollUp && f.position() >= step ==> (
            r.to.modal matches Modal::Finder(n) && n.position() == f.position() - step)
        }),
{
}

/// The picker's keys move its selection by one row and its columns by eight, within the rows; Enter
/// switches to the selected worktree, and closing switches nowhere.
pub proof fn the_picker_follows_its_keys(state: Controller, intent: Intent)
    requires
        state.modal matches Modal::Picker(p) && p.cursor < p.rows@.len(),
    ensures
        ({
            let p = state.modal->Picker_0;
            let step = state.picker_intent_step(intent);
            &&& intent == Intent::NavDown && p.cursor + 1 < p.rows@.len() ==> (
            step.next.modal matches Modal::Picker(n) && n.cursor == p.cursor + 1 && n.rows
                == p.rows)
            &&& intent == Intent::NavDown && p.cursor + 1 == p.rows@.len() ==> step.next == state
            &&& intent == Intent::NavUp && p.cursor > 0 ==> (
            step.next.modal matches Modal::Picker(n) && n.cursor == p.cursor - 1 && n.rows
                == p.rows)
            &&& intent == Intent::NavUp && p.cursor == 0 ==> step.next == state
            &&& intent == Intent::Expand && p.hscroll + 8 <= u16::MAX ==> (
            step.next.modal matches Modal::Picker(n) && n.hscroll == p.hscroll + 8 && n.cursor
                == p.cursor)
            &&& intent == Intent::Collapse && p.hscroll >= 8 ==> (
            step.next.modal matches Modal::Picker(n) && n.hscroll == p.hscroll - 8 && n.cursor
                == p.cursor)
            &&& intent == Intent::Activate ==> step.next.modal is Closed && step.actions == seq![
                Action::ResolveRoot(p.rows@[p.cursor as int].path),
            ]
            &&& intent == Intent::Close ==> step.next.modal is Closed && step.actions.len() == 0
            &&& intent != Intent::Activate ==> step.actions.len() == 0
        }),
{
    let p = state.modal->Picker_0;
    let len: usize = p.rows.len();
    assert(len == p.rows@.len());
}

/// Worktrees are listed in a repository only; where there are none, the user is told.
pub proof fn worktrees_belong_to_a_repository(state: Controller)
    ensures
        state.repo.is_git_repo ==> state.picker_step().actions == seq![Action::ListWorktrees],
        !state.repo.is_git_repo ==> state.picker_step().actions.len() == 0
            && state.picker_step().next.notice == Some(Notice::NoRepository),
{
}

/// The menu of a row offers a workspace, a terminal and both forms of the path, by number, by
/// shortcut and by selection alike.
pub proof fn menu_entries_are_chosen_alike(menu: ContextMenuState, anchor: (u16, u16))
    requires
        menu.fresh(anchor),
    ensures
        menu.items@.len() == 4,
        menu.chosen() == Some(Intent::OpenWorkspace),
        menu.numbered('1') == Some(Intent::OpenWorkspace),
        menu.numbered('2') == Some(Intent::OpenPaneHere),
        menu.numbered('3') == Some(Intent::CopyAbsPath),
        menu.numbered('4') == Some(Intent::CopyRepoPath),
        menu.numbered('5') is None,
        menu.numbered('0') is None,
        forall|k: int|
            0 <= k < 4 ==> #[trigger] (ContextMenuState { cursor: k as usize, ..menu }).chosen()
                == Some(menu.items@[k].intent),
{
}

/// Each entry's shortcut chooses it.
pub proof fn menu_shortcuts_choose_their_entry()
    ensures
        crate::controller::context_menu::shortcut_intent(menu_items(), 's') == Some(
            Intent::OpenWorkspace,
        ),
        crate::controller::context_menu::shortcut_intent(menu_items(), 'G') == Some(
            Intent::OpenPaneHere,
        ),
        crate::controller::context_menu::shortcut_intent(menu_items(), 'Y') == Some(Intent::CopyAbsPath),
        crate::controller::context_menu::shortcut_intent(menu_items(), 'y') == Some(
            Intent::CopyRepoPath,
        ),
{
    reveal_strlit("s");
    reveal_strlit("G");
    reveal_strlit("Y");
    reveal_strlit("y");
    let items = menu_items();
    reveal_with_fuel(crate::controller::context_menu::shortcut_intent, 5);
    assert("s"@ =~= seq!['s']);
    assert("G"@ =~= seq!['G']);
    assert("Y"@ =~= seq!['Y']);
    assert("y"@ =~= seq!['y']);
    assert(seq!['s'][0] == 's' && seq!['G'][0] == 'G' && seq!['Y'][0] == 'Y' && seq!['y'][0]
        == 'y');
    assert(items.skip(1)[0] == items[1]);
    assert(items.skip(1).skip(1)[0] == items[2]);
    assert(items.skip(1).skip(1).skip(1)[0] == items[3]);
}

/// A press on the menu chooses the entry that is drawn there, two rows below its top for the first;
/// elsewhere it closes the menu. Its release then does nothing.
pub proof fn menu_presses_choose_what_is_drawn_there(state: Controller, col: u16, row: u16)
    requires
        state.modal is ContextMenu,
        state.screen.geom.context_menu_rect is Some,
    ensures
        ({
            let rect = state.screen.geom.context_menu_rect->0;
            let items = state.modal->ContextMenu_0.items@;
            let k = row - rect.y - 2;
            &&& rect.x <= col < rect.x + rect.width && 0 <= k < items.len() ==> state.entry_under(
                rect,
                col,
                row,
            ) == Some(items[k].intent)
            &&& col < rect.x || col >= rect.x + rect.width || k < 0 || k >= items.len()
                ==> state.entry_under(rect, col, row) is None
        }),
        state.menu_pressed().modal is Closed,
        state.menu_pressed().pointer.drag == Some(Drag::ModalConsumed),
{
}

/// The menu is opened by key below the selected row.
pub proof fn menus_open_below_their_row(r: Run, layout: Layout, now: u64)
    requires
        Controller::overlay_done(r, Intent::ShowContextMenu, layout, now),
        r.from.screen.geom.tree_scroll <= r.from.tree.cursor < r.from.tree.nodes@.len(),
        r.from.tree.cursor + 2 <= u16::MAX,
    ensures
        r.to.modal matches Modal::ContextMenu(menu) && menu.cursor == 0 && menu.anchor.0 == 8
            && menu.anchor.1 == r.from.tree.cursor - r.from.screen.geom.tree_scroll + 2,
{
}

/// The number of a help section shows it, and scrolling moves the shown section by a row and back.
pub proof fn help_keys_show_and_scroll(start: HelpState, next: HelpState, rows: u16, height: u16, k: usize)
    requires
        start.active < start.sections@.len(),
    ensures
        start.leads(HelpMove::Select(k), rows, height, next) && k < start.sections@.len()
            ==> next.active == k,
        start.leads(HelpMove::Select(k), rows, height, next) && k >= start.sections@.len()
            ==> next.active == start.active,
        start.leads(HelpMove::Scroll(1), rows, height, next)
            && start.sections@[start.active as int].scroll + 1 + height <= rows
            ==> next.sections@[start.active as int].scroll
            == start.sections@[start.active as int].scroll + 1 && next.active == start.active,
        start.leads(HelpMove::Up, rows, height, next) && start.sections@[start.active as int].scroll
            > 0 ==> next.sections@[start.active as int].scroll
            == start.sections@[start.active as int].scroll - 1 && next.active == start.active,
        start.leads(HelpMove::Next, rows, height, next) && start.active + 1
            < start.sections@.len() ==> next.active == start.active + 1,
        start.leads(HelpMove::Next, rows, height, next) && start.active + 1
            == start.sections@.len() ==> next.active == 0,
{
}

/// The keys of the help overlay: Tab and the arrow to the right show the next section, `j` scrolls
/// down and `k` up, digits show the section of that number, and `?`, `q` and Esc close it.
pub proof fn help_keys_do_what_the_footer_says(c: char)
    ensures
        Controller::help_move_of(KeyCode::Tab) == Some(HelpMove::Next),
        Controller::help_move_of(KeyCode::Right) == Some(HelpMove::Next),
        Controller::help_move_of(KeyCode::Left) == Some(HelpMove::Previous),
        Controller::help_move_of(KeyCode::Char('j')) == Some(HelpMove::Scroll(1)),
        Controller::help_move_of(KeyCode::Char('k')) == Some(HelpMove::Up),
        '1' <= c <= '9' ==> (Controller::help_move_of(KeyCode::Char(c)) matches Some(
            HelpMove::Select(k),
        ) && k == c as int - '1' as int),
{
}

/// The help overlay is closed by its keys, without a trace.
pub proof fn the_help_closes_on_its_keys(r: Run, key: Key)
    requires
        Controller::help_keyed(r, key),
        r.from.modal is Help,
        key.modifiers.at_most_shift(),
        key.code == KeyCode::Char('?') || key.code == KeyCode::Esc || key.code
            == KeyCode::Char('q'),
    ensures
        r.to.modal is Closed,
        r.to.pane == r.from.pane,
        r.after == r.before,
{
}

/// The list of annotations: the arrow keys move by one within the list, `d` removes the selected
/// annotation and no other, `D` all of them, `y` copies them, and Enter opens the selected one with
/// its text.
pub proof fn list_keys_act_on_the_selected_note(r: Run, key: Key)
    requires
        Controller::list_keyed(r, key),
        r.from.modal matches Modal::Annotations(list) && list.cursor
            < r.from.annotations.listed().len(),
        key.modifiers.at_most_shift(),
        r.from.annotations.listed().len() <= usize::MAX,
    ensures
        ({
            let at = r.from.modal->Annotations_0.cursor;
            let notes = r.from.annotations.listed();
            let left = r.to.annotations.listed();
            &&& key.code == KeyCode::Char('d') ==> left.len() == notes.len() - 1 && (
            forall|k: int| 0 <= k < at ==> left[k] == notes[k]) && (forall|k: int|
                at <= k < left.len() ==> left[k] == notes[k + 1])
            &&& key.code == KeyCode::Char('d') && at + 1 < notes.len() ==> (
            r.to.modal matches Modal::Annotations(n) && n.cursor == at)
            &&& key.code == KeyCode::Char('D') ==> left.len() == 0
            &&& key.code == KeyCode::Char('y') ==> r.after == r.before.push(
                Action::Copy(Clip::Annotations),
            ) && left == notes && r.to.modal is Closed
            &&& key.code == KeyCode::Enter || key.code == KeyCode::Char('e') ==> left == notes && (
            r.to.modal matches Modal::AnnotationEditor(e) && e.target == notes[at as int].target
                && e.input.text() == notes[at as int].text@ && e.input.caret()
                == notes[at as int].text@.len())
            &&& key.code == KeyCode::Down && at + 1 < notes.len() ==> (
            r.to.modal matches Modal::Annotations(n) && n.cursor == at + 1)
            &&& key.code == KeyCode::Down && at + 1 == notes.len() ==> (
            r.to.modal matches Modal::Annotations(n) && n.cursor == at)
            &&& key.code == KeyCode::Up && at > 0 ==> (r.to.modal matches Modal::Annotations(n)
                && n.cursor == at - 1)
            &&& key.code == KeyCode::Esc ==> r.to.modal is Closed && left == notes && r.after
                == r.before
        }),
{
}

/// Saving a new annotation adds it and keeps the others; saving a changed one replaces its text and
/// nothing else.
pub proof fn saved_notes_are_kept(r: Run, key: Key)
    requires
        Controller::editor_keyed(r, key),
        r.from.modal is AnnotationEditor,
        key.code == KeyCode::Enter,
        key.modifiers.at_most_shift(),
        !crate::annotation::blank(r.from.modal->AnnotationEditor_0.input.text()),
    ensures
        ({
            let editor = r.from.modal->AnnotationEditor_0;
            let notes = r.from.annotations.listed();
            let now = r.to.annotations.listed();
            &&& editor.mode is Add && r.from.annotations.coming_id() < u64::MAX ==> now.len()
                == notes.len() + 1 && r.to.modal is Closed && exists|k: int|
                0 <= k < now.len() && (#[trigger] now[k]).target == editor.target && now[k].text@
                    == editor.input.text() && now.remove(k) == notes
            &&& (editor.mode matches AnnotationEditorMode::Edit { id, overview_cursor }
                && crate::annotation::has_id(notes, id)) ==> now.len() == notes.len() && (
            forall|k: int|
                0 <= k < notes.len() ==> (#[trigger] now[k]).target == notes[k].target && (
                notes[k].id == editor.mode->Edit_id ==> now[k].text@ == editor.input.text()) && (
                notes[k].id != editor.mode->Edit_id ==> now[k].text@ == notes[k].text@)) && (
            r.to.modal is Annotations)
        }),
{
    let editor = r.from.modal->AnnotationEditor_0;
    if editor.mode is Add && r.from.annotations.coming_id() < u64::MAX {
        let at = choose|at: int| #[trigger] Controller::note_added(r, at);
        let now = r.to.annotations.listed();
        assert(now[at].target == editor.target);
    }
}

/// Keys edit the text at the caret: a character is inserted there, and Backspace takes back what
/// was typed.
pub proof fn typed_text_is_taken_back(text: Seq<char>, caret: nat, c: char)
    requires
        caret <= text.len(),
    ensures
        ({
            let (typed, there) = Edit::Insert(c).of(text, caret);
            &&& typed.len() == text.len() + 1 && typed[caret as int] == c && there == caret + 1
            &&& Edit::Backspace.of(typed, there) == (text, caret)
            &&& Edit::Delete.of(typed, caret).0 == text
        }),
        caret < text.len() ==> Edit::Left.of(text, caret + 1).1 == caret,
        caret < text.len() ==> Edit::Right.of(text, caret).1 == caret + 1,
        Edit::Home.of(text, caret) == (text, 0nat),
        Edit::End.of(text, caret) == (text, text.len()),
        Edit::Left.of(text, caret).0 == text && Edit::Right.of(text, caret).0 == text,
{
    let (typed, there) = Edit::Insert(c).of(text, caret);
    assert(typed.remove(caret as int) =~= text);
}

/// An annotation is opened for the selected file as seen from the root, or the user is told why
/// not; from a selection of lines, for those lines.
pub proof fn annotations_are_about_the_selection(r: Run)
    requires
        r.from.tree.cursor < r.from.tree.nodes@.len(),
    ensures
        ({
            let node = r.from.tree.nodes@[r.from.tree.cursor as int];
            let rel = relative(node.path@, r.from.repo.root@);
            &&& Controller::annotation_opened(r) && node.kind == NodeKind::Dir ==> r.to.notice
                == Some(Notice::DirectoryNotAnnotated) && r.to.modal == r.from.modal
            &&& Controller::annotation_opened(r) && node.kind == NodeKind::File && rel is None
                ==> r.to.notice == Some(Notice::OutsideCurrentRoot)
            &&& Controller::annotation_opened(r) && node.kind == NodeKind::File && rel is Some
                && crate::annotation::annotatable(rel->0) ==> (
            r.to.modal matches Modal::AnnotationEditor(e) && e.target.file() == rel->0
                && e.target.range() is None && e.input.text().len() == 0)
            &&& Controller::selection_annotated(r) && node.kind == NodeKind::File && rel is Some
                && crate::annotation::annotatable(rel->0) && (r.from.modal matches Modal::LineSelect(
                s,
            ) && s.anchor >= 1 && s.marker >= 1) ==> (r.to.modal matches Modal::AnnotationEditor(e)
                && e.target.file() == rel->0 && (e.target.range() matches Some(lines) && {
                let s = r.from.modal->LineSelect_0;
                &&& lines.from_line() <= lines.to_line()
                &&& lines.from_line() == s.anchor && lines.to_line() == s.marker
                    || lines.from_line() == s.marker && lines.to_line() == s.anchor
            }))
        }),
{
}

/// Annotations are listed file by file, in a file those of the whole file first and then from top
/// to bottom, and of the same lines the older first.
pub proof fn annotations_are_listed_from_top_to_bottom(a: Annotation, b: Annotation)
    requires
        listed_before(a, b),
        a.target.file() == b.target.file(),
        a.target.range() matches Some(x) ==> 1 <= x.from_line() <= x.to_line(),
        b.target.range() matches Some(y) ==> 1 <= y.from_line() <= y.to_line(),
    ensures
        b.target.range() is None ==> a.target.range() is None,
        (a.target.range() matches Some(x) && b.target.range() matches Some(y))
            ==> a.target.range()->0.from_line() <= b.target.range()->0.from_line() && (
        a.target.range()->0.from_line() == b.target.range()->0.from_line()
            ==> a.target.range()->0.to_line() <= b.target.range()->0.to_line()),
        a.target.range() == b.target.range() ==> a.id < b.id,
{
}

/// On the clipboard each annotation is a line of its own: the file, the line or the lines, a colon
/// and the text.
pub proof fn exported_notes_are_lines(items: Seq<Annotation>, note: Annotation)
    ensures
        items.len() > 0 ==> export(items.push(note)) == export(items).push('\n') + export(
            seq![note],
        ),
        note.target.range() is None ==> export(seq![note]) == crate::paths::lossy_text(
            note.target.file(),
        ) + Seq::<char>::empty() + ": "@ + note.text@,
        (note.target.range() matches Some(lines) && lines.from_line() == lines.to_line()) ==> export(
            seq![note],
        ) == crate::paths::lossy_text(note.target.file()) + (seq![':'] + decimal(
            note.target.range()->0.from_line() as nat,
        )) + ": "@ + note.text@,
        (note.target.range() matches Some(lines) && lines.from_line() < lines.to_line()) ==> export(
            seq![note],
        ) == crate::paths::lossy_text(note.target.file()) + (seq![':'] + decimal(
            note.target.range()->0.from_line() as nat,
        ) + seq!['-'] + decimal(note.target.range()->0.to_line() as nat)) + ": "@ + note.text@,
{
    let more = items.push(note);
    assert(more.drop_last() =~= items);
    assert(more.last() == note);
    assert(seq![note][0] == note);
}

/// Typing into the full-text search starts a search for the new text, below the scope, with a
/// number of its own; what was found before is gone.
pub proof fn typing_searches_the_scope(r: Run, key: Key)
    requires
        Controller::search_overlay_keyed(r, key),
        r.from.modal is WorkspaceSearch,
        r.from.host.searcher is Some,
        key.code matches KeyCode::Char(c) && key.modifiers.at_most_shift(),
        r.from.modal->WorkspaceSearch_0.input.caret()
            <= r.from.modal->WorkspaceSearch_0.input.text().len(),
    ensures
        ({
            let s = r.from.modal->WorkspaceSearch_0;
            &&& r.to.modal matches Modal::WorkspaceSearch(n) && n.input.text() == s.input.text().insert(
                s.input.caret() as int,
                key.code->Char_0,
            ) && n.pending && n.matches@.len() == 0 && n.cursor == 0 && n.workspace == s.workspace
            &&& r.to.host.search_running && r.to.host.search_seq != r.from.host.search_seq
            &&& r.after.len() > r.before.len()
            &&& s.workspace ==> r.after.last() == (Action::SearchText {
                seq: r.to.host.search_seq,
                scope: r.from.repo.root,
            })
            &&& !s.workspace ==> r.after.last() == (Action::SearchText {
                seq: r.to.host.search_seq,
                scope: s.scope,
            })
            &&& r.from.host.search_running ==> r.after[r.before.len() as int]
                == Action::CancelSearch
        }),
{
}

/// Tab searches the other scope for the same text; the arrow keys move the selection by one within
/// the hits; Esc closes the overlay and ends a running search.
pub proof fn search_keys_move_and_switch(r: Run, key: Key)
    requires
        Controller::search_overlay_keyed(r, key),
        r.from.modal matches Modal::WorkspaceSearch(s) && s.cursor < s.matches@.len(),
    ensures
        ({
            let s = r.from.modal->WorkspaceSearch_0;
            &&& key.code == KeyCode::Tab ==> (r.to.modal matches Modal::WorkspaceSearch(n)
                && n.workspace != s.workspace && n.input.text() == s.input.text())
            &&& key.code == KeyCode::Down && s.cursor + 1 < s.matches@.len() ==> (
            r.to.modal matches Modal::WorkspaceSearch(n) && n.cursor == s.cursor + 1 && n.matches
                == s.matches) && r.after == r.before
            &&& key.code == KeyCode::Down && s.cursor + 1 == s.matches@.len() ==> (
            r.to.modal matches Modal::WorkspaceSearch(n) && n.cursor == s.cursor)
            &&& key.code == KeyCode::Up && s.cursor > 0 ==> (
            r.to.modal matches Modal::WorkspaceSearch(n) && n.cursor == s.cursor - 1 && n.matches
                == s.matches) && r.after == r.before
            &&& key.code == KeyCode::Esc ==> r.to.modal is Closed && !r.to.host.search_running && (
            r.from.host.search_running ==> r.after == r.before.push(Action::CancelSearch))
        }),
{
    let s = r.from.modal->WorkspaceSearch_0;
    let len: usize = s.matches.len();
    assert(len == s.matches@.len());
}

/// Enter shows the line of the selected hit in its file, and the overlay is gone.
pub proof fn confirmed_hits_are_shown(r: Run, key: Key)
    requires
        Controller::search_overlay_keyed(r, key),
        r.from.modal matches Modal::WorkspaceSearch(s) && s.cursor < s.matches@.len(),
        key.code == KeyCode::Enter,
        !r.from.host.search_running,
    ensures
        ({
            let s = r.from.modal->WorkspaceSearch_0;
            let hit = s.matches@[s.cursor as int];
            r.after == r.before.push(
                Action::Tree {
                    op: TreeOp::RevealNamed { root: r.from.repo.root, name: hit.path },
                    then: Then::Hit { name: hit.path, line: hit.line },
                },
            )
        }),
        r.to.modal is Closed,
{
}

/// A hit takes two rows: a click on either selects it.
pub proof fn hits_take_two_rows(r: Run, ev: Mouse, index: int)
    requires
        Controller::search_overlay_moused(r, ev),
        r.from.modal is WorkspaceSearch,
        !ev.modifiers.shift,
        ev.kind == MouseKind::Up(MouseButton::Left),
        !within(r.from.screen.geom.workspace_search_scope_button, ev.column, ev.row),
        within(r.from.screen.geom.workspace_search_rows, ev.column, ev.row),
        0 <= index - r.from.screen.geom.workspace_search_scroll,
        index < r.from.modal->WorkspaceSearch_0.matches@.len(),
        ({
            let top = r.from.screen.geom.workspace_search_rows->0.y + 2 * (index
                - r.from.screen.geom.workspace_search_scroll);
            ev.row == top || ev.row == top + 1
        }),
    ensures
        r.to.modal matches Modal::WorkspaceSearch(n) && n.cursor == index,
        r.after == r.before,
{
    let s = r.from.modal->WorkspaceSearch_0;
    let len: usize = s.matches.len();
    assert(len == s.matches@.len());
}

/// The answer to the running search is shown from its first hit; a failure is told, and the search
/// is over either way.
pub proof fn answers_are_shown_from_the_top(
    from: Controller,
    to: Controller,
    outcome: SearchOutcome,
    shown: bool,
)
    requires
        Controller::search_arrived(from, to, from.host.search_seq, outcome, shown),
        from.host.search_running,
        from.modal is WorkspaceSearch,
    ensures
        !to.host.search_running,
        outcome matches SearchOutcome::Found { matches, limited } ==> shown && (
        to.modal matches Modal::WorkspaceSearch(n) && n.matches == outcome->matches && n.limited
            == outcome->limited && n.cursor == 0 && !n.pending && n.error is None),
        outcome is Failed ==> shown && (to.modal matches Modal::WorkspaceSearch(n) && n.error
            == Some(SearchFailure::Failed) && !n.pending && n.matches@.len() == 0),
        outcome is Interrupted ==> !shown,
        to.modal matches Modal::WorkspaceSearch(n) && n.input
            == from.modal->WorkspaceSearch_0.input,
{
}

/// The full-text search opens for the selected row, where there is a program for it.
pub proof fn the_search_opens_at_the_selection(r: Run)
    requires
        Controller::text_search_opened(r),
        r.from.tree.cursor < r.from.tree.nodes@.len(),
    ensures
        r.from.host.searcher == Some(true) ==> (r.to.modal matches Modal::WorkspaceSearch(s)
            && s.scope == r.from.tree.nodes@[r.from.tree.cursor as int].path && s.input.text().len()
            == 0 && !s.workspace && !s.pending && s.matches@.len() == 0),
        r.from.host.searcher != Some(true) ==> r.to.notice == Some(Notice::SearchUnavailable)
            && r.to.modal == r.from.modal,
        r.after == r.before,
{
}

/// Each intent does one thing, whatever its name is bound to: it reaches the operation of its name.
pub proof fn intents_reach_their_operation(r: Run, layout: Layout, now: u64)
    requires
        r.from.modal is Closed,
        r.from.notice is None,
        r.from.prefs.split_manual,
    ensures
        Controller::intended(r, Intent::TogglePin, layout, now) ==> r.to.prefs.pinned
            != r.from.prefs.pinned,
        Controller::intended(r, Intent::ToggleIgnore, layout, now) ==> r.to.prefs.show_ignored
            != r.from.prefs.show_ignored && r.to.prefs.hide_hidden == r.from.prefs.hide_hidden,
        Controller::intended(r, Intent::ToggleHidden, layout, now) ==> r.to.prefs.hide_hidden
            != r.from.prefs.hide_hidden && r.to.prefs.show_ignored == r.from.prefs.show_ignored,
        Controller::intended(r, Intent::GrowTree, layout, now) && r.from.split_floor()
            <= r.from.prefs.split_pct + 5 <= 80 ==> r.to.prefs.split_pct == r.from.prefs.split_pct
            + 5,
        Controller::intended(r, Intent::ShrinkTree, layout, now) && r.from.split_floor()
            <= r.from.prefs.split_pct - 5 <= 80 ==> r.to.prefs.split_pct == r.from.prefs.split_pct
            - 5,
        Controller::intended(r, Intent::ShowHelp, layout, now) ==> r.after == r.before.push(
            Action::PrepareHelp,
        ),
        Controller::intended(r, Intent::ShowAnnotations, layout, now) ==> (
        r.to.modal matches Modal::Annotations(list) && list.cursor == 0),
{
    assert(Controller { notice: None, ..r.from } == r.from);
    assert(Run { from: r.from, ..r } == r);
}

/// The copy intents copy the two forms of the selected path, and the two ways of handing a file
/// over are told apart.
pub proof fn paths_are_copied_and_handed_over_by_name(r: Run, layout: Layout, now: u64)
    requires
        r.from.modal is Closed,
        r.from.notice is None,
        r.from.tree.cursor < r.from.tree.nodes@.len(),
        r.from.host.opener,
    ensures
        ({
            let path = r.from.tree.nodes@[r.from.tree.cursor as int].path;
            &&& Controller::intended(r, Intent::CopyRepoPath, layout, now) ==> r.after
                == r.before.push(
                Action::Copy(Clip::Path { path, kind: crate::controller::actions::PathKind::Repo }),
            )
            &&& Controller::intended(r, Intent::CopyAbsPath, layout, now) ==> r.after
                == r.before.push(
                Action::Copy(Clip::Path { path, kind: crate::controller::actions::PathKind::Absolute }),
            )
            &&& Controller::intended(r, Intent::OpenWithApp, layout, now) ==> r.after
                == r.before.push(Action::Open { path, reveal: false })
            &&& Controller::intended(r, Intent::RevealInFileManager, layout, now) ==> r.after
                == r.before.push(Action::Open { path, reveal: true })
        }),
{
    assert(Controller { notice: None, ..r.from } == r.from);
    assert(Run { from: r.from, ..r } == r);
}

/// The keys for up and down move by one row each way.
pub proof fn up_and_down_move_by_one(r: Run, layout: Layout, now: u64)
    requires
        r.from.modal is Closed,
        r.from.notice is None,
        r.from.nav.focus == crate::controller::state::Focus::Tree,
        r.from.tree.cursor < r.from.tree.nodes@.len(),
    ensures
        Controller::intended(r, Intent::NavDown, layout, now) && r.from.tree.cursor + 1
            < r.from.tree.nodes@.len() ==> r.to.tree.cursor == r.from.tree.cursor + 1,
        Controller::intended(r, Intent::NavUp, layout, now) && r.from.tree.cursor > 0
            ==> r.to.tree.cursor == r.from.tree.cursor - 1,
{
    assert(Controller { notice: None, ..r.from } == r.from);
    assert(Run { from: r.from, ..r } == r);
    let len: usize = r.from.tree.nodes.len();
    assert(len == r.from.tree.nodes@.len());
}

} // verus!
