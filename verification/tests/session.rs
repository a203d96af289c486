//! Sessions: keys, replies and what is drawn.

use herdr_file_viewer::controller::actions::{
    Action, Arrival, Clip, EditorOutcome, Effects, HostRequest, OpenTarget, OpenerOutcome,
    RenderJob, SearchOutcome, Then, TreeOp,
};
use herdr_file_viewer::controller::content::{Layout, LineRows};
use herdr_file_viewer::controller::events::{EditorVisit, Event, SpawnError, Turn};
use herdr_file_viewer::controller::events::{no_editor, resolve_editor};
use herdr_file_viewer::controller::help::HelpBodies;
use herdr_file_viewer::controller::picker::AgentOverlay;
use herdr_file_viewer::controller::services::{
    Clipboard, ContentProvider, EditorHandoff, GitService,
};
use herdr_file_viewer::controller::state::{
    Body, ContentLine, Controller, Focus, Match, Modal, NodeKind, PaneGeometry, RenderResult,
    Resolved, SearchHit, TreeNode, TreeView, Worktree, FLASH_DIM, FLASH_FULL, OPEN_RANGE_FLASH,
};
use herdr_file_viewer::controller::view::AnnotationEditorKind;
use herdr_file_viewer::controller::workspace::HostEnv;
use herdr_file_viewer::config::{resolve, Config, TreeIcons, TreePosition, ViewerPaneRatio};
use herdr_file_viewer::git::{status, Baseline, StatusMap};
use herdr_file_viewer::herdr::HerdrCli;
use herdr_file_viewer::input::{
    Intent, Key, KeyCode, Modifiers, Mouse, MouseButton, MouseKind, Rect,
};
use herdr_file_viewer::paths::FilePath;
use herdr_file_viewer::view_policy::{DiffRenderMode, ViewMode};

const ROOT: &str = "/r";

fn path(text: &str) -> FilePath {
    FilePath::of_text(text)
}

fn plain(code: KeyCode) -> Key {
    Key::plain(code)
}

fn shifted(c: char) -> Key {
    Key {
        code: KeyCode::Char(c),
        modifiers: Modifiers { shift: true, control: false, alt: false, other: false },
    }
}

/// A layout in which every line takes one row.
fn flat(lines: usize) -> Layout {
    let rows = |n: usize| (0..n).map(|_| LineRows { rows: 1, starts: vec![0] }).collect();
    Layout { plain: rows(lines), marked: rows(lines) }
}

/// A render of some lines, with their source.
fn lines(texts: &[&str]) -> RenderResult {
    RenderResult {
        content: texts.iter().map(|t| ContentLine { spans: vec![t.to_string()] }).collect(),
        notices: Vec::new(),
        source: Some(texts.iter().map(|t| t.to_string()).collect()),
    }
}

/// What git reports of changed files.
fn modified(names: &[&str]) -> StatusMap {
    let mut out = Vec::new();
    for name in names {
        out.extend_from_slice(b" M ");
        out.extend_from_slice(name.as_bytes());
        out.push(0);
    }
    status(Some(&out))
}

/// A clipboard that remembers, or fails.
struct Board {
    copied: Vec<String>,
    fails: bool,
}

impl Clipboard for Board {
    fn copy(&mut self, text: &str) -> Result<(), String> {
        if self.fails {
            return Err("no terminal".to_string());
        }
        self.copied.push(text.to_string());
        Ok(())
    }
}

/// A session over a tree that is listed by hand.
struct Desk {
    c: Controller,
    /// The rows, relative to the root.
    rows: Vec<(&'static str, NodeKind)>,
    /// Files that are listed once they are revealed.
    ignored: Vec<&'static str>,
    changed: Vec<&'static str>,
    board: Board,
    jobs: Vec<RenderJob>,
    host: Vec<HostRequest>,
    other: Vec<Action>,
    show_ignored: bool,
    now: u64,
    layout: Layout,
}

impl Desk {
    fn new(rows: Vec<(&'static str, NodeKind)>, changed: Vec<&'static str>, git: bool) -> Desk {
        let mut out = Vec::new();
        let resolved = Resolved {
            root: path(ROOT),
            repo_root: None,
            is_git_repo: git,
            is_worktree: false,
            base_branch: None,
            branch: None,
        };
        let tree = list(&rows, 0, false);
        let c = Controller::new(resolved, Baseline::Head, tree, &mut out);
        let mut desk = Desk {
            c,
            rows,
            ignored: Vec::new(),
            changed,
            board: Board { copied: Vec::new(), fails: false },
            jobs: Vec::new(),
            host: Vec::new(),
            other: Vec::new(),
            show_ignored: false,
            now: 1_000_000,
            layout: flat(40),
        };
        desk.work(out);
        desk
    }

    /// Carries out what was asked for, and what comes of that.
    fn work(&mut self, actions: Vec<Action>) -> Turn {
        let mut turn = Turn { dirty: false, clear: false, quit: false };
        for action in actions {
            let mut out = Vec::new();
            let effects = match action {
                Action::Render(job) => {
                    self.c.render_queued(job.seq);
                    self.jobs.push(job);
                    Effects::noop()
                }
                Action::Tree { op, then } => self.tree(op, then, &mut out),
                Action::QueryGit(after) => self.c.git_refreshed(
                    modified(&self.changed),
                    modified(&self.changed),
                    Some("dev".to_string()),
                    after,
                    &mut out,
                ),
                Action::QueryChanged(_) => {
                    self.c.changed_refreshed(modified(&self.changed), &mut out)
                }
                Action::Copy(clip) => self.c.copy_with(clip, &mut self.board, &mut out),
                Action::ResolveRoot(target) => {
                    let found = Resolved {
                        root: target.clone(),
                        repo_root: None,
                        is_git_repo: false,
                        is_worktree: false,
                        base_branch: None,
                        branch: None,
                    };
                    self.c.root_resolved(target, Some(found), false, &mut out)
                }
                Action::RecheckRoot(found) => self.c.root_rechecked(found, true, false, &mut out),
                Action::Rebuild { resolved, .. } => {
                    let node = TreeNode {
                        path: resolved.root.join(&path("other.rs")),
                        kind: NodeKind::File,
                        expanded: false,
                    };
                    let tree = TreeView {
                        nodes: vec![node],
                        cursor: 0,
                        changed_only: false,
                        hide_hidden: false,
                        show_ignored: false,
                    };
                    self.c.tree_listed(tree, Then::Render, false, self.now, &mut out)
                }
                Action::IndexFiles(place) => {
                    let names = self.rows.iter().map(|(n, _)| n.to_string()).collect();
                    self.c.finder_ready(place, names, &mut out)
                }
                Action::Host(request) => {
                    self.host.push(request);
                    Effects::noop()
                }
                other => {
                    self.other.push(other);
                    Effects::noop()
                }
            };
            turn.take(effects);
            let more = self.work(out);
            turn.dirty |= more.dirty;
            turn.clear |= more.clear;
            turn.quit |= more.quit;
        }
        turn
    }

    fn tree(&mut self, op: TreeOp, then: Then, out: &mut Vec<Action>) -> Effects {
        let mut cursor = self.c.tree.cursor;
        let mut revealed = false;
        if let Some(target) = op.target() {
            let name = target.strip_prefix(&path(ROOT)).map(|p| p.text()).unwrap_or_default();
            if let Some(i) = self.ignored.iter().position(|n| *n == name) {
                self.rows.push((self.ignored.remove(i), NodeKind::File));
                self.show_ignored = true;
            }
            if let Some(i) = self.rows.iter().position(|(n, _)| *n == name) {
                cursor = i;
                revealed = true;
            }
        }
        if let TreeOp::ShowIgnored(on) = op {
            self.show_ignored = on;
        }
        let tree = list(&self.rows, cursor, self.show_ignored);
        self.c.tree_listed(tree, then, revealed, self.now, out)
    }

    fn handle(&mut self, intent: Intent) -> Turn {
        let mut out = Vec::new();
        let effects = self.c.handle(intent, &self.layout, self.now, &mut out);
        self.finish(effects, out)
    }

    fn press(&mut self, key: Key) -> Turn {
        let mut out = Vec::new();
        let event = Event::Key { key, pressed: true, bound: None };
        let effects = self.c.handle_event(event, &self.layout, self.now, &mut out);
        self.finish(effects, out)
    }

    fn route(&mut self, key: Key) -> Option<Turn> {
        let mut out = Vec::new();
        let effects = self.c.route_annotation_key(key, &mut out)?;
        Some(self.finish(effects, out))
    }

    fn mouse(&mut self, kind: MouseKind, column: u16, row: u16) -> Turn {
        let mut out = Vec::new();
        let ev = Mouse { kind, column, row, modifiers: Modifiers::none() };
        let effects = self.c.handle_event(Event::Mouse(ev), &self.layout, self.now, &mut out);
        self.finish(effects, out)
    }

    fn open(&mut self, name: &str, line: Option<usize>, end_line: Option<usize>) {
        let mut out = Vec::new();
        let target = OpenTarget { path: name.to_string(), line, end_line };
        let place = if name.starts_with('/') { None } else { Some(path(ROOT).join(&path(name))) };
        self.c.apply_open_target(target, place, &mut out);
        self.work(out);
    }

    fn viewport(&mut self, width: u16, height: u16) -> bool {
        let mut out = Vec::new();
        let again = self.c.set_content_viewport(width, height, &self.layout, &mut out);
        self.work(out);
        again
    }

    /// The worker finishes the latest render.
    fn land(&mut self, result: RenderResult) -> Option<Effects> {
        let seq = self.c.pane.renders.latest;
        let mut out = Vec::new();
        let effects = self.c.poll(Arrival::Render { seq, result }, &self.layout, &mut out);
        self.work(out);
        effects
    }

    fn finish(&mut self, effects: Effects, out: Vec<Action>) -> Turn {
        let mut turn = Turn { dirty: false, clear: false, quit: false };
        turn.take(effects);
        let more = self.work(out);
        turn.dirty |= more.dirty;
        turn.clear |= more.clear;
        turn.quit |= more.quit;
        turn
    }

    fn type_text(&mut self, text: &str) {
        for c in text.chars() {
            self.press(plain(KeyCode::Char(c)));
        }
    }

    fn selected(&self) -> Option<String> {
        self.c.path_of_selection().map(|p| p.text())
    }

    fn notice(&self) -> Option<String> {
        self.c.action_notice()
    }
}

fn list(rows: &[(&'static str, NodeKind)], cursor: usize, show_ignored: bool) -> TreeView {
    TreeView {
        nodes: rows
            .iter()
            .map(|(name, kind)| TreeNode {
                path: path(ROOT).join(&path(name)),
                kind: *kind,
                expanded: false,
            })
            .collect(),
        cursor,
        changed_only: false,
        hide_hidden: false,
        show_ignored,
    }
}

/// One file outside a repository.
fn note_desk() -> Desk {
    Desk::new(vec![("note.rs", NodeKind::File)], Vec::new(), false)
}

/// A changed file in a repository, or an ordinary one.
fn diff_desk(git: bool) -> Desk {
    Desk::new(
        vec![("sample.rs", NodeKind::File)],
        if git { vec!["sample.rs"] } else { Vec::new() },
        git,
    )
}

fn open_desk() -> Desk {
    Desk::new(
        vec![
            ("src", NodeKind::Dir),
            ("src/deep", NodeKind::Dir),
            ("src/deep/file.rs", NodeKind::File),
            ("other.rs", NodeKind::File),
        ],
        Vec::new(),
        false,
    )
}

#[test]
fn annotation_editor_raw_printables_route_before_global_decoding() {
    let mut desk = note_desk();
    desk.handle(Intent::AddAnnotation);
    assert!(desk.c.annotation_editor().is_some());
    desk.route(plain(KeyCode::Enter)).unwrap();
    assert_eq!(
        desk.c
            .view_state(&desk.layout)
            .overlays
            .annotation_editor
            .expect("validation stays in the projected editor")
            .error,
        Some("Annotation text cannot be empty")
    );
    for key in [
        plain(KeyCode::Char('q')),
        plain(KeyCode::Char('e')),
        plain(KeyCode::Char('d')),
        shifted('D'),
        plain(KeyCode::Char('y')),
    ] {
        let turn = desk.route(key).expect("editor owns raw key");
        assert!(!turn.quit, "a printable modal key cannot leak to global quit");
    }
    assert_eq!(desk.c.annotation_editor().unwrap().text(), "qedDy");
    let view = desk.c.view_state(&desk.layout);
    let editor = view.overlays.annotation_editor.expect("typed editor projection");
    assert_eq!(editor.text, "qedDy");
    assert_eq!(editor.target.path.text(), "note.rs");
    assert_eq!(editor.kind, AnnotationEditorKind::Add);
    assert!(view.overlays.annotation_overview.is_none());
}

#[test]
fn annotation_overview_fixed_keys_route_before_globals_and_project_owned_rows() {
    let mut desk = note_desk();
    desk.handle(Intent::AddAnnotation);
    for c in "note".chars() {
        desk.route(plain(KeyCode::Char(c))).unwrap();
    }
    desk.route(plain(KeyCode::Enter)).unwrap();
    desk.handle(Intent::ShowAnnotations);

    let view = desk.c.view_state(&desk.layout);
    assert_eq!(view.annotation_count, 1);
    let overview = view.overlays.annotation_overview.expect("owned overview projection");
    assert_eq!(overview.cursor, 0);
    assert_eq!(overview.rows.len(), 1);
    assert_eq!(overview.rows[0].target.path.text(), "note.rs");
    assert_eq!(overview.rows[0].note, "note");

    desk.route(plain(KeyCode::Char('e'))).expect("fixed edit key is routed to the overview");
    let editor =
        desk.c.view_state(&desk.layout).overlays.annotation_editor.expect("edit projection");
    assert_eq!(editor.kind, AnnotationEditorKind::Edit);
    assert_eq!(editor.text, "note");
    desk.route(plain(KeyCode::Esc)).expect("editor cancel returns to overview");

    let turn = desk.route(plain(KeyCode::Char('d'))).expect("overview owns fixed delete");
    assert!(turn.dirty && !turn.quit);
    assert!(desk.c.annotations().is_empty());
    assert!(desk.c.annotation_list().is_some());

    let turn = desk.route(plain(KeyCode::Char('q'))).expect("overview owns fixed close");
    assert!(turn.dirty && !turn.quit, "q closes only the modal");
    assert!(!desk.c.annotation_modal_open());
    assert!(
        desk.route(plain(KeyCode::Char('q'))).is_none(),
        "without an annotation modal the key proceeds to normal global decoding"
    );
}

#[test]
fn quit_confirm_keys_route_before_globals() {
    let mut desk = note_desk();
    desk.handle(Intent::AddAnnotation);
    for c in "note".chars() {
        desk.route(plain(KeyCode::Char(c))).unwrap();
    }
    desk.route(plain(KeyCode::Enter)).unwrap();

    desk.handle(Intent::Close);
    assert!(desk.c.discard_confirm_open(), "the close raised the confirm");
    assert!(desk.c.annotation_raw_keys_owned());
    let confirm = desk.c.view_state(&desk.layout).overlays.discard_confirm.unwrap();
    assert_eq!((confirm.verb, confirm.proceed_key), ("quit", "q"));
    assert_eq!(confirm.rows[0].note, "note");

    let turn = desk.route(plain(KeyCode::Esc)).expect("the confirm owns esc");
    assert!(!turn.quit, "esc cancels");
    assert!(!desk.c.discard_confirm_open());

    desk.handle(Intent::Close);
    let turn = desk.route(plain(KeyCode::Char('y'))).expect("the confirm owns y");
    assert!(turn.quit, "y copies and quits through the real route");
    assert_eq!(desk.board.copied.len(), 1);
    assert!(desk.board.copied[0].contains("note"));
}

#[test]
fn switch_confirm_enter_routes_before_globals() {
    let mut desk = note_desk();
    desk.handle(Intent::AddAnnotation);
    for c in "note".chars() {
        desk.route(plain(KeyCode::Char(c))).unwrap();
    }
    desk.route(plain(KeyCode::Enter)).unwrap();

    let mut out = Vec::new();
    desk.c.re_root(path("/second"), &mut out);
    desk.work(out);
    assert!(desk.c.discard_confirm_open(), "the switch confirmed");
    assert!(desk.c.annotation_raw_keys_owned());

    let turn = desk.route(plain(KeyCode::Enter)).expect("the switch confirm owns Enter");
    assert!(!turn.quit, "proceeding with a switch is not a quit");
    assert!(!desk.c.discard_confirm_open());
    assert!(desk.c.annotations().is_empty(), "the switch proceeded");
    assert_eq!(desk.c.root().text(), "/second");
    assert_eq!(desk.notice().as_deref(), Some("Cleared 1 annotation after switching root"));
}

#[test]
fn apply_open_target_reveals_file() {
    let mut desk = open_desk();
    desk.open("src/deep/file.rs", None, None);
    assert_eq!(desk.selected().as_deref(), Some("/r/src/deep/file.rs"));
    assert_eq!(desk.notice().as_deref(), Some("Opened src/deep/file.rs"));
    assert!(desk.c.pending_goto_line().is_none());
}

#[test]
fn apply_open_target_queues_goto_line() {
    let mut desk = open_desk();
    desk.open("src/deep/file.rs", Some(3), None);
    assert_eq!(desk.selected().as_deref(), Some("/r/src/deep/file.rs"));
    assert_eq!(desk.c.pending_goto_line(), Some(3));
    assert_eq!(desk.notice().as_deref(), Some("Opened src/deep/file.rs:3"));
}

#[test]
fn apply_open_target_range_notice_and_jumps_to_start() {
    let mut desk = open_desk();
    desk.open("src/deep/file.rs", Some(1), Some(3));
    assert_eq!(desk.selected().as_deref(), Some("/r/src/deep/file.rs"));
    assert_eq!(desk.c.pending_goto_line(), Some(1));
    assert_eq!(desk.notice().as_deref(), Some("Opened src/deep/file.rs:1-3"));
    assert_eq!(desk.c.open_range_flash_lines(), Some((1, 3)));
    let view = desk.c.view_state(&desk.layout);
    let marked = view.line_select.expect("passive range flash in view");
    assert!(marked.passive);
    assert_eq!((marked.start, marked.end), (1, 3));
    assert!(!desk.c.line_select_active(), "must not enter line-select modal");
}

#[test]
fn apply_open_target_range_flash_expires() {
    let mut desk = open_desk();
    desk.open("src/deep/file.rs", Some(1), Some(2));
    assert!(desk.c.open_range_flash_lines().is_some());
    let now = desk.now;
    assert!(!desk.c.tick_open_range_flash(now));
    assert!(desk.c.tick_open_range_flash(now + OPEN_RANGE_FLASH + 1));
    assert!(desk.c.open_range_flash_lines().is_none());
}

#[test]
fn apply_open_target_single_line_has_no_range_flash() {
    let mut desk = open_desk();
    desk.open("src/deep/file.rs", Some(2), None);
    assert!(desk.c.open_range_flash_lines().is_none());
}

#[test]
fn apply_open_target_line_scrolls_after_poll() {
    let mut desk = Desk::new(vec![("long.rs", NodeKind::File)], Vec::new(), false);
    desk.viewport(80, 10);
    desk.open("long.rs", Some(20), None);
    assert_eq!(desk.c.pending_goto_line(), Some(20));
    let body: Vec<String> = (1..=40).map(|i| format!("body line {i}")).collect();
    let texts: Vec<&str> = body.iter().map(|s| s.as_str()).collect();
    assert!(desk.land(lines(&texts)).is_some());
    assert_eq!(desk.c.pending_goto_line(), None);
    assert_eq!(desk.c.content_scroll(), 19);
}

#[test]
fn apply_open_target_resyncs_show_ignored_mirror() {
    let mut desk = Desk::new(vec![("ok.rs", NodeKind::File)], Vec::new(), false);
    desk.ignored.push("secret.log");
    assert!(!desk.c.show_ignored());
    desk.open("secret.log", None, None);
    assert!(desk.c.show_ignored(), "mirror must match tree after reveal");
    assert_eq!(desk.selected().as_deref(), Some("/r/secret.log"));
}

#[test]
fn apply_open_target_missing_file_is_soft_notice() {
    let mut desk = open_desk();
    let before = desk.selected();
    desk.open("no/such.rs", Some(1), None);
    assert_eq!(desk.selected(), before);
    assert_eq!(desk.notice().as_deref(), Some("Could not open no/such.rs"));
    assert!(desk.c.pending_goto_line().is_none());
}

#[test]
fn apply_open_target_outside_root_is_soft_notice() {
    let mut desk = open_desk();
    desk.open("/tmp/escape.rs", None, None);
    assert_eq!(
        desk.notice().as_deref(),
        Some("Could not open /tmp/escape.rs: outside tree root")
    );
}

#[test]
fn apply_open_target_zooms_when_first_layout_hides_content() {
    let mut desk = open_desk();
    desk.open("src/deep/file.rs", Some(2), None);
    assert!(!desk.c.zoomed(), "must not zoom before first layout measure");
    assert!(desk.viewport(0, 24));
    assert!(desk.c.zoomed());
    assert_eq!(desk.c.focus(), Focus::Content);
}

#[test]
fn apply_open_target_does_not_zoom_when_content_column_visible() {
    let mut desk = open_desk();
    desk.open("src/deep/file.rs", None, None);
    assert!(!desk.viewport(60, 24));
    assert!(!desk.c.zoomed());
}

#[test]
fn diff_render_mode_cycles_three_states() {
    let mut desk = diff_desk(true);
    assert_eq!(desk.c.selected_view_mode(), Some(ViewMode::Diff));
    assert_eq!(desk.c.prefs.diff_render_mode, DiffRenderMode::Delta);
    desk.handle(Intent::CycleDiffRender);
    assert_eq!(desk.c.prefs.diff_render_mode, DiffRenderMode::DeltaSideBySide);
    desk.handle(Intent::CycleDiffRender);
    assert_eq!(desk.c.prefs.diff_render_mode, DiffRenderMode::Raw);
    desk.handle(Intent::CycleDiffRender);
    assert_eq!(desk.c.prefs.diff_render_mode, DiffRenderMode::Delta);
}

#[test]
fn diff_render_cycle_is_inert_outside_diff_views() {
    let mut desk = diff_desk(false);
    assert_eq!(desk.c.selected_view_mode(), Some(ViewMode::SyntaxContent));
    let seq = desk.c.pane.renders.latest;
    desk.handle(Intent::CycleDiffRender);
    assert_eq!(desk.c.prefs.diff_render_mode, DiffRenderMode::Delta);
    assert_eq!(desk.c.pane.renders.latest, seq);
}

#[test]
fn diff_resize_dispatches_a_reflow_job() {
    let mut desk = diff_desk(true);
    let seq = desk.c.pane.renders.latest;
    desk.viewport(80, 20);
    assert!(desk.c.pane.renders.latest > seq, "a measured pane is laid out anew");
    assert_eq!(desk.jobs.last().unwrap().pane_width, Some(80));
}

#[test]
fn cycling_diff_render_flashes_the_new_mode_label() {
    let mut desk = diff_desk(true);
    assert_eq!(desk.c.flash_text(), None, "no flash before any cycle");
    desk.handle(Intent::CycleDiffRender);
    assert_eq!(desk.c.flash_text(), Some("Diff: side-by-side"));
    desk.handle(Intent::CycleDiffRender);
    assert_eq!(desk.c.flash_text(), Some("Diff: raw (plain git diff)"));
}

#[test]
fn inert_diff_cycle_shows_no_flash() {
    let mut desk = diff_desk(false);
    desk.handle(Intent::CycleDiffRender);
    assert_eq!(desk.c.flash_text(), None);
}

#[test]
fn flash_dims_then_expires_over_time() {
    let mut desk = diff_desk(true);
    desk.handle(Intent::CycleDiffRender);
    let start = desk.now;
    assert!(!desk.c.tick_flash(start));
    assert_eq!(desk.c.flash_text(), Some("Diff: side-by-side"));
    let dim = start + FLASH_FULL + 1;
    assert!(desk.c.tick_flash(dim), "the hint dims once");
    assert!(!desk.c.tick_flash(dim), "same phase does not redraw again");
    assert!(desk.c.flash_text().is_some(), "still visible while dimmed");
    assert!(desk.c.view_state(&desk.layout).flash.unwrap().dim);
    let gone = start + FLASH_FULL + FLASH_DIM + 1;
    assert!(desk.c.tick_flash(gone), "expiry redraws once");
    assert_eq!(desk.c.flash_text(), None);
    assert!(!desk.c.tick_flash(gone), "nothing left to expire");
}

fn text_body(text: &str) -> Vec<ContentLine> {
    vec![ContentLine { spans: vec![text.to_string()] }]
}

#[test]
fn open_help_appends_keybindings_section_only_after_set_keybindings_display() {
    let mut desk = note_desk();
    desk.handle(Intent::ShowHelp);
    assert!(matches!(desk.other.pop(), Some(Action::PrepareHelp)));
    let mut out = Vec::new();
    desk.c.help_prepared(
        HelpBodies {
            keybindings: None,
            whats_new: text_body("news"),
            settings: None,
            about: text_body("about"),
        },
        &mut out,
    );
    let view = desk.c.view_state(&desk.layout);
    assert_eq!(view.overlays.help.unwrap().labels, ["What's New", "About"]);
    desk.c.close_help();
    assert!(!desk.c.help_open());

    desk.c.help_prepared(
        HelpBodies {
            keybindings: Some(text_body("Re-read git state")),
            whats_new: text_body("news"),
            settings: Some(text_body("settings")),
            about: text_body("about"),
        },
        &mut out,
    );
    let view = desk.c.view_state(&desk.layout);
    let help = view.overlays.help.unwrap();
    assert_eq!(help.labels, ["Keybindings", "What's New", "Settings", "About"]);
    assert_eq!(help.active, 0);
    assert_eq!(help.body[0].spans[0], "Re-read git state");
    assert!(!help.center);
    desk.press(plain(KeyCode::Char('4')));
    assert!(desk.c.view_state(&desk.layout).overlays.help.unwrap().center);
    desk.press(plain(KeyCode::Esc));
    assert!(!desk.c.help_open());
}

#[test]
fn resolve_editor_passes_through_a_set_value() {
    assert_eq!(resolve_editor(Some("vim".to_string())), Some("vim".to_string()));
}

#[test]
fn resolve_editor_unix_unset_stays_none() {
    assert_eq!(resolve_editor(None), None);
}

#[test]
fn visits_to_the_editor_end_by_their_first_failure() {
    let visit = |suspend: Option<&str>, launch: Option<SpawnError>, resume: Option<&str>| {
        EditorVisit {
            suspend_error: suspend.map(str::to_string),
            launch_error: launch,
            resume_error: resume.map(str::to_string),
        }
        .outcome()
    };
    assert!(matches!(visit(None, None, None), EditorOutcome::TookOver));
    assert!(matches!(visit(None, None, Some("x")), EditorOutcome::TookOver));
    let missing = SpawnError::NotLaunched("no vim".to_string());
    assert!(matches!(
        visit(Some("tty"), Some(missing), None),
        EditorOutcome::NotLaunched(reason) if reason == "tty"
    ));
    let failed = SpawnError::NonZeroExit("exit status: 1".to_string());
    assert!(matches!(
        visit(None, Some(failed), Some("x")),
        EditorOutcome::NonZeroExit(detail) if detail == "exit status: 1"
    ));
    assert!(matches!(
        no_editor(),
        EditorOutcome::NotLaunched(reason) if reason == "no editor configured (set $EDITOR)"
    ));
}

/// An editor with a set answer.
struct Editor(Option<EditorOutcome>, Option<String>);

impl EditorHandoff for Editor {
    fn open(&mut self, file: &FilePath) -> EditorOutcome {
        self.1 = Some(file.text());
        self.0.take().unwrap_or(EditorOutcome::NoTakeover)
    }
}

#[test]
fn the_editor_refreshes_what_it_may_have_changed() {
    let mut desk = note_desk();
    desk.handle(Intent::OpenInEditor);
    let file = match desk.other.pop() {
        Some(Action::Edit(file)) => file,
        other => panic!("no file was handed over: {other:?}"),
    };
    assert_eq!(file.text(), "/r/note.rs");
    let renders = desk.jobs.len();
    let mut editor = Editor(Some(EditorOutcome::TookOver), None);
    let mut out = Vec::new();
    let effects = desk.c.edit_with(&file, &mut editor, &mut out);
    let turn = desk.finish(effects, out);
    assert_eq!(editor.1.as_deref(), Some("/r/note.rs"));
    assert!(turn.clear && turn.dirty);
    assert_eq!(desk.jobs.len(), renders + 1);

    let mut out = Vec::new();
    let mut editor = Editor(Some(EditorOutcome::NonZeroExit("exit status: 1".to_string())), None);
    let effects = desk.c.edit_with(&file, &mut editor, &mut out);
    desk.finish(effects, out);
    assert_eq!(desk.notice().as_deref(), Some("Editor exited with exit status: 1"));

    let mut out = Vec::new();
    let mut editor = Editor(Some(no_editor()), None);
    let effects = desk.c.edit_with(&file, &mut editor, &mut out);
    let renders = desk.jobs.len();
    desk.finish(effects, out);
    assert_eq!(desk.jobs.len(), renders);
    assert_eq!(
        desk.notice().as_deref(),
        Some("Could not open editor: no editor configured (set $EDITOR)")
    );
    let mut out = Vec::new();
    let mut editor = Editor(None, None);
    let effects = desk.c.edit_with(&file, &mut editor, &mut out);
    let turn = desk.finish(effects, out);
    assert!(turn.dirty && !turn.clear);
}

#[test]
fn programs_that_open_files_report_failures() {
    let mut desk = note_desk();
    desk.c.set_opener(true);
    desk.handle(Intent::OpenWithApp);
    assert!(matches!(desk.other.pop(), Some(Action::Open { reveal: false, .. })));
    desk.handle(Intent::RevealInFileManager);
    assert!(matches!(desk.other.pop(), Some(Action::Open { reveal: true, .. })));
    let mut out = Vec::new();
    desk.c.opener_returned(false, OpenerOutcome::Launched, &mut out);
    assert_eq!(desk.notice(), None);
    let cases = [
        (false, OpenerOutcome::NotLaunched("x".into()), "Could not open with default app: x"),
        (true, OpenerOutcome::NotLaunched("x".into()), "Could not reveal in file manager: x"),
        (false, OpenerOutcome::NonZeroExit("1".into()), "Opener exited with 1"),
        (true, OpenerOutcome::NonZeroExit("1".into()), "File manager exited with 1"),
    ];
    for (reveal, outcome, text) in cases {
        desk.c.opener_returned(reveal, outcome, &mut out);
        assert_eq!(desk.notice().as_deref(), Some(text));
    }
}

#[test]
fn keys_go_up_unheard() {
    let mut desk = note_desk();
    let mut out = Vec::new();
    let key = plain(KeyCode::Char('q'));
    let up = Event::Key { key, pressed: false, bound: Some(Intent::Close) };
    assert!(!desk.c.handle_event(up, &desk.layout, 0, &mut out).quit);
    let down = Event::Key { key, pressed: true, bound: Some(Intent::Close) };
    assert!(desk.c.handle_event(down, &desk.layout, 0, &mut out).quit);
    assert!(desk.c.handle_event(Event::Resize, &desk.layout, 0, &mut out).redraw);
    assert!(!desk.c.handle_event(Event::FocusLost, &desk.layout, 0, &mut out).redraw);
    assert!(!desk.c.handle_event(Event::FocusGained, &desk.layout, 0, &mut out).redraw);
    assert!(!desk.c.handle_event(Event::Other, &desk.layout, 0, &mut out).redraw);
    assert!(out.is_empty());
}

#[test]
fn focus_reads_git_again() {
    let mut desk = diff_desk(true);
    let renders = desk.jobs.len();
    let mut out = Vec::new();
    let effects = desk.c.handle_event(Event::FocusGained, &desk.layout, 0, &mut out);
    assert!(effects.redraw);
    desk.work(out);
    assert_eq!(desk.jobs.len(), renders, "the selection did not move");
    assert_eq!(desk.c.repo.branch.as_deref(), Some("dev"));
}

#[test]
fn frames_are_drawn_when_something_changes() {
    let mut turn = Turn::new();
    assert!(turn.dirty && !turn.clear && !turn.quit);
    turn.drawn(false);
    assert!(!turn.dirty);
    turn.take(Effects::noop());
    assert!(!turn.dirty);
    turn.take(Effects::clear());
    assert!(turn.dirty && turn.clear);
    turn.drawn(true);
    assert!(turn.dirty && !turn.clear);
    turn.take(Effects::quit());
    assert!(turn.quit);

    let mut desk = diff_desk(true);
    let mut turn = Turn { dirty: false, clear: false, quit: false };
    turn.tick(&mut desk.c, 0);
    assert!(!turn.dirty, "a quiet screen stays quiet");
    desk.handle(Intent::CycleDiffRender);
    turn.tick(&mut desk.c, desk.now + FLASH_FULL);
    assert!(turn.dirty);
}

#[test]
fn settings_apply_at_the_start() {
    let mut desk = open_desk();
    let settings = resolve(
        &Config {
            hide_dotfiles: Some(true),
            confirm_discard: Some(false),
            scroll_lines: Some(7),
            tree_width: Some(45),
            tree_position: Some("right".to_string()),
            tree_max_cols: Some(55),
            file_icons: Some("nerd".to_string()),
            viewer_pane_ratio: Some(500_000),
            open_workspace_with_viewer: Some(false),
            ..Default::default()
        },
        |_| None,
    );
    let renders = desk.jobs.len();
    let mut out = Vec::new();
    let effects = desk.c.configure(&settings, &mut out);
    assert!(effects.redraw);
    assert!(matches!(out[0], Action::Tree { op: TreeOp::HideHidden(true), then: Then::Render }));
    desk.work(out);
    assert_eq!(desk.jobs.len(), renders, "a directory is selected");
    assert!(desk.c.hide_hidden());
    assert!(!desk.c.prefs.confirm_discard);
    assert_eq!(desk.c.prefs.wheel_step, 7);
    assert_eq!(desk.c.split_pct(), 45);
    assert_eq!(desk.c.prefs.tree_position, TreePosition::Right);
    assert_eq!(desk.c.prefs.tree_max_cols, 55);
    assert_eq!(desk.c.prefs.tree_icons, TreeIcons::Nerd);
    assert!(!desk.c.prefs.open_workspace_with_viewer);
    assert_eq!(desk.c.prefs.viewer_pane_ratio.viewer_decimal(), "0.500000");
    let mut out = Vec::new();
    desk.c.apply_hide_dotfiles(true, &mut out);
    assert!(out.is_empty(), "nothing changes");
    desk.c.apply_scroll_lines(0);
    desk.c.apply_tree_width(5);
    desk.c.apply_tree_max_cols(1);
    assert_eq!(desk.c.prefs.wheel_step, 1);
    assert_eq!(desk.c.split_pct(), 20);
    assert_eq!(desk.c.prefs.tree_max_cols, 10);
}

#[test]
fn late_renders_are_dropped() {
    let mut desk = open_desk();
    desk.handle(Intent::NavDown);
    desk.handle(Intent::NavDown);
    let old = desk.jobs.last().unwrap().seq;
    assert!(matches!(desk.c.content(), Body::Rendering));
    desk.handle(Intent::NavDown);
    assert_eq!(desk.selected().as_deref(), Some("/r/other.rs"));
    let mut out = Vec::new();
    let late = Arrival::Render { seq: old, result: lines(&["old"]) };
    assert!(desk.c.poll(late, &desk.layout, &mut out).is_none());
    assert!(matches!(desk.c.content(), Body::Rendering));
    assert!(desk.c.view_state(&desk.layout).content_rendering);
    assert!(desk.land(lines(&["new"])).is_some());
    let view = desk.c.view_state(&desk.layout);
    assert_eq!(view.content_title.as_deref(), Some("other.rs"));
    assert!(!view.content_rendering);
    assert_eq!(view.root_name, "r");
    assert_eq!(desk.c.content().plain_line(0), "new");
}

#[test]
fn guidance_takes_the_place_of_missing_files() {
    let desk = open_desk();
    assert_eq!(desk.c.content().plain_line(0), "Directory: select a file to view");
    let desk = Desk::new(Vec::new(), Vec::new(), false);
    assert_eq!(desk.c.content().plain_line(0), "No files");
    assert!(desk.jobs.is_empty());
}

#[test]
fn filters_exclude_one_another() {
    let mut desk = diff_desk(true);
    desk.handle(Intent::ToggleChangedOnly);
    assert!(desk.c.changed_only() && !desk.c.status_mode());
    desk.handle(Intent::ToggleStatusMode);
    assert!(!desk.c.changed_only() && desk.c.status_mode());
    desk.handle(Intent::ToggleStatusMode);
    assert!(!desk.c.changed_only() && !desk.c.status_mode());
    desk.handle(Intent::ToggleIgnore);
    assert!(desk.c.show_ignored());
    desk.handle(Intent::ToggleHidden);
    assert!(desk.c.hide_hidden());
    desk.handle(Intent::ToggleBaseline);
    assert_eq!(desk.c.baseline(), Baseline::Base);
}

#[test]
fn collapsing_everything_needs_an_unfiltered_tree() {
    let mut desk = diff_desk(true);
    desk.handle(Intent::ToggleChangedOnly);
    desk.handle(Intent::CollapseAll);
    assert_eq!(
        desk.notice().as_deref(),
        Some("Collapse all is unavailable while a changed-files filter is active.")
    );
}

#[test]
fn pins_hold_the_viewer_open() {
    let mut desk = note_desk();
    desk.handle(Intent::TogglePin);
    assert_eq!(
        desk.notice().as_deref(),
        Some("Viewer pinned \u{2014} close keys will not quit the pane.")
    );
    let turn = desk.handle(Intent::Close);
    assert!(!turn.quit);
    assert_eq!(
        desk.notice().as_deref(),
        Some("Viewer is pinned. Click [x] or unpin it before closing with q/Esc.")
    );
    let mut geom = PaneGeometry::new();
    geom.tree_close_button = Some(Rect { x: 10, y: 0, width: 3, height: 1 });
    desk.c.set_pane_geometry(geom);
    desk.mouse(MouseKind::Down(MouseButton::Left), 11, 0);
    let turn = desk.mouse(MouseKind::Up(MouseButton::Left), 11, 0);
    assert!(turn.quit, "the button closes a pinned viewer");
    desk.handle(Intent::TogglePin);
    assert_eq!(desk.notice().as_deref(), Some("Viewer unpinned."));
    assert!(desk.handle(Intent::Close).quit);
}

#[test]
fn zooming_goes_back_layer_by_layer() {
    let mut desk = note_desk();
    desk.c.set_host(true);
    desk.handle(Intent::OpenFullscreen);
    assert!(desk.c.zoomed());
    assert!(matches!(desk.host.pop(), Some(HostRequest::Zoom(true))));
    assert!(!desk.handle(Intent::Close).quit);
    assert!(!desk.c.zoomed());
    assert!(matches!(desk.host.pop(), Some(HostRequest::Zoom(false))));
    assert!(desk.handle(Intent::Close).quit);
    assert!(desk.host.is_empty(), "full screen was left once");
}

#[test]
fn paths_are_copied_clean() {
    let mut desk = Desk::new(vec![("a\u{1b}b.rs", NodeKind::File)], Vec::new(), false);
    desk.handle(Intent::CopyRepoPath);
    desk.handle(Intent::CopyAbsPath);
    assert_eq!(desk.board.copied, ["ab.rs", "/r/ab.rs"]);
    assert_eq!(desk.notice().as_deref(), Some("Copied /r/ab.rs"));
    desk.board.fails = true;
    desk.handle(Intent::CopyRepoPath);
    assert_eq!(desk.notice().as_deref(), Some("Could not copy path: no terminal"));
}

#[test]
fn failed_copies_keep_the_annotations() {
    let mut desk = note_desk();
    desk.handle(Intent::AddAnnotation);
    desk.type_text("keep me");
    desk.press(plain(KeyCode::Enter));
    desk.board.fails = true;
    desk.handle(Intent::Close);
    let turn = desk.press(plain(KeyCode::Char('y')));
    assert!(!turn.quit);
    assert!(desk.c.discard_confirm_open());
    assert_eq!(desk.c.annotations().len(), 1);
    assert_eq!(desk.notice().as_deref(), Some("Could not copy annotations: no terminal"));
}

#[test]
fn searches_step_around_and_are_cleared() {
    let mut desk = note_desk();
    desk.viewport(40, 3);
    desk.land(lines(&["one", "two", "one", "four", "one"]));
    desk.handle(Intent::OpenSearch);
    assert_eq!(desk.c.view_state(&desk.layout).prompt.as_deref(), Some("Search: "));
    desk.press(plain(KeyCode::Char('o')));
    assert!(matches!(desk.other.pop(), Some(Action::FindMatches)));
    let found = |list: &[usize]| -> Vec<Match> {
        list.iter().map(|l| Match { line: *l, start: 0, end: 1 }).collect()
    };
    let mut out = Vec::new();
    desk.c.matches_found(found(&[0, 2, 4]), &desk.layout, &mut out);
    assert_eq!(desk.c.view_state(&desk.layout).prompt.as_deref(), Some("Search: o (1/3)"));
    desk.press(plain(KeyCode::Enter));
    assert_eq!(
        desk.c.view_state(&desk.layout).prompt.as_deref(),
        Some("Search: o (1/3) \u{b7} n next \u{b7} N prev \u{b7} Esc clear")
    );
    desk.handle(Intent::NextMatch);
    desk.handle(Intent::NextMatch);
    assert_eq!(desk.c.search().unwrap().current, 2);
    assert_eq!(desk.c.content_scroll(), 2);
    desk.handle(Intent::NextMatch);
    assert_eq!(desk.c.search().unwrap().current, 0);
    assert_eq!(desk.notice().as_deref(), Some("Search: wrapped to first match"));
    desk.handle(Intent::PrevMatch);
    assert_eq!(desk.notice().as_deref(), Some("Search: wrapped to last match"));
    assert_eq!(desk.c.view_state(&desk.layout).search.unwrap().current, 2);
    assert!(!desk.handle(Intent::Close).quit, "the search is cleared first");
    assert!(desk.c.search().is_none());
    assert_eq!(desk.c.view_state(&desk.layout).prompt, None);
    assert!(desk.handle(Intent::Close).quit);
}

#[test]
fn searches_without_matches_say_so() {
    let mut desk = note_desk();
    desk.land(lines(&["one"]));
    desk.handle(Intent::OpenSearch);
    desk.press(plain(KeyCode::Char('x')));
    let mut out = Vec::new();
    desk.c.matches_found(Vec::new(), &desk.layout, &mut out);
    assert_eq!(desk.c.view_state(&desk.layout).prompt.as_deref(), Some("Search: x (no matches)"));
    desk.press(plain(KeyCode::Enter));
    assert_eq!(
        desk.c.view_state(&desk.layout).prompt.as_deref(),
        Some("Search: x (no matches) \u{b7} Esc clear")
    );
}

#[test]
fn lines_are_reached_by_number() {
    let mut desk = note_desk();
    desk.viewport(40, 2);
    desk.land(lines(&["1", "2", "3", "4", "5"]));
    desk.handle(Intent::OpenGoToLine);
    desk.type_text("3");
    assert_eq!(desk.c.prompt_query(), "3");
    assert_eq!(desk.c.view_state(&desk.layout).prompt.as_deref(), Some("Go to line: 3"));
    desk.press(plain(KeyCode::Enter));
    assert_eq!(desk.c.content_scroll(), 2);
    desk.handle(Intent::OpenGoToLine);
    desk.type_text("99999999999999999999999");
    desk.press(plain(KeyCode::Enter));
    assert_eq!(desk.c.content_scroll(), 3, "the last line is the limit");
    let mut desk = open_desk();
    desk.handle(Intent::OpenGoToLine);
    assert_eq!(desk.notice().as_deref(), Some("Go to line: select a file first"));
    desk.handle(Intent::OpenSearch);
    assert_eq!(desk.notice().as_deref(), Some("Search: select a file first"));
}

#[test]
fn selected_lines_are_copied() {
    let mut desk = note_desk();
    desk.viewport(40, 4);
    desk.land(lines(&["fn a() {", "\tb();", "}"]));
    let mut out = Vec::new();
    desk.c.enter_line_select_at_top(&desk.layout, &mut out);
    assert_eq!(desk.c.line_selection(), Some((1, 1)));
    desk.press(shifted('J'));
    assert_eq!(desk.c.line_selection(), Some((1, 2)));
    let view = desk.c.view_state(&desk.layout).line_select.unwrap();
    assert_eq!((view.marker, view.start, view.end, view.passive), (2, 1, 2, false));
    let effects = desk.c.copy_line_content(&mut out);
    desk.finish(effects, out);
    assert_eq!(desk.board.copied, ["fn a() {\n\tb();"]);
    assert_eq!(desk.notice().as_deref(), Some("Copied lines 1-2"));
    let mut out = Vec::new();
    desk.c.enter_line_select_at_top(&desk.layout, &mut out);
    let effects = desk.c.copy_line_reference(&mut out);
    desk.finish(effects, out);
    assert_eq!(desk.board.copied[1], "note.rs:1");
    assert!(!desk.c.line_select_active());
}

#[test]
fn notes_on_lines_are_marked() {
    let mut desk = note_desk();
    desk.viewport(40, 4);
    desk.land(lines(&["a", "b", "c"]));
    let mut out = Vec::new();
    desk.c.enter_line_select_at_top(&desk.layout, &mut out);
    desk.press(shifted('J'));
    desk.c.add_annotation_for_line_selection(&mut out);
    desk.type_text("why?");
    desk.press(plain(KeyCode::Enter));
    assert_eq!(desk.c.line_selection(), None);
    let view = desk.c.view_state(&desk.layout);
    assert!(view.annotation_indicators.displayed_file_annotated);
    let marks: Vec<(usize, usize)> = view
        .annotation_indicators
        .displayed_line_ranges
        .iter()
        .map(|r| (r.start(), r.end()))
        .collect();
    assert_eq!(marks, [(1, 2)]);
    desk.handle(Intent::ShowAnnotations);
    desk.press(plain(KeyCode::Char('y')));
    assert_eq!(desk.notice().as_deref(), Some("Copied 1 annotation"));
    assert!(desk.board.copied[0].contains("note.rs"));
    assert!(desk.board.copied[0].contains("why?"));
}

#[test]
fn directories_cannot_be_annotated() {
    let mut desk = open_desk();
    desk.handle(Intent::AddAnnotation);
    assert_eq!(
        desk.notice().as_deref(),
        Some("Directories cannot be annotated; select a file")
    );
    let mut desk = Desk::new(Vec::new(), Vec::new(), false);
    desk.handle(Intent::AddAnnotation);
    assert_eq!(desk.notice().as_deref(), Some("Select a file to annotate"));
}

#[test]
fn the_finder_opens_files() {
    let mut desk = open_desk();
    desk.handle(Intent::OpenFinder);
    assert!(desk.c.finder_open());
    assert_eq!(desk.c.finder_candidates().len(), 4);
    desk.type_text("file");
    assert_eq!(desk.c.finder_query(), "file");
    let view = desk.c.view_state(&desk.layout).overlays.finder.unwrap();
    assert_eq!(view.matches, ["src/deep/file.rs"]);
    assert_eq!(view.scope_label, "src/");
    assert_eq!(desk.c.finder_matches(), [2]);
    assert_eq!((desk.c.finder_cursor(), desk.c.finder_hscroll()), (0, 0));
    desk.press(plain(KeyCode::Enter));
    assert!(!desk.c.finder_open());
    assert_eq!(desk.selected().as_deref(), Some("/r/src/deep/file.rs"));
    assert!(desk.c.zoomed(), "the content has no column yet");
    assert_eq!(desk.c.finder_query(), "");
    assert!(desk.c.finder_candidates().is_empty() && desk.c.finder_matches().is_empty());
}

fn worktree(name: &str, current: bool) -> Worktree {
    Worktree {
        path: path(name),
        branch: Some("b".to_string()),
        detached: false,
        is_current: current,
    }
}

#[test]
fn the_picker_starts_at_the_active_agent() {
    let mut desk = diff_desk(true);
    desk.handle(Intent::SwitchWorktree);
    assert!(matches!(desk.other.pop(), Some(Action::ListWorktrees)));
    let rows = || vec![worktree("/w/a", false), worktree("/w/b", true), worktree("/w/c", false)];
    let overlay = AgentOverlay {
        statuses: vec![None, None, Some("working".to_string())],
        active: Some(path("/w/c")),
    };
    let mut out = Vec::new();
    desk.c.worktrees_listed(rows(), Some(overlay), &mut out);
    assert_eq!(desk.c.picker().unwrap().cursor, 2);
    let view = desk.c.view_state(&desk.layout).overlays.picker.unwrap();
    assert_eq!(view.rows[2].agent.as_deref(), Some("working"));
    assert_eq!(view.rows[1].path, "/w/b");
    assert!(view.rows[1].is_current);
    desk.handle(Intent::Close);
    assert!(desk.c.picker().is_none());
    desk.c.worktrees_listed(rows(), None, &mut out);
    assert_eq!(desk.c.picker().unwrap().cursor, 1);
    desk.handle(Intent::NavUp);
    desk.handle(Intent::Activate);
    assert_eq!(desk.c.root().text(), "/w/a");
    desk.c.worktrees_listed(Vec::new(), None, &mut out);
    assert_eq!(desk.notice().as_deref(), Some("could not list worktrees"));
    let mut desk = note_desk();
    desk.handle(Intent::SwitchWorktree);
    assert_eq!(
        desk.notice().as_deref(),
        Some("worktree switch is only available inside a git repository")
    );
}

#[test]
fn roots_that_are_gone_are_refused() {
    let mut desk = note_desk();
    let mut out = Vec::new();
    desk.c.root_resolved(path("/gone"), None, false, &mut out);
    assert_eq!(
        desk.notice().as_deref(),
        Some("cannot switch worktree: /gone is not an accessible directory")
    );
    assert_eq!(desk.c.root().text(), "/r");
}

/// A host that records what it is asked.
struct Recorder(std::cell::RefCell<Vec<String>>);

impl HerdrCli for Recorder {
    fn run_json(&self, args: &[&str]) -> Result<String, String> {
        self.0.borrow_mut().push(args.join(" "));
        Ok("{}".to_string())
    }

    fn run(&self, args: &[&str]) -> Result<(), String> {
        self.0.borrow_mut().push(args.join(" "));
        Err("refused".to_string())
    }
}

#[test]
fn workspaces_open_beside_a_viewer() {
    let mut desk = open_desk();
    desk.handle(Intent::OpenWorkspace);
    assert_eq!(
        desk.notice().as_deref(),
        Some("Failed to open workspace: herdr is unavailable")
    );
    desk.c.set_host(true);
    desk.handle(Intent::OpenWorkspace);
    let env = HostEnv { root_variable: "EXACT".to_string(), config_dir: Some("/c".to_string()) };
    let herdr = Recorder(std::cell::RefCell::new(Vec::new()));
    let request = desk.host.pop().unwrap();
    assert_eq!(request.send(&env, &herdr), Ok("{}".to_string()));
    let place = match request {
        HostRequest::CreateWorkspace(place) => place,
        other => panic!("{other:?}"),
    };
    let mut out = Vec::new();
    desk.c.workspace_created(place, Ok(Some("w1".to_string())), &mut out);
    desk.work(out);
    let request = desk.host.pop().unwrap();
    assert_eq!(request.args(&env), ["pane", "list", "--workspace", "w1"]);
    let place = match request {
        HostRequest::ListPanes { place, .. } => place,
        other => panic!("{other:?}"),
    };
    let mut out = Vec::new();
    desk.c.panes_listed(place, Some("p1".to_string()), &mut out);
    desk.work(out);
    let request = desk.host.pop().unwrap();
    let args = request.args(&env);
    assert_eq!(args[10], "p1");
    assert_eq!(args[14], "EXACT=/r/src");
    assert_eq!(args[17], "HERDR_PLUGIN_CONFIG_DIR=/c");
    assert_eq!(request.send(&env, &herdr), Err("refused".to_string()));
    let place = match request {
        HostRequest::OpenViewer { place, .. } => place,
        other => panic!("{other:?}"),
    };
    let mut out = Vec::new();
    desk.c.viewer_opened(place, "p1".to_string(), None, &mut out);
    desk.work(out);
    let request = desk.host.pop().unwrap();
    assert_eq!(
        request.args(&env),
        ["pane", "resize", "--pane", "p1", "--direction", "right", "--amount", "0.300000"]
    );
    let place = match request {
        HostRequest::ResizeTerminal { place, .. } => place,
        other => panic!("{other:?}"),
    };
    let mut out = Vec::new();
    desk.c.terminal_resized(place.duplicate(), Some("busy".to_string()), &mut out);
    assert_eq!(
        desk.notice().as_deref(),
        Some(
            "Opened workspace and File Viewer in /r/src, but failed to set viewer ratio \
             0.200000: busy"
        )
    );
    desk.c.terminal_resized(place, None, &mut out);
    assert_eq!(
        desk.notice().as_deref(),
        Some("Opened workspace and File Viewer in /r/src; terminal stays focused")
    );
    assert_eq!(
        herdr.0.borrow()[0],
        "workspace create --cwd /r/src --label src --focus"
    );
}

#[test]
fn workspaces_answer_at_every_step() {
    let mut desk = open_desk();
    desk.c.set_host(true);
    desk.handle(Intent::OpenWorkspace);
    let place = match desk.host.pop() {
        Some(HostRequest::CreateWorkspace(place)) => place,
        other => panic!("{other:?}"),
    };
    let mut out = Vec::new();
    desk.c.workspace_created(place.duplicate(), Err("full".to_string()), &mut out);
    assert_eq!(desk.notice().as_deref(), Some("Failed to open workspace: full"));
    desk.c.workspace_created(place.duplicate(), Ok(None), &mut out);
    assert_eq!(
        desk.notice().as_deref(),
        Some("Opened workspace in /r/src, but herdr did not return its workspace ID")
    );
    desk.c.panes_listed(place.duplicate(), None, &mut out);
    assert_eq!(
        desk.notice().as_deref(),
        Some("Opened workspace in /r/src, but could not identify its initial terminal")
    );
    desk.c.viewer_opened(place.duplicate(), "p".to_string(), Some("no".to_string()), &mut out);
    assert_eq!(
        desk.notice().as_deref(),
        Some("Opened workspace in /r/src, but failed to open File Viewer: no")
    );
    desk.c.apply_workspace_launch_settings(false, ViewerPaneRatio::resolve(None));
    desk.c.workspace_created(place.duplicate(), Ok(None), &mut out);
    assert_eq!(
        desk.notice().as_deref(),
        Some("Opened workspace in /r/src; terminal stays focused")
    );
    desk.c.pane_opened(place.duplicate(), None, &mut out);
    assert_eq!(desk.notice().as_deref(), Some("Opened pane in /r/src"));
    desk.c.pane_opened(place, Some("no".to_string()), &mut out);
    assert_eq!(desk.notice().as_deref(), Some("Failed to open pane: no"));
    desk.c.set_host(false);
    desk.handle(Intent::OpenPaneHere);
    assert_eq!(desk.notice().as_deref(), Some("Failed to open pane: herdr is unavailable"));
}

#[test]
fn the_wheel_scrolls_without_selecting() {
    let mut desk = note_desk();
    desk.viewport(40, 2);
    desk.land(lines(&["1", "2", "3", "4", "5", "6"]));
    let mut geom = PaneGeometry::new();
    geom.area_width = 80;
    geom.tree_inner = Some(Rect { x: 1, y: 1, width: 20, height: 10 });
    geom.content_inner = Some(Rect { x: 24, y: 1, width: 40, height: 2 });
    desk.c.set_pane_geometry(geom);
    desk.mouse(MouseKind::ScrollDown, 30, 1);
    assert_eq!(desk.c.content_scroll(), 3);
    desk.mouse(MouseKind::ScrollDown, 30, 1);
    assert_eq!(desk.c.content_scroll(), 4, "the last line stays at the bottom");
    desk.mouse(MouseKind::ScrollUp, 30, 1);
    assert_eq!(desk.c.content_scroll(), 1);
    assert_eq!(desk.selected().as_deref(), Some("/r/note.rs"));
}

#[test]
fn splits_stay_between_their_bounds() {
    let mut desk = note_desk();
    for _ in 0..30 {
        desk.handle(Intent::GrowTree);
    }
    assert_eq!(desk.c.split_pct(), 80);
    for _ in 0..30 {
        desk.handle(Intent::ShrinkTree);
    }
    assert_eq!(desk.c.split_pct(), 10);
}

#[test]
fn full_text_hits_open_their_line() {
    let mut desk = open_desk();
    desk.handle(Intent::OpenTextSearch);
    assert_eq!(
        desk.notice().as_deref(),
        Some("Full-text search requires ripgrep (`rg`) on PATH")
    );
    desk.c.set_workspace_searcher(Some(true));
    desk.handle(Intent::OpenTextSearch);
    assert!(desk.c.workspace_search_open());
    desk.press(plain(KeyCode::Char('x')));
    let seq = match desk.other.pop() {
        Some(Action::SearchText { seq, .. }) => seq,
        other => panic!("{other:?}"),
    };
    let hit = || SearchHit { path: "other.rs".to_string(), line: 2, text: "x".to_string() };
    let found = |hits: Vec<SearchHit>| SearchOutcome::Found { matches: hits, limited: false };
    let mut out = Vec::new();
    let late = Arrival::Search { seq: seq.wrapping_sub(1), outcome: found(vec![hit()]) };
    assert!(desk.c.poll(late, &desk.layout, &mut out).is_none());
    desk.press(plain(KeyCode::Char('y')));
    let seq = match desk.other.pop() {
        Some(Action::SearchText { seq, .. }) => seq,
        other => panic!("{other:?}"),
    };
    let fresh = Arrival::Search { seq, outcome: found(vec![hit()]) };
    assert!(desk.c.poll(fresh, &desk.layout, &mut out).is_some());
    let view = desk.c.view_state(&desk.layout).overlays.workspace_search.unwrap();
    assert_eq!(view.query, "xy");
    assert_eq!(view.matches.len(), 1);
    assert_eq!(view.error, None);
    desk.press(plain(KeyCode::Enter));
    assert_eq!(desk.selected().as_deref(), Some("/r/other.rs"));
    assert_eq!(desk.c.pending_goto_line(), Some(2));
}

#[test]
fn failed_searches_say_so() {
    let mut desk = open_desk();
    desk.c.set_workspace_searcher(Some(true));
    desk.handle(Intent::OpenTextSearch);
    desk.press(plain(KeyCode::Char('x')));
    let seq = match desk.other.pop() {
        Some(Action::SearchText { seq, .. }) => seq,
        other => panic!("{other:?}"),
    };
    let mut out = Vec::new();
    let failed = Arrival::Search { seq, outcome: SearchOutcome::Failed };
    assert!(desk.c.poll(failed, &desk.layout, &mut out).is_some());
    let view = desk.c.view_state(&desk.layout).overlays.workspace_search.unwrap();
    assert_eq!(view.error, Some("ripgrep search failed"));
    assert!(!view.pending);
}

/// Git and a renderer that show what they were asked.
struct Echo;

impl GitService for Echo {
    fn status(&self) -> StatusMap {
        modified(&["a.rs"])
    }

    fn changed_set(&self, baseline: Baseline) -> StatusMap {
        match baseline {
            Baseline::Head => modified(&["head.rs"]),
            Baseline::Base => modified(&["base.rs"]),
        }
    }

    fn diff(&self, rel: &FilePath, _baseline: Baseline, full: bool) -> String {
        format!("diff {} {full}", rel.text())
    }

    fn diff_directory(&self, rel: &FilePath, _baseline: Baseline) -> String {
        format!("below {}", rel.text())
    }
}

impl ContentProvider for Echo {
    fn render(&self, file: &FilePath, mode: ViewMode, raw: Option<&str>) -> RenderResult {
        lines(&[&format!("{} {mode:?} {raw:?}", file.text())])
    }
}

#[test]
fn renders_get_the_diff_they_need() {
    let mut desk = diff_desk(true);
    let job = desk.jobs.pop().unwrap();
    let result = job.render_with(&Echo, &Echo);
    assert_eq!(
        result.content[0].spans[0],
        "/r/sample.rs Diff Some(\"diff sample.rs false\")"
    );
    let mut desk = diff_desk(false);
    let job = desk.jobs.pop().unwrap();
    let result = job.render_with(&Echo, &Echo);
    assert_eq!(result.content[0].spans[0], "/r/sample.rs SyntaxContent None");
    let mut desk =
        Desk::new(vec![("d", NodeKind::Dir)], Vec::new(), true);
    desk.handle(Intent::ToggleStatusMode);
    let job = desk.jobs.pop().unwrap();
    let result = job.render_with(&Echo, &Echo);
    assert_eq!(result.content[0].spans[0], "/r/d Diff Some(\"below d\")");
}

#[test]
fn git_is_asked_about_the_baseline() {
    let mut desk = diff_desk(true);
    let mut out = Vec::new();
    desk.c.query_changed(&Echo, Baseline::Base, &mut out);
    assert!(desk.c.is_changed(&path("/r/base.rs")));
    assert!(!desk.c.is_changed(&path("/r/head.rs")));
    let after = herdr_file_viewer::controller::actions::AfterGit::Render;
    desk.c.query_git(&Echo, Some("main".to_string()), after, &mut out);
    assert!(desk.c.is_changed(&path("/r/head.rs")));
    assert_eq!(desk.c.view_state(&desk.layout).branch.as_deref(), Some("main"));
}

#[test]
fn the_background_status_is_taken_once() {
    let mut desk = diff_desk(true);
    let mut out = Vec::new();
    desk.c.repo.status_pending = true;
    let arrival = || Arrival::Status { status: modified(&["x"]), changed: modified(&["x"]) };
    assert!(desk.c.status_refresh_pending());
    assert!(desk.c.poll(arrival(), &desk.layout, &mut out).is_some());
    assert!(desk.c.poll(arrival(), &desk.layout, &mut out).is_none());
    assert!(desk.c.poll(Arrival::StatusLost, &desk.layout, &mut out).is_none());
}

#[test]
fn the_note_about_a_newer_version_can_be_dismissed() {
    let mut desk = note_desk();
    desk.c.set_update(None, true);
    let mut out = Vec::new();
    let news = Arrival::Update(Some("2.0 is out".to_string()));
    assert!(desk.c.poll(news, &desk.layout, &mut out).is_some());
    let banner = desk.c.view_state(&desk.layout).update_banner;
    assert_eq!(banner.as_deref(), Some("2.0 is out"));
    desk.handle(Intent::DismissUpdate);
    assert_eq!(desk.c.view_state(&desk.layout).update_banner, None);
    assert!(desk.c.poll(Arrival::UpdateLost, &desk.layout, &mut out).is_none());
}

#[test]
fn the_context_menu_acts_on_the_selection() {
    let mut desk = note_desk();
    desk.handle(Intent::ShowContextMenu);
    assert!(desk.c.context_menu_open());
    let view = desk.c.view_state(&desk.layout).overlays.context_menu.unwrap();
    assert_eq!(view.items.len(), 4);
    desk.press(plain(KeyCode::Char('4')));
    assert!(!desk.c.context_menu_open());
    assert_eq!(desk.board.copied, ["note.rs"]);
}

#[test]
fn a_narrow_pane_is_scrolled_sideways() {
    let mut desk = note_desk();
    desk.land(lines(&["a line \u{6f22}\u{5b57} that is wide"]));
    assert_eq!(desk.c.content().widest_line(), 24);
    desk.viewport(10, 5);
    desk.handle(Intent::ToggleFocus);
    desk.handle(Intent::Expand);
    desk.handle(Intent::Expand);
    assert_eq!(desk.c.nav.content_hscroll, 14, "wide characters take two columns");
}

#[test]
fn wrapping_is_forced_by_hand() {
    let mut desk = note_desk();
    assert!(!desk.c.wrap_override());
    desk.handle(Intent::ToggleWrap);
    assert!(desk.c.wrap_override());
    assert!(desk.c.view_state(&desk.layout).wrap);
    desk.handle(Intent::ToggleWrap);
    assert!(!desk.c.view_state(&desk.layout).wrap);
}

#[test]
fn dragged_characters_are_copied() {
    let mut desk = note_desk();
    desk.viewport(40, 4);
    desk.land(lines(&["hello world", "second"]));
    let mut geom = PaneGeometry::new();
    geom.area_width = 80;
    geom.content_inner = Some(Rect { x: 24, y: 1, width: 40, height: 4 });
    desk.c.set_pane_geometry(geom);
    desk.mouse(MouseKind::Down(MouseButton::Left), 30, 1);
    desk.mouse(MouseKind::Drag(MouseButton::Left), 27, 2);
    let view = desk.c.view_state(&desk.layout).content_selection.unwrap();
    assert_eq!((view.start_line, view.start_col, view.end_line, view.end_col), (1, 6, 2, 3));
    desk.mouse(MouseKind::Up(MouseButton::Left), 27, 2);
    let mut out = Vec::new();
    let effects = desk.c.copy_content_selection(&mut out);
    assert!(matches!(out[0], Action::Copy(Clip::Dragged { .. })));
    desk.finish(effects, out);
    assert_eq!(desk.board.copied.last().unwrap(), "world\nsec");
    assert!(!matches!(desk.c.modal, Modal::LineSelect(_)));
}

#[test]
fn single_settings_can_be_applied() {
    let mut desk = note_desk();
    desk.c.apply_confirm_discard(false);
    desk.c.apply_tree_position(TreePosition::Right);
    desk.c.apply_tree_icons(TreeIcons::Nerd);
    assert!(!desk.c.prefs.confirm_discard);
    assert_eq!(desk.c.prefs.tree_position, TreePosition::Right);
    assert_eq!(desk.c.prefs.tree_icons, TreeIcons::Nerd);
    assert_eq!(desk.c.base_branch_hint(), None);
    assert!(!desk.c.line_select_pending());
}

#[test]
fn help_sections_go_around_and_stop_at_their_last_row() {
    let mut desk = note_desk();
    let mut out = Vec::new();
    let bodies = HelpBodies {
        keybindings: Some(text_body("keys")),
        whats_new: text_body("news"),
        settings: Some(text_body("settings")),
        about: text_body("about"),
    };
    desk.c.help_prepared(bodies, &mut out);
    desk.c.screen.geom.help_body_rows = 12;
    desk.c.screen.geom.help_body_height = 10;
    for _ in 0..5 {
        desk.press(plain(KeyCode::Char('j')));
    }
    assert_eq!(desk.c.help_state().unwrap().sections[0].scroll, 2);
    desk.press(plain(KeyCode::Left));
    assert_eq!(desk.c.help_state().unwrap().active, 3);
    assert_eq!(desk.c.help_state().unwrap().sections[3].scroll, 0);
    desk.press(plain(KeyCode::Right));
    assert_eq!(desk.c.help_state().unwrap().active, 0);
    assert_eq!(desk.c.help_state().unwrap().sections[0].scroll, 2);
    assert!(desk.c.help_open());
    assert!(out.is_empty());
}

#[test]
fn late_answers_leave_the_running_search_alone() {
    let mut desk = open_desk();
    desk.c.set_workspace_searcher(Some(true));
    desk.handle(Intent::OpenTextSearch);
    let mut started = Vec::new();
    for c in ['x', 'y'] {
        desk.press(plain(KeyCode::Char(c)));
        match desk.other.pop() {
            Some(Action::SearchText { seq, .. }) => started.push(seq),
            other => panic!("{other:?}"),
        }
    }
    let answer = |seq: u64| Arrival::Search {
        seq,
        outcome: SearchOutcome::Found {
            matches: vec![SearchHit { path: "other.rs".to_string(), line: 1, text: "x".to_string() }],
            limited: false,
        },
    };
    let mut out = Vec::new();
    assert!(desk.c.poll(answer(started[0]), &desk.layout, &mut out).is_none());
    let lost = Arrival::SearchLost { seq: started[0] };
    assert!(desk.c.poll(lost, &desk.layout, &mut out).is_none());
    assert!(desk.c.view_state(&desk.layout).overlays.workspace_search.unwrap().pending);
    assert!(desk.c.poll(answer(started[1]), &desk.layout, &mut out).is_some());
    let view = desk.c.view_state(&desk.layout).overlays.workspace_search.unwrap();
    assert!(!view.pending);
    assert_eq!(view.matches.len(), 1);
}

#[test]
fn lost_searches_fail() {
    let mut desk = open_desk();
    desk.c.set_workspace_searcher(Some(true));
    desk.handle(Intent::OpenTextSearch);
    desk.press(plain(KeyCode::Char('x')));
    let seq = match desk.other.pop() {
        Some(Action::SearchText { seq, .. }) => seq,
        other => panic!("{other:?}"),
    };
    let mut out = Vec::new();
    let lost = Arrival::SearchLost { seq };
    assert!(desk.c.poll(lost, &desk.layout, &mut out).is_some());
    let view = desk.c.view_state(&desk.layout).overlays.workspace_search.unwrap();
    assert_eq!(view.error, Some("ripgrep search failed"));
}

#[test]
fn scopes_outside_the_root_are_named_by_their_components() {
    let mut desk = open_desk();
    desk.c.set_workspace_searcher(Some(true));
    desk.c.tree.nodes[0].path = path("/else/../a/b");
    desk.handle(Intent::OpenTextSearch);
    let view = desk.c.view_state(&desk.layout).overlays.workspace_search.unwrap();
    assert_eq!(view.scope_label, "else/a/b/");
    desk.press(plain(KeyCode::Esc));
    desk.handle(Intent::OpenFinder);
    let view = desk.c.view_state(&desk.layout).overlays.finder.unwrap();
    assert_eq!(view.scope_label, "else/a/b/");
    let mut desk = open_desk();
    desk.c.tree.nodes[0].path = path("/r");
    desk.handle(Intent::OpenFinder);
    let view = desk.c.view_state(&desk.layout).overlays.finder.unwrap();
    assert_eq!(view.scope_label, "./");
}

#[test]
fn annotated_files_are_listed_once() {
    let mut desk = note_desk();
    for text in ["one", "two"] {
        desk.handle(Intent::AddAnnotation);
        desk.type_text(text);
        desk.press(plain(KeyCode::Enter));
    }
    assert_eq!(desk.c.annotations().ordered().len(), 2);
    let files = desk.c.annotation_indicators_view().annotated_files;
    let names: Vec<String> = files.iter().map(|f| f.text()).collect();
    assert_eq!(names, ["/r/note.rs"]);
}

#[test]
fn mouse_handlers_rest_without_their_overlay() {
    let mut desk = note_desk();
    let mut out = Vec::new();
    let modifiers = Modifiers::none();
    let ev = Mouse { kind: MouseKind::Down(MouseButton::Left), column: 0, row: 0, modifiers };
    let wheel = Mouse { kind: MouseKind::ScrollDown, column: 0, row: 0, modifiers };
    let noop = Effects::noop();
    for ev in [ev, wheel] {
        assert_eq!(desk.c.handle_help_mouse(ev, &mut out), noop);
        assert_eq!(desk.c.handle_finder_mouse(ev, desk.now, &mut out), noop);
        assert_eq!(desk.c.handle_workspace_search_mouse(ev, &mut out), noop);
        let menu = desk.c.handle_context_menu_mouse(ev, &desk.layout, desk.now, &mut out);
        assert_eq!(menu, noop);
    }
    assert!(out.is_empty());
    assert!(desk.c.pointer.drag.is_none());
    assert_eq!(desk.c.screen.geom.min_split_pct, 0);
}

#[test]
fn a_refused_copy_keeps_the_annotations() {
    let mut desk = note_desk();
    desk.handle(Intent::AddAnnotation);
    desk.type_text("why?");
    desk.press(plain(KeyCode::Enter));
    desk.board.fails = true;
    let mut out = Vec::new();
    desk.c.copy_with(Clip::Discarded, &mut desk.board, &mut out);
    assert_eq!(desk.c.annotations().ordered().len(), 1);
    assert!(desk.notice().unwrap().contains("no terminal"));
    desk.board.fails = false;
    desk.c.copy_with(Clip::Annotations, &mut desk.board, &mut out);
    assert!(desk.board.copied[0].contains("why?"));
}
