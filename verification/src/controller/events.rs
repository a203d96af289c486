//! The run loop's decisions: what an event leads to, when to draw, and how a start and a visit to
//! the editor go.

use super::actions::{run, Action, EditorOutcome, Effects, Run};
use super::content::{between, Layout};
use super::settings::{tree_columns, tree_share, wheel_step};
use super::state::{Controller, Preferences};
use crate::config::{
    EffectiveSettings, MAX_TREE_WIDTH, MIN_TREE_MAX_COLS, MIN_TREE_WIDTH,
};
use crate::input::{Intent, Key, Mouse};
use vstd::prelude::*;
use vstd::string::*;

verus! {

/// What the terminal reports.
#[derive(Debug, Clone, Copy)]
pub enum Event {
    /// A key went down, or up again, and the intent that it is bound to.
    Key { key: Key, pressed: bool, bound: Option<Intent> },
    Mouse(Mouse),
    FocusGained,
    FocusLost,
    Resize,
    Other,
}

impl Controller {
    /// An event was taken. A key counts when it goes down; another size is drawn.
    pub open spec fn event_taken(r: Run, event: Event, layout: Layout, now: u64) -> bool {
        match event {
            Event::Key { key, pressed, bound } => if pressed {
                Self::key_typed(r, key, bound, layout, now)
            } else {
                r.takes(r.from.quiet())
            },
            Event::Mouse(ev) => Self::moused(r, ev, layout, now),
            Event::FocusGained => r.takes(r.from.focus_gained_step()),
            Event::Resize => r.takes(r.from.shows()),
            Event::FocusLost | Event::Other => r.takes(r.from.quiet()),
        }
    }

    /// Takes an event.
    pub fn handle_event(
        &mut self,
        event: Event,
        layout: &Layout,
        now: u64,
        out: &mut Vec<Action>,
    ) -> (r: Effects)
        ensures
            Self::event_taken(
                run(*old(self), *final(self), r, old(out)@, final(out)@),
                event,
                *layout,
                now,
            ),
    {
        match event {
            Event::Key { key, pressed, bound } => if pressed {
                self.handle_key(key, bound, layout, now, out)
            } else {
                Effects::noop()
            },
            Event::Mouse(ev) => self.handle_mouse(ev, layout, now, out),
            Event::FocusGained => self.handle_focus_gained(out),
            Event::Resize => Effects::redraw(),
            Event::FocusLost | Event::Other => Effects::noop(),
        }
    }

    /// A key for the annotations, their editor or the question about them; `None` where none of
    /// them is open.
    pub fn route_annotation_key(&mut self, key: Key, out: &mut Vec<Action>) -> (r: Option<Effects>)
        ensures
            r is Some <==> (old(self).modal is Annotations || old(self).modal is AnnotationEditor
                || old(self).modal is DiscardConfirm),
            r is None ==> *final(self) == *old(self) && final(out)@ == old(out)@,
            r matches Some(effects) ==> {
                let step = run(*old(self), *final(self), effects, old(out)@, final(out)@);
                match old(self).modal {
                    super::state::Modal::Annotations(_) => Self::list_keyed(step, key),
                    super::state::Modal::AnnotationEditor(_) => Self::editor_keyed(step, key),
                    _ => step.takes(old(self).discard_key_step(key)),
                }
            },
    {
        if self.annotation_list().is_some() {
            Some(self.handle_annotations_key(key, out))
        } else if self.annotation_editor().is_some() {
            Some(self.handle_annotation_editor_key(key, out))
        } else if self.discard_confirm_open() {
            Some(self.handle_discard_confirm_key(key, out))
        } else {
            None
        }
    }

    /// Applies the settings at the start of a session.
    pub fn configure(&mut self, settings: &EffectiveSettings, out: &mut Vec<Action>) -> (r: Effects)
        ensures
            run(*old(self), *final(self), r, old(out)@, final(out)@).takes(
                old(self).prefers(old(self).prefs.set_by(*settings)).hide_dotfiles_step(
                    settings.hide_dotfiles,
                ),
            ),
    {
        self.prefs = self.prefs.with_settings(settings);
        self.apply_hide_dotfiles(settings.hide_dotfiles, out)
    }

    /// Lets hints and highlights fade.
    pub open spec fn aged(self, now: u64) -> Controller {
        Controller { flash: self.flash_at(now), ..self }.range_faded(now)
    }
}

impl Preferences {
    /// The preferences that the settings ask for, but for dotfiles.
    pub open spec fn set_by(self, settings: EffectiveSettings) -> Self {
        Preferences {
            confirm_discard: settings.confirm_discard,
            open_workspace_with_viewer: settings.open_workspace_with_viewer,
            viewer_pane_ratio: settings.viewer_pane_ratio,
            wheel_step: if settings.scroll_lines < 1 {
                1
            } else {
                settings.scroll_lines
            },
            split_pct: between(
                settings.tree_width as int,
                MIN_TREE_WIDTH as int,
                MAX_TREE_WIDTH as int,
            ) as u16,
            tree_position: settings.tree_position,
            tree_max_cols: if settings.tree_max_cols < MIN_TREE_MAX_COLS {
                MIN_TREE_MAX_COLS
            } else {
                settings.tree_max_cols
            },
            tree_icons: settings.file_icons,
            ..self
        }
    }

    /// The preferences that the settings ask for, but for dotfiles.
    fn with_settings(self, settings: &EffectiveSettings) -> (r: Self)
        ensures
            r == self.set_by(*settings),
    {
        Preferences {
            confirm_discard: settings.confirm_discard,
            open_workspace_with_viewer: settings.open_workspace_with_viewer,
            viewer_pane_ratio: settings.viewer_pane_ratio,
            wheel_step: wheel_step(settings.scroll_lines),
            split_pct: tree_share(settings.tree_width),
            tree_position: settings.tree_position,
            tree_max_cols: tree_columns(settings.tree_max_cols),
            tree_icons: settings.file_icons,
            ..self
        }
    }
}

/// What the run loop has to do with the screen.
#[derive(Debug, Clone, Copy, PartialEq, Eq, Structural)]
pub struct Turn {
    /// Something that is drawn has changed.
    pub dirty: bool,
    /// Another program drew over the screen.
    pub clear: bool,
    /// The session is over.
    pub quit: bool,
}

impl Turn {
    /// The first frame is drawn.
    pub open spec fn first() -> Turn {
        Turn { dirty: true, clear: false, quit: false }
    }

    /// The screen after more effects: a cleared one is drawn anew.
    pub open spec fn with(self, effects: Effects) -> Turn {
        Turn {
            dirty: self.dirty || effects.redraw || effects.clear,
            clear: self.clear || effects.clear,
            quit: self.quit || effects.quit,
        }
    }

    /// The start of a session.
    pub fn new() -> (r: Self)
        ensures
            r == Self::first(),
    {
        Turn { dirty: true, clear: false, quit: false }
    }

    /// Takes effects.
    pub fn take(&mut self, effects: Effects)
        ensures
            *final(self) == old(self).with(effects),
    {
        *self = Turn {
            dirty: self.dirty || effects.redraw || effects.clear,
            clear: self.clear || effects.clear,
            quit: self.quit || effects.quit,
        };
    }

    /// A frame was drawn, and is to be drawn again where `again`.
    pub fn drawn(&mut self, again: bool)
        ensures
            *final(self) == (Turn { dirty: again, clear: false, ..*old(self) }),
    {
        *self = Turn { dirty: again, clear: false, ..*self };
    }

    /// Lets hints and highlights fade; a frame is drawn where one changes.
    pub fn tick(&mut self, controller: &mut Controller, now: u64)
        ensures
            *final(controller) == old(controller).aged(now),
            *final(self) == (Turn {
                dirty: old(self).dirty || final(controller).flash != old(controller).flash
                    || final(controller).pane.range_flash != old(controller).pane.range_flash,
                ..*old(self)
            }),
    {
        let hint = controller.tick_flash(now);
        let range = controller.tick_open_range_flash(now);
        if hint || range {
            self.dirty = true;
        }
    }
}

/// Why a program that was to be run brought nothing.
#[derive(Debug)]
pub enum SpawnError {
    /// It did not start, and why.
    NotLaunched(String),
    /// It ran and ended with a failure status.
    NonZeroExit(String),
}

/// A visit to the editor: why leaving the screen failed, how the program ended, and whether the
/// screen could be taken back.
#[derive(Debug)]
pub struct EditorVisit {
    pub suspend_error: Option<String>,
    pub launch_error: Option<SpawnError>,
    pub resume_error: Option<String>,
}

impl EditorVisit {
    /// How the visit ended: by the first failure in its order. One to take the screen back does
    /// not count: the editor ran, and the next frame is drawn in full.
    pub open spec fn ended(self, outcome: EditorOutcome) -> bool {
        match (self.suspend_error, self.launch_error) {
            (Some(reason), _) => outcome == EditorOutcome::NotLaunched(reason),
            (None, Some(SpawnError::NotLaunched(reason))) => outcome
                == EditorOutcome::NotLaunched(reason),
            (None, Some(SpawnError::NonZeroExit(detail))) => outcome
                == EditorOutcome::NonZeroExit(detail),
            (None, None) => outcome == EditorOutcome::TookOver,
        }
    }

    /// How the visit ended.
    pub fn outcome(self) -> (r: EditorOutcome)
        ensures
            self.ended(r),
    {
        if let Some(reason) = self.suspend_error {
            return EditorOutcome::NotLaunched(reason);
        }
        match self.launch_error {
            Some(SpawnError::NotLaunched(reason)) => EditorOutcome::NotLaunched(reason),
            Some(SpawnError::NonZeroExit(detail)) => EditorOutcome::NonZeroExit(detail),
            None => EditorOutcome::TookOver,
        }
    }
}

/// The editor to use: the one that is set. There is no other default.
pub fn resolve_editor(editor: Option<String>) -> (r: Option<String>)
    ensures
        r == editor,
{
    editor
}

/// What a visit to the editor ends with where none is configured.
pub fn no_editor() -> (r: EditorOutcome)
    ensures
        r matches EditorOutcome::NotLaunched(reason) && reason@
            == "no editor configured (set $EDITOR)"@,
{
    EditorOutcome::NotLaunched("no editor configured (set $EDITOR)".to_owned())
}

/// Effects only add to what the screen needs, and their order does not matter.
pub proof fn effects_add_up(turn: Turn, a: Effects, b: Effects)
    ensures
        turn.with(a).with(b) == turn.with(b).with(a),
        turn.dirty ==> turn.with(a).dirty,
        turn.quit ==> turn.with(a).quit,
        turn.with(Effects::none()) == turn,
{
}

/// A quiet screen is not drawn again: without an event and with nothing that fades, nothing
/// changes.
pub proof fn idle_screens_rest(state: Controller, now: u64)
    requires
        state.flash is None,
        state.pane.range_flash is None,
    ensures
        state.aged(now) == state,
{
}

} // verus!
