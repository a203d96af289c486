//! The help overlay.

use super::actions::{run, Action, Effects, Run};
use super::content::{at_most, between, less};
use super::state::{ContentLine, Controller, HelpSectionState, HelpState, Modal, Pointer};
use crate::input::{Key, KeyCode, Mouse, MouseButton, MouseKind, Rect};
use crate::renderers::{with_width, with_wrap_width, Renderers, RenderersView};
use vstd::prelude::*;
use vstd::string::*;

verus! {

/// How long the renderer of the change log may take, in milliseconds: the overlay opens while keys
/// wait.
pub const HELP_RENDER_TIMEOUT: u64 = 250;

/// The keys that operate the overlay.
pub fn footer_hint() -> (r: &'static str)
    ensures
        r@ == "Tab/\u{2190}\u{2192} switch \u{b7} 1-9 jump \u{b7} j/k scroll \u{b7} Esc/q/? close"@,
{
    "Tab/\u{2190}\u{2192} switch \u{b7} 1-9 jump \u{b7} j/k scroll \u{b7} Esc/q/? close"
}

/// The renderers for the change log: those of the content, wrapping at the width of the overlay,
/// with less time.
pub fn help_renderers(renderers: &Renderers, width: u16) -> (r: Renderers)
    ensures
        r@ == (RenderersView {
            markdown: with_width(renderers@.markdown, width as int),
            timeout_ms: HELP_RENDER_TIMEOUT,
            ..renderers@
        }),
{
    let Renderers { markdown: _, diff, full_diff, syntax, timeout_ms: _ } = renderers.duplicate();
    Renderers {
        markdown: with_wrap_width(&renderers.markdown, width),
        diff,
        full_diff,
        syntax,
        timeout_ms: HELP_RENDER_TIMEOUT,
    }
}

/// The bodies of the overlay's sections.
#[derive(Debug)]
pub struct HelpBodies {
    pub keybindings: Option<Vec<ContentLine>>,
    pub whats_new: Vec<ContentLine>,
    pub settings: Option<Vec<ContentLine>>,
    pub about: Vec<ContentLine>,
}

/// A section that starts at its top.
pub open spec fn section_is(section: HelpSectionState, label: Seq<char>, body: Vec<ContentLine>) -> bool {
    section.label@ == label && section.body == body && section.scroll == 0
}

/// The sections in their order: key bindings and settings only where there are any.
pub open spec fn sections_of(sections: Seq<HelpSectionState>, bodies: HelpBodies) -> bool {
    let first = if bodies.keybindings is Some {
        1int
    } else {
        0
    };
    let middle = if bodies.settings is Some {
        1int
    } else {
        0
    };
    &&& sections.len() == first + 1 + middle + 1
    &&& bodies.keybindings matches Some(body) ==> section_is(sections[0], "Keybindings"@, body)
    &&& section_is(sections[first], "What's New"@, bodies.whats_new)
    &&& bodies.settings matches Some(body) ==> section_is(sections[first + 1], "Settings"@, body)
    &&& section_is(sections[first + 1 + middle], "About"@, bodies.about)
}

/// A change of the overlay.
#[derive(Debug, Clone, Copy, PartialEq, Eq, Structural)]
pub enum HelpMove {
    Next,
    Previous,
    Select(usize),
    /// Scroll up by one row.
    Up,
    /// Scroll by some rows, and keep the last row in view where rows were measured.
    Scroll(i32),
    /// Keep the last row in view.
    Clamp,
}

impl HelpState {
    /// The offset of the shown section after a change, where the body was drawn with `rows` rows in
    /// `height` cells.
    pub open spec fn scroll_after(scroll: u16, change: HelpMove, rows: u16, height: u16) -> int {
        let max = less(rows as int, height as int);
        match change {
            HelpMove::Scroll(delta) => {
                let next = between(scroll + delta, 0, u16::MAX as int);
                if rows > 0 {
                    at_most(next, max)
                } else {
                    next
                }
            },
            HelpMove::Up => less(scroll as int, 1),
            HelpMove::Clamp => at_most(scroll as int, max),
            _ => scroll as int,
        }
    }

    /// The section that is shown after a change.
    pub open spec fn active_after(self, change: HelpMove) -> int {
        let len = self.sections@.len() as int;
        match change {
            HelpMove::Next => if self.active + 1 < len {
                self.active + 1
            } else {
                0
            },
            HelpMove::Previous => if self.active > 0 {
                self.active - 1
            } else {
                less(len, 1)
            },
            HelpMove::Select(index) => if index < len {
                index as int
            } else {
                self.active as int
            },
            _ => self.active as int,
        }
    }

    /// A change leads from this overlay to `next`.
    pub open spec fn leads(self, change: HelpMove, rows: u16, height: u16, next: Self) -> bool {
        &&& next.active == self.active_after(change)
        &&& next.sections@ == if self.active < self.sections@.len() {
            self.sections@.update(
                self.active as int,
                HelpSectionState {
                    scroll: Self::scroll_after(
                        self.sections@[self.active as int].scroll,
                        change,
                        rows,
                        height,
                    ) as u16,
                    ..self.sections@[self.active as int]
                },
            )
        } else {
            self.sections@
        }
    }

    /// Changes the overlay.
    pub fn apply(&mut self, change: HelpMove, rows: u16, height: u16)
        ensures
            old(self).leads(change, rows, height, *final(self)),
    {
        let len: usize = self.sections.len();
        let active: usize = self.active;
        let max: u16 = rows.saturating_sub(height);
        if active < len {
            let scroll: u16 = self.sections[active].scroll;
            let next: u16 = match change {
                HelpMove::Scroll(delta) => {
                    let moved: u16 = super::scroll::shifted(scroll, delta, u16::MAX);
                    if rows > 0 && moved > max {
                        max
                    } else {
                        moved
                    }
                },
                HelpMove::Up => scroll.saturating_sub(1),
                HelpMove::Clamp => {
                    if scroll > max {
                        max
                    } else {
                        scroll
                    }
                },
                _ => scroll,
            };
            let section = self.sections.remove(active);
            let HelpSectionState { label, body, scroll: _ } = section;
            self.sections.insert(active, HelpSectionState { label, body, scroll: next });
        }
        self.active = match change {
            HelpMove::Next => {
                if active < len && active + 1 < len {
                    active + 1
                } else {
                    0
                }
            },
            HelpMove::Previous => {
                if active > 0 {
                    active - 1
                } else {
                    len.saturating_sub(1)
                }
            },
            HelpMove::Select(index) => {
                if index < len {
                    index
                } else {
                    active
                }
            },
            _ => active,
        };
        assert(old(self).active < old(self).sections@.len() ==> self.sections@ =~= old(
            self,
        ).sections@.update(
            old(self).active as int,
            self.sections@[old(self).active as int],
        ));
    }
}

impl Controller {
    /// Prepares the overlay.
    pub fn open_help(&mut self, out: &mut Vec<Action>) -> (r: Effects)
        ensures
            run(*old(self), *final(self), r, old(out)@, final(out)@).takes(
                old(self).asks(Action::PrepareHelp),
            ),
    {
        out.push(Action::PrepareHelp);
        Effects::redraw()
    }

    /// The overlay is open at its first section.
    pub open spec fn help_opened(r: Run, bodies: HelpBodies) -> bool {
        &&& r.to.modal matches Modal::Help(help) && help.active == 0 && sections_of(
            help.sections@,
            bodies,
        )
        &&& r.takes(
            Controller {
                modal: r.to.modal,
                pointer: Pointer { last_click: None, ..r.from.pointer },
                ..r.from
            }.shows(),
        )
    }

    /// The sections are ready: the overlay opens.
    pub fn help_prepared(&mut self, bodies: HelpBodies, out: &mut Vec<Action>) -> (r: Effects)
        ensures
            Self::help_opened(run(*old(self), *final(self), r, old(out)@, final(out)@), bodies),
    {
        let HelpBodies { keybindings, whats_new, settings, about } = bodies;
        let mut sections: Vec<HelpSectionState> = Vec::new();
        if let Some(body) = keybindings {
            sections.push(
                HelpSectionState { label: "Keybindings".to_owned(), body, scroll: 0 },
            );
        }
        sections.push(
            HelpSectionState { label: "What's New".to_owned(), body: whats_new, scroll: 0 },
        );
        if let Some(body) = settings {
            sections.push(HelpSectionState { label: "Settings".to_owned(), body, scroll: 0 });
        }
        sections.push(HelpSectionState { label: "About".to_owned(), body: about, scroll: 0 });
        self.modal = Modal::Help(HelpState { sections, active: 0 });
        self.pointer.last_click = None;
        Effects::redraw()
    }

    /// Whether the overlay is open.
    pub fn help_open(&self) -> (r: bool)
        ensures
            r == (self.modal is Help),
    {
        match &self.modal {
            Modal::Help(_) => true,
            _ => false,
        }
    }

    /// The overlay, if it is open.
    pub fn help_state(&self) -> (r: Option<&HelpState>)
        ensures
            r is Some <==> self.modal is Help,
            r matches Some(help) ==> *help == self.modal->Help_0,
    {
        match &self.modal {
            Modal::Help(help) => Some(help),
            _ => None,
        }
    }

    /// Closes the overlay, if it is open.
    pub fn close_help(&mut self)
        ensures
            *final(self) == (if old(self).modal is Help {
                Controller { modal: Modal::Closed, ..*old(self) }
            } else {
                *old(self)
            }),
    {
        if self.help_open() {
            self.modal = Modal::Closed;
        }
    }

    /// The overlay changed, if it is open.
    pub open spec fn help_changed(self, change: HelpMove, to: Controller) -> bool {
        let geom = self.screen.geom;
        &&& !(self.modal is Help) ==> to == self
        &&& self.modal is Help ==> (to.modal matches Modal::Help(next) && (
        self.modal->Help_0).leads(change, geom.help_body_rows, geom.help_body_height, next))
        &&& to == (Controller { modal: to.modal, ..self })
    }

    /// The overlay changed and is shown.
    pub open spec fn help_moved(r: Run, change: HelpMove) -> bool {
        r.from.help_changed(change, r.to) && r.takes(r.to.shows())
    }

    /// Changes the overlay, if it is open.
    pub fn change_help(&mut self, change: HelpMove)
        ensures
            old(self).help_changed(change, *final(self)),
    {
        let (rows, height): (u16, u16) = (
            self.screen.geom.help_body_rows,
            self.screen.geom.help_body_height,
        );
        if !self.help_open() {
            return ;
        }
        let mut taken = Modal::Closed;
        std::mem::swap(&mut self.modal, &mut taken);
        if let Modal::Help(help) = taken {
            let mut help = help;
            help.apply(change, rows, height);
            self.modal = Modal::Help(help);
        }
    }

    /// The change that a key asks for.
    pub open spec fn help_move_of(code: KeyCode) -> Option<HelpMove> {
        match code {
            KeyCode::Tab | KeyCode::Right => Some(HelpMove::Next),
            KeyCode::BackTab | KeyCode::Left => Some(HelpMove::Previous),
            KeyCode::Char('j') | KeyCode::Down => Some(HelpMove::Scroll(1)),
            KeyCode::Char('k') | KeyCode::Up => Some(HelpMove::Up),
            KeyCode::Char(c) => if '1' <= c <= '9' {
                Some(HelpMove::Select((c as int - '1' as int) as usize))
            } else {
                None
            },
            _ => None,
        }
    }

    /// A key for the overlay.
    pub open spec fn help_keyed(r: Run, key: Key) -> bool {
        if !(r.from.modal is Help) || !key.modifiers.at_most_shift() {
            r.takes(r.from.quiet())
        } else {
            match key.code {
                KeyCode::Char('?') | KeyCode::Esc | KeyCode::Char('q') => r.takes(
                    Controller { modal: Modal::Closed, ..r.from }.shows(),
                ),
                _ => match Self::help_move_of(key.code) {
                    Some(change) => Self::help_moved(r, change),
                    None => r.takes(r.from.quiet()),
                },
            }
        }
    }

    /// A key for the overlay.
    pub fn handle_help_key(&mut self, key: Key, out: &mut Vec<Action>) -> (r: Effects)
        ensures
            Self::help_keyed(run(*old(self), *final(self), r, old(out)@, final(out)@), key),
    {
        if !key.modifiers.only_shift() || !self.help_open() {
            return Effects::noop();
        }
        let change = match key.code {
            KeyCode::Char('?') | KeyCode::Esc | KeyCode::Char('q') => {
                self.modal = Modal::Closed;
                return Effects::redraw();
            },
            KeyCode::Tab | KeyCode::Right => HelpMove::Next,
            KeyCode::BackTab | KeyCode::Left => HelpMove::Previous,
            KeyCode::Char('j') | KeyCode::Down => HelpMove::Scroll(1),
            KeyCode::Char('k') | KeyCode::Up => HelpMove::Up,
            KeyCode::Char(c) => {
                if c >= '1' && c <= '9' {
                    HelpMove::Select((c as u32 - '1' as u32) as usize)
                } else {
                    return Effects::noop();
                }
            },
            _ => {
                return Effects::noop();
            },
        };
        self.change_help(change);
        Effects::redraw()
    }

    /// The first tab that holds a cell.
    pub open spec fn tab_at(tabs: Seq<(usize, Rect)>, col: u16, row: u16) -> Option<usize>
        decreases tabs.len(),
    {
        if tabs.len() == 0 {
            None
        } else if tabs[0].1.holds(col, row) {
            Some(tabs[0].0)
        } else {
            Self::tab_at(tabs.skip(1), col, row)
        }
    }

    /// A mouse event for the overlay: the wheel scrolls, a press on a tab shows its section.
    pub open spec fn help_moused(r: Run, ev: Mouse) -> bool {
        let step = r.from.prefs.wheel_step;
        if !(r.from.modal is Help) || ev.modifiers.shift {
            r.takes(r.from.quiet())
        } else {
            match ev.kind {
                MouseKind::ScrollDown => Self::help_moved(r, HelpMove::Scroll(step as i32)),
                MouseKind::ScrollUp => Self::help_moved(r, HelpMove::Scroll((-step) as i32)),
                MouseKind::Down(MouseButton::Left) => match Self::tab_at(
                    r.from.screen.geom.help_tabs@,
                    ev.column,
                    ev.row,
                ) {
                    Some(index) => Self::help_moved(r, HelpMove::Select(index)),
                    None => r.takes(r.from.quiet()),
                },
                _ => r.takes(r.from.quiet()),
            }
        }
    }

    /// The first tab that holds a cell.
    fn tab_under(&self, col: u16, row: u16) -> (r: Option<usize>)
        ensures
            r == Self::tab_at(self.screen.geom.help_tabs@, col, row),
    {
        let tabs = &self.screen.geom.help_tabs;
        assert(tabs@.skip(0) =~= tabs@);
        for i in 0..tabs.len()
            invariant
                tabs == self.screen.geom.help_tabs,
                Self::tab_at(tabs@, col, row) == Self::tab_at(tabs@.skip(i as int), col, row),
        {
            if tabs[i].1.contains(col, row) {
                return Some(tabs[i].0);
            }
            assert(tabs@.skip(i as int).skip(1) =~= tabs@.skip(i + 1));
        }
        None
    }

    /// A mouse event for the overlay.
    pub fn handle_help_mouse(&mut self, ev: Mouse, out: &mut Vec<Action>) -> (r: Effects)
        ensures
            Self::help_moused(run(*old(self), *final(self), r, old(out)@, final(out)@), ev),
    {
        if !self.help_open() || ev.modifiers.shift {
            return Effects::noop();
        }
        let step: i32 = self.prefs.wheel_step as i32;
        match ev.kind {
            MouseKind::ScrollDown => {
                self.change_help(HelpMove::Scroll(step));
                Effects::redraw()
            },
            MouseKind::ScrollUp => {
                self.change_help(HelpMove::Scroll(-step));
                Effects::redraw()
            },
            MouseKind::Down(MouseButton::Left) => match self.tab_under(ev.column, ev.row) {
                Some(index) => {
                    self.change_help(HelpMove::Select(index));
                    Effects::redraw()
                },
                None => Effects::noop(),
            },
            _ => Effects::noop(),
        }
    }
}

/// The help overlay is modal: a key changes nothing but the overlay, asks for nothing and does not
/// end the session.
pub proof fn the_help_is_modal(r: Run, key: Key)
    requires
        r.from.modal is Help,
        Controller::help_keyed(r, key),
    ensures
        r.to == (Controller { modal: r.to.modal, ..r.from }),
        r.to.modal is Help || r.to.modal is Closed,
        r.after == r.before,
        !r.effects.quit,
{
    assert(r.before + Seq::<Action>::empty() =~= r.before);
}

/// The sections of the help overlay go around: the next one and the previous one undo each other,
/// and a section that is shown stays where it was scrolled to.
pub proof fn sections_go_around(
    start: HelpState,
    there: HelpState,
    back: HelpState,
    first: HelpMove,
    rows: u16,
    height: u16,
)
    requires
        start.active < start.sections@.len(),
        first is Next || first is Previous,
        start.leads(first, rows, height, there),
        there.leads(
            if first is Next {
                HelpMove::Previous
            } else {
                HelpMove::Next
            },
            rows,
            height,
            back,
        ),
    ensures
        there.active < there.sections@.len(),
        there.sections@ == start.sections@,
        back.active == start.active,
        back.sections@ == start.sections@,
{
    assert(there.sections@ =~= start.sections@);
    assert(back.sections@ =~= start.sections@);
}

/// Scrolling the help overlay down stops at the last row, once its rows were measured, and leaves
/// the other sections alone.
pub proof fn help_stays_in_its_rows(
    state: HelpState,
    next: HelpState,
    change: HelpMove,
    rows: u16,
    height: u16,
)
    requires
        state.active < state.sections@.len(),
        rows > 0,
        change is Scroll || change is Clamp,
        state.leads(change, rows, height, next),
    ensures
        next.sections@[state.active as int].scroll + height <= rows || next.sections@[state.active as int].scroll
            == 0,
        forall|k: int|
            0 <= k < state.sections@.len() && k != state.active ==> #[trigger] next.sections@[k]
                == state.sections@[k],
{
}

} // verus!
