//! The menu of actions on the selected row.

use super::actions::{run, Action, Effects, Run};
use super::content::{at_most, less, Layout};
use super::state::{
    ContextMenuItem, ContextMenuState, Controller, Drag, Modal, Pointer,
};
use crate::input::{Intent, Key, KeyCode, Mouse, MouseButton, MouseKind, Rect};
use crate::text::same_text;
use vstd::arithmetic::div_mod::lemma_mod_multiples_vanish;
use vstd::prelude::*;
use vstd::string::*;

verus! {

/// The entries of the menu.
pub open spec fn menu_items() -> Seq<ContextMenuItem> {
    seq![
        ContextMenuItem {
            intent: Intent::OpenWorkspace,
            label: "Open workspace here",
            shortcut: "s",
        },
        ContextMenuItem {
            intent: Intent::OpenPaneHere,
            label: "Open pane here",
            shortcut: "G",
        },
        ContextMenuItem {
            intent: Intent::CopyAbsPath,
            label: "Copy absolute path",
            shortcut: "Y",
        },
        ContextMenuItem {
            intent: Intent::CopyRepoPath,
            label: "Copy relative path",
            shortcut: "y",
        },
    ]
}

/// The first entry with a shortcut.
pub open spec fn shortcut_intent(items: Seq<ContextMenuItem>, c: char) -> Option<Intent>
    decreases items.len(),
{
    if items.len() == 0 {
        None
    } else if items[0].shortcut@ == seq![c] {
        Some(items[0].intent)
    } else {
        shortcut_intent(items.skip(1), c)
    }
}

impl ContextMenuState {
    /// The menu was just opened at a cell.
    pub open spec fn fresh(self, anchor: (u16, u16)) -> bool {
        self.items@ == menu_items() && self.cursor == 0 && self.anchor == anchor
    }

    /// The menu of a directory.
    pub fn for_dir(anchor: (u16, u16)) -> (r: Self)
        ensures
            r.fresh(anchor),
    {
        let items = vec![
            ContextMenuItem {
                intent: Intent::OpenWorkspace,
                label: "Open workspace here",
                shortcut: "s",
            },
            ContextMenuItem {
                intent: Intent::OpenPaneHere,
                label: "Open pane here",
                shortcut: "G",
            },
            ContextMenuItem {
                intent: Intent::CopyAbsPath,
                label: "Copy absolute path",
                shortcut: "Y",
            },
            ContextMenuItem {
                intent: Intent::CopyRepoPath,
                label: "Copy relative path",
                shortcut: "y",
            },
        ];
        assert(items@ =~= menu_items());
        ContextMenuState { items, cursor: 0, anchor }
    }

    /// The menu of a file: the same entries.
    pub fn for_file(anchor: (u16, u16)) -> (r: Self)
        ensures
            r.fresh(anchor),
    {
        ContextMenuState::for_dir(anchor)
    }

    /// The entry `delta` further, around the ends.
    pub open spec fn cursor_after(self, delta: int) -> int {
        if self.items@.len() == 0 {
            self.cursor as int
        } else {
            (self.cursor + delta) % (self.items@.len() as int)
        }
    }

    /// Moves the selection by `delta` entries, around the ends.
    pub fn navigate(&mut self, delta: isize)
        ensures
            *final(self) == (ContextMenuState {
                cursor: old(self).cursor_after(delta as int) as usize,
                ..*old(self)
            }),
    {
        if self.items.len() == 0 {
            return;
        }
        let len: i128 = self.items.len() as i128;
        let sum: i128 = self.cursor as i128 + delta as i128;
        let next: i128 = if sum >= 0 {
            sum % len
        } else {
            let rounds: i128 = (-sum) / len + 1;
            assert(rounds * len + sum >= 0 && rounds * len <= -sum + len) by (nonlinear_arith)
                requires
                    rounds == (-sum) / len as int + 1,
                    len > 0,
                    sum < 0,
            ;
            proof {
                lemma_mod_multiples_vanish(rounds as int, sum as int, len as int);
                assert(len * rounds == rounds * len) by (nonlinear_arith);
            }
            (rounds * len + sum) % len
        };
        assert(0 <= next < len);
        self.cursor = next as usize;
    }

    /// The selected action.
    pub open spec fn chosen(self) -> Option<Intent> {
        if self.cursor < self.items@.len() {
            Some(self.items@[self.cursor as int].intent)
        } else {
            None
        }
    }

    /// The selected action.
    pub fn selected_intent(&self) -> (r: Option<Intent>)
        ensures
            r == self.chosen(),
    {
        if self.cursor < self.items.len() {
            Some(self.items[self.cursor].intent)
        } else {
            None
        }
    }

    /// The action with a number, from 1: none for other characters and numbers without an entry.
    pub open spec fn numbered(self, number: char) -> Option<Intent> {
        let index = number as int - '1' as int;
        if '1' <= number <= '9' && index < self.items@.len() {
            Some(self.items@[index].intent)
        } else {
            None
        }
    }

    /// The action with a number, from 1.
    pub fn intent_for_number(&self, number: char) -> (r: Option<Intent>)
        ensures
            r == self.numbered(number),
    {
        if number < '1' || number > '9' {
            return None;
        }
        let index: usize = (number as u32 - '1' as u32) as usize;
        if index < self.items.len() {
            Some(self.items[index].intent)
        } else {
            None
        }
    }

    /// The action with a shortcut.
    fn intent_for_shortcut(&self, c: char) -> (r: Option<Intent>)
        ensures
            r == shortcut_intent(self.items@, c),
    {
        let mut key = String::new();
        key.push(c);
        assert(key@ =~= seq![c]);
        assert(self.items@.skip(0) =~= self.items@);
        for i in 0..self.items.len()
            invariant
                key@ == seq![c],
                shortcut_intent(self.items@, c) == shortcut_intent(self.items@.skip(i as int), c),
        {
            if same_text(self.items[i].shortcut, key.as_str()) {
                return Some(self.items[i].intent);
            }
            assert(self.items@.skip(i as int).skip(1) =~= self.items@.skip(i + 1));
        }
        None
    }
}

impl Controller {
    /// The menu is open at a cell, for the selected row.
    pub open spec fn menu_opened(r: Run, col: u16, row: u16) -> bool {
        if r.from.selected() is None {
            r.takes(r.from.quiet())
        } else {
            &&& r.to.modal matches Modal::ContextMenu(menu) && menu.fresh((col, row))
            &&& r.takes(Controller { modal: r.to.modal, ..r.from }.shows())
        }
    }

    /// The row of the screen below the selected row.
    pub open spec fn menu_row(self) -> int {
        at_most(
            less(self.tree.cursor as int, self.screen.geom.tree_scroll as int) + 2,
            u16::MAX as int,
        )
    }

    /// Opens the menu below the selected row.
    pub fn show_context_menu(&mut self, out: &mut Vec<Action>) -> (r: Effects)
        ensures
            Self::menu_opened(
                run(*old(self), *final(self), r, old(out)@, final(out)@),
                8,
                old(self).menu_row() as u16,
            ),
    {
        let above: usize = self.tree.cursor.saturating_sub(self.screen.geom.tree_scroll as usize);
        let row: u16 = if above > u16::MAX as usize - 2 {
            u16::MAX
        } else {
            above as u16 + 2
        };
        self.show_context_menu_at(8, row, out)
    }

    /// Opens the menu at a cell.
    pub fn show_context_menu_at(&mut self, col: u16, row: u16, out: &mut Vec<Action>) -> (r: Effects)
        ensures
            Self::menu_opened(
                run(*old(self), *final(self), r, old(out)@, final(out)@),
                col,
                row,
            ),
    {
        match self.selected_node() {
            None => Effects::noop(),
            Some(_) => {
                self.modal = Modal::ContextMenu(ContextMenuState::for_dir((col, row)));
                Effects::redraw()
            },
        }
    }

    /// Whether the menu is open.
    pub fn context_menu_open(&self) -> (r: bool)
        ensures
            r == (self.modal is ContextMenu),
    {
        match &self.modal {
            Modal::ContextMenu(_) => true,
            _ => false,
        }
    }

    /// The menu is gone.
    pub open spec fn menu_closed(self) -> Controller {
        Controller { modal: Modal::Closed, ..self }
    }

    /// Closes the menu.
    pub fn close_context_menu(&mut self) -> (r: Effects)
        ensures
            *final(self) == (if old(self).modal is ContextMenu {
                old(self).menu_closed()
            } else {
                *old(self)
            }),
            r == if old(self).modal is ContextMenu {
                Effects::repaint()
            } else {
                Effects::none()
            },
    {
        if self.context_menu_open() {
            self.modal = Modal::Closed;
            Effects::redraw()
        } else {
            Effects::noop()
        }
    }

    /// An action of the menu is carried out once the menu is gone.
    pub open spec fn menu_chose(r: Run, from: Controller, intent: Intent, layout: Layout, now: u64) -> bool {
        Self::intended(Run { from, ..r }, intent, layout, now)
    }

    /// A key for the menu: arrows select, Enter and the numbers and shortcuts choose, anything else
    /// closes it, except a number without an entry.
    pub open spec fn menu_keyed(r: Run, key: Key, layout: Layout, now: u64) -> bool {
        let closed = r.from.menu_closed();
        match r.from.modal {
            Modal::ContextMenu(menu) => match key.code {
                KeyCode::Up | KeyCode::Char('k') => r.takes(
                    r.from.menu_moved(menu.cursor_after(-1)).shows(),
                ),
                KeyCode::Down | KeyCode::Char('j') => r.takes(
                    r.from.menu_moved(menu.cursor_after(1)).shows(),
                ),
                KeyCode::Enter => match menu.chosen() {
                    Some(intent) => Self::menu_chose(r, closed, intent, layout, now),
                    None => r.takes(closed.shows()),
                },
                KeyCode::Esc | KeyCode::Char('q') => r.takes(closed.shows()),
                KeyCode::Char(c) => if '0' <= c <= '9' {
                    match menu.numbered(c) {
                        Some(intent) => Self::menu_chose(r, closed, intent, layout, now),
                        None => r.takes(r.from.quiet()),
                    }
                } else {
                    match shortcut_intent(menu.items@, c) {
                        Some(intent) => Self::menu_chose(r, closed, intent, layout, now),
                        None => r.takes(closed.shows()),
                    }
                },
                _ => r.takes(closed.shows()),
            },
            _ => r.takes(r.from.quiet()),
        }
    }

    /// Another entry of the menu is selected.
    pub open spec fn menu_moved(self, cursor: int) -> Controller {
        Controller {
            modal: Modal::ContextMenu(
                ContextMenuState { cursor: cursor as usize, ..self.modal->ContextMenu_0 },
            ),
            ..self
        }
    }

    /// Moves the selection of the menu.
    fn move_menu(&mut self, delta: isize) -> (r: Effects)
        requires
            old(self).modal is ContextMenu,
        ensures
            *final(self) == old(self).menu_moved(
                old(self).modal->ContextMenu_0.cursor_after(delta as int),
            ),
            r == Effects::repaint(),
    {
        let mut taken = Modal::Closed;
        std::mem::swap(&mut self.modal, &mut taken);
        if let Modal::ContextMenu(menu) = taken {
            let mut menu = menu;
            menu.navigate(delta);
            self.modal = Modal::ContextMenu(menu);
        }
        Effects::redraw()
    }

    /// A key for the menu.
    pub fn handle_context_menu_key(
        &mut self,
        key: Key,
        layout: &Layout,
        now: u64,
        out: &mut Vec<Action>,
    ) -> (r: Effects)
        ensures
            Self::menu_keyed(
                run(*old(self), *final(self), r, old(out)@, final(out)@),
                key,
                *layout,
                now,
            ),
    {
        let (chosen, number, shortcut) = match &self.modal {
            Modal::ContextMenu(menu) => (
                menu.selected_intent(),
                match key.code {
                    KeyCode::Char(c) => menu.intent_for_number(c),
                    _ => None,
                },
                match key.code {
                    KeyCode::Char(c) => menu.intent_for_shortcut(c),
                    _ => None,
                },
            ),
            _ => {
                return Effects::noop();
            },
        };
        match key.code {
            KeyCode::Up | KeyCode::Char('k') => self.move_menu(-1),
            KeyCode::Down | KeyCode::Char('j') => self.move_menu(1),
            KeyCode::Enter => {
                self.modal = Modal::Closed;
                match chosen {
                    Some(intent) => self.handle(intent, layout, now, out),
                    None => Effects::redraw(),
                }
            },
            KeyCode::Esc | KeyCode::Char('q') => self.close_context_menu(),
            KeyCode::Char(c) => {
                if c >= '0' && c <= '9' {
                    match number {
                        Some(intent) => {
                            self.modal = Modal::Closed;
                            self.handle(intent, layout, now, out)
                        },
                        None => Effects::noop(),
                    }
                } else {
                    match shortcut {
                        Some(intent) => {
                            self.modal = Modal::Closed;
                            self.handle(intent, layout, now, out)
                        },
                        None => self.close_context_menu(),
                    }
                }
            },
            _ => self.close_context_menu(),
        }
    }

    /// The entry that is drawn under a cell: the entries start two rows below the menu's top.
    pub open spec fn entry_under(self, rect: Rect, col: u16, row: u16) -> Option<Intent> {
        let items = self.modal->ContextMenu_0.items@;
        let index = row - rect.y - 2;
        if rect.x <= col < rect.x + rect.width && 0 <= index < items.len() {
            Some(items[index].intent)
        } else {
            None
        }
    }

    /// A press ended the menu; its release does nothing.
    pub open spec fn menu_pressed(self) -> Controller {
        Controller {
            modal: Modal::Closed,
            pointer: Pointer { drag: Some(Drag::ModalConsumed), ..self.pointer },
            ..self
        }
    }

    /// A mouse event for the menu: a press chooses the entry under it, and closes the menu anywhere
    /// else.
    pub open spec fn menu_moused(r: Run, ev: Mouse, layout: Layout, now: u64) -> bool {
        let pressed = r.from.menu_pressed();
        if !(r.from.modal is ContextMenu) {
            r.takes(r.from.quiet())
        } else {
            match ev.kind {
                MouseKind::Down(MouseButton::Left) => match r.from.screen.geom.context_menu_rect {
                    Some(rect) => match r.from.entry_under(rect, ev.column, ev.row) {
                        Some(intent) => Self::menu_chose(r, pressed, intent, layout, now),
                        None => r.takes(pressed.shows()),
                    },
                    None => r.takes(pressed.shows()),
                },
                MouseKind::Down(_) => r.takes(pressed.shows()),
                _ => r.takes(r.from.quiet()),
            }
        }
    }

    /// A mouse event for the menu.
    pub fn handle_context_menu_mouse(
        &mut self,
        ev: Mouse,
        layout: &Layout,
        now: u64,
        out: &mut Vec<Action>,
    ) -> (r: Effects)
        ensures
            Self::menu_moused(
                run(*old(self), *final(self), r, old(out)@, final(out)@),
                ev,
                *layout,
                now,
            ),
    {
        if !self.context_menu_open() {
            return Effects::noop();
        }
        match ev.kind {
            MouseKind::Down(button) => {
                let mut chosen: Option<Intent> = None;
                if button == MouseButton::Left {
                    if let Some(rect) = self.screen.geom.context_menu_rect {
                        if let Modal::ContextMenu(menu) = &self.modal {
                            let top: u32 = rect.y as u32 + 2;
                            if ev.column >= rect.x && (ev.column as u32) < rect.x as u32
                                + rect.width as u32 && ev.row as u32 >= top {
                                let index: usize = (ev.row as u32 - top) as usize;
                                if index < menu.items.len() {
                                    chosen = Some(menu.items[index].intent);
                                }
                            }
                        }
                    }
                }
                self.modal = Modal::Closed;
                self.pointer.drag = Some(Drag::ModalConsumed);
                match chosen {
                    Some(intent) => self.handle(intent, layout, now, out),
                    None => Effects::redraw(),
                }
            },
            _ => Effects::noop(),
        }
    }
}

/// The menu's selection goes around its ends and stays on an entry.
pub proof fn menus_go_around(menu: ContextMenuState, delta: int)
    requires
        menu.items@.len() > 0,
    ensures
        0 <= menu.cursor_after(delta) < menu.items@.len(),
        menu.cursor == menu.items@.len() - 1 ==> menu.cursor_after(1) == 0,
        menu.cursor == 0 ==> menu.cursor_after(-1) == menu.items@.len() - 1,
{
    let len = menu.items@.len() as int;
    assert(len % len == 0) by (nonlinear_arith)
        requires
            len > 0,
    ;
    assert((-1int) % len == len - 1) by (nonlinear_arith)
        requires
            len > 0,
    ;
}

} // verus!
