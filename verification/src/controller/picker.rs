//! The worktree picker.

use super::actions::{run, Action, Effects, Run, Step};
use super::state::{Controller, Modal, Notice, PickerState, Worktree, HSCROLL_STEP};
use crate::input::Intent;
use crate::paths::FilePath;
use vstd::prelude::*;

verus! {

/// What the host knows of the agents in the worktrees: what each one does, and the worktree whose
/// agent is active.
#[derive(Debug)]
pub struct AgentOverlay {
    pub statuses: Vec<Option<String>>,
    pub active: Option<FilePath>,
}

/// The row that is selected first: the first one whose agent is active, else the first one that is
/// current, else the first one.
pub open spec fn first_row(rows: Seq<Worktree>, active: Option<Seq<u8>>, row: int) -> bool {
    if exists|k: int| is_active(rows, active, k) {
        &&& is_active(rows, active, row)
        &&& forall|k: int| 0 <= k < row ==> !is_active(rows, active, k)
    } else if exists|k: int| is_current(rows, k) {
        &&& is_current(rows, row)
        &&& forall|k: int| 0 <= k < row ==> !is_current(rows, k)
    } else {
        row == 0
    }
}

/// The agent of row `k` is active.
pub open spec fn is_active(rows: Seq<Worktree>, active: Option<Seq<u8>>, k: int) -> bool {
    0 <= k < rows.len() && Some(rows[k].path@) == active
}

/// Row `k` is the worktree of the session.
pub open spec fn is_current(rows: Seq<Worktree>, k: int) -> bool {
    0 <= k < rows.len() && rows[k].is_current
}

/// The row that is selected first.
fn choose_row(rows: &Vec<Worktree>, active: &Option<FilePath>) -> (r: usize)
    ensures
        first_row(rows@, super::replies::path_bytes(*active), r as int),
        rows@.len() > 0 ==> r < rows@.len(),
{
    let ghost wanted = super::replies::path_bytes(*active);
    if let Some(path) = active {
        for i in 0..rows.len()
            invariant
                wanted == Some(path@),
                wanted == super::replies::path_bytes(*active),
                forall|k: int| 0 <= k < i ==> !is_active(rows@, wanted, k),
        {
            if rows[i].path.same(path) {
                assert(is_active(rows@, wanted, i as int));
                return i;
            }
        }
    }
    for i in 0..rows.len()
        invariant
            wanted == super::replies::path_bytes(*active),
            forall|k: int| !is_active(rows@, wanted, k),
            forall|k: int| 0 <= k < i ==> !is_current(rows@, k),
    {
        if rows[i].is_current {
            assert(is_current(rows@, i as int));
            return i;
        }
    }
    0
}

impl Controller {
    /// Lists the worktrees, in a repository.
    pub open spec fn picker_step(self) -> Step {
        if self.repo.is_git_repo {
            self.asks(Action::ListWorktrees)
        } else {
            self.tells(Notice::NoRepository)
        }
    }

    /// The picker is open over the worktrees.
    pub open spec fn picker_opened(
        r: Run,
        rows: Vec<Worktree>,
        overlay: Option<AgentOverlay>,
    ) -> bool {
        if rows@.len() == 0 {
            r.takes(r.from.tells(Notice::NoWorktrees))
        } else {
            &&& r.to.modal matches Modal::Picker(p) && {
                &&& p.rows == rows
                &&& p.hscroll == 0
                &&& match overlay {
                    Some(known) => p.agent_statuses == known.statuses && first_row(
                        rows@,
                        super::replies::path_bytes(known.active),
                        p.cursor as int,
                    ),
                    None => {
                        &&& p.agent_statuses@.len() == rows@.len()
                        &&& forall|i: int| 0 <= i < rows@.len() ==> p.agent_statuses@[i] is None
                        &&& first_row(rows@, None, p.cursor as int)
                    },
                }
            }
            &&& r.takes(Controller { modal: r.to.modal, ..r.from }.shows())
        }
    }

    /// Lists the worktrees.
    pub fn open_worktree_picker(&mut self, out: &mut Vec<Action>) -> (r: Effects)
        ensures
            run(*old(self), *final(self), r, old(out)@, final(out)@).takes(
                old(self).picker_step(),
            ),
    {
        if self.repo.is_git_repo {
            out.push(Action::ListWorktrees);
        } else {
            self.notice = Some(Notice::NoRepository);
        }
        Effects::redraw()
    }

    /// The worktrees were listed: the picker opens.
    pub fn worktrees_listed(
        &mut self,
        rows: Vec<Worktree>,
        overlay: Option<AgentOverlay>,
        out: &mut Vec<Action>,
    ) -> (r: Effects)
        ensures
            Self::picker_opened(
                run(*old(self), *final(self), r, old(out)@, final(out)@),
                rows,
                overlay,
            ),
    {
        if rows.len() == 0 {
            self.notice = Some(Notice::NoWorktrees);
            return Effects::redraw();
        }
        let (agent_statuses, active) = match overlay {
            Some(known) => {
                let AgentOverlay { statuses, active } = known;
                (statuses, active)
            },
            None => {
                let mut none: Vec<Option<String>> = Vec::new();
                for i in 0..rows.len()
                    invariant
                        none@.len() == i,
                        forall|k: int| 0 <= k < i ==> none@[k] is None,
                {
                    none.push(None);
                }
                (none, None)
            },
        };
        let cursor: usize = choose_row(&rows, &active);
        self.modal = Modal::Picker(PickerState { rows, agent_statuses, cursor, hscroll: 0 });
        Effects::redraw()
    }

    /// An intent while the picker is open: up and down select, left and right scroll, Enter
    /// switches to the selected worktree. Nothing else reaches what is beneath.
    pub open spec fn picker_intent_step(self, intent: Intent) -> Step {
        let closed = Controller { modal: Modal::Closed, ..self };
        match self.modal {
            Modal::Picker(p) => match intent {
                Intent::NavUp => if p.cursor > 0 {
                    self.picks(PickerState { cursor: (p.cursor - 1) as usize, ..p })
                } else {
                    self.quiet()
                },
                Intent::NavDown => if p.cursor + 1 < p.rows@.len() {
                    self.picks(PickerState { cursor: (p.cursor + 1) as usize, ..p })
                } else {
                    self.quiet()
                },
                Intent::Expand => if p.hscroll < u16::MAX {
                    self.picks(
                        PickerState {
                            hscroll: super::content::at_most(
                                p.hscroll + HSCROLL_STEP,
                                u16::MAX as int,
                            ) as u16,
                            ..p
                        },
                    )
                } else {
                    self.quiet()
                },
                Intent::Collapse => if p.hscroll > 0 {
                    self.picks(
                        PickerState {
                            hscroll: super::content::less(
                                p.hscroll as int,
                                HSCROLL_STEP as int,
                            ) as u16,
                            ..p
                        },
                    )
                } else {
                    self.quiet()
                },
                Intent::Activate => if p.cursor < p.rows@.len() {
                    closed.asks(Action::ResolveRoot(p.rows@[p.cursor as int].path))
                } else {
                    closed.shows()
                },
                Intent::Close => closed.shows(),
                _ => self.quiet(),
            },
            _ => self.quiet(),
        }
    }

    /// The picker is shown in another state.
    pub open spec fn picks(self, picker: PickerState) -> Step {
        Controller { modal: Modal::Picker(picker), ..self }.shows()
    }

    /// Moves the selection and the offset of the picker.
    fn set_picker(&mut self, cursor: usize, hscroll: u16)
        requires
            old(self).modal is Picker,
        ensures
            *final(self) == (Controller {
                modal: Modal::Picker(
                    PickerState { cursor, hscroll, ..old(self).modal->Picker_0 },
                ),
                ..*old(self)
            }),
    {
        let mut taken = Modal::Closed;
        std::mem::swap(&mut self.modal, &mut taken);
        if let Modal::Picker(p) = taken {
            let PickerState { rows, agent_statuses, cursor: _, hscroll: _ } = p;
            self.modal = Modal::Picker(PickerState { rows, agent_statuses, cursor, hscroll });
        }
    }

    /// An intent while the picker is open.
    pub fn handle_picker_intent(&mut self, intent: Intent, out: &mut Vec<Action>) -> (r: Effects)
        ensures
            run(*old(self), *final(self), r, old(out)@, final(out)@).takes(
                old(self).picker_intent_step(intent),
            ),
    {
        let (cursor, hscroll, count, target): (usize, u16, usize, Option<FilePath>) =
            match &self.modal {
            Modal::Picker(p) => (
                p.cursor,
                p.hscroll,
                p.rows.len(),
                if p.cursor < p.rows.len() {
                    Some(p.rows[p.cursor].path.clone())
                } else {
                    None
                },
            ),
            _ => {
                return Effects::noop();
            },
        };
        match intent {
            Intent::NavUp => {
                if cursor > 0 {
                    self.set_picker(cursor - 1, hscroll);
                    return Effects::redraw();
                }
                Effects::noop()
            },
            Intent::NavDown => {
                if cursor < count && cursor + 1 < count {
                    self.set_picker(cursor + 1, hscroll);
                    return Effects::redraw();
                }
                Effects::noop()
            },
            Intent::Expand => {
                if hscroll < u16::MAX {
                    self.set_picker(cursor, hscroll.saturating_add(HSCROLL_STEP));
                    return Effects::redraw();
                }
                Effects::noop()
            },
            Intent::Collapse => {
                if hscroll > 0 {
                    self.set_picker(cursor, hscroll.saturating_sub(HSCROLL_STEP));
                    return Effects::redraw();
                }
                Effects::noop()
            },
            Intent::Activate => {
                self.modal = Modal::Closed;
                if let Some(path) = target {
                    out.push(Action::ResolveRoot(path));
                }
                Effects::redraw()
            },
            Intent::Close => {
                self.modal = Modal::Closed;
                Effects::redraw()
            },
            _ => Effects::noop(),
        }
    }

    /// Lowers the horizontal offset of the picker to `max` where it is larger.
    pub fn clamp_picker(&mut self, max: u16)
        ensures
            *final(self) == old(self).picker_clamped(max),
    {
        if let Modal::Picker(p) = &self.modal {
            let (cursor, hscroll): (usize, u16) = (p.cursor, p.hscroll);
            if hscroll > max {
                self.set_picker(cursor, max);
            }
        }
    }

    /// The horizontal offset of the picker is at most `max`.
    pub open spec fn picker_clamped(self, max: u16) -> Controller {
        match self.modal {
            Modal::Picker(p) if p.hscroll > max => Controller {
                modal: Modal::Picker(PickerState { hscroll: max, ..p }),
                ..self
            },
            _ => self,
        }
    }
}

/// The picker keeps what is beneath it as it was, and its selection among its rows.
pub proof fn the_picker_is_modal(state: Controller, intent: Intent)
    requires
        state.modal is Picker,
    ensures
        ({
            let next = state.picker_intent_step(intent).next;
            &&& next.tree == state.tree
            &&& next.pane == state.pane
            &&& next.prefs == state.prefs
            &&& next.repo == state.repo
            &&& next.modal matches Modal::Picker(p) ==> (state.modal->Picker_0.cursor
                < state.modal->Picker_0.rows@.len() ==> p.cursor < p.rows@.len())
        }),
{
}

} // verus!
