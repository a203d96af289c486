//! What arrives from the background.

use super::actions::{run, Action, Arrival, Effects, Run, Step, Then, TreeOp};
use super::content::{at_most, Layout};
use super::state::{
    Body, Controller, Modal, Pane, PromptMode, RenderResult, Renders, Update,
};
use crate::selection::LineSelectState;
use vstd::prelude::*;
use vstd::string::*;

verus! {

impl Controller {
    /// A render is displayed, with the name of the selected file.
    pub open spec fn displays(self, seq: u64, result: RenderResult) -> Controller {
        Controller {
            pane: Pane {
                body: Body::Rendered(result),
                path: self.selected_path(),
                renders: Renders { applied: seq, reflow: None, ..self.pane.renders },
                selection: None,
                ..self.pane
            },
            ..self
        }
    }

    /// The content stays where it was, or ends at its last row.
    pub open spec fn stays(self, layout: Layout) -> Controller {
        self.scrolled_to(at_most(self.nav.content_scroll as int, self.max_scroll(layout)))
    }

    /// A jump that waited for a render is made.
    pub open spec fn arrived_at_line(self, seq: u64, layout: Layout) -> Controller {
        match self.pane.renders.goto {
            Some((n, line)) if n == seq => self.at_line(layout, line as int).unqueued(),
            _ => self,
        }
    }

    /// Line selection that waited for a render starts at the top line, if there are lines.
    pub open spec fn arrived_at_selection(self, seq: u64, layout: Layout) -> Controller {
        if self.pane.renders.line_select == Some(seq) {
            Controller {
                modal: if self.pane.body.line_count() > 0 {
                    Modal::LineSelect(LineSelectState::on_line(self.top_line(layout) as usize))
                } else {
                    self.modal
                },
                pane: Pane {
                    renders: Renders { line_select: None, ..self.pane.renders },
                    ..self.pane
                },
                ..self
            }
        } else {
            self
        }
    }

    /// The search is brought up to date with other lines: what is being typed is looked for again,
    /// and so is a committed search where the lines were only laid out anew; otherwise it is gone.
    pub open spec fn searches_again(self, reflow: bool) -> Step {
        let unsearched = Controller { pane: Pane { search: None, ..self.pane }, ..self };
        if self.modal matches Modal::Prompt(p) && p.mode == PromptMode::Search {
            self.asks(Action::FindMatches)
        } else if reflow {
            match self.pane.search {
                Some(s) if s.query@.len() > 0 => self.asks(Action::FindAgain),
                _ => unsearched.shows(),
            }
        } else {
            unsearched.shows()
        }
    }

    /// The latest render arrived.
    pub open spec fn landing_step(self, seq: u64, result: RenderResult, layout: Layout) -> Step {
        let reflow = self.pane.renders.reflow == Some(seq);
        let shown = self.displays(seq, result);
        let placed = if reflow {
            shown.stays(layout)
        } else {
            shown
        };
        placed.arrived_at_line(seq, layout).arrived_at_selection(seq, layout).searches_again(
            reflow,
        )
    }

    /// Displays a render.
    fn display(&mut self, seq: u64, result: RenderResult)
        ensures
            *final(self) == old(self).displays(seq, result),
    {
        let path = self.path_of_selection();
        self.pane.body = Body::Rendered(result);
        self.pane.path = path;
        self.pane.renders = Renders { applied: seq, reflow: None, ..self.pane.renders };
        self.pane.selection = None;
    }

    /// Makes the jump that waited for a render.
    fn arrive_at_line(&mut self, seq: u64, layout: &Layout)
        ensures
            *final(self) == old(self).arrived_at_line(seq, *layout),
    {
        if let Some((n, line)) = self.pane.renders.goto {
            if n == seq {
                self.scroll_to_line(layout, line);
                self.pane.renders.goto = None;
            }
        }
    }

    /// Starts the line selection that waited for a render.
    fn arrive_at_selection(&mut self, seq: u64, layout: &Layout)
        ensures
            *final(self) == old(self).arrived_at_selection(seq, *layout),
    {
        if let Some(n) = self.pane.renders.line_select {
            if n == seq {
                if self.pane.body.len() > 0 {
                    let top: usize = self.top_of(layout);
                    self.modal = Modal::LineSelect(LineSelectState::new(top));
                }
                self.pane.renders.line_select = None;
            }
        }
    }

    /// Brings the search up to date with other lines.
    fn search_again(&mut self, reflow: bool, out: &mut Vec<Action>) -> (r: Effects)
        ensures
            run(*old(self), *final(self), r, old(out)@, final(out)@).takes(
                old(self).searches_again(reflow),
            ),
    {
        let typing = match self.prompt_mode() {
            Some(PromptMode::Search) => true,
            _ => false,
        };
        if typing {
            out.push(Action::FindMatches);
            return Effects::redraw();
        }
        let keep = match &self.pane.search {
            Some(s) => reflow && !s.query.as_str().is_empty(),
            None => false,
        };
        if keep {
            out.push(Action::FindAgain);
        } else {
            self.pane.search = None;
        }
        Effects::redraw()
    }

    /// Displays the latest render.
    fn land(&mut self, seq: u64, result: RenderResult, layout: &Layout, out: &mut Vec<Action>) -> (r:
        Effects)
        ensures
            run(*old(self), *final(self), r, old(out)@, final(out)@).takes(
                old(self).landing_step(seq, result, *layout),
            ),
    {
        let reflow = self.pane.renders.reflow == Some(seq);
        self.display(seq, result);
        if reflow {
            let max: u16 = self.max_content_scroll(layout);
            if self.nav.content_scroll > max {
                self.nav.content_scroll = max;
            }
        }
        self.arrive_at_line(seq, layout);
        self.arrive_at_selection(seq, layout);
        self.search_again(reflow, out)
    }

    /// What arrives changes the screen.
    pub open spec fn arrives(self, arrival: Arrival) -> bool {
        match arrival {
            Arrival::Render { seq, result: _ } => seq == self.pane.renders.latest,
            Arrival::Status { status: _, changed: _ } => self.repo.status_pending,
            Arrival::Update(_) => self.update.pending,
            _ => false,
        }
    }

    /// What arrived was taken over: the latest render, the status of a new root, the result of the
    /// check for a newer version, of a search. Anything that is no longer waited for is dropped.
    pub open spec fn polled(
        from: Controller,
        to: Controller,
        effects: Option<Effects>,
        before: Seq<Action>,
        after: Seq<Action>,
        arrival: Arrival,
        layout: Layout,
    ) -> bool {
        let r = Run {
            from,
            to,
            effects: match effects {
                Some(e) => e,
                None => Effects::none(),
            },
            before,
            after,
        };
        match arrival {
            Arrival::Render { seq, result } => if from.arrives(arrival) {
                effects is Some && r.takes(from.landing_step(seq, result, layout))
            } else {
                effects is None && r.takes(from.quiet())
            },
            Arrival::Status { status, changed } => if from.arrives(arrival) {
                effects is Some && r.takes(
                    from.informed(status, changed).settled().marks(Then::Render),
                )
            } else {
                effects is None && r.takes(from.quiet())
            },
            Arrival::StatusLost => effects is None && r.takes(from.settled().quiet()),
            Arrival::Update(available) => if from.arrives(arrival) {
                effects is Some && r.takes(
                    Controller {
                        update: Update { available, pending: false, ..from.update },
                        ..from
                    }.shows(),
                )
            } else {
                effects is None && r.takes(from.quiet())
            },
            Arrival::UpdateLost => effects is None && r.takes(
                Controller { update: Update { pending: false, ..from.update }, ..from }.quiet(),
            ),
            Arrival::Search { seq, outcome } => {
                &&& Self::search_arrived(from, to, seq, outcome, effects is Some)
                &&& effects is Some ==> effects == Some(Effects::repaint())
                &&& after == before
            },
            Arrival::SearchLost { seq } => {
                &&& to == from.search_vanished(seq)
                &&& effects == if from.searching(seq) && from.modal is WorkspaceSearch {
                    Some(Effects::repaint())
                } else {
                    None
                }
                &&& after == before
            },
        }
    }

    /// Takes over what arrived, and tells whether to repaint.
    pub fn poll(&mut self, arrival: Arrival, layout: &Layout, out: &mut Vec<Action>) -> (r: Option<
        Effects,
    >)
        ensures
            Self::polled(*old(self), *final(self), r, old(out)@, final(out)@, arrival, *layout),
    {
        match arrival {
            Arrival::Render { seq, result } => {
                if seq == self.pane.renders.latest {
                    Some(self.land(seq, result, layout, out))
                } else {
                    None
                }
            },
            Arrival::Status { status, changed } => {
                if self.repo.status_pending {
                    self.take_status(status, changed, out);
                    Some(Effects::redraw())
                } else {
                    None
                }
            },
            Arrival::StatusLost => {
                self.repo.status_pending = false;
                None
            },
            Arrival::Update(available) => {
                if self.update.pending {
                    self.update.available = available;
                    self.update.pending = false;
                    Some(Effects::redraw())
                } else {
                    None
                }
            },
            Arrival::UpdateLost => {
                self.update.pending = false;
                None
            },
            Arrival::Search { seq, outcome } => {
                if self.search_finished(seq, outcome) {
                    Some(Effects::redraw())
                } else {
                    None
                }
            },
            Arrival::SearchLost { seq } => {
                if self.search_lost(seq) {
                    Some(Effects::redraw())
                } else {
                    None
                }
            },
        }
    }

    /// Takes over the status of a new root.
    fn take_status(
        &mut self,
        status: crate::git::StatusMap,
        changed: crate::git::StatusMap,
        out: &mut Vec<Action>,
    )
        ensures
            run(*old(self), *final(self), Effects::repaint(), old(out)@, final(out)@).takes(
                old(self).informed(status, changed).settled().marks(Then::Render),
            ),
    {
        self.apply_git_state(status, changed);
        self.repo.status_pending = false;
        let filter = self.filter();
        out.push(Action::Tree { op: TreeOp::Mark(filter), then: Then::Render });
    }

    /// Whether the status of a new root is still being read.
    pub fn status_refresh_pending(&self) -> (r: bool)
        ensures
            r == self.repo.status_pending,
    {
        self.repo.status_pending
    }
}

/// A render that was superseded is dropped: nothing of it is displayed.
pub proof fn superseded_renders_are_dropped(
    from: Controller,
    to: Controller,
    effects: Option<Effects>,
    before: Seq<Action>,
    after: Seq<Action>,
    seq: u64,
    result: RenderResult,
    layout: Layout,
)
    requires
        Controller::polled(
            from,
            to,
            effects,
            before,
            after,
            Arrival::Render { seq, result },
            layout,
        ),
        seq != from.pane.renders.latest,
    ensures
        to == from,
        effects is None,
        after == before,
{
}

/// The title and the body of the content change together: a render that is displayed brings the
/// name of the selected file with it, and is then the one that was asked for last.
pub proof fn titles_match_their_content(
    from: Controller,
    to: Controller,
    effects: Option<Effects>,
    before: Seq<Action>,
    after: Seq<Action>,
    seq: u64,
    result: RenderResult,
    layout: Layout,
)
    requires
        Controller::polled(
            from,
            to,
            effects,
            before,
            after,
            Arrival::Render { seq, result },
            layout,
        ),
        seq == from.pane.renders.latest,
    ensures
        to.pane.body == Body::Rendered(result),
        to.pane.path == from.selected_path(),
        to.up_to_date(),
{
}

/// A new layout neither scrolls away from what the user reads, unless the content ends before it,
/// nor drops a search.
pub proof fn new_layouts_keep_place_and_search(state: Controller, result: RenderResult, layout: Layout)
    requires
        state.pane.renders.reflow == Some(state.pane.renders.latest),
        state.pane.renders.goto is None,
        state.pane.renders.line_select is None,
        state.pane.search matches Some(s) && s.query@.len() > 0,
    ensures
        ({
            let next = state.landing_step(state.pane.renders.latest, result, layout).next;
            &&& next.nav.content_scroll <= state.nav.content_scroll
            &&& next.nav.content_scroll == state.nav.content_scroll || next.nav.content_scroll
                == next.max_scroll(layout)
            &&& next.pane.search == state.pane.search
        }),
{
}

/// A status that was read in the background does not replace one that was read while the user
/// waited.
pub proof fn fresh_status_wins(
    from: Controller,
    to: Controller,
    effects: Option<Effects>,
    before: Seq<Action>,
    after: Seq<Action>,
    status: crate::git::StatusMap,
    changed: crate::git::StatusMap,
    layout: Layout,
)
    requires
        !from.repo.status_pending,
        Controller::polled(
            from,
            to,
            effects,
            before,
            after,
            Arrival::Status { status, changed },
            layout,
        ),
    ensures
        to == from,
        effects is None,
{
}

} // verus!
