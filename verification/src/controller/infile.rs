//! The bottom prompt: going to a line, and searching the displayed text.

use super::actions::{run, Action, Effects, Run, Step};
use super::content::{at_most, less, Layout};
use super::state::{
    Controller, Match, Modal, NodeKind, Notice, Pane, PromptMode, PromptState, Renders, SearchState,
};
use crate::input::{Key, KeyCode};
use crate::prompt::PromptInput;

use crate::text::chars_of;
use crate::view_policy::ViewMode;
use vstd::prelude::*;
use vstd::string::*;

verus! {

/// The value of a decimal digit, -1 for other characters.
pub open spec fn digit_value(c: char) -> int {
    if '0' <= c <= '9' {
        c as int - '0' as int
    } else {
        -1
    }
}

/// Every character is a decimal digit.
pub open spec fn all_digits(text: Seq<char>) -> bool {
    forall|i: int| 0 <= i < text.len() ==> #[trigger] digit_value(text[i]) >= 0
}

/// The number that digits stand for.
pub open spec fn value_of(text: Seq<char>) -> int
    decreases text.len(),
{
    if text.len() == 0 {
        0
    } else {
        value_of(text.drop_last()) * 10 + digit_value(text.last())
    }
}

/// The line that a text stands for: its number, and the largest line for anything else.
pub open spec fn line_number(text: Seq<char>) -> int {
    if all_digits(text) {
        at_most(value_of(text), usize::MAX as int)
    } else {
        usize::MAX as int
    }
}

/// Reads a line number.
pub fn parse_line(text: &str) -> (r: usize)
    ensures
        r == line_number(text@),
{
    let chars = chars_of(text);
    let mut value: u128 = 0;
    for i in 0..chars.len()
        invariant
            chars@ == text@,
            value == at_most(value_of(text@.take(i as int)), usize::MAX as int),
            value_of(text@.take(i as int)) >= 0,
            forall|k: int| 0 <= k < i ==> #[trigger] digit_value(text@[k]) >= 0,
    {
        let c = chars[i];
        if c < '0' || c > '9' {
            assert(digit_value(text@[i as int]) < 0);
            return usize::MAX;
        }
        let digit: u128 = (c as u32 - '0' as u32) as u128;
        let ghost before = value;
        value = value * 10 + digit;
        if value > usize::MAX as u128 {
            value = usize::MAX as u128;
        }
        proof {
            assert(text@.take(i + 1).drop_last() =~= text@.take(i as int));
            assert(text@.take(i + 1).last() == c);
            assert(digit == digit_value(c));
        }
    }
    assert(text@.take(text@.len() as int) =~= text@);
    value as usize
}

/// A line number, from 1, of a line counted from 0.
pub open spec fn line_after(line: usize) -> usize {
    if line == usize::MAX {
        line
    } else {
        (line + 1) as usize
    }
}

impl Controller {
    /// The bottom prompt is open with nothing typed.
    pub open spec fn prompts(self, mode: PromptMode, saved_scroll: u16) -> bool {
        self.modal matches Modal::Prompt(p) && p.mode == mode && p.saved_scroll == saved_scroll
            && p.input.text() == Seq::<char>::empty() && p.input.caret() == 0
    }

    /// The prompt for a line was opened, if a file is shown.
    pub open spec fn goto_opened(r: Run) -> bool {
        if r.from.selected_mode() is Some {
            &&& r.to.prompts(PromptMode::GoToLine, r.from.nav.content_scroll)
            &&& r.takes(Controller { modal: r.to.modal, ..r.from }.shows())
        } else {
            r.takes(r.from.tells(Notice::SelectFileForLine))
        }
    }

    /// The search prompt was opened, if a file is shown, in view of the file.
    pub open spec fn search_opened(r: Run) -> bool {
        if r.from.modal is Picker || r.from.modal is Finder {
            r.takes(r.from.quiet())
        } else if r.from.selected_mode() is None {
            r.takes(r.from.tells(Notice::SelectFileForSearch))
        } else {
            &&& r.to.prompts(PromptMode::Search, r.from.nav.content_scroll)
            &&& r.takes(
                Controller {
                    modal: r.to.modal,
                    pane: Pane { search: None, ..r.from.pane },
                    ..r.from.visible()
                }.shows(),
            )
        }
    }

    /// Opens the prompt for a line.
    pub fn open_go_to_line(&mut self, out: &mut Vec<Action>) -> (r: Effects)
        ensures
            Self::goto_opened(run(*old(self), *final(self), r, old(out)@, final(out)@)),
    {
        if self.selected_view_mode().is_some() {
            self.modal = Modal::Prompt(
                PromptState {
                    mode: PromptMode::GoToLine,
                    input: PromptInput::new(),
                    saved_scroll: self.nav.content_scroll,
                },
            );
        } else {
            self.notice = Some(Notice::SelectFileForLine);
        }
        Effects::redraw()
    }

    /// Opens the search prompt.
    pub fn open_search(&mut self, out: &mut Vec<Action>) -> (r: Effects)
        ensures
            Self::search_opened(run(*old(self), *final(self), r, old(out)@, final(out)@)),
    {
        match self.modal {
            Modal::Picker(_) | Modal::Finder(_) => {
                return Effects::noop();
            },
            _ => {},
        }
        if self.selected_view_mode().is_none() {
            self.notice = Some(Notice::SelectFileForSearch);
            return Effects::redraw();
        }
        self.make_visible();
        self.pane.search = None;
        self.modal = Modal::Prompt(
            PromptState {
                mode: PromptMode::Search,
                input: PromptInput::new(),
                saved_scroll: self.nav.content_scroll,
            },
        );
        Effects::redraw()
    }

    /// The prompt after a change of its input.
    pub open spec fn retyped(r: Run, text: Seq<char>, caret: nat) -> bool {
        &&& r.from.modal is Prompt && r.to.modal is Prompt
        &&& r.to.modal->Prompt_0.mode == r.from.modal->Prompt_0.mode
        &&& r.to.modal->Prompt_0.saved_scroll == r.from.modal->Prompt_0.saved_scroll
        &&& r.to.modal->Prompt_0.input.text() == text
        &&& r.to.modal->Prompt_0.input.caret() == caret
    }

    /// A character was typed into the prompt, and this asked for.
    pub open spec fn typed(r: Run, c: char, actions: Seq<Action>) -> bool {
        let text = r.from.modal->Prompt_0.input.text().push(c);
        &&& Self::retyped(r, text, text.len())
        &&& r.takes(Step { actions, ..Controller { modal: r.to.modal, ..r.from }.shows() })
    }

    /// The character left of the caret was removed from the prompt, and this asked for.
    pub open spec fn erased(r: Run, actions: Seq<Action>) -> bool {
        let input = r.from.modal->Prompt_0.input;
        &&& if input.caret() == 0 {
            Self::retyped(r, input.text(), 0)
        } else {
            Self::retyped(r, input.text().remove(input.caret() - 1), (input.caret() - 1) as nat)
        }
        &&& r.takes(Step { actions, ..Controller { modal: r.to.modal, ..r.from }.shows() })
    }

    /// The displayed lines are the source of the selected file.
    pub open spec fn shows_source(self) -> bool {
        self.selected_mode() == Some(ViewMode::SyntaxContent)
    }

    /// The latest render is displayed.
    pub open spec fn up_to_date(self) -> bool {
        self.pane.renders.applied == self.pane.renders.latest
    }

    /// No jump waits for a render.
    pub open spec fn unqueued(self) -> Controller {
        Controller {
            pane: Pane { renders: Renders { goto: None, ..self.pane.renders }, ..self.pane },
            ..self
        }
    }

    /// The prompt was confirmed: the content goes to the line, now where its source is displayed,
    /// else once the source is rendered.
    pub open spec fn went_to_line(r: Run, layout: Layout) -> bool {
        let text = r.from.modal->Prompt_0.input.text();
        let closed = Controller { modal: Modal::Closed, ..r.from }.unqueued();
        let line = line_number(text);
        if text.len() == 0 {
            r.takes(closed.shows())
        } else if closed.shows_source() && closed.up_to_date() {
            r.takes(closed.at_line(layout, line).shows())
        } else if !closed.file_selected() {
            r.takes(closed.shows())
        } else if closed.shows_source() {
            r.takes(closed.jumps(Some(line as usize)).shows())
        } else {
            let chosen = Controller { overrides: r.to.overrides, ..closed };
            &&& r.to.overrides@ == r.from.overrides@.insert(
                closed.selected()->0.path@,
                ViewMode::SyntaxContent,
            )
            &&& r.takes(
                Step {
                    next: chosen.refreshed().jumps(Some(line as usize)),
                    ..chosen.renders()
                },
            )
        }
    }

    /// A key was typed into the prompt for a line.
    pub open spec fn goto_keyed(r: Run, key: Key, layout: Layout) -> bool {
        match key.code {
            KeyCode::Char(c) => if digit_value(c) >= 0 && key.modifiers.at_most_shift() {
                Self::typed(r, c, Seq::empty())
            } else {
                r.takes(r.from.quiet())
            },
            KeyCode::Backspace => Self::erased(r, Seq::empty()),
            KeyCode::Enter => Self::went_to_line(r, layout),
            KeyCode::Esc => r.takes(Controller { modal: Modal::Closed, ..r.from }.shows()),
            _ => r.takes(r.from.quiet()),
        }
    }

    /// A key was typed into the search prompt. Esc returns to where the content stood.
    pub open spec fn search_keyed(r: Run, key: Key) -> bool {
        let prompt = r.from.modal->Prompt_0;
        match key.code {
            KeyCode::Char(c) => if key.modifiers.at_most_shift() {
                Self::typed(r, c, seq![Action::FindMatches])
            } else {
                r.takes(r.from.quiet())
            },
            KeyCode::Backspace => Self::erased(r, seq![Action::FindMatches]),
            KeyCode::Enter => r.takes(
                Controller {
                    modal: Modal::Closed,
                    pane: Pane {
                        search: if prompt.input.text().len() == 0 {
                            None
                        } else {
                            r.from.pane.search
                        },
                        ..r.from.pane
                    },
                    ..r.from
                }.shows(),
            ),
            KeyCode::Esc => r.takes(
                Controller {
                    modal: Modal::Closed,
                    pane: Pane { search: None, ..r.from.pane },
                    ..r.from
                }.scrolled_to(prompt.saved_scroll as int).shows(),
            ),
            _ => r.takes(r.from.quiet()),
        }
    }

    /// A key was typed into the bottom prompt.
    pub open spec fn prompt_keyed(r: Run, key: Key, layout: Layout) -> bool {
        match r.from.modal {
            Modal::Prompt(p) => match p.mode {
                PromptMode::GoToLine => Self::goto_keyed(r, key, layout),
                PromptMode::Search => Self::search_keyed(r, key),
            },
            _ => r.takes(r.from.quiet()),
        }
    }

    /// The text of the prompt.
    pub open spec fn prompt_text(self) -> Seq<char> {
        match self.modal {
            Modal::Prompt(p) => p.input.text(),
            _ => Seq::empty(),
        }
    }

    /// The text of the prompt, empty while none is open.
    pub fn prompt_query(&self) -> (r: &str)
        ensures
            r@ == self.prompt_text(),
    {
        match &self.modal {
            Modal::Prompt(p) => p.input.query(),
            _ => {
                proof {
                    reveal_strlit("");
                    assert(""@ =~= Seq::<char>::empty());
                }
                ""
            },
        }
    }

    /// What the bottom prompt asks for, if it is open.
    pub fn prompt_mode(&self) -> (r: Option<PromptMode>)
        ensures
            r == match self.modal {
                Modal::Prompt(p) => Some(p.mode),
                _ => None,
            },
    {
        match &self.modal {
            Modal::Prompt(p) => Some(p.mode),
            _ => None,
        }
    }

    /// Appends a character to the prompt.
    fn push_prompt(&mut self, c: char)
        requires
            old(self).modal is Prompt,
        ensures
            *final(self) == (Controller { modal: final(self).modal, ..*old(self) }),
            final(self).modal is Prompt,
            final(self).modal->Prompt_0.mode == old(self).modal->Prompt_0.mode,
            final(self).modal->Prompt_0.saved_scroll == old(self).modal->Prompt_0.saved_scroll,
            final(self).modal->Prompt_0.input.text() == old(self).modal->Prompt_0.input.text().push(c),
            ({
                let input = final(self).modal->Prompt_0.input;
                input.caret() == input.text().len()
            }),
    {
        let mut taken = Modal::Closed;
        std::mem::swap(&mut self.modal, &mut taken);
        if let Modal::Prompt(p) = taken {
            let PromptState { mode, input, saved_scroll } = p;
            let mut input = input;
            input.push(c);
            self.modal = Modal::Prompt(PromptState { mode, input, saved_scroll });
        }
    }

    /// Removes the character left of the caret from the prompt.
    fn erase_prompt(&mut self)
        requires
            old(self).modal is Prompt,
        ensures
            *final(self) == (Controller { modal: final(self).modal, ..*old(self) }),
            final(self).modal is Prompt,
            final(self).modal->Prompt_0.mode == old(self).modal->Prompt_0.mode,
            final(self).modal->Prompt_0.saved_scroll == old(self).modal->Prompt_0.saved_scroll,
            ({
                let before = old(self).modal->Prompt_0.input;
                let input = final(self).modal->Prompt_0.input;
                if before.caret() == 0 {
                    input.text() == before.text() && input.caret() == 0
                } else {
                    &&& input.text() == before.text().remove(before.caret() - 1)
                    &&& input.caret() == before.caret() - 1
                }
            }),
    {
        let mut taken = Modal::Closed;
        std::mem::swap(&mut self.modal, &mut taken);
        if let Modal::Prompt(p) = taken {
            let PromptState { mode, input, saved_scroll } = p;
            let mut input = input;
            input.backspace();
            self.modal = Modal::Prompt(PromptState { mode, input, saved_scroll });
        }
    }

    /// A key for the bottom prompt.
    pub fn handle_prompt_key(&mut self, key: Key, layout: &Layout, out: &mut Vec<Action>) -> (r:
        Effects)
        ensures
            Self::prompt_keyed(
                run(*old(self), *final(self), r, old(out)@, final(out)@),
                key,
                *layout,
            ),
    {
        match self.prompt_mode() {
            None => Effects::noop(),
            Some(PromptMode::GoToLine) => self.go_to_line_key(key, layout, out),
            Some(PromptMode::Search) => self.search_prompt_key(key, out),
        }
    }

    /// A key for the prompt for a line.
    fn go_to_line_key(&mut self, key: Key, layout: &Layout, out: &mut Vec<Action>) -> (r: Effects)
        requires
            old(self).modal is Prompt,
        ensures
            Self::goto_keyed(
                run(*old(self), *final(self), r, old(out)@, final(out)@),
                key,
                *layout,
            ),
    {
        match key.code {
            KeyCode::Char(c) => {
                if c >= '0' && c <= '9' && key.modifiers.only_shift() {
                    self.push_prompt(c);
                    Effects::redraw()
                } else {
                    Effects::noop()
                }
            },
            KeyCode::Backspace => {
                self.erase_prompt();
                Effects::redraw()
            },
            KeyCode::Enter => {
                let line: usize = parse_line(self.prompt_query());
                let empty = self.prompt_query().is_empty();
                self.go_to_line(line, empty, layout, out)
            },
            KeyCode::Esc => {
                self.modal = Modal::Closed;
                Effects::redraw()
            },
            _ => Effects::noop(),
        }
    }

    /// Confirms the prompt for a line.
    fn go_to_line(
        &mut self,
        line: usize,
        empty: bool,
        layout: &Layout,
        out: &mut Vec<Action>,
    ) -> (r: Effects)
        requires
            old(self).modal is Prompt,
            line == line_number(old(self).modal->Prompt_0.input.text()),
            empty == (old(self).modal->Prompt_0.input.text().len() == 0),
        ensures
            Self::went_to_line(
                run(*old(self), *final(self), r, old(out)@, final(out)@),
                *layout,
            ),
    {
        self.modal = Modal::Closed;
        self.pane.renders.goto = None;
        if empty {
            return Effects::redraw();
        }
        let source = self.selected_view_mode() == Some(ViewMode::SyntaxContent);
        if source && self.pane.renders.applied == self.pane.renders.latest {
            self.scroll_to_line(layout, line);
        } else if let Some(path) = self.selected_file() {
            if !source {
                self.overrides.insert(path, ViewMode::SyntaxContent);
                self.dispatch_render(out);
            }
            self.queue_goto(Some(line));
        }
        Effects::redraw()
    }

    /// A key for the search prompt.
    fn search_prompt_key(&mut self, key: Key, out: &mut Vec<Action>) -> (r: Effects)
        requires
            old(self).modal is Prompt,
        ensures
            Self::search_keyed(run(*old(self), *final(self), r, old(out)@, final(out)@), key),
    {
        match key.code {
            KeyCode::Char(c) => {
                if key.modifiers.only_shift() {
                    self.push_prompt(c);
                    out.push(Action::FindMatches);
                    Effects::redraw()
                } else {
                    Effects::noop()
                }
            },
            KeyCode::Backspace => {
                self.erase_prompt();
                out.push(Action::FindMatches);
                Effects::redraw()
            },
            KeyCode::Enter => {
                if self.prompt_query().is_empty() {
                    self.pane.search = None;
                }
                self.modal = Modal::Closed;
                Effects::redraw()
            },
            KeyCode::Esc => {
                let saved: u16 = match &self.modal {
                    Modal::Prompt(p) => p.saved_scroll,
                    _ => 0,
                };
                self.nav.content_scroll = saved;
                self.pane.search = None;
                self.modal = Modal::Closed;
                Effects::redraw()
            },
            _ => Effects::noop(),
        }
    }

    /// The typed text was looked for: the first match is current, and in view.
    pub open spec fn matched(r: Run, matches: Vec<Match>, layout: Layout) -> bool {
        let searched = Controller { pane: Pane { search: r.to.pane.search, ..r.from.pane }, ..r.from };
        &&& r.to.pane.search matches Some(s) && s.query@ == r.from.prompt_text() && s.matches
            == matches && s.current == 0
        &&& r.takes(
            if matches@.len() > 0 {
                searched.at_line(layout, line_after(matches@[0].line) as int).shows()
            } else {
                searched.shows()
            },
        )
    }

    /// The typed text was looked for in the displayed lines.
    pub fn matches_found(
        &mut self,
        matches: Vec<Match>,
        layout: &Layout,
        out: &mut Vec<Action>,
    ) -> (r: Effects)
        ensures
            Self::matched(
                run(*old(self), *final(self), r, old(out)@, final(out)@),
                matches,
                *layout,
            ),
    {
        let query = self.prompt_query().to_owned();
        if matches.len() > 0 {
            self.scroll_to_line(layout, matches[0].line.saturating_add(1));
        }
        self.pane.search = Some(SearchState { query, matches, current: 0 });
        Effects::redraw()
    }

    /// The committed text was looked for again: the same occurrence is current, or the last one.
    pub open spec fn matched_again(self, matches: Vec<Match>) -> Controller {
        match self.pane.search {
            Some(s) => Controller {
                pane: Pane {
                    search: Some(
                        SearchState {
                            query: s.query,
                            matches,
                            current: at_most(
                                s.current as int,
                                less(matches@.len() as int, 1),
                            ) as usize,
                        },
                    ),
                    ..self.pane
                },
                ..self
            },
            None => self,
        }
    }

    /// The committed text was looked for again in lines that were laid out anew.
    pub fn matches_found_again(&mut self, matches: Vec<Match>, out: &mut Vec<Action>) -> (r: Effects)
        ensures
            run(*old(self), *final(self), r, old(out)@, final(out)@).takes(
                old(self).matched_again(matches).shows(),
            ),
    {
        let mut taken: Option<SearchState> = None;
        std::mem::swap(&mut self.pane.search, &mut taken);
        if let Some(s) = taken {
            let SearchState { query, matches: _, current } = s;
            let last: usize = matches.len().saturating_sub(1);
            let current: usize = if current > last {
                last
            } else {
                current
            };
            self.pane.search = Some(SearchState { query, matches, current });
        }
        Effects::redraw()
    }

    /// There is a committed search with matches.
    pub open spec fn has_matches(self) -> bool {
        &&& self.pane.search matches Some(s) && s.matches@.len() > 0
        &&& !(self.modal is Prompt)
    }

    /// Another match is current, and in view.
    pub open spec fn at_match(self, layout: Layout, index: int, notice: Option<Notice>) -> Step {
        let s = self.pane.search->0;
        Controller {
            pane: Pane {
                search: Some(SearchState { current: index as usize, ..s }),
                ..self.pane
            },
            notice: match notice {
                Some(n) => Some(n),
                None => self.notice,
            },
            ..self
        }.at_line(layout, line_after(s.matches@[index].line) as int).shows()
    }

    /// The match after the current one.
    pub open spec fn index_after(self) -> int {
        let s = self.pane.search->0;
        (s.current + 1) % (s.matches@.len() as int)
    }

    /// The match before the current one.
    pub open spec fn index_before(self) -> int {
        let s = self.pane.search->0;
        (s.current + s.matches@.len() - 1) % (s.matches@.len() as int)
    }

    /// Goes to the next match, and from the last to the first.
    pub open spec fn next_match_step(self, layout: Layout) -> Step {
        if self.has_matches() {
            let s = self.pane.search->0;
            self.at_match(
                layout,
                self.index_after(),
                if s.current + 1 >= s.matches@.len() {
                    Some(Notice::WrappedToFirst)
                } else {
                    None
                },
            )
        } else {
            self.quiet()
        }
    }

    /// Goes to the previous match, and from the first to the last.
    pub open spec fn prev_match_step(self, layout: Layout) -> Step {
        if self.has_matches() {
            let s = self.pane.search->0;
            self.at_match(
                layout,
                self.index_before(),
                if s.current == 0 {
                    Some(Notice::WrappedToLast)
                } else {
                    None
                },
            )
        } else {
            self.quiet()
        }
    }

    /// The number of matches and the current one, where there is a committed search with matches.
    fn committed_search(&self) -> (r: Option<(usize, usize)>)
        ensures
            r is Some <==> self.has_matches(),
            r matches Some((len, current)) ==> len == self.pane.search->0.matches@.len() && len > 0
                && current == self.pane.search->0.current,
    {
        if self.prompt_open() {
            return None;
        }
        match &self.pane.search {
            Some(s) => if s.matches.len() > 0 {
                Some((s.matches.len(), s.current))
            } else {
                None
            },
            None => None,
        }
    }

    /// Makes a match current and brings it into view.
    fn go_to_match(&mut self, layout: &Layout, index: usize)
        requires
            old(self).pane.search is Some,
            index < old(self).pane.search->0.matches@.len(),
        ensures
            *final(self) == old(self).at_match(*layout, index as int, None).next,
    {
        let mut taken: Option<SearchState> = None;
        std::mem::swap(&mut self.pane.search, &mut taken);
        if let Some(s) = taken {
            let line: usize = s.matches[index].line;
            let SearchState { query, matches, current: _ } = s;
            self.pane.search = Some(SearchState { query, matches, current: index });
            self.scroll_to_line(layout, line.saturating_add(1));
        }
    }

    /// Goes to the next match.
    pub fn next_match(&mut self, layout: &Layout, out: &mut Vec<Action>) -> (r: Effects)
        ensures
            run(*old(self), *final(self), r, old(out)@, final(out)@).takes(
                old(self).next_match_step(*layout),
            ),
    {
        match self.committed_search() {
            None => Effects::noop(),
            Some((len, current)) => {
                let wrapped = current >= len - 1;
                let next: usize = if current < usize::MAX {
                    (current + 1) % len
                } else {
                    ((current as u128 + 1) % len as u128) as usize
                };
                if wrapped {
                    self.notice = Some(Notice::WrappedToFirst);
                }
                self.go_to_match(layout, next);
                Effects::redraw()
            },
        }
    }

    /// Goes to the previous match.
    pub fn prev_match(&mut self, layout: &Layout, out: &mut Vec<Action>) -> (r: Effects)
        ensures
            run(*old(self), *final(self), r, old(out)@, final(out)@).takes(
                old(self).prev_match_step(*layout),
            ),
    {
        match self.committed_search() {
            None => Effects::noop(),
            Some((len, current)) => {
                let previous: usize = ((current as u128 + len as u128 - 1) % len as u128) as usize;
                if current == 0 {
                    self.notice = Some(Notice::WrappedToLast);
                }
                self.go_to_match(layout, previous);
                Effects::redraw()
            },
        }
    }
}

/// Going back undoes going on, and the other way round.
pub proof fn match_keys_undo_each_other(state: Controller, layout: Layout)
    requires
        state.has_matches(),
        state.pane.search->0.current < state.pane.search->0.matches@.len(),
    ensures
        state.next_match_step(layout).next.index_before() == state.pane.search->0.current,
        state.prev_match_step(layout).next.index_after() == state.pane.search->0.current,
{
    let s = state.pane.search->0;
    let len: usize = s.matches.len();
    assert(len == s.matches@.len());
    lemma_ring(s.current as int, s.matches@.len() as int);
    assert(state.next_match_step(layout).next.pane.search->0.current == state.index_after());
    assert(state.prev_match_step(layout).next.pane.search->0.current == state.index_before());
}

/// Steps forth and back on a ring.
proof fn lemma_ring(current: int, len: int)
    requires
        0 <= current < len,
    ensures
        ((current + 1) % len + len - 1) % len == current,
        ((current + len - 1) % len + 1) % len == current,
        0 <= (current + 1) % len < len,
        0 <= (current + len - 1) % len < len,
{
    if current + 1 < len {
        assert((current + 1) % len == current + 1) by (nonlinear_arith)
            requires
                0 <= current + 1 < len,
        ;
        assert((current + len) % len == current) by (nonlinear_arith)
            requires
                0 <= current < len,
        ;
    } else {
        assert(len % len == 0) by (nonlinear_arith)
            requires
                len > 0,
        ;
        assert((len - 1) % len == len - 1) by (nonlinear_arith)
            requires
                len > 0,
        ;
    }
    if current > 0 {
        assert((current - 1 + len) % len == current - 1) by (nonlinear_arith)
            requires
                0 < current < len,
        ;
        assert(current % len == current) by (nonlinear_arith)
            requires
                0 <= current < len,
        ;
    } else {
        assert((len - 1) % len == len - 1) by (nonlinear_arith)
            requires
                len > 0,
        ;
        assert(len % len == 0) by (nonlinear_arith)
            requires
                len > 0,
        ;
    }
}

/// Canceling a search returns the content to where it stood, without matches.
pub proof fn canceled_searches_leave_no_trace(r: Run, key: Key)
    requires
        r.from.modal matches Modal::Prompt(p) && p.mode == PromptMode::Search,
        key.code == KeyCode::Esc,
        Controller::search_keyed(r, key),
    ensures
        r.to.pane.search is None,
        r.to.modal is Closed,
        r.to.nav.content_scroll == r.from.modal->Prompt_0.saved_scroll,
{
}

/// Confirming a line number leads to that line, whichever view the file is shown in: afterwards
/// the content is scrolled so that the line stands at the top, or as close as the end of the
/// content allows, or a jump to it waits for the latest render.
pub proof fn confirmed_lines_are_reached(r: Run, key: Key, layout: Layout)
    requires
        r.from.modal matches Modal::Prompt(p) && p.mode == PromptMode::GoToLine
            && p.input.text().len() > 0,
        key.code == KeyCode::Enter,
        r.from.tree.cursor < r.from.tree.nodes@.len(),
        r.from.tree.nodes@[r.from.tree.cursor as int].kind == NodeKind::File,
        Controller::prompt_keyed(r, key, layout),
    ensures
        r.to.modal is Closed,
        ({
            let line = line_number(r.from.modal->Prompt_0.input.text());
            let at_once = r.to.nav == r.from.at_line(layout, line).nav && r.to.pane.renders.applied
                == r.to.pane.renders.latest && r.after == r.before;
            let queued = r.to.pane.renders.goto == Some((r.to.pane.renders.latest, line as usize));
            at_once || queued
        }),
        r.from.selected_mode() == Some(ViewMode::SyntaxContent) && r.from.pane.renders.applied
            != r.from.pane.renders.latest ==> r.after == r.before && r.to.pane.renders.goto is Some,
        r.from.selected_mode() != Some(ViewMode::SyntaxContent) ==> r.to.pane.renders.goto is Some
            && r.to.overrides@[r.from.tree.nodes@[r.from.tree.cursor as int].path@]
            == ViewMode::SyntaxContent,
{
    assert(r.from.unqueued().selected() == r.from.selected());
    let closed = Controller { modal: Modal::Closed, ..r.from }.unqueued();
    let line = line_number(r.from.modal->Prompt_0.input.text());
    assert(closed.wraps() == r.from.wraps());
    assert(closed.mode_of(r.from.selected()->0.path@) == r.from.mode_of(
        r.from.selected()->0.path@,
    ));
    assert(closed.marks_lines() == r.from.marks_lines());
    assert(closed.at_line(layout, line).nav == r.from.at_line(layout, line).nav);
}

/// A view that is not the source is switched to it to go to a line: one render is asked for, with
/// the number that the jump waits for, of that file's source, unless working-tree diffs are forced.
pub proof fn going_to_a_line_renders_the_source(r: Run, key: Key, layout: Layout)
    requires
        r.from.modal matches Modal::Prompt(p) && p.mode == PromptMode::GoToLine
            && p.input.text().len() > 0,
        key.code == KeyCode::Enter,
        r.from.tree.cursor < r.from.tree.nodes@.len(),
        r.from.tree.nodes@[r.from.tree.cursor as int].kind == NodeKind::File,
        r.from.selected_mode() != Some(ViewMode::SyntaxContent),
        !r.from.prefs.status_mode,
        Controller::prompt_keyed(r, key, layout),
    ensures
        r.after.len() == r.before.len() + 1,
        r.after.last() matches Action::Render(job) && job.mode == ViewMode::SyntaxContent
            && job.path == r.from.tree.nodes@[r.from.tree.cursor as int].path && Some(
            (job.seq, line_number(r.from.modal->Prompt_0.input.text()) as usize),
        ) == r.to.pane.renders.goto && job.seq == r.to.pane.renders.latest,
{
    let closed = Controller { modal: Modal::Closed, ..r.from }.unqueued();
    assert(closed.selected() == r.from.selected());
    assert(closed.mode_of(r.from.selected()->0.path@) == r.from.mode_of(
        r.from.selected()->0.path@,
    ));
}

/// Without a number the prompt only closes, and with Esc it does so whatever was typed.
pub proof fn abandoned_jumps_change_nothing(r: Run, key: Key, layout: Layout)
    requires
        r.from.modal matches Modal::Prompt(p) && p.mode == PromptMode::GoToLine,
        key.code == KeyCode::Esc || key.code == KeyCode::Enter
            && r.from.modal->Prompt_0.input.text().len() == 0,
        Controller::prompt_keyed(r, key, layout),
    ensures
        r.to.modal is Closed,
        r.to.nav == r.from.nav,
        r.to.pane.body == r.from.pane.body,
        r.to.overrides == r.from.overrides,
        r.after == r.before,
{
}

} // verus!
