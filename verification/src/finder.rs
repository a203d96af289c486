//! The state of the go-to-file overlay: the query, the candidates, the ranked matches and the
//! selected match.

use crate::fuzzy::{match_and_rank, ranking};
use crate::prompt::PromptInput;
use crate::text::chars_of;
use vstd::prelude::*;
use vstd::string::*;

verus! {

/// How many columns one horizontal-scroll step moves the result rows.
pub const HSCROLL_STEP: u16 = 8;

/// Whether a candidate path lies below the directory `scope`; every path lies below the empty
/// scope.
pub open spec fn below(scope: Seq<char>, path: Seq<char>) -> bool {
    scope.len() == 0 || (scope.push('/')).is_prefix_of(path)
}

/// The matches that lie below `scope`, in their order.
pub open spec fn scoped(scope: Seq<char>, candidates: Seq<String>, ranked: Seq<usize>) -> Seq<
    usize,
> {
    ranked.filter(|i: usize| below(scope, candidates[i as int]@))
}

/// `matches` lists the ranked matches of `query` that lie below `scope`.
pub open spec fn found(
    query: Seq<char>,
    candidates: Seq<String>,
    scope: Seq<char>,
    matches: Seq<usize>,
) -> bool {
    exists|ranked: Seq<usize>| #[trigger]
        ranking(query, candidates, ranked) && matches == scoped(scope, candidates, ranked)
}

/// A position moved by `delta` and kept within a list of `len` entries.
pub open spec fn moved(cursor: int, delta: int, len: int) -> int {
    if len == 0 || cursor + delta < 0 {
        0
    } else if cursor + delta >= len {
        len - 1
    } else {
        cursor + delta
    }
}

/// Moves a list position by `delta`, clamped to the list.
pub fn move_cursor(cursor: usize, delta: isize, len: usize) -> (r: usize)
    ensures
        r == moved(cursor as int, delta as int, len as int),
        len > 0 ==> r < len,
{
    if len == 0 {
        return 0;
    }
    if delta >= 0 {
        let step: usize = delta as usize;
        if cursor >= len || step >= len - cursor {
            len - 1
        } else {
            cursor + step
        }
    } else {
        let below: isize = -(delta + 1);
        let step: usize = below as usize;
        if cursor <= step {
            0
        } else {
            let next: usize = cursor - step - 1;
            if next >= len {
                len - 1
            } else {
                next
            }
        }
    }
}

/// Tests whether a candidate lies below a scope directory.
fn is_below(scope: &str, path: &str) -> (r: bool)
    ensures
        r == below(scope@, path@),
{
    let (s, p) = (chars_of(scope), chars_of(path));
    if s.len() == 0 {
        return true;
    }
    let ghost prefix = scope@.push('/');
    if p.len() <= s.len() {
        return false;
    }
    for i in 0..s.len()
        invariant
            s@ == scope@,
            p@ == path@,
            s.len() < p.len(),
            prefix == scope@.push('/'),
            forall|k: int| 0 <= k < i ==> s@[k] == p@[k],
    {
        if s[i] != p[i] {
            assert(prefix[i as int] != path@[i as int]);
            return false;
        }
    }
    assert(p@[s.len() as int] == '/' ==> prefix =~= path@.subrange(0, prefix.len() as int));
    assert(p@[s.len() as int] != '/' ==> prefix[s.len() as int] != path@[s.len() as int]);
    p[s.len()] == '/'
}

/// Live state of the go-to-file overlay while it is open.
#[derive(Debug)]
pub struct FinderState {
    prompt: PromptInput,
    candidates: Vec<String>,
    matches: Vec<usize>,
    cursor: usize,
    hscroll: u16,
    scope: String,
    label: String,
    workspace: bool,
}

impl FinderState {
    /// The cursor stays on a match, and every match names a candidate.
    #[verifier::type_invariant]
    spec fn consistent(self) -> bool {
        &&& if self.matches@.len() == 0 {
            self.cursor == 0
        } else {
            self.cursor < self.matches@.len()
        }
        &&& found(self.prompt.text(), self.candidates@, self.active_scope(), self.matches@)
    }

    /// The typed query.
    pub closed spec fn query_text(self) -> Seq<char> {
        self.prompt.text()
    }

    /// The caret of the query.
    pub closed spec fn query_caret(self) -> nat {
        self.prompt.caret()
    }

    /// Every file that can be found.
    pub closed spec fn files(self) -> Seq<String> {
        self.candidates@
    }

    /// The listed matches, best first.
    pub closed spec fn ranked(self) -> Seq<usize> {
        self.matches@
    }

    /// The position of the selected match.
    pub closed spec fn position(self) -> int {
        self.cursor as int
    }

    /// The horizontal offset of the result rows.
    pub closed spec fn offset(self) -> u16 {
        self.hscroll
    }

    /// The directory the search can be narrowed to.
    pub closed spec fn scope_dir(self) -> Seq<char> {
        self.scope@
    }

    /// The text that names that directory.
    pub closed spec fn scope_name(self) -> Seq<char> {
        self.label@
    }

    /// Whether the whole workspace is searched.
    pub closed spec fn whole(self) -> bool {
        self.workspace
    }

    /// The directory that bounds the matches: the empty one for the whole workspace.
    pub open spec fn active_scope(self) -> Seq<char> {
        if self.whole() {
            Seq::empty()
        } else {
            self.scope_dir()
        }
    }

    /// Everything but the position and the horizontal offset is unchanged.
    pub open spec fn same_search(self, other: Self) -> bool {
        &&& self.query_text() == other.query_text()
        &&& self.query_caret() == other.query_caret()
        &&& self.ranked() == other.ranked()
        &&& self.same_scope(other)
    }

    /// The candidates and the scope are unchanged.
    pub open spec fn same_scope(self, other: Self) -> bool {
        &&& self.files() == other.files()
        &&& self.scope_dir() == other.scope_dir()
        &&& self.scope_name() == other.scope_name()
        &&& self.whole() == other.whole()
    }

    /// What holds of every finder: the matches are those of the query in the active scope, each
    /// names a candidate, and the position is on a match, or 0 when there is none.
    pub open spec fn sound(self) -> bool {
        &&& found(self.query_text(), self.files(), self.active_scope(), self.ranked())
        &&& self.ranked().len() > 0 ==> 0 <= self.position() < self.ranked().len()
        &&& self.ranked().len() == 0 ==> self.position() == 0
        &&& forall|k: int|
            0 <= k < self.ranked().len() ==> (#[trigger] self.ranked()[k] as int) < self.files().len()
    }

    /// An overlay over `candidates` that searches all of them, with nothing typed.
    pub fn new(candidates: Vec<String>) -> (r: Self)
        ensures
            r.files() == candidates@,
            r.query_text() == Seq::<char>::empty(),
            r.query_caret() == 0,
            r.ranked() == Seq::<usize>::empty(),
            r.position() == 0,
            r.offset() == 0,
            r.scope_dir() == Seq::<char>::empty(),
            r.scope_name() == Seq::<char>::empty(),
            r.whole(),
            r.sound(),
    {
        proof {
            lemma_nothing_found(candidates@, Seq::empty());
        }
        FinderState {
            prompt: PromptInput::new(),
            candidates,
            matches: Vec::new(),
            cursor: 0,
            hscroll: 0,
            scope: String::new(),
            label: String::new(),
            workspace: true,
        }
    }

    /// An overlay over `candidates` that searches below the directory `scope`, named by `label`,
    /// with nothing typed.
    pub fn within(candidates: Vec<String>, scope: String, label: String) -> (r: Self)
        ensures
            r.files() == candidates@,
            r.query_text() == Seq::<char>::empty(),
            r.query_caret() == 0,
            r.ranked() == Seq::<usize>::empty(),
            r.position() == 0,
            r.offset() == 0,
            r.scope_dir() == scope@,
            r.scope_name() == label@,
            !r.whole(),
            r.sound(),
    {
        proof {
            lemma_nothing_found(candidates@, scope@);
        }
        FinderState {
            prompt: PromptInput::new(),
            candidates,
            matches: Vec::new(),
            cursor: 0,
            hscroll: 0,
            scope,
            label,
            workspace: false,
        }
    }

    /// Makes the invariant of every finder known to the caller.
    pub(crate) fn check(&self)
        ensures
            self.sound(),
    {
        proof {
            use_type_invariant(self);
            lemma_found_in_range(
                self.prompt.text(),
                self.candidates@,
                self.active_scope(),
                self.matches@,
            );
        }
    }

    /// The current query.
    pub fn query(&self) -> (r: &str)
        ensures
            r@ == self.query_text(),
    {
        self.prompt.query()
    }

    /// The full candidate list.
    pub fn candidates(&self) -> (r: &[String])
        ensures
            r@ == self.files(),
    {
        self.candidates.as_slice()
    }

    /// The label of the directory that the search is narrowed to; `workspace` while everything
    /// is searched.
    pub fn scope_label(&self) -> (r: &str)
        ensures
            r@ == if self.whole() {
                "workspace"@
            } else {
                self.scope_name()
            },
    {
        if self.workspace {
            "workspace"
        } else {
            self.label.as_str()
        }
    }

    /// Whether the whole workspace is searched.
    pub fn workspace(&self) -> (r: bool)
        ensures
            r == self.whole(),
    {
        self.workspace
    }

    /// Appends a character to the query and matches again, from the first match.
    pub fn push(&mut self, c: char)
        ensures
            final(self).query_text() == old(self).query_text().push(c),
            final(self).query_caret() == final(self).query_text().len(),
            final(self).same_scope(*old(self)),
            final(self).position() == 0,
            final(self).offset() == 0,
            final(self).sound(),
    {
        let mut prompt = self.prompt.duplicate();
        prompt.push(c);
        self.recompute(prompt, self.workspace);
    }

    /// Removes the character left of the caret from the query and matches again.
    pub fn backspace(&mut self)
        ensures
            old(self).query_caret() == 0 ==> final(self).query_text() == old(self).query_text()
                && final(self).query_caret() == 0,
            old(self).query_caret() > 0 ==> final(self).query_text() == old(
                self,
            ).query_text().remove(old(self).query_caret() - 1) && final(self).query_caret() == old(
                self,
            ).query_caret() - 1,
            final(self).same_scope(*old(self)),
            final(self).position() == 0,
            final(self).offset() == 0,
            final(self).sound(),
    {
        let mut prompt = self.prompt.duplicate();
        prompt.backspace();
        self.recompute(prompt, self.workspace);
    }

    /// Switches between the selected directory and the whole workspace and matches again.
    pub fn toggle_scope(&mut self)
        ensures
            final(self).query_text() == old(self).query_text(),
            final(self).query_caret() == old(self).query_caret(),
            final(self).files() == old(self).files(),
            final(self).scope_dir() == old(self).scope_dir(),
            final(self).scope_name() == old(self).scope_name(),
            final(self).whole() == !old(self).whole(),
            final(self).position() == 0,
            final(self).offset() == 0,
            final(self).sound(),
    {
        let prompt = self.prompt.duplicate();
        self.recompute(prompt, !self.workspace);
    }

    /// Matches `prompt` against the candidates of the scope and starts at the first match,
    /// unscrolled.
    fn recompute(&mut self, prompt: PromptInput, workspace: bool)
        ensures
            final(self).query_text() == prompt.text(),
            final(self).query_caret() == prompt.caret(),
            final(self).files() == old(self).files(),
            final(self).scope_dir() == old(self).scope_dir(),
            final(self).scope_name() == old(self).scope_name(),
            final(self).whole() == workspace,
            final(self).position() == 0,
            final(self).offset() == 0,
            final(self).sound(),
    {
        let ranked = match_and_rank(prompt.query(), self.candidates.as_slice());
        let mut matches: Vec<usize> = Vec::new();
        let ghost scope = if workspace { Seq::<char>::empty() } else { self.scope@ };
        let ghost keep = |i: usize| below(scope, self.candidates@[i as int]@);
        proof {
            lemma_ranking_in_range(prompt.text(), self.candidates@, ranked@);
        }
        for k in 0..ranked.len()
            invariant
                forall|j: int|
                    0 <= j < ranked@.len() ==> (#[trigger] ranked@[j] as int)
                        < self.candidates@.len(),
                scope == if workspace {
                    Seq::<char>::empty()
                } else {
                    self.scope@
                },
                keep == (|i: usize| below(scope, self.candidates@[i as int]@)),
                matches@ == ranked@.take(k as int).filter(keep),
        {
            let i: usize = ranked[k];
            proof {
                assert(ranked@.take(k + 1).drop_last() =~= ranked@.take(k as int));
                assert(ranked@.take(k + 1).last() == i);
                reveal(Seq::filter);
            }
            if workspace || is_below(self.scope.as_str(), self.candidates[i].as_str()) {
                matches.push(i);
            }
        }
        proof {
            assert(ranked@.take(ranked@.len() as int) =~= ranked@);
            assert(matches@ == scoped(scope, self.candidates@, ranked@));
            assert(found(prompt.text(), self.candidates@, scope, matches@));
        }
        let mut before = FinderState::new(Vec::new());
        std::mem::swap(self, &mut before);
        let FinderState { candidates, scope, label, .. } = before;
        *self =
        FinderState {
            prompt,
            candidates,
            matches,
            cursor: 0,
            hscroll: 0,
            scope,
            label,
            workspace,
        };
        self.check();
    }

    /// Moves the selection by `delta` rows, clamped to the match list.
    pub fn move_selection(&mut self, delta: isize)
        ensures
            final(self).same_search(*old(self)),
            final(self).offset() == old(self).offset(),
            final(self).position() == moved(
                old(self).position(),
                delta as int,
                old(self).ranked().len() as int,
            ),
            final(self).sound(),
    {
        self.check();
        self.cursor = move_cursor(self.cursor, delta, self.matches.len());
        self.check();
    }

    /// The ranked match indices.
    pub fn matches(&self) -> (r: &[usize])
        ensures
            r@ == self.ranked(),
    {
        self.matches.as_slice()
    }

    /// The position of the selected match.
    pub fn cursor(&self) -> (r: usize)
        ensures
            r == self.position(),
    {
        self.cursor
    }

    /// Selects the match at `idx`, or the last one when there are fewer.
    pub fn set_cursor(&mut self, idx: usize)
        ensures
            final(self).same_search(*old(self)),
            final(self).offset() == old(self).offset(),
            final(self).position() == moved(0, idx as int, old(self).ranked().len() as int),
            final(self).sound(),
    {
        self.check();
        let len: usize = self.matches.len();
        self.cursor = if len == 0 {
            0
        } else if idx < len {
            idx
        } else {
            len - 1
        };
        self.check();
    }

    /// The horizontal offset of the result rows.
    pub fn hscroll(&self) -> (r: u16)
        ensures
            r == self.offset(),
    {
        self.hscroll
    }

    /// Scrolls the result rows right by one step, up to the largest offset.
    pub fn scroll_right(&mut self)
        ensures
            final(self).same_search(*old(self)),
            final(self).position() == old(self).position(),
            final(self).offset() == if old(self).offset() + HSCROLL_STEP > u16::MAX {
                u16::MAX as int
            } else {
                old(self).offset() + HSCROLL_STEP
            },
            final(self).sound(),
    {
        self.check();
        self.hscroll = self.hscroll.saturating_add(HSCROLL_STEP);
        self.check();
    }

    /// Scrolls the result rows left by one step, down to 0.
    pub fn scroll_left(&mut self)
        ensures
            final(self).same_search(*old(self)),
            final(self).position() == old(self).position(),
            final(self).offset() == if old(self).offset() < HSCROLL_STEP {
                0
            } else {
                old(self).offset() - HSCROLL_STEP
            },
            final(self).sound(),
    {
        self.check();
        self.hscroll = self.hscroll.saturating_sub(HSCROLL_STEP);
        self.check();
    }

    /// Lowers the horizontal offset to `max` where it is larger.
    pub fn clamp_hscroll(&mut self, max: u16)
        ensures
            final(self).same_search(*old(self)),
            final(self).position() == old(self).position(),
            final(self).offset() == if old(self).offset() < max {
                old(self).offset()
            } else {
                max
            },
            final(self).sound(),
    {
        self.check();
        if self.hscroll > max {
            self.hscroll = max;
        }
        self.check();
    }

    /// The candidate that the selected match names, or `None` without matches.
    pub fn selected_candidate_index(&self) -> (r: Option<usize>)
        ensures
            r is None <==> self.ranked().len() == 0,
            r matches Some(i) ==> i == self.ranked()[self.position()] && i < self.files().len(),
    {
        self.check();
        if self.matches.len() == 0 {
            None
        } else {
            Some(self.matches[self.cursor])
        }
    }
}

/// A change of the overlay.
#[derive(Debug, Clone, Copy, PartialEq, Eq, Structural)]
pub enum FinderMove {
    Push(char),
    Backspace,
    ToggleScope,
    MoveSelection(isize),
    Select(usize),
    ScrollRight,
    ScrollLeft,
    ClampScroll(u16),
}

impl FinderState {
    /// A change leads from this overlay to `next`.
    pub open spec fn leads(self, change: FinderMove, next: Self) -> bool {
        &&& next.sound()
        &&& match change {
            FinderMove::Push(c) => {
                &&& next.query_text() == self.query_text().push(c)
                &&& next.query_caret() == next.query_text().len()
                &&& next.same_scope(self)
                &&& next.position() == 0
                &&& next.offset() == 0
            },
            FinderMove::Backspace => {
                &&& if self.query_caret() == 0 {
                    next.query_text() == self.query_text() && next.query_caret() == 0
                } else {
                    &&& next.query_text() == self.query_text().remove(self.query_caret() - 1)
                    &&& next.query_caret() == self.query_caret() - 1
                }
                &&& next.same_scope(self)
                &&& next.position() == 0
                &&& next.offset() == 0
            },
            FinderMove::ToggleScope => {
                &&& next.query_text() == self.query_text()
                &&& next.query_caret() == self.query_caret()
                &&& next.files() == self.files()
                &&& next.scope_dir() == self.scope_dir()
                &&& next.scope_name() == self.scope_name()
                &&& next.whole() == !self.whole()
                &&& next.position() == 0
                &&& next.offset() == 0
            },
            FinderMove::MoveSelection(delta) => {
                &&& next.same_search(self)
                &&& next.offset() == self.offset()
                &&& next.position() == moved(
                    self.position(),
                    delta as int,
                    self.ranked().len() as int,
                )
            },
            FinderMove::Select(idx) => {
                &&& next.same_search(self)
                &&& next.offset() == self.offset()
                &&& next.position() == moved(0, idx as int, self.ranked().len() as int)
            },
            FinderMove::ScrollRight => {
                &&& next.same_search(self)
                &&& next.position() == self.position()
                &&& next.offset() == if self.offset() + HSCROLL_STEP > u16::MAX {
                    u16::MAX as int
                } else {
                    self.offset() + HSCROLL_STEP
                }
            },
            FinderMove::ScrollLeft => {
                &&& next.same_search(self)
                &&& next.position() == self.position()
                &&& next.offset() == if self.offset() < HSCROLL_STEP {
                    0
                } else {
                    self.offset() - HSCROLL_STEP
                }
            },
            FinderMove::ClampScroll(max) => {
                &&& next.same_search(self)
                &&& next.position() == self.position()
                &&& next.offset() == if self.offset() < max {
                    self.offset()
                } else {
                    max
                }
            },
        }
    }

    /// Changes the overlay.
    pub fn apply(&mut self, change: FinderMove)
        ensures
            old(self).leads(change, *final(self)),
    {
        match change {
            FinderMove::Push(c) => self.push(c),
            FinderMove::Backspace => self.backspace(),
            FinderMove::ToggleScope => self.toggle_scope(),
            FinderMove::MoveSelection(delta) => self.move_selection(delta),
            FinderMove::Select(idx) => self.set_cursor(idx),
            FinderMove::ScrollRight => self.scroll_right(),
            FinderMove::ScrollLeft => self.scroll_left(),
            FinderMove::ClampScroll(max) => self.clamp_hscroll(max),
        }
    }
}

/// An empty query matches nothing.
proof fn lemma_nothing_found(candidates: Seq<String>, scope: Seq<char>)
    ensures
        found(Seq::empty(), candidates, scope, Seq::empty()),
{
    reveal(Seq::filter);
    let none = Seq::<usize>::empty();
    assert(ranking(Seq::empty(), candidates, none));
    assert(scoped(scope, candidates, none) =~= none);
}

/// A ranking names candidates only.
proof fn lemma_ranking_in_range(query: Seq<char>, candidates: Seq<String>, ranked: Seq<usize>)
    requires
        ranking(query, candidates, ranked),
    ensures
        forall|k: int|
            0 <= k < ranked.len() ==> (#[trigger] ranked[k] as int) < candidates.len(),
{
}

/// Narrowed matches name candidates only.
proof fn lemma_found_in_range(
    query: Seq<char>,
    candidates: Seq<String>,
    scope: Seq<char>,
    matches: Seq<usize>,
)
    requires
        found(query, candidates, scope, matches),
    ensures
        forall|k: int|
            0 <= k < matches.len() ==> (#[trigger] matches[k] as int) < candidates.len(),
{
    let ranked = choose|ranked: Seq<usize>| #[trigger]
        ranking(query, candidates, ranked) && matches == scoped(scope, candidates, ranked);
    let keep = |i: usize| below(scope, candidates[i as int]@);
    assert forall|k: int| 0 <= k < matches.len() implies (#[trigger] matches[k] as int)
        < candidates.len() by {
        broadcast use Seq::lemma_filter_contains_rev;
        ranked.lemma_filter_contains_rev(keep, matches[k]);
        assert(ranked.contains(matches[k]));
    }
}

/// The listed matches are exactly the candidates below the scope that the query hits.
pub proof fn matches_are_the_hits_in_scope(
    query: Seq<char>,
    candidates: Seq<String>,
    scope: Seq<char>,
    matches: Seq<usize>,
    i: usize,
)
    requires
        query.len() > 0,
        found(query, candidates, scope, matches),
        (i as int) < candidates.len(),
    ensures
        matches.contains(i) <==> crate::fuzzy::hit(query, candidates[i as int]@) && below(
            scope,
            candidates[i as int]@,
        ),
{
    let ranked = choose|ranked: Seq<usize>| #[trigger]
        ranking(query, candidates, ranked) && matches == scoped(scope, candidates, ranked);
    let keep = |i: usize| below(scope, candidates[i as int]@);
    if crate::fuzzy::hit(query, candidates[i as int]@) && below(scope, candidates[i as int]@) {
        assert(ranked.contains(i));
        let p = choose|p: int| 0 <= p < ranked.len() && ranked[p] == i;
        ranked.lemma_filter_contains(keep, p);
    }
    if matches.contains(i) {
        let k = choose|k: int| 0 <= k < matches.len() && matches[k] == i;
        ranked.lemma_filter_pred(keep, k);
        ranked.lemma_filter_contains_rev(keep, i);
    }
}

} // verus!
