//! What reading, writing and showing texts promises.

use crate::controller::actions::{Effects, Run};
use crate::controller::content::Layout;
use crate::controller::events::{Event, Turn};
use crate::controller::render::names_markdown;
use crate::controller::state::{Controller, DiscardAction, Modal, Notice, PromptMode, SearchState};
use crate::controller::view::{standing, ViewState};
use crate::fuzzy::{basename, embeds, folded, hit};
use crate::paths::{extension_of, last_dot, name_of, name_start, DOT, SLASH};
use crate::selection::{
    gutter_width, padding, printable, sanitized, strip_line_gutter, LineSelectState,
};
use crate::text::{ascii_lower, decimal, digit, trim, trim_end, trim_start, white_space};
use crate::view_policy::ViewMode;
use vstd::prelude::*;

verus! {

/// A number is written with digits, so never starts with a space.
proof fn lemma_decimal_starts_with_a_digit(n: nat)
    ensures
        decimal(n).len() > 0,
        decimal(n)[0] != ' ',
    decreases n,
{
    if n >= 10 {
        lemma_decimal_starts_with_a_digit(n / 10);
        assert(decimal(n)[0] == decimal(n / 10)[0]);
    } else {
        assert(digit(n) != ' ');
    }
}

/// The spaces that a text starts with are counted.
proof fn lemma_spaces(text: Seq<char>, n: int)
    requires
        0 <= n < text.len(),
        forall|k: int| 0 <= k < n ==> (#[trigger] text[k]) == ' ',
        text[n] != ' ',
    ensures
        padding(text) == n,
    decreases n,
{
    if n > 0 {
        assert(text[0] == ' ');
        assert forall|k: int| 0 <= k < n - 1 implies (#[trigger] text.skip(1)[k]) == ' ' by {
            assert(text.skip(1)[k] == text[k + 1]);
        }
        lemma_spaces(text.skip(1), n - 1);
    }
}

/// A displayed line that starts with padding, its number and a bar is stripped of them, and nothing
/// else is taken from its text.
pub proof fn line_numbers_are_stripped(pad: Seq<char>, n: usize, code: Seq<char>, shown: &str, left: &str)
    requires
        forall|k: int| 0 <= k < pad.len() ==> (#[trigger] pad[k]) == ' ',
        shown@ == pad + decimal(n as nat) + seq![' ', '\u{2502}', ' '] + code,
        call_ensures(strip_line_gutter, (shown, n), left),
    ensures
        left@ == code,
{
    let number = decimal(n as nat);
    lemma_decimal_starts_with_a_digit(n as nat);
    let text = shown@;
    let end = pad.len() + number.len();
    assert forall|k: int| 0 <= k < pad.len() implies (#[trigger] text[k]) == ' ' by {
        assert(text[k] == pad[k]);
    }
    assert(text[pad.len() as int] == number[0]);
    lemma_spaces(text, pad.len() as int);
    assert(text.subrange(pad.len() as int, end as int) =~= number);
    assert(text[end as int] == ' ');
    assert(text[end as int + 1] == '\u{2502}');
    assert(text[end as int + 2] == ' ');
    assert(gutter_width(text, n as int) == end + 3);
    assert(text.skip(end as int + 3) =~= code);
}

/// A displayed line that starts with another text than its number has no gutter.
pub proof fn other_lines_have_no_gutter(text: Seq<char>, n: nat)
    requires
        text.len() > 0,
        text[0] != ' ',
        text[0] != decimal(n)[0],
    ensures
        gutter_width(text, n as int) == 0,
{
    lemma_decimal_starts_with_a_digit(n);
    let end = decimal(n).len() as int;
    if end <= text.len() {
        assert(text.subrange(0, end)[0] == text[0]);
    }
}

/// What is copied from lines keeps every character that can be seen, and tabs; other control
/// characters are dropped.
pub proof fn copied_text_keeps_what_is_seen(text: Seq<char>, c: char)
    ensures
        c == '\t' ==> printable(text.push(c)) == printable(text).push(c),
        ' ' <= c < '\u{7f}' ==> printable(text.push(c)) == printable(text).push(c),
        c >= '\u{a0}' ==> printable(text.push(c)) == printable(text).push(c),
        c < ' ' && c != '\t' ==> printable(text.push(c)) == printable(text),
        '\u{7f}' <= c < '\u{a0}' ==> printable(text.push(c)) == printable(text),
        printable(Seq::empty()).len() == 0,
{
    reveal(Seq::filter);
    assert(text.push(c).drop_last() =~= text);
    assert(text.push(c).last() == c);
}

/// What is copied in one line keeps every character that can be seen and drops the others, tabs
/// among them.
pub proof fn copied_names_keep_what_is_seen(text: Seq<char>, c: char)
    ensures
        ' ' <= c < '\u{7f}' ==> sanitized(text.push(c)) == sanitized(text).push(c),
        c >= '\u{a0}' ==> sanitized(text.push(c)) == sanitized(text).push(c),
        c < ' ' ==> sanitized(text.push(c)) == sanitized(text),
        '\u{7f}' <= c < '\u{a0}' ==> sanitized(text.push(c)) == sanitized(text),
        sanitized(Seq::empty()).len() == 0,
{
    reveal(Seq::filter);
    assert(text.push(c).drop_last() =~= text);
    assert(text.push(c).last() == c);
}

/// A trimmed text neither starts nor ends with white space, and a text that does not is left as it
/// is.
pub proof fn trimmed_texts_have_no_space_around_them(text: Seq<char>)
    ensures
        trim(text).len() > 0 ==> !white_space(trim(text)[0]) && !white_space(trim(text).last()),
        text.len() > 0 && !white_space(text[0]) && !white_space(text.last()) ==> trim(text)
            == text,
        trim(text).len() <= text.len(),
{
    lemma_trim_start(text);
    lemma_trim_end(trim_start(text));
}

/// What is left without the white space at the start.
proof fn lemma_trim_start(text: Seq<char>)
    ensures
        trim_start(text).len() > 0 ==> !white_space(trim_start(text)[0]),
        trim_start(text).len() <= text.len(),
    decreases text.len(),
{
    if text.len() > 0 && white_space(text[0]) {
        lemma_trim_start(text.skip(1));
    }
}

/// What is left without the white space at the end.
proof fn lemma_trim_end(text: Seq<char>)
    ensures
        trim_end(text).len() > 0 ==> !white_space(trim_end(text).last()) && trim_end(text)[0]
            == text[0],
        trim_end(text).len() <= text.len(),
    decreases text.len(),
{
    if text.len() > 0 && white_space(text.last()) {
        lemma_trim_end(text.drop_last());
    }
}

/// A text that holds the query in one piece is a hit, whatever the case of its letters.
pub proof fn substrings_are_hits(before: Seq<char>, found: Seq<char>, after: Seq<char>, query: Seq<char>)
    requires
        folded(found) == folded(query),
    ensures
        hit(query, before + found + after),
{
    let path = before + found + after;
    let (needle, haystack) = (folded(query), folded(path));
    assert(folded(found).len() == found.len());
    let at = Seq::new(needle.len(), |i: int| before.len() + i);
    assert forall|i: int| 0 <= i < at.len() implies 0 <= #[trigger] at[i] < haystack.len()
        && haystack[at[i]] == needle[i] by {
        assert(path[before.len() + i] == found[i]);
        assert(folded(found)[i] == ascii_lower(found[i]));
    }
    assert(embeds(needle, haystack, at));
}

/// A hit needs every character of the query: a query that is longer than the path is none.
pub proof fn longer_queries_are_no_hits(query: Seq<char>, path: Seq<char>)
    requires
        query.len() > path.len(),
    ensures
        !hit(query, path),
{
    if hit(query, path) {
        let at = choose|at: Seq<int>| embeds(folded(query), folded(path), at);
        lemma_places_grow(folded(query), folded(path), at, query.len() - 1);
    }
}

/// The places of a query's characters lie one behind another.
proof fn lemma_places_grow(needle: Seq<char>, haystack: Seq<char>, at: Seq<int>, i: int)
    requires
        embeds(needle, haystack, at),
        0 <= i < at.len(),
    ensures
        at[i] >= i,
    decreases i,
{
    if i > 0 {
        lemma_places_grow(needle, haystack, at, i - 1);
        assert(at[i - 1] < at[i]);
    }
}

/// The basename of a path is what follows its last slash.
pub proof fn basenames_follow_the_last_slash(dir: Seq<char>, name: Seq<char>)
    requires
        forall|k: int| 0 <= k < name.len() ==> (#[trigger] name[k]) != '/',
    ensures
        basename(dir.push('/') + name) == name,
        basename(name) == name,
    decreases name.len(),
{
    if name.len() > 0 {
        let less = name.drop_last();
        assert forall|k: int| 0 <= k < less.len() implies (#[trigger] less[k]) != '/' by {
            assert(less[k] == name[k]);
        }
        basenames_follow_the_last_slash(dir, less);
        let path = dir.push('/') + name;
        assert(path.drop_last() =~= dir.push('/') + less);
        assert(path.last() == name.last());
        assert(name.last() != '/');
        assert(less.push(name.last()) =~= name);
    } else {
        let path = dir.push('/') + name;
        assert(path =~= dir.push('/'));
        assert(path.last() == '/');
        assert(name =~= Seq::<char>::empty());
    }
}

/// A file whose name ends in `.md` is markdown, in capitals too; a file without a dot is not.
pub proof fn markdown_is_told_by_the_extension(dir: Seq<u8>, stem: Seq<u8>)
    requires
        stem.len() > 0,
        forall|k: int| 0 <= k < stem.len() ==> (#[trigger] stem[k]) != SLASH && stem[k] != DOT,
    ensures
        names_markdown(dir.push(SLASH) + stem + seq![0x2eu8, 0x6du8, 0x64u8]),
        names_markdown(dir.push(SLASH) + stem + seq![0x2eu8, 0x4du8, 0x44u8]),
        !names_markdown(dir.push(SLASH) + stem),
        !names_markdown(dir.push(SLASH) + stem + seq![0x2eu8, 0x72u8, 0x73u8]),
{
    lemma_extension(dir, stem, 0x6d, 0x64);
    lemma_extension(dir, stem, 0x4d, 0x44);
    lemma_extension(dir, stem, 0x72, 0x73);
    let lower = |b: u8| crate::controller::render::lower_byte(b);
    assert(seq![0x6du8, 0x64u8].map_values(lower) =~= crate::controller::render::md());
    assert(seq![0x4du8, 0x44u8].map_values(lower) =~= crate::controller::render::md());
    let rs = seq![0x72u8, 0x73u8].map_values(lower);
    assert(rs[0] == 0x72u8 && rs.len() == 2);
    assert(crate::controller::render::md()[0] == 0x6du8);
    assert(crate::controller::render::markdown().len() == 8);
    let path = dir.push(SLASH) + stem;
    lemma_name(dir, stem);
    lemma_no_dot(stem);
}

/// The name behind the last slash.
proof fn lemma_name(dir: Seq<u8>, name: Seq<u8>)
    requires
        forall|k: int| 0 <= k < name.len() ==> (#[trigger] name[k]) != SLASH,
    ensures
        name_of(dir.push(SLASH) + name) == name,
{
    let path = dir.push(SLASH) + name;
    crate::paths::lemma_name_start(path);
    let at = dir.len() + 1;
    assert(path[at - 1] == SLASH);
    assert forall|k: int| at <= k < path.len() implies path[k] != SLASH by {
        assert(path[k] == name[k - at]);
    }
    let start = name_start(path);
    if start < at {
        assert(path[at - 1] != SLASH);
    } else if start > at {
        assert(path[start - 1] == SLASH);
    }
    assert(path.skip(at as int) =~= name);
}

/// A name without a dot has no last one.
proof fn lemma_no_dot(name: Seq<u8>)
    requires
        forall|k: int| 0 <= k < name.len() ==> (#[trigger] name[k]) != DOT,
    ensures
        last_dot(name) == -1,
    decreases name.len(),
{
    if name.len() > 0 {
        assert(name.last() != DOT);
        assert forall|k: int| 0 <= k < name.drop_last().len() implies (
        #[trigger] name.drop_last()[k]) != DOT by {
            assert(name.drop_last()[k] == name[k]);
        }
        lemma_no_dot(name.drop_last());
    }
}

/// Two letters behind a dot are the extension.
proof fn lemma_extension(dir: Seq<u8>, stem: Seq<u8>, a: u8, b: u8)
    requires
        stem.len() > 0,
        forall|k: int| 0 <= k < stem.len() ==> (#[trigger] stem[k]) != SLASH && stem[k] != DOT,
        a != SLASH && a != DOT && b != SLASH && b != DOT,
    ensures
        extension_of(dir.push(SLASH) + stem + seq![DOT, a, b]) == Some(seq![a, b]),
        extension_of(dir.push(SLASH) + stem) is None,
{
    let name = stem + seq![DOT, a, b];
    assert(dir.push(SLASH) + stem + seq![DOT, a, b] =~= dir.push(SLASH) + name);
    assert forall|k: int| 0 <= k < name.len() implies (#[trigger] name[k]) != SLASH by {
        if k < stem.len() {
            assert(name[k] == stem[k]);
        }
    }
    lemma_name(dir, name);
    lemma_name(dir, stem);
    lemma_no_dot(stem);
    reveal_with_fuel(last_dot, 4);
    assert(name.last() == b);
    assert(name.drop_last().last() == a);
    assert(name.drop_last().drop_last().last() == DOT);
    assert(last_dot(name) == stem.len());
    assert(name.skip(stem.len() as int + 1) =~= seq![a, b]);
    assert(name.len() >= 4);
}

/// What is drawn is the state of the session, field by field.
pub proof fn the_screen_shows_the_session(state: Controller, layout: Layout, view: ViewState)
    requires
        call_ensures(Controller::view_state, (&state, &layout), view),
    ensures
        *view.nodes == state.tree.nodes,
        view.selected == state.tree.cursor,
        *view.content == state.pane.body,
        view.focus == state.nav.focus,
        view.width == state.screen.width,
        view.content_scroll == state.nav.content_scroll,
        view.content_hscroll == state.nav.content_hscroll,
        view.tree_scroll == state.nav.tree_scroll,
        view.tree_hscroll == state.nav.tree_hscroll,
        view.tree_follow_selection == state.nav.tree_follow_selection,
        view.zoomed == state.nav.zoomed,
        view.pinned == state.prefs.pinned,
        view.split_pct == state.prefs.split_pct,
        view.split_manual == state.prefs.split_manual,
        view.tree_position == state.prefs.tree_position,
        view.tree_max_cols == state.prefs.tree_max_cols,
        view.tree_icons == state.prefs.tree_icons,
        view.branch == state.repo.branch,
        view.annotation_count == state.annotations.listed().len(),
        view.wrap == state.wraps(),
        state.pane.path matches Some(path) ==> (view.content_pad_left <==> state.mode_of(path@)
            != ViewMode::SyntaxContent),
        state.pane.path is None ==> !view.content_pad_left && view.content_title is None,
        view.content_rendering <==> state.pane.body is Rendering,
        state.update.dismissed ==> view.update_banner is None,
        !state.update.dismissed ==> view.update_banner == state.update.available,
{
}

/// What is marked on the screen is what is selected: lines in order, characters only where there
/// are any, and the launched range while nothing else is.
pub proof fn the_screen_marks_the_selection(state: Controller, layout: Layout, view: ViewState)
    requires
        call_ensures(Controller::view_state, (&state, &layout), view),
    ensures
        state.modal matches Modal::LineSelect(s) ==> (view.line_select matches Some(v) && v.marker
            == s.marker && v.start <= v.end && (v.start == s.anchor && v.end == s.marker || v.start
            == s.marker && v.end == s.anchor) && !v.passive && (v.char_sel is Some
            <==> s.char_mode)),
        (!(state.modal is LineSelect) && state.pane.range_flash is Some) ==> (
        view.line_select matches Some(v) && v.passive && v.start == state.pane.range_flash->0.start
            && v.end == state.pane.range_flash->0.end),
        !(state.modal is LineSelect) && state.pane.range_flash is None ==> view.line_select is None,
        state.pane.selection is None ==> view.content_selection is None,
        state.pane.selection matches Some(s) ==> (view.content_selection is Some <==> (s.anchor
            != s.marker || s.anchor_col != s.marker_col)),
        state.pane.search is Some <==> view.search is Some,
        (state.pane.search is Some && view.search is Some) ==> *view.search->0.matches
            == state.pane.search->0.matches && view.search->0.current
            == state.pane.search->0.current,
{
}

/// The bottom line shows what is typed, behind what it is typed for, and the standing of a search.
pub proof fn the_bottom_line_shows_what_is_typed(state: Controller)
    ensures
        (state.modal matches Modal::Prompt(p) && p.mode == PromptMode::GoToLine)
            ==> state.bottom_text() == Some("Go to line: "@ + state.modal->Prompt_0.input.text()),
        state.modal is Closed && state.pane.search is None ==> state.bottom_text() is None,
        state.modal is Closed && state.pane.search is Some ==> state.bottom_text() is Some,
        (state.modal matches Modal::Prompt(p) && p.mode == PromptMode::Search
            && p.input.text().len() > 0 && (state.pane.search matches Some(s) && s.matches@.len()
            > 0)) ==> state.bottom_text() == Some(
            "Search: "@ + state.modal->Prompt_0.input.text() + (" ("@ + standing(
                state.pane.search->0,
            ) + ")"@),
        ),
{
}

/// Matches are counted from one.
pub proof fn matches_are_counted_from_one(search: SearchState)
    requires
        search.current < search.matches@.len(),
    ensures
        standing(search) == decimal((search.current + 1) as nat) + "/"@ + decimal(
            search.matches@.len(),
        ),
{
    let len: usize = search.matches.len();
    assert(len == search.matches@.len());
}

/// One thing is told of in the singular, and several in the plural; lines are named by their
/// numbers.
pub proof fn notices_count_correctly(count: usize, start: usize, end: usize)
    ensures
        Notice::AnnotationsCopied(1).message() == "Copied "@ + decimal(1) + " annotation"@ + ""@,
        count != 1 ==> Notice::AnnotationsCopied(count).message() == "Copied "@ + decimal(
            count as nat,
        ) + " annotation"@ + "s"@,
        Notice::LinesCopied(start, start).message() == "Copied "@ + ("line "@ + decimal(
            start as nat,
        )),
        start != end ==> Notice::LinesCopied(start, end).message() == "Copied "@ + ("lines "@
            + decimal(start as nat) + "-"@ + decimal(end as nat)),
{
}

/// A key counts once, when it goes down; another size and only that is drawn anew; what is of no
/// concern changes nothing.
pub proof fn events_count_once(r: Run, event: Event, layout: Layout, now: u64)
    requires
        Controller::event_taken(r, event, layout, now),
    ensures
        (event matches Event::Key { key, pressed, bound } && !pressed) ==> r.to == r.from && r.after
            == r.before && !r.effects.redraw,
        event is Resize ==> r.to == r.from && r.after == r.before && r.effects.redraw,
        event is FocusLost || event is Other ==> r.to == r.from && r.after == r.before
            && !r.effects.redraw && !r.effects.quit,
{
}

/// The screen is drawn when something asked for it, cleared when that was asked for, and the
/// session ends when it was.
pub proof fn effects_reach_the_screen(turn: Turn, effects: Effects)
    ensures
        turn.with(effects).dirty <==> turn.dirty || effects.redraw || effects.clear,
        turn.with(effects).clear <==> turn.clear || effects.clear,
        turn.with(effects).quit <==> turn.quit || effects.quit,
{
}

/// A hint is bright until it dims and shown until its time is over; the launched range is
/// highlighted until its own is.
pub proof fn hints_fade_in_time(state: Controller, now: u64)
    ensures
        state.flash matches Some(flash) ==> {
            &&& now < flash.dim_at && now < flash.deadline ==> (state.aged(
                now,
            ).flash matches Some(f) && !f.dim && f.mode == flash.mode)
            &&& flash.dim_at <= now < flash.deadline ==> (state.aged(now).flash matches Some(f)
                && f.dim && f.mode == flash.mode)
            &&& now >= flash.deadline ==> state.aged(now).flash is None
        },
        state.pane.range_flash matches Some(flash) ==> {
            &&& now < flash.deadline ==> state.aged(now).pane.range_flash == state.pane.range_flash
            &&& now >= flash.deadline ==> state.aged(now).pane.range_flash is None
        },
        state.aged(now).tree == state.tree && state.aged(now).nav == state.nav,
{
}

/// A selection that is dragged covers what lies between its ends, in either direction; moved by
/// lines it covers whole lines.
pub proof fn selections_lie_between_their_ends(s: LineSelectState, line: usize, col: usize, last: usize)
    requires
        1 <= line <= last,
    ensures
        LineSelectState::at_caret(line, col, last).caret_span() == ((line, col), (line, col)),
        ({
            let d = s.dragged(line, col, last);
            let (lo, hi) = d.caret_span();
            &&& lo == (s.anchor, s.anchor_col) && hi == (line, col) || lo == (line, col) && hi == (
                s.anchor,
                s.anchor_col,
            )
            &&& lo.0 < hi.0 || lo.0 == hi.0 && lo.1 <= hi.1
            &&& d.char_mode
        }),
        s.moved(line, last).line_span() == (line, line),
        ({
            let (lo, hi) = s.extended(line, last).line_span();
            lo <= hi && (lo == s.anchor && hi == line || lo == line && hi == s.anchor)
        }),
{
}

/// The question about annotations names its key and what goes on.
pub proof fn questions_name_their_key(resolved: crate::controller::state::Resolved)
    ensures
        DiscardAction::Quit.verb_text() == "quit"@,
        DiscardAction::Quit.proceed_code() == crate::input::KeyCode::Char('q'),
        DiscardAction::SwitchRoot(resolved).verb_text() == "switch"@,
        DiscardAction::SwitchRoot(resolved).proceed_code() == crate::input::KeyCode::Enter,
{
}

} // verus!
