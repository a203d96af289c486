//! What the configuration, the renderer commands, the views of a file and the mouse promise.

use crate::config::{
    decimal_text_of, digits, effective, effective_editor, effective_renderers, Caps, Config,
    EffectiveSettings, TreeIcons, TreePosition,
};
use crate::controller::infile::{all_digits, digit_value, value_of};
use crate::controller::state::Preferences;
use crate::pointer::{double_click, offset_at, Click};
use crate::renderers::{
    plan_render, runs_delta, side_by_side, with_option, with_width, words, words_from, RenderPlan,
    Renderers,
};
use crate::text::{decimal, digit, texts, white_space};
use crate::view_policy::{mode_after, opening_mode, DiffRenderMode, ViewMode};
use vstd::prelude::*;

verus! {

/// A number that is configured within its bounds is taken as it is.
pub proof fn configured_numbers_are_taken(
    settings: EffectiveSettings,
    config: Config,
    editor: Option<String>,
    check_off: bool,
    n: u32,
)
    requires
        effective(settings, config, editor, check_off),
    ensures
        config.scroll_lines == Some(n) && 1 <= n <= 10 ==> settings.scroll_lines == n,
        config.tree_width == Some(n) && 20 <= n <= 80 ==> settings.tree_width == n,
        config.tree_max_cols == Some(n) && 10 <= n <= 1000 ==> settings.tree_max_cols == n,
        config.preview_max_lines == Some(n) && 100 <= n <= 100_000 ==> settings.preview_max_lines
            == n,
        config.preview_max_kib == Some(n) && 64 <= n <= 65_536 ==> settings.preview_max_kib == n,
        config.viewer_pane_ratio == Some(n) && 200_000 <= n <= 800_000
            ==> settings.viewer_pane_ratio.share() == n,
{
}

/// A number beyond its bounds is taken as the nearest bound.
pub proof fn excessive_numbers_are_bounded(
    settings: EffectiveSettings,
    config: Config,
    editor: Option<String>,
    check_off: bool,
    n: u32,
)
    requires
        effective(settings, config, editor, check_off),
    ensures
        config.scroll_lines == Some(n) && n > 10 ==> settings.scroll_lines == 10,
        config.scroll_lines == Some(n) && n < 1 ==> settings.scroll_lines == 1,
        config.tree_width == Some(n) && n > 80 ==> settings.tree_width == 80,
        config.tree_width == Some(n) && n < 20 ==> settings.tree_width == 20,
        config.tree_max_cols == Some(n) && n > 1000 ==> settings.tree_max_cols == 1000,
        config.tree_max_cols == Some(n) && n < 10 ==> settings.tree_max_cols == 10,
        config.preview_max_lines == Some(n) && n > 100_000 ==> settings.preview_max_lines
            == 100_000,
        config.preview_max_lines == Some(n) && n < 100 ==> settings.preview_max_lines == 100,
        config.preview_max_kib == Some(n) && n > 65_536 ==> settings.preview_max_kib == 65_536,
        config.preview_max_kib == Some(n) && n < 64 ==> settings.preview_max_kib == 64,
        config.viewer_pane_ratio == Some(n) && n > 800_000 ==> settings.viewer_pane_ratio.share()
            == 800_000,
        config.viewer_pane_ratio == Some(n) && n < 200_000 ==> settings.viewer_pane_ratio.share()
            == 200_000,
{
}

/// What is not configured has its default.
pub proof fn unset_settings_have_their_defaults(
    settings: EffectiveSettings,
    config: Config,
    check_off: bool,
)
    requires
        effective(settings, config, None, check_off),
        config.unset(),
    ensures
        settings.editor is None,
        settings.markdown is None && settings.diff is None && settings.syntax is None,
        settings.open is None && settings.reveal is None,
        !settings.hide_dotfiles,
        settings.update_check == !check_off,
        settings.confirm_discard,
        settings.open_workspace_with_viewer,
        settings.viewer_pane_ratio.share() == 200_000,
        settings.scroll_lines == 3,
        settings.tree_width == 30,
        settings.tree_position == TreePosition::Left,
        settings.tree_max_cols == 30,
        settings.file_icons == TreeIcons::Unicode,
        settings.preview_max_lines == 10_000,
        settings.preview_max_kib == 1024,
{
}

/// The configuration goes before the environment, and the environment before the platform.
pub proof fn the_configured_editor_comes_first(
    settings: EffectiveSettings,
    config: Config,
    editor: Option<String>,
    check_off: bool,
    platform: Option<String>,
    chosen: Option<String>,
)
    requires
        effective(settings, config, editor, check_off),
        call_ensures(effective_editor, (&settings, platform), chosen),
    ensures
        config.editor is Some ==> chosen == config.editor,
        config.editor is None && (editor matches Some(name) && name@.len() > 0) ==> chosen
            == editor,
        config.editor is None && (editor matches Some(name) ==> name@.len() == 0) ==> chosen
            == platform,
{
}

/// The check for a newer version runs as configured, whatever the environment says; otherwise the
/// environment can switch it off.
pub proof fn the_update_check_is_configured_first(
    settings: EffectiveSettings,
    config: Config,
    editor: Option<String>,
    check_off: bool,
)
    requires
        effective(settings, config, editor, check_off),
    ensures
        config.update_check matches Some(on) ==> settings.update_check == on,
        config.update_check is None ==> settings.update_check != check_off,
        config.hide_dotfiles matches Some(hidden) ==> settings.hide_dotfiles == hidden,
        config.confirm_discard matches Some(asks) ==> settings.confirm_discard == asks,
        config.open_workspace_with_viewer matches Some(with_viewer)
            ==> settings.open_workspace_with_viewer == with_viewer,
{
}

/// A preview reads as many kibibytes as are set.
pub proof fn previews_are_capped_as_set(settings: EffectiveSettings, caps: Caps)
    requires
        call_ensures(EffectiveSettings::preview_caps, (&settings,), caps),
    ensures
        caps.max_lines == settings.preview_max_lines,
        caps.max_bytes == settings.preview_max_kib * 1024,
{
}

/// Commands that are not configured stay as they are; a configured one replaces its own and no
/// other. A configured diff command keeps what the full diff adds to the diff.
pub proof fn configured_commands_replace_their_own(
    settings: EffectiveSettings,
    base: Renderers,
    chosen: Renderers,
)
    requires
        call_ensures(effective_renderers, (&settings, &base), chosen),
    ensures
        chosen.timeout_ms == base.timeout_ms,
        settings.markdown is None ==> texts(chosen.markdown@) == texts(base.markdown@),
        settings.markdown matches Some(command) ==> texts(chosen.markdown@) == texts(command@),
        settings.syntax is None ==> texts(chosen.syntax@) == texts(base.syntax@),
        settings.syntax matches Some(command) ==> texts(chosen.syntax@) == texts(command@),
        settings.diff is None ==> texts(chosen.diff@) == texts(base.diff@) && texts(
            chosen.full_diff@,
        ) == texts(base.full_diff@),
        settings.diff matches Some(command) ==> texts(chosen.diff@) == texts(command@),
        forall|added: Seq<Seq<char>>|
            settings.diff is Some && texts(base.full_diff@) == #[trigger] (texts(base.diff@) + added)
                ==> texts(chosen.full_diff@) == texts(settings.diff->0@) + added,
{
    assert forall|added: Seq<Seq<char>>|
        settings.diff is Some && texts(base.full_diff@) == #[trigger] (texts(base.diff@)
            + added) implies texts(chosen.full_diff@) == texts(settings.diff->0@) + added by {
        let (diff, full) = (base@.diff, base@.full_diff);
        assert(full == diff + added);
        assert(diff.is_prefix_of(full)) by {
            assert(full.subrange(0, diff.len() as int) =~= diff);
        }
        assert(full.skip(diff.len() as int) =~= added);
    }
}

/// The settings reach the session as they are.
pub proof fn the_session_takes_the_settings(prefs: Preferences, settings: EffectiveSettings)
    requires
        1 <= settings.scroll_lines,
        20 <= settings.tree_width <= 80,
        10 <= settings.tree_max_cols,
    ensures
        ({
            let chosen = prefs.set_by(settings);
            &&& chosen.wheel_step == settings.scroll_lines
            &&& chosen.split_pct == settings.tree_width
            &&& chosen.tree_max_cols == settings.tree_max_cols
            &&& chosen.tree_position == settings.tree_position
            &&& chosen.tree_icons == settings.file_icons
            &&& chosen.confirm_discard == settings.confirm_discard
            &&& chosen.open_workspace_with_viewer == settings.open_workspace_with_viewer
            &&& chosen.viewer_pane_ratio == settings.viewer_pane_ratio
            &&& chosen.pinned == prefs.pinned && chosen.baseline == prefs.baseline
            &&& chosen.show_ignored == prefs.show_ignored && chosen.changed_only == prefs.changed_only
        }),
{
}

/// Ten to the power of `k`.
spec fn power_of_ten(k: nat) -> nat
    decreases k,
{
    if k == 0 {
        1
    } else {
        10 * power_of_ten((k - 1) as nat)
    }
}

/// The last digits of a number that has no more stand for it.
proof fn lemma_digits(n: nat, k: nat)
    requires
        n < power_of_ten(k),
    ensures
        digits(n, k).len() == k,
        all_digits(digits(n, k)),
        value_of(digits(n, k)) == n,
    decreases k,
{
    if k > 0 {
        let p = power_of_ten((k - 1) as nat);
        assert(n / 10 < p);
        lemma_digits(n / 10, (k - 1) as nat);
        let (head, last) = (digits(n / 10, (k - 1) as nat), digit(n % 10));
        assert(digits(n, k) == head.push(last));
        assert(digits(n, k).drop_last() =~= head);
        assert(digit_value(last) == n % 10);
        assert forall|i: int| 0 <= i < digits(n, k).len() implies #[trigger] digit_value(
            digits(n, k)[i],
        ) >= 0 by {
            if i < head.len() {
                assert(digit_value(head[i]) >= 0);
            }
        }
    }
}

/// A share of a pane is written as a zero, a dot and six digits that stand for its millionths.
pub proof fn shares_are_written_in_millionths(units: nat)
    requires
        units < 1_000_000,
    ensures
        decimal_text_of(units).len() == 8,
        decimal_text_of(units).take(2) == seq!['0', '.'],
        value_of(decimal_text_of(units).skip(2)) == units,
{
    reveal_with_fuel(power_of_ten, 7);
    lemma_digits(units, 6);
    assert(decimal(0) == seq![digit(0)]);
    assert(digit(0) == '0');
    assert(units / 1_000_000 == 0 && units % 1_000_000 == units);
    let text = decimal_text_of(units);
    assert(text =~= seq!['0', '.'] + digits(units, 6));
    assert(text.take(2) =~= seq!['0', '.']);
    assert(text.skip(2) =~= digits(units, 6));
}

/// A plain character: neither white space nor a quote.
spec fn plain(c: char) -> bool {
    !white_space(c) && c != '"'
}

/// Plain characters continue the word that has been started.
proof fn lemma_plain_run(line: Seq<char>, i: int, n: int, started: Seq<char>)
    requires
        0 <= i <= n <= line.len(),
        forall|k: int| i <= k < n ==> plain(#[trigger] line[k]),
    ensures
        words_from(line, i, Some(started), false) == words_from(
            line,
            n,
            Some(started + line.subrange(i, n)),
            false,
        ),
    decreases n - i,
{
    if i < n {
        assert(plain(line[i]));
        lemma_plain_run(line, i + 1, n, started.push(line[i]));
        assert(started.push(line[i]) + line.subrange(i + 1, n) =~= started + line.subrange(i, n));
    } else {
        assert(started + line.subrange(i, n) =~= started);
    }
}

/// What follows in a line is read as it is alone.
proof fn lemma_words_shift(
    head: Seq<char>,
    line: Seq<char>,
    i: int,
    word: Option<Seq<char>>,
    quoted: bool,
)
    requires
        0 <= i <= line.len(),
    ensures
        words_from(head + line, head.len() + i, word, quoted) == words_from(line, i, word, quoted),
    decreases line.len() - i,
{
    if i < line.len() {
        let all = head + line;
        assert(all[head.len() + i] == line[i]);
        let started = match word {
            Some(w) => w,
            None => Seq::empty(),
        };
        lemma_words_shift(head, line, i + 1, Some(started), !quoted);
        lemma_words_shift(head, line, i + 1, None, false);
        lemma_words_shift(head, line, i + 1, Some(started.push(line[i])), quoted);
    }
}

/// A command line is read word by word: a word without white space and quotes in front of a space
/// is its first word, and the rest of the line has the others.
pub proof fn commands_are_read_word_by_word(word: Seq<char>, line: Seq<char>)
    requires
        word.len() > 0,
        forall|k: int|
            0 <= k < word.len() ==> !white_space(#[trigger] word[k]) && word[k] != '"',
    ensures
        words(word) == seq![word],
        words(word + seq![' '] + line) == seq![word] + words(line),
{
    assert forall|k: int| 0 <= k < word.len() implies plain(#[trigger] word[k]) by {}
    assert(plain(word[0]));
    let none = Seq::<char>::empty();
    lemma_plain_run(word, 1, word.len() as int, none.push(word[0]));
    assert(none.push(word[0]) + word.subrange(1, word.len() as int) =~= word);
    assert(words_from(word, 0, None, false) == words_from(word, 1, Some(none.push(word[0])), false));
    let all = word + seq![' '] + line;
    assert forall|k: int| 0 <= k < word.len() implies plain(#[trigger] all[k]) by {
        assert(all[k] == word[k]);
    }
    assert(plain(all[0]));
    let n = word.len() as int;
    lemma_plain_run(all, 1, n, none.push(all[0]));
    assert(none.push(all[0]) + all.subrange(1, n) =~= word);
    assert(words_from(all, 0, None, false) == words_from(all, 1, Some(none.push(all[0])), false));
    assert(all[n] == ' ');
    assert(white_space(' '));
    let head = word + seq![' '];
    assert(all =~= head + line);
    lemma_words_shift(head, line, 0, None, false);
}

/// Quotes keep white space in a word, and do not belong to it.
pub proof fn quoted_words_keep_their_spaces(word: Seq<char>)
    requires
        forall|k: int| 0 <= k < word.len() ==> (#[trigger] word[k]) != '"',
    ensures
        words(seq!['"'] + word + seq!['"']) == seq![word],
{
    let line = seq!['"'] + word + seq!['"'];
    assert(line[0] == '"');
    lemma_quoted_run(line, 1, word.len() as int + 1, Seq::empty());
    assert(Seq::<char>::empty() + line.subrange(1, word.len() as int + 1) =~= word);
    assert(line[word.len() as int + 1] == '"');
    reveal_with_fuel(words_from, 3);
}

/// In quotes every other character continues the word.
proof fn lemma_quoted_run(line: Seq<char>, i: int, n: int, started: Seq<char>)
    requires
        1 <= i <= n < line.len(),
        forall|k: int| 1 <= k < n ==> (#[trigger] line[k]) != '"',
    ensures
        words_from(line, i, Some(started), true) == words_from(
            line,
            n,
            Some(started + line.subrange(i, n)),
            true,
        ),
    decreases n - i,
{
    if i < n {
        assert(line[i] != '"');
        lemma_quoted_run(line, i + 1, n, started.push(line[i]));
        assert(started.push(line[i]) + line.subrange(i + 1, n) =~= started + line.subrange(i, n));
    } else {
        assert(started + line.subrange(i, n) =~= started);
    }
}

/// An option is added before a final `-`, which stays the last argument, and behind everything
/// where there is none.
pub proof fn options_go_before_standard_input(command: Seq<Seq<char>>, flag: Seq<char>)
    requires
        !command.contains(flag),
    ensures
        command.len() > 0 && command.last() == "-"@ ==> with_option(command, flag, None, None)
            == command.drop_last() + seq![flag, "-"@],
        !command.contains("-"@) ==> with_option(command, flag, None, None) == command.push(flag),
{
    if command.len() > 0 && command.last() == "-"@ {
        reveal_with_fuel(crate::renderers::last_before, 2);
        assert(command.take(command.len() - 1) + seq![flag] + command.skip(command.len() - 1)
            =~= command.drop_last() + seq![flag, "-"@]);
    }
    if !command.contains("-"@) {
        lemma_not_last(command, "-"@, command.len() as int);
        assert(command.take(command.len() as int) + seq![flag] + command.skip(command.len() as int)
            =~= command.push(flag));
    }
}

/// An argument that is not there has no last place.
proof fn lemma_not_last(command: Seq<Seq<char>>, arg: Seq<char>, n: int)
    requires
        0 <= n <= command.len(),
        !command.contains(arg),
    ensures
        crate::renderers::last_before(command, arg, n) == command.len(),
    decreases n,
{
    if n > 0 {
        assert(command.contains(command[n - 1]));
        lemma_not_last(command, arg, n - 1);
    }
}

/// The value behind `-w` is replaced by another width; a command without the option gets it.
pub proof fn widths_replace_each_other(command: Seq<Seq<char>>, w: nat)
    requires
        !command.contains("-w"@),
        !command.contains("-"@),
    ensures
        with_width(command, w as int) == command + seq!["-w"@, decimal(w)],
        with_width(command + seq!["-w"@, "0"@], w as int) == command + seq!["-w"@, decimal(w)],
{
    lemma_not_last(command, "-w"@, command.len() as int);
    lemma_not_last(command, "-"@, command.len() as int);
    assert(command.take(command.len() as int) + seq!["-w"@, decimal(w)] + command.skip(
        command.len() as int,
    ) =~= command + seq!["-w"@, decimal(w)]);
    let sized = command + seq!["-w"@, "0"@];
    reveal_strlit("-w");
    reveal_strlit("0");
    assert("-w"@.len() == 2 && "0"@.len() == 1);
    assert(sized[command.len() as int] == "-w"@);
    assert(sized[command.len() as int + 1] == "0"@);
    reveal_with_fuel(crate::renderers::last_before, 3);
    assert(crate::renderers::last_index(sized, "-w"@) == command.len());
    assert(sized.update(command.len() as int + 1, decimal(w)) =~= command + seq![
        "-w"@,
        decimal(w),
    ]);
}

/// Raw diffs are the only ones that no command renders; every other view is delegated.
pub proof fn only_raw_diffs_are_not_rendered(
    renderers: Renderers,
    mode: ViewMode,
    wrap_width: Option<u16>,
    pane_width: Option<u16>,
    diff_mode: DiffRenderMode,
    plan: RenderPlan,
)
    requires
        call_ensures(plan_render, (&renderers, mode, wrap_width, pane_width, diff_mode), plan),
    ensures
        plan is RawDiff <==> (mode == ViewMode::Diff || mode == ViewMode::FullDiff) && diff_mode
            == DiffRenderMode::Raw,
        mode == ViewMode::SyntaxContent ==> (plan matches RenderPlan::Delegate(chosen) && chosen@
            == renderers@),
        mode == ViewMode::RenderedMarkdown && wrap_width is None ==> (
        plan matches RenderPlan::Delegate(chosen) && chosen@ == renderers@),
        (mode == ViewMode::RenderedMarkdown && wrap_width is Some && wrap_width->0 > 0) ==> (
        plan matches RenderPlan::Delegate(chosen) && chosen@.markdown == with_width(
            renderers@.markdown,
            wrap_width->0 as int,
        ) && chosen@.diff == renderers@.diff),
        (mode == ViewMode::Diff && diff_mode == DiffRenderMode::Delta && pane_width is None) ==> (
        plan matches RenderPlan::Delegate(chosen) && chosen@ == renderers@),
        (mode == ViewMode::Diff && diff_mode == DiffRenderMode::DeltaSideBySide && pane_width
            is None && runs_delta(renderers@.diff)) ==> (plan matches RenderPlan::Delegate(chosen)
            && chosen@.diff == side_by_side(renderers@.diff)),
        (mode == ViewMode::Diff && diff_mode == DiffRenderMode::Delta && pane_width is Some
            && pane_width->0 > 0 && runs_delta(renderers@.diff)) ==> (plan matches RenderPlan::Delegate(chosen)
            && chosen@.diff == with_width(renderers@.diff, pane_width->0 as int)),
{
}

/// Cycling leads through all views of a file and back to the first: the two diffs of a changed
/// file, the prose of a markdown file, and the source.
pub proof fn cycling_leads_through_every_view(prose: bool, changed: bool)
    ensures
        changed ==> opening_mode(prose, changed) == ViewMode::Diff,
        changed ==> mode_after(ViewMode::Diff, prose, changed) == ViewMode::FullDiff,
        changed && prose ==> mode_after(ViewMode::FullDiff, prose, changed)
            == ViewMode::RenderedMarkdown,
        changed && !prose ==> mode_after(ViewMode::FullDiff, prose, changed)
            == ViewMode::SyntaxContent,
        prose ==> mode_after(ViewMode::RenderedMarkdown, prose, changed)
            == ViewMode::SyntaxContent,
        mode_after(ViewMode::SyntaxContent, prose, changed) == opening_mode(prose, changed),
        !changed && prose ==> opening_mode(prose, changed) == ViewMode::RenderedMarkdown,
        !changed && !prose ==> opening_mode(prose, changed) == ViewMode::SyntaxContent,
{
}

/// The diffs are presented unified, side by side and raw, in this order.
pub proof fn presentations_come_in_order()
    ensures
        DiffRenderMode::Delta.following() == DiffRenderMode::DeltaSideBySide,
        DiffRenderMode::DeltaSideBySide.following() == DiffRenderMode::Raw,
        DiffRenderMode::Raw.following() == DiffRenderMode::Delta,
{
}

/// Two clicks on one row of one target within 400 milliseconds are a double click, whatever their
/// columns; later ones and those on another row are not.
pub proof fn soon_clicks_on_one_row_pair(click: Click, row: u16, now: u64)
    requires
        now >= click.at,
    ensures
        now - click.at <= 400 ==> double_click(Some(click), click.row, now, click.origin),
        now - click.at > 400 ==> !double_click(Some(click), click.row, now, click.origin),
        row != click.row ==> !double_click(Some(click), row, now, click.origin),
        !double_click(None, row, now, click.origin),
{
}

/// Further down a scrollbar never scrolls less, and no place on it scrolls past the end.
pub proof fn scrollbars_scroll_further_down(a: u16, b: u16, start: u16, len: u16, max: int)
    requires
        a <= b,
        max > 0,
        len > 1,
    ensures
        offset_at(a, start, len, max) is Some,
        offset_at(b, start, len, max) is Some,
        offset_at(a, start, len, max)->0 <= offset_at(b, start, len, max)->0,
        0 <= offset_at(a, start, len, max)->0,
        offset_at(b, start, len, max)->0 <= max,
{
    let span = len - 1;
    let (x, y) = (crate::pointer::along(a, start, len), crate::pointer::along(b, start, len));
    assert(0 <= x <= y <= span);
    assert(x * max <= y * max) by (nonlinear_arith)
        requires
            x <= y,
            max > 0,
    ;
    assert(0 <= x * max) by (nonlinear_arith)
        requires
            0 <= x,
            max > 0,
    ;
    assert(y * max <= span * max) by (nonlinear_arith)
        requires
            y <= span,
            max > 0,
    ;
    let h = span / 2;
    assert((x * max + h) / span <= (y * max + h) / span) by (nonlinear_arith)
        requires
            x * max <= y * max,
            span > 0,
    ;
    assert(0 <= (x * max + h) / span) by (nonlinear_arith)
        requires
            0 <= x * max,
            0 <= h,
            span > 0,
    ;
    assert((y * max + h) / span <= max) by (nonlinear_arith)
        requires
            y * max <= span * max,
            2 * h <= span,
            span > 0,
            max > 0,
    ;
}

} // verus!
