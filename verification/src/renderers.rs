//! The commands that external renderers are started with.

use crate::paths::{last_dot, name_of, ordinary, tidied, FilePath, DOT};
use crate::text::{
    chars_of, clone_all, decimal, decimal_text, is_white_space, same_text, strings, text_of, texts,
    white_space,
};
use crate::view_policy::{diff_view, is_diff_view, DiffRenderMode, ViewMode};
use vstd::prelude::*;
use vstd::slice::*;
use vstd::string::*;
use vstd::utf8::*;

verus! {

/// How long a renderer may take, in milliseconds.
pub const RENDER_TIMEOUT_MS: u64 = 5000;

/// The external renderer commands, each a program and its arguments. Every renderer reads the
/// content on its standard input.
#[derive(Debug)]
pub struct Renderers {
    pub markdown: Vec<String>,
    pub diff: Vec<String>,
    pub full_diff: Vec<String>,
    pub syntax: Vec<String>,
    pub timeout_ms: u64,
}

/// The renderer commands as texts.
pub struct RenderersView {
    pub markdown: Seq<Seq<char>>,
    pub diff: Seq<Seq<char>>,
    pub full_diff: Seq<Seq<char>>,
    pub syntax: Seq<Seq<char>>,
    pub timeout_ms: u64,
}

impl View for Renderers {
    type V = RenderersView;

    open spec fn view(&self) -> RenderersView {
        RenderersView {
            markdown: texts(self.markdown@),
            diff: texts(self.diff@),
            full_diff: texts(self.full_diff@),
            syntax: texts(self.syntax@),
            timeout_ms: self.timeout_ms,
        }
    }
}

/// The words of a command line from character `i` on, given the word that has been started.
/// White space separates words; a double quote starts or ends a part in which it does not.
pub open spec fn words_from(
    line: Seq<char>,
    i: int,
    word: Option<Seq<char>>,
    quoted: bool,
) -> Seq<Seq<char>>
    decreases line.len() - i,
{
    if i < 0 || i >= line.len() {
        match word {
            Some(w) => seq![w],
            None => Seq::empty(),
        }
    } else {
        let started = match word {
            Some(w) => w,
            None => Seq::empty(),
        };
        let c = line[i];
        if c == '"' {
            words_from(line, i + 1, Some(started), !quoted)
        } else if white_space(c) && !quoted {
            match word {
                Some(w) => seq![w] + words_from(line, i + 1, None, false),
                None => words_from(line, i + 1, None, false),
            }
        } else {
            words_from(line, i + 1, Some(started.push(c)), quoted)
        }
    }
}

/// The words of a command line.
pub open spec fn words(line: Seq<char>) -> Seq<Seq<char>> {
    words_from(line, 0, None, false)
}

/// Splits a command line into a program and its arguments. No shell is involved.
pub fn tokenize_command(line: &str) -> (r: Vec<String>)
    ensures
        texts(r@) == words(line@),
{
    let chars = chars_of(line);
    let mut out: Vec<String> = Vec::new();
    let mut word: Vec<char> = Vec::new();
    let mut started: bool = false;
    let mut quoted: bool = false;
    let ghost none: Option<Seq<char>> = None;
    assert(texts(out@) + words(line@) =~= words(line@));
    for i in 0..chars.len()
        invariant
            chars@ == line@,
            !started ==> word@.len() == 0 && !quoted,
            texts(out@) + words_from(
                line@,
                i as int,
                if started {
                    Some(word@)
                } else {
                    None
                },
                quoted,
            ) == words(line@),
    {
        let c = chars[i];
        let ghost before = out@;
        let ghost held = word@;
        assert(!started ==> word@ =~= Seq::empty());
        if c == '"' {
            started = true;
            quoted = !quoted;
        } else if is_white_space(c) && !quoted {
            if started {
                out.push(text_of(word.as_slice()));
                assert(texts(out@) =~= texts(before).push(held));
                word = Vec::new();
                started = false;
                assert(texts(out@) + words_from(line@, i + 1, None, false) =~= texts(before) + (seq![
                    held,
                ] + words_from(line@, i + 1, None, false)));
            }
        } else {
            word.push(c);
            started = true;
        }
    }
    if started {
        let ghost before = out@;
        out.push(text_of(word.as_slice()));
        assert(texts(out@) =~= texts(before) + seq![word@]);
    } else {
        assert(texts(out@) + Seq::empty() =~= texts(out@));
    }
    out
}

/// The name of a program without its directory and its extension.
pub open spec fn stem(program: Seq<u8>) -> Option<Seq<u8>> {
    let name = name_of(tidied(program));
    if !ordinary(name) {
        None
    } else if last_dot(name) <= 0 {
        Some(name)
    } else {
        Some(name.take(last_dot(name)))
    }
}

/// A byte with an ASCII letter in lower case.
pub open spec fn lower_byte(b: u8) -> u8 {
    if 65 <= b && b <= 90 {
        (b + 32) as u8
    } else {
        b
    }
}

/// Whether a program is called `delta`, whatever its directory, extension and case.
pub open spec fn named_delta(program: Seq<char>) -> bool {
    stem(encode_utf8(program)) matches Some(name) && name.map_values(|b: u8| lower_byte(b))
        == seq![100u8, 101u8, 108u8, 116u8, 97u8]
}

/// Whether a command starts delta itself.
pub open spec fn runs_delta(command: Seq<Seq<char>>) -> bool {
    command.len() > 0 && named_delta(command[0])
}

/// Tests whether a command starts delta itself; other tools and wrappers get no options of delta.
pub fn is_delta_renderer(command: &Vec<String>) -> (r: bool)
    ensures
        r == runs_delta(texts(command@)),
{
    if command.len() == 0 {
        return false;
    }
    assert(texts(command@)[0] == command@[0]@);
    let path = FilePath::of_text(command[0].as_str());
    let file = path.file_name();
    let name = file.as_bytes();
    if name.len() == 0 {
        return false;
    }
    let mut d: usize = name.len();
    assert(name@.take(d as int) =~= name@);
    while d > 0 && name[d - 1] != DOT
        invariant
            d <= name@.len(),
            last_dot(name@) == last_dot(name@.take(d as int)),
        decreases d,
    {
        assert(name@.take(d as int).drop_last() =~= name@.take(d - 1));
        d -= 1;
    }
    assert(last_dot(name@) == d - 1);
    let end: usize = if d <= 1 { name.len() } else { d - 1 };
    let ghost found = name@.take(end as int);
    let ghost folded = found.map_values(|b: u8| lower_byte(b));
    let ghost delta = seq![100u8, 101u8, 108u8, 116u8, 97u8];
    assert(name@ == seq![DOT, DOT] ==> end == 1);
    if end != 5 {
        assert(end == name@.len() ==> found =~= name@);
        assert(folded.len() != delta.len());
        return false;
    }
    assert(end == name@.len() ==> found =~= name@);
    assert(stem(encode_utf8(command@[0]@)) == Some(found));
    let r = (name[0] == 100 || name[0] == 68) && (name[1] == 101 || name[1] == 69) && (name[2]
        == 108 || name[2] == 76) && (name[3] == 116 || name[3] == 84) && (name[4] == 97 || name[4]
        == 65);
    assert(r ==> folded =~= delta);
    assert(!r ==> folded != delta) by {
        assert(folded[0] == lower_byte(name@[0]));
        assert(folded[1] == lower_byte(name@[1]));
        assert(folded[2] == lower_byte(name@[2]));
        assert(folded[3] == lower_byte(name@[3]));
        assert(folded[4] == lower_byte(name@[4]));
    }
    r
}

/// The index of the last argument equal to `arg`, the number of arguments without one.
pub open spec fn last_index(command: Seq<Seq<char>>, arg: Seq<char>) -> int
    decreases command.len(),
{
    last_before(command, arg, command.len() as int)
}

/// The index of the last of the first `n` arguments that equals `arg`, the number of arguments
/// without one.
pub open spec fn last_before(command: Seq<Seq<char>>, arg: Seq<char>, n: int) -> int
    decreases n,
{
    if n <= 0 {
        command.len() as int
    } else if command[n - 1] == arg {
        n - 1
    } else {
        last_before(command, arg, n - 1)
    }
}

/// Arguments inserted before a final `-`, or at the end.
pub open spec fn inserted(command: Seq<Seq<char>>, args: Seq<Seq<char>>) -> Seq<Seq<char>> {
    let at = last_index(command, "-"@);
    command.take(at) + args + command.skip(at)
}

/// A command with one more option, before a final `-` that stands for standard input, unless it
/// has that option already.
pub open spec fn with_option(
    command: Seq<Seq<char>>,
    flag: Seq<char>,
    value: Option<Seq<char>>,
    short: Option<Seq<char>>,
) -> Seq<Seq<char>> {
    if command.contains(flag) || (short matches Some(s) && command.contains(s)) {
        command
    } else {
        inserted(
            command,
            match value {
                Some(v) => seq![flag, v],
                None => seq![flag],
            },
        )
    }
}

/// The texts of a list of strings, one by one.
proof fn lemma_texts(list: Seq<String>)
    ensures
        texts(list).len() == list.len(),
        forall|i: int| 0 <= i < list.len() ==> #[trigger] texts(list)[i] == list[i]@,
{
}

/// Whether one of the arguments is `arg`.
fn has_arg(command: &Vec<String>, arg: &str) -> (r: bool)
    ensures
        r == texts(command@).contains(arg@),
{
    proof {
        lemma_texts(command@);
    }
    for i in 0..command.len()
        invariant
            forall|k: int| 0 <= k < i ==> #[trigger] command@[k]@ != arg@,
            texts(command@).len() == command@.len(),
            forall|k: int| 0 <= k < command@.len() ==> #[trigger] texts(command@)[k] == command@[k]@,
    {
        if same_text(command[i].as_str(), arg) {
            assert(texts(command@)[i as int] == arg@);
            return true;
        }
    }
    false
}

/// The index of the last argument equal to `arg`, the number of arguments without one.
fn last_arg(command: &Vec<String>, arg: &str) -> (r: usize)
    ensures
        r == last_index(texts(command@), arg@),
        r <= command@.len(),
{
    proof {
        lemma_texts(command@);
    }
    let mut n: usize = command.len();
    while n > 0 && !same_text(command[n - 1].as_str(), arg)
        invariant
            n <= command@.len(),
            texts(command@).len() == command@.len(),
            forall|k: int| 0 <= k < command@.len() ==> #[trigger] texts(command@)[k] == command@[k]@,
            last_index(texts(command@), arg@) == last_before(texts(command@), arg@, n as int),
        decreases n,
    {
        n -= 1;
    }
    if n == 0 {
        command.len()
    } else {
        n - 1
    }
}

/// Adds an option to a delta command, before a final `-`, unless it is there already in its long
/// or short form.
pub fn add_delta_option(
    command: &Vec<String>,
    flag: &str,
    value: Option<&str>,
    short: Option<&str>,
) -> (r: Vec<String>)
    ensures
        texts(r@) == with_option(
            texts(command@),
            flag@,
            crate::git::opt_text(value),
            crate::git::opt_text(short),
        ),
{
    let mut out = clone_all(command);
    if has_arg(command, flag) {
        return out;
    }
    match short {
        Some(s) => {
            if has_arg(command, s) {
                return out;
            }
        },
        None => {},
    }
    let at: usize = last_arg(command, "-");
    let ghost base = texts(command@);
    match value {
        Some(v) => {
            out.insert(at, v.to_owned());
        },
        None => {},
    }
    out.insert(at, flag.to_owned());
    proof {
        lemma_texts(command@);
        lemma_texts(out@);
        match value {
            Some(v) => {
                assert(texts(out@) =~= inserted(base, seq![flag@, v@]));
            },
            None => {
                assert(texts(out@) =~= inserted(base, seq![flag@]));
            },
        }
    }
    out
}

/// A command that shows old and new side by side: delta gets its options for that, any other tool
/// stays as it is.
pub open spec fn side_by_side(command: Seq<Seq<char>>) -> Seq<Seq<char>> {
    if runs_delta(command) {
        with_option(
            with_option(command, "--side-by-side"@, None, Some("-s"@)),
            "--wrap-right-percent"@,
            Some("1"@),
            None,
        )
    } else {
        command
    }
}

/// Builds the side-by-side form of a diff command.
pub fn side_by_side_renderer(command: &Vec<String>) -> (r: Vec<String>)
    ensures
        texts(r@) == side_by_side(texts(command@)),
{
    if !is_delta_renderer(command) {
        return clone_all(command);
    }
    let split = add_delta_option(command, "--side-by-side", None, Some("-s"));
    add_delta_option(&split, "--wrap-right-percent", Some("1"), None)
}

/// A command that lays its output out to a width: the value after `-w` is replaced, or the option
/// is added.
pub open spec fn with_width(command: Seq<Seq<char>>, width: int) -> Seq<Seq<char>> {
    let at = last_index(command, "-w"@);
    if at + 1 < command.len() {
        command.update(at + 1, decimal(width as nat))
    } else if at < command.len() {
        command.push(decimal(width as nat))
    } else {
        inserted(command, seq!["-w"@, decimal(width as nat)])
    }
}

/// Points a command's wrap width at `width`.
pub fn with_wrap_width(command: &Vec<String>, width: u16) -> (r: Vec<String>)
    ensures
        texts(r@) == with_width(texts(command@), width as int),
{
    let ghost base = texts(command@);
    let mut out = clone_all(command);
    let value = decimal_text(width as usize);
    let at: usize = last_arg(command, "-w");
    proof {
        lemma_texts(command@);
    }
    if at < command.len() && command.len() - at > 1 {
        out.set(at + 1, value);
        proof {
            lemma_texts(out@);
        }
        assert(texts(out@) =~= with_width(base, width as int));
        return out;
    }
    if at < command.len() {
        out.push(value);
        proof {
            lemma_texts(out@);
        }
        assert(texts(out@) =~= with_width(base, width as int));
        return out;
    }
    let end: usize = last_arg(command, "-");
    out.insert(end, value);
    out.insert(end, "-w".to_owned());
    proof {
        lemma_texts(out@);
    }
    assert(texts(out@) =~= with_width(base, width as int));
    out
}

impl Renderers {
    /// The same commands in a new value.
    pub fn duplicate(&self) -> (r: Self)
        ensures
            r@ == self@,
    {
        Renderers {
            markdown: clone_all(&self.markdown),
            diff: clone_all(&self.diff),
            full_diff: clone_all(&self.full_diff),
            syntax: clone_all(&self.syntax),
            timeout_ms: self.timeout_ms,
        }
    }
}

/// The built-in renderer commands; `style` is the markdown renderer's style.
pub open spec fn built_in(style: Seq<char>) -> RenderersView {
    RenderersView {
        markdown: seq!["glow"@, "-s"@, style, "-w"@, "0"@, "-"@],
        diff: seq!["delta"@],
        full_diff: seq!["delta"@, "--line-numbers"@],
        syntax: seq![
            "bat"@,
            "--color=always"@,
            "--style=numbers"@,
            "--paging=never"@,
            "--file-name={name}"@,
            "-"@,
        ],
        timeout_ms: RENDER_TIMEOUT_MS,
    }
}

/// The built-in renderer commands. Without a style of its own the markdown renderer gets its
/// `dark` style.
pub fn default_renderers(style: Option<&str>) -> (r: Renderers)
    ensures
        r@ == built_in(
            match style {
                Some(path) => path@,
                None => "dark"@,
            },
        ),
{
    let name = match style {
        Some(path) => path,
        None => "dark",
    };
    let r = Renderers {
        markdown: strings(vec!["glow", "-s", name, "-w", "0", "-"].as_slice()),
        diff: strings(vec!["delta"].as_slice()),
        full_diff: strings(vec!["delta", "--line-numbers"].as_slice()),
        syntax: strings(
            vec![
                "bat",
                "--color=always",
                "--style=numbers",
                "--paging=never",
                "--file-name={name}",
                "-",
            ].as_slice(),
        ),
        timeout_ms: RENDER_TIMEOUT_MS,
    };
    let ghost want = built_in(name@);
    assert(r@.markdown =~= want.markdown);
    assert(r@.diff =~= want.diff);
    assert(r@.full_diff =~= want.full_diff);
    assert(r@.syntax =~= want.syntax);
    r
}

/// How a view is produced.
#[derive(Debug)]
pub enum RenderPlan {
    /// The diff text as git printed it, without a renderer.
    RawDiff,
    /// The commands to use.
    Delegate(Renderers),
}

/// The commands with their diff forms for a presentation of diffs.
pub open spec fn presented(base: RenderersView, diff_mode: DiffRenderMode) -> RenderersView {
    if diff_mode == DiffRenderMode::DeltaSideBySide {
        RenderersView {
            diff: side_by_side(base.diff),
            full_diff: side_by_side(base.full_diff),
            ..base
        }
    } else {
        base
    }
}

/// A diff command laid out to a width, where it starts delta.
pub open spec fn sized_diff(command: Seq<Seq<char>>, width: int) -> Seq<Seq<char>> {
    if runs_delta(command) {
        with_width(command, width)
    } else {
        command
    }
}

/// The commands that a view delegates to. Markdown is laid out to the wrap width, where one is
/// known; a delta diff to the width of the pane.
pub open spec fn delegated(
    base: RenderersView,
    mode: ViewMode,
    wrap_width: Option<u16>,
    pane_width: Option<u16>,
    diff_mode: DiffRenderMode,
) -> RenderersView {
    if is_diff_view(mode) {
        let shown = presented(base, diff_mode);
        match pane_width {
            Some(w) if w > 0 => RenderersView {
                diff: sized_diff(shown.diff, w as int),
                full_diff: sized_diff(shown.full_diff, w as int),
                ..shown
            },
            _ => shown,
        }
    } else if mode == ViewMode::RenderedMarkdown {
        match wrap_width {
            Some(w) if w > 0 => RenderersView {
                markdown: with_width(base.markdown, w as int),
                ..base
            },
            _ => base,
        }
    } else {
        base
    }
}

/// Lays a diff command out to a width, where it starts delta.
fn size_diff(command: &Vec<String>, width: u16) -> (r: Vec<String>)
    ensures
        texts(r@) == sized_diff(texts(command@), width as int),
{
    if is_delta_renderer(command) {
        with_wrap_width(command, width)
    } else {
        clone_all(command)
    }
}

/// Chooses how a view is produced: a raw diff needs no renderer, every other view delegates to
/// the commands for its width and presentation.
pub fn plan_render(
    renderers: &Renderers,
    mode: ViewMode,
    wrap_width: Option<u16>,
    pane_width: Option<u16>,
    diff_mode: DiffRenderMode,
) -> (r: RenderPlan)
    ensures
        r is RawDiff <==> is_diff_view(mode) && diff_mode == DiffRenderMode::Raw,
        r matches RenderPlan::Delegate(commands) ==> commands@ == delegated(
            renderers@,
            mode,
            wrap_width,
            pane_width,
            diff_mode,
        ),
{
    if diff_view(mode) {
        if diff_mode == DiffRenderMode::Raw {
            return RenderPlan::RawDiff;
        }
        let mut commands = renderers.duplicate();
        if diff_mode == DiffRenderMode::DeltaSideBySide {
            commands.diff = side_by_side_renderer(&renderers.diff);
            commands.full_diff = side_by_side_renderer(&renderers.full_diff);
        }
        match pane_width {
            Some(w) => {
                if w > 0 {
                    commands.diff = size_diff(&commands.diff, w);
                    commands.full_diff = size_diff(&commands.full_diff, w);
                }
            },
            None => {},
        }
        return RenderPlan::Delegate(commands);
    }
    let mut commands = renderers.duplicate();
    match (mode, wrap_width) {
        (ViewMode::RenderedMarkdown, Some(w)) => {
            if w > 0 {
                commands.markdown = with_wrap_width(&renderers.markdown, w);
            }
        },
        _ => {},
    }
    RenderPlan::Delegate(commands)
}

/// The lines of a text, as `\n` or `\r\n` ends them. The last one needs no end, and then keeps a
/// `\r`.
pub open spec fn lines_of(text: Seq<char>) -> Seq<Seq<char>>
    decreases text.len(),
    via lines_of_decreases
{
    let n = line_length(text);
    if text.len() == 0 {
        Seq::empty()
    } else if n >= text.len() {
        seq![text]
    } else {
        seq![without_return(text.take(n))] + lines_of(text.skip(n + 1))
    }
}

#[via_fn]
proof fn lines_of_decreases(text: Seq<char>) {
    lemma_line_length(text, 0);
}

/// The number of characters before the first `\n`, all of them without one.
pub open spec fn line_length(text: Seq<char>) -> int
    decreases text.len(),
{
    if text.len() == 0 || text[0] == '\n' {
        0
    } else {
        1 + line_length(text.skip(1))
    }
}

/// A line without the `\r` at its end.
pub open spec fn without_return(line: Seq<char>) -> Seq<char> {
    if line.len() > 0 && line.last() == '\r' {
        line.drop_last()
    } else {
        line
    }
}

/// The length of a line that starts with `from` characters other than `\n`.
proof fn lemma_line_length(text: Seq<char>, from: int)
    requires
        0 <= from <= text.len(),
        forall|k: int| 0 <= k < from ==> text[k] != '\n',
    ensures
        from <= line_length(text) <= text.len(),
        from < text.len() && text[from] == '\n' ==> line_length(text) == from,
        from == text.len() ==> line_length(text) == from,
    decreases text.len(),
{
    if text.len() > 0 && text[0] != '\n' {
        let rest = text.skip(1);
        let next = if from > 0 {
            from - 1
        } else {
            0
        };
        assert forall|k: int| 0 <= k < next implies rest[k] != '\n' by {
            assert(rest[k] == text[k + 1]);
        }
        lemma_line_length(rest, next);
    }
}

/// The source lines that are kept beside what a view shows: the lines of the text, verbatim and in
/// order, for the source view, which alone shows one line per source line; nothing for another
/// view, and without a text.
pub fn source_lines(mode: ViewMode, text: Option<&str>) -> (r: Option<Vec<String>>)
    ensures
        r is Some <==> mode == ViewMode::SyntaxContent && text is Some,
        r matches Some(lines) ==> texts(lines@) == lines_of(text->0@),
{
    match text {
        Some(text) => {
            if mode == ViewMode::SyntaxContent {
                Some(split_lines(text))
            } else {
                None
            }
        },
        None => None,
    }
}

/// Splits a text into its lines.
fn split_lines(text: &str) -> (r: Vec<String>)
    ensures
        texts(r@) == lines_of(text@),
{
    let chars = chars_of(text);
    let mut out: Vec<String> = Vec::new();
    let mut from: usize = 0;
    let mut at: usize = 0;
    assert(chars@.skip(0) =~= chars@);
    assert(texts(out@) + lines_of(chars@) =~= lines_of(chars@));
    while at < chars.len()
        invariant
            from <= at <= chars@.len(),
            forall|k: int| from <= k < at ==> chars@[k] != '\n',
            texts(out@) + lines_of(chars@.skip(from as int)) == lines_of(chars@),
        decreases chars.len() - at,
    {
        if chars[at] == '\n' {
            let ghost rest = chars@.skip(from as int);
            proof {
                lemma_line_length(rest, at - from);
                assert(rest.take(at - from) =~= chars@.subrange(from as int, at as int));
                assert(rest.skip(at - from + 1) =~= chars@.skip(at + 1));
            }
            let end: usize = if at > from && chars[at - 1] == '\r' {
                at - 1
            } else {
                at
            };
            let line = text_of(slice_subrange(chars.as_slice(), from, end));
            assert(line@ =~= without_return(rest.take(at - from)));
            let ghost before = out@;
            out.push(line);
            assert(texts(out@) =~= texts(before).push(line@));
            assert(texts(out@) + lines_of(chars@.skip(at + 1)) =~= texts(before) + lines_of(rest));
            from = at + 1;
        }
        at += 1;
    }
    let ghost rest = chars@.skip(from as int);
    proof {
        lemma_line_length(rest, at - from);
    }
    let ghost before = out@;
    if at > from {
        let line = text_of(slice_subrange(chars.as_slice(), from, at));
        assert(line@ =~= rest);
        out.push(line);
        assert(texts(out@) =~= texts(before).push(line@));
    }
    assert(texts(out@) =~= texts(before) + lines_of(rest));
    out
}

/// Whether the file itself is read for a view: a diff is made of git's text alone.
pub fn reads_file(mode: ViewMode) -> (r: bool)
    ensures
        r == !is_diff_view(mode),
{
    !diff_view(mode)
}

/// Where the markdown style lies below an install directory.
pub open spec fn style_below(dir: Seq<u8>) -> Seq<u8> {
    crate::paths::joined(dir, crate::paths::text_path("assets/markdown-style.json"@))
}

/// The places that can hold the bundled markdown style: below the executable's path and each of
/// the directories above it, nearest first.
pub open spec fn style_places(exe: Seq<u8>) -> Seq<Seq<u8>>
    decreases exe.len(),
    via style_places_decreases
{
    seq![style_below(exe)] + match crate::paths::parent_of(exe) {
        Some(dir) => style_places(dir),
        None => Seq::empty(),
    }
}

#[via_fn]
proof fn style_places_decreases(exe: Seq<u8>) {
    lemma_parent_is_shorter(exe);
}

/// A directory's path is shorter than those of its entries.
proof fn lemma_parent_is_shorter(path: Seq<u8>)
    ensures
        crate::paths::parent_of(path) matches Some(dir) ==> dir.len() < path.len(),
{
    crate::paths::lemma_name_start(path);
    crate::paths::lemma_tidied(path.take(crate::paths::name_start(path)));
}

/// Lists the places that can hold the bundled markdown style, nearest first. They depend on the
/// executable's path alone, never on the working directory.
pub fn style_candidates(exe: &FilePath) -> (r: Vec<FilePath>)
    ensures
        crate::git::path_views(r@) == style_places(exe@),
{
    let asset = FilePath::of_text("assets/markdown-style.json");
    let mut out: Vec<FilePath> = Vec::new();
    let mut dir = exe.clone();
    let mut more: bool = true;
    assert(crate::git::path_views(out@) + style_places(dir@) =~= style_places(exe@));
    while more
        invariant
            asset@ == crate::paths::text_path("assets/markdown-style.json"@),
            more ==> crate::git::path_views(out@) + style_places(dir@) == style_places(exe@),
            !more ==> crate::git::path_views(out@) == style_places(exe@),
        decreases dir@.len() + (if more { 1int } else { 0int }),
    {
        let ghost before = crate::git::path_views(out@);
        out.push(dir.join(&asset));
        let ghost place = style_below(dir@);
        assert(crate::git::path_views(out@) =~= before.push(place));
        proof {
            lemma_parent_is_shorter(dir@);
        }
        match dir.parent() {
            Some(up) => {
                assert(before.push(place) + style_places(up@) =~= before + style_places(dir@));
                dir = up;
            },
            None => {
                assert(before.push(place) =~= before + style_places(dir@));
                more = false;
            },
        }
    }
    out
}

/// The first place whose answer is yes.
pub open spec fn first_present(places: Seq<Seq<u8>>, present: Seq<bool>) -> Option<Seq<u8>>
    decreases places.len(),
{
    if places.len() == 0 || present.len() == 0 {
        None
    } else if present[0] {
        Some(places[0])
    } else {
        first_present(places.skip(1), present.skip(1))
    }
}

/// The bundled markdown style: the first of [`style_candidates`] that is there, `None` without an
/// executable path. `present` answers for each candidate in order whether it is a file.
pub fn bundled_style_path(exe: Option<&FilePath>, present: &Vec<bool>) -> (r: Option<String>)
    ensures
        match exe {
            None => r is None,
            Some(path) => match first_present(style_places(path@), present@) {
                Some(place) => r matches Some(text) && text@ == crate::paths::lossy_text(place),
                None => r is None,
            },
        },
{
    match exe {
        None => None,
        Some(path) => {
            let places = style_candidates(path);
            let ghost all = style_places(path@);
            let mut i: usize = 0;
            assert(all.skip(0) =~= all && present@.skip(0) =~= present@);
            while i < places.len() && i < present.len()
                invariant
                    i <= places@.len() && i <= present@.len(),
                    all == style_places(path@),
                    exe == Some(path),
                    crate::git::path_views(places@) == all,
                    first_present(all, present@) == first_present(
                        all.skip(i as int),
                        present@.skip(i as int),
                    ),
                decreases places.len() - i,
            {
                assert(all.skip(i as int)[0] == places@[i as int]@);
                assert(present@.skip(i as int)[0] == present@[i as int]);
                if present[i] {
                    return Some(places[i].text());
                }
                assert(all.skip(i as int).skip(1) =~= all.skip(i + 1));
                assert(present@.skip(i as int).skip(1) =~= present@.skip(i + 1));
                i += 1;
            }
            None
        },
    }
}

/// The index of a command's last argument of some text lies in the command.
proof fn lemma_last_before(command: Seq<Seq<char>>, arg: Seq<char>, n: int)
    requires
        0 <= n <= command.len(),
    ensures
        0 <= last_before(command, arg, n) <= command.len(),
    decreases n,
{
    if n > 0 && command[n - 1] != arg {
        lemma_last_before(command, arg, n - 1);
    }
}

/// An option is added once: adding it again changes nothing.
pub proof fn adding_an_option_twice_adds_it_once(
    command: Seq<Seq<char>>,
    flag: Seq<char>,
    value: Option<Seq<char>>,
    short: Option<Seq<char>>,
)
    ensures
        with_option(with_option(command, flag, value, short), flag, value, short) == with_option(
            command,
            flag,
            value,
            short,
        ),
{
    let once = with_option(command, flag, value, short);
    lemma_last_before(command, "-"@, command.len() as int);
    if !(command.contains(flag) || (short matches Some(s) && command.contains(s))) {
        let at = last_index(command, "-"@);
        assert(once[at] == flag);
        assert(once.contains(flag));
    }
}

/// A tool other than delta is never given options of delta.
pub proof fn other_tools_keep_their_commands(command: Seq<Seq<char>>, width: int)
    requires
        !runs_delta(command),
    ensures
        side_by_side(command) == command,
        sized_diff(command, width) == command,
{
}

} // verus!
