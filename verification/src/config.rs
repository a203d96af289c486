//! The configuration: where its file lies, how a load went, and the settings that come of it.

use crate::fuzzy::folded;
use crate::renderers::{tokenize_command, words, Renderers, RenderersView};
use crate::text::{
    ascii_lower, chars_of, clone_all, decimal, decimal_text, digit, lower, same_text, texts, trim,
    trimmed,
};
use vstd::prelude::*;
use vstd::string::*;

verus! {

/// How many lines one wheel event scrolls, unless configured.
pub const DEFAULT_SCROLL_LINES: u16 = 3;

/// The most lines one wheel event can be made to scroll.
pub const MAX_SCROLL_LINES: u16 = 10;

/// The tree's share of the pane in percent, unless configured.
pub const DEFAULT_TREE_WIDTH: u16 = 30;

/// The smallest share of the pane that the tree can be configured to.
pub const MIN_TREE_WIDTH: u16 = 20;

/// The largest share of the pane that the tree can have.
pub const MAX_TREE_WIDTH: u16 = 80;

/// The most columns the tree takes, unless configured or resized by hand.
pub const DEFAULT_TREE_MAX_COLS: u16 = 30;

/// The lowest limit on the tree's columns.
pub const MIN_TREE_MAX_COLS: u16 = 10;

/// The highest limit on the tree's columns.
pub const MAX_TREE_MAX_COLS: u16 = 1000;

/// The units of a whole pane in [`ViewerPaneRatio`].
pub const VIEWER_PANE_RATIO_SCALE: u32 = 1_000_000;

/// The viewer's share of a one-pane workspace, unless configured: one fifth.
pub const DEFAULT_VIEWER_PANE_RATIO_UNITS: u32 = 200_000;

/// The smallest share of the viewer.
pub const MIN_VIEWER_PANE_RATIO_UNITS: u32 = 200_000;

/// The largest share of the viewer.
pub const MAX_VIEWER_PANE_RATIO_UNITS: u32 = 800_000;

/// How many lines a preview shows, unless configured.
pub const DEFAULT_PREVIEW_MAX_LINES: u32 = 10000;

/// The lowest limit on the lines of a preview.
pub const MIN_PREVIEW_MAX_LINES: u32 = 100;

/// The highest limit on the lines of a preview.
pub const MAX_PREVIEW_MAX_LINES: u32 = 100_000;

/// How many kibibytes a preview reads, unless configured.
pub const DEFAULT_PREVIEW_MAX_KIB: u32 = 1024;

/// The lowest limit on the size of a preview.
pub const MIN_PREVIEW_MAX_KIB: u32 = 64;

/// The highest limit on the size of a preview.
pub const MAX_PREVIEW_MAX_KIB: u32 = 65_536;

/// The viewer's share of a workspace that had one pane, in millionths.
#[derive(Debug, Clone, Copy, PartialEq, Eq, Structural)]
pub struct ViewerPaneRatio {
    units: u32,
}

/// The last `k` decimal digits of a number.
pub open spec fn digits(n: nat, k: nat) -> Seq<char>
    decreases k,
{
    if k == 0 {
        Seq::empty()
    } else {
        digits(n / 10, (k - 1) as nat).push(digit(n % 10))
    }
}

/// A number of millionths as a decimal with six places.
pub open spec fn decimal_text_of(units: nat) -> Seq<char> {
    decimal(units / 1_000_000) + seq!['.'] + digits(units % 1_000_000, 6)
}

/// Appends the last `k` decimal digits of a number.
fn push_digits(out: &mut String, n: u32, k: u32)
    ensures
        final(out)@ == old(out)@ + digits(n as nat, k as nat),
    decreases k,
{
    if k > 0 {
        push_digits(out, n / 10, k - 1);
        let d = (48 + (n % 10) as u8) as char;
        let ghost before = out@;
        out.push(d);
        assert(out@ =~= old(out)@ + digits(n as nat, k as nat));
    } else {
        assert(out@ =~= old(out)@ + digits(n as nat, 0));
    }
}

/// Writes a number of millionths as a decimal with six places.
pub fn decimal_units(units: u32) -> (r: String)
    ensures
        r@ == decimal_text_of(units as nat),
{
    let mut out = decimal_text((units / VIEWER_PANE_RATIO_SCALE) as usize);
    out.push('.');
    push_digits(&mut out, units % VIEWER_PANE_RATIO_SCALE, 6);
    assert(out@ =~= decimal_text_of(units as nat));
    out
}

impl Default for ViewerPaneRatio {
    fn default() -> (r: Self)
        ensures
            r.share() == DEFAULT_VIEWER_PANE_RATIO_UNITS,
    {
        ViewerPaneRatio { units: DEFAULT_VIEWER_PANE_RATIO_UNITS }
    }
}

/// Half of a pane, in millionths.
pub const HALF_UNITS: u32 = 500_000;

impl ViewerPaneRatio {
    #[verifier::type_invariant]
    spec fn in_range(self) -> bool {
        MIN_VIEWER_PANE_RATIO_UNITS <= self.units <= MAX_VIEWER_PANE_RATIO_UNITS
    }

    /// The viewer's share in millionths.
    pub closed spec fn share(self) -> nat {
        self.units as nat
    }

    /// The terminal's share in millionths.
    pub open spec fn terminal_share(self) -> int {
        VIEWER_PANE_RATIO_SCALE - self.share()
    }

    /// The ratio that a configured share, in millionths, stands for: the nearest one allowed, and
    /// the default without one.
    pub fn resolve(units: Option<u32>) -> (r: Self)
        ensures
            r.share() == match units {
                None => DEFAULT_VIEWER_PANE_RATIO_UNITS as nat,
                Some(n) => clamped(
                    n as int,
                    MIN_VIEWER_PANE_RATIO_UNITS as int,
                    MAX_VIEWER_PANE_RATIO_UNITS as int,
                ) as nat,
            },
            MIN_VIEWER_PANE_RATIO_UNITS <= r.share() <= MAX_VIEWER_PANE_RATIO_UNITS,
    {
        match units {
            None => ViewerPaneRatio { units: DEFAULT_VIEWER_PANE_RATIO_UNITS },
            Some(n) => ViewerPaneRatio {
                units: clamp(n, MIN_VIEWER_PANE_RATIO_UNITS, MAX_VIEWER_PANE_RATIO_UNITS),
            },
        }
    }

    /// The viewer's share as a decimal.
    pub fn viewer_decimal(self) -> (r: String)
        ensures
            r@ == decimal_text_of(self.share()),
    {
        decimal_units(self.units)
    }

    /// The terminal's share as a decimal.
    pub fn terminal_decimal(self) -> (r: String)
        ensures
            0 < self.terminal_share(),
            r@ == decimal_text_of(self.terminal_share() as nat),
    {
        proof {
            use_type_invariant(&self);
        }
        decimal_units(VIEWER_PANE_RATIO_SCALE - self.units)
    }

    /// The direction in which the terminal's edge moves after a split into halves.
    pub open spec fn resize_direction(self) -> Option<Seq<char>> {
        if self.share() < HALF_UNITS {
            Some("right"@)
        } else if self.share() > HALF_UNITS {
            Some("left"@)
        } else {
            None
        }
    }

    /// How far the terminal's edge moves after a split into halves, in millionths.
    pub open spec fn resize_amount(self) -> nat {
        if self.share() < HALF_UNITS {
            (HALF_UNITS - self.share()) as nat
        } else {
            (self.share() - HALF_UNITS) as nat
        }
    }

    /// The resize that turns a split into halves into this ratio: `right` grows the terminal,
    /// `left` shrinks it, and halves need none.
    pub fn terminal_resize(self) -> (r: Option<(&'static str, String)>)
        ensures
            r is Some <==> self.resize_direction() is Some,
            r matches Some((direction, amount)) ==> {
                &&& Some(direction@) == self.resize_direction()
                &&& amount@ == decimal_text_of(self.resize_amount())
            },
    {
        if self.units < HALF_UNITS {
            Some(("right", decimal_units(HALF_UNITS - self.units)))
        } else if self.units > HALF_UNITS {
            Some(("left", decimal_units(self.units - HALF_UNITS)))
        } else {
            None
        }
    }

    /// The line for the launcher: the terminal's share, the direction of the resize or `none`, and
    /// its amount.
    pub fn launcher_spec(self) -> (r: String)
        ensures
            r@ == decimal_text_of(self.terminal_share() as nat) + " "@ + match self.resize_direction() {
                Some(direction) => direction + " "@ + decimal_text_of(self.resize_amount()),
                None => "none 0.000000"@,
            },
    {
        let mut out = self.terminal_decimal();
        out.append(" ");
        match self.terminal_resize() {
            Some((direction, amount)) => {
                out.append(direction);
                out.append(" ");
                out.append(amount.as_str());
                assert(out@ =~= decimal_text_of(self.terminal_share() as nat) + " "@ + (direction@
                    + " "@ + amount@));
            },
            None => {
                out.append("none 0.000000");
            },
        }
        out
    }
}

/// The viewer's and the terminal's share make up the pane, and the resize moves the terminal's
/// edge from the middle to its share.
pub proof fn shares_make_up_the_pane(ratio: ViewerPaneRatio)
    ensures
        ratio.share() + ratio.terminal_share() == VIEWER_PANE_RATIO_SCALE,
        ratio.resize_direction() == Some("right"@) && ratio.share() < HALF_UNITS ==> HALF_UNITS
            + ratio.resize_amount() == ratio.terminal_share(),
        ratio.share() > HALF_UNITS ==> HALF_UNITS - ratio.resize_amount() == ratio.terminal_share(),
        ratio.share() == HALF_UNITS ==> ratio.resize_direction() is None && ratio.terminal_share()
            == HALF_UNITS,
{
}

/// The side on which the tree is drawn.
#[derive(Debug, Clone, Copy, PartialEq, Eq, Structural)]
pub enum TreePosition {
    Left,
    Right,
}

impl Default for TreePosition {
    fn default() -> (r: Self)
        ensures
            r == TreePosition::Left,
    {
        TreePosition::Left
    }
}

impl TreePosition {
    /// The label in the settings overview.
    pub fn label(self) -> (r: &'static str)
        ensures
            r@ == match self {
                TreePosition::Left => "left"@,
                TreePosition::Right => "right"@,
            },
    {
        match self {
            TreePosition::Left => "left",
            TreePosition::Right => "right",
        }
    }
}

/// The style of the icons in the tree.
#[derive(Debug, Clone, Copy, PartialEq, Eq, Structural)]
pub enum TreeIcons {
    Off,
    Unicode,
    Nerd,
}

impl Default for TreeIcons {
    fn default() -> (r: Self)
        ensures
            r == TreeIcons::Unicode,
    {
        TreeIcons::Unicode
    }
}

impl TreeIcons {
    /// The label in the settings overview.
    pub fn label(self) -> (r: &'static str)
        ensures
            r@ == match self {
                TreeIcons::Off => "off"@,
                TreeIcons::Unicode => "unicode"@,
                TreeIcons::Nerd => "nerd"@,
            },
    {
        match self {
            TreeIcons::Off => "off",
            TreeIcons::Unicode => "unicode",
            TreeIcons::Nerd => "nerd",
        }
    }
}

/// The keys that an action is bound to: one, or several.
#[derive(Debug, PartialEq, Eq)]
pub enum KeySpec {
    One(String),
    Many(Vec<String>),
}

/// What a configuration file sets; everything is optional.
#[derive(Debug)]
pub struct Config {
    pub editor: Option<String>,
    pub markdown: Option<String>,
    pub diff: Option<String>,
    pub syntax: Option<String>,
    pub open: Option<String>,
    pub reveal: Option<String>,
    pub hide_dotfiles: Option<bool>,
    pub update_check: Option<bool>,
    /// Whether closing with annotations asks first.
    pub confirm_discard: Option<bool>,
    /// Whether a workspace that is opened from the tree gets a viewer of its own.
    pub open_workspace_with_viewer: Option<bool>,
    /// The viewer's share of a one-pane workspace, in millionths.
    pub viewer_pane_ratio: Option<u32>,
    pub scroll_lines: Option<u32>,
    pub tree_width: Option<u32>,
    pub tree_position: Option<String>,
    pub tree_max_cols: Option<u32>,
    pub file_icons: Option<String>,
    pub preview_max_lines: Option<u32>,
    pub preview_max_kib: Option<u32>,
    /// Keys by the name of the action they are bound to.
    pub keys: Option<Vec<(String, KeySpec)>>,
}

impl Config {
    /// Nothing is set.
    pub open spec fn unset(self) -> bool {
        &&& self.editor is None
        &&& self.markdown is None
        &&& self.diff is None
        &&& self.syntax is None
        &&& self.open is None
        &&& self.reveal is None
        &&& self.hide_dotfiles is None
        &&& self.update_check is None
        &&& self.confirm_discard is None
        &&& self.open_workspace_with_viewer is None
        &&& self.viewer_pane_ratio is None
        &&& self.scroll_lines is None
        &&& self.tree_width is None
        &&& self.tree_position is None
        &&& self.tree_max_cols is None
        &&& self.file_icons is None
        &&& self.preview_max_lines is None
        &&& self.preview_max_kib is None
        &&& self.keys is None
    }
}

impl Default for Config {
    fn default() -> (r: Self)
        ensures
            r.unset(),
    {
        Config {
            editor: None,
            markdown: None,
            diff: None,
            syntax: None,
            open: None,
            reveal: None,
            hide_dotfiles: None,
            update_check: None,
            confirm_discard: None,
            open_workspace_with_viewer: None,
            viewer_pane_ratio: None,
            scroll_lines: None,
            tree_width: None,
            tree_position: None,
            tree_max_cols: None,
            file_icons: None,
            preview_max_lines: None,
            preview_max_kib: None,
            keys: None,
        }
    }
}

/// How a configuration load went.
#[derive(Debug, PartialEq, Eq)]
pub enum LoadOutcome {
    /// The file was read.
    Loaded,
    /// There is no file.
    Absent,
    /// The file is there, and could not be read or understood; with the reason.
    Malformed(String),
}

/// The configuration that comes of a parse: what was parsed, or the default and the reason.
pub fn parse_config(parsed: Result<Config, String>) -> (r: (Config, LoadOutcome))
    ensures
        match parsed {
            Ok(config) => r.0 == config && r.1 == LoadOutcome::Loaded,
            Err(reason) => r.0.unset() && r.1 == LoadOutcome::Malformed(reason),
        },
{
    match parsed {
        Ok(config) => (config, LoadOutcome::Loaded),
        Err(reason) => (Config::default(), LoadOutcome::Malformed(reason)),
    }
}

/// A set and non-empty environment value.
pub open spec fn set(value: Option<String>) -> bool {
    value matches Some(text) && text@.len() > 0
}

/// `part` appended to a directory.
pub open spec fn below_dir(dir: Seq<char>, part: Seq<char>) -> Seq<char> {
    if dir.len() > 0 && dir.last() != '/' {
        dir.push('/') + part
    } else {
        dir + part
    }
}

/// The configuration file below a directory for the configuration of programs.
pub open spec fn file_below(base: Seq<char>) -> Seq<char> {
    below_dir(below_dir(base, "advanced-herdr-file-viewer"@), "config.toml"@)
}

/// Appends a relative path to a directory.
fn push_part(dir: String, part: &str) -> (r: String)
    ensures
        r@ == below_dir(dir@, part@),
{
    let mut out = dir;
    let n: usize = out.as_str().unicode_len();
    if n > 0 && out.as_str().get_char(n - 1) != '/' {
        out.push('/');
    }
    out.append(part);
    out
}

/// Whether an environment value is set and not empty.
fn is_set(value: &Option<String>) -> (r: bool)
    ensures
        r == set(*value),
{
    match value {
        Some(text) => !text.as_str().is_empty(),
        None => false,
    }
}

/// The configuration file lies at this path, by what the environment answers.
pub open spec fn config_lies_at<F: Fn(&str) -> Option<String>>(get: F, path: Seq<char>) -> bool {
    exists|dir: Option<String>| #[trigger]
        get.ensures(("HERDR_PLUGIN_CONFIG_DIR",), dir) && if set(dir) {
            path == below_dir(dir.unwrap()@, "config.toml"@)
        } else {
            exists|xdg: Option<String>| #[trigger]
                get.ensures(("XDG_CONFIG_HOME",), xdg) && if set(xdg) {
                    path == file_below(xdg.unwrap()@)
                } else {
                    exists|home: Option<String>| #[trigger]
                        get.ensures(("HOME",), home) && path == file_below(
                            if set(home) {
                                below_dir(home.unwrap()@, ".config"@)
                            } else {
                                ".config"@
                            },
                        )
                }
        }
}

/// The configuration file's path, from the environment that `get` reads: in the plugin's
/// configuration directory, where the host names one; else in the user's configuration directory,
/// which is `XDG_CONFIG_HOME`, or `.config` in the home directory, or `.config` alone. An empty
/// value counts as none.
pub fn config_path<F: Fn(&str) -> Option<String>>(get: F) -> (r: String)
    requires
        forall|name: &str| get.requires((name,)),
    ensures
        config_lies_at(get, r@),
{
    let dir = get("HERDR_PLUGIN_CONFIG_DIR");
    if is_set(&dir) {
        let r = push_part(dir.clone().unwrap(), "config.toml");
        assert(get.ensures(("HERDR_PLUGIN_CONFIG_DIR",), dir));
        return r;
    }
    let xdg = get("XDG_CONFIG_HOME");
    if is_set(&xdg) {
        let r = push_part(push_part(xdg.clone().unwrap(), "advanced-herdr-file-viewer"), "config.toml");
        assert(get.ensures(("XDG_CONFIG_HOME",), xdg));
        return r;
    }
    let home = get("HOME");
    let base = if is_set(&home) {
        push_part(home.clone().unwrap(), ".config")
    } else {
        ".config".to_owned()
    };
    let r = push_part(push_part(base, "advanced-herdr-file-viewer"), "config.toml");
    assert(get.ensures(("HOME",), home));
    assert(get.ensures(("XDG_CONFIG_HOME",), xdg));
    assert(get.ensures(("HERDR_PLUGIN_CONFIG_DIR",), dir));
    r
}

/// A path from which a configuration file may be read: an absolute one, never one in the working
/// directory, which may belong to an untrusted tree.
pub open spec fn readable(path: Seq<char>) -> bool {
    path.len() > 0 && path[0] == '/'
}

/// Whether a configuration file may be read.
pub fn may_read(path: &str) -> (r: bool)
    ensures
        r == readable(path@),
{
    !path.is_empty() && path.get_char(0) == '/'
}

/// What reading a configuration file gave.
#[derive(Debug)]
pub enum ConfigSource {
    /// The file's content, parsed.
    Read(Result<Config, String>),
    /// There is no such file.
    NotFound,
    /// The file could not be read, with the reason.
    Failed(String),
}

/// The configuration that comes of reading a file, and how its load went: the default where the
/// file is not there, and where it cannot be read or understood.
pub open spec fn loaded_from(source: ConfigSource, config: Config, outcome: LoadOutcome) -> bool {
    match source {
        ConfigSource::Read(Ok(parsed)) => config == parsed && outcome == LoadOutcome::Loaded,
        ConfigSource::Read(Err(reason)) => config.unset() && outcome == LoadOutcome::Malformed(
            reason,
        ),
        ConfigSource::NotFound => config.unset() && outcome == LoadOutcome::Absent,
        ConfigSource::Failed(reason) => config.unset() && outcome == LoadOutcome::Malformed(reason),
    }
}

/// The file at this path was read, and this came of it; a path that may not be read counts as no
/// file.
pub open spec fn loaded_at<R: Fn(&str) -> ConfigSource>(
    read: R,
    path: Seq<char>,
    config: Config,
    outcome: LoadOutcome,
) -> bool {
    if readable(path) {
        exists|text: &str, source: ConfigSource|
            text@ == path && #[trigger] read.ensures((text,), source) && loaded_from(
                source,
                config,
                outcome,
            )
    } else {
        config.unset() && outcome == LoadOutcome::Absent
    }
}

/// The configuration, from the environment that `get` reads and the file that `read` reads. `read`
/// is asked for paths alone from which a configuration may be read.
pub fn load_config<G: Fn(&str) -> Option<String>, R: Fn(&str) -> ConfigSource>(
    get: G,
    read: R,
) -> (r: (Config, LoadOutcome))
    requires
        forall|name: &str| get.requires((name,)),
        forall|path: &str| readable(path@) ==> read.requires((path,)),
    ensures
        exists|path: Seq<char>| #[trigger]
            config_lies_at(get, path) && loaded_at(read, path, r.0, r.1),
{
    let path = config_path(get);
    let ghost place = path@;
    assert(config_lies_at(get, place));
    if !may_read(path.as_str()) {
        return (Config::default(), LoadOutcome::Absent);
    }
    let source = read(path.as_str());
    let ghost given = source;
    let r = match source {
        ConfigSource::Read(parsed) => parse_config(parsed),
        ConfigSource::NotFound => (Config::default(), LoadOutcome::Absent),
        ConfigSource::Failed(reason) => (Config::default(), LoadOutcome::Malformed(reason)),
    };
    assert(loaded_from(given, r.0, r.1));
    r
}

/// The settings in effect.
#[derive(Debug)]
pub struct EffectiveSettings {
    pub editor: Option<String>,
    /// Renderer and opener commands, `None` for the built-in ones.
    pub markdown: Option<Vec<String>>,
    pub diff: Option<Vec<String>>,
    pub syntax: Option<Vec<String>>,
    pub open: Option<Vec<String>>,
    pub reveal: Option<Vec<String>>,
    pub hide_dotfiles: bool,
    pub update_check: bool,
    pub confirm_discard: bool,
    pub open_workspace_with_viewer: bool,
    pub viewer_pane_ratio: ViewerPaneRatio,
    pub scroll_lines: u16,
    pub tree_width: u16,
    pub tree_position: TreePosition,
    pub tree_max_cols: u16,
    pub file_icons: TreeIcons,
    pub preview_max_lines: u32,
    pub preview_max_kib: u32,
}

/// The limits on what a preview reads and shows.
#[derive(Debug, Clone, Copy, PartialEq, Eq, Structural)]
pub struct Caps {
    pub max_lines: u32,
    pub max_bytes: u64,
}

impl Default for Caps {
    fn default() -> (r: Self)
        ensures
            r.max_lines == DEFAULT_PREVIEW_MAX_LINES,
            r.max_bytes == DEFAULT_PREVIEW_MAX_KIB * 1024,
    {
        Caps {
            max_lines: DEFAULT_PREVIEW_MAX_LINES,
            max_bytes: DEFAULT_PREVIEW_MAX_KIB as u64 * 1024,
        }
    }
}

impl EffectiveSettings {
    /// The limits on what a preview reads and shows, the size in bytes.
    pub fn preview_caps(&self) -> (r: Caps)
        ensures
            r.max_lines == self.preview_max_lines,
            r.max_bytes == self.preview_max_kib * 1024,
    {
        Caps {
            max_lines: self.preview_max_lines,
            max_bytes: self.preview_max_kib as u64 * 1024,
        }
    }
}

/// The nearest value within bounds.
pub open spec fn clamped(n: int, low: int, high: int) -> int {
    if n < low {
        low
    } else if n > high {
        high
    } else {
        n
    }
}

/// Clamps a value to bounds.
fn clamp(n: u32, low: u32, high: u32) -> (r: u32)
    requires
        low <= high,
    ensures
        r == clamped(n as int, low as int, high as int),
{
    if n < low {
        low
    } else if n > high {
        high
    } else {
        n
    }
}

/// A configured number within its bounds, or the default.
pub open spec fn bounded(value: Option<u32>, low: int, high: int, default: int) -> int {
    match value {
        Some(n) => clamped(n as int, low, high),
        None => default,
    }
}

/// A configured number within its bounds, or the default.
fn bound(value: Option<u32>, low: u32, high: u32, default: u32) -> (r: u32)
    requires
        low <= high,
    ensures
        r == bounded(value, low as int, high as int, default as int),
{
    match value {
        Some(n) => clamp(n, low, high),
        None => default,
    }
}

/// Whether a configured word is `word`, apart from case and the white space around it.
pub open spec fn says(value: Option<String>, word: Seq<char>) -> bool {
    value matches Some(text) && folded(trim(text@)) == word
}

/// Tests a configured word.
fn is_word(value: &Option<String>, word: &str) -> (r: bool)
    ensures
        r == says(*value, word@),
{
    match value {
        None => false,
        Some(text) => {
            let (a, b) = (chars_of(trimmed(text.as_str())), chars_of(word));
            if a.len() != b.len() {
                return false;
            }
            let ghost inner = trim(text@);
            for i in 0..a.len()
                invariant
                    a@ == inner,
                    b@ == word@,
                    inner == trim(text@),
                    *value == Some(*text),
                    a.len() == b.len(),
                    forall|k: int| 0 <= k < i ==> ascii_lower(a@[k]) == b@[k],
            {
                if lower(a[i]) != b[i] {
                    assert(folded(inner)[i as int] != word@[i as int]);
                    return false;
                }
            }
            assert(folded(inner) =~= word@);
            true
        },
    }
}

/// A command setting: the words of what is configured.
pub open spec fn command_set(value: Option<Vec<String>>, configured: Option<String>) -> bool {
    match (value, configured) {
        (Some(command), Some(line)) => texts(command@) == words(line@),
        (None, None) => true,
        _ => false,
    }
}

/// Splits a configured command line.
fn command(configured: &Option<String>) -> (r: Option<Vec<String>>)
    ensures
        command_set(r, *configured),
{
    match configured {
        Some(line) => Some(tokenize_command(line.as_str())),
        None => None,
    }
}

/// `settings` are those of `config`, where the environment gives `editor` as the editor and says
/// that the update check is off: the configuration goes before the environment, the environment
/// before the defaults.
pub open spec fn effective(
    settings: EffectiveSettings,
    config: Config,
    editor: Option<String>,
    check_off: bool,
) -> bool {
    &&& settings.editor == if config.editor is Some {
        config.editor
    } else if set(editor) {
        editor
    } else {
        None
    }
    &&& command_set(settings.markdown, config.markdown)
    &&& command_set(settings.diff, config.diff)
    &&& command_set(settings.syntax, config.syntax)
    &&& command_set(settings.open, config.open)
    &&& command_set(settings.reveal, config.reveal)
    &&& settings.hide_dotfiles == (config.hide_dotfiles == Some(true))
    &&& settings.update_check == match config.update_check {
        Some(check) => check,
        None => !check_off,
    }
    &&& settings.confirm_discard == (config.confirm_discard != Some(false))
    &&& settings.open_workspace_with_viewer == (config.open_workspace_with_viewer != Some(false))
    &&& settings.viewer_pane_ratio.share() == bounded(
        config.viewer_pane_ratio,
        MIN_VIEWER_PANE_RATIO_UNITS as int,
        MAX_VIEWER_PANE_RATIO_UNITS as int,
        DEFAULT_VIEWER_PANE_RATIO_UNITS as int,
    )
    &&& settings.scroll_lines == bounded(
        config.scroll_lines,
        1,
        MAX_SCROLL_LINES as int,
        DEFAULT_SCROLL_LINES as int,
    )
    &&& settings.tree_width == bounded(
        config.tree_width,
        MIN_TREE_WIDTH as int,
        MAX_TREE_WIDTH as int,
        DEFAULT_TREE_WIDTH as int,
    )
    &&& settings.tree_position == if says(config.tree_position, "right"@) {
        TreePosition::Right
    } else {
        TreePosition::Left
    }
    &&& settings.tree_max_cols == bounded(
        config.tree_max_cols,
        MIN_TREE_MAX_COLS as int,
        MAX_TREE_MAX_COLS as int,
        DEFAULT_TREE_MAX_COLS as int,
    )
    &&& settings.file_icons == if says(config.file_icons, "off"@) {
        TreeIcons::Off
    } else if says(config.file_icons, "nerd"@) {
        TreeIcons::Nerd
    } else {
        TreeIcons::Unicode
    }
    &&& settings.preview_max_lines == bounded(
        config.preview_max_lines,
        MIN_PREVIEW_MAX_LINES as int,
        MAX_PREVIEW_MAX_LINES as int,
        DEFAULT_PREVIEW_MAX_LINES as int,
    )
    &&& settings.preview_max_kib == bounded(
        config.preview_max_kib,
        MIN_PREVIEW_MAX_KIB as int,
        MAX_PREVIEW_MAX_KIB as int,
        DEFAULT_PREVIEW_MAX_KIB as int,
    )
}

/// The settings that a configuration gives, with the editor of the environment and whether the
/// environment turns the update check off.
pub fn resolve_with(config: &Config, editor: Option<String>, check_off: bool) -> (r:
    EffectiveSettings)
    ensures
        effective(r, *config, editor, check_off),
{
    let chosen = match &config.editor {
        Some(name) => Some(name.clone()),
        None => {
            if is_set(&editor) {
                editor
            } else {
                None
            }
        },
    };
    EffectiveSettings {
        editor: chosen,
        markdown: command(&config.markdown),
        diff: command(&config.diff),
        syntax: command(&config.syntax),
        open: command(&config.open),
        reveal: command(&config.reveal),
        hide_dotfiles: match config.hide_dotfiles {
            Some(hidden) => hidden,
            None => false,
        },
        update_check: match config.update_check {
            Some(check) => check,
            None => !check_off,
        },
        confirm_discard: match config.confirm_discard {
            Some(confirm) => confirm,
            None => true,
        },
        open_workspace_with_viewer: match config.open_workspace_with_viewer {
            Some(both) => both,
            None => true,
        },
        viewer_pane_ratio: ViewerPaneRatio::resolve(config.viewer_pane_ratio),
        scroll_lines: bound(
            config.scroll_lines,
            1,
            MAX_SCROLL_LINES as u32,
            DEFAULT_SCROLL_LINES as u32,
        ) as u16,
        tree_width: bound(
            config.tree_width,
            MIN_TREE_WIDTH as u32,
            MAX_TREE_WIDTH as u32,
            DEFAULT_TREE_WIDTH as u32,
        ) as u16,
        tree_position: if is_word(&config.tree_position, "right") {
            TreePosition::Right
        } else {
            TreePosition::Left
        },
        tree_max_cols: bound(
            config.tree_max_cols,
            MIN_TREE_MAX_COLS as u32,
            MAX_TREE_MAX_COLS as u32,
            DEFAULT_TREE_MAX_COLS as u32,
        ) as u16,
        file_icons: if is_word(&config.file_icons, "off") {
            TreeIcons::Off
        } else if is_word(&config.file_icons, "nerd") {
            TreeIcons::Nerd
        } else {
            TreeIcons::Unicode
        },
        preview_max_lines: bound(
            config.preview_max_lines,
            MIN_PREVIEW_MAX_LINES,
            MAX_PREVIEW_MAX_LINES,
            DEFAULT_PREVIEW_MAX_LINES,
        ),
        preview_max_kib: bound(
            config.preview_max_kib,
            MIN_PREVIEW_MAX_KIB,
            MAX_PREVIEW_MAX_KIB,
            DEFAULT_PREVIEW_MAX_KIB,
        ),
    }
}

/// The settings that a configuration gives in the environment that `get_env` reads: the editor is
/// `EDITOR` where the configuration names none, and the update check is off where
/// `HERDR_FILE_VIEWER_NO_UPDATE_CHECK` is set and the configuration does not say.
pub fn resolve<F: Fn(&str) -> Option<String>>(config: &Config, get_env: F) -> (r: EffectiveSettings)
    requires
        forall|name: &str| get_env.requires((name,)),
    ensures
        exists|editor: Option<String>, check: Option<String>|
            #![trigger get_env.ensures(("EDITOR",), editor), get_env.ensures(
                ("HERDR_FILE_VIEWER_NO_UPDATE_CHECK",),
                check,
            )]
            get_env.ensures(("EDITOR",), editor) && get_env.ensures(
                ("HERDR_FILE_VIEWER_NO_UPDATE_CHECK",),
                check,
            ) && effective(r, *config, editor, check is Some),
{
    let editor = get_env("EDITOR");
    let check = get_env("HERDR_FILE_VIEWER_NO_UPDATE_CHECK");
    let ghost named = editor;
    let r = resolve_with(config, editor, check.is_some());
    assert(get_env.ensures(("EDITOR",), named) && get_env.ensures(
        ("HERDR_FILE_VIEWER_NO_UPDATE_CHECK",),
        check,
    ));
    r
}

/// The editor in effect: that of the settings, or the platform's.
pub fn effective_editor(settings: &EffectiveSettings, platform_default: Option<String>) -> (r: Option<
    String,
>)
    ensures
        r == if settings.editor is Some {
            settings.editor
        } else {
            platform_default
        },
{
    match &settings.editor {
        Some(name) => Some(name.clone()),
        None => platform_default,
    }
}

/// A command setting laid over a built-in command.
pub open spec fn overridden(value: Option<Vec<String>>, base: Seq<Seq<char>>) -> Seq<Seq<char>> {
    match value {
        Some(command) => texts(command@),
        None => base,
    }
}

/// The settings' renderer commands laid over the built-in ones. A diff command that is set also
/// replaces that of the full diff, with what the built-in full diff adds to the built-in diff.
pub open spec fn renderers_over(settings: EffectiveSettings, base: RenderersView) -> RenderersView {
    RenderersView {
        markdown: overridden(settings.markdown, base.markdown),
        diff: overridden(settings.diff, base.diff),
        full_diff: match settings.diff {
            Some(command) => texts(command@) + if base.diff.is_prefix_of(base.full_diff) {
                base.full_diff.skip(base.diff.len() as int)
            } else {
                Seq::empty()
            },
            None => base.full_diff,
        },
        syntax: overridden(settings.syntax, base.syntax),
        timeout_ms: base.timeout_ms,
    }
}

/// A copy of a command setting, or of the built-in command.
fn override_or(value: &Option<Vec<String>>, base: &Vec<String>) -> (r: Vec<String>)
    ensures
        texts(r@) == overridden(*value, texts(base@)),
{
    match value {
        Some(command) => clone_all(command),
        None => clone_all(base),
    }
}

/// Whether a list of arguments starts with another.
fn starts_with(list: &Vec<String>, head: &Vec<String>) -> (r: bool)
    ensures
        r == texts(head@).is_prefix_of(texts(list@)),
{
    let ghost (all, first) = (texts(list@), texts(head@));
    if head.len() > list.len() {
        return false;
    }
    for i in 0..head.len()
        invariant
            head@.len() <= list@.len(),
            all == texts(list@),
            first == texts(head@),
            forall|k: int| 0 <= k < i ==> #[trigger] all[k] == first[k],
    {
        assert(all[i as int] == list@[i as int]@ && first[i as int] == head@[i as int]@);
        if !same_text(list[i].as_str(), head[i].as_str()) {
            assert(all.subrange(0, first.len() as int)[i as int] == all[i as int]);
            return false;
        }
    }
    assert(first =~= all.subrange(0, first.len() as int));
    true
}

/// Lays the settings' renderer commands over the built-in ones.
pub fn effective_renderers(settings: &EffectiveSettings, base: &Renderers) -> (r: Renderers)
    ensures
        r@ == renderers_over(*settings, base@),
{
    let full_diff = match &settings.diff {
        Some(command) => {
            let mut full = clone_all(command);
            if starts_with(&base.full_diff, &base.diff) {
                let ghost start = texts(full@);
                let ghost tail = texts(base.full_diff@).skip(base.diff@.len() as int);
                let mut i: usize = base.diff.len();
                while i < base.full_diff.len()
                    invariant
                        base.diff@.len() <= i <= base.full_diff@.len(),
                        tail == texts(base.full_diff@).skip(base.diff@.len() as int),
                        texts(full@) == start + tail.take(i - base.diff@.len()),
                    decreases base.full_diff.len() - i,
                {
                    let ghost before = texts(full@);
                    full.push(base.full_diff[i].clone());
                    assert(texts(full@) =~= before.push(base.full_diff@[i as int]@));
                    assert(tail.take(i + 1 - base.diff@.len()) =~= tail.take(
                        i - base.diff@.len(),
                    ).push(base.full_diff@[i as int]@));
                    assert(texts(full@) =~= start + tail.take(i + 1 - base.diff@.len()));
                    i += 1;
                }
                assert(tail.take(tail.len() as int) =~= tail);
            } else {
                assert(texts(full@) + Seq::empty() =~= texts(full@));
            }
            full
        },
        None => clone_all(&base.full_diff),
    };
    Renderers {
        markdown: override_or(&settings.markdown, &base.markdown),
        diff: override_or(&settings.diff, &base.diff),
        full_diff,
        syntax: override_or(&settings.syntax, &base.syntax),
        timeout_ms: base.timeout_ms,
    }
}

/// Whether the update check is started.
pub fn should_start_update_check(settings: &EffectiveSettings) -> (r: bool)
    ensures
        r == settings.update_check,
{
    settings.update_check
}

/// Every number among the settings lies within its bounds, whatever is configured.
pub proof fn settings_stay_within_bounds(
    settings: EffectiveSettings,
    config: Config,
    editor: Option<String>,
    check_off: bool,
)
    requires
        effective(settings, config, editor, check_off),
    ensures
        1 <= settings.scroll_lines <= MAX_SCROLL_LINES,
        MIN_TREE_WIDTH <= settings.tree_width <= MAX_TREE_WIDTH,
        MIN_TREE_MAX_COLS <= settings.tree_max_cols <= MAX_TREE_MAX_COLS,
        MIN_PREVIEW_MAX_LINES <= settings.preview_max_lines <= MAX_PREVIEW_MAX_LINES,
        MIN_PREVIEW_MAX_KIB <= settings.preview_max_kib <= MAX_PREVIEW_MAX_KIB,
        MIN_VIEWER_PANE_RATIO_UNITS <= settings.viewer_pane_ratio.share()
            <= MAX_VIEWER_PANE_RATIO_UNITS,
{
}

} // verus!
