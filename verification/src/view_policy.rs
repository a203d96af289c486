//! Which views a file has, and which one it opens in.

use vstd::prelude::*;

verus! {

/// A way of showing a file.
#[derive(Debug, Clone, Copy, PartialEq, Eq, Structural)]
pub enum ViewMode {
    /// Markdown, laid out as prose.
    RenderedMarkdown,
    /// The changed hunks.
    Diff,
    /// The whole file with its changes.
    FullDiff,
    /// The source with syntax highlighting, one displayed line per source line.
    SyntaxContent,
}

/// Which command the diff views delegate to.
#[derive(Debug, Clone, Copy, PartialEq, Eq, Structural)]
pub enum DiffRenderMode {
    /// The configured diff renderer, unified.
    Delta,
    /// The configured diff renderer with old and new in two columns.
    DeltaSideBySide,
    /// The diff text as git printed it.
    Raw,
}

impl Default for DiffRenderMode {
    fn default() -> (r: Self)
        ensures
            r == DiffRenderMode::Delta,
    {
        DiffRenderMode::Delta
    }
}

impl DiffRenderMode {
    /// The mode after this one.
    pub open spec fn following(self) -> Self {
        match self {
            DiffRenderMode::Delta => DiffRenderMode::DeltaSideBySide,
            DiffRenderMode::DeltaSideBySide => DiffRenderMode::Raw,
            DiffRenderMode::Raw => DiffRenderMode::Delta,
        }
    }

    /// The next mode of the cycle.
    pub fn next(self) -> (r: Self)
        ensures
            r == self.following(),
    {
        match self {
            DiffRenderMode::Delta => DiffRenderMode::DeltaSideBySide,
            DiffRenderMode::DeltaSideBySide => DiffRenderMode::Raw,
            DiffRenderMode::Raw => DiffRenderMode::Delta,
        }
    }

    /// The text of the hint that names this mode.
    pub open spec fn label_text(self) -> Seq<char> {
        match self {
            DiffRenderMode::Delta => "Diff: unified"@,
            DiffRenderMode::DeltaSideBySide => "Diff: side-by-side"@,
            DiffRenderMode::Raw => "Diff: raw (plain git diff)"@,
        }
    }

    /// A short label for the hint that is shown when the cycle reaches this mode.
    pub fn label(self) -> (r: &'static str)
        ensures
            r@ == self.label_text(),
    {
        match self {
            DiffRenderMode::Delta => "Diff: unified",
            DiffRenderMode::DeltaSideBySide => "Diff: side-by-side",
            DiffRenderMode::Raw => "Diff: raw (plain git diff)",
        }
    }
}

/// Three steps lead through every mode and back.
pub proof fn diff_modes_cycle_in_three_steps(mode: DiffRenderMode)
    ensures
        mode.following().following().following() == mode,
        mode.following() != mode,
        mode.following().following() != mode,
{
}

/// Whether a view is made of a diff.
pub open spec fn is_diff_view(mode: ViewMode) -> bool {
    mode == ViewMode::Diff || mode == ViewMode::FullDiff
}

/// Tests whether a view is made of a diff.
pub fn diff_view(mode: ViewMode) -> (r: bool)
    ensures
        r == is_diff_view(mode),
{
    match mode {
        ViewMode::Diff | ViewMode::FullDiff => true,
        _ => false,
    }
}

/// The view a file opens in: its diff where it has changed, else rendered markdown for a markdown
/// file, else its source.
pub open spec fn opening_mode(is_markdown: bool, is_changed: bool) -> ViewMode {
    if is_changed {
        ViewMode::Diff
    } else if is_markdown {
        ViewMode::RenderedMarkdown
    } else {
        ViewMode::SyntaxContent
    }
}

/// The view a file opens in.
pub fn default_mode(is_markdown: bool, is_changed: bool) -> (r: ViewMode)
    ensures
        r == opening_mode(is_markdown, is_changed),
{
    if is_changed {
        ViewMode::Diff
    } else if is_markdown {
        ViewMode::RenderedMarkdown
    } else {
        ViewMode::SyntaxContent
    }
}

/// The view after `current` among those that a file has: the two diffs of a changed file, the
/// prose of a markdown file, the source of any file. A view that the file does not have counts as
/// its first one.
pub open spec fn mode_after(current: ViewMode, is_markdown: bool, is_changed: bool) -> ViewMode {
    match current {
        ViewMode::Diff if is_changed => ViewMode::FullDiff,
        ViewMode::FullDiff if is_changed => if is_markdown {
            ViewMode::RenderedMarkdown
        } else {
            ViewMode::SyntaxContent
        },
        ViewMode::RenderedMarkdown if is_markdown => ViewMode::SyntaxContent,
        ViewMode::SyntaxContent => opening_mode(is_markdown, is_changed),
        _ => if is_changed {
            ViewMode::FullDiff
        } else {
            ViewMode::SyntaxContent
        },
    }
}

/// The next view of a file.
pub fn next_mode(current: ViewMode, is_markdown: bool, is_changed: bool) -> (r: ViewMode)
    ensures
        r == mode_after(current, is_markdown, is_changed),
{
    match current {
        ViewMode::Diff if is_changed => ViewMode::FullDiff,
        ViewMode::FullDiff if is_changed => {
            if is_markdown {
                ViewMode::RenderedMarkdown
            } else {
                ViewMode::SyntaxContent
            }
        },
        ViewMode::RenderedMarkdown if is_markdown => ViewMode::SyntaxContent,
        ViewMode::SyntaxContent => default_mode(is_markdown, is_changed),
        _ => {
            if is_changed {
                ViewMode::FullDiff
            } else {
                ViewMode::SyntaxContent
            }
        },
    }
}

/// Whether a file has a view.
pub open spec fn applicable(mode: ViewMode, is_markdown: bool, is_changed: bool) -> bool {
    match mode {
        ViewMode::Diff | ViewMode::FullDiff => is_changed,
        ViewMode::RenderedMarkdown => is_markdown,
        ViewMode::SyntaxContent => true,
    }
}

/// Cycling stays among the views that a file has, and the view it opens in is one of them.
pub proof fn cycling_stays_applicable(mode: ViewMode, is_markdown: bool, is_changed: bool)
    ensures
        applicable(opening_mode(is_markdown, is_changed), is_markdown, is_changed),
        applicable(mode_after(mode, is_markdown, is_changed), is_markdown, is_changed),
{
}

} // verus!
