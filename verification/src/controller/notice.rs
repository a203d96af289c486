//! What the user is told.

use super::state::Notice;
use crate::paths::lossy_text;
use crate::selection::{format_line_reference, line_reference, sanitize_control, sanitized};
use crate::text::{decimal, decimal_text};
use vstd::prelude::*;
use vstd::string::*;

verus! {

/// The ending of a word for several things.
pub open spec fn plural(count: int) -> Seq<char> {
    if count == 1 {
        ""@
    } else {
        "s"@
    }
}

/// One line, or several: `line 5`, `lines 5-8`.
pub open spec fn lines_text(start: int, end: int) -> Seq<char> {
    if start == end {
        "line "@ + decimal(start as nat)
    } else {
        "lines "@ + decimal(start as nat) + "-"@ + decimal(end as nat)
    }
}

/// One line, or several.
fn lines_label(start: usize, end: usize) -> (r: String)
    ensures
        r@ == lines_text(start as int, end as int),
{
    if start == end {
        say("line ", decimal_text(start).as_str())
    } else {
        let mut out = say("lines ", decimal_text(start).as_str());
        out.append("-");
        out.append(decimal_text(end).as_str());
        out
    }
}

/// Two texts one after the other.
fn say(first: &str, second: &str) -> (r: String)
    ensures
        r@ == first@ + second@,
{
    let mut out = first.to_owned();
    out.append(second);
    out
}

/// Three texts one after the other.
fn tell(first: &str, second: &str, third: &str) -> (r: String)
    ensures
        r@ == first@ + second@ + third@,
{
    let mut out = say(first, second);
    out.append(third);
    out
}

impl Notice {
    /// The text of a notice.
    pub open spec fn message(self) -> Seq<char> {
        match self {
            Notice::Copied(text) => "Copied "@ + text@,
            Notice::PathNotCopied(error) => "Could not copy path: "@ + error@,
            Notice::SelectionCopied => "Copied selection"@,
            Notice::SelectionNotCopied(error) => "Could not copy selection: "@ + error@,
            Notice::ReferenceNotCopied(error) => "Could not copy line reference: "@ + error@,
            Notice::LinesCopied(start, end) => "Copied "@ + lines_text(start as int, end as int),
            Notice::LinesNotCopied(start, end, error) => "Could not copy "@ + lines_text(
                start as int,
                end as int,
            ) + ": "@ + error@,
            Notice::AnnotationsCopied(count) => "Copied "@ + decimal(count as nat)
                + " annotation"@ + plural(count as int),
            Notice::AnnotationsNotCopied(error) => "Could not copy annotations: "@ + error@,
            Notice::AnnotationsCleared(count) => "Cleared "@ + decimal(count as nat)
                + " annotation"@ + plural(count as int) + " after switching root"@,
            Notice::EditorNotLaunched(reason) => "Could not open editor: "@ + reason@,
            Notice::EditorFailed(detail) => "Editor exited with "@ + detail@,
            Notice::OpenerNotLaunched(reason) => "Could not open with default app: "@ + reason@,
            Notice::OpenerFailed(detail) => "Opener exited with "@ + detail@,
            Notice::RevealNotLaunched(reason) => "Could not reveal in file manager: "@ + reason@,
            Notice::RevealFailed(detail) => "File manager exited with "@ + detail@,
            Notice::CannotOpen(name) => "Could not open "@ + name@,
            Notice::OutsideRoot(name) => "Could not open "@ + name@ + ": outside tree root"@,
            Notice::Opened { path, line, end_line } => "Opened "@ + match (line, end_line) {
                (Some(start), Some(end)) => line_reference(path@, start as int, end as int),
                (Some(start), None) => line_reference(path@, start as int, start as int),
                _ => path@,
            },
            Notice::CollapseUnavailable =>
                "Collapse all is unavailable while a changed-files filter is active."@,
            Notice::Pinned => "Viewer pinned \u{2014} close keys will not quit the pane."@,
            Notice::Unpinned => "Viewer unpinned."@,
            Notice::StillPinned =>
                "Viewer is pinned. Click [x] or unpin it before closing with q/Esc."@,
            Notice::CannotSwitch(path) => "cannot switch worktree: "@ + lossy_text(path@)
                + " is not an accessible directory"@,
            Notice::NoRepository => "worktree switch is only available inside a git repository"@,
            Notice::NoWorktrees => "could not list worktrees"@,
            Notice::SearchUnavailable => "Full-text search requires ripgrep (`rg`) on PATH"@,
            Notice::SelectFileForLine => "Go to line: select a file first"@,
            Notice::SelectFileForSearch => "Search: select a file first"@,
            Notice::WrappedToFirst => "Search: wrapped to first match"@,
            Notice::WrappedToLast => "Search: wrapped to last match"@,
            Notice::SelectFileToAnnotate => "Select a file to annotate"@,
            Notice::DirectoryNotAnnotated => "Directories cannot be annotated; select a file"@,
            Notice::OutsideCurrentRoot => "Selected file is outside the current root"@,
            Notice::CannotAnnotate => "Selected file cannot be annotated"@,
            Notice::WorkspaceUnavailable => "Failed to open workspace: herdr is unavailable"@,
            Notice::WorkspaceFailed(error) => "Failed to open workspace: "@ + error@,
            Notice::WorkspaceOpened(place) => "Opened workspace in "@ + sanitized(
                lossy_text(place.dir()),
            ) + "; terminal stays focused"@,
            Notice::WorkspaceWithoutId(place) => "Opened workspace in "@ + sanitized(
                lossy_text(place.dir()),
            ) + ", but herdr did not return its workspace ID"@,
            Notice::WorkspaceWithoutTerminal(place) => "Opened workspace in "@ + sanitized(
                lossy_text(place.dir()),
            ) + ", but could not identify its initial terminal"@,
            Notice::WorkspaceWithoutViewer(place, error) => "Opened workspace in "@ + sanitized(
                lossy_text(place.dir()),
            ) + ", but failed to open File Viewer: "@ + error@,
            Notice::WorkspaceWithViewer(place) => "Opened workspace and File Viewer in "@
                + sanitized(lossy_text(place.dir())) + "; terminal stays focused"@,
            Notice::WorkspaceRatioFailed(place, ratio, error) =>
                "Opened workspace and File Viewer in "@ + sanitized(lossy_text(place.dir()))
                    + ", but failed to set viewer ratio "@ + crate::config::decimal_text_of(
                    ratio.share(),
                ) + ": "@ + error@,
            Notice::PaneUnavailable => "Failed to open pane: herdr is unavailable"@,
            Notice::PaneFailed(error) => "Failed to open pane: "@ + error@,
            Notice::PaneOpened(place) => "Opened pane in "@ + sanitized(lossy_text(place.dir())),
        }
    }

    /// The text of a notice.
    pub fn text(&self) -> (r: String)
        ensures
            r@ == self.message(),
    {
        match self {
            Notice::Copied(text) => say("Copied ", text.as_str()),
            Notice::PathNotCopied(error) => say("Could not copy path: ", error.as_str()),
            Notice::SelectionCopied => "Copied selection".to_owned(),
            Notice::SelectionNotCopied(error) => say("Could not copy selection: ", error.as_str()),
            Notice::ReferenceNotCopied(error) => say(
                "Could not copy line reference: ",
                error.as_str(),
            ),
            Notice::LinesCopied(start, end) => say("Copied ", lines_label(*start, *end).as_str()),
            Notice::LinesNotCopied(start, end, error) => {
                let mut out = tell("Could not copy ", lines_label(*start, *end).as_str(), ": ");
                out.append(error.as_str());
                out
            },
            Notice::AnnotationsCopied(count) => {
                let mut out = tell("Copied ", decimal_text(*count).as_str(), " annotation");
                out.append(
                    if *count == 1 {
                        ""
                    } else {
                        "s"
                    },
                );
                out
            },
            Notice::AnnotationsNotCopied(error) => say(
                "Could not copy annotations: ",
                error.as_str(),
            ),
            Notice::AnnotationsCleared(count) => {
                let mut out = tell("Cleared ", decimal_text(*count).as_str(), " annotation");
                out.append(
                    if *count == 1 {
                        ""
                    } else {
                        "s"
                    },
                );
                out.append(" after switching root");
                out
            },
            Notice::EditorNotLaunched(reason) => say("Could not open editor: ", reason.as_str()),
            Notice::EditorFailed(detail) => say("Editor exited with ", detail.as_str()),
            Notice::OpenerNotLaunched(reason) => say(
                "Could not open with default app: ",
                reason.as_str(),
            ),
            Notice::OpenerFailed(detail) => say("Opener exited with ", detail.as_str()),
            Notice::RevealNotLaunched(reason) => say(
                "Could not reveal in file manager: ",
                reason.as_str(),
            ),
            Notice::RevealFailed(detail) => say("File manager exited with ", detail.as_str()),
            Notice::CannotOpen(name) => say("Could not open ", name.as_str()),
            Notice::OutsideRoot(name) => tell(
                "Could not open ",
                name.as_str(),
                ": outside tree root",
            ),
            Notice::Opened { path, line, end_line } => match (line, end_line) {
                (Some(start), Some(end)) => say(
                    "Opened ",
                    format_line_reference(path.as_str(), *start, *end).as_str(),
                ),
                (Some(start), None) => say(
                    "Opened ",
                    format_line_reference(path.as_str(), *start, *start).as_str(),
                ),
                _ => say("Opened ", path.as_str()),
            },
            Notice::CollapseUnavailable => {
                "Collapse all is unavailable while a changed-files filter is active.".to_owned()
            },
            Notice::Pinned => {
                "Viewer pinned \u{2014} close keys will not quit the pane.".to_owned()
            },
            Notice::Unpinned => "Viewer unpinned.".to_owned(),
            Notice::StillPinned => {
                "Viewer is pinned. Click [x] or unpin it before closing with q/Esc.".to_owned()
            },
            Notice::CannotSwitch(path) => tell(
                "cannot switch worktree: ",
                path.text().as_str(),
                " is not an accessible directory",
            ),
            Notice::NoRepository => {
                "worktree switch is only available inside a git repository".to_owned()
            },
            Notice::NoWorktrees => "could not list worktrees".to_owned(),
            Notice::SearchUnavailable => {
                "Full-text search requires ripgrep (`rg`) on PATH".to_owned()
            },
            Notice::SelectFileForLine => "Go to line: select a file first".to_owned(),
            Notice::SelectFileForSearch => "Search: select a file first".to_owned(),
            Notice::WrappedToFirst => "Search: wrapped to first match".to_owned(),
            Notice::WrappedToLast => "Search: wrapped to last match".to_owned(),
            Notice::SelectFileToAnnotate => "Select a file to annotate".to_owned(),
            Notice::DirectoryNotAnnotated => {
                "Directories cannot be annotated; select a file".to_owned()
            },
            Notice::OutsideCurrentRoot => "Selected file is outside the current root".to_owned(),
            Notice::CannotAnnotate => "Selected file cannot be annotated".to_owned(),
            Notice::WorkspaceUnavailable => {
                "Failed to open workspace: herdr is unavailable".to_owned()
            },
            Notice::WorkspaceFailed(error) => say("Failed to open workspace: ", error.as_str()),
            Notice::WorkspaceOpened(place) => tell(
                "Opened workspace in ",
                sanitize_control(place.directory().text().as_str()).as_str(),
                "; terminal stays focused",
            ),
            Notice::WorkspaceWithoutId(place) => tell(
                "Opened workspace in ",
                sanitize_control(place.directory().text().as_str()).as_str(),
                ", but herdr did not return its workspace ID",
            ),
            Notice::WorkspaceWithoutTerminal(place) => tell(
                "Opened workspace in ",
                sanitize_control(place.directory().text().as_str()).as_str(),
                ", but could not identify its initial terminal",
            ),
            Notice::WorkspaceWithoutViewer(place, error) => {
                let mut out = tell(
                    "Opened workspace in ",
                    sanitize_control(place.directory().text().as_str()).as_str(),
                    ", but failed to open File Viewer: ",
                );
                out.append(error.as_str());
                out
            },
            Notice::WorkspaceWithViewer(place) => tell(
                "Opened workspace and File Viewer in ",
                sanitize_control(place.directory().text().as_str()).as_str(),
                "; terminal stays focused",
            ),
            Notice::WorkspaceRatioFailed(place, ratio, error) => {
                let mut out = tell(
                    "Opened workspace and File Viewer in ",
                    sanitize_control(place.directory().text().as_str()).as_str(),
                    ", but failed to set viewer ratio ",
                );
                out.append(ratio.viewer_decimal().as_str());
                out.append(": ");
                out.append(error.as_str());
                out
            },
            Notice::PaneUnavailable => "Failed to open pane: herdr is unavailable".to_owned(),
            Notice::PaneFailed(error) => say("Failed to open pane: ", error.as_str()),
            Notice::PaneOpened(place) => say(
                "Opened pane in ",
                sanitize_control(place.directory().text().as_str()).as_str(),
            ),
        }
    }
}

} // verus!
