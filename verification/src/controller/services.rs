//! What the session asks of its surroundings, and what it does with the answers.

use super::actions::{run, Action, AfterGit, Clip, EditorOutcome, Effects, RenderJob};
use super::render::DiffSource;
use super::state::{Controller, RenderResult};
use crate::git::{Baseline, StatusMap};
use crate::paths::{relative, FilePath};
use crate::view_policy::{DiffRenderMode, ViewMode};
use vstd::prelude::*;
use vstd::string::*;

verus! {

/// Read-only questions to git about the root.
pub trait GitService {
    /// The working tree's status, by paths relative to the root.
    fn status(&self) -> StatusMap;

    /// The files changed against a baseline.
    fn changed_set(&self, baseline: Baseline) -> StatusMap;

    /// The diff of a file, with the whole file around the changes or not.
    fn diff(&self, rel_path: &FilePath, baseline: Baseline, full_context: bool) -> String;

    /// The diff of everything below a directory; the empty path stands for the whole tree.
    fn diff_directory(&self, rel_dir: &FilePath, baseline: Baseline) -> String;
}

/// Produces what the content pane shows.
pub trait ContentProvider {
    /// Renders a file in a view.
    fn render(&self, path: &FilePath, mode: ViewMode, raw_diff: Option<&str>) -> RenderResult;

    /// Renders a file in a view, for a pane of known width.
    fn render_at_width(
        &self,
        path: &FilePath,
        mode: ViewMode,
        raw_diff: Option<&str>,
        width: Option<u16>,
        pane_width: Option<u16>,
        diff_render_mode: DiffRenderMode,
    ) -> (r: RenderResult)
        default_ensures
            call_ensures(Self::render, (self, path, mode, raw_diff), r),
    {
        self.render(path, mode, raw_diff)
    }
}

/// Hands a file to an editor.
pub trait EditorHandoff {
    /// Opening this file ended so, and left the editor in this state. What an implementation does
    /// not say here is left open.
    closed spec fn visited(&self, file: Seq<u8>, outcome: EditorOutcome, after: &Self) -> bool {
        true
    }

    /// Opens a file and returns when the editor is done with it.
    fn open(&mut self, file: &FilePath) -> (r: EditorOutcome)
        ensures
            old(self).visited(file@, r, final(self)),
    ;
}

/// The clipboard.
pub trait Clipboard {
    /// Handing over this text was answered so, and left the clipboard in this state. What an
    /// implementation does not say here is left open.
    closed spec fn handed(&self, text: Seq<char>, answer: Result<(), String>, after: &Self) -> bool {
        true
    }

    /// Writes a text to the clipboard, or tells why not.
    fn copy(&mut self, text: &str) -> (r: Result<(), String>)
        ensures
            old(self).handed(text@, r, final(self)),
    ;
}

impl RenderJob {
    /// Git answers the question that a render needs answered, if any.
    pub open spec fn diff_read<G: GitService>(self, git: G, raw: Option<String>) -> bool {
        exists|source: DiffSource| #[trigger]
            self.needs(source) && match source {
                DiffSource::Nothing => raw is None,
                DiffSource::File { rel, full_context } => raw is Some && call_ensures(
                    G::diff,
                    (&git, &rel, self.baseline, full_context),
                    raw->0,
                ),
                DiffSource::Directory { rel } => raw is Some && call_ensures(
                    G::diff_directory,
                    (&git, &rel, self.baseline),
                    raw->0,
                ),
            }
    }

    /// Renders what was asked for, with the diff that it needs.
    pub fn render_with<G: GitService, P: ContentProvider>(&self, git: &G, content: &P) -> (r:
        RenderResult)
        ensures
            exists|raw: Option<String>, given: Option<&str>|
                {
                    &&& #[trigger] self.diff_read(*git, raw)
                    &&& match (raw, given) {
                        (Some(text), Some(slice)) => slice@ == text@,
                        (None, None) => true,
                        _ => false,
                    }
                    &&& #[trigger] call_ensures(
                        P::render_at_width,
                        (
                            content,
                            &self.path,
                            self.mode,
                            given,
                            self.wrap_width,
                            self.pane_width,
                            self.diff_render_mode,
                        ),
                        r,
                    )
                },
    {
        let source = self.diff_source();
        let raw = match &source {
            DiffSource::Nothing => None,
            DiffSource::File { rel, full_context } => Some(
                git.diff(rel, self.baseline, *full_context),
            ),
            DiffSource::Directory { rel } => Some(git.diff_directory(rel, self.baseline)),
        };
        assert(self.needs(source));
        assert(self.diff_read(*git, raw));
        let given: Option<&str> = match &raw {
            Some(text) => Some(text.as_str()),
            None => None,
        };
        content.render_at_width(
            &self.path,
            self.mode,
            given,
            self.wrap_width,
            self.pane_width,
            self.diff_render_mode,
        )
    }
}

impl Controller {
    /// Asks git for the status and the changed files, and takes over what it says.
    pub fn query_git<G: GitService>(
        &mut self,
        git: &G,
        branch: Option<String>,
        after: AfterGit,
        out: &mut Vec<Action>,
    ) -> (r: Effects)
        ensures
            exists|status: StatusMap, changed: StatusMap|
                {
                    &&& #[trigger] call_ensures(G::status, (git,), status)
                    &&& #[trigger] call_ensures(
                        G::changed_set,
                        (git, old(self).prefs.baseline),
                        changed,
                    )
                    &&& run(*old(self), *final(self), r, old(out)@, final(out)@).takes(
                        old(self).git_step(status, changed, branch, after),
                    )
                },
    {
        let status = git.status();
        let changed = git.changed_set(self.prefs.baseline);
        self.git_refreshed(status, changed, branch, after, out)
    }

    /// Asks git for the files changed against a baseline, and takes them over.
    pub fn query_changed<G: GitService>(
        &mut self,
        git: &G,
        baseline: Baseline,
        out: &mut Vec<Action>,
    ) -> (r: Effects)
        ensures
            exists|changed: StatusMap|
                {
                    &&& #[trigger] call_ensures(G::changed_set, (git, baseline), changed)
                    &&& run(*old(self), *final(self), r, old(out)@, final(out)@).takes(
                        old(self).changed_step(changed),
                    )
                },
    {
        let changed = git.changed_set(baseline);
        self.changed_refreshed(changed, out)
    }

    /// Writes to the clipboard, and tells the user: the clipboard is handed the text once, and its
    /// answer is the one that is reported.
    pub fn copy_with<C: Clipboard>(
        &mut self,
        clip: Clip,
        clipboard: &mut C,
        out: &mut Vec<Action>,
    ) -> (r: Effects)
        ensures
            exists|text: String, answer: Result<(), String>|
                {
                    &&& text@ == old(self).clip_chars(clip)
                    &&& old(clipboard).handed(text@, answer, final(clipboard))
                    &&& run(*old(self), *final(self), r, old(out)@, final(out)@).takes(
                        #[trigger] old(self).copied_step(clip, text, refusal(answer)),
                    )
                },
    {
        let text = self.clip_text(&clip);
        let answer = clipboard.copy(text.as_str());
        let ghost reply = answer;
        let error = match answer {
            Ok(()) => None,
            Err(message) => Some(message),
        };
        assert(error == refusal(reply));
        self.copied(clip, text, error, out)
    }

    /// Hands a file to the editor, and goes on when it returns: the editor is handed that file
    /// once, and how its visit ended is what is gone by.
    pub fn edit_with<E: EditorHandoff>(
        &mut self,
        file: &FilePath,
        editor: &mut E,
        out: &mut Vec<Action>,
    ) -> (r: Effects)
        ensures
            exists|outcome: EditorOutcome|
                {
                    &&& old(editor).visited(file@, outcome, final(editor))
                    &&& run(*old(self), *final(self), r, old(out)@, final(out)@).takes(
                        #[trigger] old(self).editor_returned_step(outcome),
                    )
                },
    {
        let outcome = editor.open(file);
        self.editor_returned(outcome, out)
    }
}

/// Why an answer is no success, if it is none.
pub open spec fn refusal(answer: Result<(), String>) -> Option<String> {
    match answer {
        Ok(()) => None,
        Err(message) => Some(message),
    }
}

/// A render of a file below the root gets the diff that git gives for that file and the job's
/// baseline, with the whole file around the changes exactly where the full diff is shown. A render
/// of another view gets none.
pub proof fn renders_get_the_diff_of_their_view<G: GitService>(
    job: RenderJob,
    git: G,
    raw: Option<String>,
)
    requires
        job.diff_read(git, raw),
        job.is_git,
        !job.directory_diff,
        relative(job.path@, job.root@) is Some,
    ensures
        job.mode == ViewMode::FullDiff ==> raw is Some && exists|rel: FilePath|
            Some(rel@) == relative(job.path@, job.root@) && #[trigger] call_ensures(
                G::diff,
                (&git, &rel, job.baseline, true),
                raw->0,
            ),
        job.mode == ViewMode::Diff ==> raw is Some && exists|rel: FilePath|
            Some(rel@) == relative(job.path@, job.root@) && #[trigger] call_ensures(
                G::diff,
                (&git, &rel, job.baseline, false),
                raw->0,
            ),
        job.mode == ViewMode::SyntaxContent || job.mode == ViewMode::RenderedMarkdown ==> raw
            is None,
{
    let source = choose|source: DiffSource| #[trigger]
        job.needs(source) && match source {
            DiffSource::Nothing => raw is None,
            DiffSource::File { rel, full_context } => raw is Some && call_ensures(
                G::diff,
                (&git, &rel, job.baseline, full_context),
                raw->0,
            ),
            DiffSource::Directory { rel } => raw is Some && call_ensures(
                G::diff_directory,
                (&git, &rel, job.baseline),
                raw->0,
            ),
        };
    assert(job.needs(source));
}

/// A render of a directory gets the diff of everything below it, against the job's baseline.
pub proof fn directory_renders_get_the_diff_below<G: GitService>(
    job: RenderJob,
    git: G,
    raw: Option<String>,
)
    requires
        job.diff_read(git, raw),
        job.is_git,
        job.directory_diff,
        job.mode == ViewMode::Diff,
        relative(job.path@, job.root@) is Some,
    ensures
        raw is Some,
        exists|rel: FilePath|
            Some(rel@) == relative(job.path@, job.root@) && #[trigger] call_ensures(
                G::diff_directory,
                (&git, &rel, job.baseline),
                raw->0,
            ),
{
    let source = choose|source: DiffSource| #[trigger]
        job.needs(source) && match source {
            DiffSource::Nothing => raw is None,
            DiffSource::File { rel, full_context } => raw is Some && call_ensures(
                G::diff,
                (&git, &rel, job.baseline, full_context),
                raw->0,
            ),
            DiffSource::Directory { rel } => raw is Some && call_ensures(
                G::diff_directory,
                (&git, &rel, job.baseline),
                raw->0,
            ),
        };
    assert(job.needs(source));
}

} // verus!
