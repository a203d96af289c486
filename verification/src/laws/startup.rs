//! What starting up promises: where the configuration is found, how git and the renderers are
//! called, and what a session starts with.

use crate::config::{config_lies_at, loaded_at, Config, ConfigSource, LoadOutcome, TreePosition};
use crate::controller::actions::{Action, AfterGit, Run, Then, TreeOp};
use crate::controller::help::HelpBodies;
use crate::controller::picker::{first_row, AgentOverlay};
use crate::controller::state::{Controller, Focus, Modal, Notice, Resolved, TreeView, Worktree};
use crate::git::{
    branch_query, byte_strings, changed_query, fork_query, git_command, head_query, is_untracked,
    status_query, Baseline, GitCommand, GitQuery,
};
use crate::paths::{joined, parent_of, text_path, FilePath};
use crate::renderers::{default_renderers, style_places, Renderers};
use crate::text::texts;
use crate::view_policy::DiffRenderMode;
use vstd::prelude::*;
use vstd::utf8::*;

verus! {

/// The configuration lies in the directory that the host names, where it names one.
pub proof fn the_named_directory_holds_the_configuration<F: Fn(&str) -> Option<String>>(
    get: F,
    dir: String,
    path: Seq<char>,
)
    requires
        config_lies_at(get, path),
        forall|value: Option<String>| #[trigger]
            get.ensures(("HERDR_PLUGIN_CONFIG_DIR",), value) ==> value == Some(dir),
        dir@.len() > 0,
        dir@.last() != '/',
    ensures
        path == dir@.push('/') + "config.toml"@,
{
}

/// Without such a directory it lies below the user's directory for configuration, and without that
/// below the one in the home directory.
pub proof fn the_user_directory_holds_the_configuration<F: Fn(&str) -> Option<String>>(
    get: F,
    xdg: Option<String>,
    home: String,
    path: Seq<char>,
)
    requires
        config_lies_at(get, path),
        forall|value: Option<String>| #[trigger]
            get.ensures(("HERDR_PLUGIN_CONFIG_DIR",), value) ==> value is None,
        forall|value: Option<String>| #[trigger]
            get.ensures(("XDG_CONFIG_HOME",), value) ==> value == xdg,
        forall|value: Option<String>| #[trigger]
            get.ensures(("HOME",), value) ==> value == Some(home),
        home@.len() > 0 && home@.last() != '/',
        xdg matches Some(base) ==> base@.len() > 0 && base@.last() != '/',
    ensures
        xdg matches Some(base) ==> path == (base@.push('/') + "advanced-herdr-file-viewer"@).push(
            '/',
        ) + "config.toml"@,
        xdg is None ==> path == ((home@.push('/') + ".config"@).push('/')
            + "advanced-herdr-file-viewer"@).push('/') + "config.toml"@,
{
    reveal_strlit("advanced-herdr-file-viewer");
    reveal_strlit(".config");
    if xdg is Some {
        let base = xdg->0@;
        assert((base.push('/') + "advanced-herdr-file-viewer"@).last() == 'r');
    } else {
        assert((home@.push('/') + ".config"@).last() == 'g');
        assert(((home@.push('/') + ".config"@).push('/') + "advanced-herdr-file-viewer"@).last()
            == 'r');
    }
}

/// Only a file at an absolute path is read; its settings are taken as they are, and a file that
/// cannot be read or understood changes nothing.
pub proof fn configurations_are_read_or_left_alone<R: Fn(&str) -> ConfigSource>(
    read: R,
    path: Seq<char>,
    config: Config,
    outcome: LoadOutcome,
    source: ConfigSource,
)
    requires
        loaded_at(read, path, config, outcome),
        forall|text: &str, found: ConfigSource| #[trigger]
            read.ensures((text,), found) ==> found == source,
    ensures
        path.len() == 0 || path[0] != '/' ==> config.unset() && outcome is Absent,
        path.len() > 0 && path[0] == '/' ==> match source {
            ConfigSource::Read(Ok(parsed)) => config == parsed && outcome is Loaded,
            ConfigSource::Read(Err(reason)) => config.unset() && outcome == LoadOutcome::Malformed(
                reason,
            ),
            ConfigSource::NotFound => config.unset() && outcome is Absent,
            ConfigSource::Failed(reason) => config.unset() && outcome == LoadOutcome::Malformed(
                reason,
            ),
        },
{
}

/// Git runs in the directory that is asked about, with the guards before the question and the path
/// behind it.
pub proof fn git_runs_guarded(dir: FilePath, query: GitQuery, command: GitCommand)
    requires
        call_ensures(git_command, (&dir, query), command),
    ensures
        ({
            let args = byte_strings(command.args@);
            let asked = texts(query.args@);
            &&& args[0] == encode_utf8("-C"@) && args[1] == dir@
            &&& args[3] == encode_utf8("-c"@) && args[4] == encode_utf8("core.fsmonitor=false"@)
            &&& args[5] == encode_utf8("-c"@) && args[6] == encode_utf8("core.hooksPath="@
                + "/dev/null"@)
            &&& forall|k: int|
                0 <= k < asked.len() ==> args[7 + k] == encode_utf8(#[trigger] asked[k])
            &&& query.path matches Some(path) ==> args.len() == 8 + asked.len() && args.last()
                == path@
            &&& query.path is None ==> args.len() == 7 + asked.len()
        }),
        texts(command.remove_env@).len() == 5,
        texts(command.remove_env@)[0] == "GIT_DIR"@,
        texts(command.remove_env@)[1] == "GIT_WORK_TREE"@,
        command.set_env@[0].0@ == "GIT_OPTIONAL_LOCKS"@ && command.set_env@[0].1@ == "0"@,
{
    let asked = texts(query.args@);
    let args = byte_strings(command.args@);
    assert forall|k: int| 0 <= k < asked.len() implies args[7 + k] == encode_utf8(
        #[trigger] asked[k],
    ) by {
        let coded = crate::git::encoded(asked);
        assert(coded[k] == encode_utf8(asked[k]));
    }
    assert(crate::git::encoded(crate::git::guards()).len() == 5);
    assert(crate::git::encoded(asked).len() == asked.len());
}

/// The questions to git are about what their names say.
pub proof fn git_is_asked_by_name(fork: &str, query: GitQuery)
    ensures
        call_ensures(status_query, (), query) ==> texts(query.args@)[0] == "status"@ && query.path
            is None,
        call_ensures(changed_query, (fork,), query) ==> texts(query.args@)[0] == "diff"@ && texts(
            query.args@,
        ).last() == fork@ && texts(query.args@)[3] == "--name-status"@,
        call_ensures(branch_query, (), query) ==> texts(query.args@).last() == "HEAD"@ && texts(
            query.args@,
        )[1] == "--abbrev-ref"@,
        call_ensures(head_query, (), query) ==> texts(query.args@).last() == "HEAD"@ && texts(
            query.args@,
        )[1] == "--verify"@,
        call_ensures(fork_query, (fork,), query) ==> texts(query.args@) == seq![
            "merge-base"@,
            fork@,
            "HEAD"@,
        ],
{
}

/// A file is untracked where it exists and git does not track it.
pub proof fn untracked_files_exist(tracked_by_git: bool, exists_on_disk: bool, untracked: bool)
    requires
        call_ensures(is_untracked, (tracked_by_git, exists_on_disk), untracked),
    ensures
        untracked ==> exists_on_disk && !tracked_by_git,
        exists_on_disk && !tracked_by_git ==> untracked,
{
}

/// The built-in commands: markdown in the given style, diffs by delta, with line numbers in the full
/// one, and sources by bat with theirs.
pub proof fn built_in_commands_are_known(style: &str, renderers: Renderers)
    requires
        call_ensures(default_renderers, (Some(style),), renderers),
    ensures
        texts(renderers.markdown@) == seq!["glow"@, "-s"@, style@, "-w"@, "0"@, "-"@],
        texts(renderers.diff@) == seq!["delta"@],
        texts(renderers.full_diff@) == texts(renderers.diff@).push("--line-numbers"@),
        texts(renderers.syntax@)[0] == "bat"@ && texts(renderers.syntax@).last() == "-"@,
        renderers.timeout_ms == 5000,
{
    assert(seq!["delta"@].push("--line-numbers"@) =~= seq!["delta"@, "--line-numbers"@]);
}

/// The style is looked for below the program's own path first, then below the directory above it,
/// and so on.
pub proof fn styles_are_looked_for_upwards(exe: Seq<u8>)
    ensures
        style_places(exe)[0] == joined(exe, text_path("assets/markdown-style.json"@)),
        parent_of(exe) matches Some(dir) ==> style_places(exe).skip(1) == style_places(dir),
        parent_of(exe) is None ==> style_places(exe).len() == 1,
{
    if parent_of(exe) is Some {
        let dir = parent_of(exe)->0;
        assert(style_places(exe).skip(1) =~= style_places(dir));
    }
}

/// The picker starts on the worktree whose agent is active, else on the current one, else on the
/// first.
pub proof fn the_picker_starts_on_the_current_worktree(
    rows: Seq<Worktree>,
    active: Option<Seq<u8>>,
    row: int,
    k: int,
)
    requires
        first_row(rows, active, row),
        0 <= k < rows.len(),
    ensures
        (Some(rows[k].path@) == active && forall|i: int|
            0 <= i < k ==> Some((#[trigger] rows[i]).path@) != active) ==> row == k,
        ((forall|i: int| 0 <= i < rows.len() ==> Some((#[trigger] rows[i]).path@) != active)
            && rows[k].is_current && forall|i: int|
            0 <= i < k ==> !(#[trigger] rows[i]).is_current) ==> row == k,
        (forall|i: int|
            0 <= i < rows.len() ==> Some((#[trigger] rows[i]).path@) != active
                && !rows[i].is_current) ==> row == 0,
{
    if Some(rows[k].path@) == active {
        assert(crate::controller::picker::is_active(rows, active, k));
        if forall|i: int| 0 <= i < k ==> Some((#[trigger] rows[i]).path@) != active {
            if row < k {
                assert(Some(rows[row].path@) != active);
            }
        }
    }
    if rows[k].is_current {
        assert(crate::controller::picker::is_current(rows, k));
    }
}

/// The picker lists the worktrees that were found, from the left; without any the user is told.
pub proof fn the_picker_shows_what_was_found(r: Run, rows: Vec<Worktree>, overlay: Option<AgentOverlay>)
    requires
        Controller::picker_opened(r, rows, overlay),
    ensures
        rows@.len() == 0 ==> r.to.notice == Some(Notice::NoWorktrees) && r.to.modal == r.from.modal,
        rows@.len() > 0 ==> (r.to.modal matches Modal::Picker(p) && p.rows == rows && p.hscroll
            == 0),
        r.after == r.before,
{
}

/// The help overlay opens on its first section, at the top, with the sections in their order.
pub proof fn the_help_opens_at_its_start(r: Run, bodies: HelpBodies)
    requires
        Controller::help_opened(r, bodies),
    ensures
        r.to.modal matches Modal::Help(help) && help.active == 0 && help.sections@.len() >= 2
            && help.sections@[0].scroll == 0 && help.sections@.last().label@ == "About"@
            && help.sections@.last().body == bodies.about && (bodies.keybindings matches Some(body)
            ==> help.sections@[0].label@ == "Keybindings"@ && help.sections@[0].body == body
            && help.sections@[1].body == bodies.whats_new) && (bodies.keybindings is None
            ==> help.sections@[0].label@ == "What's New"@ && help.sections@[0].body
            == bodies.whats_new),
        r.after == r.before,
{
}

/// A session starts at the top of its tree with nothing chosen, nothing hidden and nothing open.
pub proof fn sessions_start_clean(
    state: Controller,
    resolved: Resolved,
    baseline: Baseline,
    tree: TreeView,
)
    requires
        state.starts_at(resolved, baseline, tree),
    ensures
        state.repo.root == resolved.root && state.repo.is_git_repo == resolved.is_git_repo,
        state.repo.branch == resolved.branch && state.repo.base_branch == resolved.base_branch,
        state.tree == tree,
        state.nav.focus == Focus::Tree && !state.nav.zoomed && state.nav.content_scroll == 0
            && state.nav.tree_scroll == 0 && state.nav.tree_follow_selection,
        state.prefs.baseline == baseline,
        !state.prefs.show_ignored && !state.prefs.hide_hidden && !state.prefs.changed_only
            && !state.prefs.status_mode && !state.prefs.pinned,
        state.prefs.confirm_discard,
        state.prefs.split_pct == 30 && state.prefs.wheel_step == 3,
        state.prefs.tree_position == TreePosition::Left,
        state.prefs.diff_render_mode == DiffRenderMode::Delta,
        state.prefs.wrap_override is None,
        state.modal is Closed,
        state.pane.body is Blank,
        state.annotations.listed().len() == 0,
        resolved.is_git_repo ==> state.refresh_step().actions == seq![
            Action::QueryGit(AfterGit::Render),
        ],
{
}

/// Dotfiles are hidden at the start where that is set, and the tree is asked for it then only.
pub proof fn dotfiles_are_hidden_as_set(state: Controller, hidden: bool)
    ensures
        state.hide_dotfiles_step(hidden).next.prefs.hide_hidden == hidden,
        hidden != state.prefs.hide_hidden ==> state.hide_dotfiles_step(hidden).actions == seq![
            Action::Tree { op: TreeOp::HideHidden(hidden), then: Then::Render },
        ],
        hidden == state.prefs.hide_hidden ==> state.hide_dotfiles_step(hidden).actions.len() == 0,
{
}

} // verus!
