//! Opening workspaces and panes through the host.

use super::actions::{run, Action, Effects, HostRequest, Place, Step};
use super::state::{Controller, NodeKind, Notice};
use crate::config::{decimal_text_of, decimal_units};
use crate::herdr::{carried, replied, HerdrCli};
use crate::paths::{lossy_text, name_of, ordinary, parent_of, FilePath};
use crate::text::{slices, strings, texts, utf8_text};
use vstd::prelude::*;
use vstd::string::*;
use vstd::utf8::*;

verus! {

impl Place {
    /// The directory of a row: itself, or the one that holds the file.
    pub open spec fn dir(self) -> Seq<u8> {
        match (self.kind, parent_of(self.path@)) {
            (NodeKind::File, Some(dir)) => dir,
            _ => self.path@,
        }
    }

    /// The directory of a row.
    pub fn directory(&self) -> (r: FilePath)
        ensures
            r@ == self.dir(),
    {
        match self.kind {
            NodeKind::Dir => self.path.clone(),
            NodeKind::File => match self.path.parent() {
                Some(dir) => dir,
                None => self.path.clone(),
            },
        }
    }

    /// The name of a workspace at this row: the name of its directory, or the whole path where that
    /// has none that is text.
    pub open spec fn workspace_label(self) -> Seq<char> {
        let name = name_of(self.dir());
        if ordinary(name) && valid_utf8(name) {
            decode_utf8(name)
        } else {
            lossy_text(self.dir())
        }
    }

    /// The name of a workspace at this row.
    fn label(&self) -> (r: String)
        ensures
            r@ == self.workspace_label(),
    {
        let dir = self.directory();
        let name = dir.file_name();
        if name.is_ordinary() {
            if let Some(text) = utf8_text(name.as_bytes()) {
                return text;
            }
        }
        dir.text()
    }

    /// A copy of a row.
    pub fn duplicate(&self) -> (r: Self)
        ensures
            r == *self,
    {
        Place { path: self.path.clone(), kind: self.kind }
    }
}

/// What a new viewer is told through its environment: the variable that names its root, and the
/// directory of the configuration, where this viewer was given one.
#[derive(Debug)]
pub struct HostEnv {
    pub root_variable: String,
    pub config_dir: Option<String>,
}

/// The arguments that open the viewer beside a pane.
pub open spec fn open_viewer_args(dir: Seq<char>, pane: Seq<char>, env: HostEnv) -> Seq<Seq<char>> {
    seq![
        "plugin"@,
        "pane"@,
        "open"@,
        "--plugin"@,
        "advanced-herdr-file-viewer"@,
        "--entrypoint"@,
        "file-viewer"@,
        "--placement"@,
        "split"@,
        "--target-pane"@,
        pane,
        "--direction"@,
        "right"@,
        "--env"@,
        env.root_variable@.push('=') + dir,
        "--no-focus"@,
    ] + match env.config_dir {
        Some(config) => seq!["--env"@, "HERDR_PLUGIN_CONFIG_DIR="@ + config@],
        None => Seq::empty(),
    }
}

/// The texts of a list.
fn borrowed(list: &Vec<String>) -> (r: Vec<&str>)
    ensures
        slices(r@) == texts(list@),
{
    let mut out: Vec<&str> = Vec::new();
    for i in 0..list.len()
        invariant
            out@.len() == i,
            forall|k: int| 0 <= k < i ==> (#[trigger] out@[k])@ == list@[k]@,
    {
        out.push(list[i].as_str());
    }
    assert(slices(out@) =~= texts(list@));
    out
}

impl HostRequest {
    /// The host prints an answer.
    pub open spec fn prints(self) -> bool {
        self is CreateWorkspace || self is ListPanes
    }

    /// Runs the host's command and returns what it printed: nothing where it is run for its effect.
    pub fn send<H: HerdrCli>(&self, env: &HostEnv, herdr: &H) -> (r: Result<String, String>)
        ensures
            self.prints() ==> replied(*herdr, self.arguments(*env), r),
            !self.prints() ==> exists|reply: Result<(), String>| #[trigger]
                carried(*herdr, self.arguments(*env), reply) && match (reply, r) {
                    (Ok(()), Ok(printed)) => printed@ == ""@,
                    (Err(a), Err(b)) => a == b,
                    _ => false,
                },
    {
        let args = self.args(env);
        let list = borrowed(&args);
        let slice = list.as_slice();
        match self {
            HostRequest::CreateWorkspace(_) | HostRequest::ListPanes { .. } => {
                let reply = herdr.run_json(slice);
                assert(replied(*herdr, self.arguments(*env), reply));
                reply
            },
            _ => {
                let reply = herdr.run(slice);
                assert(carried(*herdr, self.arguments(*env), reply));
                match reply {
                    Ok(()) => Ok("".to_owned()),
                    Err(message) => Err(message),
                }
            },
        }
    }

    /// The arguments of the host's command.
    pub open spec fn arguments(self, env: HostEnv) -> Seq<Seq<char>> {
        match self {
            HostRequest::Zoom(on) => seq![
                "pane"@,
                "zoom"@,
                "--current"@,
                if on {
                    "--on"@
                } else {
                    "--off"@
                },
            ],
            HostRequest::CreateWorkspace(place) => seq![
                "workspace"@,
                "create"@,
                "--cwd"@,
                lossy_text(place.dir()),
                "--label"@,
                place.workspace_label(),
                "--focus"@,
            ],
            HostRequest::ListPanes { place: _, workspace } => seq![
                "pane"@,
                "list"@,
                "--workspace"@,
                workspace@,
            ],
            HostRequest::OpenViewer { place, pane } => open_viewer_args(
                lossy_text(place.dir()),
                pane@,
                env,
            ),
            HostRequest::ResizeTerminal { place: _, pane, ratio } => seq![
                "pane"@,
                "resize"@,
                "--pane"@,
                pane@,
                "--direction"@,
                match ratio.resize_direction() {
                    Some(direction) => direction,
                    None => "right"@,
                },
                "--amount"@,
                decimal_text_of(ratio.resize_amount()),
            ],
            HostRequest::SplitPane(place) => seq![
                "pane"@,
                "split"@,
                "--current"@,
                "--direction"@,
                "down"@,
                "--cwd"@,
                lossy_text(place.dir()),
                "--focus"@,
            ],
        }
    }

    /// The arguments of the host's command.
    pub fn args(&self, env: &HostEnv) -> (r: Vec<String>)
        ensures
            texts(r@) == self.arguments(*env),
    {
        match self {
            HostRequest::Zoom(on) => {
                let list = ["pane", "zoom", "--current", if *on { "--on" } else { "--off" }];
                assert(slices(list@) =~= self.arguments(*env));
                strings(&list)
            },
            HostRequest::CreateWorkspace(place) => {
                let dir = place.directory().text();
                let label = place.label();
                let list = [
                    "workspace",
                    "create",
                    "--cwd",
                    dir.as_str(),
                    "--label",
                    label.as_str(),
                    "--focus",
                ];
                assert(slices(list@) =~= self.arguments(*env));
                strings(&list)
            },
            HostRequest::ListPanes { place: _, workspace } => {
                let list = ["pane", "list", "--workspace", workspace.as_str()];
                assert(slices(list@) =~= self.arguments(*env));
                strings(&list)
            },
            HostRequest::OpenViewer { place, pane } => {
                let dir = place.directory().text();
                let mut root = env.root_variable.clone();
                root.push('=');
                root.append(dir.as_str());
                let list = [
                    "plugin",
                    "pane",
                    "open",
                    "--plugin",
                    "advanced-herdr-file-viewer",
                    "--entrypoint",
                    "file-viewer",
                    "--placement",
                    "split",
                    "--target-pane",
                    pane.as_str(),
                    "--direction",
                    "right",
                    "--env",
                    root.as_str(),
                    "--no-focus",
                ];
                let mut out = strings(&list);
                let ghost base = out@;
                if let Some(config) = &env.config_dir {
                    let mut variable = "HERDR_PLUGIN_CONFIG_DIR=".to_owned();
                    variable.append(config.as_str());
                    out.push("--env".to_owned());
                    out.push(variable);
                }
                proof {
                    let head = seq![
                        "plugin"@,
                        "pane"@,
                        "open"@,
                        "--plugin"@,
                        "advanced-herdr-file-viewer"@,
                        "--entrypoint"@,
                        "file-viewer"@,
                        "--placement"@,
                        "split"@,
                        "--target-pane"@,
                        pane@,
                        "--direction"@,
                        "right"@,
                        "--env"@,
                        env.root_variable@.push('=') + lossy_text(place.dir()),
                        "--no-focus"@,
                    ];
                    assert(slices(list@) =~= head);
                    assert(texts(base) =~= head);
                    if let Some(config) = &env.config_dir {
                        assert(out@ =~= base.push(out@[16]).push(out@[17]));
                        assert(texts(out@) =~= head + seq![
                            "--env"@,
                            "HERDR_PLUGIN_CONFIG_DIR="@ + config@,
                        ]);
                    } else {
                        assert(texts(out@) =~= head + Seq::<Seq<char>>::empty());
                    }
                }
                out
            },
            HostRequest::ResizeTerminal { place: _, pane, ratio } => {
                let (direction, amount) = match ratio.terminal_resize() {
                    Some((direction, amount)) => (direction, amount),
                    None => ("right", decimal_units(0)),
                };
                let list = [
                    "pane",
                    "resize",
                    "--pane",
                    pane.as_str(),
                    "--direction",
                    direction,
                    "--amount",
                    amount.as_str(),
                ];
                assert(slices(list@) =~= self.arguments(*env));
                strings(&list)
            },
            HostRequest::SplitPane(place) => {
                let dir = place.directory().text();
                let list = [
                    "pane",
                    "split",
                    "--current",
                    "--direction",
                    "down",
                    "--cwd",
                    dir.as_str(),
                    "--focus",
                ];
                assert(slices(list@) =~= self.arguments(*env));
                strings(&list)
            },
        }
    }
}

impl Controller {
    /// The selected row as a place.
    pub open spec fn place(self) -> Option<Place> {
        match self.selected() {
            Some(node) => Some(Place { path: node.path, kind: node.kind }),
            None => None,
        }
    }

    /// The selected row as a place.
    fn selected_place(&self) -> (r: Option<Place>)
        ensures
            r == self.place(),
    {
        match self.selected_node() {
            Some(node) => Some(Place { path: node.path.clone(), kind: node.kind }),
            None => None,
        }
    }

    /// Creates a workspace at the selected row.
    pub open spec fn workspace_step(self) -> Step {
        match self.place() {
            None => self.quiet(),
            Some(place) => if self.host.present {
                self.asks(Action::Host(HostRequest::CreateWorkspace(place)))
            } else {
                self.tells(Notice::WorkspaceUnavailable)
            },
        }
    }

    /// A workspace was created, with its id, or not, and why. The viewer is opened in it where that
    /// is wanted.
    pub open spec fn workspace_created_step(
        self,
        place: Place,
        reply: Result<Option<String>, String>,
    ) -> Step {
        match reply {
            Err(error) => self.tells(Notice::WorkspaceFailed(error)),
            Ok(id) => if !self.prefs.open_workspace_with_viewer {
                self.tells(Notice::WorkspaceOpened(place))
            } else {
                match id {
                    None => self.tells(Notice::WorkspaceWithoutId(place)),
                    Some(workspace) => self.asks(
                        Action::Host(HostRequest::ListPanes { place, workspace }),
                    ),
                }
            },
        }
    }

    /// The panes of the new workspace were listed: its only one, or none that is known.
    pub open spec fn panes_listed_step(self, place: Place, pane: Option<String>) -> Step {
        match pane {
            None => self.tells(Notice::WorkspaceWithoutTerminal(place)),
            Some(pane) => self.asks(Action::Host(HostRequest::OpenViewer { place, pane })),
        }
    }

    /// The viewer was opened in the new workspace, or not, and why. The terminal gets its share of
    /// the width where that is not a half.
    pub open spec fn viewer_opened_step(
        self,
        place: Place,
        pane: String,
        error: Option<String>,
    ) -> Step {
        let ratio = self.prefs.viewer_pane_ratio;
        match error {
            Some(message) => self.tells(Notice::WorkspaceWithoutViewer(place, message)),
            None => if ratio.resize_direction() is Some {
                self.asks(Action::Host(HostRequest::ResizeTerminal { place, pane, ratio }))
            } else {
                self.tells(Notice::WorkspaceWithViewer(place))
            },
        }
    }

    /// The terminal got its share of the width, or not, and why.
    pub open spec fn terminal_resized_step(self, place: Place, error: Option<String>) -> Step {
        match error {
            Some(message) => self.tells(
                Notice::WorkspaceRatioFailed(place, self.prefs.viewer_pane_ratio, message),
            ),
            None => self.tells(Notice::WorkspaceWithViewer(place)),
        }
    }

    /// Opens a terminal at the selected row.
    pub open spec fn pane_step(self) -> Step {
        match self.place() {
            None => self.quiet(),
            Some(place) => if self.host.present {
                self.asks(Action::Host(HostRequest::SplitPane(place)))
            } else {
                self.tells(Notice::PaneUnavailable)
            },
        }
    }

    /// Creates a workspace at the selected row.
    pub fn open_workspace(&mut self, out: &mut Vec<Action>) -> (r: Effects)
        ensures
            run(*old(self), *final(self), r, old(out)@, final(out)@).takes(
                old(self).workspace_step(),
            ),
    {
        match self.selected_place() {
            None => Effects::noop(),
            Some(place) => {
                if self.host.present {
                    out.push(Action::Host(HostRequest::CreateWorkspace(place)));
                } else {
                    self.notice = Some(Notice::WorkspaceUnavailable);
                }
                Effects::redraw()
            },
        }
    }

    /// A workspace was created, with its id, or not, and why.
    pub fn workspace_created(
        &mut self,
        place: Place,
        reply: Result<Option<String>, String>,
        out: &mut Vec<Action>,
    ) -> (r: Effects)
        ensures
            run(*old(self), *final(self), r, old(out)@, final(out)@).takes(
                old(self).workspace_created_step(place, reply),
            ),
    {
        match reply {
            Err(error) => {
                self.notice = Some(Notice::WorkspaceFailed(error));
            },
            Ok(id) => {
                if !self.prefs.open_workspace_with_viewer {
                    self.notice = Some(Notice::WorkspaceOpened(place));
                } else {
                    match id {
                        None => {
                            self.notice = Some(Notice::WorkspaceWithoutId(place));
                        },
                        Some(workspace) => {
                            out.push(Action::Host(HostRequest::ListPanes { place, workspace }));
                        },
                    }
                }
            },
        }
        Effects::redraw()
    }

    /// The panes of the new workspace were listed.
    pub fn panes_listed(&mut self, place: Place, pane: Option<String>, out: &mut Vec<Action>) -> (r:
        Effects)
        ensures
            run(*old(self), *final(self), r, old(out)@, final(out)@).takes(
                old(self).panes_listed_step(place, pane),
            ),
    {
        match pane {
            None => {
                self.notice = Some(Notice::WorkspaceWithoutTerminal(place));
            },
            Some(pane) => {
                out.push(Action::Host(HostRequest::OpenViewer { place, pane }));
            },
        }
        Effects::redraw()
    }

    /// The viewer was opened in the new workspace, or not, and why.
    pub fn viewer_opened(
        &mut self,
        place: Place,
        pane: String,
        error: Option<String>,
        out: &mut Vec<Action>,
    ) -> (r: Effects)
        ensures
            run(*old(self), *final(self), r, old(out)@, final(out)@).takes(
                old(self).viewer_opened_step(place, pane, error),
            ),
    {
        let ratio = self.prefs.viewer_pane_ratio;
        match error {
            Some(message) => {
                self.notice = Some(Notice::WorkspaceWithoutViewer(place, message));
            },
            None => {
                if ratio.terminal_resize().is_some() {
                    out.push(Action::Host(HostRequest::ResizeTerminal { place, pane, ratio }));
                } else {
                    self.notice = Some(Notice::WorkspaceWithViewer(place));
                }
            },
        }
        Effects::redraw()
    }

    /// The terminal got its share of the width, or not, and why.
    pub fn terminal_resized(
        &mut self,
        place: Place,
        error: Option<String>,
        out: &mut Vec<Action>,
    ) -> (r: Effects)
        ensures
            run(*old(self), *final(self), r, old(out)@, final(out)@).takes(
                old(self).terminal_resized_step(place, error),
            ),
    {
        self.notice = Some(
            match error {
                Some(message) => Notice::WorkspaceRatioFailed(
                    place,
                    self.prefs.viewer_pane_ratio,
                    message,
                ),
                None => Notice::WorkspaceWithViewer(place),
            },
        );
        Effects::redraw()
    }

    /// Opens a terminal at the selected row.
    pub fn open_pane_here(&mut self, out: &mut Vec<Action>) -> (r: Effects)
        ensures
            run(*old(self), *final(self), r, old(out)@, final(out)@).takes(old(self).pane_step()),
    {
        match self.selected_place() {
            None => Effects::noop(),
            Some(place) => {
                if self.host.present {
                    out.push(Action::Host(HostRequest::SplitPane(place)));
                } else {
                    self.notice = Some(Notice::PaneUnavailable);
                }
                Effects::redraw()
            },
        }
    }

    /// A terminal was opened, or not, and why.
    pub fn pane_opened(
        &mut self,
        place: Place,
        error: Option<String>,
        out: &mut Vec<Action>,
    ) -> (r: Effects)
        ensures
            run(*old(self), *final(self), r, old(out)@, final(out)@).takes(
                old(self).tells(
                    match error {
                        Some(message) => Notice::PaneFailed(message),
                        None => Notice::PaneOpened(place),
                    },
                ),
            ),
    {
        self.notice = Some(
            match error {
                Some(message) => Notice::PaneFailed(message),
                None => Notice::PaneOpened(place),
            },
        );
        Effects::redraw()
    }
}

/// Whatever the host answers, a workspace ends with a notice or with one more request: each step of
/// opening one leads to exactly one of the two.
pub proof fn opening_a_workspace_always_answers(
    state: Controller,
    place: Place,
    reply: Result<Option<String>, String>,
    pane: Option<String>,
    name: String,
    error: Option<String>,
)
    requires
        state.notice is None,
    ensures
        state.workspace_created_step(place, reply).next.notice is Some
            <==> state.workspace_created_step(place, reply).actions.len() == 0,
        state.panes_listed_step(place, pane).next.notice is Some <==> state.panes_listed_step(
            place,
            pane,
        ).actions.len() == 0,
        state.viewer_opened_step(place, name, error).next.notice is Some
            <==> state.viewer_opened_step(place, name, error).actions.len() == 0,
        state.terminal_resized_step(place, error).next.notice is Some,
{
}

} // verus!
