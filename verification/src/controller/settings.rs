//! Configuration, measurements and the clock.

use super::actions::{run, Action, Effects, Step, Then, TreeOp};
use super::content::{between, Layout};
use super::help::HelpMove;
use super::state::{
    Controller, Flash, Focus, Host, Modal, Navigation, Pane, PaneGeometry, PickerState,
    Preferences, Screen, SearchState, TreeView, Update,
};
use crate::annotation::AnnotationStore;
use crate::config::{
    TreeIcons, TreePosition, ViewerPaneRatio, MAX_TREE_WIDTH, MIN_TREE_MAX_COLS, MIN_TREE_WIDTH,
};
use crate::finder::{FinderMove, FinderState};
use crate::git::Baseline;
use crate::paths::FilePath;
use vstd::prelude::*;
use vstd::string::*;

verus! {

/// How far one wheel step scrolls: at least one line.
pub(crate) fn wheel_step(lines: u16) -> (r: u16)
    ensures
        r == if lines < 1 {
            1
        } else {
            lines
        },
{
    if lines < 1 {
        1
    } else {
        lines
    }
}

/// The tree's share of the width, within its bounds.
pub(crate) fn tree_share(pct: u16) -> (r: u16)
    ensures
        r == between(pct as int, MIN_TREE_WIDTH as int, MAX_TREE_WIDTH as int),
{
    if pct < MIN_TREE_WIDTH {
        MIN_TREE_WIDTH
    } else if pct > MAX_TREE_WIDTH {
        MAX_TREE_WIDTH
    } else {
        pct
    }
}

/// The most columns that the tree takes, at least the smallest number allowed.
pub(crate) fn tree_columns(cols: u16) -> (r: u16)
    ensures
        r == if cols < MIN_TREE_MAX_COLS {
            MIN_TREE_MAX_COLS
        } else {
            cols
        },
{
    if cols < MIN_TREE_MAX_COLS {
        MIN_TREE_MAX_COLS
    } else {
        cols
    }
}

impl Controller {
    /// The hint at a moment: bright, dimmed, or gone.
    pub open spec fn flash_at(self, now: u64) -> Option<Flash> {
        match self.flash {
            Some(flash) if now < flash.deadline => Some(
                Flash { dim: now >= flash.dim_at, ..flash },
            ),
            _ => None,
        }
    }

    /// Lets the hint fade, and tells whether that changes what is shown.
    pub fn tick_flash(&mut self, now: u64) -> (r: bool)
        ensures
            *final(self) == (Controller { flash: old(self).flash_at(now), ..*old(self) }),
            r == (final(self).flash != old(self).flash),
    {
        match self.flash {
            None => false,
            Some(flash) => {
                if now >= flash.deadline {
                    self.flash = None;
                    return true;
                }
                let dim = now >= flash.dim_at;
                if dim != flash.dim {
                    self.flash = Some(Flash { dim, ..flash });
                    return true;
                }
                false
            },
        }
    }

    /// The text of the hint.
    pub fn flash_text(&self) -> (r: Option<&'static str>)
        ensures
            r is Some <==> self.flash is Some,
            r matches Some(text) ==> text@ == self.flash->0.mode.label_text(),
    {
        match &self.flash {
            Some(flash) => Some(flash.mode.label()),
            None => None,
        }
    }

    /// The launched range is highlighted until its time is over.
    pub open spec fn range_faded(self, now: u64) -> Controller {
        match self.pane.range_flash {
            Some(flash) if now >= flash.deadline => Controller {
                pane: Pane { range_flash: None, ..self.pane },
                ..self
            },
            _ => self,
        }
    }

    /// Ends the highlight of the launched range when its time is over, and tells whether it did.
    pub fn tick_open_range_flash(&mut self, now: u64) -> (r: bool)
        ensures
            *final(self) == old(self).range_faded(now),
            r == (final(self).pane.range_flash != old(self).pane.range_flash),
    {
        if let Some(flash) = self.pane.range_flash {
            if now >= flash.deadline {
                self.pane.range_flash = None;
                return true;
            }
        }
        false
    }

    /// The lines that are highlighted because the viewer was launched on them.
    pub fn open_range_flash_lines(&self) -> (r: Option<(usize, usize)>)
        ensures
            r == match self.pane.range_flash {
                Some(flash) => Some((flash.start, flash.end)),
                None => None,
            },
    {
        match &self.pane.range_flash {
            Some(flash) => Some((flash.start, flash.end)),
            None => None,
        }
    }

    /// The first frame was drawn: the launched file fills the frame if the content has no column.
    pub open spec fn first_frame(self, width: u16) -> Controller {
        if self.screen.pending_open_zoom {
            let drawn = Controller {
                screen: Screen { pending_open_zoom: false, ..self.screen },
                ..self
            };
            if width == 0 {
                drawn.zooms()
            } else {
                drawn
            }
        } else {
            self
        }
    }

    /// The content has another size: it is scrolled so that nothing past its end is shown.
    pub open spec fn resized(self, width: u16, height: u16, layout: Layout) -> Controller {
        Controller {
            screen: Screen { content_width: width, content_height: height, ..self.screen },
            ..self
        }.reclamped(layout)
    }

    /// The content was drawn with a size.
    pub open spec fn viewport_step(self, width: u16, height: u16, layout: Layout) -> Step {
        let drawn = self.first_frame(width);
        let redraw = self.screen.pending_open_zoom && width == 0;
        let effects = Effects { redraw, quit: false, clear: false };
        if width == self.screen.content_width && height == self.screen.content_height {
            Step { next: drawn, effects, actions: Seq::empty() }
        } else {
            let fitted = drawn.resized(width, height, layout);
            let reflow = width != self.screen.content_width && fitted.depends_on_width();
            Step {
                next: fitted.reflowed_if(reflow),
                effects,
                actions: fitted.reflow_actions(reflow),
            }
        }
    }

    /// Takes the size that the content was drawn with; `layout` is that of the content at this
    /// size. Tells whether to draw again.
    pub fn set_content_viewport(
        &mut self,
        width: u16,
        height: u16,
        layout: &Layout,
        out: &mut Vec<Action>,
    ) -> (r: bool)
        ensures
            run(
                *old(self),
                *final(self),
                Effects { redraw: r, quit: false, clear: false },
                old(out)@,
                final(out)@,
            ).takes(old(self).viewport_step(width, height, *layout)),
    {
        let mut redraw = false;
        if self.screen.pending_open_zoom {
            self.screen.pending_open_zoom = false;
            if width == 0 {
                self.zoom_in();
                redraw = true;
            }
        }
        if width == self.screen.content_width && height == self.screen.content_height {
            return redraw;
        }
        let changed = width != self.screen.content_width;
        self.screen.content_width = width;
        self.screen.content_height = height;
        self.reclamp(layout);
        if changed {
            self.rerender_after_resize(out);
        }
        redraw
    }

    /// What was drawn is known, and the tree's offset is the drawn one.
    pub open spec fn drawn(self, geom: PaneGeometry) -> Controller {
        Controller {
            nav: if geom.tree_inner is Some {
                Navigation {
                    tree_scroll: geom.tree_scroll,
                    tree_follow_selection: false,
                    ..self.nav
                }
            } else {
                self.nav
            },
            screen: Screen { geom, ..self.screen },
            ..self
        }
    }

    /// What was drawn is known, and overlays are scrolled no further than they reach.
    pub open spec fn measured(self, geom: PaneGeometry, to: Controller) -> bool {
        let drawn = self.drawn(geom);
        match self.modal {
            Modal::Finder(f) => {
                &&& to.modal matches Modal::Finder(next) && f.leads(
                    FinderMove::ClampScroll(geom.finder_max_hscroll),
                    next,
                )
                &&& to == (Controller { modal: to.modal, ..drawn })
            },
            Modal::Picker(_) => to == drawn.picker_clamped(geom.picker_max_hscroll),
            Modal::Help(_) => drawn.help_changed(HelpMove::Clamp, to),
            _ => to == drawn,
        }
    }

    /// Takes what was drawn in the last frame.
    pub fn set_pane_geometry(&mut self, geom: PaneGeometry)
        ensures
            old(self).measured(geom, *final(self)),
    {
        let (finder_max, picker_max): (u16, u16) = (
            geom.finder_max_hscroll,
            geom.picker_max_hscroll,
        );
        if geom.tree_inner.is_some() {
            self.nav = Navigation {
                tree_scroll: geom.tree_scroll,
                tree_follow_selection: false,
                ..self.nav
            };
        }
        self.screen.geom = geom;
        match &self.modal {
            Modal::Finder(_) => self.clamp_finder(finder_max),
            Modal::Picker(_) => self.clamp_picker(picker_max),
            Modal::Help(_) => self.change_help(HelpMove::Clamp),
            _ => {},
        }
    }

    /// Lowers the horizontal offset of the finder to `max` where it is larger.
    fn clamp_finder(&mut self, max: u16)
        requires
            old(self).modal is Finder,
        ensures
            *final(self) == (Controller { modal: final(self).modal, ..*old(self) }),
            final(self).modal matches Modal::Finder(next) && (old(self).modal->Finder_0).leads(
                FinderMove::ClampScroll(max),
                next,
            ),
    {
        let mut taken = Modal::Closed;
        std::mem::swap(&mut self.modal, &mut taken);
        if let Modal::Finder(f) = taken {
            let mut f = f;
            f.apply(FinderMove::ClampScroll(max));
            self.modal = Modal::Finder(f);
        }
    }

    /// Takes the width of the pane.
    pub fn set_width(&mut self, width: u16)
        ensures
            *final(self) == (Controller {
                screen: Screen { width, ..old(self).screen },
                ..*old(self)
            }),
    {
        self.screen.width = width;
    }

    /// Takes the newer version that is known already, and whether a check for one is running.
    pub fn set_update(&mut self, initial: Option<String>, pending: bool)
        ensures
            *final(self) == (Controller {
                update: Update { available: initial, pending, ..old(self).update },
                ..*old(self)
            }),
    {
        self.update.available = initial;
        self.update.pending = pending;
    }

    /// Takes whether the host can be asked.
    pub fn set_host(&mut self, present: bool)
        ensures
            *final(self) == (Controller {
                host: Host { present, ..old(self).host },
                ..*old(self)
            }),
    {
        self.host.present = present;
    }

    /// Takes whether files can be handed to other programs.
    pub fn set_opener(&mut self, opener: bool)
        ensures
            *final(self) == (Controller { host: Host { opener, ..old(self).host }, ..*old(self) }),
    {
        self.host.opener = opener;
    }

    /// Takes whether there is a full-text search, and whether its program is installed.
    pub fn set_workspace_searcher(&mut self, searcher: Option<bool>)
        ensures
            *final(self) == (Controller {
                host: Host { searcher, ..old(self).host },
                ..*old(self)
            }),
    {
        self.host.searcher = searcher;
    }

    /// Dotfiles are hidden at the start, or not.
    pub open spec fn hide_dotfiles_step(self, hidden: bool) -> Step {
        if hidden == self.prefs.hide_hidden {
            self.quiet()
        } else {
            Controller {
                prefs: Preferences { hide_hidden: hidden, ..self.prefs },
                ..self
            }.follows().asks(Action::Tree { op: TreeOp::HideHidden(hidden), then: Then::Render })
        }
    }

    /// Hides dotfiles at the start, or shows them.
    pub fn apply_hide_dotfiles(&mut self, hidden: bool, out: &mut Vec<Action>) -> (r: Effects)
        ensures
            run(*old(self), *final(self), r, old(out)@, final(out)@).takes(
                old(self).hide_dotfiles_step(hidden),
            ),
    {
        if hidden == self.prefs.hide_hidden {
            return Effects::noop();
        }
        self.prefs.hide_hidden = hidden;
        self.follow();
        out.push(Action::Tree { op: TreeOp::HideHidden(hidden), then: Then::Render });
        Effects::redraw()
    }

    /// The state with other preferences.
    pub open spec fn prefers(self, prefs: Preferences) -> Controller {
        Controller { prefs, ..self }
    }

    /// Sets whether discarding annotations asks first.
    pub fn apply_confirm_discard(&mut self, confirm: bool)
        ensures
            *final(self) == old(self).prefers(
                Preferences { confirm_discard: confirm, ..old(self).prefs },
            ),
    {
        self.prefs.confirm_discard = confirm;
    }

    /// Sets how new workspaces are opened.
    pub fn apply_workspace_launch_settings(&mut self, with_viewer: bool, ratio: ViewerPaneRatio)
        ensures
            *final(self) == old(self).prefers(
                Preferences {
                    open_workspace_with_viewer: with_viewer,
                    viewer_pane_ratio: ratio,
                    ..old(self).prefs
                },
            ),
    {
        self.prefs = Preferences {
            open_workspace_with_viewer: with_viewer,
            viewer_pane_ratio: ratio,
            ..self.prefs
        };
    }

    /// Sets how far one wheel step scrolls: at least one line.
    pub fn apply_scroll_lines(&mut self, lines: u16)
        ensures
            *final(self) == old(self).prefers(
                Preferences {
                    wheel_step: if lines < 1 {
                        1
                    } else {
                        lines
                    },
                    ..old(self).prefs
                },
            ),
    {
        self.prefs.wheel_step = wheel_step(lines);
    }

    /// Sets the tree's share of the width, within its bounds.
    pub fn apply_tree_width(&mut self, pct: u16)
        ensures
            *final(self) == old(self).prefers(
                Preferences {
                    split_pct: between(
                        pct as int,
                        MIN_TREE_WIDTH as int,
                        MAX_TREE_WIDTH as int,
                    ) as u16,
                    ..old(self).prefs
                },
            ),
    {
        self.prefs.split_pct = tree_share(pct);
    }

    /// Sets the side of the tree.
    pub fn apply_tree_position(&mut self, position: TreePosition)
        ensures
            *final(self) == old(self).prefers(
                Preferences { tree_position: position, ..old(self).prefs },
            ),
    {
        self.prefs.tree_position = position;
    }

    /// Sets the most columns that the tree takes, at least the smallest number allowed.
    pub fn apply_tree_max_cols(&mut self, cols: u16)
        ensures
            *final(self) == old(self).prefers(
                Preferences {
                    tree_max_cols: if cols < MIN_TREE_MAX_COLS {
                        MIN_TREE_MAX_COLS
                    } else {
                        cols
                    },
                    ..old(self).prefs
                },
            ),
    {
        self.prefs.tree_max_cols = tree_columns(cols);
    }

    /// Sets the style of the tree's icons.
    pub fn apply_tree_icons(&mut self, icons: TreeIcons)
        ensures
            *final(self) == old(self).prefers(
                Preferences { tree_icons: icons, ..old(self).prefs },
            ),
    {
        self.prefs.tree_icons = icons;
    }

    /// Whether ignored files are shown.
    pub fn show_ignored(&self) -> (r: bool)
        ensures
            r == self.prefs.show_ignored,
    {
        self.prefs.show_ignored
    }

    /// Whether dotfiles are hidden.
    pub fn hide_hidden(&self) -> (r: bool)
        ensures
            r == self.prefs.hide_hidden,
    {
        self.prefs.hide_hidden
    }

    /// Whether the tree lists files changed against the baseline only.
    pub fn changed_only(&self) -> (r: bool)
        ensures
            r == self.prefs.changed_only,
    {
        self.prefs.changed_only
    }

    /// Whether status mode is on.
    pub fn status_mode(&self) -> (r: bool)
        ensures
            r == self.prefs.status_mode,
    {
        self.prefs.status_mode
    }

    /// What changes are counted against.
    pub fn baseline(&self) -> (r: Baseline)
        ensures
            r == self.prefs.baseline,
    {
        self.prefs.baseline
    }

    /// The pane that the keys go to.
    pub fn focus(&self) -> (r: Focus)
        ensures
            r == self.nav.focus,
    {
        self.nav.focus
    }

    /// Whether the content fills the frame.
    pub fn zoomed(&self) -> (r: bool)
        ensures
            r == self.nav.zoomed,
    {
        self.nav.zoomed
    }

    /// The tree's share of the width, in percent.
    pub fn split_pct(&self) -> (r: u16)
        ensures
            r == self.prefs.split_pct,
    {
        self.prefs.split_pct
    }

    /// Whether wrapping is forced on.
    pub fn wrap_override(&self) -> (r: bool)
        ensures
            r == (self.prefs.wrap_override == Some(true)),
    {
        self.prefs.wrap_override == Some(true)
    }

    /// The rows of the tree.
    pub fn tree(&self) -> (r: &TreeView)
        ensures
            *r == self.tree,
    {
        &self.tree
    }

    /// The root.
    pub fn root(&self) -> (r: &FilePath)
        ensures
            *r == self.repo.root,
    {
        &self.repo.root
    }

    /// What the content pane shows.
    pub fn content(&self) -> (r: &super::state::Body)
        ensures
            *r == self.pane.body,
    {
        &self.pane.body
    }

    /// The offset of the content.
    pub fn content_scroll(&self) -> (r: u16)
        ensures
            r == self.nav.content_scroll,
    {
        self.nav.content_scroll
    }

    /// What the user is told about the last action.
    pub fn action_notice(&self) -> (r: Option<String>)
        ensures
            r is Some <==> self.notice is Some,
            r matches Some(text) ==> text@ == self.notice->0.message(),
    {
        match &self.notice {
            Some(notice) => Some(notice.text()),
            None => None,
        }
    }

    /// The branch that the launch named as the base.
    pub fn base_branch_hint(&self) -> (r: Option<&str>)
        ensures
            r is Some <==> self.repo.base_branch is Some,
            r matches Some(name) ==> name@ == self.repo.base_branch->0@,
    {
        match &self.repo.base_branch {
            Some(name) => Some(name.as_str()),
            None => None,
        }
    }

    /// The line that is jumped to once a render is displayed.
    pub fn pending_goto_line(&self) -> (r: Option<usize>)
        ensures
            r == match self.pane.renders.goto {
                Some((_, line)) => Some(line),
                None => None,
            },
    {
        match self.pane.renders.goto {
            Some((_, line)) => Some(line),
            None => None,
        }
    }

    /// Whether line selection waits for a render.
    pub fn line_select_pending(&self) -> (r: bool)
        ensures
            r == self.pane.renders.line_select is Some,
    {
        self.pane.renders.line_select.is_some()
    }

    /// The picker, if it is open.
    pub fn picker(&self) -> (r: Option<&PickerState>)
        ensures
            r is Some <==> self.modal is Picker,
            r matches Some(picker) ==> *picker == self.modal->Picker_0,
    {
        match &self.modal {
            Modal::Picker(picker) => Some(picker),
            _ => None,
        }
    }

    /// The finder, if it is open.
    pub fn finder(&self) -> (r: Option<&FinderState>)
        ensures
            r is Some <==> self.modal is Finder,
            r matches Some(finder) ==> *finder == self.modal->Finder_0,
    {
        match &self.modal {
            Modal::Finder(finder) => Some(finder),
            _ => None,
        }
    }

    /// The files that the finder knows; none while it is closed.
    pub fn finder_candidates(&self) -> (r: &[String])
        ensures
            r@ == match self.modal {
                Modal::Finder(f) => f.files(),
                _ => Seq::empty(),
            },
    {
        match &self.modal {
            Modal::Finder(f) => f.candidates(),
            _ => {
                let none: &[String] = &[];
                assert(none@ =~= Seq::empty());
                none
            },
        }
    }

    /// The query of the finder; empty while it is closed.
    pub fn finder_query(&self) -> (r: &str)
        ensures
            r@ == match self.modal {
                Modal::Finder(f) => f.query_text(),
                _ => Seq::empty(),
            },
    {
        match &self.modal {
            Modal::Finder(f) => f.query(),
            _ => {
                proof {
                    reveal_strlit("");
                    assert(""@ =~= Seq::<char>::empty());
                }
                ""
            },
        }
    }

    /// The matches of the finder; none while it is closed.
    pub fn finder_matches(&self) -> (r: &[usize])
        ensures
            r@ == match self.modal {
                Modal::Finder(f) => f.ranked(),
                _ => Seq::empty(),
            },
    {
        match &self.modal {
            Modal::Finder(f) => f.matches(),
            _ => {
                let none: &[usize] = &[];
                assert(none@ =~= Seq::empty());
                none
            },
        }
    }

    /// The selected match of the finder; 0 while it is closed.
    pub fn finder_cursor(&self) -> (r: usize)
        ensures
            r == match self.modal {
                Modal::Finder(f) => f.position(),
                _ => 0,
            },
    {
        match &self.modal {
            Modal::Finder(f) => f.cursor(),
            _ => 0,
        }
    }

    /// The horizontal offset of the finder; 0 while it is closed.
    pub fn finder_hscroll(&self) -> (r: u16)
        ensures
            r == match self.modal {
                Modal::Finder(f) => f.offset(),
                _ => 0,
            },
    {
        match &self.modal {
            Modal::Finder(f) => f.hscroll(),
            _ => 0,
        }
    }

    /// The in-file search, if there is one.
    pub fn search(&self) -> (r: Option<&SearchState>)
        ensures
            r is Some <==> self.pane.search is Some,
            r matches Some(s) ==> *s == self.pane.search->0,
    {
        match &self.pane.search {
            Some(s) => Some(s),
            None => None,
        }
    }

    /// The annotations of the session.
    pub fn annotations(&self) -> (r: &AnnotationStore)
        ensures
            *r == self.annotations,
    {
        &self.annotations
    }

    /// The list of annotations, if it is open.
    pub fn annotation_list(&self) -> (r: Option<&super::state::AnnotationListState>)
        ensures
            r is Some <==> self.modal is Annotations,
            r matches Some(list) ==> *list == self.modal->Annotations_0,
    {
        match &self.modal {
            Modal::Annotations(list) => Some(list),
            _ => None,
        }
    }

    /// The annotation editor, if it is open.
    pub fn annotation_editor(&self) -> (r: Option<&super::state::AnnotationEditorState>)
        ensures
            r is Some <==> self.modal is AnnotationEditor,
            r matches Some(editor) ==> *editor == self.modal->AnnotationEditor_0,
    {
        match &self.modal {
            Modal::AnnotationEditor(editor) => Some(editor),
            _ => None,
        }
    }
}

impl super::state::AnnotationListState {
    /// The selected annotation.
    pub fn cursor(&self) -> (r: usize)
        ensures
            r == self.cursor,
    {
        self.cursor
    }
}

impl super::state::AnnotationEditorState {
    /// What is annotated.
    pub fn target(&self) -> (r: &crate::annotation::AnnotationTarget)
        ensures
            *r == self.target,
    {
        &self.target
    }

    /// The typed text.
    pub fn text(&self) -> (r: &str)
        ensures
            r@ == self.input.text(),
    {
        self.input.query()
    }

    /// The caret as a byte offset into the typed text.
    pub fn cursor(&self) -> (r: usize)
        ensures
            r == vstd::utf8::encode_utf8(
                self.input.text().take(self.input.caret() as int),
            ).len(),
    {
        self.input.cursor()
    }

    /// Why the text was refused.
    pub fn error(&self) -> (r: Option<&'static str>)
        ensures
            r is Some <==> self.error is Some,
            r matches Some(message) ==> message@ == self.error->0.message_text(),
    {
        match self.error {
            Some(error) => Some(error.message()),
            None => None,
        }
    }

    /// Whether an annotation is changed rather than added.
    pub fn is_edit(&self) -> (r: bool)
        ensures
            r == (self.mode is Edit),
    {
        match self.mode {
            super::state::AnnotationEditorMode::Edit { .. } => true,
            _ => false,
        }
    }
}

/// A hint is repainted once for each change: asked twice at the same moment, nothing changes the
/// second time.
pub proof fn hints_repaint_once(state: Controller, now: u64)
    ensures
        ({
            let ticked = Controller { flash: state.flash_at(now), ..state };
            ticked.flash_at(now) == ticked.flash
        }),
{
}

/// A hint fades in order: it is bright, then dimmed, then gone, and does not come back.
pub proof fn hints_only_fade(state: Controller, earlier: u64, later: u64)
    requires
        earlier <= later,
    ensures
        state.flash_at(earlier) is None ==> state.flash_at(later) is None,
        state.flash_at(earlier) matches Some(a) && a.dim ==> (state.flash_at(
            later,
        ) matches Some(b) ==> b.dim),
{
}

/// The launched file fills the frame only where it could not be seen otherwise, and only once.
pub proof fn launched_files_zoom_at_most_once(
    state: Controller,
    width: u16,
    height: u16,
    layout: Layout,
)
    ensures
        !state.viewport_step(width, height, layout).next.screen.pending_open_zoom,
        state.viewport_step(width, height, layout).next.nav.zoomed ==> state.nav.zoomed || (
        state.screen.pending_open_zoom && width == 0),
{
}

} // verus!
