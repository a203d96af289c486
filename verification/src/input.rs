//! Keys, mouse events and the actions that keys are decoded to.

use vstd::prelude::*;

verus! {

/// A key on the keyboard.
#[derive(Debug, Clone, Copy, PartialEq, Eq, Structural)]
pub enum KeyCode {
    Char(char),
    Enter,
    Esc,
    Backspace,
    Delete,
    Left,
    Right,
    Up,
    Down,
    Home,
    End,
    Tab,
    BackTab,
    /// Any other key.
    Other,
}

/// The modifier keys that are held.
#[derive(Debug, Clone, Copy, PartialEq, Eq, Structural)]
pub struct Modifiers {
    pub shift: bool,
    pub control: bool,
    pub alt: bool,
    /// Any other modifier.
    pub other: bool,
}

impl Modifiers {
    /// No modifier is held, except perhaps Shift.
    pub open spec fn at_most_shift(self) -> bool {
        !self.control && !self.alt && !self.other
    }

    /// No modifiers.
    pub fn none() -> (r: Self)
        ensures
            r == (Modifiers { shift: false, control: false, alt: false, other: false }),
    {
        Modifiers { shift: false, control: false, alt: false, other: false }
    }

    /// Whether no modifier is held, except perhaps Shift.
    pub fn only_shift(self) -> (r: bool)
        ensures
            r == self.at_most_shift(),
    {
        !self.control && !self.alt && !self.other
    }
}

/// A key press.
#[derive(Debug, Clone, Copy, PartialEq, Eq, Structural)]
pub struct Key {
    pub code: KeyCode,
    pub modifiers: Modifiers,
}

impl Key {
    /// A key without modifiers.
    pub fn plain(code: KeyCode) -> (r: Self)
        ensures
            r.code == code,
            r.modifiers == (Modifiers { shift: false, control: false, alt: false, other: false }),
    {
        Key { code, modifiers: Modifiers::none() }
    }
}

/// A mouse button.
#[derive(Debug, Clone, Copy, PartialEq, Eq, Structural)]
pub enum MouseButton {
    Left,
    Right,
    Middle,
}

/// What the mouse did.
#[derive(Debug, Clone, Copy, PartialEq, Eq, Structural)]
pub enum MouseKind {
    Down(MouseButton),
    Up(MouseButton),
    Drag(MouseButton),
    Moved,
    ScrollUp,
    ScrollDown,
    ScrollLeft,
    ScrollRight,
}

/// A mouse event at a cell of the screen.
#[derive(Debug, Clone, Copy, PartialEq, Eq, Structural)]
pub struct Mouse {
    pub kind: MouseKind,
    pub column: u16,
    pub row: u16,
    pub modifiers: Modifiers,
}

/// A rectangle of cells.
#[derive(Debug, Clone, Copy, PartialEq, Eq, Structural)]
pub struct Rect {
    pub x: u16,
    pub y: u16,
    pub width: u16,
    pub height: u16,
}

/// The end of a range of cells, at most the last addressable cell.
pub open spec fn edge(start: u16, len: u16) -> int {
    if start + len > u16::MAX {
        u16::MAX as int
    } else {
        start + len
    }
}

impl Rect {
    /// The cell lies in the rectangle.
    pub open spec fn holds(self, col: u16, row: u16) -> bool {
        self.x <= col < edge(self.x, self.width) && self.y <= row < edge(self.y, self.height)
    }

    /// Whether a cell lies in the rectangle.
    pub fn contains(self, col: u16, row: u16) -> (r: bool)
        ensures
            r == self.holds(col, row),
    {
        col >= self.x && col < self.x.saturating_add(self.width) && row >= self.y && row
            < self.y.saturating_add(self.height)
    }
}

/// A cell lies in a rectangle that may be absent.
pub open spec fn within(rect: Option<Rect>, col: u16, row: u16) -> bool {
    rect matches Some(r) && r.holds(col, row)
}

/// Whether a cell lies in a rectangle that may be absent.
pub fn is_within(rect: Option<Rect>, col: u16, row: u16) -> (r: bool)
    ensures
        r == within(rect, col, row),
{
    match rect {
        Some(area) => area.contains(col, row),
        None => false,
    }
}

/// What the user asks for.
#[derive(Debug, Clone, Copy, PartialEq, Eq, Structural)]
pub enum Intent {
    NavUp,
    NavDown,
    Expand,
    Collapse,
    CollapseAll,
    Activate,
    OpenFullscreen,
    ToggleIgnore,
    ToggleHidden,
    ToggleChangedOnly,
    ToggleStatusMode,
    ToggleBaseline,
    CycleDiffRender,
    CycleView,
    OpenInEditor,
    OpenWithApp,
    RevealInFileManager,
    CopyRepoPath,
    CopyAbsPath,
    AddAnnotation,
    ShowAnnotations,
    ToggleFocus,
    ShrinkTree,
    GrowTree,
    ToggleWrap,
    ToggleZoom,
    TogglePin,
    Refresh,
    DismissUpdate,
    SwitchWorktree,
    OpenFinder,
    OpenTextSearch,
    OpenGoToLine,
    OpenSearch,
    NextMatch,
    PrevMatch,
    TreeScrollLeft,
    TreeScrollRight,
    OpenWorkspace,
    OpenPaneHere,
    ShowContextMenu,
    ShowHelp,
    Close,
}

} // verus!
