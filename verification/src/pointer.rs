//! Rules for the mouse: double clicks, and positions on scrollbars.

use vstd::prelude::*;

verus! {

/// How many milliseconds two clicks may be apart to count as a double click.
pub const DOUBLE_CLICK_MS: u64 = 400;

/// What a click landed on.
#[derive(Debug, Clone, Copy, PartialEq, Eq, Structural)]
pub enum ClickOrigin {
    /// A row of the tree.
    Tree,
    /// The title of the content pane.
    ContentTitle,
    /// A result row of the finder.
    Finder,
}

/// A click and when it happened, in milliseconds.
#[derive(Debug, Clone, Copy, PartialEq, Eq, Structural)]
pub struct Click {
    pub column: u16,
    pub row: u16,
    pub at: u64,
    pub origin: ClickOrigin,
}

/// A click pairs with the one before it: on the same row of the same kind of target, soon enough.
/// The column does not matter, because a row is one target from end to end.
pub open spec fn double_click(previous: Option<Click>, row: u16, now: u64, origin: ClickOrigin) -> bool {
    previous matches Some(click) && click.origin == origin && click.row == row && now - click.at
        <= DOUBLE_CLICK_MS
}

/// Tests whether a click pairs with the one before it.
pub fn is_double_click(
    previous: Option<Click>,
    position: (u16, u16),
    now: u64,
    origin: ClickOrigin,
) -> (r: bool)
    ensures
        r == double_click(previous, position.1, now, origin),
{
    match previous {
        Some(click) => click.origin == origin && click.row == position.1 && now.saturating_sub(
            click.at,
        ) <= DOUBLE_CLICK_MS,
        None => false,
    }
}

/// Clicks on different kinds of targets never pair.
pub proof fn clicks_pair_only_on_one_kind_of_target(click: Click, row: u16, now: u64, origin: ClickOrigin)
    requires
        click.origin != origin,
    ensures
        !double_click(Some(click), row, now, origin),
{
}

/// How far along a track of `len` cells from `start` a position lies, in cells.
pub open spec fn along(pos: u16, start: u16, len: u16) -> int {
    let rel = if pos < start {
        0
    } else {
        pos - start
    };
    if len == 0 {
        0
    } else if rel > len - 1 {
        len - 1
    } else {
        rel
    }
}

/// The length of a track in steps.
pub open spec fn steps(len: u16) -> int {
    if len == 0 {
        0
    } else {
        len - 1
    }
}

/// A position on a track as a fraction: the step it is at, and the number of steps.
pub fn track_fraction(pos: u16, start: u16, len: u16) -> (r: (u32, u32))
    ensures
        r.0 == along(pos, start, len),
        r.1 == steps(len),
        r.0 <= r.1,
{
    let span: u16 = len.saturating_sub(1);
    let rel: u16 = pos.saturating_sub(start);
    let at: u16 = if rel > span { span } else { rel };
    (at as u32, span as u32)
}

/// The offset nearest to the same fraction of `max` as a position is of its track, `None` on a
/// track of one cell and where there is nothing to scroll.
pub open spec fn offset_at(pos: u16, start: u16, len: u16, max: int) -> Option<int> {
    if steps(len) == 0 || max == 0 {
        None
    } else {
        Some((along(pos, start, len) * max + steps(len) / 2) / steps(len))
    }
}

/// Maps a position on a track to an offset of at most `max`.
pub fn track_to_offset(pos: u16, start: u16, len: u16, max: u16) -> (r: Option<u16>)
    ensures
        r is Some <==> offset_at(pos, start, len, max as int) is Some,
        r matches Some(offset) ==> {
            &&& Some(offset as int) == offset_at(pos, start, len, max as int)
            &&& offset <= max
        },
{
    let (rel, span): (u32, u32) = track_fraction(pos, start, len);
    if span == 0 || max == 0 {
        return None;
    }
    assert(rel * max <= span * max) by (nonlinear_arith)
        requires
            rel <= span,
    ;
    assert(span * max <= 65534 * 65535) by (nonlinear_arith)
        requires
            span <= 65534,
            max <= 65535,
    ;
    let value: u32 = (rel * max as u32 + span / 2) / span;
    assert(value <= max) by (nonlinear_arith)
        requires
            span > 0,
            rel * max <= span * max,
            value == (rel * max + span / 2) / span as int,
    ;
    Some(value as u16)
}

/// Both ends of a scrollbar reach both ends of what it scrolls.
pub proof fn scrollbar_ends_reach_the_ends(start: u16, len: u16, max: int)
    requires
        len > 1,
        max > 0,
        start + len <= u16::MAX,
    ensures
        offset_at(start, start, len, max) == Some(0int),
        offset_at((start + len - 1) as u16, start, len, max) == Some(max),
{
    let span = len - 1;
    assert((0 * max + span / 2) / span == 0) by (nonlinear_arith)
        requires
            span > 0,
    ;
    assert((span * max + span / 2) / span == max) by (nonlinear_arith)
        requires
            span > 0,
    ;
}

} // verus!
