//! Scroll offsets for a bordered viewport.
//!
//! A panel of extent `e` shows `max(e, 3) - 3` units of content: two units go
//! to the border and one is kept free ahead of the cursor. The offset of a
//! viewport is the smallest one that keeps the end of the content (the cursor
//! of the input field, the last line of the log) inside that window.

use vstd::prelude::*;

verus! {

/// Units of a panel's extent that never show content.
pub const DECORATION: u16 = 3;

/// The larger of two integers.
pub open spec fn larger(a: int, b: int) -> int {
    if a >= b {
        a
    } else {
        b
    }
}

/// The smaller of two integers.
pub open spec fn smaller(a: int, b: int) -> int {
    if a <= b {
        a
    } else {
        b
    }
}

/// Content units visible in a panel of the given extent.
pub open spec fn visible_extent_of(region_extent: int) -> int {
    larger(region_extent, 3) - 3
}

/// Leading content units hidden when `content` units must end inside a
/// window of `visible` units.
pub open spec fn scroll_of(content: int, visible: int) -> int {
    larger(content, visible) - visible
}

/// Horizontal offset of the input field for a cursor position.
pub open spec fn input_scroll_of(cursor: int, visible: int) -> int {
    scroll_of(cursor, visible)
}

/// Vertical offset of the log panel for a number of lines.
pub open spec fn log_scroll_of(line_count: int, visible: int) -> int {
    scroll_of(line_count, visible)
}

/// Column of the cursor inside the window, counted from the window's start.
pub open spec fn cursor_offset_of(cursor: int, visible: int) -> int {
    smaller(cursor, visible)
}

/// Content units visible in a panel whose width or height is `region_extent`.
/// Panels narrower than the decoration show nothing.
pub fn visible_extent(region_extent: u16) -> (visible: u16)
    ensures
        visible as int == visible_extent_of(region_extent as int),
        visible <= region_extent,
{
    if region_extent > DECORATION {
        region_extent - DECORATION
    } else {
        0
    }
}

/// Horizontal scroll offset of the input field.
pub fn input_scroll(cursor: usize, visible: u16) -> (scroll: usize)
    ensures
        scroll as int == input_scroll_of(cursor as int, visible as int),
{
    let window: usize = visible as usize;
    if cursor > window {
        cursor - window
    } else {
        0
    }
}

/// Vertical scroll offset of the log panel.
pub fn log_scroll(line_count: usize, visible: u16) -> (scroll: usize)
    ensures
        scroll as int == log_scroll_of(line_count as int, visible as int),
{
    let window: usize = visible as usize;
    if line_count > window {
        line_count - window
    } else {
        0
    }
}

/// Column of the cursor inside the window of the input field.
pub fn cursor_offset(cursor: usize, visible: u16) -> (offset: u16)
    ensures
        offset as int == cursor_offset_of(cursor as int, visible as int),
{
    if cursor < visible as usize {
        cursor as u16
    } else {
        visible
    }
}

/// While the cursor is inside the window the input field does not scroll.
pub proof fn input_scroll_zero_inside_window(cursor: nat, visible: nat)
    requires
        cursor <= visible,
    ensures
        input_scroll_of(cursor as int, visible as int) == 0,
{
}

/// Past the window the input field scrolls one unit per cursor step.
pub proof fn input_scroll_follows_cursor(cursor: nat, visible: nat)
    requires
        cursor > visible,
    ensures
        input_scroll_of(cursor as int, visible as int) == cursor - visible,
{
}

/// A log that fits is not scrolled; a longer one hides exactly the lines
/// that do not fit, so the newest line sits on the bottom edge.
pub proof fn log_scroll_pins_newest(line_count: nat, visible: nat)
    ensures
        line_count <= visible ==> log_scroll_of(line_count as int, visible as int) == 0,
        line_count > visible ==> log_scroll_of(line_count as int, visible as int) == line_count
            - visible,
{
}

/// The visible extent is a natural number for every panel extent, also for
/// panels smaller than their decoration.
pub proof fn visible_extent_never_negative(region_extent: nat)
    ensures
        visible_extent_of(region_extent as int) >= 0,
        region_extent <= 3 ==> visible_extent_of(region_extent as int) == 0,
        region_extent > 3 ==> visible_extent_of(region_extent as int) == region_extent - 3,
{
}

/// The scrolled window always contains the end of the content: the offset
/// never exceeds the content, and offset plus window reaches it.
pub proof fn window_holds_content_end(content: nat, visible: nat)
    ensures
        0 <= scroll_of(content as int, visible as int) <= content,
        content <= scroll_of(content as int, visible as int) + visible,
        scroll_of(content as int, visible as int) + cursor_offset_of(
            content as int,
            visible as int,
        ) == content,
{
}

} // verus!
