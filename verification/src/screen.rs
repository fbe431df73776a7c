//! What a frame shows: for each panel its rectangle, its text and how far
//! the text is scrolled, and where the terminal cursor goes.
//!
//! A frame is derived anew from the session and the current terminal area
//! every time; nothing of it is kept.

use crate::layout::{partition, Axis, Panels, Region, MAIN_PERCENT};
use crate::log_store::rendered;
use crate::session::{State, StateView};
use crate::viewport::{
    cursor_offset, cursor_offset_of, input_scroll, input_scroll_of, log_scroll, log_scroll_of,
    smaller, visible_extent, visible_extent_of,
};
use vstd::prelude::*;

verus! {

/// A cell of the terminal. The coordinates are wide enough for the cell
/// behind the last column or row of the grid.
#[derive(Clone, Copy, Debug, PartialEq, Eq, Structural)]
pub struct Position {
    pub x: u32,
    pub y: u32,
}

/// The drawing commands of one frame.
#[derive(Debug)]
pub struct FramePlan {
    /// Rectangle of the decorative side panel.
    pub side_panel: Region,
    /// Rectangle of the log.
    pub log_region: Region,
    /// Text of the log.
    pub log_text: String,
    /// Lines of the log hidden above its window.
    pub log_scroll: usize,
    /// Rectangle of the input field.
    pub input_region: Region,
    /// Text of the input field.
    pub input_text: String,
    /// Characters of the input hidden left of its window.
    pub input_scroll: usize,
    /// Cell of the terminal cursor, where the cursor is shown.
    pub cursor: Option<Position>,
}

/// The cell of the terminal cursor for an input field at `region`: one cell
/// inside the border, as many columns into the window as the cursor is, at
/// most the window's width.
pub open spec fn cursor_cell(region: Region, cursor: int) -> Position {
    Position {
        x: (region.x + cursor_offset_of(cursor, visible_extent_of(region.width as int))
            + 1) as u32,
        y: (region.y + 1) as u32,
    }
}

/// The panels that the frame `plan` draws into.
pub open spec fn panels_of(plan: FramePlan) -> Panels {
    Panels {
        side_panel: plan.side_panel,
        log_region: plan.log_region,
        input_region: plan.input_region,
    }
}

/// The frame `plan` shows the session `state` in the panels `panels`.
pub open spec fn shows(plan: FramePlan, state: StateView, panels: Panels) -> bool {
    &&& plan.side_panel == panels.side_panel
    &&& plan.log_region == panels.log_region
    &&& plan.input_region == panels.input_region
    &&& plan.log_text@ == rendered(state.log)
    &&& plan.log_scroll == log_scroll_of(
        state.log.len() as int,
        visible_extent_of(panels.log_region.height as int),
    )
    &&& plan.input_text@ == state.input.text
    &&& plan.input_scroll == input_scroll_of(
        state.input.cursor as int,
        visible_extent_of(panels.input_region.width as int),
    )
    &&& plan.cursor == if state.capabilities.cursor {
        Some(cursor_cell(panels.input_region, state.input.cursor as int))
    } else {
        None::<Position>
    }
}

/// The cell of the terminal cursor for an input field at `region`.
pub fn cursor_position(region: Region, cursor: usize) -> (cell: Position)
    ensures
        cell == cursor_cell(region, cursor as int),
        cell.x == region.x + cursor_offset_of(
            cursor as int,
            visible_extent_of(region.width as int),
        ) + 1,
        cell.y == region.y + 1,
{
    let column: u16 = cursor_offset(cursor, visible_extent(region.width));
    Position { x: region.x as u32 + column as u32 + 1, y: region.y as u32 + 1 }
}

/// The frame that shows `state` in `panels`.
pub fn compose(state: &State, panels: Panels) -> (plan: FramePlan)
    ensures
        shows(plan, state@, panels),
{
    let input = state.input();
    let log = state.log();
    let cursor: usize = input.cursor();
    let width: u16 = visible_extent(panels.input_region.width);
    let height: u16 = visible_extent(panels.log_region.height);
    let cell = if state.capabilities().cursor {
        Some(cursor_position(panels.input_region, cursor))
    } else {
        None
    };
    FramePlan {
        side_panel: panels.side_panel,
        log_region: panels.log_region,
        log_text: log.render_text(),
        log_scroll: log_scroll(log.line_count(), height),
        input_region: panels.input_region,
        input_text: input.value(),
        input_scroll: input_scroll(cursor, width),
        cursor: cell,
    }
}

/// The frame that shows `state` on a terminal of the given area, or `None`
/// where the area has no partition.
///
/// There is a frame exactly for the areas that can be cut both ways. Its
/// panels are the partition of the area: they tile it, and the log has
/// ninety percent of its width and height. Text, offsets and cursor are
/// those of `state` in these panels.
pub fn ui(state: &State, area: Region) -> (plan: Option<FramePlan>)
    ensures
        plan.is_some() <==> area.splits_along(Axis::Horizontal, MAIN_PERCENT)
            && area.splits_along(Axis::Vertical, MAIN_PERCENT),
        plan.is_some() ==> {
            &&& shows(plan.unwrap(), state@, Panels::of(area))
            &&& panels_of(plan.unwrap()) == Panels::of(area)
            &&& panels_of(plan.unwrap()).tiles(area)
            &&& panels_of(plan.unwrap()).inside(area)
            &&& panels_of(plan.unwrap()).gives_log_main_share(area)
        },
{
    match partition(area) {
        Some(panels) => Some(compose(state, panels)),
        None => None,
    }
}

/// The largest offset and the largest coordinate that a drawing surface of
/// sixteen-bit cells takes.
pub const SURFACE_MAX: u16 = 65535;

/// An offset as the drawing surface takes it: the offset itself, or the
/// largest that the surface can take where the offset is beyond it.
pub fn surface_offset(offset: usize) -> (cell: u16)
    ensures
        cell as int == smaller(offset as int, SURFACE_MAX as int),
{
    if offset < SURFACE_MAX as usize {
        offset as u16
    } else {
        SURFACE_MAX
    }
}

/// A cell as the drawing surface takes it, column first: each coordinate
/// itself, or the last of the grid where the coordinate is beyond it.
pub fn surface_cell(position: Position) -> (cell: (u16, u16))
    ensures
        cell.0 as int == smaller(position.x as int, SURFACE_MAX as int),
        cell.1 as int == smaller(position.y as int, SURFACE_MAX as int),
{
    let column: u16 = if position.x < SURFACE_MAX as u32 {
        position.x as u16
    } else {
        SURFACE_MAX
    };
    let row: u16 = if position.y < SURFACE_MAX as u32 {
        position.y as u16
    } else {
        SURFACE_MAX
    };
    (column, row)
}

/// The cursor of an input field that lies on the grid and has room for
/// content is a cell of the grid inside that field: the surface takes it as
/// it is.
pub proof fn cursor_stays_in_field(region: Region, cursor: nat)
    requires
        region.on_grid(),
        region.width >= 3,
        region.height >= 2,
    ensures
        region.holds(
            cursor_cell(region, cursor as int).x as int,
            cursor_cell(region, cursor as int).y as int,
        ),
        cursor_cell(region, cursor as int).x <= SURFACE_MAX,
        cursor_cell(region, cursor as int).y <= SURFACE_MAX,
{
}

} // verus!
