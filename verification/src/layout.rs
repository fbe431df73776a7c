//! Rectangles of the terminal grid and the partition of the screen into panels.
//!
//! The screen is cut twice, each time into a ninety and a ten percent share:
//! first side by side, into a main column and a side panel, then the main
//! column top to bottom, into the log and the input field.
//!
//! The rounding rule: the first share of a cut gets `90 * extent / 100`
//! cells, fractions of a cell dropped, and the last share gets every cell
//! that is left. So a screen of 85 columns has a main column of 76 and a side
//! panel of 9.
//!
//! The cuts themselves are made by the layout solver of `tui`, so the panels
//! are the rectangles that the drawing surface computes. What the solver
//! answers is taken on trust, in the terms of [`split_by_percent`]; verified
//! here is that it is only ever handed an area that it can split, which
//! rectangle becomes which panel, and that the panels tile the screen.

use tui::layout::{Constraint, Direction, Layout, Rect};
use vstd::prelude::*;

verus! {

/// Share of the main column, and of the log inside it, in percent.
pub const MAIN_PERCENT: u16 = 90;

/// Share of the side panel, and of the input field, in percent.
pub const REST_PERCENT: u16 = 10;

/// A rectangle of terminal cells: origin and extent.
#[derive(Clone, Copy, Debug, PartialEq, Eq, Structural)]
pub struct Region {
    pub x: u16,
    pub y: u16,
    pub width: u16,
    pub height: u16,
}

/// The direction in which an area is cut into shares.
#[derive(Clone, Copy, Debug, PartialEq, Eq, Structural)]
pub enum Axis {
    /// Shares lie side by side and divide the width.
    Horizontal,
    /// Shares lie one above the other and divide the height.
    Vertical,
}

/// The three panels of the screen.
#[derive(Clone, Copy, Debug, PartialEq, Eq, Structural)]
pub struct Panels {
    /// The decorative panel on the right.
    pub side_panel: Region,
    /// The scrolling log, upper part of the main column.
    pub log_region: Region,
    /// The input field, lower part of the main column.
    pub input_region: Region,
}

impl Axis {
    /// The other direction.
    pub open spec fn across(self) -> Axis {
        match self {
            Axis::Horizontal => Axis::Vertical,
            Axis::Vertical => Axis::Horizontal,
        }
    }
}

/// The cells that `percent` percent of `extent` cells come to: fractions of
/// a cell are dropped.
pub open spec fn share_of(extent: int, percent: int) -> int {
    percent * extent / 100
}

impl Region {
    /// The rectangle ends on the grid: its right and bottom edges are
    /// coordinates that sixteen bits can hold.
    pub open spec fn on_grid(self) -> bool {
        &&& self.x + self.width <= u16::MAX
        &&& self.y + self.height <= u16::MAX
    }

    /// The rectangle lies inside `outer`: no edge of it is beyond the
    /// matching edge of `outer`.
    pub open spec fn inside(self, outer: Region) -> bool {
        &&& outer.x <= self.x
        &&& outer.y <= self.y
        &&& self.x + self.width <= outer.x + outer.width
        &&& self.y + self.height <= outer.y + outer.height
    }

    /// The cell at column `column` and row `row` belongs to the rectangle.
    pub open spec fn holds(self, column: int, row: int) -> bool {
        &&& self.x <= column < self.x + self.width
        &&& self.y <= row < self.y + self.height
    }

    /// The coordinate at which the rectangle starts in the direction of
    /// `axis`: its left edge for a cut side by side, its top edge otherwise.
    pub open spec fn start_along(self, axis: Axis) -> int {
        match axis {
            Axis::Horizontal => self.x as int,
            Axis::Vertical => self.y as int,
        }
    }

    /// The extent of the rectangle in the direction of `axis`: the extent
    /// that a cut along `axis` divides.
    pub open spec fn extent_along(self, axis: Axis) -> int {
        match axis {
            Axis::Horizontal => self.width as int,
            Axis::Vertical => self.height as int,
        }
    }

    /// The coordinate behind the rectangle in the direction of `axis`: its
    /// right edge for a cut side by side, its bottom edge otherwise.
    pub open spec fn end_along(self, axis: Axis) -> int {
        self.start_along(axis) + self.extent_along(axis)
    }

    /// The first share of a cut along `axis`: it starts where the rectangle
    /// starts and takes `percent` percent of its extent, in whole cells.
    pub open spec fn first_share(self, axis: Axis, percent: u16) -> Region {
        match axis {
            Axis::Horizontal => Region {
                width: share_of(self.width as int, percent as int) as u16,
                ..self
            },
            Axis::Vertical => Region {
                height: share_of(self.height as int, percent as int) as u16,
                ..self
            },
        }
    }

    /// The last share of a cut along `axis`: all of the rectangle behind
    /// the first share.
    pub open spec fn last_share(self, axis: Axis, percent: u16) -> Region {
        match axis {
            Axis::Horizontal => Region {
                x: (self.x + share_of(self.width as int, percent as int)) as u16,
                width: (self.width - share_of(self.width as int, percent as int)) as u16,
                ..self
            },
            Axis::Vertical => Region {
                y: (self.y + share_of(self.height as int, percent as int)) as u16,
                height: (self.height - share_of(self.height as int, percent as int)) as u16,
                ..self
            },
        }
    }

    /// The area can be cut along `axis` into shares of at most `percent`
    /// percent: it ends on the grid, and the product of extent and percentage,
    /// which the solver forms in sixteen bits, fits.
    pub open spec fn splits_along(self, axis: Axis, percent: u16) -> bool {
        &&& self.on_grid()
        &&& percent * self.extent_along(axis) <= u16::MAX
    }

    /// Decides [`Region::splits_along`].
    pub fn can_split(&self, axis: Axis, percent: u16) -> (yes: bool)
        ensures
            yes == self.splits_along(axis, percent),
    {
        let extent: u16 = match axis {
            Axis::Horizontal => self.width,
            Axis::Vertical => self.height,
        };
        let right: u32 = self.x as u32 + self.width as u32;
        let bottom: u32 = self.y as u32 + self.height as u32;
        assert(percent * extent <= 65535 * 65535) by (nonlinear_arith)
            requires
                0 <= percent <= 65535,
                0 <= extent <= 65535,
        ;
        let product: u64 = percent as u64 * extent as u64;
        right <= 65535 && bottom <= 65535 && product <= 65535
    }
}

impl Panels {
    /// The panels that the two cuts make of `area`.
    pub open spec fn of(area: Region) -> Panels {
        let main_column = area.first_share(Axis::Horizontal, MAIN_PERCENT);
        Panels {
            side_panel: area.last_share(Axis::Horizontal, MAIN_PERCENT),
            log_region: main_column.first_share(Axis::Vertical, MAIN_PERCENT),
            input_region: main_column.last_share(Axis::Vertical, MAIN_PERCENT),
        }
    }

    /// Every panel lies inside `area`.
    pub open spec fn inside(self, area: Region) -> bool {
        &&& self.side_panel.inside(area)
        &&& self.log_region.inside(area)
        &&& self.input_region.inside(area)
    }

    /// The panels tile `area`: the log starts at the origin of the area, the
    /// input field lies directly below it and is as wide, the side panel
    /// lies directly right of both and is as high as the area, and together
    /// they are as wide and as high as the area.
    pub open spec fn tiles(self, area: Region) -> bool {
        &&& self.log_region.x == area.x
        &&& self.log_region.y == area.y
        &&& self.input_region.x == area.x
        &&& self.input_region.width == self.log_region.width
        &&& self.input_region.y == self.log_region.y + self.log_region.height
        &&& self.log_region.height + self.input_region.height == area.height
        &&& self.side_panel.x == self.log_region.x + self.log_region.width
        &&& self.side_panel.y == area.y
        &&& self.side_panel.height == area.height
        &&& self.log_region.width + self.side_panel.width == area.width
    }

    /// The log has the main share of the width and of the height of `area`.
    pub open spec fn gives_log_main_share(self, area: Region) -> bool {
        &&& self.log_region.width == share_of(area.width as int, MAIN_PERCENT as int)
        &&& self.log_region.height == share_of(area.height as int, MAIN_PERCENT as int)
    }
}

/// `tui::layout::Layout::split`, for a layout of two percentage constraints
/// along `axis` that add up to a hundred, without margin.
///
/// Claimed of it, as its source has it:
/// - the solver answers with one rectangle per constraint, so with two;
/// - required of the solver, and so true of its answer: the first
///   rectangle starts where the area starts, the second starts where the
///   first ends, and across the cut each rectangle has the origin and the
///   extent of the area;
/// - asked of the solver is a first extent of `first * extent / 100` and a
///   second of `second * extent / 100`; as the two percentages add up to a
///   hundred, both wishes can be met beside what is required, so they are;
///   the answer is then cut down to whole cells;
/// - the extent of the last rectangle is finally set to what is left of the
///   area behind its origin, so it ends where the area ends.
///
/// The solver panics on an area that runs off the grid, and forms
/// `percent * extent` in sixteen bits; both are kept out by the precondition.
#[verifier::external_body]
fn split_by_percent(area: Region, axis: Axis, first: u16, second: u16) -> (parts: Vec<Region>)
    requires
        first + second == 100,
        area.splits_along(axis, first),
        area.splits_along(axis, second),
    ensures
        parts@.len() == 2,
        parts@[0].start_along(axis) == area.start_along(axis),
        parts@[0].extent_along(axis) == share_of(area.extent_along(axis), first as int),
        parts@[1].start_along(axis) == parts@[0].end_along(axis),
        parts@[1].end_along(axis) == area.end_along(axis),
        parts@[0].start_along(axis.across()) == area.start_along(axis.across()),
        parts@[0].extent_along(axis.across()) == area.extent_along(axis.across()),
        parts@[1].start_along(axis.across()) == area.start_along(axis.across()),
        parts@[1].extent_along(axis.across()) == area.extent_along(axis.across()),
{
    let direction = match axis {
        Axis::Horizontal => Direction::Horizontal,
        Axis::Vertical => Direction::Vertical,
    };
    Layout::default()
        .direction(direction)
        .constraints([Constraint::Percentage(first), Constraint::Percentage(second)].as_ref())
        .split(Rect { x: area.x, y: area.y, width: area.width, height: area.height })
        .iter()
        .map(|r| Region { x: r.x, y: r.y, width: r.width, height: r.height })
        .collect()
}

/// A share of at most a hundred percent is a natural number of cells, no
/// more than the extent that it is taken from.
pub proof fn share_is_within_extent(extent: int, percent: int)
    requires
        0 <= extent,
        0 <= percent <= 100,
    ensures
        0 <= share_of(extent, percent) <= extent,
{
    assert(0 <= percent * extent <= 100 * extent) by (nonlinear_arith)
        requires
            0 <= extent,
            0 <= percent <= 100,
    ;
}

/// The two shares of a cut lie inside the area, side by side along the cut
/// and without a gap, and together they are the area.
pub proof fn shares_tile_the_area(area: Region, axis: Axis, percent: u16)
    requires
        area.on_grid(),
        percent <= 100,
    ensures
        area.first_share(axis, percent).inside(area),
        area.last_share(axis, percent).inside(area),
        area.first_share(axis, percent).start_along(axis) == area.start_along(axis),
        area.last_share(axis, percent).start_along(axis) == area.first_share(
            axis,
            percent,
        ).end_along(axis),
        area.last_share(axis, percent).end_along(axis) == area.end_along(axis),
        area.first_share(axis, percent).extent_along(axis) == share_of(
            area.extent_along(axis),
            percent as int,
        ),
        area.first_share(axis, percent).extent_along(axis.across()) == area.extent_along(
            axis.across(),
        ),
        area.last_share(axis, percent).extent_along(axis.across()) == area.extent_along(
            axis.across(),
        ),
{
    share_is_within_extent(area.extent_along(axis), percent as int);
}

/// Cuts `area` along `axis` into a share of ninety and a share of ten
/// percent, first the larger.
///
/// The answer is `None` exactly where the solver cannot be asked. Otherwise
/// it holds the two shares: the first with ninety percent of the extent in
/// whole cells, the second with the rest.
pub fn cut(area: Region, axis: Axis) -> (parts: Option<Vec<Region>>)
    ensures
        parts.is_some() <==> area.splits_along(axis, MAIN_PERCENT),
        parts.is_some() ==> {
            &&& parts.unwrap()@.len() == 2
            &&& parts.unwrap()@[0] == area.first_share(axis, MAIN_PERCENT)
            &&& parts.unwrap()@[1] == area.last_share(axis, MAIN_PERCENT)
            &&& parts.unwrap()@[0].inside(area)
            &&& parts.unwrap()@[1].inside(area)
        },
{
    if area.can_split(axis, MAIN_PERCENT) {
        let parts = split_by_percent(area, axis, MAIN_PERCENT, REST_PERCENT);
        proof {
            shares_tile_the_area(area, axis, MAIN_PERCENT);
        }
        Some(parts)
    } else {
        None
    }
}

/// Names the panels among the rectangles of the two cuts: `columns` are the
/// shares of the screen from left to right, `rows` the shares of the first
/// column from top to bottom.
pub fn assemble(columns: &Vec<Region>, rows: &Vec<Region>) -> (panels: Panels)
    requires
        columns@.len() >= 2,
        rows@.len() >= 2,
    ensures
        panels.side_panel == columns@[1],
        panels.log_region == rows@[0],
        panels.input_region == rows@[1],
{
    Panels { side_panel: columns[1], log_region: rows[0], input_region: rows[1] }
}

/// The panels of an area on the grid tile it, lie inside it, and give the
/// log ninety percent of its width and of its height, in whole cells.
pub proof fn panels_tile_the_area(area: Region)
    requires
        area.on_grid(),
    ensures
        Panels::of(area).tiles(area),
        Panels::of(area).inside(area),
        Panels::of(area).gives_log_main_share(area),
{
    let main_column = area.first_share(Axis::Horizontal, MAIN_PERCENT);
    shares_tile_the_area(area, Axis::Horizontal, MAIN_PERCENT);
    shares_tile_the_area(main_column, Axis::Vertical, MAIN_PERCENT);
}

/// Panels that tile an area are disjoint and cover it: every cell of the
/// area belongs to exactly one panel, and no other cell belongs to any.
pub proof fn tiling_gives_each_cell_one_panel(panels: Panels, area: Region, column: int, row: int)
    requires
        panels.tiles(area),
    ensures
        area.holds(column, row) <==> (panels.log_region.holds(column, row)
            || panels.input_region.holds(column, row) || panels.side_panel.holds(column, row)),
        !(panels.log_region.holds(column, row) && panels.input_region.holds(column, row)),
        !(panels.log_region.holds(column, row) && panels.side_panel.holds(column, row)),
        !(panels.input_region.holds(column, row) && panels.side_panel.holds(column, row)),
{
}

/// Partitions the terminal area into its panels: the area is cut side by
/// side, its first share top to bottom, and [`assemble`] names the panels.
///
/// An area has a partition exactly if it can be cut both ways; this covers
/// every terminal of up to 728 columns and rows. The panels tile the area,
/// the log has ninety percent of its width and height in whole cells, and
/// the side panel and the input field have what is left.
pub fn partition(area: Region) -> (panels: Option<Panels>)
    ensures
        panels.is_some() <==> area.splits_along(Axis::Horizontal, MAIN_PERCENT)
            && area.splits_along(Axis::Vertical, MAIN_PERCENT),
        panels.is_some() ==> {
            &&& panels.unwrap() == Panels::of(area)
            &&& panels.unwrap().tiles(area)
            &&& panels.unwrap().inside(area)
            &&& panels.unwrap().gives_log_main_share(area)
        },
{
    match cut(area, Axis::Horizontal) {
        None => None,
        Some(columns) => {
            let main_column = columns[0];
            match cut(main_column, Axis::Vertical) {
                None => None,
                Some(rows) => {
                    proof {
                        panels_tile_the_area(area);
                    }
                    Some(assemble(&columns, &rows))
                },
            }
        },
    }
}

} // verus!
