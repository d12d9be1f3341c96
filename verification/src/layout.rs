//! Rectangles on the terminal and how the wizard splits them.

use ratatui::layout as rl;
use vstd::prelude::*;

verus! {

/// A rectangle of terminal cells.
#[derive(Clone, Copy, Debug, PartialEq, Eq, Structural)]
pub struct Rect {
    pub x: u16,
    pub y: u16,
    pub width: u16,
    pub height: u16,
}

/// A size constraint on one band of a layout.
#[derive(Clone, Copy, Debug, PartialEq, Eq, Structural)]
pub enum Constraint {
    /// Exactly this many cells.
    Length(u16),
    /// This percentage of the area.
    Percentage(u16),
    /// A share of what the other bands leave.
    Fill(u16),
}

/// The axis along which a layout cuts its area into bands.
#[derive(Clone, Copy, Debug, PartialEq, Eq, Structural)]
pub enum Direction {
    Horizontal,
    Vertical,
}

/// What ratatui's `Layout::split` returns for a layout of these constraints
/// along this direction over this area.
pub uninterp spec fn layout_split(
    direction: Direction,
    constraints: Seq<Constraint>,
    area: Rect,
) -> Seq<Rect>;

/// `ratatui::layout::Layout::split` on a layout built by `Layout::vertical` or
/// `Layout::horizontal` (no margin, no spacing, legacy flex). The result is
/// named by `layout_split`. The crate's source (`try_split`, `changes_to_rects`)
/// shows one rectangle per constraint and that each keeps the area's extent
/// across the split direction: `x` and `width` for a vertical split, `y` and
/// `height` for a horizontal one. Where each band starts and how long it is
/// comes from the constraint solver and is not stated. The source's
/// `expect("failed to split")` is reached only if the solver refuses one of the
/// constraints that `try_split` adds; that is not stated here either.
#[verifier::external_body]
fn split(direction: Direction, constraints: &Vec<Constraint>, area: Rect) -> (res: Vec<Rect>)
    ensures
        res@ == layout_split(direction, constraints@, area),
        res@.len() == constraints@.len(),
        forall|i: int|
            #![trigger res@[i]]
            0 <= i < res@.len() ==> (direction == Direction::Vertical ==> res@[i].x == area.x
                && res@[i].width == area.width) && (direction == Direction::Horizontal
                ==> res@[i].y == area.y && res@[i].height == area.height),
{
    let direction = match direction {
        Direction::Horizontal => rl::Direction::Horizontal,
        Direction::Vertical => rl::Direction::Vertical,
    };
    let constraints = constraints.iter().map(|c| match *c {
        Constraint::Length(n) => rl::Constraint::Length(n),
        Constraint::Percentage(n) => rl::Constraint::Percentage(n),
        Constraint::Fill(n) => rl::Constraint::Fill(n),
    });
    let area = rl::Rect { x: area.x, y: area.y, width: area.width, height: area.height };
    let parts = rl::Layout::default().direction(direction).constraints(constraints).split(area);
    parts.iter().map(|r| Rect { x: r.x, y: r.y, width: r.width, height: r.height }).collect()
}

/// Splits `area` into bands along `direction`, one per constraint.
pub fn split_area(direction: Direction, constraints: &Vec<Constraint>, area: Rect) -> (res: Vec<
    Rect,
>)
    ensures
        res@ == layout_split(direction, constraints@, area),
        res@.len() == constraints@.len(),
        forall|i: int|
            #![trigger res@[i]]
            0 <= i < res@.len() ==> (direction == Direction::Vertical ==> res@[i].x == area.x
                && res@[i].width == area.width) && (direction == Direction::Horizontal
                ==> res@[i].y == area.y && res@[i].height == area.height),
{
    split(direction, constraints, area)
}

/// The percentage left on each side of a box `width_pct` percent wide.
pub open spec fn side_percentage(width_pct: u16) -> u16 {
    if width_pct <= 100 {
        ((100 - width_pct) / 2) as u16
    } else {
        0
    }
}

/// The rows that center a band `height` cells high.
pub open spec fn centering_rows_spec(height: u16) -> Seq<Constraint> {
    seq![Constraint::Fill(1), Constraint::Length(height), Constraint::Fill(1)]
}

/// The columns that center a band `width_pct` percent wide.
pub open spec fn centering_columns_spec(width_pct: u16) -> Seq<Constraint> {
    seq![
        Constraint::Percentage(side_percentage(width_pct)),
        Constraint::Percentage(width_pct),
        Constraint::Percentage(side_percentage(width_pct)),
    ]
}

/// The middle row of `area` when it is cut to center `height` cells.
pub open spec fn middle_row_spec(height: u16, area: Rect) -> Rect {
    layout_split(Direction::Vertical, centering_rows_spec(height), area)[1]
}

/// The middle column of `band` when it is cut to center `width_pct` percent.
pub open spec fn middle_column_spec(width_pct: u16, band: Rect) -> Rect {
    layout_split(Direction::Horizontal, centering_columns_spec(width_pct), band)[1]
}

/// The box of `width_pct` percent by `height` cells centered in `area`.
pub open spec fn centered_box_spec(width_pct: u16, height: u16, area: Rect) -> Rect {
    middle_column_spec(width_pct, middle_row_spec(height, area))
}

/// The percentage left on each side of a centered box `width_pct` percent
/// wide: half of what is left of a hundred, nothing when the box is wider.
pub fn side_margin(width_pct: u16) -> (res: u16)
    ensures
        res == side_percentage(width_pct),
{
    (100u16.saturating_sub(width_pct)) / 2
}

/// The vertical constraints that center a band `height` cells high.
pub fn centering_rows(height: u16) -> (res: Vec<Constraint>)
    ensures
        res@ == centering_rows_spec(height),
{
    vec![Constraint::Fill(1), Constraint::Length(height), Constraint::Fill(1)]
}

/// The horizontal constraints that center a band `width_pct` percent wide.
pub fn centering_columns(width_pct: u16) -> (res: Vec<Constraint>)
    ensures
        res@ == centering_columns_spec(width_pct),
{
    let side = side_margin(width_pct);
    vec![Constraint::Percentage(side), Constraint::Percentage(width_pct), Constraint::Percentage(side)]
}

/// The row of `area` in which a box `height` cells high is centered.
pub fn middle_row(height: u16, area: Rect) -> (res: Rect)
    ensures
        res == middle_row_spec(height, area),
        res.x == area.x,
        res.width == area.width,
{
    let rows = centering_rows(height);
    let parts = split_area(Direction::Vertical, &rows, area);
    parts[1]
}

/// The part of `band` in which a box `width_pct` percent wide is centered.
pub fn middle_column(width_pct: u16, band: Rect) -> (res: Rect)
    ensures
        res == middle_column_spec(width_pct, band),
        res.y == band.y,
        res.height == band.height,
{
    let columns = centering_columns(width_pct);
    let parts = split_area(Direction::Horizontal, &columns, band);
    parts[1]
}

/// A box `width_pct` percent of the width of `area` and `height` cells high,
/// centered in it.
pub fn centered_box(width_pct: u16, height: u16, area: Rect) -> (res: Rect)
    ensures
        res == centered_box_spec(width_pct, height, area),
        res.y == middle_row_spec(height, area).y,
        res.height == middle_row_spec(height, area).height,
{
    let row = middle_row(height, area);
    middle_column(width_pct, row)
}

/// The one-line strip just below box `b` where an error is shown, if it still
/// lies within the height of `area`.
pub open spec fn error_strip_spec(b: Rect, area: Rect) -> Option<Rect> {
    let y = if b.y + b.height <= u16::MAX {
        (b.y + b.height) as u16
    } else {
        u16::MAX
    };
    if y < area.height {
        Some(Rect { x: b.x, y: y, width: b.width, height: 1 })
    } else {
        None
    }
}

/// The one-line strip just below box `b`, as wide as it, where an error
/// message goes; `None` when it would fall below the screen.
pub fn error_strip(b: Rect, area: Rect) -> (res: Option<Rect>)
    ensures
        res == error_strip_spec(b, area),
{
    let y = b.y.saturating_add(b.height);
    if y < area.height {
        Some(Rect { y, height: 1, x: b.x, width: b.width })
    } else {
        None
    }
}

} // verus!
