//! Where the panels and the windows stand.

use vstd::prelude::*;

verus! {

/// A part of the screen, in cells.
#[derive(Debug, Clone, Copy, PartialEq, Eq, Structural)]
pub struct Area {
    pub x: u16,
    pub y: u16,
    pub width: u16,
    pub height: u16,
}

/// The direction in which an area is split.
#[derive(Debug, Clone, Copy, PartialEq, Eq, Structural)]
pub enum Axis {
    Horizontal,
    Vertical,
}

impl Area {
    /// Whether the area ends where cells can still be counted.
    pub open spec fn countable(self) -> bool {
        &&& self.x + self.width <= u16::MAX
        &&& self.y + self.height <= u16::MAX
    }

    /// Whether the area lies inside another.
    pub open spec fn inside(self, other: Area) -> bool {
        &&& other.x <= self.x
        &&& self.x + self.width <= other.x + other.width
        &&& other.y <= self.y
        &&& self.y + self.height <= other.y + other.height
    }

    /// Whether the area takes all of another across the axis that the other is split along.
    pub open spec fn spans(self, other: Area, axis: Axis) -> bool {
        match axis {
            Axis::Horizontal => self.y == other.y && self.height == other.height,
            Axis::Vertical => self.x == other.x && self.width == other.width,
        }
    }

    /// Whether the area is the part of another, split along an axis, from one percentage of it to
    /// another.
    pub open spec fn is_part(self, whole: Area, axis: Axis, from: int, to: int) -> bool {
        &&& self.spans(whole, axis)
        &&& match axis {
            Axis::Horizontal => {
                &&& self.x == whole.x + share(whole.width, from)
                &&& self.x + self.width == whole.x + share(whole.width, to)
            },
            Axis::Vertical => {
                &&& self.y == whole.y + share(whole.height, from)
                &&& self.y + self.height == whole.y + share(whole.height, to)
            },
        }
    }
}

/// How many cells a percentage of a length is: rounded to the nearest number, a half upwards.
pub open spec fn share(length: u16, percent: int) -> int {
    (length * percent + 50) / 100
}

/// The sum of the first `count` percentages.
pub open spec fn percent_before(percentages: Seq<u16>, count: int) -> int
    decreases count,
{
    if count <= 0 {
        0
    } else {
        percent_before(percentages, count - 1) + percentages[count - 1]
    }
}

/// Splits an area with `ratatui::layout::Layout::split`, into one part for each percentage. The
/// layout puts the parts one after the other from the start of the area, with nothing between them,
/// each with its percentage of the whole, and rounds where they begin and end to whole cells. It
/// takes all of the area across the axis. Percentages of more than the whole compete with each
/// other, and are not handed over.
#[verifier::external_body]
fn split_area(area: Area, axis: Axis, percentages: &Vec<u16>) -> (parts: Vec<Area>)
    requires
        area.countable(),
        percent_before(percentages@, percentages@.len() as int) <= 100,
    ensures
        parts@.len() == percentages@.len(),
        forall|i: int|
            0 <= i < parts@.len() ==> (#[trigger] parts@[i]).is_part(
                area,
                axis,
                percent_before(percentages@, i),
                percent_before(percentages@, i + 1),
            ),
{
    let direction = match axis {
        Axis::Horizontal => ratatui::layout::Direction::Horizontal,
        Axis::Vertical => ratatui::layout::Direction::Vertical,
    };
    let constraints: Vec<ratatui::layout::Constraint> =
        percentages.iter().map(|part| ratatui::layout::Constraint::Percentage(*part)).collect();
    let whole = ratatui::layout::Rect { x: area.x, y: area.y, width: area.width, height: area.height };
    let layout = ratatui::layout::Layout::default().direction(direction).constraints(constraints);
    layout.split(whole).iter().map(|part| Area {
        x: part.x, y: part.y, width: part.width, height: part.height,
    }).collect()
}

/// Where the panels stand.
#[derive(Debug, Clone, Copy, PartialEq, Eq, Structural)]
pub struct PanelAreas {
    pub projects: Area,
    pub details: Area,
    pub output: Area,
}

/// The widths of the columns: the projects on the left, all else on the right.
pub fn column_percentages() -> (percentages: Vec<u16>)
    ensures
        percentages@ == seq![32u16, 68u16],
{
    let mut percentages: Vec<u16> = Vec::new();
    percentages.push(32);
    percentages.push(68);
    assert(percentages@ =~= seq![32u16, 68u16]);
    percentages
}

/// The heights of the rows on the right: the details, and the output below them.
pub fn row_percentages() -> (percentages: Vec<u16>)
    ensures
        percentages@ == seq![48u16, 52u16],
{
    let mut percentages: Vec<u16> = Vec::new();
    percentages.push(48);
    percentages.push(52);
    assert(percentages@ =~= seq![48u16, 52u16]);
    percentages
}

proof fn part_is_inside(part: Area, whole: Area, axis: Axis, from: int, to: int)
    requires
        part.is_part(whole, axis, from, to),
        0 <= from <= to <= 100,
    ensures
        part.inside(whole),
        whole.countable() ==> part.countable(),
{
    share_grows(whole.width, from, to);
    share_grows(whole.height, from, to);
}

proof fn share_grows(length: u16, from: int, to: int)
    requires
        0 <= from <= to <= 100,
    ensures
        0 <= share(length, from) <= share(length, to) <= share(length, 100) == length,
{
    assert(0 <= length * from <= length * to <= length * 100) by (nonlinear_arith)
        requires
            0 <= from <= to <= 100,
            0 <= length,
    ;
}

/// Places the panels.
pub fn place_panels(screen: Area) -> (areas: PanelAreas)
    requires
        screen.countable(),
    ensures
        areas.projects.is_part(screen, Axis::Horizontal, 0, 32),
        areas.details.x == screen.x + share(screen.width, 32),
        areas.details.x + areas.details.width == screen.x + screen.width,
        areas.details.y == screen.y,
        areas.details.y + areas.details.height == screen.y + share(screen.height, 48),
        areas.output.spans(areas.details, Axis::Vertical),
        areas.output.y == screen.y + share(screen.height, 48),
        areas.output.y + areas.output.height == screen.y + screen.height,
        areas.projects.inside(screen),
        areas.details.inside(screen),
        areas.output.inside(screen),
{
    let columns = column_percentages();
    let rows = row_percentages();
    proof {
        reveal_with_fuel(percent_before, 3);
        assert(columns@[0] == 32 && columns@[1] == 68);
        assert(rows@[0] == 48 && rows@[1] == 52);
    }
    let root = split_area(screen, Axis::Horizontal, &columns);
    proof {
        part_is_inside(root@[0], screen, Axis::Horizontal, 0, 32);
        part_is_inside(root@[1], screen, Axis::Horizontal, 32, 100);
    }
    let right = split_area(root[1], Axis::Vertical, &rows);
    proof {
        part_is_inside(right@[0], root@[1], Axis::Vertical, 0, 48);
        part_is_inside(right@[1], root@[1], Axis::Vertical, 48, 100);
        share_grows(screen.width, 32, 100);
        share_grows(screen.height, 48, 100);
    }
    PanelAreas { projects: root[0], details: right[0], output: right[1] }
}

/// What is left on each side of something in the middle, in percent.
pub open spec fn margin(percent: u16) -> int {
    (100 - percent) / 2
}

/// What puts something in the middle, in percent: the margins on both sides of it.
pub fn centered_percentages(percent: u16) -> (percentages: Vec<u16>)
    requires
        percent <= 100,
    ensures
        percentages@ == seq![margin(percent) as u16, percent, margin(percent) as u16],
{
    let side: u16 = (100 - percent) / 2;
    let mut percentages: Vec<u16> = Vec::new();
    percentages.push(side);
    percentages.push(percent);
    percentages.push(side);
    assert(percentages@ =~= seq![margin(percent) as u16, percent, margin(percent) as u16]);
    percentages
}

proof fn margins_fit(percent: u16, percentages: Seq<u16>)
    requires
        percent <= 100,
        percentages == seq![margin(percent) as u16, percent, margin(percent) as u16],
    ensures
        percent_before(percentages, 1) == margin(percent),
        percent_before(percentages, 2) == margin(percent) + percent,
        percent_before(percentages, 3) == margin(percent) + percent + margin(percent) <= 100,
{
    reveal_with_fuel(percent_before, 4);
}

/// Places a window in the middle of an area, with its size in percent of the area.
pub fn centered_rect(area: Area, width_percent: u16, height_percent: u16) -> (window: Area)
    requires
        area.countable(),
        width_percent <= 100,
        height_percent <= 100,
    ensures
        window.x == area.x + share(area.width, margin(width_percent)),
        window.x + window.width == area.x + share(
            area.width,
            margin(width_percent) + width_percent,
        ),
        window.y == area.y + share(area.height, margin(height_percent)),
        window.y + window.height == area.y + share(
            area.height,
            margin(height_percent) + height_percent,
        ),
        window.inside(area),
{
    let rows = centered_percentages(height_percent);
    let columns = centered_percentages(width_percent);
    let ghost above = margin(height_percent);
    let ghost left = margin(width_percent);
    proof {
        margins_fit(height_percent, rows@);
        margins_fit(width_percent, columns@);
    }
    let vertical = split_area(area, Axis::Vertical, &rows);
    let middle = vertical[1];
    proof {
        part_is_inside(middle, area, Axis::Vertical, above, above + height_percent);
    }
    let horizontal = split_area(middle, Axis::Horizontal, &columns);
    proof {
        part_is_inside(horizontal@[1], middle, Axis::Horizontal, left, left + width_percent);
    }
    horizontal[1]
}

/// A share of a length is the percentage of it to the nearest cell: nothing of it is nothing, and
/// all of it is the whole.
pub proof fn shares_are_rounded_to_the_nearest(length: u16, percent: int)
    requires
        0 <= percent <= 100,
    ensures
        -50 < 100 * share(length, percent) - length * percent <= 50,
        share(length, 0) == 0,
        share(length, 100) == length,
{
    assert(0 <= length * percent) by (nonlinear_arith)
        requires
            0 <= percent,
            0 <= length,
    ;
}

/// What stands in the middle has the same margin on both sides, and leaves at most one percent over.
pub proof fn margins_are_equal_on_both_sides(percent: u16)
    requires
        percent <= 100,
    ensures
        99 <= margin(percent) + percent + margin(percent) <= 100,
        0 <= margin(percent) <= 50,
{
}

/// A part that is split off an area keeps the area's place and size across the axis, and lies along
/// it from one share of the area to another.
pub proof fn parts_lie_along_the_axis(part: Area, whole: Area, from: int, to: int)
    ensures
        part.is_part(whole, Axis::Horizontal, from, to) <==> {
            &&& part.y == whole.y
            &&& part.height == whole.height
            &&& part.x == whole.x + share(whole.width, from)
            &&& part.x + part.width == whole.x + share(whole.width, to)
        },
        part.is_part(whole, Axis::Vertical, from, to) <==> {
            &&& part.x == whole.x
            &&& part.width == whole.width
            &&& part.y == whole.y + share(whole.height, from)
            &&& part.y + part.height == whole.y + share(whole.height, to)
        },
{
}

} // verus!
