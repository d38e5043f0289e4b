//! Where the monitor's dialog stands on the screen.

use vstd::prelude::*;

use ratatui::layout::Constraint;
use ratatui::layout::Direction;
use ratatui::layout::Layout;
use ratatui::layout::Rect;

verus! {

/// A part of the screen, in character cells.
#[derive(Debug, Clone, Copy, PartialEq, Eq, Structural)]
pub struct Area {
    pub x: u16,
    pub y: u16,
    pub width: u16,
    pub height: u16,
}

/// The direction in which an area is parted.
#[derive(Debug, Clone, Copy, PartialEq, Eq, Structural)]
pub enum Axis {
    Horizontal,
    Vertical,
}

/// The first column or row behind `start` and `size`, as far as there are any.
pub open spec fn end_of(start: u16, size: u16) -> int {
    if start + size <= 65535 {
        start + size
    } else {
        65535
    }
}

/// `inner` lies in `outer`.
pub open spec fn lies_in(inner: Area, outer: Area) -> bool {
    &&& outer.x <= inner.x && end_of(inner.x, inner.width) <= end_of(outer.x, outer.width)
    &&& outer.y <= inner.y && end_of(inner.y, inner.height) <= end_of(outer.y, outer.height)
}

/// `part` is what is left of `whole` between two cuts across the axis.
pub open spec fn is_slice(part: Area, whole: Area, axis: Axis) -> bool {
    match axis {
        Axis::Horizontal => part.y == whole.y && part.height == whole.height && whole.x <= part.x
            && part.x + part.width <= end_of(whole.x, whole.width),
        Axis::Vertical => part.x == whole.x && part.width == whole.width && whole.y <= part.y
            && part.y + part.height <= end_of(whole.y, whole.height),
    }
}

/// `percent` percent of `total` cells, in whole cells, halves up.
pub open spec fn share(percent: int, total: int) -> int {
    (percent * total + 50) / 100
}

/// How far a part stands from the beginning of the whole, along the axis.
pub open spec fn start_in(part: Area, whole: Area, axis: Axis) -> int {
    match axis {
        Axis::Horizontal => part.x - whole.x,
        Axis::Vertical => part.y - whole.y,
    }
}

/// How large an area is along the axis, as far as there are columns or rows.
pub open spec fn extent(area: Area, axis: Axis) -> int {
    match axis {
        Axis::Horizontal => end_of(area.x, area.width) - area.x,
        Axis::Vertical => end_of(area.y, area.height) - area.y,
    }
}

/// How far the end of a part stands from the beginning of the whole, along the
/// axis.
pub open spec fn end_in(part: Area, whole: Area, axis: Axis) -> int {
    match axis {
        Axis::Horizontal => part.x + part.width - whole.x,
        Axis::Vertical => part.y + part.height - whole.y,
    }
}

/// `part` is a slice of `whole` that begins `before` percent from its
/// beginning and takes `percent` percent of it; both its ends stand at the
/// nearest cell, halves up.
pub open spec fn takes(part: Area, whole: Area, axis: Axis, before: int, percent: int) -> bool {
    &&& is_slice(part, whole, axis)
    &&& start_in(part, whole, axis) == share(before, extent(whole, axis))
    &&& end_in(part, whole, axis) == share(before + percent, extent(whole, axis))
}

/// `Layout::split` by three percentages that together are no more than the
/// whole: three slices of the area, one behind the other, each with its share
/// of it; every cut is at the nearest cell, halves up.
#[verifier::external_body]
fn split_in_three(area: Area, axis: Axis, shares: (u16, u16, u16)) -> (r: (Area, Area, Area))
    requires
        shares.0 + shares.1 + shares.2 <= 100,
    ensures
        takes(r.0, area, axis, 0, shares.0 as int),
        takes(r.1, area, axis, shares.0 as int, shares.1 as int),
        takes(r.2, area, axis, shares.0 + shares.1, shares.2 as int),
{
    let direction = match axis {
        Axis::Horizontal => Direction::Horizontal,
        Axis::Vertical => Direction::Vertical,
    };
    let constraints = [shares.0, shares.1, shares.2].map(Constraint::Percentage);
    let Area { x, y, width, height } = area;
    let parts = Layout::default().direction(direction).constraints(constraints).split(
        Rect { x, y, width, height },
    );
    let [a, b, c] = [0, 1, 2].map(|i: usize| parts[i]).map(
        |p| Area { x: p.x, y: p.y, width: p.width, height: p.height },
    );
    (a, b, c)
}

/// The share of the dialog and of the margins on both sides of it, in percent.
pub fn popup_shares(percent: u16) -> (r: (u16, u16, u16))
    requires
        percent <= 100,
    ensures
        r.0 == (100 - percent) / 2,
        r.1 == percent,
        r.2 == (100 - percent) / 2,
{
    ((100 - percent) / 2, percent, (100 - percent) / 2)
}

/// A part of `area`, with the given share of its width and height, in its
/// middle.
pub fn centered_rect(percent_x: u16, percent_y: u16, area: Area) -> (r: Area)
    requires
        percent_x <= 100,
        percent_y <= 100,
    ensures
        lies_in(r, area),
        r.x - area.x == share((100 - percent_x) / 2, extent(area, Axis::Horizontal)),
        r.x + r.width - area.x == share(
            (100 - percent_x) / 2 + percent_x,
            extent(area, Axis::Horizontal),
        ),
        r.y - area.y == share((100 - percent_y) / 2, extent(area, Axis::Vertical)),
        r.y + r.height - area.y == share(
            (100 - percent_y) / 2 + percent_y,
            extent(area, Axis::Vertical),
        ),
{
    let row = split_in_three(area, Axis::Vertical, popup_shares(percent_y)).1;
    split_in_three(row, Axis::Horizontal, popup_shares(percent_x)).1
}

/// A share is off by no more than half a cell.
pub proof fn law_share_is_nearest(percent: int, total: int)
    ensures
        -50 < 100 * share(percent, total) - percent * total <= 50,
{
}

/// The shares fill the whole, up to one percent.
pub proof fn law_shares_fill(percent: int)
    requires
        0 <= percent <= 100,
    ensures
        99 <= (100 - percent) / 2 + percent + (100 - percent) / 2 <= 100,
{
}

/// A dialog with a share of an area lies in its middle: it has its share of the
/// width, and the margins on both sides are as wide as each other, to the cell.
pub proof fn law_popup_in_the_middle(percent: int, total: int)
    requires
        0 <= percent <= 100,
        percent % 2 == 0,
        0 <= total,
    ensures
        ({
            let margin = (100 - percent) / 2;
            let start = share(margin, total);
            let end = share(margin + percent, total);
            &&& 0 <= start <= end <= total
            &&& -1 <= (total - end) - start <= 1
            &&& -100 <= 100 * (end - start) - percent * total <= 100
        }),
{
    let margin = (100 - percent) / 2;
    assert(margin * total >= 0) by (nonlinear_arith)
        requires
            margin >= 0,
            total >= 0,
    ;
    assert((margin + percent) * total == margin * total + percent * total) by (nonlinear_arith);
    assert(percent * total >= 0) by (nonlinear_arith)
        requires
            percent >= 0,
            total >= 0,
    ;
    assert(margin * total + percent * total + margin * total == 100 * total) by (nonlinear_arith)
        requires
            2 * margin + percent == 100,
    ;
}

} // verus!
