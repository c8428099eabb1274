//! Splitting an area into rows or columns.
//!
//! The rectangles themselves come from the layout solver of the `tui` crate.
//! Nothing is taken on trust of them but their number: every function that
//! places something in them works for whatever rectangles came back. What is
//! proved of them, that they lie in the area that was split, is seen to here:
//! a rectangle that reaches out of the area is cut down to it.

use vstd::prelude::*;
use tui::layout as grid;
use crate::geometry::Rect;

verus! {

/// The way in which an area is split.
#[derive(Clone, Copy, Debug, PartialEq, Eq, Structural)]
pub enum Direction {
    /// Into columns, side by side.
    Horizontal,
    /// Into rows, one below the other.
    Vertical,
}

/// The extent that one part of a split asks for.
#[derive(Clone, Copy, Debug, PartialEq, Eq, Structural)]
pub enum Constraint {
    /// A share of the area, in percent.
    Percentage(u16),
    /// So many cells.
    Length(u16),
    /// So many cells at least.
    Min(u16),
}

/// The extent, along the direction of the split, of what `margin` leaves of
/// the area. An area that is less than two margins wide or high leaves nothing.
pub open spec fn inner_extent(area: Rect, direction: Direction, margin: u16) -> int {
    if area.width < 2 * margin || area.height < 2 * margin {
        0
    } else {
        match direction {
            Direction::Horizontal => area.width - 2 * margin,
            Direction::Vertical => area.height - 2 * margin,
        }
    }
}

/// The inputs that the solver takes: the area ends on the grid, the margin
/// can be taken off its corner, and every share in percent, times the extent
/// to be shared, is a coordinate of the grid.
pub open spec fn can_split(
    area: Rect,
    direction: Direction,
    margin: u16,
    constraints: Seq<Constraint>,
) -> bool {
    &&& 2 * margin <= u16::MAX
    &&& area.x + margin <= u16::MAX
    &&& area.y + margin <= u16::MAX
    &&& area.right_edge() <= u16::MAX
    &&& area.bottom_edge() <= u16::MAX
    &&& forall|i: int|
        0 <= i < constraints.len() ==> (#[trigger] constraints[i] matches Constraint::Percentage(p)
            ==> p * inner_extent(area, direction, margin) <= u16::MAX)
}

/// The widest and the highest area of which every share up to a hundred
/// percent can be taken.
pub const MAX_SHARED_EXTENT: u16 = 655;

/// The area ends before the last column and row of the grid and is no wider
/// or higher than `MAX_SHARED_EXTENT`. Such an area, and every part of it, can
/// be split with shares up to a hundred percent and a margin of one cell.
pub open spec fn is_roomy(area: Rect) -> bool {
    &&& area.right_edge() < u16::MAX
    &&& area.bottom_edge() < u16::MAX
    &&& area.width <= MAX_SHARED_EXTENT
    &&& area.height <= MAX_SHARED_EXTENT
}

/// No part asks for more than a hundred percent.
pub open spec fn modest(constraints: Seq<Constraint>) -> bool {
    forall|i: int|
        0 <= i < constraints.len() ==> (#[trigger] constraints[i] matches Constraint::Percentage(p)
            ==> p <= 100)
}

/// A roomy area can be split into modest parts, with a margin of one cell or
/// without.
pub proof fn lemma_roomy_area_splits(
    area: Rect,
    direction: Direction,
    margin: u16,
    constraints: Seq<Constraint>,
)
    requires
        is_roomy(area),
        margin <= 1,
        modest(constraints),
    ensures
        can_split(area, direction, margin, constraints),
{
    let extent = inner_extent(area, direction, margin);
    assert(0 <= extent <= 655);
    assert forall|i: int| 0 <= i < constraints.len() implies (
    #[trigger] constraints[i] matches Constraint::Percentage(p) ==> p * extent <= u16::MAX) by {
        if let Constraint::Percentage(p) = constraints[i] {
            assert(p * extent <= 65535) by (nonlinear_arith)
                requires
                    0 <= p <= 100,
                    0 <= extent <= 655,
            ;
        }
    }
}

/// Every part of a roomy area is roomy.
pub proof fn lemma_part_of_roomy_area(area: Rect, part: Rect)
    requires
        is_roomy(area),
        area.encloses(part),
    ensures
        is_roomy(part),
{
}

/// The part of `r` that lies in `area`. A rectangle beside the area leaves a
/// rectangle without cells on the edge of the area.
pub open spec fn cut_to(r: Rect, area: Rect) -> Rect {
    let left = if r.x < area.x {
        area.x as int
    } else if r.x > area.right_edge() {
        area.right_edge()
    } else {
        r.x as int
    };
    let right = if r.right_edge() < left {
        left
    } else if r.right_edge() > area.right_edge() {
        area.right_edge()
    } else {
        r.right_edge()
    };
    let top = if r.y < area.y {
        area.y as int
    } else if r.y > area.bottom_edge() {
        area.bottom_edge()
    } else {
        r.y as int
    };
    let bottom = if r.bottom_edge() < top {
        top
    } else if r.bottom_edge() > area.bottom_edge() {
        area.bottom_edge()
    } else {
        r.bottom_edge()
    };
    Rect {
        x: left as u16,
        y: top as u16,
        width: (right - left) as u16,
        height: (bottom - top) as u16,
    }
}

/// Cuts `r` down to the part of it that lies in `area`.
pub fn clip(r: Rect, area: Rect) -> (part: Rect)
    requires
        area.right_edge() <= u16::MAX,
        area.bottom_edge() <= u16::MAX,
    ensures
        part == cut_to(r, area),
        area.encloses(part),
        area.encloses(r) ==> part == r,
{
    let area_right: u32 = area.x as u32 + area.width as u32;
    let area_bottom: u32 = area.y as u32 + area.height as u32;
    let r_right: u32 = r.x as u32 + r.width as u32;
    let r_bottom: u32 = r.y as u32 + r.height as u32;
    let left: u32 = if r.x < area.x {
        area.x as u32
    } else if r.x as u32 > area_right {
        area_right
    } else {
        r.x as u32
    };
    let right: u32 = if r_right < left {
        left
    } else if r_right > area_right {
        area_right
    } else {
        r_right
    };
    let top: u32 = if r.y < area.y {
        area.y as u32
    } else if r.y as u32 > area_bottom {
        area_bottom
    } else {
        r.y as u32
    };
    let bottom: u32 = if r_bottom < top {
        top
    } else if r_bottom > area_bottom {
        area_bottom
    } else {
        r_bottom
    };
    Rect {
        x: left as u16,
        y: top as u16,
        width: (right - left) as u16,
        height: (bottom - top) as u16,
    }
}

/// Calls `tui::layout::Layout::split` for a layout with the given direction,
/// margin and constraints. Claimed of it: on the inputs that `can_split`
/// admits it returns, and it returns one rectangle for each constraint.
/// Where the rectangles lie is left open.
#[verifier::external_body]
fn solve(area: Rect, direction: Direction, margin: u16, constraints: &Vec<Constraint>) -> (chunks:
    Vec<Rect>)
    requires
        can_split(area, direction, margin, constraints@),
    ensures
        chunks@.len() == constraints@.len(),
{
    let parts = constraints.iter().map(|c| match *c {
        Constraint::Percentage(p) => grid::Constraint::Percentage(p),
        Constraint::Length(l) => grid::Constraint::Length(l),
        Constraint::Min(m) => grid::Constraint::Min(m)
    });
    let way = match direction {
        Direction::Horizontal => grid::Direction::Horizontal,
        Direction::Vertical => grid::Direction::Vertical
    };
    let whole = grid::Rect { x: area.x, y: area.y, width: area.width, height: area.height };
    let chunks = grid::Layout::default().direction(way).margin(margin)
        .constraints(Vec::from_iter(parts)).split(whole);
    chunks.iter().map(|r| Rect::new(r.x, r.y, r.width, r.height)).collect()
}

/// Whether the solver takes these inputs.
pub fn splittable(area: Rect, direction: Direction, margin: u16, constraints: &Vec<Constraint>) -> (ok:
    bool)
    ensures
        ok == can_split(area, direction, margin, constraints@),
{
    let limit: u32 = 0xffff;
    let m: u32 = margin as u32;
    if 2 * m > limit || area.x as u32 + m > limit || area.y as u32 + m > limit || area.x as u32
        + area.width as u32 > limit || area.y as u32 + area.height as u32 > limit {
        return false;
    }
    let extent: u32 = if (area.width as u32) < 2 * m || (area.height as u32) < 2 * m {
        0
    } else {
        match direction {
            Direction::Horizontal => area.width as u32 - 2 * m,
            Direction::Vertical => area.height as u32 - 2 * m,
        }
    };
    let mut i: usize = 0;
    while i < constraints.len()
        invariant
            i <= constraints.len(),
            extent == inner_extent(area, direction, margin),
            extent <= 0xffff,
            limit == 0xffff,
            forall|j: int|
                0 <= j < i ==> (#[trigger] constraints@[j] matches Constraint::Percentage(p) ==> p
                    * inner_extent(area, direction, margin) <= u16::MAX),
        decreases constraints.len() - i,
    {
        if let Constraint::Percentage(p) = constraints[i] {
            let share: u32 = p as u32;
            assert(share * extent <= 0xffff * 0xffff) by (nonlinear_arith)
                requires
                    share <= 0xffff,
                    extent <= 0xffff,
            ;
            if share * extent > limit {
                return false;
            }
        }
        i += 1;
    }
    true
}

/// The rectangles all lie in `area`.
pub open spec fn all_within(area: Rect, chunks: Seq<Rect>) -> bool {
    forall|i: int| 0 <= i < chunks.len() ==> area.encloses(#[trigger] chunks[i])
}

/// Splits `area` into one rectangle for each constraint, or into none where
/// the solver does not take the inputs. Every rectangle is the one that the
/// solver gives, cut down to `area` should it reach out of it, so that nothing
/// is ever laid out beside the area that was split. A roomy area can always
/// be split into modest parts, and so can its parts in turn.
pub fn split(area: Rect, direction: Direction, margin: u16, constraints: &Vec<Constraint>) -> (chunks:
    Option<Vec<Rect>>)
    ensures
        chunks is Some <==> can_split(area, direction, margin, constraints@),
        chunks matches Some(c) ==> c@.len() == constraints@.len() && all_within(area, c@),
        is_roomy(area) && margin <= 1 && modest(constraints@) ==> chunks is Some,
        chunks matches Some(c) ==> (is_roomy(area) ==> forall|i: int|
            0 <= i < c@.len() ==> is_roomy(#[trigger] c@[i])),
{
    proof {
        if is_roomy(area) && margin <= 1 && modest(constraints@) {
            lemma_roomy_area_splits(area, direction, margin, constraints@);
        }
    }
    if !splittable(area, direction, margin, constraints) {
        return None;
    }
    let solved = solve(area, direction, margin, constraints);
    let mut chunks: Vec<Rect> = Vec::new();
    let mut i: usize = 0;
    while i < solved.len()
        invariant
            i <= solved.len(),
            area.right_edge() <= u16::MAX,
            area.bottom_edge() <= u16::MAX,
            chunks@.len() == i,
            all_within(area, chunks@),
            forall|j: int| 0 <= j < i ==> #[trigger] chunks@[j] == cut_to(solved@[j], area),
        decreases solved.len() - i,
    {
        chunks.push(clip(solved[i], area));
        i += 1;
    }
    proof {
        if is_roomy(area) {
            assert forall|j: int| 0 <= j < chunks@.len() implies is_roomy(#[trigger] chunks@[j]) by {
                lemma_part_of_roomy_area(area, chunks@[j]);
            }
        }
    }
    Some(chunks)
}

/// The three rows or columns of which the middle one takes `percent` of the
/// area and the other two share the rest.
pub open spec fn centered_parts(percent: u16) -> Seq<Constraint>
    recommends
        percent <= 100,
{
    seq![
        Constraint::Percentage(((100 - percent) / 2) as u16),
        Constraint::Percentage(percent),
        Constraint::Percentage(((100 - percent) / 2) as u16),
    ]
}

/// The three rows or columns of which the first one takes `percent` of the
/// area and the other two share the rest.
pub open spec fn leading_parts(percent: u16) -> Seq<Constraint>
    recommends
        percent <= 100,
{
    seq![
        Constraint::Percentage(percent),
        Constraint::Percentage(((100 - percent) / 2) as u16),
        Constraint::Percentage(((100 - percent) / 2) as u16),
    ]
}

fn centered_constraints(percent: u16) -> (parts: Vec<Constraint>)
    requires
        percent <= 100,
    ensures
        parts@ == centered_parts(percent),
        modest(parts@),
{
    let rest: u16 = (100 - percent) / 2;
    let mut parts: Vec<Constraint> = Vec::new();
    parts.push(Constraint::Percentage(rest));
    parts.push(Constraint::Percentage(percent));
    parts.push(Constraint::Percentage(rest));
    assert(parts@ =~= centered_parts(percent));
    parts
}

fn leading_constraints(percent: u16) -> (parts: Vec<Constraint>)
    requires
        percent <= 100,
    ensures
        parts@ == leading_parts(percent),
        modest(parts@),
{
    let rest: u16 = (100 - percent) / 2;
    let mut parts: Vec<Constraint> = Vec::new();
    parts.push(Constraint::Percentage(percent));
    parts.push(Constraint::Percentage(rest));
    parts.push(Constraint::Percentage(rest));
    assert(parts@ =~= leading_parts(percent));
    parts
}

/// Picks the middle one of three parts; of another number of parts there is
/// no middle one.
pub fn middle_of(parts: &Vec<Rect>) -> (part: Option<Rect>)
    ensures
        part == (if parts@.len() == 3 {
            Some(parts@[1])
        } else {
            None
        }),
{
    if parts.len() == 3 {
        Some(parts[1])
    } else {
        None
    }
}

/// Picks the first one of three parts; of another number of parts there is
/// none.
pub fn first_of(parts: &Vec<Rect>) -> (part: Option<Rect>)
    ensures
        part == (if parts@.len() == 3 {
            Some(parts@[0])
        } else {
            None
        }),
{
    if parts.len() == 3 {
        Some(parts[0])
    } else {
        None
    }
}

/// A rectangle in the middle of the middle one of the three rows `rows`, that
/// takes `percent_x` of its width: the middle column of that row. There is
/// one if and only if the rows are three, the share is a hundred percent at
/// most and the solver takes the row. It lies in the row.
pub fn centered_in(rows: &Vec<Rect>, percent_x: u16) -> (area: Option<Rect>)
    ensures
        area is Some <==> rows@.len() == 3 && percent_x <= 100 && can_split(
            rows@[1],
            Direction::Horizontal,
            0,
            centered_parts(percent_x),
        ),
        area matches Some(a) ==> rows@[1].encloses(a),
{
    if percent_x > 100 {
        return None;
    }
    let row = middle_of(rows)?;
    let columns = split(row, Direction::Horizontal, 0, &centered_constraints(percent_x))?;
    middle_of(&columns)
}

/// A rectangle in the left of the first one of the three rows `rows`, that
/// takes `percent_x` of its width: the first column of that row. There is one
/// if and only if the rows are three, the share is a hundred percent at most
/// and the solver takes the row. It lies in the row.
pub fn top_left_in(rows: &Vec<Rect>, percent_x: u16) -> (area: Option<Rect>)
    ensures
        area is Some <==> rows@.len() == 3 && percent_x <= 100 && can_split(
            rows@[0],
            Direction::Horizontal,
            0,
            leading_parts(percent_x),
        ),
        area matches Some(a) ==> rows@[0].encloses(a),
{
    if percent_x > 100 {
        return None;
    }
    let row = first_of(rows)?;
    let columns = split(row, Direction::Horizontal, 0, &leading_constraints(percent_x))?;
    first_of(&columns)
}

/// A rectangle in the middle of `r` that takes `percent_x` of its width and
/// `percent_y` of its height: the middle row of `r`, and of that row the
/// middle column. There is none where a share is over a hundred percent or
/// the solver does not take `r` or the row; a roomy `r` always has one. It
/// lies in `r`.
pub fn centered_rect(percent_x: u16, percent_y: u16, r: Rect) -> (area: Option<Rect>)
    ensures
        percent_x > 100 || percent_y > 100 ==> area is None,
        percent_y <= 100 && !can_split(r, Direction::Vertical, 0, centered_parts(percent_y))
            ==> area is None,
        percent_x <= 100 && percent_y <= 100 && is_roomy(r) ==> area is Some,
        area matches Some(a) ==> r.encloses(a),
{
    if percent_y > 100 {
        return None;
    }
    let rows = split(r, Direction::Vertical, 0, &centered_constraints(percent_y))?;
    proof {
        if percent_x <= 100 && is_roomy(r) {
            lemma_roomy_area_splits(rows@[1], Direction::Horizontal, 0, centered_parts(percent_x));
        }
    }
    centered_in(&rows, percent_x)
}

/// A rectangle in the top left corner of `r` that takes `percent_x` of its
/// width and `percent_y` of its height: the first row of `r`, and of that row
/// the first column. There is none where a share is over a hundred percent or
/// the solver does not take `r` or the row; a roomy `r` always has one. It
/// lies in `r`.
pub fn top_left_rect(percent_x: u16, percent_y: u16, r: Rect) -> (area: Option<Rect>)
    ensures
        percent_x > 100 || percent_y > 100 ==> area is None,
        percent_y <= 100 && !can_split(r, Direction::Vertical, 0, leading_parts(percent_y))
            ==> area is None,
        percent_x <= 100 && percent_y <= 100 && is_roomy(r) ==> area is Some,
        area matches Some(a) ==> r.encloses(a),
{
    if percent_y > 100 {
        return None;
    }
    let rows = split(r, Direction::Vertical, 0, &leading_constraints(percent_y))?;
    proof {
        if percent_x <= 100 && is_roomy(r) {
            lemma_roomy_area_splits(rows@[0], Direction::Horizontal, 0, leading_parts(percent_x));
        }
    }
    top_left_in(&rows, percent_x)
}

} // verus!
