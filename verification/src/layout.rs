//! Screen geometry: the areas the screen is split into, hit tests on them,
//! wrapped line counts and scroll offsets.
use vstd::prelude::*;
use ratatui::layout as tui;

verus! {

/// A rectangle of terminal cells.
#[derive(Clone, Copy, Debug, PartialEq, Eq, Structural)]
pub struct Area {
    pub x: u16,
    pub y: u16,
    pub width: u16,
    pub height: u16,
}

/// The direction an area is split along.
#[derive(Clone, Copy, Debug, PartialEq, Eq, Structural)]
pub enum Axis {
    Vertical,
    Horizontal,
}

/// How much room one part of a split asks for.
#[derive(Clone, Copy, Debug, PartialEq, Eq, Structural)]
pub enum Constraint {
    Length(u16),
    Min(u16),
    Percentage(u16),
}

/// `parts` is a split that `ratatui::layout::Layout::split` can give of
/// `area` along `axis` under `constraints`. This is a relation, not a
/// function: where several splits are equally good, which one the solver
/// gives depends on the order in which it walks its hash maps.
pub uninterp spec fn solver_split(
    area: Area,
    axis: Axis,
    constraints: Seq<Constraint>,
    parts: Seq<Area>,
) -> bool;

/// `ratatui::layout::Layout::split` with no margin and no spacing: one
/// part per constraint; the parts keep the area's extent across the
/// split direction (a vertical split keeps `x` and `width`, a horizontal
/// one keeps `y` and `height`). Where the constraints leave several
/// equally good splits, which one the solver picks depends on the order in
/// which it walks its hash maps, so the parts' extent along the split
/// direction is given only as one of the solver's possible splits.
#[verifier::external_body]
pub fn split_area(area: Area, axis: Axis, constraints: &Vec<Constraint>) -> (r: Vec<Area>)
    ensures
        solver_split(area, axis, constraints@, r@),
        r@.len() == constraints@.len(),
        forall|i: int|
            0 <= i < r@.len() ==> match axis {
                Axis::Vertical => r@[i].x == area.x && r@[i].width == area.width,
                Axis::Horizontal => r@[i].y == area.y && r@[i].height == area.height,
            },
{
    let direction = match axis {
        Axis::Vertical => tui::Direction::Vertical,
        Axis::Horizontal => tui::Direction::Horizontal,
    };
    let parts = constraints.iter().map(|c| match *c {
        Constraint::Length(n) => tui::Constraint::Length(n),
        Constraint::Min(n) => tui::Constraint::Min(n),
        Constraint::Percentage(n) => tui::Constraint::Percentage(n),
    });
    let rect = tui::Rect { x: area.x, y: area.y, width: area.width, height: area.height };
    let rects = tui::Layout::default().direction(direction).constraints(parts).split(rect);
    rects.iter().map(|r| Area { x: r.x, y: r.y, width: r.width, height: r.height }).collect()
}

/// How many lines `textwrap::wrap` breaks `text` into at `width` columns.
pub uninterp spec fn wrapped_lines(text: Seq<char>, width: usize) -> nat;

/// `textwrap::wrap`, counting the lines it gives.
#[verifier::external_body]
pub fn wrapped_line_count(text: &str, width: usize) -> (r: usize)
    ensures
        r == wrapped_lines(text@, width),
{
    textwrap::wrap(text, width).len()
}

/// The screen areas a terminal is laid out in.
pub struct ScreenAreas {
    pub title: Area,
    /// The part between title bar and input box, holding sidebar and chat.
    pub body: Area,
    pub sidebar: Area,
    pub chat: Area,
    pub input: Area,
    pub status: Area,
}

/// What holds of the areas of a `width` by `height` terminal whatever the
/// layout solver picks: the title bar, body, input box and status line
/// each span the whole width, and sidebar and chat span the body's height.
pub open spec fn areas_fit(r: ScreenAreas, width: u16) -> bool {
    &&& r.title.x == 0 && r.title.width == width
    &&& r.body.x == 0 && r.body.width == width
    &&& r.input.x == 0 && r.input.width == width
    &&& r.status.x == 0 && r.status.width == width
    &&& r.sidebar.y == r.body.y && r.sidebar.height == r.body.height
    &&& r.chat.y == r.body.y && r.chat.height == r.body.height
}

/// The areas come from splitting the whole terminal from the top into a
/// title bar of 3 lines, the body (at least 0 lines), an input box of 3
/// lines and a status line, and the body into a sidebar of 20% and a chat
/// pane of 80% of its width.
pub open spec fn screen_split(r: ScreenAreas, width: u16, height: u16) -> bool {
    &&& solver_split(
        Area { x: 0, y: 0, width, height },
        Axis::Vertical,
        seq![Constraint::Length(3), Constraint::Min(0), Constraint::Length(3), Constraint::Length(1)],
        seq![r.title, r.body, r.input, r.status],
    )
    &&& solver_split(
        r.body,
        Axis::Horizontal,
        seq![Constraint::Percentage(20), Constraint::Percentage(80)],
        seq![r.sidebar, r.chat],
    )
}

/// Lays out a terminal of `width` by `height` cells: from the top a title
/// bar of 3 lines, the body, an input box of 3 lines and a status line;
/// the body split into a sidebar of 20% and a chat pane of 80%.
pub fn screen_areas(width: u16, height: u16) -> (r: ScreenAreas)
    ensures
        screen_split(r, width, height),
        areas_fit(r, width),
{
    let whole = Area { x: 0, y: 0, width, height };
    let main_constraints = vec![
        Constraint::Length(3),
        Constraint::Min(0),
        Constraint::Length(3),
        Constraint::Length(1),
    ];
    let main = split_area(whole, Axis::Vertical, &main_constraints);
    let body_constraints = vec![Constraint::Percentage(20), Constraint::Percentage(80)];
    let body = split_area(main[1], Axis::Horizontal, &body_constraints);
    assert(main_constraints@ =~= seq![
        Constraint::Length(3),
        Constraint::Min(0),
        Constraint::Length(3),
        Constraint::Length(1),
    ]);
    assert(main@ =~= seq![main@[0], main@[1], main@[2], main@[3]]);
    assert(body_constraints@ =~= seq![Constraint::Percentage(20), Constraint::Percentage(80)]);
    assert(body@ =~= seq![body@[0], body@[1]]);
    ScreenAreas {
        title: main[0],
        body: main[1],
        sidebar: body[0],
        chat: body[1],
        input: main[2],
        status: main[3],
    }
}

/// Whether a cell lies strictly inside the border of an area.
pub open spec fn inside(a: Area, column: u16, row: u16) -> bool {
    &&& column > a.x
    &&& column < a.x + a.width - 1
    &&& row > a.y
    &&& row < a.y + a.height - 1
}

pub fn is_inside(a: Area, column: u16, row: u16) -> (r: bool)
    ensures
        r == inside(a, column, row),
{
    let right: u32 = a.x as u32 + a.width as u32;
    let bottom: u32 = a.y as u32 + a.height as u32;
    column > a.x && (column as u32) + 1 < right && row > a.y && (row as u32) + 1 < bottom
}

/// `x + d`, held at `u16::MAX`.
pub open spec fn up(x: u16, d: u16) -> u16 {
    if x + d > u16::MAX {
        u16::MAX
    } else {
        (x + d) as u16
    }
}

/// `x - d`, held at zero.
pub open spec fn down(x: u16, d: u16) -> u16 {
    if x < d {
        0
    } else {
        (x - d) as u16
    }
}

/// The first line shown when `total` lines are viewed `height` lines at
/// a time, `scroll` lines up from the bottom (held to the top).
pub open spec fn top_line(total: u16, height: u16, scroll: u16) -> u16 {
    let max = down(total, height);
    let kept = if scroll < max {
        scroll
    } else {
        max
    };
    (max - kept) as u16
}

pub fn top_line_of(total: u16, height: u16, scroll: u16) -> (r: u16)
    ensures
        r == top_line(total, height, scroll),
{
    let max = total.saturating_sub(height);
    let kept = if scroll < max {
        scroll
    } else {
        max
    };
    max - kept
}

} // verus!
