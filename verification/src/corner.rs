use vstd::prelude::*;

verus! {

/// The screen edge, top or bottom, that the window is anchored to.
#[derive(Clone, Copy, Debug, PartialEq, Eq)]
pub enum VerticalEdge {
    Top,
    Bottom,
}

/// The screen edge, left or right, that the window is anchored to.
#[derive(Clone, Copy, Debug, PartialEq, Eq)]
pub enum HorizontalEdge {
    Left,
    Right,
}

/// Where the timer window sits: anchored to one vertical and one horizontal screen
/// edge, that is to a corner, at a distance from each of the two.
#[derive(Clone, Copy, Debug, PartialEq, Eq)]
pub struct Placement {
    pub vertical: VerticalEdge,
    pub horizontal: HorizontalEdge,
    pub margin_vertical: i32,
    pub margin_horizontal: i32,
}

/// Distance, in pixels, from the top or bottom edge of the screen.
pub const MARGIN_VERTICAL: i32 = 10;

/// Distance, in pixels, from the left or right edge of the screen.
pub const MARGIN_HORIZONTAL: i32 = 20;

/// The number of corners the window travels through.
pub const CORNER_COUNT: u32 = 4;

/// The position that follows `current` in the cycle of the four corners.
pub open spec fn next_index(current: int) -> int {
    (current + 1) % 4
}

/// The placement of corner number `index`: 0 top right, 1 bottom right,
/// 2 bottom left, 3 top left; no corner for any other number.
pub open spec fn corner_placement(index: int) -> Option<Placement> {
    let (vertical, horizontal) = if index == 0 {
        (VerticalEdge::Top, HorizontalEdge::Right)
    } else if index == 1 {
        (VerticalEdge::Bottom, HorizontalEdge::Right)
    } else if index == 2 {
        (VerticalEdge::Bottom, HorizontalEdge::Left)
    } else {
        (VerticalEdge::Top, HorizontalEdge::Left)
    };
    if 0 <= index < 4 {
        Some(
            Placement {
                vertical,
                horizontal,
                margin_vertical: MARGIN_VERTICAL,
                margin_horizontal: MARGIN_HORIZONTAL,
            },
        )
    } else {
        None
    }
}

/// The corner index that follows `current`.
pub fn next_corner_index(current: u32) -> (next: u32)
    ensures
        next == next_index(current as int),
        next < CORNER_COUNT,
{
    (current % 4 + 1) % 4
}

/// The placement of corner number `index`, if it names one.
pub fn placement_for(index: u32) -> (placement: Option<Placement>)
    ensures
        placement == corner_placement(index as int),
{
    let (vertical, horizontal) = if index == 0 {
        (VerticalEdge::Top, HorizontalEdge::Right)
    } else if index == 1 {
        (VerticalEdge::Bottom, HorizontalEdge::Right)
    } else if index == 2 {
        (VerticalEdge::Bottom, HorizontalEdge::Left)
    } else {
        (VerticalEdge::Top, HorizontalEdge::Left)
    };
    if index < 4 {
        Some(
            Placement {
                vertical,
                horizontal,
                margin_vertical: MARGIN_VERTICAL,
                margin_horizontal: MARGIN_HORIZONTAL,
            },
        )
    } else {
        None
    }
}

/// Where the window is put when it first appears: the top right corner, the corner
/// number 0 of the cycle.
pub fn initial_placement() -> (placement: Placement)
    ensures
        corner_placement(0) == Some(placement),
{
    Placement {
        vertical: VerticalEdge::Top,
        horizontal: HorizontalEdge::Right,
        margin_vertical: MARGIN_VERTICAL,
        margin_horizontal: MARGIN_HORIZONTAL,
    }
}

/// A click on the timer moves the window to the next corner: the index advances
/// and the placement of the new corner is returned. The caller first lifts all four
/// anchors, then anchors the window as the placement says.
pub fn move_to_next_corner(current: &mut u32) -> (placement: Placement)
    ensures
        *final(current) == next_index(*old(current) as int),
        corner_placement(*final(current) as int) == Some(placement),
{
    let next = next_corner_index(*current);
    *current = next;
    placement_for(next).unwrap()
}

/// The corner index after `clicks` clicks from the first corner.
pub open spec fn index_after_clicks(clicks: nat) -> int
    decreases clicks,
{
    if clicks == 0 {
        0
    } else {
        next_index(index_after_clicks((clicks - 1) as nat))
    }
}

/// After `clicks` clicks from the top right corner, where the window starts, it
/// stands at corner number `clicks % 4`.
pub proof fn law_clicks_from_start(clicks: nat)
    ensures
        index_after_clicks(clicks) == clicks % 4,
        corner_placement(index_after_clicks(clicks)) is Some,
    decreases clicks,
{
    if clicks > 0 {
        law_clicks_from_start((clicks - 1) as nat);
    }
}

/// Four clicks bring the window back to the corner it started from.
pub proof fn law_four_moves_return(index: int)
    requires
        0 <= index < 4,
    ensures
        next_index(next_index(next_index(next_index(index)))) == index,
{
}

/// The window only ever stands in one of the four corners, whatever index it is
/// moved from, and the four corners are different places.
pub proof fn law_moves_stay_in_corners(index: int, other: int)
    requires
        0 <= index,
        0 <= other < 4,
        index % 4 != other,
    ensures
        corner_placement(next_index(index)) is Some,
        corner_placement(index % 4) != corner_placement(other),
{
}

/// Each click moves the window along one side of the screen: the next corner keeps
/// exactly one of the two edges of the current one, and the margins stay the same.
pub proof fn law_moves_follow_the_sides(index: int)
    requires
        0 <= index < 4,
    ensures
        ({
            let here = corner_placement(index).unwrap();
            let there = corner_placement(next_index(index)).unwrap();
            &&& (here.vertical == there.vertical) != (here.horizontal == there.horizontal)
            &&& here.margin_vertical == there.margin_vertical
            &&& here.margin_horizontal == there.margin_horizontal
        }),
{
}

/// The cycle, corner by corner: top right, bottom right, bottom left, top left, then
/// top right again, always 10 pixels from the top or bottom edge and 20 from the side;
/// numbers from 4 on name no corner.
pub proof fn law_corner_cycle(index: int)
    ensures
        next_index(0) == 1 && next_index(1) == 2 && next_index(2) == 3 && next_index(3) == 0,
        corner_placement(0) == Some(
            Placement {
                vertical: VerticalEdge::Top,
                horizontal: HorizontalEdge::Right,
                margin_vertical: 10i32,
                margin_horizontal: 20i32,
            },
        ),
        corner_placement(1) == Some(
            Placement {
                vertical: VerticalEdge::Bottom,
                horizontal: HorizontalEdge::Right,
                margin_vertical: 10i32,
                margin_horizontal: 20i32,
            },
        ),
        corner_placement(2) == Some(
            Placement {
                vertical: VerticalEdge::Bottom,
                horizontal: HorizontalEdge::Left,
                margin_vertical: 10i32,
                margin_horizontal: 20i32,
            },
        ),
        corner_placement(3) == Some(
            Placement {
                vertical: VerticalEdge::Top,
                horizontal: HorizontalEdge::Left,
                margin_vertical: 10i32,
                margin_horizontal: 20i32,
            },
        ),
        index >= 4 ==> corner_placement(index) is None,
        index >= 0 ==> 0 <= next_index(index) < 4 && (next_index(index) - index - 1) % 4 == 0,
{
}

} // verus!
