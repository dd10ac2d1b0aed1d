//! Tooltip placement relative to a target rectangle inside a viewport.
//!
//! The tooltip is attached to the side of the target that has the most room
//! among the sides on which it fits, and is then moved back into the viewport.
//! All of it is defined over mathematical integers; [`place`] computes it in
//! 64 bits, so the target may be any rectangle at all.

use vstd::prelude::*;
use crate::rect::Rect;

verus! {

/// Clearance between the target and the tooltip, room for the tooltip's arrow.
pub const ARROW_SIZE: i32 = 10;

/// A side of the target rectangle.
#[derive(Debug, PartialEq, Eq, Clone, Copy, Structural)]
pub enum Side {
    Top,
    Bottom,
    Left,
    Right,
}

impl Side {
    /// The side across from this one.
    pub open spec fn spec_opposite(self) -> Side {
        match self {
            Side::Top => Side::Bottom,
            Side::Bottom => Side::Top,
            Side::Left => Side::Right,
            Side::Right => Side::Left,
        }
    }

    /// The lower-case name of the side.
    pub open spec fn spec_name(self) -> Seq<char> {
        match self {
            Side::Top => "top"@,
            Side::Bottom => "bottom"@,
            Side::Left => "left"@,
            Side::Right => "right"@,
        }
    }

    /// Rank of the side when two sides offer the same room; the larger wins:
    /// bottom, then top, then right, then left.
    pub open spec fn priority(self) -> int {
        match self {
            Side::Bottom => 3,
            Side::Top => 2,
            Side::Right => 1,
            Side::Left => 0,
        }
    }

    /// The side across from this one.
    pub fn opposite(self) -> (r: Side)
        ensures
            r == self.spec_opposite(),
    {
        match self {
            Side::Top => Side::Bottom,
            Side::Bottom => Side::Top,
            Side::Left => Side::Right,
            Side::Right => Side::Left,
        }
    }

    /// The lower-case name of the side: `top`, `bottom`, `left` or `right`.
    pub fn name(self) -> (r: &'static str)
        ensures
            r@ == self.spec_name(),
    {
        match self {
            Side::Top => "top",
            Side::Bottom => "bottom",
            Side::Left => "left",
            Side::Right => "right",
        }
    }
}

/// Where the tooltip goes: the side of the target it sits against, and the
/// document coordinates of its top-left corner.
#[derive(Debug, PartialEq, Eq, Clone, Copy, Structural)]
pub struct PlacementResult {
    /// The side of the target that the tooltip is attached to.
    pub side: Side,
    /// X coordinate of the tooltip's top-left corner.
    pub x: i32,
    /// Y coordinate of the tooltip's top-left corner.
    pub y: i32,
}

impl PlacementResult {
    /// The edge of the tooltip on which its arrow is drawn: the one that faces
    /// the target, so the side opposite to the attachment side.
    pub open spec fn spec_arrow(&self) -> Side {
        self.side.spec_opposite()
    }

    /// The edge of the tooltip on which its arrow is drawn.
    pub fn arrow(&self) -> (r: Side)
        ensures
            r == self.spec_arrow(),
    {
        self.side.opposite()
    }
}

/// Half of `n`, rounded towards zero.
pub open spec fn half_toward_zero(n: int) -> int {
    if n >= 0 {
        n / 2
    } else {
        -((-n) / 2)
    }
}

/// Room between `side` of the target and the matching edge of the viewport.
pub open spec fn available_space(
    side: Side,
    target: Rect,
    viewport_width: int,
    viewport_height: int,
) -> int {
    match side {
        Side::Top => target.spec_top(),
        Side::Bottom => viewport_height - target.spec_bottom(),
        Side::Left => target.spec_left(),
        Side::Right => viewport_width - target.spec_right(),
    }
}

/// Room that the tooltip takes on `side`: its extent along that axis and the
/// clearance for the arrow.
pub open spec fn required_space(side: Side, tooltip_width: int, tooltip_height: int) -> int {
    match side {
        Side::Top | Side::Bottom => tooltip_height + ARROW_SIZE,
        Side::Left | Side::Right => tooltip_width + ARROW_SIZE,
    }
}

/// The tooltip fits on `side` when the room there is at least what it takes.
pub open spec fn fits(
    side: Side,
    target: Rect,
    tooltip_width: int,
    tooltip_height: int,
    viewport_width: int,
    viewport_height: int,
) -> bool {
    available_space(side, target, viewport_width, viewport_height) >= required_space(
        side,
        tooltip_width,
        tooltip_height,
    )
}

/// The tooltip fits on at least one side.
pub open spec fn fits_somewhere(
    target: Rect,
    tooltip_width: int,
    tooltip_height: int,
    viewport_width: int,
    viewport_height: int,
) -> bool {
    ||| fits(Side::Bottom, target, tooltip_width, tooltip_height, viewport_width, viewport_height)
    ||| fits(Side::Top, target, tooltip_width, tooltip_height, viewport_width, viewport_height)
    ||| fits(Side::Right, target, tooltip_width, tooltip_height, viewport_width, viewport_height)
    ||| fits(Side::Left, target, tooltip_width, tooltip_height, viewport_width, viewport_height)
}

/// `side` is not beaten by `rival`: the tooltip does not fit on `rival`, or
/// `rival` has less room, or the same room and no higher priority.
pub open spec fn holds_against(
    side: Side,
    rival: Side,
    target: Rect,
    tooltip_width: int,
    tooltip_height: int,
    viewport_width: int,
    viewport_height: int,
) -> bool {
    let own = available_space(side, target, viewport_width, viewport_height);
    let other = available_space(rival, target, viewport_width, viewport_height);
    ||| !fits(rival, target, tooltip_width, tooltip_height, viewport_width, viewport_height)
    ||| other < own
    ||| (other == own && rival.priority() <= side.priority())
}

/// `side` is the best side: the tooltip fits there and none of the four sides
/// beats it.
pub open spec fn is_best_side(
    side: Side,
    target: Rect,
    tooltip_width: int,
    tooltip_height: int,
    viewport_width: int,
    viewport_height: int,
) -> bool {
    &&& fits(side, target, tooltip_width, tooltip_height, viewport_width, viewport_height)
    &&& holds_against(
        side,
        Side::Bottom,
        target,
        tooltip_width,
        tooltip_height,
        viewport_width,
        viewport_height,
    )
    &&& holds_against(
        side,
        Side::Top,
        target,
        tooltip_width,
        tooltip_height,
        viewport_width,
        viewport_height,
    )
    &&& holds_against(
        side,
        Side::Right,
        target,
        tooltip_width,
        tooltip_height,
        viewport_width,
        viewport_height,
    )
    &&& holds_against(
        side,
        Side::Left,
        target,
        tooltip_width,
        tooltip_height,
        viewport_width,
        viewport_height,
    )
}

/// The side that the tooltip is attached to: the best side, or the bottom when
/// the tooltip fits nowhere.
pub open spec fn chosen_side(
    target: Rect,
    tooltip_width: int,
    tooltip_height: int,
    viewport_width: int,
    viewport_height: int,
) -> Side {
    if is_best_side(
        Side::Top,
        target,
        tooltip_width,
        tooltip_height,
        viewport_width,
        viewport_height,
    ) {
        Side::Top
    } else if is_best_side(
        Side::Right,
        target,
        tooltip_width,
        tooltip_height,
        viewport_width,
        viewport_height,
    ) {
        Side::Right
    } else if is_best_side(
        Side::Left,
        target,
        tooltip_width,
        tooltip_height,
        viewport_width,
        viewport_height,
    ) {
        Side::Left
    } else {
        Side::Bottom
    }
}

/// X coordinate of a tooltip attached to `side`, before it is moved into the
/// viewport: centred on the target for top and bottom, beside it otherwise.
pub open spec fn anchor_x(side: Side, target: Rect, tooltip_width: int) -> int {
    match side {
        Side::Top | Side::Bottom => target.spec_left() + half_toward_zero(
            target.width - tooltip_width,
        ),
        Side::Left => target.spec_left() - tooltip_width - ARROW_SIZE,
        Side::Right => target.spec_right() + ARROW_SIZE,
    }
}

/// Y coordinate of a tooltip attached to `side`, before it is moved into the
/// viewport: centred on the target for left and right, above or below it
/// otherwise.
pub open spec fn anchor_y(side: Side, target: Rect, tooltip_height: int) -> int {
    match side {
        Side::Left | Side::Right => target.spec_top() + half_toward_zero(
            target.height - tooltip_height,
        ),
        Side::Top => target.spec_top() - tooltip_height - ARROW_SIZE,
        Side::Bottom => target.spec_bottom() + ARROW_SIZE,
    }
}

/// Moves a span of length `size` that starts at `pos` into `[0, limit]`: a
/// negative start becomes zero, a span that ends past `limit` ends at `limit`.
pub open spec fn clamp_to_viewport(pos: int, size: int, limit: int) -> int {
    if pos < 0 {
        0
    } else if pos + size > limit {
        limit - size
    } else {
        pos
    }
}

/// X coordinate of the placed tooltip.
pub open spec fn placed_x(
    target: Rect,
    tooltip_width: int,
    tooltip_height: int,
    viewport_width: int,
    viewport_height: int,
) -> int {
    clamp_to_viewport(
        anchor_x(
            chosen_side(target, tooltip_width, tooltip_height, viewport_width, viewport_height),
            target,
            tooltip_width,
        ),
        tooltip_width,
        viewport_width,
    )
}

/// Y coordinate of the placed tooltip.
pub open spec fn placed_y(
    target: Rect,
    tooltip_width: int,
    tooltip_height: int,
    viewport_width: int,
    viewport_height: int,
) -> int {
    clamp_to_viewport(
        anchor_y(
            chosen_side(target, tooltip_width, tooltip_height, viewport_width, viewport_height),
            target,
            tooltip_height,
        ),
        tooltip_height,
        viewport_height,
    )
}

/// `result` is the placement of the tooltip for the given target, tooltip size
/// and viewport size.
pub open spec fn is_placement(
    result: PlacementResult,
    target: Rect,
    tooltip_width: int,
    tooltip_height: int,
    viewport_width: int,
    viewport_height: int,
) -> bool {
    &&& result.side == chosen_side(
        target,
        tooltip_width,
        tooltip_height,
        viewport_width,
        viewport_height,
    )
    &&& result.x == placed_x(
        target,
        tooltip_width,
        tooltip_height,
        viewport_width,
        viewport_height,
    )
    &&& result.y == placed_y(
        target,
        tooltip_width,
        tooltip_height,
        viewport_width,
        viewport_height,
    )
}

/// Chooses the side of `target` to attach the tooltip to and the tooltip's
/// coordinates inside the viewport.
///
/// The two conditions ask only that the clamped coordinates fit in `i32`; they
/// hold whenever the four sizes are not negative.
pub fn place(
    target: &Rect,
    tooltip_width: i32,
    tooltip_height: i32,
    viewport_width: i32,
    viewport_height: i32,
) -> (r: PlacementResult)
    requires
        i32::MIN <= viewport_width - tooltip_width <= i32::MAX,
        i32::MIN <= viewport_height - tooltip_height <= i32::MAX,
    ensures
        is_placement(
            r,
            *target,
            tooltip_width as int,
            tooltip_height as int,
            viewport_width as int,
            viewport_height as int,
        ),
        fits_somewhere(
            *target,
            tooltip_width as int,
            tooltip_height as int,
            viewport_width as int,
            viewport_height as int,
        ) ==> is_best_side(
            r.side,
            *target,
            tooltip_width as int,
            tooltip_height as int,
            viewport_width as int,
            viewport_height as int,
        ),
        !fits_somewhere(
            *target,
            tooltip_width as int,
            tooltip_height as int,
            viewport_width as int,
            viewport_height as int,
        ) ==> r.side == Side::Bottom,
        viewport_width >= tooltip_width ==> 0 <= r.x <= viewport_width - tooltip_width,
        viewport_height >= tooltip_height ==> 0 <= r.y <= viewport_height - tooltip_height,
{
    proof {
        lemma_chosen_side_is_best(
            *target,
            tooltip_width as int,
            tooltip_height as int,
            viewport_width as int,
            viewport_height as int,
        );
    }
    let side: Side = pick_side(target, tooltip_width, tooltip_height, viewport_width, viewport_height);
    let (anchor_left, anchor_top): (i64, i64) = anchor(side, target, tooltip_width, tooltip_height);
    PlacementResult {
        side,
        x: clamp_axis(anchor_left, tooltip_width, viewport_width),
        y: clamp_axis(anchor_top, tooltip_height, viewport_height),
    }
}

/// The side with the most room among those on which the tooltip fits, the
/// bottom when it fits nowhere. The sides are tried in the order of their
/// priority, and a later one wins only with strictly more room.
fn pick_side(
    target: &Rect,
    tooltip_width: i32,
    tooltip_height: i32,
    viewport_width: i32,
    viewport_height: i32,
) -> (side: Side)
    ensures
        side == chosen_side(
            *target,
            tooltip_width as int,
            tooltip_height as int,
            viewport_width as int,
            viewport_height as int,
        ),
{
    let gap: i64 = ARROW_SIZE as i64;
    let vertical: i64 = tooltip_height as i64 + gap;
    let horizontal: i64 = tooltip_width as i64 + gap;

    let top_space: i64 = target.y as i64;
    let bottom_space: i64 = viewport_height as i64 - (target.y as i64 + target.height as i64);
    let left_space: i64 = target.x as i64;
    let right_space: i64 = viewport_width as i64 - (target.x as i64 + target.width as i64);

    let mut side: Side = Side::Bottom;
    let mut found: bool = bottom_space >= vertical;
    let mut most: i64 = bottom_space;
    if top_space >= vertical && (!found || top_space > most) {
        side = Side::Top;
        found = true;
        most = top_space;
    }
    if right_space >= horizontal && (!found || right_space > most) {
        side = Side::Right;
        found = true;
        most = right_space;
    }
    if left_space >= horizontal && (!found || left_space > most) {
        side = Side::Left;
    }
    side
}

/// Top-left corner of a tooltip attached to `side`, before it is moved into
/// the viewport.
fn anchor(side: Side, target: &Rect, tooltip_width: i32, tooltip_height: i32) -> (r: (i64, i64))
    ensures
        r.0 == anchor_x(side, *target, tooltip_width as int),
        r.1 == anchor_y(side, *target, tooltip_height as int),
        -0x4_0000_0000 <= r.0 <= 0x4_0000_0000,
        -0x4_0000_0000 <= r.1 <= 0x4_0000_0000,
{
    let gap: i64 = ARROW_SIZE as i64;
    let x: i64 = target.x as i64;
    let y: i64 = target.y as i64;
    let width: i64 = tooltip_width as i64;
    let height: i64 = tooltip_height as i64;
    match side {
        Side::Bottom => (x + (target.width as i64 - width) / 2, y + target.height as i64 + gap),
        Side::Top => (x + (target.width as i64 - width) / 2, y - height - gap),
        Side::Right => (x + target.width as i64 + gap, y + (target.height as i64 - height) / 2),
        Side::Left => (x - width - gap, y + (target.height as i64 - height) / 2),
    }
}

/// Moves a span of length `size` that starts at `pos` into `[0, limit]`.
fn clamp_axis(pos: i64, size: i32, limit: i32) -> (r: i32)
    requires
        i32::MIN <= limit - size <= i32::MAX,
        -0x4_0000_0000 <= pos <= 0x4_0000_0000,
    ensures
        r == clamp_to_viewport(pos as int, size as int, limit as int),
        limit >= size ==> 0 <= r <= limit - size,
{
    if pos < 0 {
        0
    } else if pos + size as i64 > limit as i64 {
        limit - size
    } else {
        pos as i32
    }
}

/// Calculates the best position for the tooltip relative to the selected
/// element: the name of the tooltip edge that carries the arrow, and the
/// tooltip's coordinates. A tooltip below the element has its arrow on `top`.
pub fn calculate_arrow_position(
    selected_rect: &Rect,
    tooltip_width: i32,
    tooltip_height: i32,
    window_width: i32,
    window_height: i32,
) -> (r: (&'static str, i32, i32))
    requires
        i32::MIN <= window_width - tooltip_width <= i32::MAX,
        i32::MIN <= window_height - tooltip_height <= i32::MAX,
    ensures
        r.0@ == chosen_side(
            *selected_rect,
            tooltip_width as int,
            tooltip_height as int,
            window_width as int,
            window_height as int,
        ).spec_opposite().spec_name(),
        r.1 == placed_x(
            *selected_rect,
            tooltip_width as int,
            tooltip_height as int,
            window_width as int,
            window_height as int,
        ),
        r.2 == placed_y(
            *selected_rect,
            tooltip_width as int,
            tooltip_height as int,
            window_width as int,
            window_height as int,
        ),
        window_width >= tooltip_width ==> 0 <= r.1 <= window_width - tooltip_width,
        window_height >= tooltip_height ==> 0 <= r.2 <= window_height - tooltip_height,
{
    let placement = place(selected_rect, tooltip_width, tooltip_height, window_width, window_height);
    (placement.arrow().name(), placement.x, placement.y)
}

/// The chosen side is the best side whenever the tooltip fits somewhere, and
/// the bottom when it fits nowhere.
pub proof fn lemma_chosen_side_is_best(
    target: Rect,
    tooltip_width: int,
    tooltip_height: int,
    viewport_width: int,
    viewport_height: int,
)
    ensures
        fits_somewhere(target, tooltip_width, tooltip_height, viewport_width, viewport_height)
            ==> is_best_side(
            chosen_side(target, tooltip_width, tooltip_height, viewport_width, viewport_height),
            target,
            tooltip_width,
            tooltip_height,
            viewport_width,
            viewport_height,
        ),
        !fits_somewhere(target, tooltip_width, tooltip_height, viewport_width, viewport_height)
            ==> chosen_side(target, tooltip_width, tooltip_height, viewport_width, viewport_height)
            == Side::Bottom,
{
}

/// There is at most one best side: of two sides with the same room the one of
/// higher priority beats the other.
pub proof fn lemma_best_side_unique(
    first: Side,
    second: Side,
    target: Rect,
    tooltip_width: int,
    tooltip_height: int,
    viewport_width: int,
    viewport_height: int,
)
    requires
        is_best_side(first, target, tooltip_width, tooltip_height, viewport_width, viewport_height),
        is_best_side(second, target, tooltip_width, tooltip_height, viewport_width, viewport_height),
    ensures
        first == second,
{
}

/// The placed tooltip lies inside the viewport whenever the viewport is at
/// least as large as the tooltip, whatever the target.
pub proof fn lemma_placement_in_bounds(
    target: Rect,
    tooltip_width: int,
    tooltip_height: int,
    viewport_width: int,
    viewport_height: int,
)
    ensures
        viewport_width >= tooltip_width ==> 0 <= placed_x(
            target,
            tooltip_width,
            tooltip_height,
            viewport_width,
            viewport_height,
        ) <= viewport_width - tooltip_width,
        viewport_height >= tooltip_height ==> 0 <= placed_y(
            target,
            tooltip_width,
            tooltip_height,
            viewport_width,
            viewport_height,
        ) <= viewport_height - tooltip_height,
{
}

/// Placement has no hidden state: two results of [`place`] for the same
/// target, tooltip size and viewport size are equal.
pub proof fn lemma_place_deterministic(
    target: Rect,
    tooltip_width: i32,
    tooltip_height: i32,
    viewport_width: i32,
    viewport_height: i32,
    first: PlacementResult,
    second: PlacementResult,
)
    requires
        call_ensures(
            place,
            (&target, tooltip_width, tooltip_height, viewport_width, viewport_height),
            first,
        ),
        call_ensures(
            place,
            (&target, tooltip_width, tooltip_height, viewport_width, viewport_height),
            second,
        ),
    ensures
        first == second,
{
}

} // verus!
