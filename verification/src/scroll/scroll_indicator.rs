//! The drag-to-scroll indicator: a marker dropped where the middle button
//! went down, which scrolls its content faster the farther the pointer
//! strays from it.
//!
//! The pointer is reported in window coordinates, whose origin is the bottom
//! left corner of the window; the indicator remembers where it was dropped in
//! interface coordinates, whose origin is the top left corner. The easing
//! curve itself is evaluated by the host: the engine prepares its input and
//! turns its output into a scroll intent. Both travel as millionths.

use vstd::prelude::*;
use crate::scroll::components::{ScrollDirection, ScrollIndicatorDisabled, UiEvent, WidgetId};
use crate::scroll::geometry::{
    div_floor, lemma_floor_div_bounds, saturate, saturate_i128, NodeSize, Vector2,
};

verus! {

/// The value that stands for one whole in an easing input or output.
pub const EASING_UNIT: i64 = 1_000_000;

/// The least easing input: a fifth, so that a short drag still scrolls.
pub const MIN_EASING_INPUT: i64 = 200_000;

/// The first control point of the cubic easing curve, in millionths.
pub const EASING_CONTROL_1_X: i64 = 350_000;

pub const EASING_CONTROL_1_Y: i64 = 10_000;

/// The second control point of the cubic easing curve, in millionths.
pub const EASING_CONTROL_2_X: i64 = 970_000;

pub const EASING_CONTROL_2_Y: i64 = 790_000;

/// Half the side of the square sprite that marks the indicator: sixteen
/// pixels.
pub const INDICATOR_HALF_SIZE: i64 = 0x10_0000_0000;

/// A live drag-to-scroll indicator.
#[derive(Clone, Copy, Debug, PartialEq, Eq, Structural)]
pub struct ScrollIndicatorWidget {
    pub scroll_direction: ScrollDirection,
    /// Where the button went down, in interface coordinates.
    pub spawn_position: Vector2,
    /// The content that the indicator drives. The indicator does not own it.
    pub scroll_content: WidgetId,
}

/// The two states of drag-to-scroll.
#[derive(Clone, Copy, Debug, PartialEq, Eq, Structural)]
pub enum ScrollIndicatorState {
    Disabled,
    Enabled(ScrollIndicatorWidget),
}

/// The sprite of an indicator and where to draw it.
#[derive(Clone, Copy, Debug, PartialEq, Eq)]
pub struct ScrollIndicatorSprite {
    pub texture: &'static str,
    pub left: i64,
    pub top: i64,
    pub width: u64,
    pub height: u64,
}

/// The share of `extent` that `distance` covers, in millionths, whatever the
/// sign of `distance`. An extent of zero gives a share of zero.
pub open spec fn spec_normalized(distance: int, extent: int) -> int {
    let magnitude: int = if distance < 0 { -distance } else { distance };
    if extent == 0 { 0 } else { magnitude * EASING_UNIT / extent }
}

/// The easing input for `distance` across `extent`: the normalized share,
/// raised to the least input.
pub open spec fn spec_easing_input(distance: int, extent: int) -> int {
    let share: int = spec_normalized(distance, extent);
    saturate(if share < MIN_EASING_INPUT { MIN_EASING_INPUT as int } else { share })
}

/// `numerator / denominator` rounded to the whole number away from zero, for
/// a positive denominator: what is not zero stays so.
pub open spec fn spec_div_away_from_zero(numerator: int, denominator: int) -> int {
    if numerator >= 0 { -((-numerator) / denominator) } else { numerator / denominator }
}

/// `distance` scaled by the easing output `eased`, given in millionths, and
/// rounded to the whole unit away from zero.
pub open spec fn spec_eased(distance: int, eased: int) -> int {
    saturate(spec_div_away_from_zero(distance * eased, EASING_UNIT as int))
}

/// The sprite that marks an indicator for content of `direction`.
pub open spec fn spec_indicator_texture(direction: ScrollDirection) -> &'static str {
    match direction {
        ScrollDirection::Vertical => "sprites/scroll_cursor_vert.png",
        ScrollDirection::Horizontal => "sprites/scroll_cursor_horiz.png",
        _ => "sprites/scroll_cursor_multi.png",
    }
}

impl ScrollIndicatorWidget {
    /// How far the pointer at `cursor` has strayed from the spawn point, in
    /// window coordinates: positive `x` to the right, positive `y` upward.
    pub open spec fn spec_delta(self, cursor: Vector2, window: NodeSize) -> Vector2 {
        Vector2 {
            x: saturate(cursor.x - self.spawn_position.x) as i64,
            y: saturate(cursor.y - (window.height - self.spawn_position.y)) as i64,
        }
    }

    /// The two easing inputs for the pointer at `cursor`.
    pub open spec fn spec_easing_input(self, cursor: Vector2, window: NodeSize) -> Vector2 {
        let delta: Vector2 = self.spec_delta(cursor, window);
        Vector2 {
            x: spec_easing_input(delta.x as int, window.width as int) as i64,
            y: spec_easing_input(delta.y as int, window.height as int) as i64,
        }
    }

    /// The scroll distance for the pointer at `cursor`, once the host has
    /// eased both inputs: the horizontal share with its sign turned, the
    /// vertical share as it is.
    pub open spec fn spec_scroll_distance(self, cursor: Vector2, window: NodeSize, eased: Vector2) -> Vector2 {
        let delta: Vector2 = self.spec_delta(cursor, window);
        Vector2 {
            x: saturate(-spec_eased(delta.x as int, eased.x as int)) as i64,
            y: spec_eased(delta.y as int, eased.y as int) as i64,
        }
    }

    pub fn delta(&self, cursor: Vector2, window: NodeSize) -> (delta: Vector2)
        ensures
            delta == self.spec_delta(cursor, window),
    {
        let across: i128 = cursor.x as i128 - self.spawn_position.x as i128;
        let spawn_from_bottom: i128 = window.height as i128 - self.spawn_position.y as i128;
        let upward: i128 = cursor.y as i128 - spawn_from_bottom;
        Vector2 { x: saturate_i128(across), y: saturate_i128(upward) }
    }

    /// What the host feeds to the easing curve, per axis.
    pub fn easing_input(&self, cursor: Vector2, window: NodeSize) -> (input: Vector2)
        ensures
            input == self.spec_easing_input(cursor, window),
            input.x >= MIN_EASING_INPUT,
            input.y >= MIN_EASING_INPUT,
    {
        let delta: Vector2 = self.delta(cursor, window);
        Vector2 { x: easing_input(delta.x, window.width), y: easing_input(delta.y, window.height) }
    }

    /// The scroll distance that the eased pointer travel asks for.
    pub fn scroll_distance(&self, cursor: Vector2, window: NodeSize, eased: Vector2) -> (distance: Vector2)
        ensures
            distance == self.spec_scroll_distance(cursor, window, eased),
    {
        let delta: Vector2 = self.delta(cursor, window);
        let across: i64 = eased_distance(delta.x, eased.x);
        let upward: i64 = eased_distance(delta.y, eased.y);
        Vector2 { x: saturate_i128(-(across as i128)), y: upward }
    }
}

/// The easing input for one axis.
pub fn easing_input(distance: i64, extent: u64) -> (input: i64)
    ensures
        input == spec_easing_input(distance as int, extent as int),
        input >= MIN_EASING_INPUT,
{
    if extent == 0 {
        return MIN_EASING_INPUT;
    }
    let wide: i128 = distance as i128;
    let magnitude: i128 = if wide < 0 { -wide } else { wide };
    let scaled: i128 = magnitude * 1_000_000;
    let share: i128 = scaled / (extent as i128);
    if share < MIN_EASING_INPUT as i128 {
        MIN_EASING_INPUT
    } else {
        saturate_i128(share)
    }
}

/// One axis of pointer travel scaled by the easing output.
pub fn eased_distance(distance: i64, eased: i64) -> (scaled: i64)
    ensures
        scaled == spec_eased(distance as int, eased as int),
{
    let wide: i128 = distance as i128;
    let by: i128 = eased as i128;
    assert(-0x4000_0000_0000_0000_0000_0000_0000_0000 <= wide * by
        <= 0x4000_0000_0000_0000_0000_0000_0000_0000) by (nonlinear_arith)
        requires
            -0x8000_0000_0000_0000 <= wide <= 0x8000_0000_0000_0000,
            -0x8000_0000_0000_0000 <= by <= 0x8000_0000_0000_0000,
    ;
    let product: i128 = wide * by;
    let quotient: i128 = if product >= 0 {
        -div_floor(-product, 1_000_000)
    } else {
        div_floor(product, 1_000_000)
    };
    saturate_i128(quotient)
}

/// The Create stage of an indicator: the sprite that marks it, drawn so that
/// its centre lies on the spawn point.
pub fn init_scroll_indicator(widget: &ScrollIndicatorWidget) -> (sprite: ScrollIndicatorSprite)
    requires
        widget.scroll_direction != ScrollDirection::Neither,
    ensures
        sprite.texture == spec_indicator_texture(widget.scroll_direction),
        sprite.left == saturate(widget.spawn_position.x - INDICATOR_HALF_SIZE),
        sprite.top == saturate(widget.spawn_position.y - INDICATOR_HALF_SIZE),
        sprite.width == 2 * INDICATOR_HALF_SIZE,
        sprite.height == 2 * INDICATOR_HALF_SIZE,
{
    let texture: &'static str = match widget.scroll_direction {
        ScrollDirection::Vertical => "sprites/scroll_cursor_vert.png",
        ScrollDirection::Horizontal => "sprites/scroll_cursor_horiz.png",
        _ => "sprites/scroll_cursor_multi.png",
    };
    ScrollIndicatorSprite {
        texture,
        left: saturate_i128(widget.spawn_position.x as i128 - INDICATOR_HALF_SIZE as i128),
        top: saturate_i128(widget.spawn_position.y as i128 - INDICATOR_HALF_SIZE as i128),
        width: 0x20_0000_0000,
        height: 0x20_0000_0000,
    }
}

/// The Interact stage of the indicators: when the middle button has just
/// been released, every live indicator is told to stop.
pub fn scroll_indicator_disabled_publisher(
    indicators: &Vec<WidgetId>,
    middle_just_released: bool,
) -> (events: Vec<UiEvent<ScrollIndicatorDisabled>>)
    ensures
        !middle_just_released ==> events@.len() == 0,
        middle_just_released ==> events@.len() == indicators@.len(),
        middle_just_released ==> forall|i: int|
            0 <= i < indicators@.len() ==> (#[trigger] events@[i]).widget == indicators@[i],
{
    let mut events: Vec<UiEvent<ScrollIndicatorDisabled>> = Vec::new();
    if middle_just_released {
        let mut i: usize = 0;
        while i < indicators.len()
            invariant
                i <= indicators@.len(),
                events@.len() == i,
                forall|j: int| 0 <= j < i ==> (#[trigger] events@[j]).widget == indicators@[j],
            decreases indicators@.len() - i,
        {
            events.push(UiEvent { widget: indicators[i], action: ScrollIndicatorDisabled });
            i += 1;
        }
    }
    events
}

/// The Update stage of one indicator: whether any of `events` tells the
/// indicator named `widget_entity` to stop.
pub fn scroll_indicator_disabled_subscriber(
    events: &Vec<UiEvent<ScrollIndicatorDisabled>>,
    widget_entity: WidgetId,
) -> (disabled: bool)
    ensures
        disabled == exists|i: int| 0 <= i < events@.len() && (#[trigger] events@[i]).widget == widget_entity,
{
    let mut i: usize = 0;
    while i < events.len()
        invariant
            i <= events@.len(),
            forall|j: int| 0 <= j < i ==> (#[trigger] events@[j]).widget != widget_entity,
        decreases events@.len() - i,
    {
        if events[i].widget == widget_entity {
            return true;
        }
        i += 1;
    }
    false
}

/// Easing keeps the sign of the travel: where the curve yields nothing
/// negative, the eased travel points the way the pointer went, or is zero.
/// Where the curve yields more than nothing, travel that is not zero is
/// eased to travel that is not zero.
pub proof fn lemma_eased_keeps_sign(distance: int, eased: int)
    requires
        eased >= 0,
    ensures
        distance >= 0 ==> spec_eased(distance, eased) >= 0,
        distance <= 0 ==> spec_eased(distance, eased) <= 0,
        distance > 0 && eased > 0 ==> spec_eased(distance, eased) > 0,
        distance < 0 && eased > 0 ==> spec_eased(distance, eased) < 0,
{
    let product: int = distance * eased;
    assert(distance >= 0 ==> product >= 0) by (nonlinear_arith)
        requires
            product == distance * eased,
            eased >= 0,
    ;
    assert(distance <= 0 ==> product <= 0) by (nonlinear_arith)
        requires
            product == distance * eased,
            eased >= 0,
    ;
    assert(distance > 0 && eased > 0 ==> product > 0) by (nonlinear_arith)
        requires
            product == distance * eased,
    ;
    assert(distance < 0 && eased > 0 ==> product < 0) by (nonlinear_arith)
        requires
            product == distance * eased,
    ;
    lemma_floor_div_bounds(product, EASING_UNIT as int);
    lemma_floor_div_bounds(-product, EASING_UNIT as int);
}

/// An eased step is the exact product to within one unit: it is no nearer
/// to zero than the product of the travel and the curve's output, and less
/// than one unit farther. The travel and the output are such that the step
/// fits its type.
pub proof fn lemma_eased_is_exact_to_a_unit(distance: int, eased: int)
    requires
        i64::MIN * EASING_UNIT <= distance * eased <= i64::MAX * EASING_UNIT,
    ensures
        distance * eased >= 0 ==> distance * eased <= spec_eased(distance, eased) * EASING_UNIT
            < distance * eased + EASING_UNIT,
        distance * eased <= 0 ==> distance * eased - EASING_UNIT < spec_eased(distance, eased)
            * EASING_UNIT <= distance * eased,
{
    let product: int = distance * eased;
    lemma_floor_div_bounds(product, EASING_UNIT as int);
    lemma_floor_div_bounds(-product, EASING_UNIT as int);
}

} // verus!
