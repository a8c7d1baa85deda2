//! The Interact stage: what the devices did in this frame becomes movement
//! of the models. Wheel and clicks count only for what lies under the
//! pointer.

use vstd::prelude::*;
use crate::scroll::components::{
    ControlledByElement, Interaction, MouseWheel, ScrollBarOrientation, ScrollDirection,
};
use crate::scroll::geometry::{saturate, saturate_i128, NodeSize, Vector2};
use crate::scroll::scroll_bar::{ScrollBarNode, ScrollBarWidget};
use crate::scroll::scroll_content::{spec_wheel_distance, wheel_distance, ScrollContentWidget};
use crate::scroll::scroll_indicator::{
    lemma_eased_keeps_sign, ScrollIndicatorState, ScrollIndicatorWidget,
};

verus! {

/// The content after every event of `wheel` has scrolled it, in order.
pub open spec fn spec_wheel_applied(content: ScrollContentWidget, wheel: Seq<MouseWheel>) -> ScrollContentWidget
    decreases wheel.len(),
{
    if wheel.len() == 0 {
        content
    } else {
        spec_wheel_applied(content, wheel.drop_last()).spec_apply_scroll_delta(
            spec_wheel_distance(wheel.last()),
        )
    }
}

/// Whether `node` asks for a jump of its handle, and to where along the axis
/// of `bar` if it does.
pub open spec fn spec_pressed_at(bar: ScrollBarWidget, node: ScrollBarNode) -> Option<i64> {
    match node.cursor {
        Some(at) if node.controller.interaction == Interaction::Clicked => Some(
            at.spec_along(bar.orientation),
        ),
        _ => None,
    }
}

/// One bar after the pointer has had its way with the track.
pub open spec fn spec_bar_pressed(bar: ScrollBarWidget, node: ScrollBarNode) -> ScrollBarWidget {
    match spec_pressed_at(bar, node) {
        Some(at) => bar.spec_apply_track_click(at as int),
        None => bar,
    }
}

/// The bars after the pointer has had its way with each track.
pub open spec fn spec_bars_pressed(bars: Seq<ScrollBarWidget>, nodes: Seq<ScrollBarNode>) -> Seq<ScrollBarWidget> {
    Seq::new(bars.len(), |i: int| spec_bar_pressed(bars[i], nodes[i]))
}

/// For each bar, whether it differs between `before` and `after`.
pub open spec fn spec_bars_changed(before: Seq<ScrollBarWidget>, after: Seq<ScrollBarWidget>) -> Seq<bool> {
    Seq::new(before.len(), |i: int| before[i] != after[i])
}

/// The state of drag-to-scroll after a frame of the middle button over one
/// content region. A release ends the drag. A press over the region, with
/// the pointer inside the window, starts one at the pointer, unless the
/// content scrolls in no direction. A frame that brings both ends the old
/// drag and starts a new one.
pub open spec fn spec_middle_clicked(
    state: ScrollIndicatorState,
    just_released: bool,
    just_pressed: bool,
    root: ControlledByElement,
    direction: ScrollDirection,
    cursor: Option<Vector2>,
    window: NodeSize,
) -> ScrollIndicatorState {
    let released: ScrollIndicatorState = if just_released {
        ScrollIndicatorState::Disabled
    } else {
        state
    };
    match cursor {
        Some(at) if just_pressed && root.interaction == Interaction::Hovered && direction
            != ScrollDirection::Neither => ScrollIndicatorState::Enabled(
            ScrollIndicatorWidget {
                scroll_direction: direction,
                spawn_position: Vector2 { x: at.x, y: saturate(window.height - at.y) as i64 },
                scroll_content: root.element,
            },
        ),
        _ => released,
    }
}

/// The content after drag-to-scroll has had its frame: a live indicator
/// with the pointer inside the window drags it, and nothing else does.
pub open spec fn spec_indicator_dragged(
    content: ScrollContentWidget,
    state: ScrollIndicatorState,
    cursor: Option<Vector2>,
    window: NodeSize,
    eased: Vector2,
) -> ScrollContentWidget {
    match (state, cursor) {
        (ScrollIndicatorState::Enabled(indicator), Some(at)) => content.spec_dragged(
            indicator.spec_scroll_distance(at, window, eased),
        ),
        _ => content,
    }
}

/// Scrolls the content by the wheel, if the pointer is over it. Returns
/// whether the content changed.
pub fn handle_mousewheel(
    interaction: Interaction,
    wheel: &Vec<MouseWheel>,
    content: &mut ScrollContentWidget,
) -> (changed: bool)
    ensures
        *final(content) == if interaction == Interaction::Hovered {
            spec_wheel_applied(*old(content), wheel@)
        } else {
            *old(content)
        },
        changed == (*final(content) != *old(content)),
{
    if interaction != Interaction::Hovered {
        return false;
    }
    let before: Vector2 = content.current_offset;
    let mut i: usize = 0;
    while i < wheel.len()
        invariant
            i <= wheel@.len(),
            *content == spec_wheel_applied(*old(content), wheel@.take(i as int)),
            content.scroll_direction == old(content).scroll_direction,
        decreases wheel@.len() - i,
    {
        proof {
            assert(wheel@.take(i as int + 1).drop_last() =~= wheel@.take(i as int));
            assert(wheel@.take(i as int + 1).last() == wheel@[i as int]);
        }
        let distance: Vector2 = wheel_distance(&wheel[i]);
        content.apply_scroll_delta(distance);
        i += 1;
    }
    proof {
        assert(wheel@.take(wheel@.len() as int) =~= wheel@);
    }
    content.current_offset.x != before.x || content.current_offset.y != before.y
}

/// Jumps the handle of each bar whose track is held down to the pointer.
/// `nodes` holds the track of each bar, in the order of the bars. Returns,
/// for each bar, whether its handle moved.
pub fn scroll_bar_interaction(nodes: &Vec<ScrollBarNode>, bars: &mut Vec<ScrollBarWidget>) -> (changed: Vec<bool>)
    requires
        nodes@.len() == old(bars)@.len(),
    ensures
        final(bars)@ == spec_bars_pressed(old(bars)@, nodes@),
        changed@ == spec_bars_changed(old(bars)@, final(bars)@),
{
    let mut changed: Vec<bool> = Vec::new();
    let mut i: usize = 0;
    while i < bars.len()
        invariant
            i <= bars@.len(),
            bars@.len() == old(bars)@.len(),
            nodes@.len() == bars@.len(),
            changed@.len() == i,
            forall|j: int| 0 <= j < i ==> bars@[j] == spec_bar_pressed(old(bars)@[j], nodes@[j]),
            forall|j: int| 0 <= j < i ==> changed@[j] == (old(bars)@[j] != bars@[j]),
            forall|j: int| i <= j < bars@.len() ==> bars@[j] == old(bars)@[j],
        decreases bars@.len() - i,
    {
        let mut bar: ScrollBarWidget = bars[i];
        let mut moved: bool = false;
        if nodes[i].controller.interaction == Interaction::Clicked {
            if let Some(at) = nodes[i].cursor {
                moved = bar.apply_track_click(at.along(bar.orientation));
            }
        }
        bars.set(i, bar);
        changed.push(moved);
        i += 1;
    }
    proof {
        assert(bars@ =~= spec_bars_pressed(old(bars)@, nodes@));
        assert(changed@ =~= spec_bars_changed(old(bars)@, bars@));
    }
    changed
}

/// Follows the middle button over one content region: `root` is the node of
/// the region, `direction` the direction of its content.
pub fn handle_middle_click(
    state: &mut ScrollIndicatorState,
    just_released: bool,
    just_pressed: bool,
    root: &ControlledByElement,
    direction: ScrollDirection,
    cursor: Option<Vector2>,
    window: NodeSize,
)
    ensures
        *final(state) == spec_middle_clicked(
            *old(state),
            just_released,
            just_pressed,
            *root,
            direction,
            cursor,
            window,
        ),
{
    if just_released {
        *state = ScrollIndicatorState::Disabled;
    }
    if just_pressed && root.interaction == Interaction::Hovered && direction
        != ScrollDirection::Neither {
        if let Some(at) = cursor {
            let from_top: i64 = saturate_i128(window.height as i128 - at.y as i128);
            *state = ScrollIndicatorState::Enabled(
                ScrollIndicatorWidget {
                    scroll_direction: direction,
                    spawn_position: Vector2 { x: at.x, y: from_top },
                    scroll_content: root.element,
                },
            );
        }
    }
}

/// Scrolls the content that a live indicator drives, while the pointer is
/// inside the window. Without a live indicator, or with the pointer outside
/// the window, the content stays as it is. `eased` holds what the easing
/// curve made of the indicator's easing input, per axis. The vertical share
/// of the eased travel is taken from the offset and the horizontal share is
/// added to it, each only if the content scrolls along that axis. Returns
/// whether the content changed.
pub fn scroll_from_scroll_indicator(
    state: &ScrollIndicatorState,
    cursor: Option<Vector2>,
    window: NodeSize,
    eased: Vector2,
    content: &mut ScrollContentWidget,
) -> (changed: bool)
    ensures
        *final(content) == spec_indicator_dragged(*old(content), *state, cursor, window, eased),
        *state == ScrollIndicatorState::Disabled ==> *final(content) == *old(content),
        changed == (*final(content) != *old(content)),
{
    match (state, cursor) {
        (ScrollIndicatorState::Enabled(indicator), Some(at)) => {
            let distance: Vector2 = indicator.scroll_distance(at, window, eased);
            let moved: Vector2 = content.current_offset.saturating_sub(distance);
            let target: Vector2 = match content.scroll_direction {
                ScrollDirection::Vertical => Vector2 { x: content.current_offset.x, y: moved.y },
                ScrollDirection::Horizontal => Vector2 { x: moved.x, y: content.current_offset.y },
                ScrollDirection::Both => moved,
                ScrollDirection::Neither => content.current_offset,
            };
            let changed: bool = target.x != content.current_offset.x || target.y
                != content.current_offset.y;
            content.current_offset = target;
            changed
        },
        _ => false,
    }
}

/// The wheel never changes the direction of the content.
pub proof fn lemma_wheel_keeps_direction(content: ScrollContentWidget, wheel: Seq<MouseWheel>)
    ensures
        spec_wheel_applied(content, wheel).scroll_direction == content.scroll_direction,
    decreases wheel.len(),
{
    if wheel.len() > 0 {
        lemma_wheel_keeps_direction(content, wheel.drop_last());
    }
}

/// A drag follows the pointer, each axis in its own sense. Where the curve
/// yields nothing negative, a pointer below the spawn point never lowers the
/// vertical offset and a pointer above it never raises it; a pointer to the
/// right of the spawn point never lowers the horizontal offset and a pointer
/// to the left of it never raises it.
pub proof fn lemma_drag_follows_pointer(
    indicator: ScrollIndicatorWidget,
    cursor: Vector2,
    window: NodeSize,
    eased: Vector2,
    content: ScrollContentWidget,
)
    requires
        eased.x >= 0,
        eased.y >= 0,
    ensures
        ({
            let delta: Vector2 = indicator.spec_delta(cursor, window);
            let after: ScrollContentWidget = content.spec_dragged(
                indicator.spec_scroll_distance(cursor, window, eased),
            );
            &&& delta.y <= 0 ==> after.current_offset.y >= content.current_offset.y
            &&& delta.y >= 0 ==> after.current_offset.y <= content.current_offset.y
            &&& delta.x >= 0 ==> after.current_offset.x >= content.current_offset.x
            &&& delta.x <= 0 ==> after.current_offset.x <= content.current_offset.x
        }),
{
    let delta: Vector2 = indicator.spec_delta(cursor, window);
    lemma_eased_keeps_sign(delta.x as int, eased.x as int);
    lemma_eased_keeps_sign(delta.y as int, eased.y as int);
}

/// A held drag keeps scrolling. While the pointer is off the spawn point
/// along an axis on which the content scrolls, and the curve yields more
/// than nothing for that axis, every step moves the offset, by one unit at
/// the least: down the content for a pointer below the spawn point, and up
/// for one above it; to the right for a pointer to the right, and to the
/// left for one to the left. Only an offset at the bound of its type stays.
pub proof fn lemma_held_drag_keeps_scrolling(
    indicator: ScrollIndicatorWidget,
    cursor: Vector2,
    window: NodeSize,
    eased: Vector2,
    content: ScrollContentWidget,
)
    ensures
        ({
            let delta: Vector2 = indicator.spec_delta(cursor, window);
            let after: ScrollContentWidget = content.spec_dragged(
                indicator.spec_scroll_distance(cursor, window, eased),
            );
            let vertical: bool = content.scroll_direction.spec_allows(
                ScrollBarOrientation::Vertical,
            );
            let horizontal: bool = content.scroll_direction.spec_allows(
                ScrollBarOrientation::Horizontal,
            );
            &&& vertical && eased.y > 0 && delta.y < 0 && content.current_offset.y < i64::MAX
                ==> after.current_offset.y > content.current_offset.y
            &&& vertical && eased.y > 0 && delta.y > 0 && content.current_offset.y > i64::MIN
                ==> after.current_offset.y < content.current_offset.y
            &&& horizontal && eased.x > 0 && delta.x > 0 && content.current_offset.x < i64::MAX
                ==> after.current_offset.x > content.current_offset.x
            &&& horizontal && eased.x > 0 && delta.x < 0 && content.current_offset.x > i64::MIN
                ==> after.current_offset.x < content.current_offset.x
        }),
{
    let delta: Vector2 = indicator.spec_delta(cursor, window);
    if eased.x > 0 {
        lemma_eased_keeps_sign(delta.x as int, eased.x as int);
    }
    if eased.y > 0 {
        lemma_eased_keeps_sign(delta.y as int, eased.y as int);
    }
}

/// A drag lasts until the button is let go. A frame that brings a release
/// and no press leaves drag-to-scroll disabled, whatever state it was in,
/// and disabled drag-to-scroll leaves every content as it is, wherever the
/// pointer may be.
pub proof fn lemma_release_ends_the_drag(
    state: ScrollIndicatorState,
    root: ControlledByElement,
    direction: ScrollDirection,
    cursor: Option<Vector2>,
    window: NodeSize,
    eased: Vector2,
    content: ScrollContentWidget,
)
    ensures
        spec_middle_clicked(state, true, false, root, direction, cursor, window)
            == ScrollIndicatorState::Disabled,
        spec_indicator_dragged(content, ScrollIndicatorState::Disabled, cursor, window, eased)
            == content,
{
}

} // verus!
