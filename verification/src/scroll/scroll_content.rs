//! The content model: an offset into a payload larger than its window.
//!
//! Scroll intents move the offset freely; only the Constrain stage brings it
//! back into the scrollable range.

use vstd::prelude::*;
use crate::scroll::components::{
    hovered_target, spec_hovered_target, ControlledByElement, MouseScrollUnit, MouseWheel,
    ScrollDirection, ScrollIndicatorEnabled, ScrollInput, UiEvent, WidgetId,
};
use crate::scroll::geometry::{
    clamp_to_range, saturate, saturate_i128, scrollable_range, spec_clamp, spec_scrollable_range, NodeSize,
    Ratio, Vector2,
};
use crate::scroll::scroll_bar::ScrollBarWidget;
use crate::scroll::scroll_indicator::{ScrollIndicatorState, ScrollIndicatorWidget};

verus! {

/// The pixels that one line of wheel travel stands for. A wheel that counts
/// in lines reports them in the same fixed point as a length.
pub const PIXELS_SCROLLED_PER_LINE: i64 = 15;

/// The offset of a content region behind its window.
#[derive(Clone, Copy, Debug, PartialEq, Eq, Structural)]
pub struct ScrollContentWidget {
    pub scroll_direction: ScrollDirection,
    pub current_offset: Vector2,
}

/// What the Extract stage writes for a content node. A margin that is `None`
/// is left as it was.
#[derive(Clone, Copy, Debug, PartialEq, Eq, Structural)]
pub struct ScrollContentStyle {
    pub margin_left: Option<i64>,
    pub margin_top: Option<i64>,
}

/// The distance that a wheel event asks for: lines are turned into pixels.
pub open spec fn spec_wheel_distance(wheel: MouseWheel) -> Vector2 {
    match wheel.unit {
        MouseScrollUnit::Line => Vector2 {
            x: saturate(PIXELS_SCROLLED_PER_LINE * wheel.x) as i64,
            y: saturate(PIXELS_SCROLLED_PER_LINE * wheel.y) as i64,
        },
        MouseScrollUnit::Pixel => Vector2 { x: wheel.x, y: wheel.y },
    }
}

/// `widget` after those of `events` that are addressed to `widget_entity`
/// have moved it, in their order.
pub open spec fn spec_scroll_events_applied(
    widget: ScrollContentWidget,
    widget_entity: WidgetId,
    events: Seq<UiEvent<ScrollInput>>,
) -> ScrollContentWidget
    decreases events.len(),
{
    if events.len() == 0 {
        widget
    } else {
        let before: ScrollContentWidget = spec_scroll_events_applied(
            widget,
            widget_entity,
            events.drop_last(),
        );
        if events.last().widget == widget_entity {
            before.spec_apply_scroll_delta(events.last().action.distance)
        } else {
            before
        }
    }
}

/// The indicators that those of `events` addressed to `widget_entity` spawn
/// for `widget`, in their order.
pub open spec fn spec_indicators_spawned(
    widget: ScrollContentWidget,
    widget_entity: WidgetId,
    events: Seq<UiEvent<ScrollIndicatorEnabled>>,
) -> Seq<ScrollIndicatorWidget>
    decreases events.len(),
{
    if events.len() == 0 {
        Seq::empty()
    } else {
        let before: Seq<ScrollIndicatorWidget> = spec_indicators_spawned(
            widget,
            widget_entity,
            events.drop_last(),
        );
        if events.last().widget == widget_entity {
            before.push(
                ScrollIndicatorWidget {
                    scroll_direction: widget.scroll_direction,
                    spawn_position: events.last().action.position,
                    scroll_content: widget_entity,
                },
            )
        } else {
            before
        }
    }
}

impl ScrollContentWidget {
    /// The widget after a scroll by `delta`: the offset falls by `delta`,
    /// unless the content scrolls in no direction, which ignores the intent.
    pub open spec fn spec_apply_scroll_delta(self, delta: Vector2) -> ScrollContentWidget {
        if self.scroll_direction == ScrollDirection::Neither {
            self
        } else {
            ScrollContentWidget {
                scroll_direction: self.scroll_direction,
                current_offset: self.current_offset.spec_saturating_sub(delta),
            }
        }
    }

    /// The widget after the Constrain stage: each component of the offset
    /// clamped into the scrollable range of its axis; content that scrolls in
    /// no direction is held at zero.
    pub open spec fn spec_constrain(self, content_size: NodeSize, viewport_size: NodeSize) -> ScrollContentWidget {
        ScrollContentWidget {
            scroll_direction: self.scroll_direction,
            current_offset: if self.scroll_direction == ScrollDirection::Neither {
                Vector2 { x: 0, y: 0 }
            } else {
                Vector2 {
                    x: spec_clamp(
                        self.current_offset.x as int,
                        0,
                        spec_scrollable_range(content_size.width as int, viewport_size.width as int),
                    ) as i64,
                    y: spec_clamp(
                        self.current_offset.y as int,
                        0,
                        spec_scrollable_range(content_size.height as int, viewport_size.height as int),
                    ) as i64,
                }
            },
        }
    }

    /// The widget after `bar` has driven it: along the axis of the bar the
    /// offset becomes what the handle stands for. A bar whose ratio is zero
    /// says nothing, and content that scrolls in no direction does not
    /// listen.
    pub open spec fn spec_driven_by_bar(
        self,
        bar: ScrollBarWidget,
        content_size: NodeSize,
        viewport_size: NodeSize,
        track_size: NodeSize,
    ) -> ScrollContentWidget {
        let ratio: Ratio = bar.spec_ratio(content_size, viewport_size, track_size);
        if ratio.spec_is_zero() || self.scroll_direction == ScrollDirection::Neither {
            self
        } else {
            ScrollContentWidget {
                scroll_direction: self.scroll_direction,
                current_offset: self.current_offset.spec_with_along(
                    bar.orientation,
                    ratio.spec_to_content(bar.current_offset as int) as i64,
                ),
            }
        }
    }

    /// The widget after a drag by `distance`: the offset falls by `distance`
    /// along the axes of the direction of the content, and along no other.
    pub open spec fn spec_dragged(self, distance: Vector2) -> ScrollContentWidget {
        let moved: Vector2 = self.current_offset.spec_saturating_sub(distance);
        ScrollContentWidget {
            scroll_direction: self.scroll_direction,
            current_offset: match self.scroll_direction {
                ScrollDirection::Vertical => Vector2 { x: self.current_offset.x, y: moved.y },
                ScrollDirection::Horizontal => Vector2 { x: moved.x, y: self.current_offset.y },
                ScrollDirection::Both => moved,
                ScrollDirection::Neither => self.current_offset,
            },
        }
    }

    /// The offset lies within the scrollable range on both axes.
    pub open spec fn in_range(self, content_size: NodeSize, viewport_size: NodeSize) -> bool {
        &&& 0 <= self.current_offset.x <= spec_scrollable_range(
            content_size.width as int,
            viewport_size.width as int,
        )
        &&& 0 <= self.current_offset.y <= spec_scrollable_range(
            content_size.height as int,
            viewport_size.height as int,
        )
    }

    /// The style that shows this widget.
    pub open spec fn spec_style(self) -> ScrollContentStyle {
        let left: i64 = saturate(-self.current_offset.x) as i64;
        let top: i64 = saturate(-self.current_offset.y) as i64;
        match self.scroll_direction {
            ScrollDirection::Vertical => ScrollContentStyle { margin_left: None, margin_top: Some(top) },
            ScrollDirection::Horizontal => ScrollContentStyle { margin_left: Some(left), margin_top: None },
            ScrollDirection::Both => ScrollContentStyle { margin_left: Some(left), margin_top: Some(top) },
            ScrollDirection::Neither => ScrollContentStyle { margin_left: None, margin_top: None },
        }
    }

    /// Content at rest at its origin.
    pub fn new(scroll_direction: ScrollDirection) -> (widget: ScrollContentWidget)
        ensures
            widget == (ScrollContentWidget { scroll_direction, current_offset: Vector2 { x: 0, y: 0 } }),
    {
        ScrollContentWidget { scroll_direction, current_offset: Vector2 { x: 0, y: 0 } }
    }

    /// Lets `bar` drive this content. The bar is the one who drives: this
    /// write is no change of the content's own.
    pub fn drive_from_bar(
        &mut self,
        bar: &ScrollBarWidget,
        content_size: NodeSize,
        viewport_size: NodeSize,
        track_size: NodeSize,
    )
        ensures
            *final(self) == old(self).spec_driven_by_bar(
                *bar,
                content_size,
                viewport_size,
                track_size,
            ),
    {
        if self.scroll_direction == ScrollDirection::Neither {
            return;
        }
        let ratio: Ratio = bar.ratio(content_size, viewport_size, track_size);
        if let Some(offset) = ratio.to_content(bar.current_offset) {
            self.current_offset = self.current_offset.with_along(bar.orientation, offset);
        }
    }

    /// Moves the offset against `delta`: a wheel turned down, which reports
    /// a negative distance, moves the content up. Nothing is checked against
    /// the bounds here. Returns whether the widget changed.
    pub fn apply_scroll_delta(&mut self, delta: Vector2) -> (changed: bool)
        ensures
            *final(self) == old(self).spec_apply_scroll_delta(delta),
            changed == (*final(self) != *old(self)),
    {
        if self.scroll_direction == ScrollDirection::Neither {
            return false;
        }
        let moved: Vector2 = self.current_offset.saturating_sub(delta);
        let changed: bool = moved.x != self.current_offset.x || moved.y != self.current_offset.y;
        self.current_offset = moved;
        changed
    }
}

/// The distance that a wheel event asks for.
pub fn wheel_distance(wheel: &MouseWheel) -> (distance: Vector2)
    ensures
        distance == spec_wheel_distance(*wheel),
{
    match wheel.unit {
        MouseScrollUnit::Line => Vector2 {
            x: saturate_i128(15 * (wheel.x as i128)),
            y: saturate_i128(15 * (wheel.y as i128)),
        },
        MouseScrollUnit::Pixel => Vector2 { x: wheel.x, y: wheel.y },
    }
}

/// The Interact stage for the wheel: every wheel event of the frame becomes
/// a scroll intent for the content under the pointer. Without hovered
/// content there is no intent.
pub fn scroll_content_scroll_publisher(
    nodes: &Vec<ControlledByElement>,
    wheel: &Vec<MouseWheel>,
) -> (events: Vec<UiEvent<ScrollInput>>)
    ensures
        spec_hovered_target(nodes@) is None ==> events@.len() == 0,
        spec_hovered_target(nodes@) matches Some(target) ==> {
            &&& events@.len() == wheel@.len()
            &&& forall|i: int|
                0 <= i < wheel@.len() ==> #[trigger] events@[i] == (UiEvent {
                    widget: target,
                    action: ScrollInput { distance: spec_wheel_distance(wheel@[i]) },
                })
        },
{
    let mut events: Vec<UiEvent<ScrollInput>> = Vec::new();
    if let Some(target) = hovered_target(nodes) {
        let mut i: usize = 0;
        while i < wheel.len()
            invariant
                i <= wheel@.len(),
                events@.len() == i,
                forall|j: int|
                    0 <= j < i ==> #[trigger] events@[j] == (UiEvent {
                        widget: target,
                        action: ScrollInput { distance: spec_wheel_distance(wheel@[j]) },
                    }),
            decreases wheel@.len() - i,
        {
            let distance: Vector2 = wheel_distance(&wheel[i]);
            events.push(UiEvent { widget: target, action: ScrollInput { distance } });
            i += 1;
        }
    }
    events
}

/// The Interact stage for the middle button: a press while the pointer is
/// over content, and inside the window, asks for an indicator at the pointer.
/// The pointer comes in window coordinates and leaves in interface
/// coordinates.
pub fn scroll_content_indicator_publisher(
    nodes: &Vec<ControlledByElement>,
    middle_just_pressed: bool,
    cursor: Option<Vector2>,
    window: NodeSize,
) -> (event: Option<UiEvent<ScrollIndicatorEnabled>>)
    ensures
        event == match (spec_hovered_target(nodes@), cursor) {
            (Some(target), Some(at)) if middle_just_pressed => Some(
                UiEvent {
                    widget: target,
                    action: ScrollIndicatorEnabled {
                        position: Vector2 { x: at.x, y: saturate(window.height - at.y) as i64 },
                    },
                },
            ),
            _ => None,
        },
{
    if !middle_just_pressed {
        return None;
    }
    match (hovered_target(nodes), cursor) {
        (Some(target), Some(at)) => {
            let from_top: i64 = saturate_i128(window.height as i128 - at.y as i128);
            Some(
                UiEvent {
                    widget: target,
                    action: ScrollIndicatorEnabled { position: Vector2 { x: at.x, y: from_top } },
                },
            )
        },
        _ => None,
    }
}

/// The Update stage for scroll intents: those addressed to `widget_entity`
/// move `widget`, in their order. Returns whether the widget changed.
pub fn scroll_content_scroll_subscriber(
    events: &Vec<UiEvent<ScrollInput>>,
    widget_entity: WidgetId,
    widget: &mut ScrollContentWidget,
) -> (changed: bool)
    ensures
        *final(widget) == spec_scroll_events_applied(*old(widget), widget_entity, events@),
        changed == (*final(widget) != *old(widget)),
{
    let before: Vector2 = widget.current_offset;
    let mut i: usize = 0;
    while i < events.len()
        invariant
            i <= events@.len(),
            *widget == spec_scroll_events_applied(*old(widget), widget_entity, events@.take(i as int)),
        decreases events@.len() - i,
    {
        proof {
            assert(events@.take(i as int + 1).drop_last() =~= events@.take(i as int));
            assert(events@.take(i as int + 1).last() == events@[i as int]);
        }
        if events[i].widget == widget_entity {
            widget.apply_scroll_delta(events[i].action.distance);
        }
        i += 1;
    }
    proof {
        assert(events@.take(events@.len() as int) =~= events@);
        lemma_scroll_events_keep_direction(*old(widget), widget_entity, events@);
    }
    widget.current_offset.x != before.x || widget.current_offset.y != before.y
}

/// The Update stage for indicator requests: each request addressed to
/// `widget_entity` spawns an indicator that drives this content and takes
/// its direction.
pub fn scroll_content_indcator_enabled_subscriber(
    events: &Vec<UiEvent<ScrollIndicatorEnabled>>,
    widget_entity: WidgetId,
    widget: &ScrollContentWidget,
) -> (spawned: Vec<ScrollIndicatorWidget>)
    ensures
        spawned@ == spec_indicators_spawned(*widget, widget_entity, events@),
{
    let mut spawned: Vec<ScrollIndicatorWidget> = Vec::new();
    let mut i: usize = 0;
    while i < events.len()
        invariant
            i <= events@.len(),
            spawned@ == spec_indicators_spawned(*widget, widget_entity, events@.take(i as int)),
        decreases events@.len() - i,
    {
        proof {
            assert(events@.take(i as int + 1).drop_last() =~= events@.take(i as int));
            assert(events@.take(i as int + 1).last() == events@[i as int]);
        }
        if events[i].widget == widget_entity {
            spawned.push(
                ScrollIndicatorWidget {
                    scroll_direction: widget.scroll_direction,
                    spawn_position: events[i].action.position,
                    scroll_content: widget_entity,
                },
            );
        }
        i += 1;
    }
    proof {
        assert(events@.take(events@.len() as int) =~= events@);
    }
    spawned
}

/// The Interact stage of drag-to-scroll. While an indicator is live and the
/// pointer is inside the window, the eased pointer travel becomes a scroll
/// intent for the content that the indicator drives; without a live
/// indicator, or with the pointer outside the window, there is no intent.
/// `eased` holds what the easing curve made of the indicator's easing input,
/// per axis.
pub fn scroll_from_scroll_indicator(
    state: &ScrollIndicatorState,
    cursor: Option<Vector2>,
    window: NodeSize,
    eased: Vector2,
) -> (event: Option<UiEvent<ScrollInput>>)
    ensures
        event == match (*state, cursor) {
            (ScrollIndicatorState::Enabled(widget), Some(at)) => Some(
                UiEvent {
                    widget: widget.scroll_content,
                    action: ScrollInput { distance: widget.spec_scroll_distance(at, window, eased) },
                },
            ),
            _ => None,
        },
{
    match (state, cursor) {
        (ScrollIndicatorState::Enabled(widget), Some(at)) => Some(
            UiEvent {
                widget: widget.scroll_content,
                action: ScrollInput { distance: widget.scroll_distance(at, window, eased) },
            },
        ),
        _ => None,
    }
}

/// The Constrain stage of one content widget. Returns whether the offset
/// had to move.
pub fn constrain_scroll_content(
    widget: &mut ScrollContentWidget,
    content_size: NodeSize,
    wrapper_size: NodeSize,
) -> (changed: bool)
    ensures
        *final(widget) == old(widget).spec_constrain(content_size, wrapper_size),
        changed == (*final(widget) != *old(widget)),
        final(widget).scroll_direction != ScrollDirection::Neither ==> final(widget).in_range(
            content_size,
            wrapper_size,
        ),
{
    let constrained: Vector2 = if widget.scroll_direction == ScrollDirection::Neither {
        Vector2 { x: 0, y: 0 }
    } else {
        let across: u64 = scrollable_range(content_size.width, wrapper_size.width);
        let down: u64 = scrollable_range(content_size.height, wrapper_size.height);
        Vector2 {
            x: clamp_to_range(widget.current_offset.x, across),
            y: clamp_to_range(widget.current_offset.y, down),
        }
    };
    let changed: bool = constrained.x != widget.current_offset.x || constrained.y
        != widget.current_offset.y;
    widget.current_offset = constrained;
    changed
}

/// The Extract stage of one content widget: the content is drawn shifted
/// against its offset, along the axes of its direction.
pub fn extract_scroll_content(widget: &ScrollContentWidget) -> (style: ScrollContentStyle)
    ensures
        style == widget.spec_style(),
{
    let margins: Vector2 = widget.current_offset.saturating_neg();
    match widget.scroll_direction {
        ScrollDirection::Vertical => ScrollContentStyle { margin_left: None, margin_top: Some(margins.y) },
        ScrollDirection::Horizontal => ScrollContentStyle { margin_left: Some(margins.x), margin_top: None },
        ScrollDirection::Both => ScrollContentStyle {
            margin_left: Some(margins.x),
            margin_top: Some(margins.y),
        },
        ScrollDirection::Neither => ScrollContentStyle { margin_left: None, margin_top: None },
    }
}

/// Scroll intents never change the direction of the content.
pub proof fn lemma_scroll_events_keep_direction(
    widget: ScrollContentWidget,
    widget_entity: WidgetId,
    events: Seq<UiEvent<ScrollInput>>,
)
    ensures
        spec_scroll_events_applied(widget, widget_entity, events).scroll_direction
            == widget.scroll_direction,
    decreases events.len(),
{
    if events.len() > 0 {
        lemma_scroll_events_keep_direction(widget, widget_entity, events.drop_last());
    }
}

/// Constraining the content twice, against the same sizes, is constraining
/// it once.
pub proof fn lemma_constrain_idempotent(
    widget: ScrollContentWidget,
    content_size: NodeSize,
    viewport_size: NodeSize,
)
    ensures
        widget.spec_constrain(content_size, viewport_size).spec_constrain(
            content_size,
            viewport_size,
        ) == widget.spec_constrain(content_size, viewport_size),
{
}

} // verus!
