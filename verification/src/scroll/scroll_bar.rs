//! The scroll bar model: a handle that slides along a track.
//!
//! The position of the handle is that of its leading edge, measured from the
//! start of the track. Its length and its visibility are derived from the
//! measured sizes and are never set on their own.

use vstd::prelude::*;
use crate::scroll::components::{
    ControlledByElement, Interaction, PressInput, ScrollBarOrientation, UiEvent, WidgetId,
};
use crate::scroll::geometry::{
    clamp_to_range, floored_handle_length, saturate, saturate_i128, scrollable_range, spec_clamp,
    spec_floored_handle_length, spec_scrollable_range, track_to_content_ratio, NodeSize, Ratio,
    Vector2,
};

verus! {

/// The girth of the track of a new scroll bar: twenty pixels.
pub const DEFAULT_GIRTH: u64 = 0x14_0000_0000;

/// The girth of the handle of a new scroll bar: eighteen pixels.
pub const DEFAULT_HANDLE_GIRTH: u64 = 0x12_0000_0000;

/// The length of the handle of a new scroll bar, until the first frame has
/// measured its track: forty pixels.
pub const DEFAULT_HANDLE_LENGTH: u64 = 0x28_0000_0000;

/// A scroll bar and its handle.
#[derive(Clone, Copy, Debug, PartialEq, Eq, Structural)]
pub struct ScrollBarWidget {
    pub orientation: ScrollBarOrientation,
    pub girth: u64,
    pub handle_girth: u64,
    pub handle_length: u64,
    pub handle_visibility: bool,
    /// The position of the leading edge of the handle along the track.
    pub current_offset: i64,
    /// Whether the handle is kept at least as long as it is thick.
    pub floor_handle_at_girth: bool,
}

/// The track node of a scroll bar as the pointer finds it: the widget it
/// stands for, what the pointer is doing to it, and where the pointer is,
/// measured from the corner of the track, when that is known.
#[derive(Clone, Copy, Debug, PartialEq, Eq, Structural)]
pub struct ScrollBarNode {
    pub controller: ControlledByElement,
    pub cursor: Option<Vector2>,
}

/// What the Extract stage writes for a handle node. A margin that is `None`
/// is left as it was.
#[derive(Clone, Copy, Debug, PartialEq, Eq, Structural)]
pub struct ScrollHandleStyle {
    pub width: u64,
    pub height: u64,
    pub displayed: bool,
    pub margin_left: Option<i64>,
    pub margin_top: Option<i64>,
}

/// The press intents that `nodes` give rise to: one for each track that is
/// held down while the pointer's place on it is known, in the order of the
/// nodes.
pub open spec fn spec_press_events(nodes: Seq<ScrollBarNode>) -> Seq<UiEvent<PressInput>>
    decreases nodes.len(),
{
    if nodes.len() == 0 {
        Seq::empty()
    } else {
        let before: Seq<UiEvent<PressInput>> = spec_press_events(nodes.drop_last());
        match nodes.last().cursor {
            Some(at) if nodes.last().controller.interaction == Interaction::Clicked => before.push(
                UiEvent { widget: nodes.last().controller.element, action: PressInput { position: at } },
            ),
            _ => before,
        }
    }
}

/// `widget` after those of `events` that are addressed to `widget_entity`
/// have moved its handle, in their order.
pub open spec fn spec_press_events_applied(
    widget: ScrollBarWidget,
    widget_entity: WidgetId,
    events: Seq<UiEvent<PressInput>>,
) -> ScrollBarWidget
    decreases events.len(),
{
    if events.len() == 0 {
        widget
    } else {
        let before: ScrollBarWidget = spec_press_events_applied(
            widget,
            widget_entity,
            events.drop_last(),
        );
        if events.last().widget == widget_entity {
            before.spec_apply_track_click(
                events.last().action.position.spec_along(widget.orientation) as int,
            )
        } else {
            before
        }
    }
}

impl ScrollBarWidget {
    /// This widget with its handle at `position`.
    pub open spec fn spec_moved_to(self, position: int) -> ScrollBarWidget {
        ScrollBarWidget {
            orientation: self.orientation,
            girth: self.girth,
            handle_girth: self.handle_girth,
            handle_length: self.handle_length,
            handle_visibility: self.handle_visibility,
            current_offset: position as i64,
            floor_handle_at_girth: self.floor_handle_at_girth,
        }
    }

    /// The least length that the handle may have: its girth where the floor
    /// is asked for, and nothing otherwise.
    pub open spec fn spec_min_handle_length(self) -> u64 {
        if self.floor_handle_at_girth { self.handle_girth } else { 0 }
    }

    /// The widget after a click on the track at `cursor_track_position`: the
    /// handle is centred on the pointer, wherever that puts it.
    pub open spec fn spec_apply_track_click(self, cursor_track_position: int) -> ScrollBarWidget {
        self.spec_moved_to(saturate(cursor_track_position - self.handle_length / 2))
    }

    /// The widget after it has been made to show `content_offset`.
    pub open spec fn spec_sync_from_content(self, content_offset: int, ratio: Ratio) -> ScrollBarWidget {
        self.spec_moved_to(ratio.spec_to_track(content_offset))
    }

    /// The widget with the length and the visibility of its handle derived
    /// anew from the sizes along its axis: the length is the share that the
    /// viewport shows of the content, raised to the least length, and the
    /// handle is visible exactly if the content can scroll.
    pub open spec fn spec_sync_handle_geometry(
        self,
        viewport_size: u64,
        content_size: u64,
        track_size: u64,
    ) -> ScrollBarWidget {
        ScrollBarWidget {
            orientation: self.orientation,
            girth: self.girth,
            handle_girth: self.handle_girth,
            handle_length: spec_floored_handle_length(
                viewport_size as int,
                content_size as int,
                track_size as int,
                self.spec_min_handle_length() as int,
            ) as u64,
            handle_visibility: spec_scrollable_range(content_size as int, viewport_size as int) > 0,
            current_offset: self.current_offset,
            floor_handle_at_girth: self.floor_handle_at_girth,
        }
    }

    /// How far the handle can travel on a track of `track_size`.
    pub open spec fn spec_track_scrollable(self, track_size: NodeSize) -> int {
        spec_scrollable_range(
            track_size.spec_along(self.orientation) as int,
            self.handle_length as int,
        )
    }

    /// The ratio between the travel of the handle on a track of `track_size`
    /// and the travel of content of `content_size` behind a viewport of
    /// `viewport_size`, along the axis of the bar.
    pub open spec fn spec_ratio(
        self,
        content_size: NodeSize,
        viewport_size: NodeSize,
        track_size: NodeSize,
    ) -> Ratio {
        let content_scrollable: int = spec_scrollable_range(
            content_size.spec_along(self.orientation) as int,
            viewport_size.spec_along(self.orientation) as int,
        );
        Ratio {
            track_scrollable: if content_scrollable == 0 {
                0
            } else {
                self.spec_track_scrollable(track_size) as u64
            },
            content_scrollable: content_scrollable as u64,
        }
    }

    /// The widget after the content has driven it: the handle is measured
    /// anew and then moved to where it shows `content_offset`.
    pub open spec fn spec_driven_by_content(
        self,
        content_offset: Vector2,
        content_size: NodeSize,
        viewport_size: NodeSize,
        track_size: NodeSize,
    ) -> ScrollBarWidget {
        let measured: ScrollBarWidget = self.spec_sync_handle_geometry(
            viewport_size.spec_along(self.orientation),
            content_size.spec_along(self.orientation),
            track_size.spec_along(self.orientation),
        );
        measured.spec_sync_from_content(
            content_offset.spec_along(self.orientation) as int,
            measured.spec_ratio(content_size, viewport_size, track_size),
        )
    }

    /// The widget after the Constrain stage: the handle clamped onto a track
    /// of `track_size`.
    pub open spec fn spec_constrain(self, track_size: NodeSize) -> ScrollBarWidget {
        self.spec_moved_to(
            spec_clamp(self.current_offset as int, 0, self.spec_track_scrollable(track_size)),
        )
    }

    /// The handle lies on a track of `track_size`.
    pub open spec fn in_range(self, track_size: NodeSize) -> bool {
        0 <= self.current_offset <= self.spec_track_scrollable(track_size)
    }

    /// The style that shows the handle of this widget.
    pub open spec fn spec_style(self) -> ScrollHandleStyle {
        match self.orientation {
            ScrollBarOrientation::Vertical => ScrollHandleStyle {
                width: self.handle_girth,
                height: self.handle_length,
                displayed: self.handle_visibility,
                margin_left: None,
                margin_top: Some(self.current_offset),
            },
            ScrollBarOrientation::Horizontal => ScrollHandleStyle {
                width: self.handle_length,
                height: self.handle_girth,
                displayed: self.handle_visibility,
                margin_left: Some(self.current_offset),
                margin_top: None,
            },
        }
    }

    /// A scroll bar as a new container gets it: shown, at the start of its
    /// track, with the default girths and length, and no floor under the
    /// length of its handle.
    pub fn new(orientation: ScrollBarOrientation) -> (widget: ScrollBarWidget)
        ensures
            widget == (ScrollBarWidget {
                orientation,
                girth: DEFAULT_GIRTH,
                handle_girth: DEFAULT_HANDLE_GIRTH,
                handle_length: DEFAULT_HANDLE_LENGTH,
                handle_visibility: true,
                current_offset: 0,
                floor_handle_at_girth: false,
            }),
    {
        ScrollBarWidget {
            orientation,
            girth: DEFAULT_GIRTH,
            handle_girth: DEFAULT_HANDLE_GIRTH,
            handle_length: DEFAULT_HANDLE_LENGTH,
            handle_visibility: true,
            current_offset: 0,
            floor_handle_at_girth: false,
        }
    }

    /// Jumps the handle so that its middle lies under the pointer. Nothing is
    /// checked against the track here. Returns whether the handle moved.
    pub fn apply_track_click(&mut self, cursor_track_position: i64) -> (changed: bool)
        ensures
            *final(self) == old(self).spec_apply_track_click(cursor_track_position as int),
            changed == (*final(self) != *old(self)),
    {
        let half: i128 = (self.handle_length / 2) as i128;
        let moved: i64 = saturate_i128(cursor_track_position as i128 - half);
        let changed: bool = moved != self.current_offset;
        self.current_offset = moved;
        changed
    }

    /// Moves the handle to where it shows `content_offset`. The caller is
    /// the one who drives: this write is no change of the bar's own.
    pub fn sync_from_content(&mut self, content_offset: i64, ratio: Ratio)
        ensures
            *final(self) == old(self).spec_sync_from_content(content_offset as int, ratio),
    {
        self.current_offset = ratio.to_track(content_offset);
    }

    /// Derives the length and the visibility of the handle from the sizes
    /// along the axis of the bar.
    pub fn sync_handle_geometry(&mut self, viewport_size: u64, content_size: u64, track_size: u64)
        ensures
            *final(self) == old(self).spec_sync_handle_geometry(
                viewport_size,
                content_size,
                track_size,
            ),
    {
        let minimum: u64 = if self.floor_handle_at_girth { self.handle_girth } else { 0 };
        self.handle_length = floored_handle_length(viewport_size, content_size, track_size, minimum);
        self.handle_visibility = scrollable_range(content_size, viewport_size) > 0;
    }

    /// How far the handle can travel on a track of `track_size`.
    pub fn track_scrollable(&self, track_size: NodeSize) -> (range: u64)
        ensures
            range == self.spec_track_scrollable(track_size),
    {
        scrollable_range(track_size.along(self.orientation), self.handle_length)
    }

    /// The ratio between the travel of the handle and that of the content.
    pub fn ratio(&self, content_size: NodeSize, viewport_size: NodeSize, track_size: NodeSize) -> (ratio: Ratio)
        ensures
            ratio == self.spec_ratio(content_size, viewport_size, track_size),
    {
        track_to_content_ratio(
            self.track_scrollable(track_size),
            scrollable_range(
                content_size.along(self.orientation),
                viewport_size.along(self.orientation),
            ),
        )
    }

    /// Lets the content drive this bar: the handle is measured anew and then
    /// moved to where it shows `content_offset`.
    pub fn drive_from_content(
        &mut self,
        content_offset: Vector2,
        content_size: NodeSize,
        viewport_size: NodeSize,
        track_size: NodeSize,
    )
        ensures
            *final(self) == old(self).spec_driven_by_content(
                content_offset,
                content_size,
                viewport_size,
                track_size,
            ),
    {
        self.sync_handle_geometry(
            viewport_size.along(self.orientation),
            content_size.along(self.orientation),
            track_size.along(self.orientation),
        );
        let ratio: Ratio = self.ratio(content_size, viewport_size, track_size);
        self.sync_from_content(content_offset.along(self.orientation), ratio);
    }
}

/// The Interact stage of the scroll bars: each track that is held down
/// while the pointer's place on it is known asks for its handle to jump
/// there.
pub fn scroll_bar_left_click_publisher(nodes: &Vec<ScrollBarNode>) -> (events: Vec<UiEvent<PressInput>>)
    ensures
        events@ == spec_press_events(nodes@),
{
    let mut events: Vec<UiEvent<PressInput>> = Vec::new();
    let mut i: usize = 0;
    while i < nodes.len()
        invariant
            i <= nodes@.len(),
            events@ == spec_press_events(nodes@.take(i as int)),
        decreases nodes@.len() - i,
    {
        proof {
            assert(nodes@.take(i as int + 1).drop_last() =~= nodes@.take(i as int));
            assert(nodes@.take(i as int + 1).last() == nodes@[i as int]);
        }
        if nodes[i].controller.interaction == Interaction::Clicked {
            if let Some(at) = nodes[i].cursor {
                events.push(
                    UiEvent { widget: nodes[i].controller.element, action: PressInput { position: at } },
                );
            }
        }
        i += 1;
    }
    proof {
        assert(nodes@.take(nodes@.len() as int) =~= nodes@);
    }
    events
}

/// The Update stage for press intents: those addressed to `widget_entity`
/// move the handle of `widget`, in their order. Returns whether the handle
/// moved.
pub fn scroll_bar_left_click_subscriber(
    events: &Vec<UiEvent<PressInput>>,
    widget_entity: WidgetId,
    widget: &mut ScrollBarWidget,
) -> (changed: bool)
    ensures
        *final(widget) == spec_press_events_applied(*old(widget), widget_entity, events@),
        changed == (*final(widget) != *old(widget)),
{
    let before: i64 = widget.current_offset;
    let mut i: usize = 0;
    while i < events.len()
        invariant
            i <= events@.len(),
            *widget == spec_press_events_applied(*old(widget), widget_entity, events@.take(i as int)),
            widget.spec_moved_to(old(widget).current_offset as int) == *old(widget),
        decreases events@.len() - i,
    {
        proof {
            assert(events@.take(i as int + 1).drop_last() =~= events@.take(i as int));
            assert(events@.take(i as int + 1).last() == events@[i as int]);
        }
        if events[i].widget == widget_entity {
            let at: i64 = events[i].action.position.along(widget.orientation);
            widget.apply_track_click(at);
        }
        i += 1;
    }
    proof {
        assert(events@.take(events@.len() as int) =~= events@);
    }
    widget.current_offset != before
}

/// The Constrain stage of one scroll bar: the handle is brought back onto
/// its track. Returns whether the handle had to move.
pub fn constrain_scroll_bar(widget: &mut ScrollBarWidget, track_size: NodeSize) -> (changed: bool)
    ensures
        *final(widget) == old(widget).spec_constrain(track_size),
        changed == (*final(widget) != *old(widget)),
        final(widget).in_range(track_size),
{
    let range: u64 = widget.track_scrollable(track_size);
    let clamped: i64 = clamp_to_range(widget.current_offset, range);
    let changed: bool = clamped != widget.current_offset;
    widget.current_offset = clamped;
    changed
}

/// The Extract stage of one scroll bar: the size of the handle, whether it
/// is drawn, and its place along the axis of the bar.
pub fn extract_scroll_bar(widget: &ScrollBarWidget) -> (style: ScrollHandleStyle)
    ensures
        style == widget.spec_style(),
{
    match widget.orientation {
        ScrollBarOrientation::Vertical => ScrollHandleStyle {
            width: widget.handle_girth,
            height: widget.handle_length,
            displayed: widget.handle_visibility,
            margin_left: None,
            margin_top: Some(widget.current_offset),
        },
        ScrollBarOrientation::Horizontal => ScrollHandleStyle {
            width: widget.handle_length,
            height: widget.handle_girth,
            displayed: widget.handle_visibility,
            margin_left: Some(widget.current_offset),
            margin_top: None,
        },
    }
}

/// Constraining a bar twice, against the same track, is constraining it
/// once.
pub proof fn lemma_constrain_idempotent(widget: ScrollBarWidget, track_size: NodeSize)
    ensures
        widget.spec_constrain(track_size).spec_constrain(track_size) == widget.spec_constrain(
            track_size,
        ),
{
}

} // verus!
