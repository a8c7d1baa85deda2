//! The scroll engine: geometry, the widget models, and the frame that runs
//! the stages over one container in their fixed order.

pub mod components;
pub mod geometry;
pub mod scroll_bar;
pub mod scroll_container;
pub mod scroll_content;
pub mod scroll_indicator;
pub mod systems;

use vstd::prelude::*;
use crate::scroll::components::{Interaction, MouseWheel, ScrollBarOrientation, ScrollDirection};
use crate::scroll::geometry::{
    lemma_ratio_keeps_ranges, lemma_to_content_commutes_with_clamp,
    lemma_to_track_commutes_with_clamp, spec_clamp, spec_scrollable_range, NodeSize, Ratio,
    Vector2,
};
use crate::scroll::scroll_bar::{ScrollBarNode, ScrollBarWidget, ScrollHandleStyle};
use crate::scroll::scroll_container::{
    synchronize_bar_with_content, ScrollContainerElement, ScrollContainerLayout,
    ScrollContainerModel, ScrollLayoutModel,
};
use crate::scroll::scroll_content::{
    lemma_constrain_idempotent, ScrollContentStyle, ScrollContentWidget,
};
use crate::scroll::scroll_indicator::{
    lemma_eased_keeps_sign, ScrollIndicatorState, ScrollIndicatorWidget,
};
use crate::scroll::systems::bind::{
    lemma_bars_keep_direction, lemma_single_bar_drives, lemma_unchanged_bars_do_not_drive,
};
use crate::scroll::systems::constrain::{
    constrain_scroll_content, constrain_scroll_handles, handle_floored, handle_proportional,
    handle_shown_when_scrollable, lemma_handle_constrained_idempotent, spec_handle_constrained,
    spec_handles_constrained,
};
use crate::scroll::systems::extract::{
    extract_scroll_content_styles, extract_scroll_handle_styles, spec_handle_styles,
};
use crate::scroll::systems::interact::{
    handle_mousewheel, lemma_held_drag_keeps_scrolling,
    lemma_wheel_keeps_direction, scroll_bar_interaction,
    scroll_from_scroll_indicator, spec_bars_changed, spec_bars_pressed, spec_indicator_dragged,
    spec_wheel_applied,
};

verus! {

/// The stages of a frame, in the order in which they run.
#[derive(Clone, Copy, Debug, PartialEq, Eq, Hash, Structural)]
pub enum ScrollSystemSet {
    /// Builds what a new widget lacks.
    Create,
    /// Turns what the devices did into intents.
    Interact,
    /// Applies the intents, and lets whoever changed drive the other side.
    Update,
    /// Brings every model back within its bounds.
    Constrain,
    /// Hands the models to the renderer.
    Extract,
}

/// Drag-to-scroll as one content region meets it in a frame: the state of
/// the indicator that is bound to the region, and what a live indicator
/// needs to drive it.
#[derive(Clone, Copy, Debug, PartialEq, Eq, Structural)]
pub struct ScrollIndicatorDrive {
    pub state: ScrollIndicatorState,
    /// The pointer in window coordinates, while it is inside the window.
    pub cursor: Option<Vector2>,
    pub window: NodeSize,
    /// What the easing curve made of the indicator's easing input.
    pub eased: Vector2,
}

/// What the devices did to one container in a frame.
#[derive(Debug, PartialEq, Eq)]
pub struct ScrollFrameInput {
    /// What the pointer is doing to the content region.
    pub interaction: Interaction,
    /// The wheel events of the frame.
    pub wheel: Vec<MouseWheel>,
    /// The track of each bar, in the order of the bars.
    pub tracks: Vec<ScrollBarNode>,
    /// Drag-to-scroll for this content.
    pub indicator: ScrollIndicatorDrive,
}

/// What the renderer reads of one container after a frame.
#[derive(Debug, PartialEq, Eq)]
pub struct ScrollContainerStyle {
    pub content: ScrollContentStyle,
    pub handles: Vec<ScrollHandleStyle>,
}

/// The input of a frame as the contracts see it.
pub struct ScrollFrameInputModel {
    pub interaction: Interaction,
    pub wheel: Seq<MouseWheel>,
    pub tracks: Seq<ScrollBarNode>,
    pub indicator: ScrollIndicatorDrive,
}

impl View for ScrollFrameInput {
    type V = ScrollFrameInputModel;

    open spec fn view(&self) -> ScrollFrameInputModel {
        ScrollFrameInputModel {
            interaction: self.interaction,
            wheel: self.wheel@,
            tracks: self.tracks@,
            indicator: self.indicator,
        }
    }
}

impl ScrollSystemSet {
    /// The place of the stage in the frame, counted from zero.
    pub open spec fn spec_position(self) -> nat {
        match self {
            ScrollSystemSet::Create => 0,
            ScrollSystemSet::Interact => 1,
            ScrollSystemSet::Update => 2,
            ScrollSystemSet::Constrain => 3,
            ScrollSystemSet::Extract => 4,
        }
    }

    /// The stage that runs after this one; `None` after the last.
    pub fn next(self) -> (following: Option<ScrollSystemSet>)
        ensures
            self == ScrollSystemSet::Extract <==> following is None,
            following matches Some(stage) ==> stage.spec_position() == self.spec_position() + 1,
    {
        match self {
            ScrollSystemSet::Create => Some(ScrollSystemSet::Interact),
            ScrollSystemSet::Interact => Some(ScrollSystemSet::Update),
            ScrollSystemSet::Update => Some(ScrollSystemSet::Constrain),
            ScrollSystemSet::Constrain => Some(ScrollSystemSet::Extract),
            ScrollSystemSet::Extract => None,
        }
    }
}

impl ScrollFrameInputModel {
    /// The input names a track for each bar of `container`.
    pub open spec fn addresses(self, container: ScrollContainerModel) -> bool {
        self.tracks.len() == container.bars.len()
    }

    /// The input brings no intent: no wheel event reaches the content, no
    /// track is pressed where the pointer can be found, and no indicator
    /// drives the content.
    pub open spec fn brings_nothing(self) -> bool {
        &&& self.interaction != Interaction::Hovered || self.wheel.len() == 0
        &&& self.indicator.state == ScrollIndicatorState::Disabled || self.indicator.cursor is None
        &&& forall|i: int|
            0 <= i < self.tracks.len() ==> !((#[trigger] self.tracks[i]).controller.interaction
                == Interaction::Clicked && self.tracks[i].cursor is Some)
    }
}

impl ScrollContainerModel {
    /// The container after the Interact stage has moved its models.
    pub open spec fn spec_interacted(self, input: ScrollFrameInputModel) -> ScrollContainerModel {
        let wheeled: ScrollContentWidget = if input.interaction == Interaction::Hovered {
            spec_wheel_applied(self.content, input.wheel)
        } else {
            self.content
        };
        let dragged: ScrollContentWidget = spec_indicator_dragged(
            wheeled,
            input.indicator.state,
            input.indicator.cursor,
            input.indicator.window,
            input.indicator.eased,
        );
        ScrollContainerModel { content: dragged, bars: spec_bars_pressed(self.bars, input.tracks) }
    }

    /// The container after the Constrain stage.
    pub open spec fn spec_constrained(self, layout: ScrollLayoutModel) -> ScrollContainerModel {
        ScrollContainerModel {
            content: self.content.spec_constrain(layout.content, layout.wrapper),
            bars: spec_handles_constrained(self.bars, layout),
        }
    }

    /// The container after one frame: the intents are applied, whoever has
    /// changed drives the other side, and every model is constrained.
    pub open spec fn spec_frame(self, layout: ScrollLayoutModel, input: ScrollFrameInputModel) -> ScrollContainerModel {
        let interacted: ScrollContainerModel = self.spec_interacted(input);
        interacted.spec_synchronized(
            layout,
            interacted.content != self.content,
            spec_bars_changed(self.bars, interacted.bars),
        ).spec_constrained(layout)
    }

    /// What holds of a container at the end of every frame: the offset of
    /// the content and the position of each handle are within their ranges,
    /// each handle is shown exactly if its axis can scroll, and a handle that
    /// is shown is in proportion, unless the floor under its length is in
    /// force.
    pub open spec fn settled(self, layout: ScrollLayoutModel) -> bool {
        &&& self.content.scroll_direction != ScrollDirection::Neither ==> self.content.in_range(
            layout.content,
            layout.wrapper,
        )
        &&& self.content.scroll_direction == ScrollDirection::Neither ==> self.content.current_offset
            == (Vector2 { x: 0, y: 0 })
        &&& forall|i: int|
            0 <= i < self.bars.len() ==> {
                let bar: ScrollBarWidget = #[trigger] self.bars[i];
                &&& bar.in_range(layout.tracks[i])
                &&& handle_shown_when_scrollable(bar, layout.content, layout.wrapper)
                &&& bar.handle_visibility && !handle_floored(
                    bar,
                    layout.content,
                    layout.wrapper,
                    layout.tracks[i],
                ) ==> handle_proportional(bar, layout.content, layout.wrapper, layout.tracks[i])
            }
    }
}

/// The handle of `bar` stands where it shows the offset of `content`.
pub open spec fn bar_shows_content(
    bar: ScrollBarWidget,
    content: ScrollContentWidget,
    content_size: NodeSize,
    viewport_size: NodeSize,
    track_size: NodeSize,
) -> bool {
    bar.current_offset == bar.spec_ratio(content_size, viewport_size, track_size).spec_to_track(
        content.current_offset.spec_along(bar.orientation) as int,
    )
}

/// The offset of `content`, along the axis of `bar`, is what the handle of
/// `bar` stands for.
pub open spec fn content_shows_bar(
    bar: ScrollBarWidget,
    content: ScrollContentWidget,
    content_size: NodeSize,
    viewport_size: NodeSize,
    track_size: NodeSize,
) -> bool {
    content.current_offset.spec_along(bar.orientation) == bar.spec_ratio(
        content_size,
        viewport_size,
        track_size,
    ).spec_to_content(bar.current_offset as int)
}

/// Runs one frame over a container: Interact, Update, Constrain, Extract.
/// The result is what the renderer reads.
pub fn run_frame(
    element: &mut ScrollContainerElement,
    layout: &ScrollContainerLayout,
    input: &ScrollFrameInput,
) -> (style: ScrollContainerStyle)
    requires
        old(element)@.measured_by(layout@),
        input@.addresses(old(element)@),
    ensures
        final(element)@ == old(element)@.spec_frame(layout@, input@),
        final(element)@.settled(layout@),
        old(element)@.same_build(final(element)@),
        old(element)@.well_formed() ==> final(element)@.well_formed(),
        style.content == final(element)@.content.spec_style(),
        style.handles@ == spec_handle_styles(final(element)@.bars),
{
    let before: Vector2 = element.scroll_content_widget.current_offset;
    handle_mousewheel(input.interaction, &input.wheel, &mut element.scroll_content_widget);
    scroll_from_scroll_indicator(
        &input.indicator.state,
        input.indicator.cursor,
        input.indicator.window,
        input.indicator.eased,
        &mut element.scroll_content_widget,
    );
    let bars_changed: Vec<bool> = scroll_bar_interaction(&input.tracks, &mut element.scroll_bar_widgets);
    let content_changed: bool = element.scroll_content_widget.current_offset.x != before.x
        || element.scroll_content_widget.current_offset.y != before.y;
    let ghost interacted: ScrollContainerModel = old(element)@.spec_interacted(input@);
    proof {
        lemma_frame_keeps_build(old(element)@, layout@, input@);
        if input.interaction == Interaction::Hovered {
            lemma_wheel_keeps_direction(old(element)@.content, input.wheel@);
        }
        assert(element@ == interacted);
        assert(content_changed == (interacted.content != old(element)@.content));
    }

    synchronize_bar_with_content(element, layout, content_changed, &bars_changed);
    let ghost synchronized: ScrollContainerModel = element@;

    constrain_scroll_content(&mut element.scroll_content_widget, layout);
    constrain_scroll_handles(&mut element.scroll_bar_widgets, layout);
    proof {
        assert(element@ == synchronized.spec_constrained(layout@));
    }

    ScrollContainerStyle {
        content: extract_scroll_content_styles(&element.scroll_content_widget),
        handles: extract_scroll_handle_styles(&element.scroll_bar_widgets),
    }
}

/// A frame leaves a container that a second frame without intents, over the
/// same sizes, does not change: one frame reaches the fixed point.
pub proof fn lemma_frame_settles(
    container: ScrollContainerModel,
    layout: ScrollLayoutModel,
    input: ScrollFrameInputModel,
    idle: ScrollFrameInputModel,
)
    requires
        container.measured_by(layout),
        input.addresses(container),
        idle.addresses(container),
        idle.brings_nothing(),
    ensures
        container.spec_frame(layout, input).spec_frame(layout, idle) == container.spec_frame(
            layout,
            input,
        ),
{
    let interacted: ScrollContainerModel = container.spec_interacted(input);
    let synchronized: ScrollContainerModel = interacted.spec_synchronized(
        layout,
        interacted.content != container.content,
        spec_bars_changed(container.bars, interacted.bars),
    );
    let first: ScrollContainerModel = synchronized.spec_constrained(layout);
    assert(first == container.spec_frame(layout, input));
    assert(first.bars.len() == container.bars.len());
    lemma_constrained_stays(first, layout, idle);
    assert forall|i: int| 0 <= i < first.bars.len() implies spec_handle_constrained(
        first.bars[i],
        layout.content,
        layout.wrapper,
        layout.tracks[i],
    ) == first.bars[i] by {
        lemma_handle_constrained_idempotent(
            synchronized.bars[i],
            layout.content,
            layout.wrapper,
            layout.tracks[i],
        );
    }
    assert(spec_handles_constrained(first.bars, layout) =~= first.bars);
    lemma_constrain_idempotent(synchronized.content, layout.content, layout.wrapper);
}

/// A frame without intents does nothing before its Constrain stage.
proof fn lemma_constrained_stays(
    container: ScrollContainerModel,
    layout: ScrollLayoutModel,
    idle: ScrollFrameInputModel,
)
    requires
        idle.addresses(container),
        idle.brings_nothing(),
    ensures
        container.spec_frame(layout, idle) == container.spec_constrained(layout),
{
    let interacted: ScrollContainerModel = container.spec_interacted(idle);
    assert(interacted.bars =~= container.bars);
    assert(interacted.content == container.content);
    let changed: Seq<bool> = spec_bars_changed(container.bars, interacted.bars);
    lemma_unchanged_bars_do_not_drive(
        container.content,
        container.bars,
        changed,
        layout,
        container.bars.len(),
    );
}

/// A frame in which an intent moves the content and none moves a bar leaves
/// every bar where it shows the content, however far the intent has pushed
/// the content beyond its range.
pub proof fn lemma_content_driven_frame_is_consistent(
    container: ScrollContainerModel,
    layout: ScrollLayoutModel,
    input: ScrollFrameInputModel,
)
    requires
        container.measured_by(layout),
        input.addresses(container),
        container.content.scroll_direction != ScrollDirection::Neither,
        container.spec_interacted(input).content != container.content,
        container.spec_interacted(input).bars == container.bars,
    ensures
        forall|i: int|
            0 <= i < container.bars.len() ==> bar_shows_content(
                #[trigger] container.spec_frame(layout, input).bars[i],
                container.spec_frame(layout, input).content,
                layout.content,
                layout.wrapper,
                layout.tracks[i],
            ),
{
    let interacted: ScrollContainerModel = container.spec_interacted(input);
    let changed: Seq<bool> = spec_bars_changed(container.bars, interacted.bars);
    let synchronized: ScrollContainerModel = interacted.spec_synchronized(layout, true, changed);
    lemma_unchanged_bars_do_not_drive(
        interacted.content,
        synchronized.bars,
        changed,
        layout,
        synchronized.bars.len(),
    );
    if input.interaction == Interaction::Hovered {
        lemma_wheel_keeps_direction(container.content, input.wheel);
    }
    let after: ScrollContainerModel = container.spec_frame(layout, input);
    assert(after == synchronized.spec_constrained(layout));
    assert forall|i: int| 0 <= i < container.bars.len() implies bar_shows_content(
        #[trigger] after.bars[i],
        after.content,
        layout.content,
        layout.wrapper,
        layout.tracks[i],
    ) by {
        let driven: ScrollBarWidget = synchronized.bars[i];
        let ratio: Ratio = driven.spec_ratio(layout.content, layout.wrapper, layout.tracks[i]);
        lemma_to_track_commutes_with_clamp(
            ratio,
            interacted.content.current_offset.spec_along(driven.orientation) as int,
        );
    }
}

/// A frame in which an intent moves one bar, whose handle is already
/// measured for the sizes of the frame, and none moves the content or
/// another bar, leaves the content where it shows that bar, however far the
/// intent has pushed the handle beyond its track. Where the axis of the bar
/// cannot scroll, nothing is claimed.
pub proof fn lemma_bar_driven_frame_is_consistent(
    container: ScrollContainerModel,
    layout: ScrollLayoutModel,
    input: ScrollFrameInputModel,
    driver: int,
)
    requires
        container.measured_by(layout),
        input.addresses(container),
        0 <= driver < container.bars.len(),
        container.content.scroll_direction != ScrollDirection::Neither,
        container.spec_interacted(input).content == container.content,
        forall|i: int|
            0 <= i < container.bars.len() ==> (container.spec_interacted(input).bars[i]
                != container.bars[i]) == (i == driver),
        container.bars[driver] == container.bars[driver].spec_sync_handle_geometry(
            layout.wrapper.spec_along(container.bars[driver].orientation),
            layout.content.spec_along(container.bars[driver].orientation),
            layout.tracks[driver].spec_along(container.bars[driver].orientation),
        ),
    ensures
        ({
            let after: ScrollContainerModel = container.spec_frame(layout, input);
            !after.bars[driver].spec_ratio(
                layout.content,
                layout.wrapper,
                layout.tracks[driver],
            ).spec_is_zero() ==> content_shows_bar(
                after.bars[driver],
                after.content,
                layout.content,
                layout.wrapper,
                layout.tracks[driver],
            )
        }),
{
    let interacted: ScrollContainerModel = container.spec_interacted(input);
    let changed: Seq<bool> = spec_bars_changed(container.bars, interacted.bars);
    let synchronized: ScrollContainerModel = interacted.spec_synchronized(layout, false, changed);
    lemma_single_bar_drives(
        interacted.content,
        interacted.bars,
        changed,
        layout,
        interacted.bars.len(),
        driver,
    );
    let pressed: ScrollBarWidget = interacted.bars[driver];
    let ratio: Ratio = pressed.spec_ratio(layout.content, layout.wrapper, layout.tracks[driver]);
    let after: ScrollContainerModel = container.spec_frame(layout, input);
    assert(after == synchronized.spec_constrained(layout));
    if !ratio.spec_is_zero() {
        lemma_to_content_commutes_with_clamp(ratio, pressed.current_offset as int);
        lemma_ratio_keeps_ranges(
            ratio,
            0,
            spec_clamp(pressed.current_offset as int, 0, ratio.track_scrollable as int),
        );
    }
}

/// A frame moves the models of a container and leaves its build alone: a
/// container that is well formed stays so.
pub proof fn lemma_frame_keeps_build(
    container: ScrollContainerModel,
    layout: ScrollLayoutModel,
    input: ScrollFrameInputModel,
)
    ensures
        container.same_build(container.spec_frame(layout, input)),
        container.well_formed() ==> container.spec_frame(layout, input).well_formed(),
{
    let interacted: ScrollContainerModel = container.spec_interacted(input);
    if input.interaction == Interaction::Hovered {
        lemma_wheel_keeps_direction(container.content, input.wheel);
    }
    let content_changed: bool = interacted.content != container.content;
    let bars_changed: Seq<bool> = spec_bars_changed(container.bars, interacted.bars);
    let synchronized: ScrollContainerModel = interacted.spec_synchronized(
        layout,
        content_changed,
        bars_changed,
    );
    lemma_bars_keep_direction(
        interacted.content,
        synchronized.bars,
        bars_changed,
        layout,
        synchronized.bars.len(),
    );
    let after: ScrollContainerModel = container.spec_frame(layout, input);
    assert(after == synchronized.spec_constrained(layout));
    assert(container.same_build(after));
}

/// A held drag scrolls in every frame. In a frame that brings nothing but a
/// live indicator with the pointer below its spawn point, over content that
/// scrolls vertically and lies within its range, the vertical offset never
/// falls; and where the curve yields more than nothing, it rises, until it
/// has reached the end of its range. The content is of a height that an
/// offset can hold.
pub proof fn lemma_held_drag_scrolls_every_frame(
    container: ScrollContainerModel,
    layout: ScrollLayoutModel,
    input: ScrollFrameInputModel,
)
    requires
        container.measured_by(layout),
        input.addresses(container),
        container.content.scroll_direction.spec_allows(ScrollBarOrientation::Vertical),
        container.content.in_range(layout.content, layout.wrapper),
        layout.content.height <= i64::MAX,
        input.interaction != Interaction::Hovered || input.wheel.len() == 0,
        forall|i: int|
            0 <= i < input.tracks.len() ==> !((#[trigger] input.tracks[i]).controller.interaction
                == Interaction::Clicked && input.tracks[i].cursor is Some),
        input.indicator.eased.y >= 0,
        input.indicator.state matches ScrollIndicatorState::Enabled(indicator)
            && input.indicator.cursor matches Some(at) && indicator.spec_delta(
            at,
            input.indicator.window,
        ).y < 0,
    ensures
        ({
            let before: int = container.content.current_offset.y as int;
            let after: int = container.spec_frame(layout, input).content.current_offset.y as int;
            let range: int = spec_scrollable_range(
                layout.content.height as int,
                layout.wrapper.height as int,
            );
            &&& after >= before
            &&& after <= range
            &&& input.indicator.eased.y > 0 && before < range ==> after > before
        }),
{
    let indicator: ScrollIndicatorWidget = input.indicator.state->0;
    let at: Vector2 = input.indicator.cursor->0;
    lemma_eased_keeps_sign(
        indicator.spec_delta(at, input.indicator.window).y as int,
        input.indicator.eased.y as int,
    );
    lemma_held_drag_keeps_scrolling(
        indicator,
        at,
        input.indicator.window,
        input.indicator.eased,
        container.content,
    );
    let dragged: ScrollContentWidget = container.content.spec_dragged(
        indicator.spec_scroll_distance(at, input.indicator.window, input.indicator.eased),
    );
    let interacted: ScrollContainerModel = container.spec_interacted(input);
    assert(spec_wheel_applied(container.content, Seq::<MouseWheel>::empty())
        == container.content);
    if input.interaction == Interaction::Hovered {
        assert(input.wheel =~= Seq::<MouseWheel>::empty());
    }
    assert(interacted.content == dragged);
    assert(interacted.bars =~= container.bars);
    let changed: Seq<bool> = spec_bars_changed(container.bars, interacted.bars);
    let content_changed: bool = interacted.content != container.content;
    let synchronized: ScrollContainerModel = interacted.spec_synchronized(
        layout,
        content_changed,
        changed,
    );
    lemma_unchanged_bars_do_not_drive(
        interacted.content,
        synchronized.bars,
        changed,
        layout,
        synchronized.bars.len(),
    );
    assert(synchronized.content == dragged);
    let after: ScrollContainerModel = container.spec_frame(layout, input);
    assert(after == synchronized.spec_constrained(layout));
    assert(after.content == dragged.spec_constrain(layout.content, layout.wrapper));
    assert(dragged.current_offset.y >= container.content.current_offset.y);
}

} // verus!
