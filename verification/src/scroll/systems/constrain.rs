//! The Constrain stage: whatever the earlier stages have done, every model
//! ends the frame within its bounds.

use vstd::prelude::*;
use crate::scroll::components::ScrollDirection;
use crate::scroll::geometry::{lemma_handle_length_proportional, spec_handle_length, NodeSize};
use crate::scroll::scroll_bar::{constrain_scroll_bar, ScrollBarWidget};
use crate::scroll::scroll_container::{ScrollContainerLayout, ScrollLayoutModel};
use crate::scroll::scroll_content::ScrollContentWidget;

verus! {

/// One bar after the Constrain stage: the handle is measured anew and then
/// clamped onto its track.
pub open spec fn spec_handle_constrained(
    bar: ScrollBarWidget,
    content_size: NodeSize,
    viewport_size: NodeSize,
    track_size: NodeSize,
) -> ScrollBarWidget {
    bar.spec_sync_handle_geometry(
        viewport_size.spec_along(bar.orientation),
        content_size.spec_along(bar.orientation),
        track_size.spec_along(bar.orientation),
    ).spec_constrain(track_size)
}

/// The bars after the Constrain stage.
pub open spec fn spec_handles_constrained(
    bars: Seq<ScrollBarWidget>,
    layout: ScrollLayoutModel,
) -> Seq<ScrollBarWidget> {
    Seq::new(
        bars.len(),
        |i: int| spec_handle_constrained(bars[i], layout.content, layout.wrapper, layout.tracks[i]),
    )
}

/// The handle of `bar` is shown exactly if the content is larger than the
/// viewport along the axis of the bar.
pub open spec fn handle_shown_when_scrollable(
    bar: ScrollBarWidget,
    content_size: NodeSize,
    viewport_size: NodeSize,
) -> bool {
    bar.handle_visibility == (content_size.spec_along(bar.orientation) > viewport_size.spec_along(
        bar.orientation,
    ))
}

/// The floor under the length of the handle of `bar` is in force: the bar
/// asks for it, and the proportional length falls short of it.
pub open spec fn handle_floored(
    bar: ScrollBarWidget,
    content_size: NodeSize,
    viewport_size: NodeSize,
    track_size: NodeSize,
) -> bool {
    spec_handle_length(
        viewport_size.spec_along(bar.orientation) as int,
        content_size.spec_along(bar.orientation) as int,
        track_size.spec_along(bar.orientation) as int,
    ) < bar.spec_min_handle_length()
}

/// The handle of `bar` covers of its track the share that the viewport
/// shows of the content, to within one unit of handle: the length is the
/// whole number of units at or below viewport times track over content.
pub open spec fn handle_proportional(
    bar: ScrollBarWidget,
    content_size: NodeSize,
    viewport_size: NodeSize,
    track_size: NodeSize,
) -> bool {
    let content: int = content_size.spec_along(bar.orientation) as int;
    let viewport: int = viewport_size.spec_along(bar.orientation) as int;
    let track: int = track_size.spec_along(bar.orientation) as int;
    &&& bar.handle_length * content <= viewport * track
    &&& viewport * track < (bar.handle_length + 1) * content
}

/// The Constrain stage of the bars of a container. The length and the
/// visibility of each handle are derived from the measured sizes of this
/// frame, and its position is clamped onto its track.
pub fn constrain_scroll_handles(bars: &mut Vec<ScrollBarWidget>, layout: &ScrollContainerLayout)
    requires
        layout@.tracks.len() == old(bars)@.len(),
    ensures
        final(bars)@ == spec_handles_constrained(old(bars)@, layout@),
        forall|i: int|
            0 <= i < final(bars)@.len() ==> {
                let bar: ScrollBarWidget = #[trigger] final(bars)@[i];
                &&& bar.in_range(layout@.tracks[i])
                &&& handle_shown_when_scrollable(bar, layout@.content, layout@.wrapper)
                &&& bar.handle_visibility && !handle_floored(
                    bar,
                    layout@.content,
                    layout@.wrapper,
                    layout@.tracks[i],
                ) ==> handle_proportional(bar, layout@.content, layout@.wrapper, layout@.tracks[i])
            },
{
    let mut i: usize = 0;
    while i < bars.len()
        invariant
            i <= bars@.len(),
            bars@.len() == old(bars)@.len(),
            layout@.tracks.len() == bars@.len(),
            forall|j: int|
                0 <= j < i ==> bars@[j] == spec_handles_constrained(old(bars)@, layout@)[j],
            forall|j: int| i <= j < bars@.len() ==> bars@[j] == old(bars)@[j],
            forall|j: int|
                0 <= j < i ==> {
                    let bar: ScrollBarWidget = #[trigger] bars@[j];
                    &&& bar.in_range(layout@.tracks[j])
                    &&& handle_shown_when_scrollable(bar, layout@.content, layout@.wrapper)
                    &&& bar.handle_visibility && !handle_floored(
                        bar,
                        layout@.content,
                        layout@.wrapper,
                        layout@.tracks[j],
                    ) ==> handle_proportional(
                        bar,
                        layout@.content,
                        layout@.wrapper,
                        layout@.tracks[j],
                    )
                },
        decreases bars@.len() - i,
    {
        let mut bar: ScrollBarWidget = bars[i];
        let track_size: NodeSize = layout.tracks[i];
        bar.sync_handle_geometry(
            layout.wrapper.along(bar.orientation),
            layout.content.along(bar.orientation),
            track_size.along(bar.orientation),
        );
        constrain_scroll_bar(&mut bar, track_size);
        proof {
            if bar.handle_visibility {
                lemma_handle_length_proportional(
                    layout.wrapper.spec_along(bar.orientation),
                    layout.content.spec_along(bar.orientation),
                    track_size.spec_along(bar.orientation),
                );
            }
        }
        bars.set(i, bar);
        i += 1;
    }
    proof {
        assert(bars@ =~= spec_handles_constrained(old(bars)@, layout@));
    }
}

/// The Constrain stage of the content of a container. Returns whether the
/// offset had to move.
pub fn constrain_scroll_content(content: &mut ScrollContentWidget, layout: &ScrollContainerLayout) -> (changed: bool)
    ensures
        *final(content) == old(content).spec_constrain(layout@.content, layout@.wrapper),
        changed == (*final(content) != *old(content)),
        final(content).scroll_direction != ScrollDirection::Neither ==> final(content).in_range(
            layout@.content,
            layout@.wrapper,
        ),
{
    crate::scroll::scroll_content::constrain_scroll_content(content, layout.content, layout.wrapper)
}

/// The Constrain stage of a bar, run twice against the same sizes, does
/// what it does when run once.
pub proof fn lemma_handle_constrained_idempotent(
    bar: ScrollBarWidget,
    content_size: NodeSize,
    viewport_size: NodeSize,
    track_size: NodeSize,
)
    ensures
        spec_handle_constrained(
            spec_handle_constrained(bar, content_size, viewport_size, track_size),
            content_size,
            viewport_size,
            track_size,
        ) == spec_handle_constrained(bar, content_size, viewport_size, track_size),
{
}

} // verus!
