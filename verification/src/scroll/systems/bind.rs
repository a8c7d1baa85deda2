//! The Bind stage: whoever has changed drives the other side.
//!
//! Neither function marks what it writes as changed, so a frame never feeds
//! its own writes back into itself.

use vstd::prelude::*;
use crate::scroll::geometry::{lemma_ratio_keeps_ranges, lemma_round_trip, NodeSize, Ratio};
use crate::scroll::scroll_bar::ScrollBarWidget;
use crate::scroll::scroll_container::{ScrollContainerLayout, ScrollLayoutModel};
use crate::scroll::scroll_content::ScrollContentWidget;

verus! {

/// The bars after the content has driven each of them.
pub open spec fn spec_content_drives(
    content: ScrollContentWidget,
    bars: Seq<ScrollBarWidget>,
    layout: ScrollLayoutModel,
) -> Seq<ScrollBarWidget> {
    Seq::new(
        bars.len(),
        |i: int|
            bars[i].spec_driven_by_content(
                content.current_offset,
                layout.content,
                layout.wrapper,
                layout.tracks[i],
            ),
    )
}

/// The content after those of the first `count` bars that have changed have
/// driven it, in their order.
pub open spec fn spec_bars_drive(
    content: ScrollContentWidget,
    bars: Seq<ScrollBarWidget>,
    changed: Seq<bool>,
    layout: ScrollLayoutModel,
    count: nat,
) -> ScrollContentWidget
    decreases count,
{
    if count == 0 {
        content
    } else {
        let before: ScrollContentWidget = spec_bars_drive(
            content,
            bars,
            changed,
            layout,
            (count - 1) as nat,
        );
        if changed[count - 1] {
            before.spec_driven_by_bar(
                bars[count - 1],
                layout.content,
                layout.wrapper,
                layout.tracks[count - 1],
            )
        } else {
            before
        }
    }
}

/// Lets the content drive every bar: each handle is measured anew and moved
/// to where it shows the offset of the content.
pub fn scroll_content_that_controls_scroll_handles(
    content: &ScrollContentWidget,
    bars: &mut Vec<ScrollBarWidget>,
    layout: &ScrollContainerLayout,
)
    requires
        layout@.tracks.len() == old(bars)@.len(),
    ensures
        final(bars)@ == spec_content_drives(*content, old(bars)@, layout@),
{
    let mut i: usize = 0;
    while i < bars.len()
        invariant
            i <= bars@.len(),
            bars@.len() == old(bars)@.len(),
            layout@.tracks.len() == bars@.len(),
            forall|j: int|
                0 <= j < i ==> bars@[j] == spec_content_drives(*content, old(bars)@, layout@)[j],
            forall|j: int| i <= j < bars@.len() ==> bars@[j] == old(bars)@[j],
        decreases bars@.len() - i,
    {
        let mut bar: ScrollBarWidget = bars[i];
        bar.drive_from_content(
            content.current_offset,
            layout.content,
            layout.wrapper,
            layout.tracks[i],
        );
        bars.set(i, bar);
        i += 1;
    }
    proof {
        assert(bars@ =~= spec_content_drives(*content, old(bars)@, layout@));
    }
}

/// Lets each bar that has changed drive the content, in the order of the
/// bars.
pub fn scroll_handles_that_control_scroll_content(
    bars: &Vec<ScrollBarWidget>,
    changed: &Vec<bool>,
    content: &mut ScrollContentWidget,
    layout: &ScrollContainerLayout,
)
    requires
        layout@.tracks.len() == bars@.len(),
        changed@.len() == bars@.len(),
    ensures
        *final(content) == spec_bars_drive(*old(content), bars@, changed@, layout@, bars@.len()),
{
    let mut i: usize = 0;
    while i < bars.len()
        invariant
            i <= bars@.len(),
            layout@.tracks.len() == bars@.len(),
            changed@.len() == bars@.len(),
            *content == spec_bars_drive(*old(content), bars@, changed@, layout@, i as nat),
        decreases bars@.len() - i,
    {
        if changed[i] {
            content.drive_from_bar(&bars[i], layout.content, layout.wrapper, layout.tracks[i]);
        }
        i += 1;
    }
}

/// Where no bar has changed, the bars leave the content as it is.
pub proof fn lemma_unchanged_bars_do_not_drive(
    content: ScrollContentWidget,
    bars: Seq<ScrollBarWidget>,
    changed: Seq<bool>,
    layout: ScrollLayoutModel,
    count: nat,
)
    requires
        count <= changed.len(),
        forall|i: int| 0 <= i < count ==> !changed[i],
    ensures
        spec_bars_drive(content, bars, changed, layout, count) == content,
    decreases count,
{
    if count > 0 {
        lemma_unchanged_bars_do_not_drive(content, bars, changed, layout, (count - 1) as nat);
    }
}

/// The content survives a round trip through a bar. When the content, with
/// its offset in range, drives the bar and the bar then drives the content,
/// with the sizes unchanged, the offset along the axis of the bar comes back
/// no larger and smaller by less than what one unit of track stands for,
/// and the offset along the other axis comes back as it went. Where the
/// axis cannot scroll, the content comes back as it went. The track is one
/// whose length a position can hold.
pub proof fn lemma_content_survives_round_trip(
    content: ScrollContentWidget,
    bar: ScrollBarWidget,
    content_size: NodeSize,
    viewport_size: NodeSize,
    track_size: NodeSize,
)
    requires
        content.in_range(content_size, viewport_size),
        track_size.spec_along(bar.orientation) <= i64::MAX,
    ensures
        ({
            let driven: ScrollBarWidget = bar.spec_driven_by_content(
                content.current_offset,
                content_size,
                viewport_size,
                track_size,
            );
            let back: ScrollContentWidget = content.spec_driven_by_bar(
                driven,
                content_size,
                viewport_size,
                track_size,
            );
            let ratio: Ratio = driven.spec_ratio(content_size, viewport_size, track_size);
            let went: int = content.current_offset.spec_along(bar.orientation) as int;
            let came: int = back.current_offset.spec_along(bar.orientation) as int;
            &&& back.scroll_direction == content.scroll_direction
            &&& back.current_offset == content.current_offset.spec_with_along(
                bar.orientation,
                came as i64,
            )
            &&& came <= went
            &&& (went - came) * ratio.track_scrollable <= ratio.content_scrollable
            &&& came != went ==> (went - came) * ratio.track_scrollable < ratio.content_scrollable
            &&& ratio.track_scrollable >= ratio.content_scrollable ==> came == went
        }),
{
    let driven: ScrollBarWidget = bar.spec_driven_by_content(
        content.current_offset,
        content_size,
        viewport_size,
        track_size,
    );
    let ratio: Ratio = driven.spec_ratio(content_size, viewport_size, track_size);
    let went: int = content.current_offset.spec_along(bar.orientation) as int;
    if !ratio.spec_is_zero() {
        lemma_round_trip(ratio, content.current_offset.spec_along(bar.orientation));
        lemma_ratio_keeps_ranges(ratio, went, 0);
        lemma_ratio_keeps_ranges(ratio, 0, ratio.spec_to_track(went));
    }
}

/// Where a single bar has changed, it alone drives the content.
pub proof fn lemma_single_bar_drives(
    content: ScrollContentWidget,
    bars: Seq<ScrollBarWidget>,
    changed: Seq<bool>,
    layout: ScrollLayoutModel,
    count: nat,
    driver: int,
)
    requires
        count <= changed.len(),
        0 <= driver < changed.len(),
        forall|i: int| 0 <= i < count ==> changed[i] == (i == driver),
    ensures
        spec_bars_drive(content, bars, changed, layout, count) == if driver < count {
            content.spec_driven_by_bar(
                bars[driver],
                layout.content,
                layout.wrapper,
                layout.tracks[driver],
            )
        } else {
            content
        },
    decreases count,
{
    if count > 0 {
        lemma_single_bar_drives(content, bars, changed, layout, (count - 1) as nat, driver);
    }
}

/// The bars never change the direction of the content.
pub proof fn lemma_bars_keep_direction(
    content: ScrollContentWidget,
    bars: Seq<ScrollBarWidget>,
    changed: Seq<bool>,
    layout: ScrollLayoutModel,
    count: nat,
)
    ensures
        spec_bars_drive(content, bars, changed, layout, count).scroll_direction
            == content.scroll_direction,
    decreases count,
{
    if count > 0 {
        lemma_bars_keep_direction(content, bars, changed, layout, (count - 1) as nat);
    }
}

} // verus!
