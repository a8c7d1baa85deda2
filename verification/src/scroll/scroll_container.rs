//! The container: one content region with the scroll bars that show it.
//!
//! A container owns its content and up to two bars, one for each axis along
//! which the content scrolls, and keeps them in step.

use vstd::prelude::*;
use crate::scroll::components::{ScrollBarOrientation, ScrollDirection};
use crate::scroll::geometry::NodeSize;
use crate::scroll::scroll_bar::ScrollBarWidget;
use crate::scroll::scroll_content::ScrollContentWidget;
use crate::scroll::systems::bind::{
    lemma_unchanged_bars_do_not_drive, scroll_content_that_controls_scroll_handles,
    scroll_handles_that_control_scroll_content, spec_bars_drive, spec_content_drives,
};

verus! {

/// A request for a scroll container.
#[derive(Clone, Copy, Debug, PartialEq, Eq, Structural)]
pub struct ScrollContainerWidget {
    pub scroll_direction: ScrollDirection,
}

/// What the Create stage builds for a request: the content and its bars.
#[derive(Debug, PartialEq, Eq)]
pub struct ScrollContainerElement {
    pub scroll_bar_widgets: Vec<ScrollBarWidget>,
    pub scroll_content_widget: ScrollContentWidget,
}

/// The measured sizes that one container needs in a frame: the content, the
/// wrapper that clips it, and the track of each bar, in the order of the bars.
#[derive(Debug, PartialEq, Eq)]
pub struct ScrollContainerLayout {
    pub content: NodeSize,
    pub wrapper: NodeSize,
    pub tracks: Vec<NodeSize>,
}

/// A container as the contracts see it.
pub struct ScrollContainerModel {
    pub content: ScrollContentWidget,
    pub bars: Seq<ScrollBarWidget>,
}

/// The measured sizes as the contracts see them.
pub struct ScrollLayoutModel {
    pub content: NodeSize,
    pub wrapper: NodeSize,
    pub tracks: Seq<NodeSize>,
}

impl View for ScrollContainerElement {
    type V = ScrollContainerModel;

    open spec fn view(&self) -> ScrollContainerModel {
        ScrollContainerModel { content: self.scroll_content_widget, bars: self.scroll_bar_widgets@ }
    }
}

impl View for ScrollContainerLayout {
    type V = ScrollLayoutModel;

    open spec fn view(&self) -> ScrollLayoutModel {
        ScrollLayoutModel { content: self.content, wrapper: self.wrapper, tracks: self.tracks@ }
    }
}

/// The bars of a new container: one for each axis of `direction`, the
/// vertical one first.
pub open spec fn spec_default_bars(direction: ScrollDirection) -> Seq<ScrollBarWidget> {
    match direction {
        ScrollDirection::Vertical => seq![spec_default_bar(ScrollBarOrientation::Vertical)],
        ScrollDirection::Horizontal => seq![spec_default_bar(ScrollBarOrientation::Horizontal)],
        ScrollDirection::Both => seq![
            spec_default_bar(ScrollBarOrientation::Vertical),
            spec_default_bar(ScrollBarOrientation::Horizontal),
        ],
        ScrollDirection::Neither => Seq::empty(),
    }
}

/// The bar that a new container gets for `orientation`.
pub open spec fn spec_default_bar(orientation: ScrollBarOrientation) -> ScrollBarWidget {
    ScrollBarWidget {
        orientation,
        girth: crate::scroll::scroll_bar::DEFAULT_GIRTH,
        handle_girth: crate::scroll::scroll_bar::DEFAULT_HANDLE_GIRTH,
        handle_length: crate::scroll::scroll_bar::DEFAULT_HANDLE_LENGTH,
        handle_visibility: true,
        current_offset: 0,
        floor_handle_at_girth: false,
    }
}

/// The container that the Create stage builds for `direction`.
pub open spec fn spec_created(direction: ScrollDirection) -> ScrollContainerModel {
    ScrollContainerModel {
        content: ScrollContentWidget {
            scroll_direction: direction,
            current_offset: crate::scroll::geometry::Vector2 { x: 0, y: 0 },
        },
        bars: spec_default_bars(direction),
    }
}

impl ScrollContainerModel {
    /// The container is wired as the Create stage wires it: it has a bar for
    /// each axis along which its content scrolls, and no other.
    pub open spec fn well_formed(self) -> bool {
        &&& self.bars.len() <= 2
        &&& forall|i: int|
            0 <= i < self.bars.len() ==> self.content.scroll_direction.spec_allows(
                (#[trigger] self.bars[i]).orientation,
            )
        &&& forall|i: int, j: int|
            0 <= i < j < self.bars.len() ==> (#[trigger] self.bars[i]).orientation != (
            #[trigger] self.bars[j]).orientation
        &&& self.bars.len() == spec_default_bars(self.content.scroll_direction).len()
    }

    /// `other` is this container with its models moved: the direction of
    /// the content, the number of the bars and what each bar is made of are
    /// the same.
    pub open spec fn same_build(self, other: ScrollContainerModel) -> bool {
        &&& other.content.scroll_direction == self.content.scroll_direction
        &&& other.bars.len() == self.bars.len()
        &&& forall|i: int|
            0 <= i < self.bars.len() ==> {
                &&& (#[trigger] other.bars[i]).orientation == self.bars[i].orientation
                &&& other.bars[i].girth == self.bars[i].girth
                &&& other.bars[i].handle_girth == self.bars[i].handle_girth
                &&& other.bars[i].floor_handle_at_girth == self.bars[i].floor_handle_at_girth
            }
    }

    /// The layout names a track for each bar.
    pub open spec fn measured_by(self, layout: ScrollLayoutModel) -> bool {
        layout.tracks.len() == self.bars.len()
    }

    /// The container after the Bind stage. Where the content has changed it
    /// drives every bar; then each bar that has changed drives the content,
    /// from where the first step has left it.
    pub open spec fn spec_synchronized(
        self,
        layout: ScrollLayoutModel,
        content_changed: bool,
        bars_changed: Seq<bool>,
    ) -> ScrollContainerModel {
        let bars: Seq<ScrollBarWidget> = if content_changed {
            spec_content_drives(self.content, self.bars, layout)
        } else {
            self.bars
        };
        ScrollContainerModel {
            content: spec_bars_drive(self.content, bars, bars_changed, layout, bars.len()),
            bars,
        }
    }
}

/// The Create stage of a container. It acts on a request that has nothing
/// built yet, and leaves every other as it is.
pub fn init_scroll_container(
    widget: &ScrollContainerWidget,
    element: &mut Option<ScrollContainerElement>,
)
    ensures
        *old(element) is Some ==> *final(element) == *old(element),
        *old(element) is None ==> *final(element) is Some,
        *old(element) is None ==> (*final(element))->0@ == spec_created(widget.scroll_direction),
        *old(element) is None ==> (*final(element))->0@.well_formed(),
{
    if element.is_some() {
        return;
    }
    let mut scroll_bar_widgets: Vec<ScrollBarWidget> = Vec::new();
    match widget.scroll_direction {
        ScrollDirection::Vertical => {
            scroll_bar_widgets.push(ScrollBarWidget::new(ScrollBarOrientation::Vertical));
        },
        ScrollDirection::Horizontal => {
            scroll_bar_widgets.push(ScrollBarWidget::new(ScrollBarOrientation::Horizontal));
        },
        ScrollDirection::Both => {
            scroll_bar_widgets.push(ScrollBarWidget::new(ScrollBarOrientation::Vertical));
            scroll_bar_widgets.push(ScrollBarWidget::new(ScrollBarOrientation::Horizontal));
        },
        ScrollDirection::Neither => {},
    }
    let scroll_content_widget: ScrollContentWidget = ScrollContentWidget::new(widget.scroll_direction);
    proof {
        assert(scroll_bar_widgets@ =~= spec_default_bars(widget.scroll_direction));
    }
    *element = Some(ScrollContainerElement { scroll_bar_widgets, scroll_content_widget });
}

/// The Bind stage of a container. `content_changed` says whether an intent
/// has moved the content in this frame, `bars_changed` says the same of each
/// bar. The content drives first; a bar that drives does so from the state
/// that the content has left.
pub fn synchronize_bar_with_content(
    element: &mut ScrollContainerElement,
    layout: &ScrollContainerLayout,
    content_changed: bool,
    bars_changed: &Vec<bool>,
)
    requires
        old(element)@.measured_by(layout@),
        bars_changed@.len() == old(element)@.bars.len(),
    ensures
        final(element)@ == old(element)@.spec_synchronized(layout@, content_changed, bars_changed@),
{
    if content_changed {
        scroll_content_that_controls_scroll_handles(
            &element.scroll_content_widget,
            &mut element.scroll_bar_widgets,
            layout,
        );
    }
    scroll_handles_that_control_scroll_content(
        &element.scroll_bar_widgets,
        bars_changed,
        &mut element.scroll_content_widget,
        layout,
    );
}

/// One change drives in one direction only. Where the content has not
/// changed, the Bind stage leaves every bar as it is; where no bar has
/// changed, it leaves the content as it is; and where nothing has changed,
/// it does nothing.
pub proof fn lemma_one_change_drives_one_way(
    container: ScrollContainerModel,
    layout: ScrollLayoutModel,
    content_changed: bool,
    bars_changed: Seq<bool>,
)
    requires
        bars_changed.len() == container.bars.len(),
    ensures
        !content_changed ==> container.spec_synchronized(
            layout,
            content_changed,
            bars_changed,
        ).bars == container.bars,
        (forall|i: int| 0 <= i < bars_changed.len() ==> !bars_changed[i])
            ==> container.spec_synchronized(layout, content_changed, bars_changed).content
            == container.content,
        !content_changed && (forall|i: int| 0 <= i < bars_changed.len() ==> !bars_changed[i])
            ==> container.spec_synchronized(layout, content_changed, bars_changed) == container,
{
    let synchronized: ScrollContainerModel = container.spec_synchronized(
        layout,
        content_changed,
        bars_changed,
    );
    if forall|i: int| 0 <= i < bars_changed.len() ==> !bars_changed[i] {
        lemma_unchanged_bars_do_not_drive(
            container.content,
            synchronized.bars,
            bars_changed,
            layout,
            synchronized.bars.len(),
        );
    }
}

} // verus!
