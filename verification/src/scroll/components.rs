//! The small vocabulary shared by the widgets: directions, orientations, the
//! state of a node under the pointer, and the intents that one stage hands to
//! the next.

use vstd::prelude::*;
use crate::scroll::geometry::Vector2;

verus! {

/// An opaque name for a widget; the host decides what it stands for.
pub type WidgetId = u64;

/// The axes along which a content region may travel.
#[derive(Clone, Copy, Debug, PartialEq, Eq, Structural)]
pub enum ScrollDirection {
    Vertical,
    Horizontal,
    Both,
    Neither,
}

impl Default for ScrollDirection {
    fn default() -> (direction: Self)
        ensures
            direction == ScrollDirection::Vertical,
    {
        ScrollDirection::Vertical
    }
}

/// The axis along which a scroll bar lies.
#[derive(Clone, Copy, Debug, PartialEq, Eq, Structural)]
pub enum ScrollBarOrientation {
    Vertical,
    Horizontal,
}

impl Default for ScrollBarOrientation {
    fn default() -> (orientation: Self)
        ensures
            orientation == ScrollBarOrientation::Vertical,
    {
        ScrollBarOrientation::Vertical
    }
}

impl ScrollDirection {
    /// Whether content with this direction travels along `orientation`.
    pub open spec fn spec_allows(self, orientation: ScrollBarOrientation) -> bool {
        match (self, orientation) {
            (ScrollDirection::Both, _) => true,
            (ScrollDirection::Vertical, ScrollBarOrientation::Vertical) => true,
            (ScrollDirection::Horizontal, ScrollBarOrientation::Horizontal) => true,
            _ => false,
        }
    }

    /// Whether content with this direction travels along `orientation`.
    pub fn allows(self, orientation: ScrollBarOrientation) -> (allowed: bool)
        ensures
            allowed == self.spec_allows(orientation),
    {
        match (self, orientation) {
            (ScrollDirection::Both, _) => true,
            (ScrollDirection::Vertical, ScrollBarOrientation::Vertical) => true,
            (ScrollDirection::Horizontal, ScrollBarOrientation::Horizontal) => true,
            _ => false,
        }
    }
}

/// What the pointer is doing to a node.
#[derive(Clone, Copy, Debug, PartialEq, Eq, Structural)]
pub enum Interaction {
    /// A button is held down on the node.
    Clicked,
    /// The pointer is over the node.
    Hovered,
    /// The pointer is elsewhere.
    Idle,
}

/// The unit in which a wheel reports its travel.
#[derive(Clone, Copy, Debug, PartialEq, Eq, Structural)]
pub enum MouseScrollUnit {
    Line,
    Pixel,
}

/// One decoded wheel event.
#[derive(Clone, Copy, Debug, PartialEq, Eq, Structural)]
pub struct MouseWheel {
    pub unit: MouseScrollUnit,
    pub x: i64,
    pub y: i64,
}

/// A press on a track, at a position measured from the track's corner.
#[derive(Clone, Copy, Debug, PartialEq, Eq, Structural)]
pub struct PressInput {
    pub position: Vector2,
}

/// A request to move the content by `distance`.
#[derive(Clone, Copy, Debug, PartialEq, Eq, Structural)]
pub struct ScrollInput {
    pub distance: Vector2,
}

/// A request to start drag-scrolling from `position`, in interface
/// coordinates (the origin is the top left corner of the window).
#[derive(Clone, Copy, Debug, PartialEq, Eq, Structural)]
pub struct ScrollIndicatorEnabled {
    pub position: Vector2,
}

/// A request to stop drag-scrolling.
#[derive(Clone, Copy, Debug, PartialEq, Eq, Structural)]
pub struct ScrollIndicatorDisabled;

/// An intent addressed to one widget.
#[derive(Debug, PartialEq, Eq)]
pub struct UiEvent<A> {
    pub widget: WidgetId,
    pub action: A,
}

/// The node of an interface tree that stands for a widget, with what the
/// pointer is doing to it.
#[derive(Clone, Copy, Debug, PartialEq, Eq, Structural)]
pub struct ControlledByElement {
    pub element: WidgetId,
    pub interaction: Interaction,
}

} // verus!

verus! {

/// The widget behind the first hovered node of `nodes`, if any node is
/// hovered.
pub open spec fn spec_hovered_target(nodes: Seq<ControlledByElement>) -> Option<WidgetId>
    decreases nodes.len(),
{
    if nodes.len() == 0 {
        None
    } else if nodes.first().interaction == Interaction::Hovered {
        Some(nodes.first().element)
    } else {
        spec_hovered_target(nodes.drop_first())
    }
}

/// Finds the widget under the pointer: the one behind the first hovered node.
pub fn hovered_target(nodes: &Vec<ControlledByElement>) -> (target: Option<WidgetId>)
    ensures
        target == spec_hovered_target(nodes@),
{
    let mut i: usize = 0;
    assert(nodes@.skip(0) =~= nodes@);
    while i < nodes.len()
        invariant
            i <= nodes@.len(),
            spec_hovered_target(nodes@) == spec_hovered_target(nodes@.skip(i as int)),
        decreases nodes@.len() - i,
    {
        proof {
            assert(nodes@.skip(i as int).first() == nodes@[i as int]);
            assert(nodes@.skip(i as int).drop_first() =~= nodes@.skip(i as int + 1));
        }
        if nodes[i].interaction == Interaction::Hovered {
            return Some(nodes[i].element);
        }
        i += 1;
    }
    None
}

} // verus!
