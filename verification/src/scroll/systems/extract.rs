//! The Extract stage: the models become the values that the renderer reads.
//! Nothing flows back.

use vstd::prelude::*;
use crate::scroll::scroll_bar::{extract_scroll_bar, ScrollBarWidget, ScrollHandleStyle};
use crate::scroll::scroll_content::{extract_scroll_content, ScrollContentStyle, ScrollContentWidget};

verus! {

/// The styles of the handles of `bars`, in the order of the bars.
pub open spec fn spec_handle_styles(bars: Seq<ScrollBarWidget>) -> Seq<ScrollHandleStyle> {
    Seq::new(bars.len(), |i: int| bars[i].spec_style())
}

/// The style of the content of a container.
pub fn extract_scroll_content_styles(content: &ScrollContentWidget) -> (style: ScrollContentStyle)
    ensures
        style == content.spec_style(),
{
    extract_scroll_content(content)
}

/// The styles of the handles of a container, in the order of its bars.
pub fn extract_scroll_handle_styles(bars: &Vec<ScrollBarWidget>) -> (styles: Vec<ScrollHandleStyle>)
    ensures
        styles@ == spec_handle_styles(bars@),
{
    let mut styles: Vec<ScrollHandleStyle> = Vec::new();
    let mut i: usize = 0;
    while i < bars.len()
        invariant
            i <= bars@.len(),
            styles@.len() == i,
            forall|j: int| 0 <= j < i ==> styles@[j] == bars@[j].spec_style(),
        decreases bars@.len() - i,
    {
        styles.push(extract_scroll_bar(&bars[i]));
        i += 1;
    }
    proof {
        assert(styles@ =~= spec_handle_styles(bars@));
    }
    styles
}

} // verus!
