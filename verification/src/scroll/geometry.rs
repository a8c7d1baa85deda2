//! Pure geometry shared by every stage of the frame.
//!
//! Every length is held in fixed point, thirty-two bits to the pixel: a
//! value of `UNITS_PER_PIXEL` stands for one pixel. Sizes are unsigned and
//! held in `u64`; offsets, positions and distances are signed and held in
//! `i64`. Products are taken in a wider type, a quotient is rounded to a
//! whole unit, and a result that does not fit its type saturates at the
//! bound of the type.

use vstd::prelude::*;
use vstd::arithmetic::div_mod::{lemma_fundamental_div_mod, lemma_mod_bound};
use crate::scroll::components::ScrollBarOrientation;

verus! {

/// The number of units that stand for one pixel.
pub const UNITS_PER_PIXEL: i64 = 0x1_0000_0000;

/// The value of `value` once it is forced into the range of `i64`.
pub open spec fn saturate(value: int) -> int {
    if value < i64::MIN {
        i64::MIN as int
    } else if value > i64::MAX {
        i64::MAX as int
    } else {
        value
    }
}

/// `min(high, max(low, value))`; when `low > high` the result is `high`.
pub open spec fn spec_clamp(value: int, low: int, high: int) -> int {
    let floored: int = if value < low { low } else { value };
    if floored > high { high } else { floored }
}

/// How far the content can travel behind the viewport: the excess of the
/// content over the viewport, and zero when there is none.
pub open spec fn spec_scrollable_range(content_size: int, viewport_size: int) -> int {
    if content_size > viewport_size { content_size - viewport_size } else { 0 }
}

/// The length of a handle that covers of its track the share that the
/// viewport shows of the content, rounded down to a whole unit. Content of
/// no size gives no handle.
pub open spec fn spec_handle_length(viewport_size: int, content_size: int, track_size: int) -> int {
    if content_size == 0 {
        0
    } else {
        let exact: int = viewport_size * track_size / content_size;
        if exact > u64::MAX { u64::MAX as int } else { exact }
    }
}

/// The length of a handle that may not be shorter than `minimum`.
pub open spec fn spec_floored_handle_length(
    viewport_size: int,
    content_size: int,
    track_size: int,
    minimum: int,
) -> int {
    let proportional: int = spec_handle_length(viewport_size, content_size, track_size);
    if proportional < minimum { minimum } else { proportional }
}

/// The least integer that is not below `numerator / denominator`.
pub open spec fn spec_ceil_div(numerator: int, denominator: int) -> int {
    -((-numerator) / denominator)
}

/// A signed pair of lengths: an offset, a position or a distance.
#[derive(Clone, Copy, Debug, PartialEq, Eq, Structural)]
pub struct Vector2 {
    pub x: i64,
    pub y: i64,
}

/// The measured size of a node.
#[derive(Clone, Copy, Debug, PartialEq, Eq, Structural)]
pub struct NodeSize {
    pub width: u64,
    pub height: u64,
}

/// The ratio of a track's scrollable range to that of the content, kept as
/// the two ranges. It is zero when either range is zero: nothing can scroll.
#[derive(Clone, Copy, Debug, PartialEq, Eq, Structural)]
pub struct Ratio {
    pub track_scrollable: u64,
    pub content_scrollable: u64,
}

impl Vector2 {
    /// The component along `orientation`.
    pub open spec fn spec_along(self, orientation: ScrollBarOrientation) -> i64 {
        match orientation {
            ScrollBarOrientation::Vertical => self.y,
            ScrollBarOrientation::Horizontal => self.x,
        }
    }

    /// This pair with the component along `orientation` replaced.
    pub open spec fn spec_with_along(self, orientation: ScrollBarOrientation, value: i64) -> Vector2 {
        match orientation {
            ScrollBarOrientation::Vertical => Vector2 { x: self.x, y: value },
            ScrollBarOrientation::Horizontal => Vector2 { x: value, y: self.y },
        }
    }

    /// The component-wise difference, each component saturated.
    pub open spec fn spec_saturating_sub(self, other: Vector2) -> Vector2 {
        Vector2 {
            x: saturate(self.x - other.x) as i64,
            y: saturate(self.y - other.y) as i64,
        }
    }

    /// The pair with both signs turned, each component saturated.
    pub open spec fn spec_saturating_neg(self) -> Vector2 {
        Vector2 { x: saturate(-self.x) as i64, y: saturate(-self.y) as i64 }
    }

    pub fn new(x: i64, y: i64) -> (v: Vector2)
        ensures
            v == (Vector2 { x, y }),
    {
        Vector2 { x, y }
    }

    pub fn zero() -> (v: Vector2)
        ensures
            v == (Vector2 { x: 0, y: 0 }),
    {
        Vector2 { x: 0, y: 0 }
    }

    pub fn along(self, orientation: ScrollBarOrientation) -> (component: i64)
        ensures
            component == self.spec_along(orientation),
    {
        match orientation {
            ScrollBarOrientation::Vertical => self.y,
            ScrollBarOrientation::Horizontal => self.x,
        }
    }

    pub fn with_along(self, orientation: ScrollBarOrientation, value: i64) -> (v: Vector2)
        ensures
            v == self.spec_with_along(orientation, value),
    {
        match orientation {
            ScrollBarOrientation::Vertical => Vector2 { x: self.x, y: value },
            ScrollBarOrientation::Horizontal => Vector2 { x: value, y: self.y },
        }
    }

    pub fn saturating_sub(self, other: Vector2) -> (v: Vector2)
        ensures
            v == self.spec_saturating_sub(other),
    {
        Vector2 {
            x: saturate_i128(self.x as i128 - other.x as i128),
            y: saturate_i128(self.y as i128 - other.y as i128),
        }
    }

    pub fn saturating_neg(self) -> (v: Vector2)
        ensures
            v == self.spec_saturating_neg(),
    {
        Vector2 { x: saturate_i128(-(self.x as i128)), y: saturate_i128(-(self.y as i128)) }
    }
}

impl NodeSize {
    /// The extent along `orientation`.
    pub open spec fn spec_along(self, orientation: ScrollBarOrientation) -> u64 {
        match orientation {
            ScrollBarOrientation::Vertical => self.height,
            ScrollBarOrientation::Horizontal => self.width,
        }
    }

    pub fn new(width: u64, height: u64) -> (size: NodeSize)
        ensures
            size == (NodeSize { width, height }),
    {
        NodeSize { width, height }
    }

    pub fn along(self, orientation: ScrollBarOrientation) -> (extent: u64)
        ensures
            extent == self.spec_along(orientation),
    {
        match orientation {
            ScrollBarOrientation::Vertical => self.height,
            ScrollBarOrientation::Horizontal => self.width,
        }
    }
}

impl Ratio {
    /// Whether nothing can scroll under this ratio.
    pub open spec fn spec_is_zero(self) -> bool {
        self.track_scrollable == 0 || self.content_scrollable == 0
    }

    /// The track position that shows `content_offset`: the offset times the
    /// ratio, rounded down. A zero ratio sends every offset to zero.
    pub open spec fn spec_to_track(self, content_offset: int) -> int {
        if self.content_scrollable == 0 {
            0
        } else {
            saturate(content_offset * self.track_scrollable / (self.content_scrollable as int))
        }
    }

    /// The content offset that `track_position` stands for: the position
    /// divided by the ratio, rounded up. Meaningful unless the ratio is zero.
    pub open spec fn spec_to_content(self, track_position: int) -> int {
        saturate(spec_ceil_div(track_position * self.content_scrollable, self.track_scrollable as int))
    }

    pub fn is_zero(&self) -> (zero: bool)
        ensures
            zero == self.spec_is_zero(),
    {
        self.track_scrollable == 0 || self.content_scrollable == 0
    }

    /// Maps a content offset to the track.
    pub fn to_track(&self, content_offset: i64) -> (position: i64)
        ensures
            position == self.spec_to_track(content_offset as int),
    {
        if self.content_scrollable == 0 {
            return 0;
        }
        let product: i128 = widening_mul(content_offset, self.track_scrollable);
        saturate_i128(div_floor(product, self.content_scrollable as i128))
    }

    /// Maps a track position back to the content; `None` when the ratio is
    /// zero, since the track then says nothing about the content.
    pub fn to_content(&self, track_position: i64) -> (offset: Option<i64>)
        ensures
            offset == if self.spec_is_zero() {
                None::<i64>
            } else {
                Some(self.spec_to_content(track_position as int) as i64)
            },
    {
        if self.is_zero() {
            return None;
        }
        let product: i128 = widening_mul(track_position, self.content_scrollable);
        let below: i128 = div_floor(-product, self.track_scrollable as i128);
        Some(saturate_i128(-below))
    }
}

/// Forces a wide intermediate into the range of `i64`.
pub fn saturate_i128(value: i128) -> (r: i64)
    ensures
        r == saturate(value as int),
{
    if value < i64::MIN as i128 {
        i64::MIN
    } else if value > i64::MAX as i128 {
        i64::MAX
    } else {
        value as i64
    }
}

/// The exact product of a signed and an unsigned quantity.
pub(crate) fn widening_mul(value: i64, factor: u64) -> (product: i128)
    ensures
        product == value * factor,
        -0x7fff_ffff_ffff_ffff_8000_0000_0000_0000 <= product
            <= 0x7fff_ffff_ffff_ffff_8000_0000_0000_0000,
{
    let wide: i128 = value as i128;
    let by: i128 = factor as i128;
    assert(-0x7fff_ffff_ffff_ffff_8000_0000_0000_0000 <= wide * by
        <= 0x7fff_ffff_ffff_ffff_8000_0000_0000_0000) by (nonlinear_arith)
        requires
            -0x8000_0000_0000_0000 <= wide <= 0x7fff_ffff_ffff_ffff,
            0 <= by <= 0xffff_ffff_ffff_ffff,
    ;
    wide * by
}

/// The quotient rounded down, for a positive divisor.
pub(crate) fn div_floor(numerator: i128, denominator: i128) -> (quotient: i128)
    requires
        denominator > 0,
        -0x7fff_ffff_ffff_ffff_8000_0000_0000_0000 <= numerator
            <= 0x7fff_ffff_ffff_ffff_8000_0000_0000_0000,
    ensures
        quotient == numerator / denominator,
        -0x7fff_ffff_ffff_ffff_8000_0000_0000_0000 <= quotient
            <= 0x7fff_ffff_ffff_ffff_8000_0000_0000_0000,
{
    proof {
        lemma_floor_div_bounds(numerator as int, denominator as int);
        lemma_floor_div_magnitude(numerator as int, denominator as int);
    }
    match numerator.checked_div_euclid(denominator) {
        Some(quotient) => quotient,
        None => 0,
    }
}

/// Clamps `value` into `[low, high]`.
pub fn clamp(value: i64, low: i64, high: i64) -> (r: i64)
    ensures
        r == spec_clamp(value as int, low as int, high as int),
{
    let floored: i64 = if value < low { low } else { value };
    if floored > high { high } else { floored }
}

/// Clamps `value` into `[0, range]`.
pub fn clamp_to_range(value: i64, range: u64) -> (r: i64)
    ensures
        r == spec_clamp(value as int, 0, range as int),
{
    if value < 0 {
        0
    } else if value as u64 > range {
        range as i64
    } else {
        value
    }
}

/// The scrollable range of one axis.
pub fn scrollable_range(content_size: u64, viewport_size: u64) -> (r: u64)
    ensures
        r == spec_scrollable_range(content_size as int, viewport_size as int),
{
    if content_size > viewport_size { content_size - viewport_size } else { 0 }
}

/// The ratio of the track's scrollable range to the content's. Where the
/// content cannot scroll the ratio is zero.
pub fn track_to_content_ratio(track_scrollable: u64, content_scrollable: u64) -> (ratio: Ratio)
    ensures
        ratio.content_scrollable == content_scrollable,
        ratio.track_scrollable == if content_scrollable == 0 { 0 } else { track_scrollable },
        content_scrollable == 0 ==> ratio.spec_is_zero(),
{
    if content_scrollable == 0 {
        Ratio { track_scrollable: 0, content_scrollable: 0 }
    } else {
        Ratio { track_scrollable, content_scrollable }
    }
}

/// The length of the handle on a track of `track_size`.
pub fn handle_length(viewport_size: u64, content_size: u64, track_size: u64) -> (length: u64)
    ensures
        length == spec_handle_length(viewport_size as int, content_size as int, track_size as int),
{
    if content_size == 0 {
        return 0;
    }
    let shown: u128 = viewport_size as u128;
    let track: u128 = track_size as u128;
    assert(0 <= shown * track <= 0xffff_ffff_ffff_ffff * 0xffff_ffff_ffff_ffff) by (nonlinear_arith)
        requires
            0 <= shown <= 0xffff_ffff_ffff_ffff,
            0 <= track <= 0xffff_ffff_ffff_ffff,
    ;
    let exact: u128 = shown * track / (content_size as u128);
    if exact > u64::MAX as u128 { u64::MAX } else { exact as u64 }
}

/// The length of the handle on a track of `track_size`, raised to `minimum`
/// where the proportional length falls short of it.
pub fn floored_handle_length(viewport_size: u64, content_size: u64, track_size: u64, minimum: u64) -> (length: u64)
    ensures
        length == spec_floored_handle_length(
            viewport_size as int,
            content_size as int,
            track_size as int,
            minimum as int,
        ),
{
    let proportional: u64 = handle_length(viewport_size, content_size, track_size);
    if proportional < minimum { minimum } else { proportional }
}

/// Clamping twice is clamping once.
pub proof fn lemma_clamp_idempotent(value: int, low: int, high: int)
    ensures
        spec_clamp(spec_clamp(value, low, high), low, high) == spec_clamp(value, low, high),
{
}

/// Where the content exceeds the viewport, the handle is to its track as the
/// viewport is to the content, rounded down to a whole unit; and the handle
/// is shorter than its track.
pub proof fn lemma_handle_length_proportional(viewport_size: u64, content_size: u64, track_size: u64)
    requires
        content_size > viewport_size,
    ensures
        spec_handle_length(viewport_size as int, content_size as int, track_size as int)
            * content_size <= viewport_size * track_size,
        viewport_size * track_size < (spec_handle_length(
            viewport_size as int,
            content_size as int,
            track_size as int,
        ) + 1) * content_size,
        spec_handle_length(viewport_size as int, content_size as int, track_size as int)
            <= track_size,
{
    let shown: int = viewport_size as int;
    let content: int = content_size as int;
    let track: int = track_size as int;
    let exact: int = shown * track / content;
    assert(0 <= shown * track) by (nonlinear_arith)
        requires
            0 <= shown,
            0 <= track,
    ;
    lemma_floor_div_bounds(shown * track, content);
    assert(exact <= track) by (nonlinear_arith)
        requires
            content * exact <= shown * track,
            0 <= shown < content,
            0 <= track,
    ;
    assert(exact * content == content * exact) by (nonlinear_arith);
    assert((exact + 1) * content == content * exact + content) by (nonlinear_arith);
}

/// A content offset within the scrollable range lands on the track, and a
/// track position within the travel of the handle lands within the
/// scrollable range of the content.
pub proof fn lemma_ratio_keeps_ranges(ratio: Ratio, content_offset: int, track_position: int)
    requires
        !ratio.spec_is_zero(),
    ensures
        0 <= content_offset <= ratio.content_scrollable ==> 0 <= ratio.spec_to_track(
            content_offset,
        ) <= ratio.track_scrollable,
        0 <= track_position <= ratio.track_scrollable ==> 0 <= ratio.spec_to_content(
            track_position,
        ) <= ratio.content_scrollable,
{
    let track: int = ratio.track_scrollable as int;
    let content: int = ratio.content_scrollable as int;
    if 0 <= content_offset <= content {
        let position: int = content_offset * track / content;
        lemma_floor_div_bounds(content_offset * track, content);
        assert(0 <= position <= track) by (nonlinear_arith)
            requires
                content * position <= content_offset * track,
                content_offset * track < content * position + content,
                0 <= content_offset <= content,
                0 < track,
                0 < content,
        ;
    }
    if 0 <= track_position <= track {
        let below: int = (-(track_position * content)) / track;
        lemma_floor_div_bounds(-(track_position * content), track);
        assert(0 <= -below <= content) by (nonlinear_arith)
            requires
                track * below <= -(track_position * content),
                -(track_position * content) < track * below + track,
                0 <= track_position <= track,
                0 < track,
                0 < content,
        ;
    }
}

/// Mapping to the track and clamping onto it may be done in either order:
/// an offset outside the scrollable range lands on the end of the track that
/// the clamped offset lands on.
pub proof fn lemma_to_track_commutes_with_clamp(ratio: Ratio, content_offset: int)
    ensures
        spec_clamp(ratio.spec_to_track(content_offset), 0, ratio.track_scrollable as int)
            == ratio.spec_to_track(spec_clamp(content_offset, 0, ratio.content_scrollable as int)),
{
    let track: int = ratio.track_scrollable as int;
    let content: int = ratio.content_scrollable as int;
    if content > 0 {
        let exact: int = content_offset * track / content;
        lemma_floor_div_bounds(content_offset * track, content);
        if content_offset < 0 {
            assert(exact <= 0) by (nonlinear_arith)
                requires
                    content * exact <= content_offset * track,
                    content_offset < 0,
                    0 <= track,
                    0 < content,
            ;
            assert(0 * track / content == 0);
        } else if content_offset > content {
            assert(exact >= track) by (nonlinear_arith)
                requires
                    content_offset * track < content * exact + content,
                    content_offset > content,
                    0 <= track,
                    0 < content,
            ;
            lemma_floor_div_bounds(content * track, content);
            assert(content * track / content == track) by (nonlinear_arith)
                requires
                    content * (content * track / content) <= content * track,
                    content * track < content * (content * track / content) + content,
                    0 < content,
            ;
        } else if track > 0 {
            lemma_ratio_keeps_ranges(ratio, content_offset, 0);
        } else {
            assert(content_offset * track == 0) by (nonlinear_arith)
                requires
                    track == 0,
            ;
        }
    }
}

/// Mapping to the content and clamping into its range may be done in either
/// order.
pub proof fn lemma_to_content_commutes_with_clamp(ratio: Ratio, track_position: int)
    requires
        !ratio.spec_is_zero(),
    ensures
        spec_clamp(ratio.spec_to_content(track_position), 0, ratio.content_scrollable as int)
            == ratio.spec_to_content(spec_clamp(track_position, 0, ratio.track_scrollable as int)),
{
    let track: int = ratio.track_scrollable as int;
    let content: int = ratio.content_scrollable as int;
    let below: int = (-(track_position * content)) / track;
    lemma_floor_div_bounds(-(track_position * content), track);
    if track_position < 0 {
        assert(-below <= 0) by (nonlinear_arith)
            requires
                -(track_position * content) < track * below + track,
                track_position < 0,
                0 < content,
                0 < track,
        ;
        assert(-(0 * content) / track == 0);
    } else if track_position > track {
        assert(-below >= content) by (nonlinear_arith)
            requires
                track * below <= -(track_position * content),
                track_position > track,
                0 < content,
                0 < track,
        ;
        lemma_floor_div_bounds(-(track * content), track);
        assert(-((-(track * content)) / track) == content) by (nonlinear_arith)
            requires
                track * ((-(track * content)) / track) <= -(track * content),
                -(track * content) < track * ((-(track * content)) / track) + track,
                0 < track,
        ;
    } else {
        lemma_ratio_keeps_ranges(ratio, 0, track_position);
    }
}

/// A content offset that is mapped to the track and back comes out no
/// larger, and smaller by less than what one unit of track stands for: the
/// loss, in units, times the travel of the handle is less than the travel of
/// the content. Where the handle travels at least as far as the content, the
/// offset comes back as it went. The travel of the handle is one that a
/// position can hold.
pub proof fn lemma_round_trip(ratio: Ratio, content_offset: i64)
    requires
        !ratio.spec_is_zero(),
        ratio.track_scrollable <= i64::MAX,
        0 <= content_offset <= ratio.content_scrollable,
    ensures
        ratio.spec_to_content(ratio.spec_to_track(content_offset as int)) <= content_offset,
        (content_offset - ratio.spec_to_content(ratio.spec_to_track(content_offset as int)))
            * ratio.track_scrollable < ratio.content_scrollable,
        ratio.track_scrollable >= ratio.content_scrollable ==> ratio.spec_to_content(
            ratio.spec_to_track(content_offset as int),
        ) == content_offset,
{
    let track: int = ratio.track_scrollable as int;
    let content: int = ratio.content_scrollable as int;
    let content_offset: int = content_offset as int;
    lemma_ratio_keeps_ranges(ratio, content_offset, 0);
    lemma_floor_div_bounds(content_offset * track, content);
    assert(0 <= content_offset * track / content <= track) by (nonlinear_arith)
        requires
            content * (content_offset * track / content) <= content_offset * track,
            content_offset * track < content * (content_offset * track / content) + content,
            0 <= content_offset <= content,
            0 < track,
            0 < content,
    ;
    let position: int = ratio.spec_to_track(content_offset);
    assert(position == content_offset * track / content);
    lemma_ratio_keeps_ranges(ratio, 0, position);
    let back: int = ratio.spec_to_content(position);
    let below: int = (-(position * content)) / track;
    lemma_floor_div_bounds(-(position * content), track);
    assert(-below <= content_offset) by (nonlinear_arith)
        requires
            content * position <= content_offset * track,
            -(position * content) < track * below + track,
            0 < track,
            0 < content,
    ;
    assert(-below >= 0) by (nonlinear_arith)
        requires
            track * below <= -(position * content),
            0 <= position,
            0 < track,
            0 < content,
    ;
    assert(back == -below);
    assert(back <= content_offset && (content_offset - back) * track < content) by (nonlinear_arith)
        requires
            back == -below,
            content * position <= content_offset * track,
            content_offset * track < content * position + content,
            track * below <= -(position * content),
            -(position * content) < track * below + track,
            0 < track,
            0 < content,
    ;
    if track >= content {
        assert(back == content_offset) by (nonlinear_arith)
            requires
                back <= content_offset,
                (content_offset - back) * track < content,
                track >= content,
                0 < content,
        ;
    }
}

/// The loss of a round trip, counted in units. Where the content travels no
/// more than `steepness` times as far as the handle, an offset that is mapped
/// to the track and back loses less than `steepness` units: content that
/// travels a thousand times as far as its handle comes back within a
/// thousand units, which is less than a millionth of a pixel.
pub proof fn lemma_round_trip_loss(ratio: Ratio, content_offset: i64, steepness: int)
    requires
        !ratio.spec_is_zero(),
        ratio.track_scrollable <= i64::MAX,
        0 <= content_offset <= ratio.content_scrollable,
        ratio.content_scrollable <= steepness * ratio.track_scrollable,
    ensures
        0 <= content_offset - ratio.spec_to_content(ratio.spec_to_track(content_offset as int))
            < steepness,
{
    lemma_round_trip(ratio, content_offset);
    let loss: int = content_offset - ratio.spec_to_content(
        ratio.spec_to_track(content_offset as int),
    );
    let track: int = ratio.track_scrollable as int;
    let content: int = ratio.content_scrollable as int;
    assert(loss < steepness) by (nonlinear_arith)
        requires
            loss * track < content,
            content <= steepness * track,
            0 < track,
            0 <= loss,
    ;
}

/// The quotient of a floor division brackets the dividend.
pub proof fn lemma_floor_div_bounds(numerator: int, denominator: int)
    requires
        denominator > 0,
    ensures
        denominator * (numerator / denominator) <= numerator,
        numerator < denominator * (numerator / denominator) + denominator,
{
    lemma_fundamental_div_mod(numerator, denominator);
    lemma_mod_bound(numerator, denominator);
}

/// A floor division by a positive divisor does not grow the magnitude.
proof fn lemma_floor_div_magnitude(numerator: int, denominator: int)
    requires
        denominator > 0,
    ensures
        numerator >= 0 ==> 0 <= numerator / denominator <= numerator,
        numerator < 0 ==> numerator <= numerator / denominator < 0,
{
    lemma_floor_div_bounds(numerator, denominator);
    let quotient: int = numerator / denominator;
    assert(numerator >= 0 ==> 0 <= quotient <= numerator) by (nonlinear_arith)
        requires
            denominator > 0,
            denominator * quotient <= numerator,
            numerator < denominator * quotient + denominator,
    ;
    assert(numerator < 0 ==> numerator <= quotient < 0) by (nonlinear_arith)
        requires
            denominator > 0,
            denominator * quotient <= numerator,
            numerator < denominator * quotient + denominator,
    ;
}

} // verus!
