use bevy_ui_scroll::scroll::components::{
    ControlledByElement, Interaction, PressInput, ScrollBarOrientation, UiEvent,
};
use bevy_ui_scroll::scroll::geometry::{
    track_to_content_ratio, NodeSize, Vector2, UNITS_PER_PIXEL,
};
use bevy_ui_scroll::scroll::scroll_bar::{
    constrain_scroll_bar, extract_scroll_bar, scroll_bar_left_click_publisher,
    scroll_bar_left_click_subscriber, ScrollBarNode, ScrollBarWidget, ScrollHandleStyle,
    DEFAULT_GIRTH, DEFAULT_HANDLE_GIRTH, DEFAULT_HANDLE_LENGTH,
};

const PX: i64 = UNITS_PER_PIXEL;
const UPX: u64 = UNITS_PER_PIXEL as u64;

/// A vertical bar with a handle of `handle_length` pixels at `current_offset`
/// pixels.
fn vertical_bar(handle_length: u64, current_offset: i64) -> ScrollBarWidget {
    ScrollBarWidget {
        orientation: ScrollBarOrientation::Vertical,
        girth: 20 * UPX,
        handle_girth: 18 * UPX,
        handle_length: handle_length * UPX,
        handle_visibility: true,
        current_offset: current_offset * PX,
        floor_handle_at_girth: false,
    }
}

fn track_of(width: u64, height: u64) -> NodeSize {
    NodeSize { width: width * UPX, height: height * UPX }
}

fn pointer_at(x: i64, y: i64) -> Vector2 {
    Vector2 { x: x * PX, y: y * PX }
}

fn track_node(element: u64, interaction: Interaction, cursor: Option<Vector2>) -> ScrollBarNode {
    ScrollBarNode { controller: ControlledByElement { element, interaction }, cursor }
}

#[test]
fn new_bar_has_the_default_geometry() {
    let bar = ScrollBarWidget::new(ScrollBarOrientation::Horizontal);
    assert_eq!(
        bar,
        ScrollBarWidget {
            orientation: ScrollBarOrientation::Horizontal,
            girth: 20 * UPX,
            handle_girth: 18 * UPX,
            handle_length: 40 * UPX,
            handle_visibility: true,
            current_offset: 0,
            floor_handle_at_girth: false,
        }
    );
    assert_eq!(
        (DEFAULT_GIRTH, DEFAULT_HANDLE_GIRTH, DEFAULT_HANDLE_LENGTH),
        (20 * UPX, 18 * UPX, 40 * UPX)
    );
    assert_eq!(ScrollBarOrientation::default(), ScrollBarOrientation::Vertical);
}

#[test]
fn track_click_centres_the_handle_on_the_pointer() {
    let mut bar = vertical_bar(90, 0);
    assert!(bar.apply_track_click(250 * PX));
    assert_eq!(bar.current_offset, 205 * PX);
    assert!(!bar.apply_track_click(250 * PX));
}

#[test]
fn track_click_keeps_the_share_of_a_pixel() {
    let mut bar = vertical_bar(90, 0);
    bar.apply_track_click(250 * PX + PX / 4);
    assert_eq!(bar.current_offset, 205 * PX + PX / 4);
    let mut odd = ScrollBarWidget { handle_length: 91 * UPX, ..vertical_bar(90, 0) };
    odd.apply_track_click(100 * PX);
    assert_eq!(odd.current_offset, 54 * PX + PX / 2);
}

#[test]
fn track_click_is_not_checked_against_the_track() {
    let mut bar = vertical_bar(90, 100);
    bar.apply_track_click(10 * PX);
    assert_eq!(bar.current_offset, -35 * PX);
    bar.apply_track_click(5000 * PX);
    assert_eq!(bar.current_offset, 4955 * PX);
}

#[test]
fn track_click_halves_an_odd_handle_downward() {
    let mut bar = ScrollBarWidget { handle_length: 91, ..vertical_bar(0, 0) };
    bar.apply_track_click(100);
    assert_eq!(bar.current_offset, 55);
}

#[test]
fn track_click_saturates() {
    let mut bar = vertical_bar(90, 0);
    bar.apply_track_click(i64::MIN);
    assert_eq!(bar.current_offset, i64::MIN);
}

#[test]
fn track_click_at_250_lands_at_205() {
    let mut bar = vertical_bar(90, 0);
    bar.apply_track_click(250 * PX);
    constrain_scroll_bar(&mut bar, track_of(20, 300));
    assert_eq!(bar.current_offset, 205 * PX);
}

#[test]
fn constrain_brings_the_handle_back_onto_the_track() {
    let track = track_of(20, 300);
    let mut low = vertical_bar(90, -35);
    assert!(constrain_scroll_bar(&mut low, track));
    assert_eq!(low.current_offset, 0);
    let mut high = vertical_bar(90, 4955);
    assert!(constrain_scroll_bar(&mut high, track));
    assert_eq!(high.current_offset, 210 * PX);
    let mut inside = vertical_bar(90, 210);
    assert!(!constrain_scroll_bar(&mut inside, track));
    assert_eq!(inside.current_offset, 210 * PX);
    let mut barely = ScrollBarWidget { current_offset: 210 * PX + 1, ..vertical_bar(90, 0) };
    assert!(constrain_scroll_bar(&mut barely, track));
    assert_eq!(barely.current_offset, 210 * PX);
}

#[test]
fn constrain_uses_the_extent_along_the_bar() {
    let mut bar = ScrollBarWidget {
        orientation: ScrollBarOrientation::Horizontal,
        ..vertical_bar(90, 500)
    };
    constrain_scroll_bar(&mut bar, track_of(300, 20));
    assert_eq!(bar.current_offset, 210 * PX);
    let mut across = vertical_bar(90, 500);
    constrain_scroll_bar(&mut across, track_of(300, 20));
    assert_eq!(across.current_offset, 0);
}

#[test]
fn handle_longer_than_its_track_rests_at_zero() {
    let mut bar = vertical_bar(400, 17);
    assert_eq!(bar.track_scrollable(track_of(20, 300)), 0);
    constrain_scroll_bar(&mut bar, track_of(20, 300));
    assert_eq!(bar.current_offset, 0);
}

#[test]
fn bar_constrain_twice_changes_nothing_more() {
    let track = track_of(20, 300);
    for offset in [i64::MIN, -1, 0, 100 * PX, 210 * PX, 210 * PX + 1, i64::MAX] {
        let mut bar = ScrollBarWidget { current_offset: offset, ..vertical_bar(90, 0) };
        constrain_scroll_bar(&mut bar, track);
        let once = bar;
        assert!(!constrain_scroll_bar(&mut bar, track));
        assert_eq!(bar, once);
    }
}

#[test]
fn sync_from_content_is_offset_times_ratio() {
    let mut bar = vertical_bar(90, 0);
    let ratio = track_to_content_ratio(210 * UPX, 700 * UPX);
    bar.sync_from_content(700 * PX, ratio);
    assert_eq!(bar.current_offset, 210 * PX);
    bar.sync_from_content(350 * PX, ratio);
    assert_eq!(bar.current_offset, 105 * PX);
    bar.sync_from_content(PX, ratio);
    assert_eq!(bar.current_offset, 1_288_490_188);
    bar.sync_from_content(350 * PX, track_to_content_ratio(210 * UPX, 0));
    assert_eq!(bar.current_offset, 0);
}

#[test]
fn handle_geometry_follows_the_sizes() {
    let mut bar = vertical_bar(40, 12);
    bar.sync_handle_geometry(300 * UPX, 1000 * UPX, 300 * UPX);
    assert_eq!(bar.handle_length, 90 * UPX);
    assert!(bar.handle_visibility);
    assert_eq!(bar.current_offset, 12 * PX);
    bar.sync_handle_geometry(301 * UPX, 1000 * UPX, 300 * UPX);
    assert_eq!(bar.handle_length, 387_835_546_828);
    bar.sync_handle_geometry(300 * UPX, 300 * UPX, 300 * UPX);
    assert_eq!(bar.handle_length, 300 * UPX);
    assert!(!bar.handle_visibility);
    bar.sync_handle_geometry(300 * UPX, 300 * UPX + 1, 300 * UPX);
    assert!(bar.handle_visibility);
    bar.sync_handle_geometry(300 * UPX, 0, 300 * UPX);
    assert_eq!(bar.handle_length, 0);
    assert!(!bar.handle_visibility);
}

#[test]
fn handle_is_floored_at_its_girth_where_asked() {
    let mut bar = ScrollBarWidget { floor_handle_at_girth: true, ..vertical_bar(40, 0) };
    bar.sync_handle_geometry(300 * UPX, 10_000 * UPX, 300 * UPX);
    assert_eq!(bar.handle_length, 18 * UPX);
    assert!(bar.handle_visibility);
    bar.sync_handle_geometry(300 * UPX, 1000 * UPX, 300 * UPX);
    assert_eq!(bar.handle_length, 90 * UPX);
    bar.sync_handle_geometry(300 * UPX, 0, 300 * UPX);
    assert_eq!(bar.handle_length, 18 * UPX);
    let mut free = vertical_bar(40, 0);
    free.sync_handle_geometry(300 * UPX, 10_000 * UPX, 300 * UPX);
    assert_eq!(free.handle_length, 9 * UPX);
}

#[test]
fn floored_handle_on_a_short_track_rests_at_zero() {
    let mut bar = ScrollBarWidget { floor_handle_at_girth: true, ..vertical_bar(40, 3) };
    bar.sync_handle_geometry(300 * UPX, 1000 * UPX, 10 * UPX);
    assert_eq!(bar.handle_length, 18 * UPX);
    constrain_scroll_bar(&mut bar, track_of(20, 10));
    assert_eq!(bar.current_offset, 0);
}

#[test]
fn bar_ratio_is_track_travel_over_content_travel() {
    let bar = vertical_bar(90, 0);
    let ratio = bar.ratio(track_of(1000, 1000), track_of(300, 300), track_of(20, 300));
    assert_eq!(ratio, track_to_content_ratio(210 * UPX, 700 * UPX));
    let idle = bar.ratio(track_of(1000, 200), track_of(300, 300), track_of(20, 300));
    assert!(idle.is_zero());
}

#[test]
fn content_drives_the_bar_with_the_new_handle() {
    let mut bar = vertical_bar(40, 0);
    bar.drive_from_content(
        pointer_at(0, 700),
        track_of(1000, 1000),
        track_of(300, 300),
        track_of(20, 300),
    );
    assert_eq!(bar.handle_length, 90 * UPX);
    assert_eq!(bar.current_offset, 210 * PX);
    assert!(bar.handle_visibility);
}

#[test]
fn held_tracks_publish_presses() {
    let at = pointer_at(10, 250);
    let nodes = vec![
        track_node(1, Interaction::Clicked, Some(at)),
        track_node(2, Interaction::Hovered, Some(at)),
        track_node(3, Interaction::Clicked, None),
        track_node(4, Interaction::Idle, None),
        track_node(5, Interaction::Clicked, Some(Vector2 { x: 1, y: 2 })),
    ];
    assert_eq!(
        scroll_bar_left_click_publisher(&nodes),
        vec![
            UiEvent { widget: 1, action: PressInput { position: at } },
            UiEvent { widget: 5, action: PressInput { position: Vector2 { x: 1, y: 2 } } },
        ]
    );
    assert!(scroll_bar_left_click_publisher(&vec![]).is_empty());
}

#[test]
fn presses_move_only_their_bar() {
    let events = vec![
        UiEvent { widget: 1, action: PressInput { position: pointer_at(10, 250) } },
        UiEvent { widget: 2, action: PressInput { position: pointer_at(10, 100) } },
    ];
    let mut bar = vertical_bar(90, 0);
    assert!(scroll_bar_left_click_subscriber(&events, 1, &mut bar));
    assert_eq!(bar.current_offset, 205 * PX);
    let mut other = vertical_bar(90, 0);
    assert!(!scroll_bar_left_click_subscriber(&events, 3, &mut other));
    assert_eq!(other.current_offset, 0);
}

#[test]
fn presses_read_the_axis_of_the_bar() {
    let events = vec![UiEvent { widget: 1, action: PressInput { position: pointer_at(145, 9) } }];
    let mut bar = ScrollBarWidget {
        orientation: ScrollBarOrientation::Horizontal,
        ..vertical_bar(90, 0)
    };
    scroll_bar_left_click_subscriber(&events, 1, &mut bar);
    assert_eq!(bar.current_offset, 100 * PX);
}

#[test]
fn the_last_press_wins() {
    let events = vec![
        UiEvent { widget: 1, action: PressInput { position: pointer_at(0, 250) } },
        UiEvent { widget: 1, action: PressInput { position: pointer_at(0, 45) } },
    ];
    let mut bar = vertical_bar(90, 0);
    assert!(!scroll_bar_left_click_subscriber(&events, 1, &mut bar));
    assert_eq!(bar.current_offset, 0);
}

#[test]
fn handle_style_follows_the_orientation() {
    let bar = vertical_bar(90, 205);
    assert_eq!(
        extract_scroll_bar(&bar),
        ScrollHandleStyle {
            width: 18 * UPX,
            height: 90 * UPX,
            displayed: true,
            margin_left: None,
            margin_top: Some(205 * PX),
        }
    );
    let flat = ScrollBarWidget {
        orientation: ScrollBarOrientation::Horizontal,
        handle_visibility: false,
        ..bar
    };
    assert_eq!(
        extract_scroll_bar(&flat),
        ScrollHandleStyle {
            width: 90 * UPX,
            height: 18 * UPX,
            displayed: false,
            margin_left: Some(205 * PX),
            margin_top: None,
        }
    );
}
