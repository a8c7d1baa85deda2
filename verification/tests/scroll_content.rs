use bevy_ui_scroll::scroll::components::{
    hovered_target, ControlledByElement, Interaction, MouseScrollUnit, MouseWheel,
    ScrollDirection, ScrollIndicatorEnabled, ScrollInput, UiEvent,
};
use bevy_ui_scroll::scroll::geometry::{NodeSize, Vector2, UNITS_PER_PIXEL};
use bevy_ui_scroll::scroll::scroll_content::{
    constrain_scroll_content, extract_scroll_content, scroll_content_indcator_enabled_subscriber,
    scroll_content_indicator_publisher, scroll_content_scroll_publisher,
    scroll_content_scroll_subscriber, scroll_from_scroll_indicator, wheel_distance,
    ScrollContentStyle, ScrollContentWidget, PIXELS_SCROLLED_PER_LINE,
};
use bevy_ui_scroll::scroll::scroll_indicator::{ScrollIndicatorState, ScrollIndicatorWidget};

const PX: i64 = UNITS_PER_PIXEL;
const UPX: u64 = UNITS_PER_PIXEL as u64;

/// A pair of whole pixels.
fn pixels(x: i64, y: i64) -> Vector2 {
    Vector2 { x: x * PX, y: y * PX }
}

/// A size in whole pixels.
fn size_of(width: u64, height: u64) -> NodeSize {
    NodeSize { width: width * UPX, height: height * UPX }
}

/// Content at an offset of whole pixels.
fn content_at(direction: ScrollDirection, x: i64, y: i64) -> ScrollContentWidget {
    ScrollContentWidget { scroll_direction: direction, current_offset: pixels(x, y) }
}

fn content_node(element: u64, interaction: Interaction) -> ControlledByElement {
    ControlledByElement { element, interaction }
}

#[test]
fn new_content_rests_at_its_origin() {
    let widget = ScrollContentWidget::new(ScrollDirection::Both);
    assert_eq!(widget, content_at(ScrollDirection::Both, 0, 0));
    assert_eq!(ScrollDirection::default(), ScrollDirection::Vertical);
}

#[test]
fn scroll_delta_is_taken_from_the_offset() {
    let mut widget = content_at(ScrollDirection::Both, 100, 100);
    assert!(widget.apply_scroll_delta(pixels(30, -45)));
    assert_eq!(widget.current_offset, pixels(70, 145));
}

#[test]
fn scroll_delta_is_not_checked_against_the_bounds() {
    let mut widget = content_at(ScrollDirection::Vertical, 0, 0);
    assert!(widget.apply_scroll_delta(pixels(0, 15)));
    assert_eq!(widget.current_offset, pixels(0, -15));
}

#[test]
fn scroll_delta_of_zero_is_no_change() {
    let mut widget = content_at(ScrollDirection::Both, 5, 5);
    assert!(!widget.apply_scroll_delta(pixels(0, 0)));
    assert_eq!(widget.current_offset, pixels(5, 5));
}

#[test]
fn scroll_delta_saturates() {
    let mut widget = ScrollContentWidget {
        scroll_direction: ScrollDirection::Both,
        current_offset: Vector2 { x: i64::MAX, y: i64::MIN },
    };
    widget.apply_scroll_delta(Vector2 { x: -1, y: 1 });
    assert_eq!(widget.current_offset, Vector2 { x: i64::MAX, y: i64::MIN });
}

#[test]
fn content_without_direction_ignores_scroll_delta() {
    let mut widget = content_at(ScrollDirection::Neither, 0, 0);
    assert!(!widget.apply_scroll_delta(pixels(10, 10)));
    assert_eq!(widget.current_offset, pixels(0, 0));
}

#[test]
fn constrain_clamps_each_axis_into_its_range() {
    let content_size = size_of(1000, 800);
    let wrapper_size = size_of(300, 300);
    let mut widget = content_at(ScrollDirection::Both, 900, -20);
    assert!(constrain_scroll_content(&mut widget, content_size, wrapper_size));
    assert_eq!(widget.current_offset, pixels(700, 0));
    let mut inside = content_at(ScrollDirection::Both, 700, 500);
    assert!(!constrain_scroll_content(&mut inside, content_size, wrapper_size));
    assert_eq!(inside.current_offset, pixels(700, 500));
}

#[test]
fn constrain_holds_small_content_at_zero() {
    let mut widget = content_at(ScrollDirection::Both, 40, 40);
    constrain_scroll_content(
        &mut widget,
        size_of(200, 300),
        size_of(300, 300),
    );
    assert_eq!(widget.current_offset, pixels(0, 0));
}

#[test]
fn constrain_forces_content_without_direction_to_zero() {
    let mut widget = content_at(ScrollDirection::Neither, 40, 50);
    assert!(constrain_scroll_content(
        &mut widget,
        size_of(1000, 1000),
        size_of(300, 300),
    ));
    assert_eq!(widget.current_offset, pixels(0, 0));
}

#[test]
fn constrain_twice_changes_nothing_more() {
    let content_size = size_of(1000, 1000);
    let wrapper_size = size_of(300, 300);
    for (x, y) in [(-50 * PX, 5000 * PX), (0, 0), (700 * PX, 700 * PX + 1), (i64::MIN, i64::MAX)] {
        let mut widget = ScrollContentWidget {
            scroll_direction: ScrollDirection::Both,
            current_offset: Vector2 { x, y },
        };
        constrain_scroll_content(&mut widget, content_size, wrapper_size);
        let once = widget;
        assert!(!constrain_scroll_content(&mut widget, content_size, wrapper_size));
        assert_eq!(widget, once);
    }
}

#[test]
fn wheel_lines_become_pixels() {
    assert_eq!(PIXELS_SCROLLED_PER_LINE, 15);
    let lines = MouseWheel { unit: MouseScrollUnit::Line, x: 2 * PX, y: -PX };
    assert_eq!(wheel_distance(&lines), pixels(30, -15));
    let half_a_line = MouseWheel { unit: MouseScrollUnit::Line, x: 0, y: PX / 2 };
    assert_eq!(wheel_distance(&half_a_line), Vector2 { x: 0, y: 7 * PX + PX / 2 });
    let by_pixels = MouseWheel { unit: MouseScrollUnit::Pixel, x: 2 * PX, y: -PX / 4 };
    assert_eq!(wheel_distance(&by_pixels), Vector2 { x: 2 * PX, y: -PX / 4 });
    let far = MouseWheel { unit: MouseScrollUnit::Line, x: i64::MAX, y: i64::MIN };
    assert_eq!(wheel_distance(&far), Vector2 { x: i64::MAX, y: i64::MIN });
}

#[test]
fn hovered_target_is_the_first_hovered_node() {
    assert_eq!(hovered_target(&vec![]), None);
    assert_eq!(
        hovered_target(&vec![content_node(1, Interaction::Idle), content_node(2, Interaction::Clicked)]),
        None
    );
    assert_eq!(
        hovered_target(&vec![
            content_node(1, Interaction::Idle),
            content_node(2, Interaction::Hovered),
            content_node(3, Interaction::Hovered),
        ]),
        Some(2)
    );
}

#[test]
fn wheel_goes_to_the_hovered_content() {
    let nodes = vec![content_node(7, Interaction::Idle), content_node(9, Interaction::Hovered)];
    let wheel = vec![
        MouseWheel { unit: MouseScrollUnit::Line, x: 0, y: -PX },
        MouseWheel { unit: MouseScrollUnit::Pixel, x: 4 * PX, y: 0 },
    ];
    let events = scroll_content_scroll_publisher(&nodes, &wheel);
    assert_eq!(
        events,
        vec![
            UiEvent { widget: 9, action: ScrollInput { distance: pixels(0, -15) } },
            UiEvent { widget: 9, action: ScrollInput { distance: pixels(4, 0) } },
        ]
    );
}

#[test]
fn wheel_without_hover_goes_nowhere() {
    let nodes = vec![content_node(7, Interaction::Idle), content_node(9, Interaction::Clicked)];
    let wheel = vec![MouseWheel { unit: MouseScrollUnit::Line, x: 0, y: -PX }];
    assert!(scroll_content_scroll_publisher(&nodes, &wheel).is_empty());
    assert!(scroll_content_scroll_publisher(&vec![], &wheel).is_empty());
}

#[test]
fn scroll_events_move_only_their_widget() {
    let events = vec![
        UiEvent { widget: 9, action: ScrollInput { distance: pixels(0, -15) } },
        UiEvent { widget: 4, action: ScrollInput { distance: pixels(0, -1000) } },
        UiEvent { widget: 9, action: ScrollInput { distance: pixels(-4, 0) } },
    ];
    let mut widget = content_at(ScrollDirection::Both, 0, 0);
    assert!(scroll_content_scroll_subscriber(&events, 9, &mut widget));
    assert_eq!(widget.current_offset, pixels(4, 15));
    let mut other = content_at(ScrollDirection::Both, 0, 0);
    assert!(!scroll_content_scroll_subscriber(&events, 5, &mut other));
    assert_eq!(other.current_offset, pixels(0, 0));
}

#[test]
fn scroll_events_that_cancel_are_no_change() {
    let events = vec![
        UiEvent { widget: 1, action: ScrollInput { distance: pixels(0, -15) } },
        UiEvent { widget: 1, action: ScrollInput { distance: pixels(0, 15) } },
    ];
    let mut widget = content_at(ScrollDirection::Vertical, 0, 30);
    assert!(!scroll_content_scroll_subscriber(&events, 1, &mut widget));
    assert_eq!(widget.current_offset, pixels(0, 30));
}

#[test]
fn middle_press_over_content_asks_for_an_indicator() {
    let nodes = vec![content_node(3, Interaction::Hovered)];
    let window = size_of(1000, 800);
    let event =
        scroll_content_indicator_publisher(&nodes, true, Some(pixels(500, 100)), window);
    assert_eq!(
        event,
        Some(UiEvent {
            widget: 3,
            action: ScrollIndicatorEnabled { position: pixels(500, 700) },
        })
    );
}

#[test]
fn middle_press_needs_hover_press_and_pointer() {
    let hovered = vec![content_node(3, Interaction::Hovered)];
    let idle = vec![content_node(3, Interaction::Idle)];
    let window = size_of(1000, 800);
    let at = Some(pixels(500, 100));
    assert_eq!(scroll_content_indicator_publisher(&hovered, false, at, window), None);
    assert_eq!(scroll_content_indicator_publisher(&idle, true, at, window), None);
    assert_eq!(scroll_content_indicator_publisher(&hovered, true, None, window), None);
}

#[test]
fn indicator_requests_spawn_indicators_for_their_content() {
    let widget = content_at(ScrollDirection::Horizontal, 0, 0);
    let events = vec![
        UiEvent { widget: 3, action: ScrollIndicatorEnabled { position: pixels(5, 6) } },
        UiEvent { widget: 8, action: ScrollIndicatorEnabled { position: pixels(7, 8) } },
    ];
    let spawned = scroll_content_indcator_enabled_subscriber(&events, 3, &widget);
    assert_eq!(
        spawned,
        vec![ScrollIndicatorWidget {
            scroll_direction: ScrollDirection::Horizontal,
            spawn_position: pixels(5, 6),
            scroll_content: 3,
        }]
    );
    assert!(scroll_content_indcator_enabled_subscriber(&events, 4, &widget).is_empty());
}

#[test]
fn live_indicator_publishes_the_eased_travel() {
    let indicator = ScrollIndicatorWidget {
        scroll_direction: ScrollDirection::Both,
        spawn_position: pixels(500, 500),
        scroll_content: 11,
    };
    let window = size_of(1000, 1000);
    let eased = Vector2 { x: 500_000, y: 250_000 };
    let live = ScrollIndicatorState::Enabled(indicator);
    let event = scroll_from_scroll_indicator(&live, Some(pixels(600, 700)), window, eased);
    assert_eq!(
        event,
        Some(UiEvent { widget: 11, action: ScrollInput { distance: pixels(-50, 50) } })
    );
    assert_eq!(scroll_from_scroll_indicator(&live, None, window, eased), None);
}

#[test]
fn without_an_indicator_nothing_is_published() {
    let window = size_of(1000, 1000);
    let eased = Vector2 { x: 500_000, y: 250_000 };
    let disabled = ScrollIndicatorState::Disabled;
    for cursor in [None, Some(pixels(0, 0)), Some(pixels(600, 700)), Some(pixels(-5, 5000))] {
        assert_eq!(scroll_from_scroll_indicator(&disabled, cursor, window, eased), None);
    }
}

#[test]
fn content_style_follows_the_direction() {
    assert_eq!(
        extract_scroll_content(&content_at(ScrollDirection::Vertical, 30, 40)),
        ScrollContentStyle { margin_left: None, margin_top: Some(-40 * PX) }
    );
    assert_eq!(
        extract_scroll_content(&content_at(ScrollDirection::Horizontal, 30, 40)),
        ScrollContentStyle { margin_left: Some(-30 * PX), margin_top: None }
    );
    assert_eq!(
        extract_scroll_content(&content_at(ScrollDirection::Both, 30, 40)),
        ScrollContentStyle { margin_left: Some(-30 * PX), margin_top: Some(-40 * PX) }
    );
    assert_eq!(
        extract_scroll_content(&content_at(ScrollDirection::Neither, 30, 40)),
        ScrollContentStyle { margin_left: None, margin_top: None }
    );
}
