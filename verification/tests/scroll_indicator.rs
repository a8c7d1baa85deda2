use bevy_ui_scroll::scroll::components::{
    ControlledByElement, Interaction, ScrollDirection, ScrollIndicatorDisabled, UiEvent,
};
use bevy_ui_scroll::scroll::geometry::{NodeSize, Vector2, UNITS_PER_PIXEL};
use bevy_ui_scroll::scroll::scroll_content::ScrollContentWidget;
use bevy_ui_scroll::scroll::scroll_indicator::{
    eased_distance, easing_input, init_scroll_indicator, scroll_indicator_disabled_publisher,
    scroll_indicator_disabled_subscriber, ScrollIndicatorSprite, ScrollIndicatorState,
    ScrollIndicatorWidget, EASING_CONTROL_1_X, EASING_CONTROL_1_Y, EASING_CONTROL_2_X,
    EASING_CONTROL_2_Y, EASING_UNIT, INDICATOR_HALF_SIZE, MIN_EASING_INPUT,
};
use bevy_ui_scroll::scroll::systems::interact::{handle_middle_click, scroll_from_scroll_indicator};

const PX: i64 = UNITS_PER_PIXEL;
const UPX: u64 = UNITS_PER_PIXEL as u64;

fn in_pixels(units: i64) -> f64 {
    units as f64 / PX as f64
}

fn point(x: i64, y: i64) -> Vector2 {
    Vector2 { x: x * PX, y: y * PX }
}

fn window_of(width: u64, height: u64) -> NodeSize {
    NodeSize { width: width * UPX, height: height * UPX }
}

fn indicator_at(x: i64, y: i64) -> ScrollIndicatorWidget {
    ScrollIndicatorWidget {
        scroll_direction: ScrollDirection::Both,
        spawn_position: point(x, y),
        scroll_content: 1,
    }
}

#[test]
fn easing_constants_are_in_millionths() {
    assert_eq!(EASING_UNIT, 1_000_000);
    assert_eq!(MIN_EASING_INPUT, 200_000);
    assert_eq!((EASING_CONTROL_1_X, EASING_CONTROL_1_Y), (350_000, 10_000));
    assert_eq!((EASING_CONTROL_2_X, EASING_CONTROL_2_Y), (970_000, 790_000));
    assert_eq!(INDICATOR_HALF_SIZE, 16 * PX);
}

#[test]
fn delta_is_measured_in_window_coordinates() {
    let indicator = indicator_at(500, 300);
    let window = window_of(1000, 1000);
    assert_eq!(indicator.delta(point(500, 700), window), point(0, 0));
    assert_eq!(indicator.delta(point(520, 690), window), point(20, -10));
    assert_eq!(indicator.delta(point(0, 1000), window), point(-500, 300));
    assert_eq!(
        indicator.delta(Vector2 { x: 500 * PX + 1, y: 700 * PX - PX / 8 }, window),
        Vector2 { x: 1, y: -PX / 8 }
    );
}

#[test]
fn easing_input_is_the_share_of_the_window() {
    assert_eq!(easing_input(500 * PX, 1000 * UPX), 500_000);
    assert_eq!(easing_input(-500 * PX, 1000 * UPX), 500_000);
    assert_eq!(easing_input(1000 * PX, 1000 * UPX), 1_000_000);
    assert_eq!(easing_input(PX, 3 * UPX), 333_333);
    assert_eq!(easing_input(3000 * PX, 1000 * UPX), 3_000_000);
    assert_eq!(easing_input(250 * PX + PX / 2, 1000 * UPX), 250_500);
}

#[test]
fn easing_input_is_floored_at_a_fifth() {
    assert_eq!(easing_input(100 * PX, 1000 * UPX), 200_000);
    assert_eq!(easing_input(-100 * PX, 1000 * UPX), 200_000);
    assert_eq!(easing_input(0, 1000 * UPX), 200_000);
    assert_eq!(easing_input(200 * PX, 1000 * UPX), 200_000);
    assert_eq!(easing_input(201 * PX, 1000 * UPX), 201_000);
}

#[test]
fn easing_input_of_a_window_without_extent_is_the_floor() {
    assert_eq!(easing_input(100 * PX, 0), 200_000);
    assert_eq!(easing_input(i64::MIN, 0), 200_000);
}

#[test]
fn easing_input_saturates() {
    assert_eq!(easing_input(i64::MAX, 1), i64::MAX);
    assert_eq!(easing_input(i64::MIN, 1), i64::MAX);
}

#[test]
fn easing_input_of_an_indicator_covers_both_axes() {
    let indicator = indicator_at(500, 500);
    let window = window_of(1000, 800);
    assert_eq!(
        indicator.easing_input(point(900, 400), window),
        Vector2 { x: 400_000, y: 200_000 }
    );
}

#[test]
fn eased_distance_is_the_product_to_within_a_unit() {
    assert_eq!(eased_distance(100 * PX, 66_600), 28_604_482_192);
    assert_eq!(eased_distance(-100 * PX, 66_600), -28_604_482_192);
    assert!((in_pixels(eased_distance(100 * PX, 66_600)) - 6.66).abs() < 1e-9);
    assert_eq!(eased_distance(100 * PX, 1_000_000), 100 * PX);
    assert_eq!(eased_distance(100 * PX, 500_000), 50 * PX);
    assert_eq!(eased_distance(100 * PX, -500_000), -50 * PX);
    assert_eq!(eased_distance(100 * PX, 0), 0);
    assert_eq!(eased_distance(0, 66_600), 0);
    for (distance, eased) in [(100 * PX, 66_600_i64), (-7 * PX - 3, 123_457), (PX / 3, 999_999)] {
        let step = eased_distance(distance, eased) as i128 * 1_000_000;
        let exact = distance as i128 * eased as i128;
        assert!((step - exact).abs() < 1_000_000);
        assert!(step.abs() >= exact.abs());
    }
}

#[test]
fn eased_distance_of_a_short_drag_is_not_zero() {
    assert_eq!(eased_distance(10 * PX, 66_600), 2_860_448_220);
    assert!(in_pixels(eased_distance(10 * PX, 66_600)) > 0.66);
    assert!(eased_distance(PX, 1) > 0);
    assert!(eased_distance(-PX, 1) < 0);
    assert_eq!(eased_distance(1, 1), 1);
    assert_eq!(eased_distance(-1, 1), -1);
    assert_eq!(eased_distance(1, 999_999), 1);
}

#[test]
fn eased_distance_saturates() {
    assert_eq!(eased_distance(i64::MAX, i64::MAX), i64::MAX);
    assert_eq!(eased_distance(i64::MIN, i64::MAX), i64::MIN);
    assert_eq!(eased_distance(i64::MIN, i64::MIN), i64::MAX);
}

#[test]
fn scroll_distance_turns_the_horizontal_sign_only() {
    let indicator = indicator_at(500, 500);
    let window = window_of(1000, 1000);
    let eased = Vector2 { x: 500_000, y: 500_000 };
    assert_eq!(indicator.scroll_distance(point(600, 600), window, eased), point(-50, 50));
    assert_eq!(indicator.scroll_distance(point(400, 400), window, eased), point(50, -50));
}

#[test]
fn drag_below_the_spawn_point_keeps_scrolling_down() {
    // The indicator is dropped at (500, 500) and the pointer moves to
    // (500, 600), both counted from the top left corner of a window of
    // 1000 by 1000: the pointer is 100 below the spawn point, which the
    // window reports as (500, 400).
    let window = window_of(1000, 1000);
    let root = ControlledByElement { element: 1, interaction: Interaction::Hovered };
    let mut state = ScrollIndicatorState::Disabled;
    handle_middle_click(
        &mut state,
        false,
        true,
        &root,
        ScrollDirection::Both,
        Some(point(500, 500)),
        window,
    );
    let indicator = match state {
        ScrollIndicatorState::Enabled(widget) => widget,
        ScrollIndicatorState::Disabled => panic!("the press starts a drag"),
    };
    assert_eq!(indicator.spawn_position, point(500, 500));

    let cursor = point(500, 400);
    assert_eq!(indicator.delta(cursor, window), point(0, -100));
    let input = indicator.easing_input(cursor, window);
    assert_eq!(input, Vector2 { x: 200_000, y: 200_000 });

    // What the curve makes of a fifth.
    let eased = Vector2 { x: 66_600, y: 66_600 };
    let mut content = ScrollContentWidget::new(ScrollDirection::Both);
    let mut last = content.current_offset.y;
    for _ in 0..20 {
        assert!(scroll_from_scroll_indicator(&state, Some(cursor), window, eased, &mut content));
        let step = content.current_offset.y - last;
        assert_eq!(step, 28_604_482_192);
        assert!(6.5 < in_pixels(step) && in_pixels(step) < 6.8);
        assert_eq!(content.current_offset.x, 0);
        last = content.current_offset.y;
    }
    assert!((in_pixels(last) - 133.2).abs() < 1e-6);

    handle_middle_click(&mut state, true, false, &root, ScrollDirection::Both, Some(cursor), window);
    assert_eq!(state, ScrollIndicatorState::Disabled);
    assert!(!scroll_from_scroll_indicator(&state, Some(cursor), window, eased, &mut content));
    assert_eq!(content.current_offset.y, last);
}

#[test]
fn a_held_drag_near_the_spawn_point_keeps_scrolling() {
    let window = window_of(1000, 1000);
    let state = ScrollIndicatorState::Enabled(indicator_at(500, 500));
    let eased = Vector2 { x: 66_600, y: 66_600 };
    for below in [PX / 1000, PX / 2, PX, 10 * PX, 14 * PX] {
        let cursor = Vector2 { x: 500 * PX, y: 500 * PX - below };
        let mut content = ScrollContentWidget::new(ScrollDirection::Vertical);
        let mut last = content.current_offset.y;
        for _ in 0..5 {
            assert!(scroll_from_scroll_indicator(&state, Some(cursor), window, eased, &mut content));
            assert!(content.current_offset.y > last);
            last = content.current_offset.y;
        }
    }
    let ten_below = point(500, 490);
    let mut content = ScrollContentWidget::new(ScrollDirection::Vertical);
    scroll_from_scroll_indicator(&state, Some(ten_below), window, eased, &mut content);
    assert!((in_pixels(content.current_offset.y) - 0.666).abs() < 1e-9);
}

#[test]
fn without_an_indicator_the_content_stays() {
    let window = window_of(1000, 1000);
    let eased = Vector2 { x: 500_000, y: 500_000 };
    let state = ScrollIndicatorState::Disabled;
    for cursor in [None, Some(point(0, 0)), Some(point(500, 400)), Some(point(5000, -70))] {
        let mut content = ScrollContentWidget {
            scroll_direction: ScrollDirection::Both,
            current_offset: point(30, 40),
        };
        assert!(!scroll_from_scroll_indicator(&state, cursor, window, eased, &mut content));
        assert_eq!(content.current_offset, point(30, 40));
    }
}

#[test]
fn drag_moves_only_the_axes_of_the_content() {
    let state = ScrollIndicatorState::Enabled(indicator_at(500, 500));
    let window = window_of(1000, 1000);
    let cursor = Some(point(600, 600));
    let eased = Vector2 { x: 500_000, y: 500_000 };
    let start = point(300, 300);
    let mut vertical =
        ScrollContentWidget { scroll_direction: ScrollDirection::Vertical, current_offset: start };
    scroll_from_scroll_indicator(&state, cursor, window, eased, &mut vertical);
    assert_eq!(vertical.current_offset, point(300, 250));
    let mut horizontal =
        ScrollContentWidget { scroll_direction: ScrollDirection::Horizontal, current_offset: start };
    scroll_from_scroll_indicator(&state, cursor, window, eased, &mut horizontal);
    assert_eq!(horizontal.current_offset, point(350, 300));
    let mut both =
        ScrollContentWidget { scroll_direction: ScrollDirection::Both, current_offset: start };
    scroll_from_scroll_indicator(&state, cursor, window, eased, &mut both);
    assert_eq!(both.current_offset, point(350, 250));
    let mut neither =
        ScrollContentWidget { scroll_direction: ScrollDirection::Neither, current_offset: start };
    assert!(!scroll_from_scroll_indicator(&state, cursor, window, eased, &mut neither));
    assert_eq!(neither.current_offset, start);
}

#[test]
fn drag_needs_the_pointer_inside_the_window() {
    let state = ScrollIndicatorState::Enabled(indicator_at(500, 500));
    let mut content = ScrollContentWidget::new(ScrollDirection::Both);
    assert!(!scroll_from_scroll_indicator(
        &state,
        None,
        window_of(1000, 1000),
        Vector2 { x: 500_000, y: 500_000 },
        &mut content,
    ));
    assert_eq!(content.current_offset, Vector2 { x: 0, y: 0 });
}

#[test]
fn middle_click_follows_the_state_machine() {
    let window = window_of(1000, 800);
    let hovered = ControlledByElement { element: 5, interaction: Interaction::Hovered };
    let idle = ControlledByElement { element: 5, interaction: Interaction::Idle };
    let at = Some(point(100, 200));
    let enabled = ScrollIndicatorState::Enabled(ScrollIndicatorWidget {
        scroll_direction: ScrollDirection::Both,
        spawn_position: point(100, 600),
        scroll_content: 5,
    });

    let mut state = ScrollIndicatorState::Disabled;
    handle_middle_click(&mut state, false, false, &hovered, ScrollDirection::Both, at, window);
    assert_eq!(state, ScrollIndicatorState::Disabled);
    handle_middle_click(&mut state, false, true, &idle, ScrollDirection::Both, at, window);
    assert_eq!(state, ScrollIndicatorState::Disabled);
    handle_middle_click(&mut state, false, true, &hovered, ScrollDirection::Both, None, window);
    assert_eq!(state, ScrollIndicatorState::Disabled);
    handle_middle_click(&mut state, false, true, &hovered, ScrollDirection::Neither, at, window);
    assert_eq!(state, ScrollIndicatorState::Disabled);
    handle_middle_click(&mut state, false, true, &hovered, ScrollDirection::Both, at, window);
    assert_eq!(state, enabled);
    handle_middle_click(&mut state, false, false, &idle, ScrollDirection::Both, None, window);
    assert_eq!(state, enabled);
    handle_middle_click(&mut state, true, false, &idle, ScrollDirection::Both, None, window);
    assert_eq!(state, ScrollIndicatorState::Disabled);
}

#[test]
fn release_and_press_in_one_frame_restart_the_drag() {
    let window = window_of(1000, 800);
    let hovered = ControlledByElement { element: 5, interaction: Interaction::Hovered };
    let mut state = ScrollIndicatorState::Enabled(indicator_at(1, 1));
    handle_middle_click(
        &mut state,
        true,
        true,
        &hovered,
        ScrollDirection::Horizontal,
        Some(point(10, 20)),
        window,
    );
    assert_eq!(
        state,
        ScrollIndicatorState::Enabled(ScrollIndicatorWidget {
            scroll_direction: ScrollDirection::Horizontal,
            spawn_position: point(10, 780),
            scroll_content: 5,
        })
    );
}

#[test]
fn indicator_sprite_is_centred_on_the_spawn_point() {
    let vertical = ScrollIndicatorWidget {
        scroll_direction: ScrollDirection::Vertical,
        ..indicator_at(500, 300)
    };
    assert_eq!(
        init_scroll_indicator(&vertical),
        ScrollIndicatorSprite {
            texture: "sprites/scroll_cursor_vert.png",
            left: 484 * PX,
            top: 284 * PX,
            width: 32 * UPX,
            height: 32 * UPX,
        }
    );
    let horizontal = ScrollIndicatorWidget {
        scroll_direction: ScrollDirection::Horizontal,
        ..indicator_at(0, 0)
    };
    assert_eq!(init_scroll_indicator(&horizontal).texture, "sprites/scroll_cursor_horiz.png");
    assert_eq!(init_scroll_indicator(&horizontal).left, -16 * PX);
    assert_eq!(init_scroll_indicator(&indicator_at(0, 0)).texture, "sprites/scroll_cursor_multi.png");
    let far = ScrollIndicatorWidget {
        spawn_position: Vector2 { x: i64::MIN, y: 0 },
        ..indicator_at(0, 0)
    };
    assert_eq!(init_scroll_indicator(&far).left, i64::MIN);
}

#[test]
fn release_tells_every_indicator_to_stop() {
    let events = scroll_indicator_disabled_publisher(&vec![4, 9], true);
    assert_eq!(
        events,
        vec![
            UiEvent { widget: 4, action: ScrollIndicatorDisabled },
            UiEvent { widget: 9, action: ScrollIndicatorDisabled },
        ]
    );
    assert!(scroll_indicator_disabled_publisher(&vec![4, 9], false).is_empty());
    assert!(scroll_indicator_disabled_publisher(&vec![], true).is_empty());
}

#[test]
fn stop_events_reach_only_their_indicator() {
    let events = vec![
        UiEvent { widget: 4, action: ScrollIndicatorDisabled },
        UiEvent { widget: 9, action: ScrollIndicatorDisabled },
    ];
    assert!(scroll_indicator_disabled_subscriber(&events, 4));
    assert!(scroll_indicator_disabled_subscriber(&events, 9));
    assert!(!scroll_indicator_disabled_subscriber(&events, 5));
    assert!(!scroll_indicator_disabled_subscriber(&vec![], 4));
}
