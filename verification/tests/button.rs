//! The push button and its pressed state.

use sunder::widgets::button::{ButtonCache, ImmediateState, PushButton};
use sunder::widgets::text_view::TextView;
use sunder::{Event, Size, Widget};

fn button() -> PushButton<'static> {
    PushButton::new(TextView::new("OK", None), Size { width: 30, height: 12 })
}

#[test]
fn default_state_is_not_pressed() {
    assert!(!ImmediateState::default().is_pressed());
}

#[test]
fn button_keeps_what_it_was_made_of() {
    let button = PushButton::new(TextView::new("OK", Some(25)), Size { width: 30, height: 12 });
    assert_eq!(button.text().text(), "OK");
    assert_eq!(button.text().max_width(), Some(25));
    assert_eq!(button.size(), Size { width: 30, height: 12 });
}

#[test]
fn press_sets_pressed_and_asks_for_redraw() {
    let mut button = button();
    let mut state = ImmediateState::default();
    assert!(button.handle_event(&mut state, Event::Mouse { x: 10, y: 5 }));
    assert!(state.is_pressed());
}

#[test]
fn second_press_keeps_pressed_without_redraw() {
    let mut button = button();
    let mut state = ImmediateState::default();
    assert!(button.handle_event(&mut state, Event::Mouse { x: 10, y: 5 }));
    assert!(!button.handle_event(&mut state, Event::Mouse { x: 10, y: 5 }));
    assert!(state.is_pressed());
    assert!(!button.handle_event(&mut state, Event::Mouse { x: 11, y: 6 }));
    assert!(state.is_pressed());
}

#[test]
fn pointer_off_the_button_releases_it() {
    let mut button = button();
    let mut state = ImmediateState::default();
    assert!(!button.handle_event(&mut state, Event::Mouse { x: 40, y: 5 }));
    assert!(!state.is_pressed());

    assert!(button.handle_event(&mut state, Event::Mouse { x: 1, y: 1 }));
    assert!(button.handle_event(&mut state, Event::Mouse { x: 40, y: 5 }));
    assert!(!state.is_pressed());
    assert!(!button.handle_event(&mut state, Event::Mouse { x: 41, y: 5 }));
    assert!(!state.is_pressed());
}

#[test]
fn button_area_is_half_open() {
    let mut button = button();
    let inside = [(0, 0), (29, 0), (0, 11), (29, 11)];
    let outside = [(-1, 0), (0, -1), (30, 0), (0, 12), (30, 12), (i32::MIN, 5), (5, i32::MAX)];
    for (x, y) in inside {
        let mut state = ImmediateState::default();
        assert!(button.handle_event(&mut state, Event::Mouse { x, y }), "({x}, {y})");
        assert!(state.is_pressed(), "({x}, {y})");
    }
    for (x, y) in outside {
        let mut state = ImmediateState::default();
        assert!(!button.handle_event(&mut state, Event::Mouse { x, y }), "({x}, {y})");
        assert!(!state.is_pressed(), "({x}, {y})");
    }
}

#[test]
fn button_without_area_is_never_pressed() {
    let mut button = PushButton::new(TextView::new("", None), Size { width: 0, height: 0 });
    let mut state = ImmediateState::default();
    assert!(!button.handle_event(&mut state, Event::Mouse { x: 0, y: 0 }));
    assert!(!state.is_pressed());
}

#[test]
fn very_large_button_covers_every_point_from_its_corner() {
    let mut button = PushButton::new(
        TextView::new("wide", None),
        Size { width: u32::MAX, height: u32::MAX },
    );
    let mut state = ImmediateState::default();
    assert!(button.handle_event(&mut state, Event::Mouse { x: i32::MAX, y: i32::MAX }));
    assert!(state.is_pressed());
}

#[test]
fn events_leave_the_button_as_it_was() {
    let mut button = button();
    let mut state = ImmediateState::default();
    button.handle_event(&mut state, Event::Mouse { x: 3, y: 3 });
    assert_eq!(button.text().text(), "OK");
    assert_eq!(button.size(), Size { width: 30, height: 12 });
}

#[test]
fn default_button_cache_can_be_made() {
    let _cache: ButtonCache<String> = Default::default();
}
