use rts_core::camera::{camera_direction, Drag, DragAction};
use rts_core::gameworld::ClickedState;
use rts_core::input::{Keyboard, Keys, MouseButton, LMB, RMB};

#[test]
fn consume_empties_the_event() {
    let mut b = MouseButton::Mouse { pressed: true, button_index: LMB };
    assert!(b.button_pressed(LMB));
    b.consume();
    assert_eq!(b, MouseButton::Empty);
    assert!(!b.button_pressed(LMB));
    assert!(!b.button_released(LMB));
}

#[test]
fn pressed_and_released_match_the_button() {
    let press = MouseButton::Mouse { pressed: true, button_index: RMB };
    assert!(press.button_pressed(RMB));
    assert!(!press.button_pressed(LMB));
    assert!(!press.button_released(RMB));
    let release = MouseButton::Mouse { pressed: false, button_index: LMB };
    assert!(release.button_released(LMB));
    assert!(!release.button_released(RMB));
    assert!(!release.button_pressed(LMB));
}

#[test]
fn keyboard_tracks_held_keys() {
    let mut k = Keyboard::new();
    assert!(k.keys().is_empty());
    k.update(Keys::left(), true);
    k.update(Keys::up(), true);
    assert_eq!(k.keys().bits, 5);
    assert!(k.keys().contains(Keys::left()));
    assert!(!k.keys().contains(Keys::right()));
    k.update(Keys::left(), false);
    assert_eq!(k.keys().bits, 4);
    k.update(Keys::down(), false);
    assert_eq!(k.keys().bits, 4);
    k.update(Keys::up(), false);
    assert_eq!(k.keys(), Keys::empty());
}

#[test]
fn camera_moves_with_the_held_keys() {
    let mut k = Keyboard::new();
    assert_eq!(camera_direction(k.keys()), None);
    k.update(Keys::left(), true);
    assert_eq!(camera_direction(k.keys()), Some((-1, 0)));
    k.update(Keys::down(), true);
    assert_eq!(camera_direction(k.keys()), Some((-1, 1)));
    k.update(Keys::right(), true);
    assert_eq!(camera_direction(k.keys()), Some((0, 1)));
    k.update(Keys::up(), true);
    assert_eq!(camera_direction(k.keys()), Some((0, 0)));
}

#[test]
fn drag_runs_from_press_to_release() {
    let mut d: Drag<(i32, i32)> = Drag::Empty;
    assert_eq!(d.step(false, (1, 1)), DragAction::Hide);
    assert_eq!(d, Drag::Empty);
    assert_eq!(d.step(true, (2, 3)), DragAction::Begin((2, 3)));
    assert_eq!(d, Drag::Start((2, 3)));
    assert_eq!(d.step(true, (5, 7)), DragAction::Resize { start: (2, 3), end: (5, 7) });
    assert_eq!(d, Drag::Start((2, 3)));
    assert_eq!(d.step(false, (6, 8)), DragAction::Select { start: (2, 3), end: (6, 8) });
    assert_eq!(d, Drag::Empty);
    d.set_start((9, 9));
    assert_eq!(d, Drag::Start((9, 9)));
    d.clear();
    assert_eq!(d, Drag::Empty);
}

#[test]
fn a_click_is_taken_once() {
    let mut s = ClickedState { clicked: true };
    assert!(s.take_click());
    assert!(!s.clicked);
    assert!(!s.take_click());
}
