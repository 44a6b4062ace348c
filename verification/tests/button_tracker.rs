use sdl3_to_evdev::button_tracker::ButtonTracker;
use sdl3_to_evdev::sdl::{SDL_BUTTON_DPAD_LEFT, SDL_BUTTON_DPAD_RIGHT, SDL_BUTTON_DPAD_UP, SDL_BUTTON_SOUTH};
use sdl3_to_evdev::simulated::{EvdevEvent, EV_ABS};

#[test]
fn dpad_left_moves_hat_x() {
    let mut t = ButtonTracker::default();
    let mut q = Vec::new();
    t.track(SDL_BUTTON_DPAD_LEFT, true);
    t.submit_to_evdev(&mut q, [0x10, 0x11]);
    assert_eq!(q, vec![EvdevEvent { event_type: EV_ABS, code: 0x10, value: -1 }]);
}

#[test]
fn second_submit_emits_nothing() {
    let mut t = ButtonTracker::default();
    let mut q = Vec::new();
    t.track(SDL_BUTTON_DPAD_UP, true);
    t.submit_to_evdev(&mut q, [0x10, 0x11]);
    assert_eq!(q.len(), 1);
    t.submit_to_evdev(&mut q, [0x10, 0x11]);
    assert_eq!(q.len(), 1);
}

#[test]
fn opposite_directions_cancel() {
    let mut t = ButtonTracker::default();
    let mut q = Vec::new();
    t.track(SDL_BUTTON_DPAD_LEFT, true);
    t.track(SDL_BUTTON_DPAD_RIGHT, true);
    t.submit_to_evdev(&mut q, [0x10, 0x11]);
    assert_eq!(q, vec![EvdevEvent { event_type: EV_ABS, code: 0x10, value: 0 }]);
    assert!(t.hat_is_consistent());
}

#[test]
fn other_buttons_are_ignored() {
    let mut t = ButtonTracker::default();
    let mut q = Vec::new();
    t.track(SDL_BUTTON_SOUTH, true);
    t.submit_to_evdev(&mut q, [0x10, 0x11]);
    assert!(q.is_empty());
}
