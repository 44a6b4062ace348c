//! Turns the four d-pad buttons into the two axes of a hat switch.

use vstd::prelude::*;

use crate::sdl::{SDL_BUTTON_DPAD_DOWN, SDL_BUTTON_DPAD_LEFT, SDL_BUTTON_DPAD_RIGHT, SDL_BUTTON_DPAD_UP};
use crate::simulated::{EvdevEvent, EV_ABS};

verus! {

/// 1 for a pressed button, 0 for a released one.
pub open spec fn pressed(b: bool) -> int {
    if b {
        1
    } else {
        0
    }
}

/// What a `ButtonTracker` holds.
pub struct ButtonTrackerView {
    pub dpad_l: bool,
    pub dpad_r: bool,
    pub dpad_u: bool,
    pub dpad_d: bool,
    pub hatx: int,
    pub haty: int,
    pub dirty_hatx: bool,
    pub dirty_haty: bool,
}

impl ButtonTrackerView {
    /// The hat axes follow the buttons: x is right minus left, y is down minus up.
    pub open spec fn hat_matches_dpad(self) -> bool {
        &&& self.hatx == pressed(self.dpad_r) - pressed(self.dpad_l)
        &&& self.haty == pressed(self.dpad_d) - pressed(self.dpad_u)
    }

    /// The state after `button` went down (`v`) or up; buttons other than the
    /// d-pad change nothing.
    pub open spec fn after_button(self, button: i32, v: bool) -> ButtonTrackerView {
        if button == SDL_BUTTON_DPAD_LEFT {
            ButtonTrackerView {
                dpad_l: v,
                hatx: pressed(self.dpad_r) - pressed(v),
                dirty_hatx: true,
                ..self
            }
        } else if button == SDL_BUTTON_DPAD_RIGHT {
            ButtonTrackerView {
                dpad_r: v,
                hatx: pressed(v) - pressed(self.dpad_l),
                dirty_hatx: true,
                ..self
            }
        } else if button == SDL_BUTTON_DPAD_UP {
            ButtonTrackerView {
                dpad_u: v,
                haty: pressed(self.dpad_d) - pressed(v),
                dirty_haty: true,
                ..self
            }
        } else if button == SDL_BUTTON_DPAD_DOWN {
            ButtonTrackerView {
                dpad_d: v,
                haty: pressed(v) - pressed(self.dpad_u),
                dirty_haty: true,
                ..self
            }
        } else {
            self
        }
    }

    /// The events a submit emits: the x axis if it changed, then the y axis if it changed.
    pub open spec fn pending_events(self, axes: [u16; 2]) -> Seq<EvdevEvent> {
        (if self.dirty_hatx {
            seq![EvdevEvent { event_type: EV_ABS, code: axes[0], value: self.hatx as i32 }]
        } else {
            Seq::empty()
        }) + (if self.dirty_haty {
            seq![EvdevEvent { event_type: EV_ABS, code: axes[1], value: self.haty as i32 }]
        } else {
            Seq::empty()
        })
    }

    /// The state after a submit: nothing left to emit.
    pub open spec fn submitted(self) -> ButtonTrackerView {
        ButtonTrackerView { dirty_hatx: false, dirty_haty: false, ..self }
    }
}

/// Tracks the d-pad buttons and the hat axes they stand for.
#[derive(Debug)]
pub struct ButtonTracker {
    dpad_l: bool,
    dpad_r: bool,
    dpad_u: bool,
    dpad_d: bool,
    hatx: i32,
    haty: i32,
    dirty_hatx: bool,
    dirty_haty: bool,
}

impl View for ButtonTracker {
    type V = ButtonTrackerView;

    closed spec fn view(&self) -> ButtonTrackerView {
        ButtonTrackerView {
            dpad_l: self.dpad_l,
            dpad_r: self.dpad_r,
            dpad_u: self.dpad_u,
            dpad_d: self.dpad_d,
            hatx: self.hatx as int,
            haty: self.haty as int,
            dirty_hatx: self.dirty_hatx,
            dirty_haty: self.dirty_haty,
        }
    }
}

fn hat_value(plus: bool, minus: bool) -> (v: i32)
    ensures
        v == pressed(plus) - pressed(minus),
{
    (if plus { 1i32 } else { 0i32 }) - (if minus { 1i32 } else { 0i32 })
}

impl ButtonTracker {
    #[verifier::type_invariant]
    closed spec fn inv(self) -> bool {
        self@.hat_matches_dpad()
    }

    /// The hat axes match the buttons at all times.
    pub fn hat_is_consistent(&self) -> (b: bool)
        ensures
            b,
            self@.hat_matches_dpad(),
    {
        proof {
            use_type_invariant(self);
        }
        true
    }

    /// Records that `sdl_button` went down (`v`) or up. A d-pad button updates
    /// its hat axis and marks it for the next submit; any other button is ignored.
    pub fn track(&mut self, sdl_button: i32, v: bool)
        ensures
            final(self)@ == old(self)@.after_button(sdl_button, v),
            final(self)@.hat_matches_dpad(),
    {
        proof {
            use_type_invariant(&*self);
        }
        if sdl_button == SDL_BUTTON_DPAD_LEFT {
            *self = ButtonTracker { dpad_l: v, hatx: hat_value(self.dpad_r, v), dirty_hatx: true, ..*self };
        } else if sdl_button == SDL_BUTTON_DPAD_RIGHT {
            *self = ButtonTracker { dpad_r: v, hatx: hat_value(v, self.dpad_l), dirty_hatx: true, ..*self };
        } else if sdl_button == SDL_BUTTON_DPAD_UP {
            *self = ButtonTracker { dpad_u: v, haty: hat_value(self.dpad_d, v), dirty_haty: true, ..*self };
        } else if sdl_button == SDL_BUTTON_DPAD_DOWN {
            *self = ButtonTracker { dpad_d: v, haty: hat_value(v, self.dpad_u), dirty_haty: true, ..*self };
        }
        proof {
            use_type_invariant(&*self);
        }
    }

    /// Appends an `EV_ABS` event for each hat axis that changed since the last
    /// submit (x on `axes[0]` before y on `axes[1]`) and clears the marks.
    pub fn submit_to_evdev(&mut self, queue: &mut Vec<EvdevEvent>, axes: [u16; 2])
        ensures
            final(queue)@ == old(queue)@ + old(self)@.pending_events(axes),
            final(self)@ == old(self)@.submitted(),
            final(self)@.hat_matches_dpad(),
    {
        proof {
            use_type_invariant(&*self);
        }
        let ghost q0 = queue@;
        let ax = axes[0];
        let ay = axes[1];
        if self.dirty_hatx {
            *self = ButtonTracker { dirty_hatx: false, ..*self };
            queue.push(EvdevEvent::new(EV_ABS, ax, self.hatx));
        }
        if self.dirty_haty {
            *self = ButtonTracker { dirty_haty: false, ..*self };
            queue.push(EvdevEvent::new(EV_ABS, ay, self.haty));
        }
        proof {
            use_type_invariant(&*self);
            assert(queue@ =~= q0 + old(self)@.pending_events(axes));
        }
    }
}

impl Default for ButtonTracker {
    /// Every button released, hat centred, nothing to emit.
    fn default() -> (t: ButtonTracker)
        ensures
            t@ == (ButtonTrackerView {
                dpad_l: false,
                dpad_r: false,
                dpad_u: false,
                dpad_d: false,
                hatx: 0,
                haty: 0,
                dirty_hatx: false,
                dirty_haty: false,
            }),
    {
        ButtonTracker {
            dpad_l: false,
            dpad_r: false,
            dpad_u: false,
            dpad_d: false,
            hatx: 0,
            haty: 0,
            dirty_hatx: false,
            dirty_haty: false,
        }
    }
}

/// A submit leaves nothing to emit: submitting again right away emits no event.
pub proof fn lemma_second_submit_emits_nothing(t: ButtonTrackerView, axes: [u16; 2])
    ensures
        t.submitted().pending_events(axes) == Seq::<EvdevEvent>::empty(),
{
    assert(t.submitted().pending_events(axes) =~= Seq::<EvdevEvent>::empty());
}

/// Tracking keeps the hat in line with the buttons, so opposite directions held
/// together centre their axis.
pub proof fn lemma_tracking_keeps_hat_consistent(t: ButtonTrackerView, button: i32, v: bool)
    requires
        t.hat_matches_dpad(),
    ensures
        t.after_button(button, v).hat_matches_dpad(),
        t.after_button(button, v).dpad_l && t.after_button(button, v).dpad_r ==> t.after_button(button, v).hatx == 0,
        t.after_button(button, v).dpad_u && t.after_button(button, v).dpad_d ==> t.after_button(button, v).haty == 0,
{
}

/// Each d-pad button moves its own direction: a press or release of a d-pad
/// button records exactly that button and marks only its own hat axis, and
/// pressing a direction whose opposite is up reads as that direction on the
/// hat (down and right +1, up and left -1); any other button changes nothing.
pub proof fn lemma_dpad_button_moves_its_direction(t: ButtonTrackerView, button: i32, v: bool)
    requires
        t.hat_matches_dpad(),
    ensures
        button == SDL_BUTTON_DPAD_DOWN ==> {
            let a = t.after_button(button, v);
            &&& a.dpad_d == v && a.dpad_u == t.dpad_u && a.dpad_l == t.dpad_l && a.dpad_r == t.dpad_r
            &&& a.dirty_haty && a.dirty_hatx == t.dirty_hatx && a.hatx == t.hatx
            &&& v && !t.dpad_u ==> a.haty == 1
        },
        button == SDL_BUTTON_DPAD_UP ==> {
            let a = t.after_button(button, v);
            &&& a.dpad_u == v && a.dpad_d == t.dpad_d && a.dpad_l == t.dpad_l && a.dpad_r == t.dpad_r
            &&& a.dirty_haty && a.dirty_hatx == t.dirty_hatx && a.hatx == t.hatx
            &&& v && !t.dpad_d ==> a.haty == -1
        },
        button == SDL_BUTTON_DPAD_RIGHT ==> {
            let a = t.after_button(button, v);
            &&& a.dpad_r == v && a.dpad_l == t.dpad_l && a.dpad_u == t.dpad_u && a.dpad_d == t.dpad_d
            &&& a.dirty_hatx && a.dirty_haty == t.dirty_haty && a.haty == t.haty
            &&& v && !t.dpad_l ==> a.hatx == 1
        },
        button == SDL_BUTTON_DPAD_LEFT ==> {
            let a = t.after_button(button, v);
            &&& a.dpad_l == v && a.dpad_r == t.dpad_r && a.dpad_u == t.dpad_u && a.dpad_d == t.dpad_d
            &&& a.dirty_hatx && a.dirty_haty == t.dirty_haty && a.haty == t.haty
            &&& v && !t.dpad_r ==> a.hatx == -1
        },
        button != SDL_BUTTON_DPAD_DOWN && button != SDL_BUTTON_DPAD_UP && button != SDL_BUTTON_DPAD_RIGHT
            && button != SDL_BUTTON_DPAD_LEFT ==> t.after_button(button, v) == t,
{
}

/// From rest, pressing one d-pad direction and submitting emits one event on
/// that direction's hat axis: down `+1` and up `-1` on the y axis, right `+1`
/// and left `-1` on the x axis.
pub proof fn lemma_single_press_from_rest(axes: [u16; 2])
    ensures
        ({
            let rest = ButtonTrackerView {
                dpad_l: false,
                dpad_r: false,
                dpad_u: false,
                dpad_d: false,
                hatx: 0,
                haty: 0,
                dirty_hatx: false,
                dirty_haty: false,
            };
            &&& rest.after_button(SDL_BUTTON_DPAD_DOWN, true).pending_events(axes)
                == seq![EvdevEvent { event_type: EV_ABS, code: axes[1], value: 1i32 }]
            &&& rest.after_button(SDL_BUTTON_DPAD_UP, true).pending_events(axes)
                == seq![EvdevEvent { event_type: EV_ABS, code: axes[1], value: -1i32 }]
            &&& rest.after_button(SDL_BUTTON_DPAD_RIGHT, true).pending_events(axes)
                == seq![EvdevEvent { event_type: EV_ABS, code: axes[0], value: 1i32 }]
            &&& rest.after_button(SDL_BUTTON_DPAD_LEFT, true).pending_events(axes)
                == seq![EvdevEvent { event_type: EV_ABS, code: axes[0], value: -1i32 }]
        }),
{
    let rest = ButtonTrackerView {
        dpad_l: false,
        dpad_r: false,
        dpad_u: false,
        dpad_d: false,
        hatx: 0,
        haty: 0,
        dirty_hatx: false,
        dirty_haty: false,
    };
    assert(rest.after_button(SDL_BUTTON_DPAD_DOWN, true).pending_events(axes)
        =~= seq![EvdevEvent { event_type: EV_ABS, code: axes[1], value: 1i32 }]);
    assert(rest.after_button(SDL_BUTTON_DPAD_UP, true).pending_events(axes)
        =~= seq![EvdevEvent { event_type: EV_ABS, code: axes[1], value: -1i32 }]);
    assert(rest.after_button(SDL_BUTTON_DPAD_RIGHT, true).pending_events(axes)
        =~= seq![EvdevEvent { event_type: EV_ABS, code: axes[0], value: 1i32 }]);
    assert(rest.after_button(SDL_BUTTON_DPAD_LEFT, true).pending_events(axes)
        =~= seq![EvdevEvent { event_type: EV_ABS, code: axes[0], value: -1i32 }]);
}

} // verus!
