//! The state of the virtual gamepad: the events waiting to be written to it and
//! its force-feedback (rumble) slots.

use vstd::prelude::*;

verus! {

/// `EV_KEY`: a key or button event.
pub const EV_KEY: u16 = 0x01;

/// `EV_ABS`: an absolute axis event.
pub const EV_ABS: u16 = 0x03;

/// `EV_MSC`: a miscellaneous event.
pub const EV_MSC: u16 = 0x04;

/// `MSC_TIMESTAMP`: the miscellaneous code of a timestamp in microseconds.
pub const MSC_TIMESTAMP: u16 = 0x05;

/// `FF_GAIN`: the force-feedback code that sets the overall gain.
pub const FF_GAIN: u16 = 0x60;

/// Number of force-feedback effect slots the virtual gamepad offers.
pub const FF_SLOTS: usize = 16;

/// Gain in effect until the application sets one.
pub const FF_GAIN_INITIAL: i32 = 65536;

/// One evdev input event: type, code and value.
#[derive(Debug, Clone, Copy, PartialEq, Eq)]
pub struct EvdevEvent {
    pub event_type: u16,
    pub code: u16,
    pub value: i32,
}

impl EvdevEvent {
    /// The event `(event_type, code, value)`.
    pub open spec fn spec_new(event_type: u16, code: u16, value: i32) -> EvdevEvent {
        EvdevEvent { event_type, code, value }
    }

    /// Builds the event `(event_type, code, value)`.
    pub fn new(event_type: u16, code: u16, value: i32) -> (e: EvdevEvent)
        ensures
            e == EvdevEvent::spec_new(event_type, code, value),
    {
        EvdevEvent { event_type, code, value }
    }
}

/// A rumble effect uploaded into a slot.
#[derive(Debug, Clone, Copy, PartialEq, Eq)]
pub struct SimpleRumbleSlot {
    pub left: u16,
    pub right: u16,
    pub duration: u16,
}

/// A force-feedback event read back from the virtual gamepad, with what the
/// upload or erase request it carries turned out to hold.
#[derive(Debug, Clone, Copy, PartialEq, Eq)]
pub enum RumbleEvent {
    /// A force-feedback event: `FF_GAIN` sets the gain to `value`; any other
    /// code names an effect slot, started where `value > 0` and stopped otherwise.
    ForceFeedback { code: u16, value: i32 },
    /// An effect was uploaded; `rumble` is `(strong, weak)` magnitudes where it
    /// is a rumble effect, `length` its replay length in milliseconds.
    Uploaded { effect_id: i16, rumble: Option<(u16, u16)>, length: u16 },
    /// An effect was erased.
    Erased { effect_id: u32 },
    /// Anything else.
    Other,
}

/// What the physical gamepad has to do after a force-feedback event.
#[derive(Debug, Clone, Copy, PartialEq, Eq)]
pub enum RumbleAction {
    Nothing,
    /// Rumble with these motor strengths for `duration` milliseconds
    /// (all zero: stop).
    SetRumble { left: u16, right: u16, duration: u32 },
    /// The level computation of a motor leaves `u64` (which a negative gain,
    /// read as a `u64`, brings about wherever the magnitude and multiplier are not zero).
    GainOverflow,
}

/// The gain as the level computation reads it, as a `u64`: a negative gain
/// wraps round to `2^64 + gain`.
pub open spec fn gain_as_u64(gain: i32) -> int {
    if gain >= 0 {
        gain as int
    } else {
        gain as int + 0x1_0000_0000_0000_0000
    }
}

/// Whether the level computation of one motor leaves `u64`: the product of
/// magnitude and multiplier, or that product times the gain read as a `u64`.
pub open spec fn level_overflows(magnitude: u16, multiplier: u64, gain: i32) -> bool {
    (magnitude as int) * (multiplier as int) > u64::MAX
        || (magnitude as int) * (multiplier as int) * gain_as_u64(gain) > u64::MAX
}

/// The strength of one motor: `magnitude * multiplier * gain / 65535²`, with
/// the gain read as a `u64`, saturated at 65535.
pub open spec fn rumble_level(magnitude: u16, multiplier: u64, gain: i32) -> u16 {
    let l = (magnitude as int) * (multiplier as int) * gain_as_u64(gain) / (65535int * 65535int);
    if l > 65535 {
        65535
    } else {
        l as u16
    }
}

/// What playing a stored effect asks of the motors: its scaled levels for its
/// length (65535 ms for a length of 0), unless a level computation overflows.
pub open spec fn play_action(s: SimpleRumbleSlot, gain: i32, rumble_mul: [u64; 2]) -> RumbleAction {
    if level_overflows(s.left, rumble_mul[0], gain) || level_overflows(s.right, rumble_mul[1], gain) {
        RumbleAction::GainOverflow
    } else {
        RumbleAction::SetRumble {
            left: rumble_level(s.left, rumble_mul[0], gain),
            right: rumble_level(s.right, rumble_mul[1], gain),
            duration: if s.duration == 0 { 65535 } else { s.duration as u32 },
        }
    }
}

/// The action a force-feedback event calls for, given the effect slots and the gain.
pub open spec fn rumble_action(slots: Seq<Option<SimpleRumbleSlot>>, gain: i32, rumble_mul: [u64; 2], ev: RumbleEvent) -> RumbleAction {
    match ev {
        RumbleEvent::ForceFeedback { code: slot, value } => {
            if slot == FF_GAIN || slot as int >= slots.len() {
                RumbleAction::Nothing
            } else if value > 0 && slots[slot as int] is Some {
                play_action(slots[slot as int]->0, gain, rumble_mul)
            } else {
                RumbleAction::SetRumble { left: 0, right: 0, duration: 0 }
            }
        },
        _ => RumbleAction::Nothing,
    }
}

/// The effect slots after a force-feedback event: an upload into a slot in
/// range stores its rumble magnitudes and length (or empties the slot for any
/// other kind of effect); an erase empties the slot.
pub open spec fn slots_after(slots: Seq<Option<SimpleRumbleSlot>>, ev: RumbleEvent) -> Seq<Option<SimpleRumbleSlot>> {
    match ev {
        RumbleEvent::Uploaded { effect_id, rumble, length } => {
            if 0 <= effect_id < slots.len() {
                slots.update(
                    effect_id as int,
                    match rumble {
                        Some((strong, weak)) => Some(SimpleRumbleSlot { left: strong, right: weak, duration: length }),
                        None => None,
                    },
                )
            } else {
                slots
            }
        },
        RumbleEvent::Erased { effect_id } => {
            if effect_id < slots.len() {
                slots.update(effect_id as int, None)
            } else {
                slots
            }
        },
        _ => slots,
    }
}

/// Starting an effect plays what was last uploaded into its slot: the
/// magnitudes scaled by the multipliers and the gain, for the uploaded length
/// (65535 ms for a length of 0).
pub proof fn lemma_play_after_upload(
    slots: Seq<Option<SimpleRumbleSlot>>,
    gain: i32,
    rumble_mul: [u64; 2],
    effect_id: i16,
    strong: u16,
    weak: u16,
    length: u16,
    value: i32,
)
    requires
        slots.len() == FF_SLOTS,
        0 <= effect_id < slots.len(),
        value > 0,
    ensures
        rumble_action(
            slots_after(slots, RumbleEvent::Uploaded { effect_id, rumble: Some((strong, weak)), length }),
            gain,
            rumble_mul,
            RumbleEvent::ForceFeedback { code: effect_id as u16, value },
        ) == play_action(SimpleRumbleSlot { left: strong, right: weak, duration: length }, gain, rumble_mul),
{
    assert((effect_id as u16) as int == effect_id as int);
}

/// With a gain of at least 0 and multipliers of at most 2.0, the level
/// computation never overflows; a zero magnitude or multiplier gives a still
/// motor whatever the gain.
pub proof fn lemma_level_in_range(magnitude: u16, multiplier: u64, gain: i32)
    ensures
        gain >= 0 && multiplier <= RUMBLE_MUL_MAX ==> !level_overflows(magnitude, multiplier, gain),
        magnitude == 0 || multiplier == 0 ==> !level_overflows(magnitude, multiplier, gain)
            && rumble_level(magnitude, multiplier, gain) == 0,
{
    let m = magnitude as int;
    let k = multiplier as int;
    let g = gain_as_u64(gain);
    if gain >= 0 && multiplier <= RUMBLE_MUL_MAX {
        assert(m * k * g <= 65535 * RUMBLE_MUL_MAX * 0x7fff_ffff) by (nonlinear_arith)
            requires
                0 <= m <= 65535,
                0 <= k <= RUMBLE_MUL_MAX,
                0 <= g <= 0x7fff_ffff,
        ;
        assert(m * k <= 65535 * RUMBLE_MUL_MAX) by (nonlinear_arith)
            requires
                0 <= m <= 65535,
                0 <= k <= RUMBLE_MUL_MAX,
        ;
    }
    if m == 0 || k == 0 {
        assert(m * k == 0) by (nonlinear_arith)
            requires
                m == 0 || k == 0,
        ;
        assert(m * k * g == 0) by (nonlinear_arith)
            requires
                m * k == 0,
        ;
    }
}

/// An erased effect, or one stopped, leaves the motors still.
pub proof fn lemma_stop_after_erase(
    slots: Seq<Option<SimpleRumbleSlot>>,
    gain: i32,
    rumble_mul: [u64; 2],
    effect_id: u32,
    value: i32,
)
    requires
        slots.len() == FF_SLOTS,
        effect_id < slots.len(),
    ensures
        rumble_action(
            slots_after(slots, RumbleEvent::Erased { effect_id }),
            gain,
            rumble_mul,
            RumbleEvent::ForceFeedback { code: effect_id as u16, value },
        ) == (RumbleAction::SetRumble { left: 0, right: 0, duration: 0 }),
        value <= 0 && slots[effect_id as int] is Some ==> rumble_action(
            slots,
            gain,
            rumble_mul,
            RumbleEvent::ForceFeedback { code: effect_id as u16, value },
        ) == (RumbleAction::SetRumble { left: 0, right: 0, duration: 0 }),
{
    assert((effect_id as u16) as int == effect_id as int);
}

/// Force-feedback events never change the number of effect slots.
pub proof fn lemma_slot_count_kept(slots: Seq<Option<SimpleRumbleSlot>>, ev: RumbleEvent)
    ensures
        slots_after(slots, ev).len() == slots.len(),
{
}

/// A motor level never exceeds 65535.
pub proof fn lemma_rumble_level_bounded(magnitude: u16, multiplier: u64, gain: i32)
    ensures
        rumble_level(magnitude, multiplier, gain) <= 65535,
{
}

/// The state of the virtual gamepad that the event processing reads and changes.
#[derive(Debug)]
pub struct SimulatedGamepad {
    /// Events waiting to be written to the device.
    pub queue: Vec<EvdevEvent>,
    pub ff_gain: i32,
    pub ff_slot: Vec<Option<SimpleRumbleSlot>>,
    /// Whether the digital button of each gamepad axis is held.
    pub digitrigger_state: Vec<bool>,
}

/// The largest rumble multiplier a parsed configuration holds (2.0).
pub const RUMBLE_MUL_MAX: u64 = 65535 * 2;

impl SimulatedGamepad {
    /// A fresh virtual gamepad: nothing queued, the initial gain, `FF_SLOTS` empty
    /// effect slots and `axis_slots` released digital triggers.
    pub fn create(axis_slots: usize) -> (s: SimulatedGamepad)
        ensures
            s.queue@ == Seq::<EvdevEvent>::empty(),
            s.ff_gain == FF_GAIN_INITIAL,
            s.ff_slot@.len() == FF_SLOTS,
            forall|i: int| 0 <= i < FF_SLOTS ==> s.ff_slot@[i] is None,
            s.digitrigger_state@.len() == axis_slots,
            forall|i: int| 0 <= i < axis_slots ==> !s.digitrigger_state@[i],
    {
        let mut digitrigger_state: Vec<bool> = Vec::new();
        let mut i: usize = 0;
        while i < axis_slots
            invariant
                i <= axis_slots,
                digitrigger_state@.len() == i,
                forall|j: int| 0 <= j < i ==> !digitrigger_state@[j],
            decreases axis_slots - i,
        {
            digitrigger_state.push(false);
            i = i + 1;
        }
        SimulatedGamepad {
            queue: Vec::new(),
            ff_gain: FF_GAIN_INITIAL,
            ff_slot: crate::none_vec(FF_SLOTS),
            digitrigger_state,
        }
    }

    /// The action that `ev` calls for, given the state before it.
    pub open spec fn spec_rumble_action(self, rumble_mul: [u64; 2], ev: RumbleEvent) -> RumbleAction {
        rumble_action(self.ff_slot@, self.ff_gain, rumble_mul, ev)
    }

    /// The slots after `ev`.
    pub open spec fn spec_slots_after(self, ev: RumbleEvent) -> Seq<Option<SimpleRumbleSlot>> {
        slots_after(self.ff_slot@, ev)
    }

    /// Handles one force-feedback event: a gain change is stored, an upload
    /// fills the slot it names with the rumble effect (or empties it for any
    /// other kind of effect), an erase empties the slot, and starting an effect
    /// asks the physical gamepad to rumble with the slot's magnitudes scaled by
    /// the multipliers and the gain; stopping an effect, or starting an empty
    /// slot, stops the rumble. Events for slots out of range change nothing.
    pub fn process_rumble_event(&mut self, rumble_mul: [u64; 2], ev: RumbleEvent) -> (a: RumbleAction)
        requires
            rumble_mul[0] <= RUMBLE_MUL_MAX,
            rumble_mul[1] <= RUMBLE_MUL_MAX,
        ensures
            a == old(self).spec_rumble_action(rumble_mul, ev),
            final(self).ff_slot@ == old(self).spec_slots_after(ev),
            final(self).ff_gain == (match ev {
                RumbleEvent::ForceFeedback { code, value } if code == FF_GAIN => value,
                _ => old(self).ff_gain,
            }),
            final(self).queue == old(self).queue,
            final(self).digitrigger_state == old(self).digitrigger_state,
    {
        match ev {
            RumbleEvent::ForceFeedback { code: slot, value } => {
                if slot == FF_GAIN {
                    self.ff_gain = value;
                    return RumbleAction::Nothing;
                }
                if slot as usize >= self.ff_slot.len() {
                    return RumbleAction::Nothing;
                }
                if value > 0 {
                    match self.ff_slot[slot as usize] {
                        Some(s) => {
                            let mut duration = s.duration as u32;
                            if duration == 0 {
                                duration = 65535;
                            }
                            let left = match scale_rumble(s.left, rumble_mul[0], self.ff_gain) {
                                Some(l) => l,
                                None => {
                                    return RumbleAction::GainOverflow;
                                },
                            };
                            let right = match scale_rumble(s.right, rumble_mul[1], self.ff_gain) {
                                Some(r) => r,
                                None => {
                                    return RumbleAction::GainOverflow;
                                },
                            };
                            RumbleAction::SetRumble { left, right, duration }
                        },
                        None => RumbleAction::SetRumble { left: 0, right: 0, duration: 0 },
                    }
                } else {
                    RumbleAction::SetRumble { left: 0, right: 0, duration: 0 }
                }
            },
            RumbleEvent::Uploaded { effect_id, rumble, length } => {
                if 0 <= effect_id && (effect_id as usize) < self.ff_slot.len() {
                    let slot = match rumble {
                        Some((strong, weak)) => Some(
                            SimpleRumbleSlot { left: strong, right: weak, duration: length },
                        ),
                        None => None,
                    };
                    self.ff_slot.set(effect_id as usize, slot);
                }
                RumbleAction::Nothing
            },
            RumbleEvent::Erased { effect_id } => {
                if (effect_id as usize) < self.ff_slot.len() {
                    self.ff_slot.set(effect_id as usize, None);
                }
                RumbleAction::Nothing
            },
            RumbleEvent::Other => RumbleAction::Nothing,
        }
    }
}

/// One motor strength, as `rumble_level` states it, or nothing where the
/// computation overflows.
fn scale_rumble(magnitude: u16, multiplier: u64, gain: i32) -> (l: Option<u16>)
    requires
        multiplier <= RUMBLE_MUL_MAX,
    ensures
        l == (if level_overflows(magnitude, multiplier, gain) {
            None
        } else {
            Some(rumble_level(magnitude, multiplier, gain))
        }),
{
    let m = magnitude as u64;
    let g: u64 = if gain >= 0 {
        gain as u64
    } else {
        u64::MAX - ((-(gain as i64)) as u64 - 1)
    };
    assert(g == gain_as_u64(gain));
    assert(m * multiplier <= 65535 * RUMBLE_MUL_MAX) by (nonlinear_arith)
        requires
            m <= 65535,
            multiplier <= RUMBLE_MUL_MAX,
    ;
    let mm = m * multiplier;
    match mm.checked_mul(g) {
        Some(p) => {
            let q = p / (65535u64 * 65535u64);
            if q > 65535 {
                Some(65535)
            } else {
                Some(q as u16)
            }
        },
        None => None,
    }
}

} // verus!
