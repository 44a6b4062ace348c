//! The decisions taken on each gamepad event: which output events it produces
//! and how the state of the bridge changes.

use vstd::prelude::*;

use crate::button_tracker::ButtonTracker;
use crate::calibration::{clamp, clamp_i32, with_dim, CalibrationState};
use crate::config::{Config, InputGamepad, StringFilter, VendorProductIds};
use crate::config::{AxisMappingEnum, FractionThreshold, SimulateGamepad};
use crate::parsed_config::{
    abs, abs_i64, signum, fits_i32, spec_input_range, spec_parse_axis_binding, spec_target_range, ParsedAxisBinding,
    ParsedConfig, ParsedConfigView,
};
use crate::simulated::{EvdevEvent, SimulatedGamepad, EV_ABS, EV_KEY};
use crate::simulated_gyro::{AbsInfo, ParsedGyroConfig, SimulatedGamepadGyro};
use crate::text::{seq_contains_str, str_contains};

verus! {

/// The position of a joystick hat.
#[derive(Debug, Clone, Copy, PartialEq, Eq)]
pub enum HatState {
    Centered,
    Up,
    Right,
    Down,
    Left,
    RightUp,
    RightDown,
    LeftUp,
    LeftDown,
}

/// The x and y values of a hat position: right and down are positive.
pub open spec fn hat_offsets(s: HatState) -> [i32; 2] {
    match s {
        HatState::Centered => [0i32, 0i32],
        HatState::Up => [0i32, -1i32],
        HatState::Right => [1, 0],
        HatState::Down => [0, 1],
        HatState::Left => [-1i32, 0i32],
        HatState::RightUp => [1i32, -1i32],
        HatState::RightDown => [1i32, 1i32],
        HatState::LeftUp => [-1i32, -1i32],
        HatState::LeftDown => [-1i32, 1i32],
    }
}

fn hat_offsets_exec(s: HatState) -> (r: [i32; 2])
    ensures
        r == hat_offsets(s),
{
    match s {
        HatState::Centered => [0, 0],
        HatState::Up => [0, -1],
        HatState::Right => [1, 0],
        HatState::Down => [0, 1],
        HatState::Left => [-1, 0],
        HatState::RightUp => [1, -1],
        HatState::RightDown => [1, 1],
        HatState::LeftUp => [-1, -1],
        HatState::LeftDown => [-1, 1],
    }
}

/// A gamepad event, as far as the bridge looks at it. Buttons and axes are
/// raw SDL ids; `which` is the joystick instance the event comes from.
#[derive(Debug, Clone, Copy, PartialEq, Eq)]
pub enum GamepadEvent {
    ButtonDown { which: u32, button: i32 },
    ButtonUp { which: u32, button: i32 },
    AxisMotion { which: u32, axis: i32, value: i16 },
    HatMotion { which: u32, hat_idx: u8, state: HatState },
    DeviceAdded { which: u32 },
    DeviceRemoved { which: u32 },
    Quit,
    Other,
}

/// What has to happen outside after an event.
#[derive(Debug, Clone, PartialEq, Eq)]
pub enum EventAction {
    Nothing,
    /// A gamepad appeared: try to open it.
    AddController(u32),
    /// The open gamepad went away and the virtual devices are closed: write out
    /// the events still pending for the virtual gamepad and for the motion
    /// device, then close both.
    Disconnected { pending: Vec<EvdevEvent>, motion_pending: Vec<EvdevEvent> },
    /// The program is to end.
    Quit,
    /// The clamp range of the moved axis is not in order, so its value cannot be clamped.
    ClampRangeInvalid,
}

/// The events still queued for a virtual gamepad, none where there is none.
pub open spec fn pending_of(o: Option<SimulatedGamepad>) -> Seq<EvdevEvent> {
    match o {
        Some(g) => g.queue@,
        None => Seq::empty(),
    }
}

/// The events still queued for a motion device, none where there is none.
pub open spec fn motion_pending_of(o: Option<SimulatedGamepadGyro>) -> Seq<EvdevEvent> {
    match o {
        Some(g) => g.queue@,
        None => Seq::empty(),
    }
}

/// The state the event loop keeps between events.
#[derive(Debug)]
pub struct LoopState {
    pub exit: bool,
    /// The open gamepad: its instance id and the state of its stick groups.
    pub input: Option<(u32, CalibrationState)>,
    pub output: Option<SimulatedGamepad>,
    pub motion_output: Option<SimulatedGamepadGyro>,
    pub tracker: ButtonTracker,
    /// Time of the current batch of events, in nanoseconds.
    pub tick: u64,
    pub last_power_check: u64,
    /// The last battery state seen: SDL power state and percentage.
    pub last_power_info: Option<(i32, i32)>,
}

/// Truncating division of integers (as Rust divides), for `b > 0`.
pub open spec fn trunc_div(a: int, b: int) -> int {
    if a >= 0 {
        a / b
    } else {
        -((-a) / b)
    }
}

/// The output value of axis binding `m` for input `value`: the distance from
/// `in_off`, scaled by the positive or negative fraction, moved by `out_off`,
/// clamped to `clamp_out`.
pub open spec fn scaled_axis_value(m: ParsedAxisBinding, value: i16) -> int {
    let x = value as int - m.in_off as int;
    let s = if x > 0 {
        trunc_div(x * m.pos_fraction[0] as int, m.pos_fraction[1] as int)
    } else if x < 0 {
        trunc_div(x * m.neg_fraction[0] as int, m.neg_fraction[1] as int)
    } else {
        0
    };
    clamp(s + m.out_off as int, m.clamp_out[0] as int, m.clamp_out[1] as int)
}

/// Whether a digital trigger is down after an input `x` (relative to the centre):
/// the input points the way of the press threshold and reaches the release
/// threshold where the trigger was held, the press threshold where it was not.
pub open spec fn trigger_down(held: bool, x: int, press: int, release: int) -> bool {
    signum(x) == signum(press) && abs(x) >= abs(if held { release } else { press })
}

/// The entry of a table for a raw id, if the id is in range.
pub open spec fn table_entry<T>(t: Seq<T>, id: int) -> Option<T> {
    if 0 <= id < t.len() {
        Some(t[id])
    } else {
        None
    }
}

/// The binding of an SDL axis, if it is bound.
pub open spec fn axis_binding_of(pcfg: ParsedConfigView, axis: i32) -> Option<ParsedAxisBinding> {
    match table_entry(pcfg.axis_lut, axis as int) {
        Some(Some(m)) => Some(m),
        _ => None,
    }
}

/// The output key of an SDL button, if it is bound.
pub open spec fn button_code(pcfg: ParsedConfigView, button: i32) -> Option<u16> {
    match table_entry(pcfg.button_lut, button as int) {
        Some(c) => if c == u16::MAX {
            None
        } else {
            Some(c)
        },
        None => None,
    }
}

/// The events a button press (`down`) or release produces: its output key, then
/// the hat axes that the d-pad drives, where they changed.
pub open spec fn button_events(s: LoopState, pcfg: ParsedConfigView, button: i32, down: bool) -> Seq<EvdevEvent> {
    (match button_code(pcfg, button) {
        Some(c) => seq![EvdevEvent { event_type: EV_KEY, code: c, value: if down { 1i32 } else { 0i32 } }],
        None => Seq::empty(),
    }) + (match pcfg.dpad_to_hat_axis {
        Some(axes) => s.tracker@.after_button(button, down).pending_events(axes),
        None => Seq::empty(),
    })
}

/// The events a moved axis produces when it is not part of a processing stick
/// group: its scaled value, then a change of its digital trigger, where there is one.
pub open spec fn axis_events(m: ParsedAxisBinding, value: i16, held: bool, simulate_digital_trigger: bool) -> Seq<EvdevEvent> {
    let x = value as int - m.in_off as int;
    let down = trigger_down(held, x, m.digitrigger_thresh[0] as int, m.digitrigger_thresh[1] as int);
    seq![EvdevEvent { event_type: EV_ABS, code: m.setup.code, value: scaled_axis_value(m, value) as i32 }] + (
    if simulate_digital_trigger && m.digitrigger_button is Some && m.digitrigger_thresh[0] != 0 && down != held {
        seq![EvdevEvent { event_type: EV_KEY, code: m.digitrigger_button->0, value: if down { 1i32 } else { 0i32 } }]
    } else {
        Seq::empty()
    })
}

/// The digital trigger state of a moved axis after the event.
pub open spec fn trigger_after(m: ParsedAxisBinding, value: i16, held: bool, simulate_digital_trigger: bool) -> bool {
    let x = value as int - m.in_off as int;
    if simulate_digital_trigger && m.digitrigger_button is Some && m.digitrigger_thresh[0] != 0 {
        trigger_down(held, x, m.digitrigger_thresh[0] as int, m.digitrigger_thresh[1] as int)
    } else {
        held
    }
}

/// With digital triggers switched off, a moved axis produces exactly one
/// event, an `EV_ABS` on its output axis, never a key event, and its digital
/// trigger keeps its state; with them on, at most a key event on the trigger's
/// button follows, and only where the trigger's state changes.
pub proof fn lemma_digital_trigger_only_when_enabled(m: ParsedAxisBinding, value: i16, held: bool)
    ensures
        axis_events(m, value, held, false).len() == 1,
        axis_events(m, value, held, false)[0].event_type == EV_ABS,
        axis_events(m, value, held, false)[0].code == m.setup.code,
        trigger_after(m, value, held, false) == held,
        axis_events(m, value, held, true)[0] == axis_events(m, value, held, false)[0],
        axis_events(m, value, held, true).len() == 1 || axis_events(m, value, held, true).len() == 2,
        axis_events(m, value, held, true).len() == 2 ==> {
            &&& m.digitrigger_button is Some
            &&& axis_events(m, value, held, true)[1].event_type == EV_KEY
            &&& axis_events(m, value, held, true)[1].code == m.digitrigger_button->0
            &&& trigger_after(m, value, held, true) != held
            &&& axis_events(m, value, held, true)[1].value == (if trigger_after(m, value, held, true) { 1i32 } else { 0i32 })
        },
        axis_events(m, value, held, true).len() == 1 ==> trigger_after(m, value, held, true) == held,
{
}

/// An axis value always lies within the clamp range of its binding.
pub proof fn lemma_scaled_axis_within_clamp(m: ParsedAxisBinding, value: i16)
    requires
        m.clamp_out[0] <= m.clamp_out[1],
    ensures
        m.clamp_out[0] <= scaled_axis_value(m, value) <= m.clamp_out[1],
{
}

/// The centre of the input range maps to the centre of the output range
/// (clamped to the clamp range).
pub proof fn lemma_center_maps_to_out_off(m: ParsedAxisBinding)
    requires
        fits_i16(m.in_off as int),
    ensures
        scaled_axis_value(m, m.in_off as i16) == clamp(m.out_off as int, m.clamp_out[0] as int, m.clamp_out[1] as int),
{
}

/// Whether an integer fits in `i16`.
pub open spec fn fits_i16(x: int) -> bool {
    i16::MIN <= x <= i16::MAX
}

proof fn lemma_trunc_div_monotone(a: int, b: int, q: int)
    requires
        a <= b,
        q >= 1,
    ensures
        trunc_div(a, q) <= trunc_div(b, q),
{
    if a >= 0 {
        vstd::arithmetic::div_mod::lemma_div_is_ordered(a, b, q);
    } else if b >= 0 {
        vstd::arithmetic::div_mod::lemma_div_pos_is_pos(-a, q);
        vstd::arithmetic::div_mod::lemma_div_pos_is_pos(b, q);
    } else {
        vstd::arithmetic::div_mod::lemma_div_is_ordered(-b, -a, q);
    }
}

proof fn lemma_scaled_part_monotone(m: ParsedAxisBinding, x1: int, x2: int)
    requires
        m.wf(),
        m.neg_fraction[0] >= 0,
        m.pos_fraction[0] >= 0,
        x1 <= x2,
    ensures
        ({
            let s1 = if x1 > 0 {
                trunc_div(x1 * m.pos_fraction[0] as int, m.pos_fraction[1] as int)
            } else if x1 < 0 {
                trunc_div(x1 * m.neg_fraction[0] as int, m.neg_fraction[1] as int)
            } else {
                0
            };
            let s2 = if x2 > 0 {
                trunc_div(x2 * m.pos_fraction[0] as int, m.pos_fraction[1] as int)
            } else if x2 < 0 {
                trunc_div(x2 * m.neg_fraction[0] as int, m.neg_fraction[1] as int)
            } else {
                0
            };
            s1 <= s2
        }),
{
    let p = m.pos_fraction[0] as int;
    let pq = m.pos_fraction[1] as int;
    let n = m.neg_fraction[0] as int;
    let nq = m.neg_fraction[1] as int;
    if x1 > 0 {
        assert(x1 * p <= x2 * p) by (nonlinear_arith)
            requires
                x1 <= x2,
                p >= 0,
        ;
        lemma_trunc_div_monotone(x1 * p, x2 * p, pq);
    } else if x1 < 0 {
        assert(x1 * n <= 0) by (nonlinear_arith)
            requires
                x1 < 0,
                n >= 0,
        ;
        lemma_trunc_div_monotone(x1 * n, 0, nq);
        if x2 > 0 {
            assert(x2 * p >= 0) by (nonlinear_arith)
                requires
                    x2 > 0,
                    p >= 0,
            ;
            lemma_trunc_div_monotone(0, x2 * p, pq);
        } else if x2 < 0 {
            assert(x1 * n <= x2 * n) by (nonlinear_arith)
                requires
                    x1 <= x2,
                    n >= 0,
            ;
            lemma_trunc_div_monotone(x1 * n, x2 * n, nq);
        }
    } else {
        if x2 > 0 {
            assert(x2 * p >= 0) by (nonlinear_arith)
                requires
                    x2 > 0,
                    p >= 0,
            ;
            lemma_trunc_div_monotone(0, x2 * p, pq);
        }
    }
}

proof fn lemma_trunc_div_cancel(x: int, k: int)
    requires
        x > 0,
    ensures
        trunc_div(x * k, x) == k,
{
    vstd::arithmetic::div_mod::lemma_div_multiples_vanish(k, x);
    vstd::arithmetic::div_mod::lemma_div_multiples_vanish(-k, x);
    assert(x * k == k * x) by (nonlinear_arith);
    assert(-(x * k) == x * (-k)) by (nonlinear_arith);
    if k >= 0 {
        assert(x * k >= 0) by (nonlinear_arith)
            requires
                x > 0,
                k >= 0,
        ;
    } else {
        assert(x * k < 0) by (nonlinear_arith)
            requires
                x > 0,
                k < 0,
        ;
    }
}

/// An accepted axis mapping carries its input range onto its target range: the
/// low end, the centre and the high end of the input range give the low end,
/// the centre and the high end of the target range, each kept within the clamp
/// range (an end that coincides with the centre gives the centre).
pub proof fn lemma_input_range_maps_to_target_range(
    cfg: AxisMappingEnum,
    sg: SimulateGamepad,
    absolute: bool,
    default_thresh: [FractionThreshold; 2],
)
    requires
        spec_parse_axis_binding(cfg, sg, absolute, default_thresh) is Ok,
    ensures
        ({
            let b = spec_parse_axis_binding(cfg, sg, absolute, default_thresh)->Ok_0;
            let from = spec_input_range(cfg.spec_mapping(), absolute);
            let to = spec_target_range(cfg.spec_mapping(), absolute);
            &&& fits_i16(from[1] as int) ==> scaled_axis_value(b, from[1] as i16) == clamp(
                to[1] as int,
                b.clamp_out[0] as int,
                b.clamp_out[1] as int,
            )
            &&& fits_i16(from[0] as int) && from[0] < from[1] ==> scaled_axis_value(b, from[0] as i16) == clamp(
                to[0] as int,
                b.clamp_out[0] as int,
                b.clamp_out[1] as int,
            )
            &&& fits_i16(from[2] as int) && from[1] < from[2] ==> scaled_axis_value(b, from[2] as i16) == clamp(
                to[2] as int,
                b.clamp_out[0] as int,
                b.clamp_out[1] as int,
            )
        }),
{
    let b = spec_parse_axis_binding(cfg, sg, absolute, default_thresh)->Ok_0;
    let from = spec_input_range(cfg.spec_mapping(), absolute);
    let to = spec_target_range(cfg.spec_mapping(), absolute);
    let (ia, ib, ic) = (from[0] as int, from[1] as int, from[2] as int);
    let (oa, ob, oc) = (to[0] as int, to[1] as int, to[2] as int);
    assert(b.in_off == ib && b.out_off == ob);
    assert(b.neg_fraction[0] == ob - oa && b.pos_fraction[0] == oc - ob);
    if ia < ib {
        assert(b.neg_fraction[1] == ib - ia);
        lemma_trunc_div_cancel(ib - ia, -(ob - oa));
        assert((ia - ib) * (ob - oa) == (ib - ia) * (-(ob - oa))) by (nonlinear_arith);
    }
    if ib < ic {
        assert(b.pos_fraction[1] == ic - ib);
        lemma_trunc_div_cancel(ic - ib, oc - ob);
    }
}

/// With non-negative fractions (an increasing target range), a larger input
/// never gives a smaller output.
pub proof fn lemma_scaled_axis_monotone(m: ParsedAxisBinding, v1: i16, v2: i16)
    requires
        m.wf(),
        m.neg_fraction[0] >= 0,
        m.pos_fraction[0] >= 0,
        m.clamp_out[0] <= m.clamp_out[1],
        v1 <= v2,
    ensures
        scaled_axis_value(m, v1) <= scaled_axis_value(m, v2),
{
    lemma_scaled_part_monotone(m, v1 as int - m.in_off as int, v2 as int - m.in_off as int);
}

/// A digital trigger has hysteresis: an input that presses it also keeps it
/// held, and an input that releases a held trigger would not press a released one.
pub proof fn lemma_trigger_hysteresis(x: int, press: i32, release: i32)
    requires
        crate::parsed_config::thresholds_valid(press as int, release as int),
    ensures
        trigger_down(false, x, press as int, release as int) ==> trigger_down(true, x, press as int, release as int),
        !trigger_down(true, x, press as int, release as int) ==> !trigger_down(false, x, press as int, release as int),
        press != 0 ==> !trigger_down(false, 0, press as int, release as int) && !trigger_down(true, 0, press as int, release as int),
{
}

/// The output value of an axis, as `scaled_axis_value` states it.
pub fn scale_axis(m: &ParsedAxisBinding, value: i16) -> (r: i32)
    requires
        m.wf(),
        m.clamp_out[0] <= m.clamp_out[1],
    ensures
        r as int == scaled_axis_value(*m, value),
{
    let x: i64 = value as i64 - m.in_off;
    let mut scaled: i64 = x;
    if x > 0 {
        assert(x * m.pos_fraction[0] <= 0x8000_8000i64 * 0x8000_0000i64 && x * m.pos_fraction[0] >= -0x8000_8000i64 * 0x8000_0000i64) by (nonlinear_arith)
            requires
                0 < x <= 0x8000_8000i64,
                -0x8000_0000i64 <= m.pos_fraction[0] <= 0x7fff_ffffi64,
        ;
        scaled = x * m.pos_fraction[0] / m.pos_fraction[1];
        assert(-0x8000_8000i64 * 0x8000_0000i64 <= scaled <= 0x8000_8000i64 * 0x8000_0000i64) by (nonlinear_arith)
            requires
                -0x8000_8000i64 * 0x8000_0000i64 <= x * m.pos_fraction[0] <= 0x8000_8000i64 * 0x8000_0000i64,
                m.pos_fraction[1] >= 1,
                scaled == trunc_div(x * m.pos_fraction[0], m.pos_fraction[1] as int),
        ;
    } else if x < 0 {
        assert(x * m.neg_fraction[0] <= 0x8000_8000i64 * 0x8000_0000i64 && x * m.neg_fraction[0] >= -0x8000_8000i64 * 0x8000_0000i64) by (nonlinear_arith)
            requires
                -0x8000_8000i64 <= x < 0,
                -0x8000_0000i64 <= m.neg_fraction[0] <= 0x7fff_ffffi64,
        ;
        scaled = x * m.neg_fraction[0] / m.neg_fraction[1];
        assert(-0x8000_8000i64 * 0x8000_0000i64 <= scaled <= 0x8000_8000i64 * 0x8000_0000i64) by (nonlinear_arith)
            requires
                -0x8000_8000i64 * 0x8000_0000i64 <= x * m.neg_fraction[0] <= 0x8000_8000i64 * 0x8000_0000i64,
                m.neg_fraction[1] >= 1,
                scaled == trunc_div(x * m.neg_fraction[0], m.neg_fraction[1] as int),
        ;
    }
    let shifted = scaled + m.out_off;
    let lo = m.clamp_out[0] as i64;
    let hi = m.clamp_out[1] as i64;
    let c = if shifted < lo {
        lo
    } else if shifted > hi {
        hi
    } else {
        shifted
    };
    c as i32
}

/// Whether the digital trigger is down, as `trigger_down` states it.
fn trigger_down_exec(held: bool, x: i64, press: i32, release: i32) -> (r: bool)
    requires
        -0x1_0000_0000i64 <= x <= 0x1_0000_0000i64,
    ensures
        r == trigger_down(held, x as int, press as int, release as int),
{
    let p = press as i64;
    let rl = release as i64;
    let xs: i64 = if x > 0 { 1 } else if x < 0 { -1 } else { 0 };
    let ps: i64 = if p > 0 { 1 } else if p < 0 { -1 } else { 0 };
    let ax = if x < 0 { -x } else { x };
    let limit = if held { abs_i64(rl) } else { abs_i64(p) };
    xs == ps && ax >= limit
}

impl LoopState {
    /// The state before any gamepad: nothing open, the d-pad at rest.
    pub fn new() -> (s: LoopState)
        ensures
            !s.exit,
            s.input is None,
            s.output is None,
            s.motion_output is None,
            s.tick == 0,
            s.last_power_check == 0,
            s.last_power_info is None,
            s.tracker@ == (crate::button_tracker::ButtonTrackerView {
                dpad_l: false,
                dpad_r: false,
                dpad_u: false,
                dpad_d: false,
                hatx: 0,
                haty: 0,
                dirty_hatx: false,
                dirty_haty: false,
            }),
            s.tracker@.hat_matches_dpad(),
    {
        LoopState {
            exit: false,
            input: None,
            output: None,
            motion_output: None,
            tracker: ButtonTracker::default(),
            tick: 0,
            last_power_check: 0,
            last_power_info: None,
        }
    }

    /// Whether events from joystick `which` are turned into output: it is the
    /// open gamepad and the virtual gamepad exists.
    pub open spec fn listens_to(self, which: u32) -> bool {
        &&& self.input matches Some((id, _))
        &&& id == which
        &&& self.output is Some
    }

    fn lookup_button(pcfg: &ParsedConfig, button: i32) -> (r: Option<u16>)
        ensures
            r == button_code(pcfg@, button),
    {
        if button < 0 || button as usize >= pcfg.button_lut.len() {
            return None;
        }
        let c = pcfg.button_lut[button as usize];
        if c == u16::MAX {
            None
        } else {
            Some(c)
        }
    }

    fn process_button(&mut self, pcfg: &ParsedConfig, which: u32, button: i32, down: bool)
        ensures
            final(self).exit == old(self).exit,
            final(self).input == old(self).input,
            final(self).motion_output == old(self).motion_output,
            final(self).tick == old(self).tick,
            final(self).last_power_check == old(self).last_power_check,
            final(self).last_power_info == old(self).last_power_info,
            !old(self).listens_to(which) ==> final(self).output == old(self).output && final(self).tracker@ == old(self).tracker@,
            old(self).listens_to(which) ==> {
                &&& final(self).output matches Some(o)
                &&& o.queue@ == old(self).output->0.queue@ + button_events(*old(self), pcfg@, button, down)
                &&& o.ff_gain == old(self).output->0.ff_gain
                &&& o.ff_slot == old(self).output->0.ff_slot
                &&& o.digitrigger_state == old(self).output->0.digitrigger_state
                &&& final(self).tracker@ == (match pcfg@.dpad_to_hat_axis {
                    Some(_) => old(self).tracker@.after_button(button, down).submitted(),
                    None => old(self).tracker@,
                })
            },
    {
        let active = match &self.input {
            Some((id, _)) => *id == which && self.output.is_some(),
            None => false,
        };
        if !active {
            return;
        }
        let mut out = match self.output.take() {
            Some(o) => o,
            None => {
                return;
            },
        };
        let ghost q0 = out.queue@;
        let mapping = Self::lookup_button(pcfg, button);
        match mapping {
            Some(m) => {
                out.queue.push(EvdevEvent::new(EV_KEY, m, if down { 1 } else { 0 }));
            },
            None => {},
        }
        let ghost q1 = out.queue@;
        match pcfg.dpad_to_hat_axis {
            Some(axes) => {
                self.tracker.track(button, down);
                self.tracker.submit_to_evdev(&mut out.queue, axes);
            },
            None => {},
        }
        proof {
            assert(out.queue@ =~= q0 + button_events(*old(self), pcfg@, button, down));
        }
        self.output = Some(out);
    }

    fn process_hat(&mut self, pcfg: &ParsedConfig, which: u32, hat_idx: u8, state: HatState)
        ensures
            final(self).exit == old(self).exit,
            final(self).input == old(self).input,
            final(self).motion_output == old(self).motion_output,
            final(self).tracker@ == old(self).tracker@,
            final(self).tick == old(self).tick,
            final(self).last_power_check == old(self).last_power_check,
            final(self).last_power_info == old(self).last_power_info,
            !old(self).listens_to(which) ==> final(self).output == old(self).output,
            old(self).listens_to(which) ==> {
                &&& final(self).output matches Some(o)
                &&& o.queue@ == old(self).output->0.queue@ + (match table_entry(pcfg.hat_lut@, hat_idx as int) {
                    Some(Some(m)) => seq![
                        EvdevEvent { event_type: EV_ABS, code: m[0], value: hat_offsets(state)[0] },
                        EvdevEvent { event_type: EV_ABS, code: m[1], value: hat_offsets(state)[1] },
                    ],
                    _ => Seq::empty(),
                })
                &&& o.ff_gain == old(self).output->0.ff_gain
                &&& o.ff_slot == old(self).output->0.ff_slot
                &&& o.digitrigger_state == old(self).output->0.digitrigger_state
            },
    {
        let active = match &self.input {
            Some((id, _)) => *id == which && self.output.is_some(),
            None => false,
        };
        if !active {
            return;
        }
        let mut out = match self.output.take() {
            Some(o) => o,
            None => {
                return;
            },
        };
        let ghost q0 = out.queue@;
        if (hat_idx as usize) < pcfg.hat_lut.len() {
            match pcfg.hat_lut[hat_idx as usize] {
                Some(m) => {
                    let axes = hat_offsets_exec(state);
                    out.queue.push(EvdevEvent::new(EV_ABS, m[0], axes[0]));
                    out.queue.push(EvdevEvent::new(EV_ABS, m[1], axes[1]));
                },
                None => {},
            }
        }
        proof {
            assert(out.queue@ =~= q0 + (match table_entry(pcfg.hat_lut@, hat_idx as int) {
                Some(Some(m)) => seq![
                    EvdevEvent { event_type: EV_ABS, code: m[0], value: hat_offsets(state)[0] },
                    EvdevEvent { event_type: EV_ABS, code: m[1], value: hat_offsets(state)[1] },
                ],
                _ => Seq::empty(),
            }));
        }
        self.output = Some(out);
    }

    /// The digital trigger state of an axis, where the virtual gamepad has one.
    pub open spec fn trigger_state_of(self, axis: i32) -> Option<bool> {
        match self.output {
            Some(o) => table_entry(o.digitrigger_state@, axis as int),
            None => None,
        }
    }

    /// The instance id of the open gamepad.
    pub open spec fn open_id(self) -> u32 {
        match self.input {
            Some((id, _)) => id,
            None => 0,
        }
    }

    /// The stick groups of the open gamepad.
    pub open spec fn open_calib(self) -> CalibrationState {
        match self.input {
            Some((_, c)) => c,
            None => arbitrary(),
        }
    }

    /// Whether the binding of a moved axis belongs to a stick group that takes
    /// the value.
    pub open spec fn grouped(self, m: ParsedAxisBinding) -> bool {
        &&& m.axisgroup matches Some((gi, _))
        &&& self.open_calib().accepts(gi as int)
    }

    fn process_axis(&mut self, cfg: &Config, pcfg: &ParsedConfig, which: u32, axis: i32, value: i16) -> (a: EventAction)
        requires
            pcfg@.wf(),
        ensures
            final(self).exit == old(self).exit,
            final(self).motion_output == old(self).motion_output,
            final(self).tracker@ == old(self).tracker@,
            final(self).tick == old(self).tick,
            final(self).last_power_check == old(self).last_power_check,
            final(self).last_power_info == old(self).last_power_info,
            ({
                let m = axis_binding_of(pcfg@, axis);
                let held = old(self).trigger_state_of(axis);
                if !(old(self).listens_to(which) && m is Some && held is Some) {
                    &&& a == EventAction::Nothing
                    &&& final(self).input == old(self).input
                    &&& final(self).output == old(self).output
                } else {
                    let m = m->0;
                    let held = held->0;
                    let o = old(self).output->0;
                    if old(self).grouped(m) {
                        let (gi, dim) = m.axisgroup->0;
                        let g = old(self).open_calib().states@[gi as int];
                        &&& a == EventAction::Nothing
                        &&& final(self).output == old(self).output
                        &&& final(self).input matches Some((id, c))
                        &&& id == old(self).open_id()
                        &&& c.states@ == old(self).open_calib().states@.update(
                            gi as int,
                            crate::calibration::AxisGroup { current: with_dim(g.current, dim, value), dirty: true, ..g },
                        )
                    } else if !(m.clamp_out[0] <= m.clamp_out[1]) {
                        &&& a == EventAction::ClampRangeInvalid
                        &&& final(self).input == old(self).input
                        &&& final(self).output == old(self).output
                    } else {
                        let trig = cfg.behavior.simulate_digital_trigger;
                        &&& a == EventAction::Nothing
                        &&& final(self).input == old(self).input
                        &&& final(self).output matches Some(n)
                        &&& n.queue@ == o.queue@ + axis_events(m, value, held, trig)
                        &&& n.digitrigger_state@ == o.digitrigger_state@.update(axis as int, trigger_after(m, value, held, trig))
                        &&& n.ff_gain == o.ff_gain
                        &&& n.ff_slot == o.ff_slot
                    }
                }
            }),
    {
        let active = match &self.input {
            Some((id, _)) => *id == which && self.output.is_some(),
            None => false,
        };
        if !active || axis < 0 || axis as usize >= pcfg.axis_lut.len() {
            return EventAction::Nothing;
        }
        let m = match pcfg.axis_lut[axis as usize] {
            Some(m) => m,
            None => {
                return EventAction::Nothing;
            },
        };
        let has_state = match &self.output {
            Some(o) => (axis as usize) < o.digitrigger_state.len(),
            None => false,
        };
        if !has_state {
            return EventAction::Nothing;
        }
        proof {
            assert(pcfg@.axis_lut[axis as int] == crate::fold::assoc_get(pcfg@.axis_bindings, axis));
            if crate::fold::has_key(pcfg@.axis_bindings, axis) {
                let k = crate::fold::key_index(pcfg@.axis_bindings, axis);
                assert(pcfg@.axis_bindings[k].1.wf());
            }
        }
        match m.axisgroup {
            Some((gi, dim)) => {
                let (id, mut calib) = match self.input.take() {
                    Some(i) => i,
                    None => {
                        return EventAction::Nothing;
                    },
                };
                let taken = calib.set_axis(value, gi, dim);
                self.input = Some((id, calib));
                if taken {
                    return EventAction::Nothing;
                }
            },
            None => {},
        }
        if !(m.clamp_out[0] <= m.clamp_out[1]) {
            return EventAction::ClampRangeInvalid;
        }
        let mut out = match self.output.take() {
            Some(o) => o,
            None => {
                return EventAction::Nothing;
            },
        };
        let ghost q0 = out.queue@;
        let ghost d0 = out.digitrigger_state@;
        let in_offsetted: i64 = value as i64 - m.in_off;
        let scaled = scale_axis(&m, value);
        out.queue.push(EvdevEvent::new(EV_ABS, m.setup.code, scaled));
        let held = out.digitrigger_state[axis as usize];
        if cfg.behavior.simulate_digital_trigger && m.digitrigger_thresh[0] != 0 {
            match m.digitrigger_button {
                Some(code) => {
                    let down = trigger_down_exec(held, in_offsetted, m.digitrigger_thresh[0], m.digitrigger_thresh[1]);
                    if held != down {
                        out.queue.push(EvdevEvent::new(EV_KEY, code, if down { 1 } else { 0 }));
                        out.digitrigger_state.set(axis as usize, down);
                    }
                },
                None => {},
            }
        }
        proof {
            let trig = cfg.behavior.simulate_digital_trigger;
            assert(out.queue@ =~= q0 + axis_events(m, value, held, trig));
            assert(out.digitrigger_state@ =~= d0.update(axis as int, trigger_after(m, value, held, trig)));
        }
        self.output = Some(out);
        EventAction::Nothing
    }

    /// Handles one gamepad event.
    ///
    /// A button or axis event from the open gamepad, while the virtual gamepad
    /// exists, produces output: a bound button its output key, and, where the
    /// d-pad drives a hat, the changed hat axes; an axis of a processing stick
    /// group only records its value, any other bound axis its scaled value and,
    /// with simulated digital triggers, the change of its trigger button; a hat
    /// its two axes, where the hat table binds it. A new gamepad asks to be
    /// opened; the removal of the open gamepad closes it and both virtual
    /// devices, handing out what they still had queued; quitting sets the exit flag.
    pub fn process_event(&mut self, cfg: &Config, pcfg: &ParsedConfig, event: GamepadEvent) -> (a: EventAction)
        requires
            pcfg@.wf(),
        ensures
            !(event is DeviceRemoved) ==> final(self).motion_output == old(self).motion_output,
            final(self).tick == old(self).tick,
            final(self).last_power_check == old(self).last_power_check,
            final(self).last_power_info == old(self).last_power_info,
            match event {
                GamepadEvent::ButtonDown { which, button } | GamepadEvent::ButtonUp { which, button } => {
                    let down = event is ButtonDown;
                    &&& a == EventAction::Nothing
                    &&& final(self).exit == old(self).exit
                    &&& final(self).input == old(self).input
                    &&& !old(self).listens_to(which) ==> final(self).output == old(self).output
                        && final(self).tracker@ == old(self).tracker@
                    &&& old(self).listens_to(which) ==> {
                        &&& final(self).output matches Some(o)
                        &&& o.queue@ == old(self).output->0.queue@ + button_events(*old(self), pcfg@, button, down)
                        &&& o.ff_gain == old(self).output->0.ff_gain
                        &&& o.ff_slot == old(self).output->0.ff_slot
                        &&& o.digitrigger_state == old(self).output->0.digitrigger_state
                        &&& final(self).tracker@ == (match pcfg@.dpad_to_hat_axis {
                            Some(_) => old(self).tracker@.after_button(button, down).submitted(),
                            None => old(self).tracker@,
                        })
                    }
                },
                GamepadEvent::AxisMotion { which, axis, value } => {
                    let m = axis_binding_of(pcfg@, axis);
                    let held = old(self).trigger_state_of(axis);
                    &&& final(self).exit == old(self).exit
                    &&& final(self).tracker@ == old(self).tracker@
                    &&& if !(old(self).listens_to(which) && m is Some && held is Some) {
                        &&& a == EventAction::Nothing
                        &&& final(self).input == old(self).input
                        &&& final(self).output == old(self).output
                    } else {
                        let m = m->0;
                        let held = held->0;
                        let o = old(self).output->0;
                        if old(self).grouped(m) {
                            let (gi, dim) = m.axisgroup->0;
                            let g = old(self).open_calib().states@[gi as int];
                            &&& a == EventAction::Nothing
                            &&& final(self).output == old(self).output
                            &&& final(self).input matches Some((id, c))
                            &&& id == old(self).open_id()
                            &&& c.states@ == old(self).open_calib().states@.update(
                                gi as int,
                                crate::calibration::AxisGroup { current: with_dim(g.current, dim, value), dirty: true, ..g },
                            )
                        } else if !(m.clamp_out[0] <= m.clamp_out[1]) {
                            &&& a == EventAction::ClampRangeInvalid
                            &&& final(self).input == old(self).input
                            &&& final(self).output == old(self).output
                        } else {
                            let trig = cfg.behavior.simulate_digital_trigger;
                            &&& a == EventAction::Nothing
                            &&& final(self).input == old(self).input
                            &&& final(self).output matches Some(n)
                            &&& n.queue@ == o.queue@ + axis_events(m, value, held, trig)
                            &&& n.digitrigger_state@ == o.digitrigger_state@.update(axis as int, trigger_after(m, value, held, trig))
                            &&& n.ff_gain == o.ff_gain
                            &&& n.ff_slot == o.ff_slot
                        }
                    }
                },
                GamepadEvent::HatMotion { which, hat_idx, state } => {
                    &&& a == EventAction::Nothing
                    &&& final(self).exit == old(self).exit
                    &&& final(self).input == old(self).input
                    &&& final(self).tracker@ == old(self).tracker@
                    &&& !old(self).listens_to(which) ==> final(self).output == old(self).output
                    &&& old(self).listens_to(which) ==> {
                        &&& final(self).output matches Some(o)
                        &&& o.queue@ == old(self).output->0.queue@ + (match table_entry(pcfg.hat_lut@, hat_idx as int) {
                            Some(Some(m)) => seq![
                                EvdevEvent { event_type: EV_ABS, code: m[0], value: hat_offsets(state)[0] },
                                EvdevEvent { event_type: EV_ABS, code: m[1], value: hat_offsets(state)[1] },
                            ],
                            _ => Seq::empty(),
                        })
                        &&& o.ff_gain == old(self).output->0.ff_gain
                        &&& o.ff_slot == old(self).output->0.ff_slot
                        &&& o.digitrigger_state == old(self).output->0.digitrigger_state
                    }
                },
                GamepadEvent::DeviceAdded { which } => {
                    &&& a == EventAction::AddController(which)
                    &&& final(self).exit == old(self).exit
                    &&& final(self).input == old(self).input
                    &&& final(self).output == old(self).output
                    &&& final(self).tracker@ == old(self).tracker@
                },
                GamepadEvent::DeviceRemoved { which } => {
                    let open = old(self).input matches Some((id, _)) && id == which;
                    &&& final(self).exit == old(self).exit
                    &&& final(self).tracker@ == old(self).tracker@
                    &&& if open {
                        &&& a matches EventAction::Disconnected { pending, motion_pending }
                            && pending@ == pending_of(old(self).output)
                            && motion_pending@ == motion_pending_of(old(self).motion_output)
                        &&& final(self).input is None
                        &&& final(self).output is None
                        &&& final(self).motion_output is None
                    } else {
                        &&& a == EventAction::Nothing
                        &&& final(self).input == old(self).input
                        &&& final(self).output == old(self).output
                        &&& final(self).motion_output == old(self).motion_output
                    }
                },
                GamepadEvent::Quit => {
                    &&& a == EventAction::Quit
                    &&& final(self).exit
                    &&& final(self).input == old(self).input
                    &&& final(self).output == old(self).output
                    &&& final(self).tracker@ == old(self).tracker@
                },
                GamepadEvent::Other => {
                    &&& a == EventAction::Nothing
                    &&& final(self).exit == old(self).exit
                    &&& final(self).input == old(self).input
                    &&& final(self).output == old(self).output
                    &&& final(self).tracker@ == old(self).tracker@
                },
            },
    {
        match event {
            GamepadEvent::ButtonDown { which, button } => {
                self.process_button(pcfg, which, button, true);
                EventAction::Nothing
            },
            GamepadEvent::ButtonUp { which, button } => {
                self.process_button(pcfg, which, button, false);
                EventAction::Nothing
            },
            GamepadEvent::AxisMotion { which, axis, value } => self.process_axis(cfg, pcfg, which, axis, value),
            GamepadEvent::HatMotion { which, hat_idx, state } => {
                self.process_hat(pcfg, which, hat_idx, state);
                EventAction::Nothing
            },
            GamepadEvent::DeviceAdded { which } => EventAction::AddController(which),
            GamepadEvent::DeviceRemoved { which } => {
                let open = match &self.input {
                    Some((id, _)) => *id == which,
                    None => false,
                };
                if open {
                    self.input = None;
                    let pending = match self.output.take() {
                        Some(o) => o.queue,
                        None => Vec::new(),
                    };
                    let motion_pending = match self.motion_output.take() {
                        Some(m) => m.queue,
                        None => Vec::new(),
                    };
                    EventAction::Disconnected { pending, motion_pending }
                } else {
                    EventAction::Nothing
                }
            },
            GamepadEvent::Quit => {
                self.exit = true;
                EventAction::Quit
            },
            GamepadEvent::Other => EventAction::Nothing,
        }
    }
}

// ---------------------------------------------------------------------------
// motion sensors

/// A motion sensor whose readings the motion device passes on.
#[derive(Debug, Clone, Copy, PartialEq, Eq)]
pub enum MotionSensor {
    Accelerometer,
    Gyroscope,
}

/// The output axes of a sensor: `ABS_X`, `ABS_Y`, `ABS_Z` for the accelerometer,
/// `ABS_RX`, `ABS_RY`, `ABS_RZ` for the gyroscope.
pub open spec fn sensor_codes(sensor: MotionSensor) -> [u16; 3] {
    match sensor {
        MotionSensor::Accelerometer => [0x00u16, 0x01u16, 0x02u16],
        MotionSensor::Gyroscope => [0x03u16, 0x04u16, 0x05u16],
    }
}

/// The output range of a sensor.
pub open spec fn sensor_info(g: ParsedGyroConfig, sensor: MotionSensor) -> AbsInfo {
    match sensor {
        MotionSensor::Accelerometer => g.accel_info,
        MotionSensor::Gyroscope => g.gyro_info,
    }
}

/// The events of one sensor reading: each scaled value clamped to the sensor's
/// output range, on its output axis.
pub open spec fn sensor_events(info: AbsInfo, codes: [u16; 3], scaled: [i32; 3]) -> Seq<EvdevEvent> {
    seq![
        EvdevEvent { event_type: EV_ABS, code: codes[0], value: clamp(scaled[0] as int, info.minimum as int, info.maximum as int) as i32 },
        EvdevEvent { event_type: EV_ABS, code: codes[1], value: clamp(scaled[1] as int, info.minimum as int, info.maximum as int) as i32 },
        EvdevEvent { event_type: EV_ABS, code: codes[2], value: clamp(scaled[2] as int, info.minimum as int, info.maximum as int) as i32 },
    ]
}

impl LoopState {
    /// Whether a sensor reading from joystick `which` reaches the motion device:
    /// it comes from the open gamepad, the motion device exists and the preset
    /// configures one.
    pub open spec fn takes_sensor(self, pcfg: ParsedConfigView, which: u32) -> bool {
        &&& self.input matches Some((id, _))
        &&& id == which
        &&& self.motion_output is Some
        &&& pcfg.parsed_gyro is Some
    }

    /// Passes one motion sensor reading, already scaled to integers, to the
    /// motion device: the three values, clamped to the sensor's output range,
    /// on the sensor's three output axes. Readings from any other joystick, or
    /// without a motion device, are dropped. Reports `ClampRangeInvalid`, and
    /// changes nothing, where the output range is not in order.
    pub fn process_sensor(&mut self, pcfg: &ParsedConfig, which: u32, sensor: MotionSensor, scaled: [i32; 3]) -> (a: EventAction)
        ensures
            final(self).exit == old(self).exit,
            final(self).input == old(self).input,
            final(self).output == old(self).output,
            final(self).tracker@ == old(self).tracker@,
            final(self).tick == old(self).tick,
            final(self).last_power_check == old(self).last_power_check,
            final(self).last_power_info == old(self).last_power_info,
            ({
                if !old(self).takes_sensor(pcfg@, which) {
                    a == EventAction::Nothing && final(self).motion_output == old(self).motion_output
                } else {
                    let info = sensor_info(pcfg@.parsed_gyro->0, sensor);
                    if info.minimum > info.maximum {
                        a == EventAction::ClampRangeInvalid && final(self).motion_output == old(self).motion_output
                    } else {
                        &&& a == EventAction::Nothing
                        &&& final(self).motion_output matches Some(m)
                        &&& m.queue@ == old(self).motion_output->0.queue@ + sensor_events(info, sensor_codes(sensor), scaled)
                    }
                }
            }),
    {
        let open = match &self.input {
            Some((id, _)) => *id == which,
            None => false,
        };
        if !open || self.motion_output.is_none() {
            return EventAction::Nothing;
        }
        let g = match pcfg.parsed_gyro {
            Some(g) => g,
            None => {
                return EventAction::Nothing;
            },
        };
        let (info, codes): (AbsInfo, [u16; 3]) = match sensor {
            MotionSensor::Accelerometer => (g.accel_info, [0x00, 0x01, 0x02]),
            MotionSensor::Gyroscope => (g.gyro_info, [0x03, 0x04, 0x05]),
        };
        if info.minimum > info.maximum {
            return EventAction::ClampRangeInvalid;
        }
        let mut m = match self.motion_output.take() {
            Some(m) => m,
            None => {
                return EventAction::Nothing;
            },
        };
        let ghost q0 = m.queue@;
        m.queue.push(EvdevEvent::new(EV_ABS, codes[0], clamp_i32(scaled[0], info.minimum, info.maximum)));
        m.queue.push(EvdevEvent::new(EV_ABS, codes[1], clamp_i32(scaled[1], info.minimum, info.maximum)));
        m.queue.push(EvdevEvent::new(EV_ABS, codes[2], clamp_i32(scaled[2], info.minimum, info.maximum)));
        proof {
            assert(m.queue@ =~= q0 + sensor_events(info, sensor_codes(sensor), scaled));
        }
        self.motion_output = Some(m);
        EventAction::Nothing
    }
}

// ---------------------------------------------------------------------------
// choosing the gamepad to open

/// Some pattern of the filter contains `s`.
pub open spec fn some_pattern_contains(filter: Seq<String>, s: Seq<char>) -> bool {
    exists|i: int| 0 <= i < filter.len() && seq_contains_str((#[trigger] filter[i])@, s)
}

/// `s` contains some pattern of the filter.
pub open spec fn contains_some_pattern(filter: Seq<String>, s: Seq<char>) -> bool {
    exists|i: int| 0 <= i < filter.len() && seq_contains_str(s, (#[trigger] filter[i])@)
}

fn any_pattern_contains(filter: &[String], s: &str) -> (r: bool)
    ensures
        r == some_pattern_contains(filter@, s@),
{
    let mut i: usize = 0;
    while i < filter.len()
        invariant
            i <= filter@.len(),
            forall|j: int| 0 <= j < i ==> !seq_contains_str((#[trigger] filter@[j])@, s@),
        decreases filter@.len() - i,
    {
        if str_contains(filter[i].as_str(), s) {
            return true;
        }
        i = i + 1;
    }
    false
}

fn contains_any_pattern(filter: &[String], s: &str) -> (r: bool)
    ensures
        r == contains_some_pattern(filter@, s@),
{
    let mut i: usize = 0;
    while i < filter.len()
        invariant
            i <= filter@.len(),
            forall|j: int| 0 <= j < i ==> !seq_contains_str(s@, (#[trigger] filter@[j])@),
        decreases filter@.len() - i,
    {
        if str_contains(s, filter[i].as_str()) {
            return true;
        }
        i = i + 1;
    }
    false
}

/// A string filter on a value that may be unknown: an empty filter passes
/// anything; otherwise an unknown value cannot be checked (`None`) and a known
/// one passes where some pattern contains it.
pub open spec fn spec_check_str(filter: Seq<String>, check: Option<String>) -> Option<bool> {
    if filter.len() != 0 {
        match check {
            None => None,
            Some(c) => Some(some_pattern_contains(filter, c@)),
        }
    } else {
        Some(true)
    }
}

/// Applies a string filter to a value that may be unknown.
pub fn check_str(filter: &StringFilter, check: &Option<String>) -> (r: Option<bool>)
    ensures
        r == spec_check_str(filter.spec_slice(), *check),
{
    let f = filter.slice();
    if f.len() != 0 {
        match check {
            None => None,
            Some(c) => Some(any_pattern_contains(f, c.as_str())),
        }
    } else {
        Some(true)
    }
}

/// A numeric filter on a value that may be unknown: an empty filter passes
/// anything; otherwise an unknown value cannot be checked (`None`) and a known
/// one passes where the filter lists it.
pub open spec fn spec_check_num(filter: Seq<u16>, check: Option<u16>) -> Option<bool> {
    if filter.len() != 0 {
        match check {
            None => None,
            Some(c) => Some(filter.contains(c)),
        }
    } else {
        Some(true)
    }
}

fn slice_contains_u16(f: &[u16], x: u16) -> (r: bool)
    ensures
        r == f@.contains(x),
{
    let mut i: usize = 0;
    while i < f.len()
        invariant
            i <= f@.len(),
            forall|j: int| 0 <= j < i ==> f@[j] != x,
        decreases f@.len() - i,
    {
        if f[i] == x {
            assert(f@[i as int] == x);
            return true;
        }
        i = i + 1;
    }
    false
}

/// Applies a numeric filter to a value that may be unknown.
pub fn check_num(filter: &VendorProductIds, check: &Option<u16>) -> (r: Option<bool>)
    ensures
        r == spec_check_num(filter.spec_slice(), *check),
{
    let f = filter.slice();
    if f.len() != 0 {
        match check {
            None => None,
            Some(c) => Some(slice_contains_u16(f, *c)),
        }
    } else {
        Some(true)
    }
}

/// A string filter on a value whose query may have failed: an empty filter
/// passes anything; otherwise a failed query is an error (its message) and a
/// value passes where some pattern contains it.
pub open spec fn spec_check_str_result(filter: Seq<String>, check: Result<String, String>) -> Result<bool, String> {
    if filter.len() != 0 {
        match check {
            Err(e) => Err(e),
            Ok(c) => Ok(some_pattern_contains(filter, c@)),
        }
    } else {
        Ok(true)
    }
}

/// Applies a string filter to a value whose query may have failed.
pub fn check_str_result(filter: &StringFilter, check: &Result<String, String>) -> (r: Result<bool, String>)
    ensures
        r == spec_check_str_result(filter.spec_slice(), *check),
{
    let f = filter.slice();
    if f.len() != 0 {
        match check {
            Err(e) => Err(e.clone()),
            Ok(c) => Ok(any_pattern_contains(f, c.as_str())),
        }
    } else {
        Ok(true)
    }
}

/// What SDL reports of a gamepad before it is opened. A query that failed
/// holds SDL's error message.
#[derive(Debug)]
pub struct GamepadInfo {
    pub name: Result<String, String>,
    pub path: Result<String, String>,
    pub guid: String,
    pub vendor: Option<u16>,
    pub product: Option<u16>,
    pub version: Option<u16>,
}

/// Why a gamepad could not be checked against the filters.
#[derive(Debug, PartialEq, Eq)]
pub enum FilterError {
    QueryingName(String),
    QueryingPath(String),
    QueryingVendorId,
    QueryingProductId,
    QueryingProductVersion,
    QueryingSerial,
    QueryingFwVersion,
}

/// The verdict on a gamepad before opening it, checking in order: no gamepad
/// is open yet, then name, path, GUID (which must contain some pattern), vendor,
/// product and version. The first filter that rejects decides; a value that is
/// needed but unknown is an error.
pub open spec fn spec_accepts_gamepad(open: bool, cfg: InputGamepad, info: GamepadInfo) -> Result<bool, FilterError> {
    if open {
        Ok(false)
    } else {
        match spec_check_str_result(cfg.filter_name.spec_slice(), info.name) {
            Err(e) => Err(FilterError::QueryingName(e)),
            Ok(false) => Ok(false),
            Ok(true) => match spec_check_str_result(cfg.filter_path.spec_slice(), info.path) {
                Err(e) => Err(FilterError::QueryingPath(e)),
                Ok(false) => Ok(false),
                Ok(true) => if cfg.filter_guid.spec_slice().len() != 0 && !contains_some_pattern(
                    cfg.filter_guid.spec_slice(),
                    info.guid@,
                ) {
                    Ok(false)
                } else {
                    match spec_check_num(cfg.filter_vendor_id.spec_slice(), info.vendor) {
                        None => Err(FilterError::QueryingVendorId),
                        Some(false) => Ok(false),
                        Some(true) => match spec_check_num(cfg.filter_product_id.spec_slice(), info.product) {
                            None => Err(FilterError::QueryingProductId),
                            Some(false) => Ok(false),
                            Some(true) => match spec_check_num(
                                cfg.filter_product_version.spec_slice(),
                                info.version,
                            ) {
                                None => Err(FilterError::QueryingProductVersion),
                                Some(v) => Ok(v),
                            },
                        },
                    }
                },
            },
        }
    }
}

/// The verdict on an opened gamepad: serial number, then firmware version.
pub open spec fn spec_accepts_opened(cfg: InputGamepad, serial: Option<String>, fw_version: Option<u16>) -> Result<bool, FilterError> {
    match spec_check_str(cfg.filter_serial.spec_slice(), serial) {
        None => Err(FilterError::QueryingSerial),
        Some(false) => Ok(false),
        Some(true) => match spec_check_num(cfg.filter_fw_version.spec_slice(), fw_version) {
            None => Err(FilterError::QueryingFwVersion),
            Some(v) => Ok(v),
        },
    }
}

impl LoopState {
    /// Whether to open a gamepad that SDL reports, before opening it.
    pub fn accepts_gamepad(&self, cfg: &InputGamepad, info: &GamepadInfo) -> (r: Result<bool, FilterError>)
        ensures
            r == spec_accepts_gamepad(self.input is Some, *cfg, *info),
    {
        if self.input.is_some() {
            return Ok(false);
        }
        match check_str_result(&cfg.filter_name, &info.name) {
            Err(e) => return Err(FilterError::QueryingName(e)),
            Ok(false) => return Ok(false),
            Ok(true) => {},
        }
        match check_str_result(&cfg.filter_path, &info.path) {
            Err(e) => return Err(FilterError::QueryingPath(e)),
            Ok(false) => return Ok(false),
            Ok(true) => {},
        }
        let guid_filter = cfg.filter_guid.slice();
        if guid_filter.len() != 0 && !contains_any_pattern(guid_filter, info.guid.as_str()) {
            return Ok(false);
        }
        match check_num(&cfg.filter_vendor_id, &info.vendor) {
            None => return Err(FilterError::QueryingVendorId),
            Some(false) => return Ok(false),
            Some(true) => {},
        }
        match check_num(&cfg.filter_product_id, &info.product) {
            None => return Err(FilterError::QueryingProductId),
            Some(false) => return Ok(false),
            Some(true) => {},
        }
        match check_num(&cfg.filter_product_version, &info.version) {
            None => Err(FilterError::QueryingProductVersion),
            Some(v) => Ok(v),
        }
    }

    /// Whether to keep a gamepad once opened, by its serial number and firmware version.
    pub fn accepts_opened(cfg: &InputGamepad, serial: &Option<String>, fw_version: &Option<u16>) -> (r: Result<bool, FilterError>)
        ensures
            r == spec_accepts_opened(*cfg, *serial, *fw_version),
    {
        match check_str(&cfg.filter_serial, serial) {
            None => return Err(FilterError::QueryingSerial),
            Some(false) => return Ok(false),
            Some(true) => {},
        }
        match check_num(&cfg.filter_fw_version, fw_version) {
            None => Err(FilterError::QueryingFwVersion),
            Some(v) => Ok(v),
        }
    }
}

/// With every filter empty, the first gamepad is taken whatever SDL reports of
/// it, and kept once opened; while a gamepad is open no other is taken.
pub proof fn lemma_empty_filters_accept_all(cfg: InputGamepad, info: GamepadInfo, serial: Option<String>, fw_version: Option<u16>)
    requires
        cfg.filter_name.spec_slice().len() == 0,
        cfg.filter_path.spec_slice().len() == 0,
        cfg.filter_guid.spec_slice().len() == 0,
        cfg.filter_serial.spec_slice().len() == 0,
        cfg.filter_vendor_id.spec_slice().len() == 0,
        cfg.filter_product_id.spec_slice().len() == 0,
        cfg.filter_product_version.spec_slice().len() == 0,
        cfg.filter_fw_version.spec_slice().len() == 0,
    ensures
        spec_accepts_gamepad(false, cfg, info) == Ok::<bool, FilterError>(true),
        spec_accepts_gamepad(true, cfg, info) == Ok::<bool, FilterError>(false),
        spec_accepts_opened(cfg, serial, fw_version) == Ok::<bool, FilterError>(true),
{
}

/// Each id filter is decided by its own id alone. With every other filter
/// empty, a gamepad with known ids is taken exactly where the vendor filter
/// lists its vendor id, the product filter its product id, the version filter
/// its product version, and the firmware filter of an opened gamepad its
/// firmware version.
pub proof fn lemma_id_filters_read_their_own_id(cfg: InputGamepad, info: GamepadInfo, fw: u16, serial: Option<String>)
    requires
        cfg.filter_name.spec_slice().len() == 0,
        cfg.filter_path.spec_slice().len() == 0,
        cfg.filter_guid.spec_slice().len() == 0,
        cfg.filter_serial.spec_slice().len() == 0,
        info.vendor is Some,
        info.product is Some,
        info.version is Some,
    ensures
        cfg.filter_product_id.spec_slice().len() == 0 && cfg.filter_product_version.spec_slice().len() == 0
            ==> spec_accepts_gamepad(false, cfg, info) == Ok::<bool, FilterError>(
            cfg.filter_vendor_id.spec_slice().len() == 0 || cfg.filter_vendor_id.spec_slice().contains(info.vendor->0),
        ),
        cfg.filter_vendor_id.spec_slice().len() == 0 && cfg.filter_product_version.spec_slice().len() == 0
            ==> spec_accepts_gamepad(false, cfg, info) == Ok::<bool, FilterError>(
            cfg.filter_product_id.spec_slice().len() == 0 || cfg.filter_product_id.spec_slice().contains(info.product->0),
        ),
        cfg.filter_vendor_id.spec_slice().len() == 0 && cfg.filter_product_id.spec_slice().len() == 0
            ==> spec_accepts_gamepad(false, cfg, info) == Ok::<bool, FilterError>(
            cfg.filter_product_version.spec_slice().len() == 0 || cfg.filter_product_version.spec_slice().contains(info.version->0),
        ),
        spec_accepts_opened(cfg, serial, Some(fw)) == Ok::<bool, FilterError>(
            cfg.filter_fw_version.spec_slice().len() == 0 || cfg.filter_fw_version.spec_slice().contains(fw),
        ),
{
}

/// What a gamepad reports matters only where a filter asks about it: with the
/// vendor, product or version filter empty, any vendor id, product id or
/// version (known or not) gives the same verdict.
pub proof fn lemma_empty_id_filter_ignores_its_id(open: bool, cfg: InputGamepad, info: GamepadInfo, other: Option<u16>)
    ensures
        cfg.filter_vendor_id.spec_slice().len() == 0 ==> spec_accepts_gamepad(open, cfg, info)
            == spec_accepts_gamepad(open, cfg, GamepadInfo { vendor: other, ..info }),
        cfg.filter_product_id.spec_slice().len() == 0 ==> spec_accepts_gamepad(open, cfg, info)
            == spec_accepts_gamepad(open, cfg, GamepadInfo { product: other, ..info }),
        cfg.filter_product_version.spec_slice().len() == 0 ==> spec_accepts_gamepad(open, cfg, info)
            == spec_accepts_gamepad(open, cfg, GamepadInfo { version: other, ..info }),
{
}

} // verus!
