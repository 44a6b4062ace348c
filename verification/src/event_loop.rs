//! The decisions of the event loop between batches of events: how long to
//! wait, when to check the battery, what to add to a batch of output events,
//! and what connecting a gamepad resets.

use vstd::prelude::*;

use crate::button_tracker::ButtonTrackerView;
use crate::calibration::{spec_initial_group, CalibrationState};
use crate::fold::assoc_get;
use crate::config::{Config, InputGamepad};
use crate::event_processing::LoopState;
use crate::parsed_config::ParsedConfig;
use crate::simulated::{
    EvdevEvent, RumbleAction, RumbleEvent, SimulatedGamepad, EV_MSC, FF_GAIN_INITIAL, FF_SLOTS, MSC_TIMESTAMP,
};
use crate::simulated_gyro::SimulatedGamepadGyro;

verus! {

/// Events fetched at most per batch when the preset sets no limit.
pub const DEFAULT_BATCH_SIZE: usize = 22;

/// The timestamp event closing a batch at `tick` nanoseconds: microseconds,
/// truncated to `i32`.
pub open spec fn timestamp_event(tick: u64) -> EvdevEvent {
    EvdevEvent { event_type: EV_MSC, code: MSC_TIMESTAMP, value: (tick / 1000) as i32 }
}

/// The number of events fetched at most per batch.
pub fn max_batch_size(cfg: &InputGamepad) -> (n: usize)
    ensures
        n == (match cfg.input_event_batch_size {
            Some(v) => v,
            None => DEFAULT_BATCH_SIZE,
        }),
{
    match cfg.input_event_batch_size {
        Some(v) => v,
        None => DEFAULT_BATCH_SIZE,
    }
}

impl SimulatedGamepad {
    /// Closes a non-empty batch with a timestamp, where timestamps are wanted.
    pub fn push_timestamp(&mut self, tick: u64, emit_timestamp: bool)
        ensures
            final(self).queue@ == (if old(self).queue@.len() != 0 && emit_timestamp {
                old(self).queue@.push(timestamp_event(tick))
            } else {
                old(self).queue@
            }),
            final(self).ff_gain == old(self).ff_gain,
            final(self).ff_slot == old(self).ff_slot,
            final(self).digitrigger_state == old(self).digitrigger_state,
    {
        if self.queue.len() != 0 && emit_timestamp {
            self.queue.push(EvdevEvent::new(EV_MSC, MSC_TIMESTAMP, (tick / 1000) as i32));
        }
    }
}

impl SimulatedGamepadGyro {
    /// Closes a non-empty batch of motion events with a timestamp.
    pub fn push_timestamp(&mut self, tick: u64)
        ensures
            final(self).queue@ == (if old(self).queue@.len() != 0 {
                old(self).queue@.push(timestamp_event(tick))
            } else {
                old(self).queue@
            }),
    {
        if self.queue.len() != 0 {
            self.queue.push(EvdevEvent::new(EV_MSC, MSC_TIMESTAMP, (tick / 1000) as i32));
        }
    }
}

impl LoopState {
    /// How long to wait for the next event: `wait_timeout_ms` (default 5) while
    /// a gamepad is open, `wait_timeout_ms_idle` (default 5000) otherwise.
    pub fn wait_timeout_ms(&self, cfg: &InputGamepad) -> (t: u32)
        ensures
            t == (if self.input is Some {
                match cfg.wait_timeout_ms {
                    Some(v) => v,
                    None => 5,
                }
            } else {
                match cfg.wait_timeout_ms_idle {
                    Some(v) => v,
                    None => 5000,
                }
            }),
    {
        if self.input.is_some() {
            match cfg.wait_timeout_ms {
                Some(v) => v,
                None => 5,
            }
        } else {
            match cfg.wait_timeout_ms_idle {
                Some(v) => v,
                None => 5000,
            }
        }
    }

    /// Whether the battery is due for a check: checks are on (`interval` is not
    /// 0) and `interval` nanoseconds have passed since the last one. `None` where
    /// the time of the next check does not fit in `u64`. A due check is recorded
    /// as taken now.
    pub fn take_power_check(&mut self, interval: u64) -> (r: Option<bool>)
        ensures
            r == (if interval == 0 {
                Some(false)
            } else if old(self).last_power_check + interval > u64::MAX {
                None::<bool>
            } else {
                Some(old(self).tick >= old(self).last_power_check + interval)
            }),
            final(self).last_power_check == (if r == Some(true) { old(self).tick } else { old(self).last_power_check }),
            final(self).tick == old(self).tick,
            final(self).exit == old(self).exit,
            final(self).input == old(self).input,
            final(self).output == old(self).output,
            final(self).motion_output == old(self).motion_output,
            final(self).tracker@ == old(self).tracker@,
            final(self).last_power_info == old(self).last_power_info,
    {
        if interval == 0 {
            return Some(false);
        }
        if self.last_power_check > u64::MAX - interval {
            return None;
        }
        if self.tick >= self.last_power_check + interval {
            self.last_power_check = self.tick;
            Some(true)
        } else {
            Some(false)
        }
    }

    /// Records the battery state of the open gamepad (`None` where no gamepad is
    /// open, which changes nothing); reports whether it differs from the last one seen.
    pub fn power_check(&mut self, info: Option<(i32, i32)>) -> (changed: bool)
        ensures
            changed == (info is Some && old(self).last_power_info != info),
            final(self).last_power_info == (if info is Some { info } else { old(self).last_power_info }),
            final(self).tick == old(self).tick,
            final(self).last_power_check == old(self).last_power_check,
            final(self).exit == old(self).exit,
            final(self).input == old(self).input,
            final(self).output == old(self).output,
            final(self).motion_output == old(self).motion_output,
            final(self).tracker@ == old(self).tracker@,
    {
        match info {
            Some(i) => {
                let changed = match self.last_power_info {
                    Some(p) => p.0 != i.0 || p.1 != i.1,
                    None => true,
                };
                self.last_power_info = Some(i);
                changed
            },
            None => false,
        }
    }

    /// Whether rumble events are to be read back: rumble is enabled and both the
    /// gamepad and the virtual gamepad are open.
    pub fn wants_rumble(&self, cfg: &Config) -> (b: bool)
        ensures
            b == self.rumble_active(*cfg),
    {
        cfg.simulate_gamepad.enable_rumble && self.output.is_some() && self.input.is_some()
    }

    /// Whether force-feedback events are handled: rumble is enabled and both
    /// the gamepad and the virtual gamepad are open.
    pub open spec fn rumble_active(self, cfg: Config) -> bool {
        cfg.simulate_gamepad.enable_rumble && self.output is Some && self.input is Some
    }

    /// Handles one force-feedback event on the virtual gamepad. Nothing
    /// changes, and nothing is asked of the motors, unless rumble is enabled and
    /// both the gamepad and the virtual gamepad are open.
    pub fn process_rumble(&mut self, cfg: &Config, pcfg: &ParsedConfig, ev: RumbleEvent) -> (a: RumbleAction)
        requires
            pcfg@.wf(),
        ensures
            !old(self).rumble_active(*cfg) ==> a == RumbleAction::Nothing && *final(self) == *old(self),
            old(self).rumble_active(*cfg) ==> {
                let o = old(self).output->0;
                &&& a == o.spec_rumble_action(pcfg.rumble_mul, ev)
                &&& final(self).output matches Some(n)
                &&& n.ff_slot@ == o.spec_slots_after(ev)
                &&& n.ff_gain == (match ev {
                    RumbleEvent::ForceFeedback { code, value } if code == crate::simulated::FF_GAIN => value,
                    _ => o.ff_gain,
                })
                &&& n.queue == o.queue
                &&& n.digitrigger_state == o.digitrigger_state
            },
            final(self).input == old(self).input,
            final(self).exit == old(self).exit,
            final(self).motion_output == old(self).motion_output,
            final(self).tracker@ == old(self).tracker@,
            final(self).tick == old(self).tick,
            final(self).last_power_check == old(self).last_power_check,
            final(self).last_power_info == old(self).last_power_info,
    {
        if !self.wants_rumble(cfg) {
            return RumbleAction::Nothing;
        }
        match self.output.take() {
            Some(mut o) => {
                let a = o.process_rumble_event(pcfg.rumble_mul, ev);
                self.output = Some(o);
                a
            },
            None => RumbleAction::Nothing,
        }
    }

    /// Takes over a newly opened gamepad with instance id `id`: the d-pad state
    /// starts over, the stick groups start at rest, and a fresh virtual gamepad
    /// replaces the old one; where `motion` is set a fresh motion device replaces
    /// the old one too.
    pub fn connect(&mut self, id: u32, pcfg: &ParsedConfig, motion: bool)
        requires
            crate::fold::keys_distinct(pcfg.axis_bindings@),
            pcfg.stick_axes_bound(),
        ensures
            final(self).input matches Some((i, c)) && i == id && c.states@.len() == pcfg.stickgroup@.len()
                && (forall|k: int| 0 <= k < c.states@.len() ==> #[trigger] c.states@[k] == spec_initial_group(
                    pcfg.stickgroup@[k],
                    assoc_get(pcfg.axis_bindings@, pcfg.stickgroup@[k].axes[0])->0,
                    assoc_get(pcfg.axis_bindings@, pcfg.stickgroup@[k].axes[1])->0,
                )),
            final(self).output matches Some(o) && o.queue@.len() == 0 && o.ff_gain == FF_GAIN_INITIAL
                && o.ff_slot@.len() == FF_SLOTS && (forall|j: int| 0 <= j < FF_SLOTS ==> o.ff_slot@[j] is None)
                && o.digitrigger_state@.len() == pcfg.axis_lut@.len()
                && (forall|j: int| 0 <= j < o.digitrigger_state@.len() ==> !o.digitrigger_state@[j]),
            motion ==> (final(self).motion_output matches Some(m) && m.queue@.len() == 0),
            !motion ==> final(self).motion_output == old(self).motion_output,
            final(self).tracker@ == (ButtonTrackerView {
                dpad_l: false,
                dpad_r: false,
                dpad_u: false,
                dpad_d: false,
                hatx: 0,
                haty: 0,
                dirty_hatx: false,
                dirty_haty: false,
            }),
            final(self).exit == old(self).exit,
            final(self).tick == old(self).tick,
            final(self).last_power_check == old(self).last_power_check,
            final(self).last_power_info == old(self).last_power_info,
    {
        if motion {
            self.motion_output = Some(SimulatedGamepadGyro { queue: Vec::new() });
        }
        self.tracker = crate::button_tracker::ButtonTracker::default();
        let calib = CalibrationState::create(pcfg);
        self.input = Some((id, calib));
        self.output = Some(SimulatedGamepad::create(pcfg.axis_lut.len()));
    }
}

} // verus!
