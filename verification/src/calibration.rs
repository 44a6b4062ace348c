//! The integer side of stick processing: which axis values a stick group has
//! received, and which outputs it has already emitted.

use vstd::prelude::*;

use crate::fold::assoc_get;
use crate::parsed_config::{ParsedAxisBinding, ParsedConfig, ParsedStickGroup};
use crate::simulated::{EvdevEvent, EV_ABS};

verus! {

/// One stick group: two gamepad axes turned into two output axes together.
#[derive(Debug)]
pub struct AxisGroup {
    /// The latest input value of each axis.
    pub current: [i16; 2],
    /// The output values last emitted.
    pub prev_out: Option<[i32; 2]>,
    /// The output axis codes.
    pub axis_codes: [u16; 2],
    /// The range each output is clamped to.
    pub clamp_out: [[i32; 2]; 2],
    /// Whether an input value has arrived.
    pub dirty: bool,
    /// Whether the stick is inside its dead zone.
    pub in_deadzone: bool,
    pub process: bool,
    pub name: String,
}

/// All stick groups of a gamepad.
#[derive(Debug)]
pub struct CalibrationState {
    pub states: Vec<AxisGroup>,
}

/// Clamps `x` to `[lo, hi]`.
pub open spec fn clamp(x: int, lo: int, hi: int) -> int {
    if x < lo {
        lo
    } else if x > hi {
        hi
    } else {
        x
    }
}

impl ParsedConfig {
    /// Every axis of every stick group has a binding.
    pub open spec fn stick_axes_bound(&self) -> bool {
        forall|g: int, d: int|
            0 <= g < self.stickgroup@.len() && 0 <= d < 2 ==> assoc_get(self.axis_bindings@, #[trigger] self.stickgroup@[g].axes[d]) is Some
    }

    /// Whether every axis of every stick group has a binding.
    pub fn check_stick_axes_bound(&self) -> (b: bool)
        requires
            crate::fold::keys_distinct(self.axis_bindings@),
        ensures
            b == self.stick_axes_bound(),
    {
        let mut g: usize = 0;
        while g < self.stickgroup.len()
            invariant
                g <= self.stickgroup@.len(),
                crate::fold::keys_distinct(self.axis_bindings@),
                forall|h: int, d: int|
                    0 <= h < g && 0 <= d < 2 ==> assoc_get(self.axis_bindings@, #[trigger] self.stickgroup@[h].axes[d]) is Some,
            decreases self.stickgroup@.len() - g,
        {
            let axes = self.stickgroup[g].axes;
            if crate::fold::assoc_find(&self.axis_bindings, axes[0]).is_none() {
                assert(assoc_get(self.axis_bindings@, self.stickgroup@[g as int].axes[0]) is None);
                return false;
            }
            if crate::fold::assoc_find(&self.axis_bindings, axes[1]).is_none() {
                assert(assoc_get(self.axis_bindings@, self.stickgroup@[g as int].axes[1]) is None);
                return false;
            }
            proof {
                assert forall|d: int| 0 <= d < 2 implies assoc_get(self.axis_bindings@, #[trigger] self.stickgroup@[g as int].axes[d]) is Some by {
                    if d == 1 {
                    }
                }
            }
            g = g + 1;
        }
        true
    }

    /// The binding of an axis.
    pub fn axis_binding(&self, id: i32) -> (r: Option<ParsedAxisBinding>)
        requires
            crate::fold::keys_distinct(self.axis_bindings@),
        ensures
            r == assoc_get(self.axis_bindings@, id),
    {
        match crate::fold::assoc_find(&self.axis_bindings, id) {
            Some(i) => Some(self.axis_bindings[i].1),
            None => None,
        }
    }
}

/// A pair with its x (`dim` false) or y (`dim` true) element replaced.
pub open spec fn with_dim(p: [i16; 2], dim: bool, v: i16) -> [i16; 2] {
    if dim {
        [p[0], v]
    } else {
        [v, p[1]]
    }
}

/// The state of a stick group before any input.
pub open spec fn spec_initial_group(g: ParsedStickGroup, x: ParsedAxisBinding, y: ParsedAxisBinding) -> AxisGroup {
    AxisGroup {
        current: [0, 0],
        prev_out: None,
        axis_codes: [x.setup.code, y.setup.code],
        clamp_out: [x.clamp_out, y.clamp_out],
        dirty: false,
        in_deadzone: false,
        process: g.process,
        name: g.name,
    }
}

impl CalibrationState {
    /// One group per stick group of the configuration, in order, each at rest
    /// and taking its output codes and clamp ranges from its axes' bindings.
    pub fn create(pcfg: &ParsedConfig) -> (c: CalibrationState)
        requires
            crate::fold::keys_distinct(pcfg.axis_bindings@),
            pcfg.stick_axes_bound(),
        ensures
            c.states@.len() == pcfg.stickgroup@.len(),
            forall|i: int| 0 <= i < c.states@.len() ==> #[trigger] c.states@[i] == spec_initial_group(
                pcfg.stickgroup@[i],
                assoc_get(pcfg.axis_bindings@, pcfg.stickgroup@[i].axes[0])->0,
                assoc_get(pcfg.axis_bindings@, pcfg.stickgroup@[i].axes[1])->0,
            ),
    {
        let mut states: Vec<AxisGroup> = Vec::new();
        let mut i: usize = 0;
        while i < pcfg.stickgroup.len()
            invariant
                i <= pcfg.stickgroup@.len(),
                crate::fold::keys_distinct(pcfg.axis_bindings@),
                pcfg.stick_axes_bound(),
                states@.len() == i,
                forall|j: int| 0 <= j < i ==> #[trigger] states@[j] == spec_initial_group(
                    pcfg.stickgroup@[j],
                    assoc_get(pcfg.axis_bindings@, pcfg.stickgroup@[j].axes[0])->0,
                    assoc_get(pcfg.axis_bindings@, pcfg.stickgroup@[j].axes[1])->0,
                ),
            decreases pcfg.stickgroup@.len() - i,
        {
            let g = &pcfg.stickgroup[i];
            proof {
                assert(assoc_get(pcfg.axis_bindings@, pcfg.stickgroup@[i as int].axes[0]) is Some);
                assert(assoc_get(pcfg.axis_bindings@, pcfg.stickgroup@[i as int].axes[1]) is Some);
            }
            let x = match pcfg.axis_binding(g.axes[0]) {
                Some(b) => b,
                None => vstd::pervasive::unreached(),
            };
            let y = match pcfg.axis_binding(g.axes[1]) {
                Some(b) => b,
                None => vstd::pervasive::unreached(),
            };
            states.push(AxisGroup {
                current: [0, 0],
                prev_out: None,
                axis_codes: [x.setup.code, y.setup.code],
                clamp_out: [x.clamp_out, y.clamp_out],
                dirty: false,
                in_deadzone: false,
                process: g.process,
                name: g.name.clone(),
            });
            i = i + 1;
        }
        CalibrationState { states }
    }

    /// Whether group `group_idx` exists and processes its axes.
    pub open spec fn accepts(self, group_idx: int) -> bool {
        0 <= group_idx < self.states@.len() && self.states@[group_idx].process
    }

    /// Stores `value` as dimension `dim` (false: x, true: y) of group `group_idx`
    /// and marks the group as having input, where the group exists and processes
    /// its axes; reports whether it did.
    pub fn set_axis(&mut self, value: i16, group_idx: usize, dim: bool) -> (taken: bool)
        ensures
            taken == old(self).accepts(group_idx as int),
            taken ==> final(self).states@ == old(self).states@.update(
                group_idx as int,
                AxisGroup {
                    current: with_dim(old(self).states@[group_idx as int].current, dim, value),
                    dirty: true,
                    ..old(self).states@[group_idx as int]
                },
            ),
            !taken ==> *final(self) == *old(self),
    {
        if group_idx < self.states.len() && self.states[group_idx].process {
            let old_current = self.states[group_idx].current;
            let current: [i16; 2] = if dim { [old_current[0], value] } else { [value, old_current[1]] };
            let ghost before = self.states@;
            self.states[group_idx].current = current;
            self.states[group_idx].dirty = true;
            proof {
                assert(self.states@ =~= before.update(
                    group_idx as int,
                    AxisGroup { current: with_dim(before[group_idx as int].current, dim, value), dirty: true, ..before[group_idx as int] },
                ));
            }
            return true;
        }
        false
    }
}

impl AxisGroup {
    /// Whether both clamp ranges are in order.
    pub open spec fn clamps_ordered(self) -> bool {
        self.clamp_out[0][0] <= self.clamp_out[0][1] && self.clamp_out[1][0] <= self.clamp_out[1][1]
    }

    /// The outputs for the rounded stick position `rounded`: each clamped to its range.
    pub open spec fn clamped_outputs(self, rounded: [i32; 2]) -> [i32; 2] {
        [
            clamp(rounded[0] as int, self.clamp_out[0][0] as int, self.clamp_out[0][1] as int) as i32,
            clamp(rounded[1] as int, self.clamp_out[1][0] as int, self.clamp_out[1][1] as int) as i32,
        ]
    }

    /// Clamps the rounded stick position to the output ranges and, where the
    /// result differs from what was last emitted, appends an `EV_ABS` event for
    /// each output axis (x first) and remembers it. Does nothing and reports
    /// `false` where a clamp range is not in order.
    pub fn emit_output(&mut self, rounded: [i32; 2], queue: &mut Vec<EvdevEvent>) -> (ok: bool)
        ensures
            ok == old(self).clamps_ordered(),
            !ok ==> *final(self) == *old(self) && final(queue)@ == old(queue)@,
            ok ==> {
                let out = old(self).clamped_outputs(rounded);
                if old(self).prev_out == Some(out) {
                    *final(self) == *old(self) && final(queue)@ == old(queue)@
                } else {
                    &&& *final(self) == AxisGroup { prev_out: Some(out), ..*old(self) }
                    &&& final(queue)@ == old(queue)@ + seq![
                        EvdevEvent { event_type: EV_ABS, code: old(self).axis_codes[0], value: out[0] },
                        EvdevEvent { event_type: EV_ABS, code: old(self).axis_codes[1], value: out[1] },
                    ]
                }
            },
    {
        if !(self.clamp_out[0][0] <= self.clamp_out[0][1] && self.clamp_out[1][0] <= self.clamp_out[1][1]) {
            return false;
        }
        let x = clamp_i32(rounded[0], self.clamp_out[0][0], self.clamp_out[0][1]);
        let y = clamp_i32(rounded[1], self.clamp_out[1][0], self.clamp_out[1][1]);
        let out: [i32; 2] = [x, y];
        let same = match self.prev_out {
            Some(p) => p[0] == x && p[1] == y,
            None => false,
        };
        proof {
            assert(out == self.clamped_outputs(rounded));
            assert(same == (self.prev_out == Some(out))) by {
                if let Some(p) = self.prev_out {
                    if p[0] == x && p[1] == y {
                        assert(p =~= out);
                    }
                }
            }
        }
        if !same {
            let ghost q0 = queue@;
            queue.push(EvdevEvent::new(EV_ABS, self.axis_codes[0], x));
            queue.push(EvdevEvent::new(EV_ABS, self.axis_codes[1], y));
            self.prev_out = Some(out);
            proof {
                assert(queue@ =~= q0 + seq![
                    EvdevEvent { event_type: EV_ABS, code: self.axis_codes[0], value: out[0] },
                    EvdevEvent { event_type: EV_ABS, code: self.axis_codes[1], value: out[1] },
                ]);
            }
        }
        true
    }
}

/// Emitting a stick position that was just emitted emits nothing: after an
/// emit with ordered clamp ranges, the group remembers exactly the outputs a
/// second emit of the same position would produce, so that emit appends no
/// event and leaves the group as it is.
pub proof fn lemma_emit_twice_emits_nothing(g: AxisGroup, rounded: [i32; 2])
    requires
        g.clamps_ordered(),
    ensures
        ({
            let after = AxisGroup { prev_out: Some(g.clamped_outputs(rounded)), ..g };
            &&& after.clamps_ordered()
            &&& after.prev_out == Some(after.clamped_outputs(rounded))
        }),
{
}

/// Clamps `x` to `[lo, hi]`.
pub fn clamp_i32(x: i32, lo: i32, hi: i32) -> (r: i32)
    requires
        lo <= hi,
    ensures
        r as int == clamp(x as int, lo as int, hi as int),
{
    if x < lo {
        lo
    } else if x > hi {
        hi
    } else {
        x
    }
}

} // verus!
