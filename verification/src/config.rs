//! The configuration model that the library reads.
//!
//! These are the plain values a preset describes. Two kinds of values arrive
//! here already evaluated by the caller: what SDL's own name lookup makes of a
//! button or axis name (`SdlKey::Name::sdl_lookup`), and every quantity that the
//! preset states as a floating-point number (trigger thresholds, rumble
//! multipliers, stick dead zones), which reach the library as the integers or
//! verdicts derived from them.

use vstd::prelude::*;
use vstd::std_specs::convert::FromSpecImpl;

verus! {

/// `core::slice::from_ref` gives the one-element slice holding the referenced value.
pub assume_specification<T>[ core::slice::from_ref::<T> ](s: &T) -> (r: &[T])
    ensures
        r@ == seq![*s],
;

/// Returns `true`; the default of options that are on unless a preset turns them off.
pub fn default_true() -> (b: bool)
    ensures
        b,
{
    true
}

/// A name or a raw numeric code.
#[derive(Debug)]
pub enum StringOrU16 {
    String(String),
    U16(u16),
}

impl StringOrU16 {
    /// A copy equal to `self`.
    pub fn duplicate(&self) -> (r: Self)
        ensures
            r == *self,
    {
        match self {
            StringOrU16::String(s) => StringOrU16::String(s.clone()),
            StringOrU16::U16(v) => StringOrU16::U16(*v),
        }
    }
}

impl From<u16> for StringOrU16 {
    fn from(value: u16) -> (r: Self) {
        StringOrU16::U16(value)
    }
}

impl FromSpecImpl<u16> for StringOrU16 {
    open spec fn obeys_from_spec() -> bool {
        true
    }

    open spec fn from_spec(value: u16) -> Self {
        StringOrU16::U16(value)
    }
}

impl From<String> for StringOrU16 {
    fn from(value: String) -> (r: Self) {
        StringOrU16::String(value)
    }
}

impl FromSpecImpl<String> for StringOrU16 {
    open spec fn obeys_from_spec() -> bool {
        true
    }

    open spec fn from_spec(value: String) -> Self {
        StringOrU16::String(value)
    }
}

impl From<&str> for StringOrU16 {
    fn from(value: &str) -> (r: Self)
        ensures
            r matches StringOrU16::String(s) && s@ == value@,
    {
        StringOrU16::String(value.to_owned())
    }
}

impl FromSpecImpl<&str> for StringOrU16 {
    /// A `String` is not determined by its characters in this model, so `from`
    /// is not held to one chosen value; its own `ensures` states the characters
    /// it keeps.
    open spec fn obeys_from_spec() -> bool {
        false
    }

    open spec fn from_spec(value: &str) -> Self {
        StringOrU16::String(choose|s: String| s@ == value@)
    }
}

/// A gamepad button or axis name from a preset, with what SDL's own lookup of
/// that exact string (`SDL_GetGamepadButtonFromString` or
/// `SDL_GetGamepadAxisFromString`, as the context requires) yields as a raw SDL
/// id, `None` where SDL knows no such name.
#[derive(Debug)]
pub struct SdlName {
    pub name: String,
    pub sdl_lookup: Option<i32>,
}

/// A gamepad button or axis given by name or by raw SDL id.
#[derive(Debug)]
pub enum SdlKey {
    Name(SdlName),
    Index(u16),
}

/// How a gamepad button maps to an output key.
#[derive(Debug)]
pub struct ButtonMapping {
    pub key: StringOrU16,
    pub dpad: bool,
}

/// A button mapping, either as a bare key or with options.
#[derive(Debug)]
pub enum ButtonMappingEnum {
    Code(StringOrU16),
    Advanced(ButtonMapping),
}

impl ButtonMappingEnum {
    /// The mapping with its options filled in.
    pub open spec fn spec_mapping(self) -> ButtonMapping {
        match self {
            ButtonMappingEnum::Code(key) => ButtonMapping { key, dpad: false },
            ButtonMappingEnum::Advanced(m) => m,
        }
    }

    /// A bare key maps without the d-pad flag; an advanced mapping is returned as it is.
    pub fn mapping(&self) -> (m: ButtonMapping)
        ensures
            m == self.spec_mapping(),
    {
        match self {
            ButtonMappingEnum::Code(key) => ButtonMapping { key: key.duplicate(), dpad: false },
            ButtonMappingEnum::Advanced(m) => ButtonMapping { key: m.key.duplicate(), dpad: m.dpad },
        }
    }
}

/// A trigger threshold given in the preset as a fraction of the input range.
///
/// The fraction itself is a float; the library reads what it derives: whether it
/// is finite, its sign, and the fraction multiplied by the length of the negative
/// half (`from_range[1] - from_range[0]`) and of the positive half
/// (`from_range[2] - from_range[1]`) of the input range, truncated to `i32`.
#[derive(Debug, Clone, Copy)]
pub struct FractionThreshold {
    pub finite: bool,
    pub sign_negative: bool,
    pub sign_positive: bool,
    pub times_negative_span: i32,
    pub times_positive_span: i32,
}

/// A press or release threshold of a digital trigger.
#[derive(Debug, Clone, Copy)]
pub enum TrThreshold {
    Fraction(FractionThreshold),
    Abs { abs: i32 },
}

/// How a gamepad axis maps to an output axis.
#[derive(Debug)]
pub struct AxisMapping {
    pub key: StringOrU16,
    pub initial: Option<i32>,
    pub from_range: Option<[i32; 3]>,
    pub to_range: Option<[i32; 3]>,
    pub out_range: Option<[i32; 2]>,
    pub fuzz: Option<i32>,
    pub flat: Option<i32>,
    pub res: Option<i32>,
    pub digitrigger_button: Option<StringOrU16>,
    pub digitrigger_thresh: Option<[TrThreshold; 2]>,
}

impl AxisMapping {
    /// A copy equal to `self`.
    pub fn duplicate(&self) -> (r: Self)
        ensures
            r == *self,
    {
        AxisMapping {
            key: self.key.duplicate(),
            initial: self.initial,
            from_range: self.from_range,
            to_range: self.to_range,
            out_range: self.out_range,
            fuzz: self.fuzz,
            flat: self.flat,
            res: self.res,
            digitrigger_button: match &self.digitrigger_button {
                Some(b) => Some(b.duplicate()),
                None => None,
            },
            digitrigger_thresh: self.digitrigger_thresh,
        }
    }
}

/// An axis mapping, either as a bare key or with options.
#[derive(Debug)]
pub enum AxisMappingEnum {
    Code(StringOrU16),
    Advanced(AxisMapping),
}

impl AxisMappingEnum {
    /// The mapping with its options filled in.
    pub open spec fn spec_mapping(self) -> AxisMapping {
        match self {
            AxisMappingEnum::Code(key) => AxisMapping {
                key,
                initial: None,
                from_range: None,
                to_range: None,
                out_range: None,
                fuzz: None,
                flat: None,
                res: None,
                digitrigger_button: None,
                digitrigger_thresh: None,
            },
            AxisMappingEnum::Advanced(m) => m,
        }
    }

    /// A bare key maps with every option unset; an advanced mapping is returned as it is.
    pub fn mapping(&self) -> (m: AxisMapping)
        ensures
            m == self.spec_mapping(),
    {
        match self {
            AxisMappingEnum::Code(key) => AxisMapping {
                key: key.duplicate(),
                initial: None,
                from_range: None,
                to_range: None,
                out_range: None,
                fuzz: None,
                flat: None,
                res: None,
                digitrigger_button: None,
                digitrigger_thresh: None,
            },
            AxisMappingEnum::Advanced(m) => m.duplicate(),
        }
    }
}

/// A filter on numeric ids: one id, a list of ids, or none.
#[derive(Debug)]
pub enum VendorProductIds {
    Single(u16),
    Vec(Vec<u16>),
    Empty,
}

impl VendorProductIds {
    /// The ids the filter lists.
    pub open spec fn spec_slice(self) -> Seq<u16> {
        match self {
            VendorProductIds::Single(v) => seq![v],
            VendorProductIds::Vec(v) => v@,
            VendorProductIds::Empty => Seq::empty(),
        }
    }

    /// The ids the filter lists, in order.
    pub fn slice(&self) -> (s: &[u16])
        ensures
            s@ == self.spec_slice(),
    {
        match self {
            VendorProductIds::Single(v) => core::slice::from_ref(v),
            VendorProductIds::Vec(v) => v.as_slice(),
            VendorProductIds::Empty => &[],
        }
    }
}

/// A filter on strings: one pattern, a list of patterns, or none.
#[derive(Debug)]
pub enum StringFilter {
    Single(String),
    Vec(Vec<String>),
    Empty,
}

impl StringFilter {
    /// The patterns the filter lists.
    pub open spec fn spec_slice(self) -> Seq<String> {
        match self {
            StringFilter::Single(v) => seq![v],
            StringFilter::Vec(v) => v@,
            StringFilter::Empty => Seq::empty(),
        }
    }

    /// The patterns the filter lists, in order.
    pub fn slice(&self) -> (s: &[String])
        ensures
            s@ == self.spec_slice(),
    {
        match self {
            StringFilter::Single(v) => core::slice::from_ref(v),
            StringFilter::Vec(v) => v.as_slice(),
            StringFilter::Empty => &[],
        }
    }
}

/// Which gamepad to take, and how to poll it.
impl Default for VendorProductIds {
    /// No filter: every value passes.
    fn default() -> (r: Self)
        ensures
            r == VendorProductIds::Empty,
    {
        VendorProductIds::Empty
    }
}

impl Default for StringFilter {
    /// No filter: every value passes.
    fn default() -> (r: Self)
        ensures
            r == StringFilter::Empty,
    {
        StringFilter::Empty
    }
}

#[derive(Debug)]
pub struct InputGamepad {
    pub filter_name: StringFilter,
    pub filter_path: StringFilter,
    pub filter_guid: StringFilter,
    pub filter_serial: StringFilter,
    pub filter_vendor_id: VendorProductIds,
    pub filter_product_id: VendorProductIds,
    pub filter_product_version: VendorProductIds,
    pub filter_fw_version: VendorProductIds,
    pub wait_timeout_ms: Option<u32>,
    pub wait_timeout_ms_idle: Option<u32>,
    pub power_refresh_interval: Option<u32>,
    pub input_event_batch_size: Option<usize>,
    pub sdl_gamepad_mapping: Option<String>,
}

/// The virtual gamepad to create.
#[derive(Debug)]
pub struct SimulateGamepad {
    pub name: String,
    pub bus_type: Option<StringOrU16>,
    pub vendor_id: u16,
    pub product_id: u16,
    pub version: u16,
    pub default_axis_fuzz: Option<i32>,
    pub default_axis_flat: Option<i32>,
    pub default_axis_res: Option<i32>,
    pub keep_open_out_gamepad: Option<bool>,
    pub enable_rumble: bool,
    pub emit_timestamp: bool,
}

/// The virtual motion-sensor device to create, in its integer settings.
#[derive(Debug)]
pub struct SimulateGamepadGyro {
    pub enable: bool,
    pub name: String,
    pub vendor_id: u16,
    pub product_id: u16,
    pub version: u16,
    pub accel_out_range: Option<[i32; 2]>,
    pub gyro_out_range: Option<[i32; 2]>,
    pub accel_fuzz: Option<i32>,
    pub accel_flat: Option<i32>,
    pub accel_res: Option<i32>,
    pub gyro_fuzz: Option<i32>,
    pub gyro_flat: Option<i32>,
    pub gyro_res: Option<i32>,
}

/// Behaviour switches.
///
/// `rumble_scale_left` and `rumble_scale_right` are the preset's rumble
/// multipliers `m` as `round(|m| * 65535)`, saturated to `u64`.
#[derive(Debug)]
pub struct Behavior {
    pub dpad_to_dpad: bool,
    pub dpad_to_hat: bool,
    pub dpad_to_hat_axis: Option<[StringOrU16; 2]>,
    pub rumble_scale_left: Option<u64>,
    pub rumble_scale_right: Option<u64>,
    pub simulate_digital_trigger: bool,
}

/// The verdict on a stick group's floating-point dead-zone settings, in the
/// order in which they are checked.
#[derive(Debug, Clone, Copy, PartialEq, Eq)]
pub enum StickDeadzoneCheck {
    Valid,
    /// Not `deadzone >= deadzone_release >= deadzone_bend >= 0` with `deadzone < 1`.
    BadOrder,
    /// One of the values is not finite.
    NotFinite,
    /// `out_clamp` is negative.
    NegativeClamp,
}

/// Two gamepad axes processed together as a stick.
#[derive(Debug)]
pub struct StickGroup {
    pub axis: [SdlKey; 2],
    pub process: bool,
    pub deadzone_check: StickDeadzoneCheck,
}

/// One entry of the axis map.
///
/// `default_thresh` is what the default press and release fractions, 0.8 and
/// 0.75, come to for this axis; they apply where the mapping names no thresholds.
#[derive(Debug)]
pub struct AxisMapEntry {
    pub key: SdlName,
    pub mapping: AxisMappingEnum,
    pub default_thresh: [FractionThreshold; 2],
}

/// A whole preset.
#[derive(Debug)]
pub struct Config {
    pub input_gamepad: InputGamepad,
    pub simulate_gamepad: SimulateGamepad,
    pub simulate_gamepad_gyro: Option<SimulateGamepadGyro>,
    pub behavior: Behavior,
    pub button_map: Vec<(SdlName, ButtonMappingEnum)>,
    pub axis_map: Vec<AxisMapEntry>,
    pub sticks: Vec<(String, StickGroup)>,
}

} // verus!
