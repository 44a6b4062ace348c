//! Turns a preset into the lookup tables the event processing works from.

use vstd::prelude::*;
use vstd::string::*;

use crate::config::{
    AxisMapEntry, AxisMapping, AxisMappingEnum, Behavior, ButtonMappingEnum, Config, StickDeadzoneCheck, StickGroup, FractionThreshold, SdlKey, SdlName, SimulateGamepad,
    StringOrU16, TrThreshold,
};
use crate::sdl::{
    is_sdl_axis, is_sdl_button, SDL_AXIS_COUNT, SDL_AXIS_LEFTX, SDL_AXIS_LEFTY,
    SDL_AXIS_LEFT_TRIGGER, SDL_AXIS_RIGHTX, SDL_AXIS_RIGHTY, SDL_AXIS_RIGHT_TRIGGER,
    SDL_BUTTON_BACK, SDL_BUTTON_COUNT, SDL_BUTTON_DPAD_DOWN, SDL_BUTTON_DPAD_LEFT,
    SDL_BUTTON_DPAD_RIGHT, SDL_BUTTON_DPAD_UP, SDL_BUTTON_EAST, SDL_BUTTON_GUIDE,
    SDL_BUTTON_LEFT_PADDLE1, SDL_BUTTON_LEFT_PADDLE2, SDL_BUTTON_LEFT_SHOULDER,
    SDL_BUTTON_LEFT_STICK, SDL_BUTTON_MISC1, SDL_BUTTON_MISC2, SDL_BUTTON_MISC3,
    SDL_BUTTON_MISC4, SDL_BUTTON_MISC5, SDL_BUTTON_MISC6, SDL_BUTTON_NORTH,
    SDL_BUTTON_RIGHT_PADDLE1, SDL_BUTTON_RIGHT_PADDLE2, SDL_BUTTON_RIGHT_SHOULDER,
    SDL_BUTTON_RIGHT_STICK, SDL_BUTTON_SOUTH, SDL_BUTTON_START, SDL_BUTTON_TOUCHPAD,
    SDL_BUTTON_WEST,
};
use crate::fold::{
    lemma_assoc_insert_entries, lemma_fold_results_invariant,
    assoc_find, assoc_get, has_key, key_index, lemma_assoc_get_push, lemma_keys_distinct_take, assoc_insert, assoc_insert_exec, contains_u16, fold_results, keys_distinct,
    lemma_fold_results_error_stays, lemma_fold_results_step, lemma_take_all,
};
use crate::simulated::RUMBLE_MUL_MAX;
use crate::simulated_gyro::ParsedGyroConfig;
use crate::Args;
use crate::text::{kept_chars, lower_form, seq_contains_str, str_contains, upper_form, str_eq, strip_separators, to_lowercase, to_uppercase};

verus! {

/// Why a preset was refused.
#[derive(Debug)]
pub enum ConfigError {
    UnknownSdlButtonName(String),
    UnknownSdlButtonId(u16),
    UnknownSdlAxisName(String),
    UnknownSdlAxisId(u16),
    /// The key name resolves to the reserved code `u16::MAX`.
    UnsupportedKeyCode,
    UnknownKeyCode(String),
    UnknownAxisCode(String),
    UnknownBusType(String),
    /// An error while reading `simulate_gamepad.bus_type`.
    ParsingBusType(Box<ConfigError>),
    /// An error in the button binding of the named gamepad button.
    ButtonBinding { key: String, inner: Box<ConfigError> },
    /// An error in the axis binding of the named gamepad axis.
    AxisBinding { key: String, inner: Box<ConfigError> },
    /// Two bindings write the same output key.
    DuplicateButtonOutput { key: String, code: u16 },
    /// Two bindings write the same output axis.
    DuplicateAxisOutput { key: String, code: u16 },
    /// `out_range` is not in increasing order.
    AxisOutRangeOrder,
    /// `initial` lies outside `out_range`.
    AxisInitialOutsideRange,
    /// `from_range` is decreasing somewhere.
    AxisFromRangeOrder,
    /// `to_range` is neither increasing nor decreasing.
    AxisToRangeOrder,
    /// The digital trigger thresholds are not both zero, or not both non-zero
    /// with the same sign and the release no farther out than the press.
    DigitriggerThresholds,
    StickDeadzoneOrder,
    StickInvalidFloat,
    StickNegativeClamp,
    /// An `i32` computation on the ranges of an axis overflows.
    ArithmeticOverflow,
}

// ---------------------------------------------------------------------------
// evdev names

/// The key code that evdev's `KeyCode::from_str` finds for a name, if any.
pub uninterp spec fn evdev_key_code_named(name: Seq<char>) -> Option<u16>;

/// The axis code that evdev's `AbsoluteAxisCode::from_str` finds for a name, if any.
pub uninterp spec fn evdev_axis_code_named(name: Seq<char>) -> Option<u16>;

/// The bus type that evdev's `BusType::from_str` finds for a name, if any.
pub uninterp spec fn evdev_bus_type_named(name: Seq<char>) -> Option<u16>;

/// `evdev::KeyCode::from_str`, which looks the exact name up in evdev's table of
/// key names; the result is named `evdev_key_code_named` of the name.
#[verifier::external_body]
fn key_code_from_str(s: &str) -> (r: Option<u16>)
    ensures
        r == evdev_key_code_named(s@),
{
    <evdev::KeyCode as std::str::FromStr>::from_str(s).ok().map(|k| k.0)
}

/// `evdev::AbsoluteAxisCode::from_str`, which looks the exact name up in evdev's
/// table of axis names; the result is named `evdev_axis_code_named` of the name.
#[verifier::external_body]
fn axis_code_from_str(s: &str) -> (r: Option<u16>)
    ensures
        r == evdev_axis_code_named(s@),
{
    <evdev::AbsoluteAxisCode as std::str::FromStr>::from_str(s).ok().map(|k| k.0)
}

/// `evdev::BusType::from_str`, which looks the exact name up in evdev's table of
/// bus names; the result is named `evdev_bus_type_named` of the name.
#[verifier::external_body]
fn bus_type_from_str(s: &str) -> (r: Option<u16>)
    ensures
        r == evdev_bus_type_named(s@),
{
    <evdev::BusType as std::str::FromStr>::from_str(s).ok().map(|k| k.0)
}

/// A key name as given, or else with `BTN_` before its upper-case form.
pub open spec fn spec_match_key_code_string(id: Seq<char>) -> Option<u16> {
    match evdev_key_code_named(id) {
        Some(c) => Some(c),
        None => evdev_key_code_named("BTN_"@ + upper_form(id)),
    }
}

/// Looks a key name up in evdev's table, trying `BTN_` and the upper-case name
/// when the name as given is unknown.
pub fn match_key_code_string(id: &str) -> (r: Option<u16>)
    ensures
        r == spec_match_key_code_string(id@),
{
    let direct = key_code_from_str(id);
    if direct.is_some() {
        return direct;
    }
    let upper = to_uppercase(id);
    let name = String::from_str("BTN_").concat(upper.as_str());
    key_code_from_str(name.as_str())
}

/// An axis name as given, or else with `ABS_` before its upper-case form.
pub open spec fn spec_match_axis_code_string(id: Seq<char>) -> Option<u16> {
    match evdev_axis_code_named(id) {
        Some(c) => Some(c),
        None => evdev_axis_code_named("ABS_"@ + upper_form(id)),
    }
}

/// Looks an axis name up in evdev's table, trying `ABS_` and the upper-case name
/// when the name as given is unknown.
pub fn match_axis_code_string(id: &str) -> (r: Option<u16>)
    ensures
        r == spec_match_axis_code_string(id@),
{
    let direct = axis_code_from_str(id);
    if direct.is_some() {
        return direct;
    }
    let upper = to_uppercase(id);
    let name = String::from_str("ABS_").concat(upper.as_str());
    axis_code_from_str(name.as_str())
}

/// The output key a name or number stands for.
pub open spec fn spec_match_key_code(id: StringOrU16) -> Result<u16, ConfigError> {
    match id {
        StringOrU16::String(v) => spec_key_code_result(v, spec_match_key_code_string(v@)),
        StringOrU16::U16(v) => Ok(v),
    }
}

/// The key code a name gives, from what the lookup of the name `found`: the
/// reserved code `u16::MAX` is refused, and so is a name the lookup did not know.
pub open spec fn spec_key_code_result(name: String, found: Option<u16>) -> Result<u16, ConfigError> {
    match found {
        Some(c) => if c == u16::MAX {
            Err(ConfigError::UnsupportedKeyCode)
        } else {
            Ok(c)
        },
        None => Err(ConfigError::UnknownKeyCode(name)),
    }
}

/// Turns the lookup of a key name into the key code or the error it stands for.
pub fn key_code_result(name: &String, found: Option<u16>) -> (r: Result<u16, ConfigError>)
    ensures
        r == spec_key_code_result(*name, found),
{
    match found {
        Some(c) => if c == u16::MAX {
            Err(ConfigError::UnsupportedKeyCode)
        } else {
            Ok(c)
        },
        None => Err(ConfigError::UnknownKeyCode(name.clone())),
    }
}

/// The output key a name or number stands for; a number is taken as the code itself.
pub fn match_key_code(id: &StringOrU16) -> (r: Result<u16, ConfigError>)
    ensures
        r == spec_match_key_code(*id),
{
    match id {
        StringOrU16::String(v) => key_code_result(v, match_key_code_string(v.as_str())),
        StringOrU16::U16(v) => Ok(*v),
    }
}

/// The output axis a name or number stands for.
pub open spec fn spec_match_axis_code(id: StringOrU16) -> Result<u16, ConfigError> {
    match id {
        StringOrU16::String(v) => spec_axis_code_result(v, spec_match_axis_code_string(v@)),
        StringOrU16::U16(v) => Ok(v),
    }
}

/// The axis code a name gives, from what the lookup of the name `found`.
pub open spec fn spec_axis_code_result(name: String, found: Option<u16>) -> Result<u16, ConfigError> {
    match found {
        Some(c) => Ok(c),
        None => Err(ConfigError::UnknownAxisCode(name)),
    }
}

/// Turns the lookup of an axis name into the axis code or the error it stands for.
pub fn axis_code_result(name: &String, found: Option<u16>) -> (r: Result<u16, ConfigError>)
    ensures
        r == spec_axis_code_result(*name, found),
{
    match found {
        Some(c) => Ok(c),
        None => Err(ConfigError::UnknownAxisCode(name.clone())),
    }
}

/// The output axis a name or number stands for; a number is taken as the code itself.
pub fn match_axis_code(id: &StringOrU16) -> (r: Result<u16, ConfigError>)
    ensures
        r == spec_match_axis_code(*id),
{
    match id {
        StringOrU16::String(v) => axis_code_result(v, match_axis_code_string(v.as_str())),
        StringOrU16::U16(v) => Ok(*v),
    }
}

/// The bus type a name or number stands for.
pub open spec fn spec_match_bus_type(id: StringOrU16) -> Result<u16, ConfigError> {
    match id {
        StringOrU16::String(v) => spec_bus_type_result(v, evdev_bus_type_named(v@)),
        StringOrU16::U16(v) => Ok(v),
    }
}

/// The bus type a name gives, from what the lookup of the name `found`.
pub open spec fn spec_bus_type_result(name: String, found: Option<u16>) -> Result<u16, ConfigError> {
    match found {
        Some(c) => Ok(c),
        None => Err(ConfigError::UnknownBusType(name)),
    }
}

/// Turns the lookup of a bus name into the bus type or the error it stands for.
pub fn bus_type_result(name: &String, found: Option<u16>) -> (r: Result<u16, ConfigError>)
    ensures
        r == spec_bus_type_result(*name, found),
{
    match found {
        Some(c) => Ok(c),
        None => Err(ConfigError::UnknownBusType(name.clone())),
    }
}

/// The bus type a name or number stands for; a number is taken as the code itself.
pub fn match_bus_type(id: &StringOrU16) -> (r: Result<u16, ConfigError>)
    ensures
        r == spec_match_bus_type(*id),
{
    match id {
        StringOrU16::String(v) => bus_type_result(v, bus_type_from_str(v.as_str())),
        StringOrU16::U16(v) => Ok(*v),
    }
}

// ---------------------------------------------------------------------------
// SDL names

/// The name as the alias tables compare it: underscores and spaces removed,
/// then lower-cased.
pub open spec fn alias_form(id: Seq<char>) -> Seq<char> {
    lower_form(id.filter(kept_chars()))
}

/// The buttons the short and alternative names stand for.
pub open spec fn sdl_button_alias(s: Seq<char>) -> Option<i32> {
    if s == "north"@ || s == "n"@ {
        Some(SDL_BUTTON_NORTH)
    } else if s == "east"@ || s == "e"@ {
        Some(SDL_BUTTON_EAST)
    } else if s == "south"@ || s == "s"@ {
        Some(SDL_BUTTON_SOUTH)
    } else if s == "west"@ || s == "w"@ {
        Some(SDL_BUTTON_WEST)
    } else if s == "back"@ || s == "select"@ {
        Some(SDL_BUTTON_BACK)
    } else if s == "guide"@ || s == "steam"@ {
        Some(SDL_BUTTON_GUIDE)
    } else if s == "start"@ {
        Some(SDL_BUTTON_START)
    } else if s == "leftstick"@ || s == "l3"@ {
        Some(SDL_BUTTON_LEFT_STICK)
    } else if s == "rightstick"@ || s == "r3"@ {
        Some(SDL_BUTTON_RIGHT_STICK)
    } else if s == "leftshoulder"@ || s == "l1"@ {
        Some(SDL_BUTTON_LEFT_SHOULDER)
    } else if s == "rightshoulder"@ || s == "r1"@ {
        Some(SDL_BUTTON_RIGHT_SHOULDER)
    } else if s == "dpadup"@ || s == "dpadu"@ || s == "dpu"@ {
        Some(SDL_BUTTON_DPAD_UP)
    } else if s == "dpaddown"@ || s == "dpadd"@ || s == "dpd"@ {
        Some(SDL_BUTTON_DPAD_DOWN)
    } else if s == "dpadleft"@ || s == "dpadl"@ || s == "dpl"@ {
        Some(SDL_BUTTON_DPAD_LEFT)
    } else if s == "dpadright"@ || s == "dpadr"@ || s == "dpr"@ {
        Some(SDL_BUTTON_DPAD_RIGHT)
    } else if s == "misc1"@ {
        Some(SDL_BUTTON_MISC1)
    } else if s == "misc2"@ {
        Some(SDL_BUTTON_MISC2)
    } else if s == "misc3"@ {
        Some(SDL_BUTTON_MISC3)
    } else if s == "misc4"@ {
        Some(SDL_BUTTON_MISC4)
    } else if s == "misc5"@ {
        Some(SDL_BUTTON_MISC5)
    } else if s == "misc6"@ {
        Some(SDL_BUTTON_MISC6)
    } else if s == "rightpaddle1"@ {
        Some(SDL_BUTTON_RIGHT_PADDLE1)
    } else if s == "leftpaddle1"@ {
        Some(SDL_BUTTON_LEFT_PADDLE1)
    } else if s == "rightpaddle2"@ {
        Some(SDL_BUTTON_RIGHT_PADDLE2)
    } else if s == "leftpaddle2"@ {
        Some(SDL_BUTTON_LEFT_PADDLE2)
    } else if s == "touchpad"@ {
        Some(SDL_BUTTON_TOUCHPAD)
    } else {
        None
    }
}

/// What SDL's own lookup of a button name gave, where it is a gamepad button.
pub open spec fn valid_button_lookup(sdl_lookup: Option<i32>) -> Option<i32> {
    match sdl_lookup {
        Some(b) => if is_sdl_button(b as int) {
            Some(b)
        } else {
            None
        },
        None => None,
    }
}

/// A button name through the alias table, or else through SDL's own lookup.
pub open spec fn spec_match_sdl_button_string(id: Seq<char>, sdl_lookup: Option<i32>) -> Option<i32> {
    match sdl_button_alias(alias_form(id)) {
        Some(b) => Some(b),
        None => valid_button_lookup(sdl_lookup),
    }
}

/// The SDL button a name stands for: one of the aliases (compared without
/// underscores and spaces, in lower case), or else what SDL's own lookup of the
/// name gave (`sdl_lookup`).
pub fn match_sdl_button_string(id: &str, sdl_lookup: Option<i32>) -> (r: Option<i32>)
    ensures
        r == spec_match_sdl_button_string(id@, sdl_lookup),
{
    let stripped = strip_separators(id);
    let lc = to_lowercase(stripped.as_str());
    button_by_alias(lc.as_str(), sdl_lookup)
}

/// The SDL button an alias stands for, given in the form the alias table
/// compares (`alias_form`), or else `sdl_lookup` where it is a gamepad button.
pub fn button_by_alias(s: &str, sdl_lookup: Option<i32>) -> (r: Option<i32>)
    ensures
        r == (match sdl_button_alias(s@) {
            Some(b) => Some(b),
            None => valid_button_lookup(sdl_lookup),
        }),
{
    if str_eq(s, "north") || str_eq(s, "n") {
        Some(SDL_BUTTON_NORTH)
    } else if str_eq(s, "east") || str_eq(s, "e") {
        Some(SDL_BUTTON_EAST)
    } else if str_eq(s, "south") || str_eq(s, "s") {
        Some(SDL_BUTTON_SOUTH)
    } else if str_eq(s, "west") || str_eq(s, "w") {
        Some(SDL_BUTTON_WEST)
    } else if str_eq(s, "back") || str_eq(s, "select") {
        Some(SDL_BUTTON_BACK)
    } else if str_eq(s, "guide") || str_eq(s, "steam") {
        Some(SDL_BUTTON_GUIDE)
    } else if str_eq(s, "start") {
        Some(SDL_BUTTON_START)
    } else if str_eq(s, "leftstick") || str_eq(s, "l3") {
        Some(SDL_BUTTON_LEFT_STICK)
    } else if str_eq(s, "rightstick") || str_eq(s, "r3") {
        Some(SDL_BUTTON_RIGHT_STICK)
    } else if str_eq(s, "leftshoulder") || str_eq(s, "l1") {
        Some(SDL_BUTTON_LEFT_SHOULDER)
    } else if str_eq(s, "rightshoulder") || str_eq(s, "r1") {
        Some(SDL_BUTTON_RIGHT_SHOULDER)
    } else if str_eq(s, "dpadup") || str_eq(s, "dpadu") || str_eq(s, "dpu") {
        Some(SDL_BUTTON_DPAD_UP)
    } else if str_eq(s, "dpaddown") || str_eq(s, "dpadd") || str_eq(s, "dpd") {
        Some(SDL_BUTTON_DPAD_DOWN)
    } else if str_eq(s, "dpadleft") || str_eq(s, "dpadl") || str_eq(s, "dpl") {
        Some(SDL_BUTTON_DPAD_LEFT)
    } else if str_eq(s, "dpadright") || str_eq(s, "dpadr") || str_eq(s, "dpr") {
        Some(SDL_BUTTON_DPAD_RIGHT)
    } else if str_eq(s, "misc1") {
        Some(SDL_BUTTON_MISC1)
    } else if str_eq(s, "misc2") {
        Some(SDL_BUTTON_MISC2)
    } else if str_eq(s, "misc3") {
        Some(SDL_BUTTON_MISC3)
    } else if str_eq(s, "misc4") {
        Some(SDL_BUTTON_MISC4)
    } else if str_eq(s, "misc5") {
        Some(SDL_BUTTON_MISC5)
    } else if str_eq(s, "misc6") {
        Some(SDL_BUTTON_MISC6)
    } else if str_eq(s, "rightpaddle1") {
        Some(SDL_BUTTON_RIGHT_PADDLE1)
    } else if str_eq(s, "leftpaddle1") {
        Some(SDL_BUTTON_LEFT_PADDLE1)
    } else if str_eq(s, "rightpaddle2") {
        Some(SDL_BUTTON_RIGHT_PADDLE2)
    } else if str_eq(s, "leftpaddle2") {
        Some(SDL_BUTTON_LEFT_PADDLE2)
    } else if str_eq(s, "touchpad") {
        Some(SDL_BUTTON_TOUCHPAD)
    } else {
        match sdl_lookup {
            Some(b) => if 0 <= b && b < SDL_BUTTON_COUNT {
                Some(b)
            } else {
                None
            },
            None => None,
        }
    }
}

/// The axes the short and alternative names stand for.
pub open spec fn sdl_axis_alias(s: Seq<char>) -> Option<i32> {
    if s == "leftx"@ || s == "lx"@ {
        Some(SDL_AXIS_LEFTX)
    } else if s == "rightx"@ || s == "rx"@ {
        Some(SDL_AXIS_RIGHTX)
    } else if s == "lefty"@ || s == "ly"@ {
        Some(SDL_AXIS_LEFTY)
    } else if s == "righty"@ || s == "ry"@ {
        Some(SDL_AXIS_RIGHTY)
    } else if s == "triggerleft"@ || s == "lefttrigger"@ || s == "ltrigger"@ || s == "triggerl"@
        || s == "tl"@ || s == "lt"@ || s == "l2"@ {
        Some(SDL_AXIS_LEFT_TRIGGER)
    } else if s == "triggerright"@ || s == "righttrigger"@ || s == "rtrigger"@ || s
        == "triggerr"@ || s == "tr"@ || s == "rt"@ || s == "r2"@ {
        Some(SDL_AXIS_RIGHT_TRIGGER)
    } else {
        None
    }
}

/// What SDL's own lookup of an axis name gave, where it is a gamepad axis.
pub open spec fn valid_axis_lookup(sdl_lookup: Option<i32>) -> Option<i32> {
    match sdl_lookup {
        Some(a) => if is_sdl_axis(a as int) {
            Some(a)
        } else {
            None
        },
        None => None,
    }
}

/// An axis name through the alias table, or else through SDL's own lookup.
pub open spec fn spec_match_sdl_axis_string(id: Seq<char>, sdl_lookup: Option<i32>) -> Option<i32> {
    match sdl_axis_alias(alias_form(id)) {
        Some(a) => Some(a),
        None => valid_axis_lookup(sdl_lookup),
    }
}

/// The SDL axis a name stands for: one of the aliases (compared without
/// underscores and spaces, in lower case), or else what SDL's own lookup of the
/// name gave (`sdl_lookup`).
pub fn match_sdl_axis_string(id: &str, sdl_lookup: Option<i32>) -> (r: Option<i32>)
    ensures
        r == spec_match_sdl_axis_string(id@, sdl_lookup),
{
    let stripped = strip_separators(id);
    let lc = to_lowercase(stripped.as_str());
    axis_by_alias(lc.as_str(), sdl_lookup)
}

/// The SDL axis an alias stands for, given in the form the alias table
/// compares (`alias_form`), or else `sdl_lookup` where it is a gamepad axis.
pub fn axis_by_alias(s: &str, sdl_lookup: Option<i32>) -> (r: Option<i32>)
    ensures
        r == (match sdl_axis_alias(s@) {
            Some(a) => Some(a),
            None => valid_axis_lookup(sdl_lookup),
        }),
{
    if str_eq(s, "leftx") || str_eq(s, "lx") {
        Some(SDL_AXIS_LEFTX)
    } else if str_eq(s, "rightx") || str_eq(s, "rx") {
        Some(SDL_AXIS_RIGHTX)
    } else if str_eq(s, "lefty") || str_eq(s, "ly") {
        Some(SDL_AXIS_LEFTY)
    } else if str_eq(s, "righty") || str_eq(s, "ry") {
        Some(SDL_AXIS_RIGHTY)
    } else if str_eq(s, "triggerleft") || str_eq(s, "lefttrigger") || str_eq(s, "ltrigger")
        || str_eq(s, "triggerl") || str_eq(s, "tl") || str_eq(s, "lt") || str_eq(s, "l2") {
        Some(SDL_AXIS_LEFT_TRIGGER)
    } else if str_eq(s, "triggerright") || str_eq(s, "righttrigger") || str_eq(s, "rtrigger")
        || str_eq(s, "triggerr") || str_eq(s, "tr") || str_eq(s, "rt") || str_eq(s, "r2") {
        Some(SDL_AXIS_RIGHT_TRIGGER)
    } else {
        match sdl_lookup {
            Some(a) => if 0 <= a && a < SDL_AXIS_COUNT {
                Some(a)
            } else {
                None
            },
            None => None,
        }
    }
}

/// The SDL button a key stands for.
pub open spec fn spec_match_sdl_button(id: SdlKey) -> Result<i32, ConfigError> {
    match id {
        SdlKey::Name(SdlName { name, sdl_lookup }) => match spec_match_sdl_button_string(name@, sdl_lookup) {
            Some(b) => Ok(b),
            None => Err(ConfigError::UnknownSdlButtonName(name)),
        },
        SdlKey::Index(v) => if is_sdl_button(v as int) {
            Ok(v as i32)
        } else {
            Err(ConfigError::UnknownSdlButtonId(v))
        },
    }
}

/// The SDL button a key stands for; a number must be a valid SDL button id.
pub fn match_sdl_button(id: &SdlKey) -> (r: Result<i32, ConfigError>)
    ensures
        r == spec_match_sdl_button(*id),
{
    match id {
        SdlKey::Name(SdlName { name, sdl_lookup }) => match match_sdl_button_string(name.as_str(), *sdl_lookup) {
            Some(b) => Ok(b),
            None => Err(ConfigError::UnknownSdlButtonName(name.clone())),
        },
        SdlKey::Index(v) => if (*v as i32) < SDL_BUTTON_COUNT {
            Ok(*v as i32)
        } else {
            Err(ConfigError::UnknownSdlButtonId(*v))
        },
    }
}

/// The SDL axis a key stands for.
pub open spec fn spec_match_sdl_axis(id: SdlKey) -> Result<i32, ConfigError> {
    match id {
        SdlKey::Name(SdlName { name, sdl_lookup }) => match spec_match_sdl_axis_string(name@, sdl_lookup) {
            Some(a) => Ok(a),
            None => Err(ConfigError::UnknownSdlAxisName(name)),
        },
        SdlKey::Index(v) => if is_sdl_axis(v as int) {
            Ok(v as i32)
        } else {
            Err(ConfigError::UnknownSdlAxisId(v))
        },
    }
}

/// The SDL axis a key stands for; a number must be a valid SDL axis id.
pub fn match_sdl_axis(id: &SdlKey) -> (r: Result<i32, ConfigError>)
    ensures
        r == spec_match_sdl_axis(*id),
{
    match id {
        SdlKey::Name(SdlName { name, sdl_lookup }) => match match_sdl_axis_string(name.as_str(), *sdl_lookup) {
            Some(a) => Ok(a),
            None => Err(ConfigError::UnknownSdlAxisName(name.clone())),
        },
        SdlKey::Index(v) => if (*v as i32) < SDL_AXIS_COUNT {
            Ok(*v as i32)
        } else {
            Err(ConfigError::UnknownSdlAxisId(*v))
        },
    }
}

// ---------------------------------------------------------------------------
// bindings

/// An absolute output axis: its code and the ranges evdev is told about.
#[derive(Debug, Clone, Copy, PartialEq, Eq)]
pub struct AbsAxisSetup {
    pub code: u16,
    pub value: i32,
    pub minimum: i32,
    pub maximum: i32,
    pub fuzz: i32,
    pub flat: i32,
    pub resolution: i32,
}

/// Where a gamepad button goes.
#[derive(Debug, Clone, Copy, PartialEq, Eq)]
pub struct ParsedButtonBinding {
    pub code: u16,
    pub state: bool,
}

/// Where a gamepad axis goes and how its values are transformed.
///
/// An input value `v` becomes `(v - in_off)` scaled by `pos_fraction` above
/// `in_off` and by `neg_fraction` below it (numerator over denominator), plus
/// `out_off`, clamped to `clamp_out`.
#[derive(Debug, Clone, Copy, PartialEq, Eq)]
pub struct ParsedAxisBinding {
    pub setup: AbsAxisSetup,
    pub in_off: i64,
    pub out_off: i64,
    pub neg_fraction: [i64; 2],
    pub pos_fraction: [i64; 2],
    pub clamp_out: [i32; 2],
    pub out_range: [i32; 2],
    pub digitrigger_button: Option<u16>,
    pub digitrigger_thresh: [i32; 2],
    /// The stick group and dimension (false: x, true: y) the axis belongs to.
    pub axisgroup: Option<(usize, bool)>,
}

/// Whether an integer fits in `i32`.
pub open spec fn fits_i32(x: int) -> bool {
    i32::MIN <= x <= i32::MAX
}

impl ParsedAxisBinding {
    /// The offsets and fractions are what a parse produces: `i32` quantities,
    /// denominators at least 1.
    pub open spec fn wf(self) -> bool {
        &&& fits_i32(self.in_off as int)
        &&& fits_i32(self.out_off as int)
        &&& fits_i32(self.neg_fraction[0] as int)
        &&& fits_i32(self.pos_fraction[0] as int)
        &&& 1 <= self.neg_fraction[1] <= i32::MAX
        &&& 1 <= self.pos_fraction[1] <= i32::MAX
    }
}

/// The value of an option, or a default.
pub open spec fn or_default(o: Option<i32>, d: i32) -> i32 {
    match o {
        Some(v) => v,
        None => d,
    }
}

/// The first of two options that holds a value, or a default.
pub open spec fn first_or_default(a: Option<i32>, b: Option<i32>, d: i32) -> i32 {
    match a {
        Some(v) => v,
        None => or_default(b, d),
    }
}

fn first_or(a: Option<i32>, b: Option<i32>, d: i32) -> (r: i32)
    ensures
        r == first_or_default(a, b, d),
{
    match a {
        Some(v) => v,
        None => match b {
            Some(v) => v,
            None => d,
        },
    }
}

/// The sign of an integer: -1, 0 or 1.
pub open spec fn signum(x: int) -> int {
    if x > 0 {
        1
    } else if x < 0 {
        -1
    } else {
        0
    }
}

/// The absolute value of an integer.
pub open spec fn abs(x: int) -> int {
    if x < 0 {
        -x
    } else {
        x
    }
}

/// A threshold as an offset from the centre of the input range `[ia, ib, ic]`:
/// zero where the positive half is two units or shorter; a fraction scaled by the
/// half its sign points into; an absolute value as it is; zero for a fraction
/// that is not finite.
pub open spec fn resolve_threshold(t: TrThreshold, ib: int, ic: int) -> int {
    if ic <= ib + 2 {
        0
    } else {
        match t {
            TrThreshold::Fraction(f) => if f.finite && f.sign_negative {
                f.times_negative_span as int
            } else if f.finite && f.sign_positive {
                f.times_positive_span as int
            } else {
                0
            },
            TrThreshold::Abs { abs } => abs as int,
        }
    }
}

/// Press and release thresholds are acceptable: both zero, or both non-zero
/// with the same sign and the release no farther from the centre than the press.
pub open spec fn thresholds_valid(press: int, release: int) -> bool {
    (press == 0 && release == 0) || !(press == release || signum(press) != signum(release) || abs(release) > abs(press))
}

/// The input range's lower end when none is configured: 0 where the output
/// range starts at or above 0, else -32768.
pub open spec fn default_from_low(min: i32) -> i32 {
    if min >= 0 {
        0i32
    } else {
        -32768i32
    }
}

/// The output range of an axis mapping: as configured, else `[0, 32767]` for an
/// `absolute` (trigger) axis and `[-32768, 32767]` for any other.
pub open spec fn spec_output_range(m: AxisMapping, absolute: bool) -> [i32; 2] {
    match m.out_range {
        Some(r) => r,
        None => [if absolute { 0i32 } else { -32768i32 }, 32767i32],
    }
}

/// The input range of an axis mapping: as configured, else `[lo, 0, 32767]`
/// with `lo` as `default_from_low` gives it for the output range.
pub open spec fn spec_input_range(m: AxisMapping, absolute: bool) -> [i32; 3] {
    match m.from_range {
        Some(r) => r,
        None => [default_from_low(spec_output_range(m, absolute)[0]), 0i32, 32767i32],
    }
}

/// The target range of an axis mapping: as configured, else `[min, 0, max]` of
/// the output range.
pub open spec fn spec_target_range(m: AxisMapping, absolute: bool) -> [i32; 3] {
    match m.to_range {
        Some(r) => r,
        None => [spec_output_range(m, absolute)[0], 0i32, spec_output_range(m, absolute)[1]],
    }
}

/// The input range `[low, centre, high]` an axis mapping reads, which fraction
/// thresholds are scaled by.
pub fn axis_input_range(cfg: &AxisMappingEnum, absolute: bool) -> (r: [i32; 3])
    ensures
        r == spec_input_range(cfg.spec_mapping(), absolute),
{
    let m = cfg.mapping();
    let out_low: i32 = match m.out_range {
        Some(r) => r[0],
        None => if absolute { 0 } else { -32768 },
    };
    match m.from_range {
        Some(r) => r,
        None => [if out_low >= 0 { 0 } else { -32768 }, 0, 32767],
    }
}

/// The parse of an axis mapping, as the steps below describe it in order.
pub open spec fn spec_parse_axis_binding(
    cfg: AxisMappingEnum,
    i: SimulateGamepad,
    absolute: bool,
    default_thresh: [FractionThreshold; 2],
) -> Result<ParsedAxisBinding, ConfigError> {
    let m = cfg.spec_mapping();
    match spec_match_axis_code(m.key) {
        Err(e) => Err(e),
        Ok(code) => {
            let initial = or_default(m.initial, 0);
            let fuzz = first_or_default(m.fuzz, i.default_axis_fuzz, 0);
            let flat = first_or_default(m.flat, i.default_axis_flat, 0);
            let res = first_or_default(m.res, i.default_axis_res, 0);
            let out_range = spec_output_range(m, absolute);
            let min = out_range[0];
            let max = out_range[1];
            let from = spec_input_range(m, absolute);
            let to = spec_target_range(m, absolute);
            let (ia, ib, ic) = (from[0] as int, from[1] as int, from[2] as int);
            let (oa, ob, oc) = (to[0] as int, to[1] as int, to[2] as int);
            if max < min {
                Err(ConfigError::AxisOutRangeOrder)
            } else if initial > max || initial < min {
                Err(ConfigError::AxisInitialOutsideRange)
            } else if !(ia <= ib && ib <= ic) {
                Err(ConfigError::AxisFromRangeOrder)
            } else if !((oa <= ob && ob <= oc) || (oa >= ob && ob >= oc)) {
                Err(ConfigError::AxisToRangeOrder)
            } else if !(fits_i32(ob - oa) && fits_i32(ib - ia) && fits_i32(oc - ob) && fits_i32(ic - ib)) {
                Err(ConfigError::ArithmeticOverflow)
            } else {
                let digitrigger_button: Result<Option<u16>, ConfigError> = match m.digitrigger_button {
                    Some(b) => match spec_match_key_code(b) {
                        Ok(c) => Ok(Some(c)),
                        Err(e) => Err(e),
                    },
                    None => Ok(None),
                };
                match digitrigger_button {
                    Err(e) => Err(e),
                    Ok(digitrigger_button) => {
                        if !fits_i32(ib + 2) {
                            Err(ConfigError::ArithmeticOverflow)
                        } else {
                            let t = match m.digitrigger_thresh {
                                Some(t) => t,
                                None => [
                                    TrThreshold::Fraction(default_thresh[0]),
                                    TrThreshold::Fraction(default_thresh[1]),
                                ],
                            };
                            let press = resolve_threshold(t[0], ib, ic);
                            let release = resolve_threshold(t[1], ib, ic);
                            if press != release && signum(press) == signum(release)
                                && (press == i32::MIN || release == i32::MIN) {
                                Err(ConfigError::ArithmeticOverflow)
                            } else if !thresholds_valid(press, release) {
                                Err(ConfigError::DigitriggerThresholds)
                            } else {
                                Ok(ParsedAxisBinding {
                                    setup: AbsAxisSetup {
                                        code,
                                        value: initial,
                                        minimum: min,
                                        maximum: max,
                                        fuzz,
                                        flat,
                                        resolution: res,
                                    },
                                    in_off: ib as i64,
                                    out_off: ob as i64,
                                    neg_fraction: [
                                        (ob - oa) as i64,
                                        (if ib - ia > 1 { ib - ia } else { 1 }) as i64,
                                    ],
                                    pos_fraction: [
                                        (oc - ob) as i64,
                                        (if ic - ib > 1 { ic - ib } else { 1 }) as i64,
                                    ],
                                    clamp_out: [
                                        (if min >= (if oa <= oc { oa } else { oc }) { min as int } else { if oa <= oc { oa } else { oc } }) as i32,
                                        (if max <= (if oa >= oc { oa } else { oc }) { max as int } else { if oa >= oc { oa } else { oc } }) as i32,
                                    ],
                                    out_range: [min, max],
                                    digitrigger_button,
                                    digitrigger_thresh: [press as i32, release as i32],
                                    axisgroup: None,
                                })
                            }
                        }
                    },
                }
            }
        },
    }
}

/// The absolute value of an `i32` quantity held in an `i64`.
pub fn abs_i64(x: i64) -> (r: i64)
    requires
        fits_i32(x as int),
    ensures
        r as int == abs(x as int),
{
    if x < 0 {
        -x
    } else {
        x
    }
}

fn resolve_threshold_exec(t: TrThreshold, ib: i32, ic: i32) -> (r: i32)
    requires
        fits_i32(ib + 2),
    ensures
        r as int == resolve_threshold(t, ib as int, ic as int),
{
    if ic <= ib + 2 {
        0
    } else {
        match t {
            TrThreshold::Fraction(f) => if f.finite && f.sign_negative {
                f.times_negative_span
            } else if f.finite && f.sign_positive {
                f.times_positive_span
            } else {
                0
            },
            TrThreshold::Abs { abs } => abs,
        }
    }
}

/// Builds the binding of one gamepad axis to an output axis.
///
/// The output range defaults to `[0, 32767]` for an `absolute` (trigger) axis and
/// `[-32768, 32767]` otherwise; the input range defaults to `[lo, 0, 32767]` with
/// `lo` 0 or -32768 as the output range starts at or above 0 or below; the
/// target range defaults to `[min, 0, max]`. Inputs below the middle of the input
/// range map linearly onto the lower part of the target range, inputs above onto
/// the upper part; outputs are clamped to the target range within the output
/// range. Digital trigger thresholds default to `default_thresh`.
#[verifier::rlimit(80)]
pub fn parse_axis_binding(
    cfg: &AxisMappingEnum,
    i: &SimulateGamepad,
    absolute: bool,
    default_thresh: &[FractionThreshold; 2],
) -> (r: Result<ParsedAxisBinding, ConfigError>)
    ensures
        r == spec_parse_axis_binding(*cfg, *i, absolute, *default_thresh),
        r matches Ok(b) ==> b.wf(),
{
    let m = cfg.mapping();
    let code = match match_axis_code(&m.key) {
        Ok(c) => c,
        Err(e) => return Err(e),
    };
    let imin: i32 = if absolute { 0 } else { -32768 };
    let initial: i32 = match m.initial {
        Some(v) => v,
        None => 0,
    };
    let fuzz = first_or(m.fuzz, i.default_axis_fuzz, 0);
    let flat = first_or(m.flat, i.default_axis_flat, 0);
    let res = first_or(m.res, i.default_axis_res, 0);
    let out_range: [i32; 2] = match m.out_range {
        Some(r) => r,
        None => [imin, 32767],
    };
    let min = out_range[0];
    let max = out_range[1];
    if max < min {
        return Err(ConfigError::AxisOutRangeOrder);
    }
    if initial > max || initial < min {
        return Err(ConfigError::AxisInitialOutsideRange);
    }
    let from_low: i32 = if min >= 0 { 0 } else { -32768 };
    let from: [i32; 3] = match m.from_range {
        Some(r) => r,
        None => [from_low, 0, 32767],
    };
    let to: [i32; 3] = match m.to_range {
        Some(r) => r,
        None => [min, 0, max],
    };
    assert(to == spec_target_range(m, absolute));
    let ia = from[0];
    let ib = from[1];
    let ic = from[2];
    let oa = to[0];
    let ob = to[1];
    let oc = to[2];
    if !(ia <= ib && ib <= ic) {
        return Err(ConfigError::AxisFromRangeOrder);
    }
    if !((oa <= ob && ob <= oc) || (oa >= ob && ob >= oc)) {
        return Err(ConfigError::AxisToRangeOrder);
    }
    let d_neg_out = ob as i64 - oa as i64;
    let d_neg_in = ib as i64 - ia as i64;
    let d_pos_out = oc as i64 - ob as i64;
    let d_pos_in = ic as i64 - ib as i64;
    if !(i32::MIN as i64 <= d_neg_out && d_neg_out <= i32::MAX as i64 && d_neg_in <= i32::MAX as i64
        && i32::MIN as i64 <= d_pos_out && d_pos_out <= i32::MAX as i64 && d_pos_in <= i32::MAX as i64) {
        return Err(ConfigError::ArithmeticOverflow);
    }
    let neg_fraction: [i64; 2] = [d_neg_out, if d_neg_in > 1 { d_neg_in } else { 1 }];
    let pos_fraction: [i64; 2] = [d_pos_out, if d_pos_in > 1 { d_pos_in } else { 1 }];
    let in_off = ib as i64;
    let out_off = ob as i64;
    let o_low = if oa <= oc { oa } else { oc };
    let o_high = if oa >= oc { oa } else { oc };
    let clamp_out: [i32; 2] = [
        if min >= o_low { min } else { o_low },
        if max <= o_high { max } else { o_high },
    ];
    let digitrigger_button: Option<u16> = match &m.digitrigger_button {
        Some(b) => match match_key_code(b) {
            Ok(c) => Some(c),
            Err(e) => return Err(e),
        },
        None => None,
    };
    if ib > i32::MAX - 2 {
        return Err(ConfigError::ArithmeticOverflow);
    }
    let t: [TrThreshold; 2] = match m.digitrigger_thresh {
        Some(t) => t,
        None => [TrThreshold::Fraction(default_thresh[0]), TrThreshold::Fraction(default_thresh[1])],
    };
    let press = resolve_threshold_exec(t[0], ib, ic);
    let release = resolve_threshold_exec(t[1], ib, ic);
    let press_sign: i32 = if press > 0 { 1 } else if press < 0 { -1 } else { 0 };
    let release_sign: i32 = if release > 0 { 1 } else if release < 0 { -1 } else { 0 };
    if press != release && press_sign == release_sign && (press == i32::MIN || release == i32::MIN) {
        return Err(ConfigError::ArithmeticOverflow);
    }
    if !(press == 0 && release == 0)
        && (press == release || press_sign != release_sign || abs_i64(release as i64) > abs_i64(press as i64)) {
        return Err(ConfigError::DigitriggerThresholds);
    }
    Ok(ParsedAxisBinding {
        setup: AbsAxisSetup { code, value: initial, minimum: min, maximum: max, fuzz, flat, resolution: res },
        in_off,
        out_off,
        neg_fraction,
        pos_fraction,
        clamp_out,
        out_range: [min, max],
        digitrigger_button,
        digitrigger_thresh: [press, release],
        axisgroup: None,
    })
}

/// The parse of a button mapping: nothing for a d-pad mapping where d-pad
/// mappings are left out, else the output key it names.
pub open spec fn spec_parse_button_binding(cfg: ButtonMappingEnum, exclude_dpad: bool) -> Result<
    Option<ParsedButtonBinding>,
    ConfigError,
> {
    let m = cfg.spec_mapping();
    if exclude_dpad && m.dpad {
        Ok(None)
    } else {
        match spec_match_key_code(m.key) {
            Ok(code) => Ok(Some(ParsedButtonBinding { code, state: false })),
            Err(e) => Err(e),
        }
    }
}

/// Builds the binding of one gamepad button to an output key; a mapping marked
/// as d-pad is skipped where `exclude_dpad` is set.
pub fn parse_button_binding(cfg: &ButtonMappingEnum, exclude_dpad: bool) -> (r: Result<
    Option<ParsedButtonBinding>,
    ConfigError,
>)
    ensures
        r == spec_parse_button_binding(*cfg, exclude_dpad),
{
    let m = cfg.mapping();
    if exclude_dpad && m.dpad {
        return Ok(None);
    }
    match match_key_code(&m.key) {
        Ok(code) => Ok(Some(ParsedButtonBinding { code, state: false })),
        Err(e) => Err(e),
    }
}

// ---------------------------------------------------------------------------
// all bindings of a preset

/// The bindings of gamepad buttons, keyed by SDL button id.
pub type ParsedButtonBindings = Vec<(i32, ParsedButtonBinding)>;

/// The bindings of gamepad axes, keyed by SDL axis id.
pub type ParsedAxisBindings = Vec<(i32, ParsedAxisBinding)>;

/// The SDL button a map key names.
pub open spec fn spec_match_sdl_button_name(k: SdlName) -> Result<i32, ConfigError> {
    spec_match_sdl_button(SdlKey::Name(k))
}

/// The SDL button a map key names.
pub fn match_sdl_button_name(k: &SdlName) -> (r: Result<i32, ConfigError>)
    ensures
        r == spec_match_sdl_button_name(*k),
{
    match match_sdl_button_string(k.name.as_str(), k.sdl_lookup) {
        Some(b) => Ok(b),
        None => Err(ConfigError::UnknownSdlButtonName(k.name.clone())),
    }
}

/// The SDL axis a map key names.
pub open spec fn spec_match_sdl_axis_name(k: SdlName) -> Result<i32, ConfigError> {
    spec_match_sdl_axis(SdlKey::Name(k))
}

/// The SDL axis a map key names.
pub fn match_sdl_axis_name(k: &SdlName) -> (r: Result<i32, ConfigError>)
    ensures
        r == spec_match_sdl_axis_name(*k),
{
    match match_sdl_axis_string(k.name.as_str(), k.sdl_lookup) {
        Some(a) => Ok(a),
        None => Err(ConfigError::UnknownSdlAxisName(k.name.clone())),
    }
}

/// Whether an axis reports only one direction: SDL's name for it contains
/// "trigger" (in lower case). `axis_names` holds SDL's name of each axis id; an
/// axis without a name there is taken as two-directional.
pub open spec fn axis_is_absolute(axis_names: Seq<String>, key: i32) -> bool {
    0 <= key < axis_names.len() && seq_contains_str(lower_form(axis_names[key as int]@), "trigger"@)
}

/// Whether an axis reports only one direction.
pub fn axis_absolute(axis_names: &Vec<String>, key: i32) -> (r: bool)
    ensures
        r == axis_is_absolute(axis_names@, key),
{
    if key < 0 || key as usize >= axis_names.len() {
        return false;
    }
    let lc = to_lowercase(axis_names[key as usize].as_str());
    str_contains(lc.as_str(), "trigger")
}

/// One entry of the axis map, given the bindings so far and the output axes taken.
pub open spec fn axis_binding_step(
    sg: SimulateGamepad,
    axis_names: Seq<String>,
    acc: (Seq<(i32, ParsedAxisBinding)>, Seq<u16>),
    e: AxisMapEntry,
) -> Result<(Seq<(i32, ParsedAxisBinding)>, Seq<u16>), ConfigError> {
    let (out, taken) = acc;
    match spec_match_sdl_axis_name(e.key) {
        Err(err) => Err(err),
        Ok(key) => match spec_parse_axis_binding(
            e.mapping,
            sg,
            axis_is_absolute(axis_names, key),
            e.default_thresh,
        ) {
            Err(inner) => Err(ConfigError::AxisBinding { key: e.key.name, inner: Box::new(inner) }),
            Ok(b) => if taken.contains(b.setup.code) {
                Err(ConfigError::DuplicateAxisOutput { key: e.key.name, code: b.setup.code })
            } else {
                Ok((assoc_insert(out, key, b), taken.push(b.setup.code)))
            },
        },
    }
}

/// The whole axis map, in order, with `taken` the output axes already in use.
pub open spec fn spec_parse_axis_bindings(
    cfg: Seq<AxisMapEntry>,
    sg: SimulateGamepad,
    axis_names: Seq<String>,
    taken: Seq<u16>,
) -> Result<(Seq<(i32, ParsedAxisBinding)>, Seq<u16>), ConfigError> {
    fold_results(cfg, (Seq::empty(), taken), axis_binding_steps(sg, axis_names))
}

/// `axis_binding_step` as a function of the accumulator and the entry.
pub open spec fn axis_binding_steps(sg: SimulateGamepad, axis_names: Seq<String>) -> spec_fn(
    (Seq<(i32, ParsedAxisBinding)>, Seq<u16>),
    AxisMapEntry,
) -> Result<(Seq<(i32, ParsedAxisBinding)>, Seq<u16>), ConfigError> {
    |acc: (Seq<(i32, ParsedAxisBinding)>, Seq<u16>), e: AxisMapEntry| axis_binding_step(sg, axis_names, acc, e)
}

/// Every parsed axis binding is well formed and keyed by a valid axis.
pub open spec fn axis_bindings_wf(s: Seq<(i32, ParsedAxisBinding)>) -> bool {
    &&& keys_distinct(s)
    &&& forall|i: int| 0 <= i < s.len() ==> is_sdl_axis((#[trigger] s[i]).0 as int) && s[i].1.wf()
}

/// An alias names a valid axis.
pub proof fn lemma_axis_alias_valid(s: Seq<char>)
    ensures
        sdl_axis_alias(s) matches Some(a) ==> is_sdl_axis(a as int),
{
}

/// Binds every entry of the axis map in order. An entry fails on an unknown
/// gamepad axis, on a mapping that does not parse, or on an output axis already
/// taken (by `exclusions` or an earlier entry).
fn parse_axis_bindings(
    cfg: &Vec<AxisMapEntry>,
    sg: &SimulateGamepad,
    axis_names: &Vec<String>,
    exclusions: Vec<u16>,
) -> (r: Result<ParsedAxisBindings, ConfigError>)
    ensures
        match spec_parse_axis_bindings(cfg@, *sg, axis_names@, exclusions@) {
            Ok((o, _)) => r matches Ok(v) && v@ == o,
            Err(e) => r == Err::<ParsedAxisBindings, ConfigError>(e),
        },
        r matches Ok(v) ==> axis_bindings_wf(v@),
{
    let ghost step = axis_binding_steps(*sg, axis_names@);
    let mut out: Vec<(i32, ParsedAxisBinding)> = Vec::new();
    let mut taken = exclusions;
    let ghost taken0 = taken@;
    let mut i: usize = 0;
    proof {
        assert(cfg@.take(0) =~= Seq::<AxisMapEntry>::empty());
    }
    while i < cfg.len()
        invariant
            i <= cfg@.len(),
                    step == axis_binding_steps(*sg, axis_names@),
            taken0 == exclusions@,
            fold_results(cfg@.take(i as int), (Seq::empty(), taken0), step) == Ok::<(Seq<(i32, ParsedAxisBinding)>, Seq<u16>), ConfigError>((out@, taken@)),
            axis_bindings_wf(out@),
        decreases cfg@.len() - i,
    {
        proof {
            lemma_fold_results_step(cfg@, (Seq::empty(), taken0), step, i as int);
        }
        let e = &cfg[i];
        let key = match match_sdl_axis_name(&e.key) {
            Ok(k) => k,
            Err(err) => {
                proof {
                    lemma_fold_results_error_stays(cfg@, (Seq::empty(), taken0), step, i + 1);
                }
                return Err(err);
            },
        };
        proof {
            let k = e.key;
            assert(cfg@[i as int] == *e);
            lemma_axis_alias_valid(alias_form(k.name@));
        }
        let absolute = axis_absolute(axis_names, key);
        let binding = match parse_axis_binding(&e.mapping, sg, absolute, &e.default_thresh) {
            Ok(b) => b,
            Err(inner) => {
                proof {
                    lemma_fold_results_error_stays(cfg@, (Seq::empty(), taken0), step, i + 1);
                }
                return Err(ConfigError::AxisBinding { key: e.key.name.clone(), inner: Box::new(inner) });
            },
        };
        if contains_u16(&taken, binding.setup.code) {
            proof {
                lemma_fold_results_error_stays(cfg@, (Seq::empty(), taken0), step, i + 1);
            }
            return Err(ConfigError::DuplicateAxisOutput { key: e.key.name.clone(), code: binding.setup.code });
        }
        taken.push(binding.setup.code);
        let ghost out_before = out@;
        assoc_insert_exec(&mut out, key, binding);
        proof {
            assert forall|j: int| 0 <= j < out@.len() implies is_sdl_axis((#[trigger] out@[j]).0 as int)
                && out@[j].1.wf() by {
                if out@[j] != (key, binding) {
                    assert(out_before[j] == out@[j]);
                }
            }
        }
        i = i + 1;
    }
    proof {
        lemma_take_all(cfg@);
    }
    Ok(out)
}

/// One entry of the button map, given the bindings so far and the output keys taken.
pub open spec fn button_binding_step(
    exclude_dpad: bool,
    acc: (Seq<(i32, ParsedButtonBinding)>, Seq<u16>),
    e: (SdlName, ButtonMappingEnum),
) -> Result<(Seq<(i32, ParsedButtonBinding)>, Seq<u16>), ConfigError> {
    let (out, taken) = acc;
    match spec_match_sdl_button_name(e.0) {
        Err(err) => Err(err),
        Ok(key) => match spec_parse_button_binding(e.1, exclude_dpad) {
            Err(inner) => Err(ConfigError::ButtonBinding { key: e.0.name, inner: Box::new(inner) }),
            Ok(None) => Ok(acc),
            Ok(Some(b)) => if taken.contains(b.code) {
                Err(ConfigError::DuplicateButtonOutput { key: e.0.name, code: b.code })
            } else {
                Ok((assoc_insert(out, key, b), taken.push(b.code)))
            },
        },
    }
}

/// `button_binding_step` as a function of the accumulator and the entry.
pub open spec fn button_binding_steps(exclude_dpad: bool) -> spec_fn(
    (Seq<(i32, ParsedButtonBinding)>, Seq<u16>),
    (SdlName, ButtonMappingEnum),
) -> Result<(Seq<(i32, ParsedButtonBinding)>, Seq<u16>), ConfigError> {
    |acc: (Seq<(i32, ParsedButtonBinding)>, Seq<u16>), e: (SdlName, ButtonMappingEnum)|
        button_binding_step(exclude_dpad, acc, e)
}

/// The whole button map, in order, with `taken` the output keys already in use.
pub open spec fn spec_parse_button_bindings(
    cfg: Seq<(SdlName, ButtonMappingEnum)>,
    exclude_dpad: bool,
    taken: Seq<u16>,
) -> Result<(Seq<(i32, ParsedButtonBinding)>, Seq<u16>), ConfigError> {
    fold_results(cfg, (Seq::empty(), taken), button_binding_steps(exclude_dpad))
}

/// Every parsed button binding is keyed by a valid button, each button once.
pub open spec fn button_bindings_wf(s: Seq<(i32, ParsedButtonBinding)>) -> bool {
    &&& keys_distinct(s)
    &&& forall|i: int| 0 <= i < s.len() ==> is_sdl_button((#[trigger] s[i]).0 as int)
}

/// SDL's own name of each gamepad axis, as its mapping strings spell it.
pub open spec fn sdl_axis_long_name(id: int) -> Seq<char> {
    if id == SDL_AXIS_LEFTX {
        "leftx"@
    } else if id == SDL_AXIS_LEFTY {
        "lefty"@
    } else if id == SDL_AXIS_RIGHTX {
        "rightx"@
    } else if id == SDL_AXIS_RIGHTY {
        "righty"@
    } else if id == SDL_AXIS_LEFT_TRIGGER {
        "lefttrigger"@
    } else {
        "righttrigger"@
    }
}

/// Every axis alias names the axis it spells: SDL's own name of each axis
/// gives that axis, and each short or reordered form gives the same axis as
/// the full name (`lx` and `leftx`, `ry` and `righty`, `l2`, `lt`, `tl`,
/// `ltrigger`, `triggerl`, `triggerleft` and `lefttrigger`, and so on).
pub proof fn lemma_axis_aliases_name_their_axis(id: int)
    requires
        is_sdl_axis(id),
    ensures
        sdl_axis_alias(sdl_axis_long_name(id)) == Some(id as i32),
        sdl_axis_alias("leftx"@) == Some(SDL_AXIS_LEFTX),
        sdl_axis_alias("lx"@) == Some(SDL_AXIS_LEFTX),
        sdl_axis_alias("rightx"@) == Some(SDL_AXIS_RIGHTX),
        sdl_axis_alias("rx"@) == Some(SDL_AXIS_RIGHTX),
        sdl_axis_alias("lefty"@) == Some(SDL_AXIS_LEFTY),
        sdl_axis_alias("ly"@) == Some(SDL_AXIS_LEFTY),
        sdl_axis_alias("righty"@) == Some(SDL_AXIS_RIGHTY),
        sdl_axis_alias("ry"@) == Some(SDL_AXIS_RIGHTY),
        sdl_axis_alias("triggerleft"@) == Some(SDL_AXIS_LEFT_TRIGGER),
        sdl_axis_alias("lefttrigger"@) == Some(SDL_AXIS_LEFT_TRIGGER),
        sdl_axis_alias("ltrigger"@) == Some(SDL_AXIS_LEFT_TRIGGER),
        sdl_axis_alias("triggerl"@) == Some(SDL_AXIS_LEFT_TRIGGER),
        sdl_axis_alias("tl"@) == Some(SDL_AXIS_LEFT_TRIGGER),
        sdl_axis_alias("lt"@) == Some(SDL_AXIS_LEFT_TRIGGER),
        sdl_axis_alias("l2"@) == Some(SDL_AXIS_LEFT_TRIGGER),
        sdl_axis_alias("triggerright"@) == Some(SDL_AXIS_RIGHT_TRIGGER),
        sdl_axis_alias("righttrigger"@) == Some(SDL_AXIS_RIGHT_TRIGGER),
        sdl_axis_alias("rtrigger"@) == Some(SDL_AXIS_RIGHT_TRIGGER),
        sdl_axis_alias("triggerr"@) == Some(SDL_AXIS_RIGHT_TRIGGER),
        sdl_axis_alias("tr"@) == Some(SDL_AXIS_RIGHT_TRIGGER),
        sdl_axis_alias("rt"@) == Some(SDL_AXIS_RIGHT_TRIGGER),
        sdl_axis_alias("r2"@) == Some(SDL_AXIS_RIGHT_TRIGGER),
{
    reveal_strlit("leftx");
    reveal_strlit("lx");
    reveal_strlit("rightx");
    reveal_strlit("rx");
    reveal_strlit("lefty");
    reveal_strlit("ly");
    reveal_strlit("righty");
    reveal_strlit("ry");
    reveal_strlit("triggerleft");
    reveal_strlit("lefttrigger");
    reveal_strlit("ltrigger");
    reveal_strlit("triggerl");
    reveal_strlit("tl");
    reveal_strlit("lt");
    reveal_strlit("l2");
    reveal_strlit("triggerright");
    reveal_strlit("righttrigger");
    reveal_strlit("rtrigger");
    reveal_strlit("triggerr");
    reveal_strlit("tr");
    reveal_strlit("rt");
    reveal_strlit("r2");
    assert(sdl_axis_alias("leftx"@) == Some(SDL_AXIS_LEFTX));
    assert(sdl_axis_alias("lx"@) == Some(SDL_AXIS_LEFTX));
    assert("rightx"@.len() != "leftx"@.len());
    assert("rightx"@.len() != "lx"@.len());
    assert(sdl_axis_alias("rightx"@) == Some(SDL_AXIS_RIGHTX));
    assert("rx"@.len() != "leftx"@.len());
    assert("rx"@[0] != "lx"@[0]);
    assert(sdl_axis_alias("rx"@) == Some(SDL_AXIS_RIGHTX));
    assert("lefty"@[4] != "leftx"@[4]);
    assert("lefty"@.len() != "lx"@.len());
    assert("lefty"@.len() != "rightx"@.len());
    assert("lefty"@.len() != "rx"@.len());
    assert(sdl_axis_alias("lefty"@) == Some(SDL_AXIS_LEFTY));
    assert("ly"@.len() != "leftx"@.len());
    assert("ly"@[1] != "lx"@[1]);
    assert("ly"@.len() != "rightx"@.len());
    assert("ly"@[0] != "rx"@[0]);
    assert(sdl_axis_alias("ly"@) == Some(SDL_AXIS_LEFTY));
    assert("righty"@.len() != "leftx"@.len());
    assert("righty"@.len() != "lx"@.len());
    assert("righty"@[5] != "rightx"@[5]);
    assert("righty"@.len() != "rx"@.len());
    assert("righty"@.len() != "lefty"@.len());
    assert("righty"@.len() != "ly"@.len());
    assert(sdl_axis_alias("righty"@) == Some(SDL_AXIS_RIGHTY));
    assert("ry"@.len() != "leftx"@.len());
    assert("ry"@[0] != "lx"@[0]);
    assert("ry"@.len() != "rightx"@.len());
    assert("ry"@[1] != "rx"@[1]);
    assert("ry"@.len() != "lefty"@.len());
    assert("ry"@[0] != "ly"@[0]);
    assert(sdl_axis_alias("ry"@) == Some(SDL_AXIS_RIGHTY));
    assert("triggerleft"@.len() != "leftx"@.len());
    assert("triggerleft"@.len() != "lx"@.len());
    assert("triggerleft"@.len() != "rightx"@.len());
    assert("triggerleft"@.len() != "rx"@.len());
    assert("triggerleft"@.len() != "lefty"@.len());
    assert("triggerleft"@.len() != "ly"@.len());
    assert("triggerleft"@.len() != "righty"@.len());
    assert("triggerleft"@.len() != "ry"@.len());
    assert(sdl_axis_alias("triggerleft"@) == Some(SDL_AXIS_LEFT_TRIGGER));
    assert("lefttrigger"@.len() != "leftx"@.len());
    assert("lefttrigger"@.len() != "lx"@.len());
    assert("lefttrigger"@.len() != "rightx"@.len());
    assert("lefttrigger"@.len() != "rx"@.len());
    assert("lefttrigger"@.len() != "lefty"@.len());
    assert("lefttrigger"@.len() != "ly"@.len());
    assert("lefttrigger"@.len() != "righty"@.len());
    assert("lefttrigger"@.len() != "ry"@.len());
    assert(sdl_axis_alias("lefttrigger"@) == Some(SDL_AXIS_LEFT_TRIGGER));
    assert("ltrigger"@.len() != "leftx"@.len());
    assert("ltrigger"@.len() != "lx"@.len());
    assert("ltrigger"@.len() != "rightx"@.len());
    assert("ltrigger"@.len() != "rx"@.len());
    assert("ltrigger"@.len() != "lefty"@.len());
    assert("ltrigger"@.len() != "ly"@.len());
    assert("ltrigger"@.len() != "righty"@.len());
    assert("ltrigger"@.len() != "ry"@.len());
    assert(sdl_axis_alias("ltrigger"@) == Some(SDL_AXIS_LEFT_TRIGGER));
    assert("triggerl"@.len() != "leftx"@.len());
    assert("triggerl"@.len() != "lx"@.len());
    assert("triggerl"@.len() != "rightx"@.len());
    assert("triggerl"@.len() != "rx"@.len());
    assert("triggerl"@.len() != "lefty"@.len());
    assert("triggerl"@.len() != "ly"@.len());
    assert("triggerl"@.len() != "righty"@.len());
    assert("triggerl"@.len() != "ry"@.len());
    assert(sdl_axis_alias("triggerl"@) == Some(SDL_AXIS_LEFT_TRIGGER));
    assert("tl"@.len() != "leftx"@.len());
    assert("tl"@[0] != "lx"@[0]);
    assert("tl"@.len() != "rightx"@.len());
    assert("tl"@[0] != "rx"@[0]);
    assert("tl"@.len() != "lefty"@.len());
    assert("tl"@[0] != "ly"@[0]);
    assert("tl"@.len() != "righty"@.len());
    assert("tl"@[0] != "ry"@[0]);
    assert(sdl_axis_alias("tl"@) == Some(SDL_AXIS_LEFT_TRIGGER));
    assert("lt"@.len() != "leftx"@.len());
    assert("lt"@[1] != "lx"@[1]);
    assert("lt"@.len() != "rightx"@.len());
    assert("lt"@[0] != "rx"@[0]);
    assert("lt"@.len() != "lefty"@.len());
    assert("lt"@[1] != "ly"@[1]);
    assert("lt"@.len() != "righty"@.len());
    assert("lt"@[0] != "ry"@[0]);
    assert(sdl_axis_alias("lt"@) == Some(SDL_AXIS_LEFT_TRIGGER));
    assert("l2"@.len() != "leftx"@.len());
    assert("l2"@[1] != "lx"@[1]);
    assert("l2"@.len() != "rightx"@.len());
    assert("l2"@[0] != "rx"@[0]);
    assert("l2"@.len() != "lefty"@.len());
    assert("l2"@[1] != "ly"@[1]);
    assert("l2"@.len() != "righty"@.len());
    assert("l2"@[0] != "ry"@[0]);
    assert(sdl_axis_alias("l2"@) == Some(SDL_AXIS_LEFT_TRIGGER));
    assert("triggerright"@.len() != "leftx"@.len());
    assert("triggerright"@.len() != "lx"@.len());
    assert("triggerright"@.len() != "rightx"@.len());
    assert("triggerright"@.len() != "rx"@.len());
    assert("triggerright"@.len() != "lefty"@.len());
    assert("triggerright"@.len() != "ly"@.len());
    assert("triggerright"@.len() != "righty"@.len());
    assert("triggerright"@.len() != "ry"@.len());
    assert("triggerright"@.len() != "triggerleft"@.len());
    assert("triggerright"@.len() != "lefttrigger"@.len());
    assert("triggerright"@.len() != "ltrigger"@.len());
    assert("triggerright"@.len() != "triggerl"@.len());
    assert("triggerright"@.len() != "tl"@.len());
    assert("triggerright"@.len() != "lt"@.len());
    assert("triggerright"@.len() != "l2"@.len());
    assert(sdl_axis_alias("triggerright"@) == Some(SDL_AXIS_RIGHT_TRIGGER));
    assert("righttrigger"@.len() != "leftx"@.len());
    assert("righttrigger"@.len() != "lx"@.len());
    assert("righttrigger"@.len() != "rightx"@.len());
    assert("righttrigger"@.len() != "rx"@.len());
    assert("righttrigger"@.len() != "lefty"@.len());
    assert("righttrigger"@.len() != "ly"@.len());
    assert("righttrigger"@.len() != "righty"@.len());
    assert("righttrigger"@.len() != "ry"@.len());
    assert("righttrigger"@.len() != "triggerleft"@.len());
    assert("righttrigger"@.len() != "lefttrigger"@.len());
    assert("righttrigger"@.len() != "ltrigger"@.len());
    assert("righttrigger"@.len() != "triggerl"@.len());
    assert("righttrigger"@.len() != "tl"@.len());
    assert("righttrigger"@.len() != "lt"@.len());
    assert("righttrigger"@.len() != "l2"@.len());
    assert(sdl_axis_alias("righttrigger"@) == Some(SDL_AXIS_RIGHT_TRIGGER));
    assert("rtrigger"@.len() != "leftx"@.len());
    assert("rtrigger"@.len() != "lx"@.len());
    assert("rtrigger"@.len() != "rightx"@.len());
    assert("rtrigger"@.len() != "rx"@.len());
    assert("rtrigger"@.len() != "lefty"@.len());
    assert("rtrigger"@.len() != "ly"@.len());
    assert("rtrigger"@.len() != "righty"@.len());
    assert("rtrigger"@.len() != "ry"@.len());
    assert("rtrigger"@.len() != "triggerleft"@.len());
    assert("rtrigger"@.len() != "lefttrigger"@.len());
    assert("rtrigger"@[0] != "ltrigger"@[0]);
    assert("rtrigger"@[0] != "triggerl"@[0]);
    assert("rtrigger"@.len() != "tl"@.len());
    assert("rtrigger"@.len() != "lt"@.len());
    assert("rtrigger"@.len() != "l2"@.len());
    assert(sdl_axis_alias("rtrigger"@) == Some(SDL_AXIS_RIGHT_TRIGGER));
    assert("triggerr"@.len() != "leftx"@.len());
    assert("triggerr"@.len() != "lx"@.len());
    assert("triggerr"@.len() != "rightx"@.len());
    assert("triggerr"@.len() != "rx"@.len());
    assert("triggerr"@.len() != "lefty"@.len());
    assert("triggerr"@.len() != "ly"@.len());
    assert("triggerr"@.len() != "righty"@.len());
    assert("triggerr"@.len() != "ry"@.len());
    assert("triggerr"@.len() != "triggerleft"@.len());
    assert("triggerr"@.len() != "lefttrigger"@.len());
    assert("triggerr"@[0] != "ltrigger"@[0]);
    assert("triggerr"@[7] != "triggerl"@[7]);
    assert("triggerr"@.len() != "tl"@.len());
    assert("triggerr"@.len() != "lt"@.len());
    assert("triggerr"@.len() != "l2"@.len());
    assert(sdl_axis_alias("triggerr"@) == Some(SDL_AXIS_RIGHT_TRIGGER));
    assert("tr"@.len() != "leftx"@.len());
    assert("tr"@[0] != "lx"@[0]);
    assert("tr"@.len() != "rightx"@.len());
    assert("tr"@[0] != "rx"@[0]);
    assert("tr"@.len() != "lefty"@.len());
    assert("tr"@[0] != "ly"@[0]);
    assert("tr"@.len() != "righty"@.len());
    assert("tr"@[0] != "ry"@[0]);
    assert("tr"@.len() != "triggerleft"@.len());
    assert("tr"@.len() != "lefttrigger"@.len());
    assert("tr"@.len() != "ltrigger"@.len());
    assert("tr"@.len() != "triggerl"@.len());
    assert("tr"@[1] != "tl"@[1]);
    assert("tr"@[0] != "lt"@[0]);
    assert("tr"@[0] != "l2"@[0]);
    assert(sdl_axis_alias("tr"@) == Some(SDL_AXIS_RIGHT_TRIGGER));
    assert("rt"@.len() != "leftx"@.len());
    assert("rt"@[0] != "lx"@[0]);
    assert("rt"@.len() != "rightx"@.len());
    assert("rt"@[1] != "rx"@[1]);
    assert("rt"@.len() != "lefty"@.len());
    assert("rt"@[0] != "ly"@[0]);
    assert("rt"@.len() != "righty"@.len());
    assert("rt"@[1] != "ry"@[1]);
    assert("rt"@.len() != "triggerleft"@.len());
    assert("rt"@.len() != "lefttrigger"@.len());
    assert("rt"@.len() != "ltrigger"@.len());
    assert("rt"@.len() != "triggerl"@.len());
    assert("rt"@[0] != "tl"@[0]);
    assert("rt"@[0] != "lt"@[0]);
    assert("rt"@[0] != "l2"@[0]);
    assert(sdl_axis_alias("rt"@) == Some(SDL_AXIS_RIGHT_TRIGGER));
    assert("r2"@.len() != "leftx"@.len());
    assert("r2"@[0] != "lx"@[0]);
    assert("r2"@.len() != "rightx"@.len());
    assert("r2"@[1] != "rx"@[1]);
    assert("r2"@.len() != "lefty"@.len());
    assert("r2"@[0] != "ly"@[0]);
    assert("r2"@.len() != "righty"@.len());
    assert("r2"@[1] != "ry"@[1]);
    assert("r2"@.len() != "triggerleft"@.len());
    assert("r2"@.len() != "lefttrigger"@.len());
    assert("r2"@.len() != "ltrigger"@.len());
    assert("r2"@.len() != "triggerl"@.len());
    assert("r2"@[0] != "tl"@[0]);
    assert("r2"@[0] != "lt"@[0]);
    assert("r2"@[0] != "l2"@[0]);
    assert(sdl_axis_alias("r2"@) == Some(SDL_AXIS_RIGHT_TRIGGER));
}

/// The full name of each gamepad button in the alias table: its position
/// (`south`, `east`, `west`, `north`), its role (`back`, `guide`, `start`,
/// `touchpad`), its place (`leftstick`, `rightshoulder`, `dpadup`,
/// `leftpaddle1`, ...) or its number (`misc1` to `misc6`).
pub open spec fn sdl_button_long_name(id: int) -> Seq<char> {
    if id == SDL_BUTTON_NORTH {
        "north"@
    } else if id == SDL_BUTTON_EAST {
        "east"@
    } else if id == SDL_BUTTON_SOUTH {
        "south"@
    } else if id == SDL_BUTTON_WEST {
        "west"@
    } else if id == SDL_BUTTON_BACK {
        "back"@
    } else if id == SDL_BUTTON_GUIDE {
        "guide"@
    } else if id == SDL_BUTTON_START {
        "start"@
    } else if id == SDL_BUTTON_LEFT_STICK {
        "leftstick"@
    } else if id == SDL_BUTTON_RIGHT_STICK {
        "rightstick"@
    } else if id == SDL_BUTTON_LEFT_SHOULDER {
        "leftshoulder"@
    } else if id == SDL_BUTTON_RIGHT_SHOULDER {
        "rightshoulder"@
    } else if id == SDL_BUTTON_DPAD_UP {
        "dpadup"@
    } else if id == SDL_BUTTON_DPAD_DOWN {
        "dpaddown"@
    } else if id == SDL_BUTTON_DPAD_LEFT {
        "dpadleft"@
    } else if id == SDL_BUTTON_DPAD_RIGHT {
        "dpadright"@
    } else if id == SDL_BUTTON_MISC1 {
        "misc1"@
    } else if id == SDL_BUTTON_MISC2 {
        "misc2"@
    } else if id == SDL_BUTTON_MISC3 {
        "misc3"@
    } else if id == SDL_BUTTON_MISC4 {
        "misc4"@
    } else if id == SDL_BUTTON_MISC5 {
        "misc5"@
    } else if id == SDL_BUTTON_MISC6 {
        "misc6"@
    } else if id == SDL_BUTTON_RIGHT_PADDLE1 {
        "rightpaddle1"@
    } else if id == SDL_BUTTON_LEFT_PADDLE1 {
        "leftpaddle1"@
    } else if id == SDL_BUTTON_RIGHT_PADDLE2 {
        "rightpaddle2"@
    } else if id == SDL_BUTTON_LEFT_PADDLE2 {
        "leftpaddle2"@
    } else {
        "touchpad"@
    }
}

/// The lengths of the button aliases.
proof fn lemma_button_alias_lengths()
    ensures
        "north"@.len() == 5,
        "n"@.len() == 1,
        "east"@.len() == 4,
        "e"@.len() == 1,
        "south"@.len() == 5,
        "s"@.len() == 1,
        "west"@.len() == 4,
        "w"@.len() == 1,
        "back"@.len() == 4,
        "select"@.len() == 6,
        "guide"@.len() == 5,
        "steam"@.len() == 5,
        "start"@.len() == 5,
        "leftstick"@.len() == 9,
        "l3"@.len() == 2,
        "rightstick"@.len() == 10,
        "r3"@.len() == 2,
        "leftshoulder"@.len() == 12,
        "l1"@.len() == 2,
        "rightshoulder"@.len() == 13,
        "r1"@.len() == 2,
        "dpadup"@.len() == 6,
        "dpadu"@.len() == 5,
        "dpu"@.len() == 3,
        "dpaddown"@.len() == 8,
        "dpadd"@.len() == 5,
        "dpd"@.len() == 3,
        "dpadleft"@.len() == 8,
        "dpadl"@.len() == 5,
        "dpl"@.len() == 3,
        "dpadright"@.len() == 9,
        "dpadr"@.len() == 5,
        "dpr"@.len() == 3,
        "misc1"@.len() == 5,
        "misc2"@.len() == 5,
        "misc3"@.len() == 5,
        "misc4"@.len() == 5,
        "misc5"@.len() == 5,
        "misc6"@.len() == 5,
        "rightpaddle1"@.len() == 12,
        "leftpaddle1"@.len() == 11,
        "rightpaddle2"@.len() == 12,
        "leftpaddle2"@.len() == 11,
        "touchpad"@.len() == 8,
{
    reveal_strlit("north");
    reveal_strlit("n");
    reveal_strlit("east");
    reveal_strlit("e");
    reveal_strlit("south");
    reveal_strlit("s");
    reveal_strlit("west");
    reveal_strlit("w");
    reveal_strlit("back");
    reveal_strlit("select");
    reveal_strlit("guide");
    reveal_strlit("steam");
    reveal_strlit("start");
    reveal_strlit("leftstick");
    reveal_strlit("l3");
    reveal_strlit("rightstick");
    reveal_strlit("r3");
    reveal_strlit("leftshoulder");
    reveal_strlit("l1");
    reveal_strlit("rightshoulder");
    reveal_strlit("r1");
    reveal_strlit("dpadup");
    reveal_strlit("dpadu");
    reveal_strlit("dpu");
    reveal_strlit("dpaddown");
    reveal_strlit("dpadd");
    reveal_strlit("dpd");
    reveal_strlit("dpadleft");
    reveal_strlit("dpadl");
    reveal_strlit("dpl");
    reveal_strlit("dpadright");
    reveal_strlit("dpadr");
    reveal_strlit("dpr");
    reveal_strlit("misc1");
    reveal_strlit("misc2");
    reveal_strlit("misc3");
    reveal_strlit("misc4");
    reveal_strlit("misc5");
    reveal_strlit("misc6");
    reveal_strlit("rightpaddle1");
    reveal_strlit("leftpaddle1");
    reveal_strlit("rightpaddle2");
    reveal_strlit("leftpaddle2");
    reveal_strlit("touchpad");
}

proof fn lemma_button_alias_north()
    ensures
        sdl_button_alias("north"@) == Some(SDL_BUTTON_NORTH),
        sdl_button_alias("n"@) == Some(SDL_BUTTON_NORTH),
{
    lemma_button_alias_lengths();
    reveal_strlit("n");
    reveal_strlit("north");
}

proof fn lemma_button_alias_east()
    ensures
        sdl_button_alias("east"@) == Some(SDL_BUTTON_EAST),
        sdl_button_alias("e"@) == Some(SDL_BUTTON_EAST),
{
    lemma_button_alias_lengths();
    reveal_strlit("e");
    reveal_strlit("east");
    reveal_strlit("n");
    assert("e"@[0] != "n"@[0]);
}

proof fn lemma_button_alias_south()
    ensures
        sdl_button_alias("south"@) == Some(SDL_BUTTON_SOUTH),
        sdl_button_alias("s"@) == Some(SDL_BUTTON_SOUTH),
{
    lemma_button_alias_lengths();
    reveal_strlit("e");
    reveal_strlit("n");
    reveal_strlit("north");
    reveal_strlit("s");
    reveal_strlit("south");
    assert("south"@[0] != "north"@[0]);
    assert("s"@[0] != "n"@[0]);
    assert("s"@[0] != "e"@[0]);
}

proof fn lemma_button_alias_west()
    ensures
        sdl_button_alias("west"@) == Some(SDL_BUTTON_WEST),
        sdl_button_alias("w"@) == Some(SDL_BUTTON_WEST),
{
    lemma_button_alias_lengths();
    reveal_strlit("e");
    reveal_strlit("east");
    reveal_strlit("n");
    reveal_strlit("s");
    reveal_strlit("w");
    reveal_strlit("west");
    assert("west"@[0] != "east"@[0]);
    assert("w"@[0] != "n"@[0]);
    assert("w"@[0] != "e"@[0]);
    assert("w"@[0] != "s"@[0]);
}

proof fn lemma_button_alias_back()
    ensures
        sdl_button_alias("back"@) == Some(SDL_BUTTON_BACK),
        sdl_button_alias("select"@) == Some(SDL_BUTTON_BACK),
{
    lemma_button_alias_lengths();
    reveal_strlit("back");
    reveal_strlit("east");
    reveal_strlit("select");
    reveal_strlit("west");
    assert("back"@[0] != "east"@[0]);
    assert("back"@[0] != "west"@[0]);
}

proof fn lemma_button_alias_guide()
    ensures
        sdl_button_alias("guide"@) == Some(SDL_BUTTON_GUIDE),
        sdl_button_alias("steam"@) == Some(SDL_BUTTON_GUIDE),
{
    lemma_button_alias_lengths();
    reveal_strlit("guide");
    reveal_strlit("north");
    reveal_strlit("south");
    reveal_strlit("steam");
    assert("guide"@[0] != "north"@[0]);
    assert("guide"@[0] != "south"@[0]);
    assert("steam"@[0] != "north"@[0]);
    assert("steam"@[1] != "south"@[1]);
}

proof fn lemma_button_alias_start()
    ensures
        sdl_button_alias("start"@) == Some(SDL_BUTTON_START),
{
    lemma_button_alias_lengths();
    reveal_strlit("guide");
    reveal_strlit("north");
    reveal_strlit("south");
    reveal_strlit("start");
    reveal_strlit("steam");
    assert("start"@[0] != "north"@[0]);
    assert("start"@[1] != "south"@[1]);
    assert("start"@[0] != "guide"@[0]);
    assert("start"@[2] != "steam"@[2]);
}

proof fn lemma_button_alias_leftstick()
    ensures
        sdl_button_alias("leftstick"@) == Some(SDL_BUTTON_LEFT_STICK),
        sdl_button_alias("l3"@) == Some(SDL_BUTTON_LEFT_STICK),
{
    lemma_button_alias_lengths();
    reveal_strlit("l3");
    reveal_strlit("leftstick");
}

proof fn lemma_button_alias_rightstick()
    ensures
        sdl_button_alias("rightstick"@) == Some(SDL_BUTTON_RIGHT_STICK),
        sdl_button_alias("r3"@) == Some(SDL_BUTTON_RIGHT_STICK),
{
    lemma_button_alias_lengths();
    reveal_strlit("l3");
    reveal_strlit("r3");
    reveal_strlit("rightstick");
    assert("r3"@[0] != "l3"@[0]);
}

proof fn lemma_button_alias_leftshoulder()
    ensures
        sdl_button_alias("leftshoulder"@) == Some(SDL_BUTTON_LEFT_SHOULDER),
        sdl_button_alias("l1"@) == Some(SDL_BUTTON_LEFT_SHOULDER),
{
    lemma_button_alias_lengths();
    reveal_strlit("l1");
    reveal_strlit("l3");
    reveal_strlit("leftshoulder");
    reveal_strlit("r3");
    assert("l1"@[1] != "l3"@[1]);
    assert("l1"@[0] != "r3"@[0]);
}

proof fn lemma_button_alias_rightshoulder()
    ensures
        sdl_button_alias("rightshoulder"@) == Some(SDL_BUTTON_RIGHT_SHOULDER),
        sdl_button_alias("r1"@) == Some(SDL_BUTTON_RIGHT_SHOULDER),
{
    lemma_button_alias_lengths();
    reveal_strlit("l1");
    reveal_strlit("l3");
    reveal_strlit("r1");
    reveal_strlit("r3");
    reveal_strlit("rightshoulder");
    assert("r1"@[0] != "l3"@[0]);
    assert("r1"@[1] != "r3"@[1]);
    assert("r1"@[0] != "l1"@[0]);
}

proof fn lemma_button_alias_dpadup()
    ensures
        sdl_button_alias("dpadup"@) == Some(SDL_BUTTON_DPAD_UP),
        sdl_button_alias("dpadu"@) == Some(SDL_BUTTON_DPAD_UP),
        sdl_button_alias("dpu"@) == Some(SDL_BUTTON_DPAD_UP),
{
    lemma_button_alias_lengths();
    reveal_strlit("dpadu");
    reveal_strlit("dpadup");
    reveal_strlit("dpu");
    reveal_strlit("guide");
    reveal_strlit("north");
    reveal_strlit("select");
    reveal_strlit("south");
    reveal_strlit("start");
    reveal_strlit("steam");
    assert("dpadup"@[0] != "select"@[0]);
    assert("dpadu"@[0] != "north"@[0]);
    assert("dpadu"@[0] != "south"@[0]);
    assert("dpadu"@[0] != "guide"@[0]);
    assert("dpadu"@[0] != "steam"@[0]);
    assert("dpadu"@[0] != "start"@[0]);
}

proof fn lemma_button_alias_dpaddown()
    ensures
        sdl_button_alias("dpaddown"@) == Some(SDL_BUTTON_DPAD_DOWN),
        sdl_button_alias("dpadd"@) == Some(SDL_BUTTON_DPAD_DOWN),
        sdl_button_alias("dpd"@) == Some(SDL_BUTTON_DPAD_DOWN),
{
    lemma_button_alias_lengths();
    reveal_strlit("dpadd");
    reveal_strlit("dpaddown");
    reveal_strlit("dpadu");
    reveal_strlit("dpd");
    reveal_strlit("dpu");
    reveal_strlit("guide");
    reveal_strlit("north");
    reveal_strlit("south");
    reveal_strlit("start");
    reveal_strlit("steam");
    assert("dpadd"@[0] != "north"@[0]);
    assert("dpadd"@[0] != "south"@[0]);
    assert("dpadd"@[0] != "guide"@[0]);
    assert("dpadd"@[0] != "steam"@[0]);
    assert("dpadd"@[0] != "start"@[0]);
    assert("dpadd"@[4] != "dpadu"@[4]);
    assert("dpd"@[2] != "dpu"@[2]);
}

proof fn lemma_button_alias_dpadleft()
    ensures
        sdl_button_alias("dpadleft"@) == Some(SDL_BUTTON_DPAD_LEFT),
        sdl_button_alias("dpadl"@) == Some(SDL_BUTTON_DPAD_LEFT),
        sdl_button_alias("dpl"@) == Some(SDL_BUTTON_DPAD_LEFT),
{
    lemma_button_alias_lengths();
    reveal_strlit("dpadd");
    reveal_strlit("dpaddown");
    reveal_strlit("dpadl");
    reveal_strlit("dpadleft");
    reveal_strlit("dpadu");
    reveal_strlit("dpd");
    reveal_strlit("dpl");
    reveal_strlit("dpu");
    reveal_strlit("guide");
    reveal_strlit("north");
    reveal_strlit("south");
    reveal_strlit("start");
    reveal_strlit("steam");
    assert("dpadleft"@[4] != "dpaddown"@[4]);
    assert("dpadl"@[0] != "north"@[0]);
    assert("dpadl"@[0] != "south"@[0]);
    assert("dpadl"@[0] != "guide"@[0]);
    assert("dpadl"@[0] != "steam"@[0]);
    assert("dpadl"@[0] != "start"@[0]);
    assert("dpadl"@[4] != "dpadu"@[4]);
    assert("dpadl"@[4] != "dpadd"@[4]);
    assert("dpl"@[2] != "dpu"@[2]);
    assert("dpl"@[2] != "dpd"@[2]);
}

proof fn lemma_button_alias_dpadright()
    ensures
        sdl_button_alias("dpadright"@) == Some(SDL_BUTTON_DPAD_RIGHT),
        sdl_button_alias("dpadr"@) == Some(SDL_BUTTON_DPAD_RIGHT),
        sdl_button_alias("dpr"@) == Some(SDL_BUTTON_DPAD_RIGHT),
{
    lemma_button_alias_lengths();
    reveal_strlit("dpadd");
    reveal_strlit("dpadl");
    reveal_strlit("dpadr");
    reveal_strlit("dpadright");
    reveal_strlit("dpadu");
    reveal_strlit("dpd");
    reveal_strlit("dpl");
    reveal_strlit("dpr");
    reveal_strlit("dpu");
    reveal_strlit("guide");
    reveal_strlit("leftstick");
    reveal_strlit("north");
    reveal_strlit("south");
    reveal_strlit("start");
    reveal_strlit("steam");
    assert("dpadright"@[0] != "leftstick"@[0]);
    assert("dpadr"@[0] != "north"@[0]);
    assert("dpadr"@[0] != "south"@[0]);
    assert("dpadr"@[0] != "guide"@[0]);
    assert("dpadr"@[0] != "steam"@[0]);
    assert("dpadr"@[0] != "start"@[0]);
    assert("dpadr"@[4] != "dpadu"@[4]);
    assert("dpadr"@[4] != "dpadd"@[4]);
    assert("dpadr"@[4] != "dpadl"@[4]);
    assert("dpr"@[2] != "dpu"@[2]);
    assert("dpr"@[2] != "dpd"@[2]);
    assert("dpr"@[2] != "dpl"@[2]);
}

proof fn lemma_button_alias_misc1()
    ensures
        sdl_button_alias("misc1"@) == Some(SDL_BUTTON_MISC1),
{
    lemma_button_alias_lengths();
    reveal_strlit("dpadd");
    reveal_strlit("dpadl");
    reveal_strlit("dpadr");
    reveal_strlit("dpadu");
    reveal_strlit("guide");
    reveal_strlit("misc1");
    reveal_strlit("north");
    reveal_strlit("south");
    reveal_strlit("start");
    reveal_strlit("steam");
    assert("misc1"@[0] != "north"@[0]);
    assert("misc1"@[0] != "south"@[0]);
    assert("misc1"@[0] != "guide"@[0]);
    assert("misc1"@[0] != "steam"@[0]);
    assert("misc1"@[0] != "start"@[0]);
    assert("misc1"@[0] != "dpadu"@[0]);
    assert("misc1"@[0] != "dpadd"@[0]);
    assert("misc1"@[0] != "dpadl"@[0]);
    assert("misc1"@[0] != "dpadr"@[0]);
}

proof fn lemma_button_alias_misc2()
    ensures
        sdl_button_alias("misc2"@) == Some(SDL_BUTTON_MISC2),
{
    lemma_button_alias_lengths();
    reveal_strlit("dpadd");
    reveal_strlit("dpadl");
    reveal_strlit("dpadr");
    reveal_strlit("dpadu");
    reveal_strlit("guide");
    reveal_strlit("misc1");
    reveal_strlit("misc2");
    reveal_strlit("north");
    reveal_strlit("south");
    reveal_strlit("start");
    reveal_strlit("steam");
    assert("misc2"@[0] != "north"@[0]);
    assert("misc2"@[0] != "south"@[0]);
    assert("misc2"@[0] != "guide"@[0]);
    assert("misc2"@[0] != "steam"@[0]);
    assert("misc2"@[0] != "start"@[0]);
    assert("misc2"@[0] != "dpadu"@[0]);
    assert("misc2"@[0] != "dpadd"@[0]);
    assert("misc2"@[0] != "dpadl"@[0]);
    assert("misc2"@[0] != "dpadr"@[0]);
    assert("misc2"@[4] != "misc1"@[4]);
}

proof fn lemma_button_alias_misc3()
    ensures
        sdl_button_alias("misc3"@) == Some(SDL_BUTTON_MISC3),
{
    lemma_button_alias_lengths();
    reveal_strlit("dpadd");
    reveal_strlit("dpadl");
    reveal_strlit("dpadr");
    reveal_strlit("dpadu");
    reveal_strlit("guide");
    reveal_strlit("misc1");
    reveal_strlit("misc2");
    reveal_strlit("misc3");
    reveal_strlit("north");
    reveal_strlit("south");
    reveal_strlit("start");
    reveal_strlit("steam");
    assert("misc3"@[0] != "north"@[0]);
    assert("misc3"@[0] != "south"@[0]);
    assert("misc3"@[0] != "guide"@[0]);
    assert("misc3"@[0] != "steam"@[0]);
    assert("misc3"@[0] != "start"@[0]);
    assert("misc3"@[0] != "dpadu"@[0]);
    assert("misc3"@[0] != "dpadd"@[0]);
    assert("misc3"@[0] != "dpadl"@[0]);
    assert("misc3"@[0] != "dpadr"@[0]);
    assert("misc3"@[4] != "misc1"@[4]);
    assert("misc3"@[4] != "misc2"@[4]);
}

proof fn lemma_button_alias_misc4()
    ensures
        sdl_button_alias("misc4"@) == Some(SDL_BUTTON_MISC4),
{
    lemma_button_alias_lengths();
    reveal_strlit("dpadd");
    reveal_strlit("dpadl");
    reveal_strlit("dpadr");
    reveal_strlit("dpadu");
    reveal_strlit("guide");
    reveal_strlit("misc1");
    reveal_strlit("misc2");
    reveal_strlit("misc3");
    reveal_strlit("misc4");
    reveal_strlit("north");
    reveal_strlit("south");
    reveal_strlit("start");
    reveal_strlit("steam");
    assert("misc4"@[0] != "north"@[0]);
    assert("misc4"@[0] != "south"@[0]);
    assert("misc4"@[0] != "guide"@[0]);
    assert("misc4"@[0] != "steam"@[0]);
    assert("misc4"@[0] != "start"@[0]);
    assert("misc4"@[0] != "dpadu"@[0]);
    assert("misc4"@[0] != "dpadd"@[0]);
    assert("misc4"@[0] != "dpadl"@[0]);
    assert("misc4"@[0] != "dpadr"@[0]);
    assert("misc4"@[4] != "misc1"@[4]);
    assert("misc4"@[4] != "misc2"@[4]);
    assert("misc4"@[4] != "misc3"@[4]);
}

proof fn lemma_button_alias_misc5()
    ensures
        sdl_button_alias("misc5"@) == Some(SDL_BUTTON_MISC5),
{
    lemma_button_alias_lengths();
    reveal_strlit("dpadd");
    reveal_strlit("dpadl");
    reveal_strlit("dpadr");
    reveal_strlit("dpadu");
    reveal_strlit("guide");
    reveal_strlit("misc1");
    reveal_strlit("misc2");
    reveal_strlit("misc3");
    reveal_strlit("misc4");
    reveal_strlit("misc5");
    reveal_strlit("north");
    reveal_strlit("south");
    reveal_strlit("start");
    reveal_strlit("steam");
    assert("misc5"@[0] != "north"@[0]);
    assert("misc5"@[0] != "south"@[0]);
    assert("misc5"@[0] != "guide"@[0]);
    assert("misc5"@[0] != "steam"@[0]);
    assert("misc5"@[0] != "start"@[0]);
    assert("misc5"@[0] != "dpadu"@[0]);
    assert("misc5"@[0] != "dpadd"@[0]);
    assert("misc5"@[0] != "dpadl"@[0]);
    assert("misc5"@[0] != "dpadr"@[0]);
    assert("misc5"@[4] != "misc1"@[4]);
    assert("misc5"@[4] != "misc2"@[4]);
    assert("misc5"@[4] != "misc3"@[4]);
    assert("misc5"@[4] != "misc4"@[4]);
}

proof fn lemma_button_alias_misc6()
    ensures
        sdl_button_alias("misc6"@) == Some(SDL_BUTTON_MISC6),
{
    lemma_button_alias_lengths();
    reveal_strlit("dpadd");
    reveal_strlit("dpadl");
    reveal_strlit("dpadr");
    reveal_strlit("dpadu");
    reveal_strlit("guide");
    reveal_strlit("misc1");
    reveal_strlit("misc2");
    reveal_strlit("misc3");
    reveal_strlit("misc4");
    reveal_strlit("misc5");
    reveal_strlit("misc6");
    reveal_strlit("north");
    reveal_strlit("south");
    reveal_strlit("start");
    reveal_strlit("steam");
    assert("misc6"@[0] != "north"@[0]);
    assert("misc6"@[0] != "south"@[0]);
    assert("misc6"@[0] != "guide"@[0]);
    assert("misc6"@[0] != "steam"@[0]);
    assert("misc6"@[0] != "start"@[0]);
    assert("misc6"@[0] != "dpadu"@[0]);
    assert("misc6"@[0] != "dpadd"@[0]);
    assert("misc6"@[0] != "dpadl"@[0]);
    assert("misc6"@[0] != "dpadr"@[0]);
    assert("misc6"@[4] != "misc1"@[4]);
    assert("misc6"@[4] != "misc2"@[4]);
    assert("misc6"@[4] != "misc3"@[4]);
    assert("misc6"@[4] != "misc4"@[4]);
    assert("misc6"@[4] != "misc5"@[4]);
}

proof fn lemma_button_alias_rightpaddle1()
    ensures
        sdl_button_alias("rightpaddle1"@) == Some(SDL_BUTTON_RIGHT_PADDLE1),
{
    lemma_button_alias_lengths();
    reveal_strlit("leftshoulder");
    reveal_strlit("rightpaddle1");
    assert("rightpaddle1"@[0] != "leftshoulder"@[0]);
}

proof fn lemma_button_alias_leftpaddle1()
    ensures
        sdl_button_alias("leftpaddle1"@) == Some(SDL_BUTTON_LEFT_PADDLE1),
{
    lemma_button_alias_lengths();
    reveal_strlit("leftpaddle1");
}

proof fn lemma_button_alias_rightpaddle2()
    ensures
        sdl_button_alias("rightpaddle2"@) == Some(SDL_BUTTON_RIGHT_PADDLE2),
{
    lemma_button_alias_lengths();
    reveal_strlit("leftshoulder");
    reveal_strlit("rightpaddle1");
    reveal_strlit("rightpaddle2");
    assert("rightpaddle2"@[0] != "leftshoulder"@[0]);
    assert("rightpaddle2"@[11] != "rightpaddle1"@[11]);
}

proof fn lemma_button_alias_leftpaddle2()
    ensures
        sdl_button_alias("leftpaddle2"@) == Some(SDL_BUTTON_LEFT_PADDLE2),
{
    lemma_button_alias_lengths();
    reveal_strlit("leftpaddle1");
    reveal_strlit("leftpaddle2");
    assert("leftpaddle2"@[10] != "leftpaddle1"@[10]);
}

proof fn lemma_button_alias_touchpad()
    ensures
        sdl_button_alias("touchpad"@) == Some(SDL_BUTTON_TOUCHPAD),
{
    lemma_button_alias_lengths();
    reveal_strlit("dpaddown");
    reveal_strlit("dpadleft");
    reveal_strlit("touchpad");
    assert("touchpad"@[0] != "dpaddown"@[0]);
    assert("touchpad"@[0] != "dpadleft"@[0]);
}

/// Every button alias names the button it spells: the full name of each
/// button gives that button, and each short or other form gives the same
/// button as the full name (`s` and `south`, `select` and `back`, `steam` and
/// `guide`, `l3` and `leftstick`, `r1` and `rightshoulder`, `dpu`, `dpadu` and
/// `dpadup`, and so on).
pub proof fn lemma_button_aliases_name_their_button(id: int)
    requires
        is_sdl_button(id),
    ensures
        sdl_button_alias(sdl_button_long_name(id)) == Some(id as i32),
        sdl_button_alias("north"@) == Some(SDL_BUTTON_NORTH),
        sdl_button_alias("n"@) == Some(SDL_BUTTON_NORTH),
        sdl_button_alias("east"@) == Some(SDL_BUTTON_EAST),
        sdl_button_alias("e"@) == Some(SDL_BUTTON_EAST),
        sdl_button_alias("south"@) == Some(SDL_BUTTON_SOUTH),
        sdl_button_alias("s"@) == Some(SDL_BUTTON_SOUTH),
        sdl_button_alias("west"@) == Some(SDL_BUTTON_WEST),
        sdl_button_alias("w"@) == Some(SDL_BUTTON_WEST),
        sdl_button_alias("back"@) == Some(SDL_BUTTON_BACK),
        sdl_button_alias("select"@) == Some(SDL_BUTTON_BACK),
        sdl_button_alias("guide"@) == Some(SDL_BUTTON_GUIDE),
        sdl_button_alias("steam"@) == Some(SDL_BUTTON_GUIDE),
        sdl_button_alias("start"@) == Some(SDL_BUTTON_START),
        sdl_button_alias("leftstick"@) == Some(SDL_BUTTON_LEFT_STICK),
        sdl_button_alias("l3"@) == Some(SDL_BUTTON_LEFT_STICK),
        sdl_button_alias("rightstick"@) == Some(SDL_BUTTON_RIGHT_STICK),
        sdl_button_alias("r3"@) == Some(SDL_BUTTON_RIGHT_STICK),
        sdl_button_alias("leftshoulder"@) == Some(SDL_BUTTON_LEFT_SHOULDER),
        sdl_button_alias("l1"@) == Some(SDL_BUTTON_LEFT_SHOULDER),
        sdl_button_alias("rightshoulder"@) == Some(SDL_BUTTON_RIGHT_SHOULDER),
        sdl_button_alias("r1"@) == Some(SDL_BUTTON_RIGHT_SHOULDER),
        sdl_button_alias("dpadup"@) == Some(SDL_BUTTON_DPAD_UP),
        sdl_button_alias("dpadu"@) == Some(SDL_BUTTON_DPAD_UP),
        sdl_button_alias("dpu"@) == Some(SDL_BUTTON_DPAD_UP),
        sdl_button_alias("dpaddown"@) == Some(SDL_BUTTON_DPAD_DOWN),
        sdl_button_alias("dpadd"@) == Some(SDL_BUTTON_DPAD_DOWN),
        sdl_button_alias("dpd"@) == Some(SDL_BUTTON_DPAD_DOWN),
        sdl_button_alias("dpadleft"@) == Some(SDL_BUTTON_DPAD_LEFT),
        sdl_button_alias("dpadl"@) == Some(SDL_BUTTON_DPAD_LEFT),
        sdl_button_alias("dpl"@) == Some(SDL_BUTTON_DPAD_LEFT),
        sdl_button_alias("dpadright"@) == Some(SDL_BUTTON_DPAD_RIGHT),
        sdl_button_alias("dpadr"@) == Some(SDL_BUTTON_DPAD_RIGHT),
        sdl_button_alias("dpr"@) == Some(SDL_BUTTON_DPAD_RIGHT),
        sdl_button_alias("misc1"@) == Some(SDL_BUTTON_MISC1),
        sdl_button_alias("misc2"@) == Some(SDL_BUTTON_MISC2),
        sdl_button_alias("misc3"@) == Some(SDL_BUTTON_MISC3),
        sdl_button_alias("misc4"@) == Some(SDL_BUTTON_MISC4),
        sdl_button_alias("misc5"@) == Some(SDL_BUTTON_MISC5),
        sdl_button_alias("misc6"@) == Some(SDL_BUTTON_MISC6),
        sdl_button_alias("rightpaddle1"@) == Some(SDL_BUTTON_RIGHT_PADDLE1),
        sdl_button_alias("leftpaddle1"@) == Some(SDL_BUTTON_LEFT_PADDLE1),
        sdl_button_alias("rightpaddle2"@) == Some(SDL_BUTTON_RIGHT_PADDLE2),
        sdl_button_alias("leftpaddle2"@) == Some(SDL_BUTTON_LEFT_PADDLE2),
        sdl_button_alias("touchpad"@) == Some(SDL_BUTTON_TOUCHPAD),
{
    lemma_button_alias_north();
    lemma_button_alias_east();
    lemma_button_alias_south();
    lemma_button_alias_west();
    lemma_button_alias_back();
    lemma_button_alias_guide();
    lemma_button_alias_start();
    lemma_button_alias_leftstick();
    lemma_button_alias_rightstick();
    lemma_button_alias_leftshoulder();
    lemma_button_alias_rightshoulder();
    lemma_button_alias_dpadup();
    lemma_button_alias_dpaddown();
    lemma_button_alias_dpadleft();
    lemma_button_alias_dpadright();
    lemma_button_alias_misc1();
    lemma_button_alias_misc2();
    lemma_button_alias_misc3();
    lemma_button_alias_misc4();
    lemma_button_alias_misc5();
    lemma_button_alias_misc6();
    lemma_button_alias_rightpaddle1();
    lemma_button_alias_leftpaddle1();
    lemma_button_alias_rightpaddle2();
    lemma_button_alias_leftpaddle2();
    lemma_button_alias_touchpad();
}

/// An alias names a valid button.
pub proof fn lemma_button_alias_valid(s: Seq<char>)
    ensures
        sdl_button_alias(s) matches Some(b) ==> is_sdl_button(b as int),
{
}

/// Binds every entry of the button map in order. An entry fails on an unknown
/// gamepad button, on a key that does not parse, or on an output key already
/// taken (by `exclusions` or an earlier entry); a d-pad entry is skipped where
/// `exclude_dpad` is set.
fn parse_button_bindings(
    cfg: &Vec<(SdlName, ButtonMappingEnum)>,
    exclude_dpad: bool,
    exclusions: Vec<u16>,
) -> (r: Result<ParsedButtonBindings, ConfigError>)
    ensures
        match spec_parse_button_bindings(cfg@, exclude_dpad, exclusions@) {
            Ok((o, _)) => r matches Ok(v) && v@ == o,
            Err(e) => r == Err::<ParsedButtonBindings, ConfigError>(e),
        },
        r matches Ok(v) ==> button_bindings_wf(v@),
{
    let ghost step = button_binding_steps(exclude_dpad);
    let mut out: Vec<(i32, ParsedButtonBinding)> = Vec::new();
    let mut taken = exclusions;
    let ghost taken0 = taken@;
    let mut i: usize = 0;
    proof {
        assert(cfg@.take(0) =~= Seq::<(SdlName, ButtonMappingEnum)>::empty());
    }
    while i < cfg.len()
        invariant
            i <= cfg@.len(),
                step == button_binding_steps(exclude_dpad),
            taken0 == exclusions@,
            fold_results(cfg@.take(i as int), (Seq::empty(), taken0), step) == Ok::<(Seq<(i32, ParsedButtonBinding)>, Seq<u16>), ConfigError>((out@, taken@)),
            button_bindings_wf(out@),
        decreases cfg@.len() - i,
    {
        proof {
            lemma_fold_results_step(cfg@, (Seq::empty(), taken0), step, i as int);
        }
        let e = &cfg[i];
        let key = match match_sdl_button_name(&e.0) {
            Ok(k) => k,
            Err(err) => {
                proof {
                    lemma_fold_results_error_stays(cfg@, (Seq::empty(), taken0), step, i + 1);
                }
                return Err(err);
            },
        };
        proof {
            assert(cfg@[i as int] == *e);
            lemma_button_alias_valid(alias_form(e.0.name@));
        }
        match parse_button_binding(&e.1, exclude_dpad) {
            Err(inner) => {
                proof {
                    lemma_fold_results_error_stays(cfg@, (Seq::empty(), taken0), step, i + 1);
                }
                return Err(ConfigError::ButtonBinding { key: e.0.name.clone(), inner: Box::new(inner) });
            },
            Ok(None) => {},
            Ok(Some(binding)) => {
                if contains_u16(&taken, binding.code) {
                    proof {
                        lemma_fold_results_error_stays(cfg@, (Seq::empty(), taken0), step, i + 1);
                    }
                    return Err(ConfigError::DuplicateButtonOutput { key: e.0.name.clone(), code: binding.code });
                }
                taken.push(binding.code);
                let ghost out_before = out@;
                assoc_insert_exec(&mut out, key, binding);
                proof {
                    assert forall|j: int| 0 <= j < out@.len() implies is_sdl_button((#[trigger] out@[j]).0 as int) by {
                        if out@[j] != (key, binding) {
                            assert(out_before[j] == out@[j]);
                        }
                    }
                }
            },
        }
        i = i + 1;
    }
    proof {
        lemma_take_all(cfg@);
    }
    Ok(out)
}

/// The digital-trigger buttons of the axis bindings, in order.
pub open spec fn digitrigger_buttons(s: Seq<(i32, ParsedAxisBinding)>) -> Seq<u16>
    decreases s.len(),
{
    if s.len() == 0 {
        Seq::empty()
    } else {
        let rest = digitrigger_buttons(s.drop_last());
        match s.last().1.digitrigger_button {
            Some(b) => rest.push(b),
            None => rest,
        }
    }
}

fn collect_digitrigger_buttons(s: &Vec<(i32, ParsedAxisBinding)>) -> (r: Vec<u16>)
    ensures
        r@ == digitrigger_buttons(s@),
{
    let mut r: Vec<u16> = Vec::new();
    let mut i: usize = 0;
    while i < s.len()
        invariant
            i <= s@.len(),
            r@ == digitrigger_buttons(s@.take(i as int)),
        decreases s@.len() - i,
    {
        proof {
            assert(s@.take(i + 1).drop_last() =~= s@.take(i as int));
        }
        match s[i].1.digitrigger_button {
            Some(b) => r.push(b),
            None => {},
        }
        i = i + 1;
    }
    proof {
        lemma_take_all(s@);
    }
    r
}

// ---------------------------------------------------------------------------
// stick groups

/// Two gamepad axes processed together as a stick, by SDL axis id.
#[derive(Debug)]
pub struct ParsedStickGroup {
    pub name: String,
    pub axes: [i32; 2],
    pub process: bool,
}

/// Marks the binding of axis `k`, if there is one, as dimension `g.1` of stick group `g.0`.
pub open spec fn set_axisgroup(s: Seq<(i32, ParsedAxisBinding)>, k: i32, g: (usize, bool)) -> Seq<(i32, ParsedAxisBinding)> {
    if has_key(s, k) {
        let i = key_index(s, k);
        s.update(i, (k, ParsedAxisBinding { axisgroup: Some(g), ..s[i].1 }))
    } else {
        s
    }
}

fn set_axisgroup_exec(s: &mut Vec<(i32, ParsedAxisBinding)>, k: i32, g: (usize, bool))
    requires
        axis_bindings_wf(old(s)@),
    ensures
        final(s)@ == set_axisgroup(old(s)@, k, g),
        axis_bindings_wf(final(s)@),
{
    match assoc_find(s, k) {
        Some(i) => {
            let b = s[i].1;
            s.set(i, (k, ParsedAxisBinding { axisgroup: Some(g), ..b }));
        },
        None => {},
    }
}

/// One stick group, given the groups so far and the axis bindings: its dead-zone
/// verdict is checked, then its two axes are looked up and their bindings marked
/// as belonging to it.
pub open spec fn stick_group_step(
    acc: (Seq<ParsedStickGroup>, Seq<(i32, ParsedAxisBinding)>),
    e: (String, StickGroup),
) -> Result<(Seq<ParsedStickGroup>, Seq<(i32, ParsedAxisBinding)>), ConfigError> {
    let (groups, bindings) = acc;
    let idx = groups.len() as usize;
    match e.1.deadzone_check {
        StickDeadzoneCheck::BadOrder => Err(ConfigError::StickDeadzoneOrder),
        StickDeadzoneCheck::NotFinite => Err(ConfigError::StickInvalidFloat),
        StickDeadzoneCheck::NegativeClamp => Err(ConfigError::StickNegativeClamp),
        StickDeadzoneCheck::Valid => match spec_match_sdl_axis(e.1.axis[0]) {
            Err(err) => Err(err),
            Ok(a0) => match spec_match_sdl_axis(e.1.axis[1]) {
                Err(err) => Err(err),
                Ok(a1) => Ok((
                    groups.push(ParsedStickGroup { name: e.0, axes: [a0, a1], process: e.1.process }),
                    set_axisgroup(set_axisgroup(bindings, a0, (idx, false)), a1, (idx, true)),
                )),
            },
        },
    }
}

/// `stick_group_step` as a function of the accumulator and the entry.
pub open spec fn stick_group_steps() -> spec_fn(
    (Seq<ParsedStickGroup>, Seq<(i32, ParsedAxisBinding)>),
    (String, StickGroup),
) -> Result<(Seq<ParsedStickGroup>, Seq<(i32, ParsedAxisBinding)>), ConfigError> {
    |acc: (Seq<ParsedStickGroup>, Seq<(i32, ParsedAxisBinding)>), e: (String, StickGroup)| stick_group_step(acc, e)
}

/// All stick groups, in order, starting from the axis bindings `bindings`.
pub open spec fn spec_parse_stick_groups(
    cfg: Seq<(String, StickGroup)>,
    bindings: Seq<(i32, ParsedAxisBinding)>,
) -> Result<(Seq<ParsedStickGroup>, Seq<(i32, ParsedAxisBinding)>), ConfigError> {
    fold_results(cfg, (Seq::empty(), bindings), stick_group_steps())
}

fn parse_stick_groups(cfg: &Vec<(String, StickGroup)>, bindings: &mut Vec<(i32, ParsedAxisBinding)>) -> (r: Result<
    Vec<ParsedStickGroup>,
    ConfigError,
>)
    requires
        axis_bindings_wf(old(bindings)@),
    ensures
        match spec_parse_stick_groups(cfg@, old(bindings)@) {
            Ok((g, b)) => r matches Ok(v) && v@ == g && final(bindings)@ == b,
            Err(e) => r matches Err(x) && x == e,
        },
        axis_bindings_wf(final(bindings)@),
{
    let ghost step = stick_group_steps();
    let ghost b0 = bindings@;
    let mut groups: Vec<ParsedStickGroup> = Vec::new();
    let mut i: usize = 0;
    proof {
        assert(cfg@.take(0) =~= Seq::<(String, StickGroup)>::empty());
    }
    while i < cfg.len()
        invariant
            i <= cfg@.len(),
            step == stick_group_steps(),
            b0 == old(bindings)@,
            fold_results(cfg@.take(i as int), (Seq::empty(), b0), step) == Ok::<(Seq<ParsedStickGroup>, Seq<(i32, ParsedAxisBinding)>), ConfigError>((groups@, bindings@)),
            groups@.len() == i,
            axis_bindings_wf(bindings@),
        decreases cfg@.len() - i,
    {
        proof {
            lemma_fold_results_step(cfg@, (Seq::empty(), b0), step, i as int);
        }
        let e = &cfg[i];
        proof {
            assert(cfg@[i as int] == *e);
        }
        match e.1.deadzone_check {
            StickDeadzoneCheck::BadOrder => {
                proof {
                    lemma_fold_results_error_stays(cfg@, (Seq::empty(), b0), step, i + 1);
                }
                return Err(ConfigError::StickDeadzoneOrder);
            },
            StickDeadzoneCheck::NotFinite => {
                proof {
                    lemma_fold_results_error_stays(cfg@, (Seq::empty(), b0), step, i + 1);
                }
                return Err(ConfigError::StickInvalidFloat);
            },
            StickDeadzoneCheck::NegativeClamp => {
                proof {
                    lemma_fold_results_error_stays(cfg@, (Seq::empty(), b0), step, i + 1);
                }
                return Err(ConfigError::StickNegativeClamp);
            },
            StickDeadzoneCheck::Valid => {},
        }
        let a0 = match match_sdl_axis(&e.1.axis[0]) {
            Ok(a) => a,
            Err(err) => {
                proof {
                    lemma_fold_results_error_stays(cfg@, (Seq::empty(), b0), step, i + 1);
                }
                return Err(err);
            },
        };
        let a1 = match match_sdl_axis(&e.1.axis[1]) {
            Ok(a) => a,
            Err(err) => {
                proof {
                    lemma_fold_results_error_stays(cfg@, (Seq::empty(), b0), step, i + 1);
                }
                return Err(err);
            },
        };
        set_axisgroup_exec(bindings, a0, (i, false));
        set_axisgroup_exec(bindings, a1, (i, true));
        groups.push(ParsedStickGroup { name: e.0.clone(), axes: [a0, a1], process: e.1.process });
        i = i + 1;
    }
    proof {
        lemma_take_all(cfg@);
    }
    Ok(groups)
}

// ---------------------------------------------------------------------------
// lookup tables

/// The output key of each SDL button, `u16::MAX` for an unbound one.
pub open spec fn spec_button_lut(b: Seq<(i32, ParsedButtonBinding)>) -> Seq<u16> {
    Seq::new(SDL_BUTTON_COUNT as nat, |i: int| match assoc_get(b, i as i32) {
        Some(x) => x.code,
        None => u16::MAX,
    })
}

/// The binding of each SDL axis, if any.
pub open spec fn spec_axis_lut(b: Seq<(i32, ParsedAxisBinding)>) -> Seq<Option<ParsedAxisBinding>> {
    Seq::new(SDL_AXIS_COUNT as nat, |i: int| assoc_get(b, i as i32))
}

fn build_button_lut(b: &Vec<(i32, ParsedButtonBinding)>) -> (lut: Vec<u16>)
    requires
        button_bindings_wf(b@),
    ensures
        lut@ == spec_button_lut(b@),
{
    let mut max_id: i32 = 0;
    let mut i: usize = 0;
    while i < b.len()
        invariant
            i <= b@.len(),
            button_bindings_wf(b@),
            0 <= max_id < SDL_BUTTON_COUNT,
        decreases b@.len() - i,
    {
        proof {
            assert(is_sdl_button(b@[i as int].0 as int));
        }
        if b[i].0 > max_id {
            max_id = b[i].0;
        }
        i = i + 1;
    }
    let len: usize = if max_id > SDL_BUTTON_COUNT { max_id as usize } else { SDL_BUTTON_COUNT as usize };
    let mut lut: Vec<u16> = Vec::new();
    while lut.len() < len
        invariant
            lut@.len() <= len,
            len == SDL_BUTTON_COUNT,
            forall|j: int| 0 <= j < lut@.len() ==> lut@[j] == u16::MAX,
        decreases len - lut@.len(),
    {
        lut.push(u16::MAX);
    }
    let mut n: usize = 0;
    while n < b.len()
        invariant
            n <= b@.len(),
            button_bindings_wf(b@),
            lut@.len() == SDL_BUTTON_COUNT,
            forall|j: int| 0 <= j < SDL_BUTTON_COUNT ==> lut@[j] == (match assoc_get(b@.take(n as int), j as i32) {
                Some(x) => x.code,
                None => u16::MAX,
            }),
        decreases b@.len() - n,
    {
        let k = b[n].0;
        let code = b[n].1.code;
        proof {
            assert(b@.take(n + 1) =~= b@.take(n as int).push(b@[n as int]));
            lemma_keys_distinct_take(b@, n + 1);
            assert forall|j: int| 0 <= j < SDL_BUTTON_COUNT implies #[trigger] assoc_get(b@.take(n + 1), j as i32)
                == (if j as i32 == k { Some(b@[n as int].1) } else { assoc_get(b@.take(n as int), j as i32) }) by {
                lemma_assoc_get_push(b@.take(n as int), k, b@[n as int].1, j as i32);
            }
        }
        if k >= 0 {
            lut.set(k as usize, code);
        }
        n = n + 1;
    }
    proof {
        lemma_take_all(b@);
        assert(lut@ =~= spec_button_lut(b@));
    }
    lut
}

fn build_axis_lut(b: &Vec<(i32, ParsedAxisBinding)>) -> (lut: Vec<Option<ParsedAxisBinding>>)
    requires
        axis_bindings_wf(b@),
    ensures
        lut@ == spec_axis_lut(b@),
{
    let mut max_id: i32 = 0;
    let mut i: usize = 0;
    while i < b.len()
        invariant
            i <= b@.len(),
            axis_bindings_wf(b@),
            0 <= max_id < SDL_AXIS_COUNT,
        decreases b@.len() - i,
    {
        proof {
            assert(is_sdl_axis(b@[i as int].0 as int));
        }
        if b[i].0 > max_id {
            max_id = b[i].0;
        }
        i = i + 1;
    }
    let len: usize = if max_id > SDL_AXIS_COUNT { max_id as usize } else { SDL_AXIS_COUNT as usize };
    let mut lut: Vec<Option<ParsedAxisBinding>> = crate::none_vec(len);
    let mut n: usize = 0;
    while n < b.len()
        invariant
            n <= b@.len(),
            axis_bindings_wf(b@),
            lut@.len() == SDL_AXIS_COUNT,
            forall|j: int| 0 <= j < SDL_AXIS_COUNT ==> lut@[j] == assoc_get(b@.take(n as int), j as i32),
        decreases b@.len() - n,
    {
        let k = b[n].0;
        let v = b[n].1;
        proof {
            assert(b@.take(n + 1) =~= b@.take(n as int).push(b@[n as int]));
            lemma_keys_distinct_take(b@, n + 1);
            assert forall|j: int| 0 <= j < SDL_AXIS_COUNT implies #[trigger] assoc_get(b@.take(n + 1), j as i32)
                == (if j as i32 == k { Some(b@[n as int].1) } else { assoc_get(b@.take(n as int), j as i32) }) by {
                lemma_assoc_get_push(b@.take(n as int), k, b@[n as int].1, j as i32);
            }
        }
        if k >= 0 {
            lut.set(k as usize, Some(v));
        }
        n = n + 1;
    }
    proof {
        lemma_take_all(b@);
        assert(lut@ =~= spec_axis_lut(b@));
    }
    lut
}

// ---------------------------------------------------------------------------
// the whole preset

/// `ABS_HAT0X`: the default hat x axis.
pub const ABS_HAT0X: u16 = 0x10;

/// `ABS_HAT0Y`: the default hat y axis.
pub const ABS_HAT0Y: u16 = 0x11;

/// The lookup tables and settings the event processing works from.
#[derive(Debug)]
pub struct ParsedConfig {
    pub button_bindings: ParsedButtonBindings,
    pub axis_bindings: ParsedAxisBindings,
    pub evdev_bus_type: u16,
    pub additional_buttons: Vec<u16>,
    pub additional_axes: Vec<AbsAxisSetup>,
    /// The output key of each SDL button, `u16::MAX` for none.
    pub button_lut: Vec<u16>,
    /// The binding of each SDL axis.
    pub axis_lut: Vec<Option<ParsedAxisBinding>>,
    /// The output hat axes of each joystick hat.
    pub hat_lut: Vec<Option<[u16; 2]>>,
    /// Nanoseconds between battery checks; 0 for never.
    pub power_refresh_interval: u64,
    /// Rumble multipliers, 65535 standing for 1.0.
    pub rumble_mul: [u64; 2],
    pub parsed_gyro: Option<ParsedGyroConfig>,
    pub dpad_to_hat_axis: Option<[u16; 2]>,
    pub stickgroup: Vec<ParsedStickGroup>,
}

/// What a `ParsedConfig` holds.
pub struct ParsedConfigView {
    pub button_bindings: Seq<(i32, ParsedButtonBinding)>,
    pub axis_bindings: Seq<(i32, ParsedAxisBinding)>,
    pub evdev_bus_type: u16,
    pub additional_buttons: Seq<u16>,
    pub additional_axes: Seq<AbsAxisSetup>,
    pub button_lut: Seq<u16>,
    pub axis_lut: Seq<Option<ParsedAxisBinding>>,
    pub hat_lut: Seq<Option<[u16; 2]>>,
    pub power_refresh_interval: u64,
    pub rumble_mul: [u64; 2],
    pub parsed_gyro: Option<ParsedGyroConfig>,
    pub dpad_to_hat_axis: Option<[u16; 2]>,
    pub stickgroup: Seq<ParsedStickGroup>,
}

impl View for ParsedConfig {
    type V = ParsedConfigView;

    open spec fn view(&self) -> ParsedConfigView {
        ParsedConfigView {
            button_bindings: self.button_bindings@,
            axis_bindings: self.axis_bindings@,
            evdev_bus_type: self.evdev_bus_type,
            additional_buttons: self.additional_buttons@,
            additional_axes: self.additional_axes@,
            button_lut: self.button_lut@,
            axis_lut: self.axis_lut@,
            hat_lut: self.hat_lut@,
            power_refresh_interval: self.power_refresh_interval,
            rumble_mul: self.rumble_mul,
            parsed_gyro: self.parsed_gyro,
            dpad_to_hat_axis: self.dpad_to_hat_axis,
            stickgroup: self.stickgroup@,
        }
    }
}

impl ParsedConfigView {
    /// What a successful parse guarantees: bindings keyed by valid ids, each
    /// once; tables with one entry per SDL button and axis that agree with the
    /// bindings; well-formed axis bindings; rumble multipliers at most 2.0.
    pub open spec fn wf(self) -> bool {
        &&& button_bindings_wf(self.button_bindings)
        &&& axis_bindings_wf(self.axis_bindings)
        &&& self.button_lut == spec_button_lut(self.button_bindings)
        &&& self.axis_lut == spec_axis_lut(self.axis_bindings)
        &&& self.rumble_mul[0] <= RUMBLE_MUL_MAX
        &&& self.rumble_mul[1] <= RUMBLE_MUL_MAX
    }
}

/// The setup of a d-pad hat axis: centred, from -1 to 1.
pub open spec fn hat_axis_setup(code: u16) -> AbsAxisSetup {
    AbsAxisSetup { code, value: 0, minimum: -1i32, maximum: 1, fuzz: 0, flat: 0, resolution: 0 }
}

/// The output axes of the d-pad hat, where the d-pad drives one.
pub open spec fn spec_dpad_hat_axes(b: Behavior) -> Result<Option<[u16; 2]>, ConfigError> {
    if !b.dpad_to_hat {
        Ok(None)
    } else {
        let x = match b.dpad_to_hat_axis {
            Some(v) => spec_match_axis_code(v[0]),
            None => Ok(ABS_HAT0X),
        };
        match x {
            Err(e) => Err(e),
            Ok(x) => {
                let y = match b.dpad_to_hat_axis {
                    Some(v) => spec_match_axis_code(v[1]),
                    None => Ok(ABS_HAT0Y),
                };
                match y {
                    Err(e) => Err(e),
                    Ok(y) => Ok(Some([x, y])),
                }
            },
        }
    }
}

fn dpad_hat_axes(b: &Behavior) -> (r: Result<Option<[u16; 2]>, ConfigError>)
    ensures
        r == spec_dpad_hat_axes(*b),
{
    if !b.dpad_to_hat {
        return Ok(None);
    }
    let x = match &b.dpad_to_hat_axis {
        Some(v) => match_axis_code(&v[0]),
        None => Ok(ABS_HAT0X),
    };
    let x = match x {
        Ok(x) => x,
        Err(e) => return Err(e),
    };
    let y = match &b.dpad_to_hat_axis {
        Some(v) => match_axis_code(&v[1]),
        None => Ok(ABS_HAT0Y),
    };
    match y {
        Ok(y) => Ok(Some([x, y])),
        Err(e) => Err(e),
    }
}

/// A rumble multiplier: 1.0 where unset, else the configured one up to 2.0.
pub open spec fn rumble_multiplier(scale: Option<u64>) -> u64 {
    match scale {
        Some(v) => if v < RUMBLE_MUL_MAX { v } else { RUMBLE_MUL_MAX },
        None => 65535,
    }
}

fn rumble_multiplier_exec(scale: Option<u64>) -> (r: u64)
    ensures
        r == rumble_multiplier(scale),
{
    match scale {
        Some(v) => if v < RUMBLE_MUL_MAX { v } else { RUMBLE_MUL_MAX },
        None => 65535,
    }
}

/// The parse of a whole preset, step by step, stopping at the first error:
/// the bus type; the d-pad hat axes, which reserve their output axes; the axis
/// map; the digital-trigger buttons, which reserve their output keys where
/// digital triggers are simulated; the button map, without d-pad mappings unless
/// the d-pad maps to d-pad buttons; the stick groups; then the tables.
pub open spec fn spec_parse_config(cfg: Config, axis_names: Seq<String>) -> Result<ParsedConfigView, ConfigError> {
    let bus = match cfg.simulate_gamepad.bus_type {
        Some(b) => b,
        None => StringOrU16::U16(3),
    };
    match spec_match_bus_type(bus) {
        Err(e) => Err(ConfigError::ParsingBusType(Box::new(e))),
        Ok(evdev_bus_type) => match spec_dpad_hat_axes(cfg.behavior) {
            Err(e) => Err(e),
            Ok(hat) => {
                let hat_codes: Seq<u16> = match hat {
                    Some(h) => seq![h[0], h[1]],
                    None => Seq::empty(),
                };
                match spec_parse_axis_bindings(cfg.axis_map@, cfg.simulate_gamepad, axis_names, hat_codes) {
                    Err(e) => Err(e),
                    Ok((axis_bindings, _)) => {
                        let trigger_buttons = if cfg.behavior.simulate_digital_trigger {
                            digitrigger_buttons(axis_bindings)
                        } else {
                            Seq::empty()
                        };
                        match spec_parse_button_bindings(
                            cfg.button_map@,
                            !cfg.behavior.dpad_to_dpad,
                            trigger_buttons,
                        ) {
                            Err(e) => Err(e),
                            Ok((button_bindings, _)) => match spec_parse_stick_groups(cfg.sticks@, axis_bindings) {
                                Err(e) => Err(e),
                                Ok((stickgroup, axis_bindings)) => Ok(ParsedConfigView {
                                    button_bindings,
                                    axis_bindings,
                                    evdev_bus_type,
                                    additional_buttons: trigger_buttons,
                                    additional_axes: hat_codes.map_values(|c: u16| hat_axis_setup(c)),
                                    button_lut: spec_button_lut(button_bindings),
                                    axis_lut: spec_axis_lut(axis_bindings),
                                    hat_lut: Seq::empty(),
                                    power_refresh_interval: ((match cfg.input_gamepad.power_refresh_interval {
                                        Some(v) => v,
                                        None => 5000u32,
                                    }) as u64 * 1_000_000) as u64,
                                    rumble_mul: [
                                        rumble_multiplier(cfg.behavior.rumble_scale_left),
                                        rumble_multiplier(cfg.behavior.rumble_scale_right),
                                    ],
                                    parsed_gyro: match cfg.simulate_gamepad_gyro {
                                        Some(g) => Some(ParsedGyroConfig::spec_parse(g)),
                                        None => None,
                                    },
                                    dpad_to_hat_axis: hat,
                                    stickgroup,
                                }),
                            },
                        }
                    },
                }
            },
        },
    }
}

impl ParsedConfig {
    /// Parses a preset; see `spec_parse_config` for the steps and their order.
    /// `axis_names` holds SDL's name of each axis id.
    pub fn parse(cfg: &Config, _app_args: &Args, axis_names: &Vec<String>) -> (r: Result<ParsedConfig, ConfigError>)
        ensures
            match spec_parse_config(*cfg, axis_names@) {
                Ok(v) => r matches Ok(p) && p@ == v,
                Err(e) => r matches Err(x) && x == e,
            },
            r matches Ok(p) ==> p@.wf(),
    {
        let bus = match &cfg.simulate_gamepad.bus_type {
            Some(b) => match_bus_type(b),
            None => match_bus_type(&StringOrU16::U16(3)),
        };
        let evdev_bus_type = match bus {
            Ok(b) => b,
            Err(e) => return Err(ConfigError::ParsingBusType(Box::new(e))),
        };
        let hat = match dpad_hat_axes(&cfg.behavior) {
            Ok(h) => h,
            Err(e) => return Err(e),
        };
        let mut axis_exclusions: Vec<u16> = Vec::new();
        let mut additional_axes: Vec<AbsAxisSetup> = Vec::new();
        match hat {
            Some(h) => {
                axis_exclusions.push(h[0]);
                axis_exclusions.push(h[1]);
                additional_axes.push(AbsAxisSetup { code: h[0], value: 0, minimum: -1, maximum: 1, fuzz: 0, flat: 0, resolution: 0 });
                additional_axes.push(AbsAxisSetup { code: h[1], value: 0, minimum: -1, maximum: 1, fuzz: 0, flat: 0, resolution: 0 });
            },
            None => {},
        }
        let ghost hat_codes: Seq<u16> = match hat {
            Some(h) => seq![h[0], h[1]],
            None => Seq::empty(),
        };
        proof {
            assert(axis_exclusions@ =~= hat_codes);
            assert(additional_axes@ =~= hat_codes.map_values(|c: u16| hat_axis_setup(c)));
        }
        let mut axis_bindings = match parse_axis_bindings(&cfg.axis_map, &cfg.simulate_gamepad, axis_names, axis_exclusions) {
            Ok(b) => b,
            Err(e) => return Err(e),
        };
        let additional_buttons: Vec<u16> = if cfg.behavior.simulate_digital_trigger {
            collect_digitrigger_buttons(&axis_bindings)
        } else {
            Vec::new()
        };
        let button_exclusions = additional_buttons.clone();
        let button_bindings = match parse_button_bindings(&cfg.button_map, !cfg.behavior.dpad_to_dpad, button_exclusions) {
            Ok(b) => b,
            Err(e) => return Err(e),
        };
        let stickgroup = match parse_stick_groups(&cfg.sticks, &mut axis_bindings) {
            Ok(g) => g,
            Err(e) => return Err(e),
        };
        let button_lut = build_button_lut(&button_bindings);
        let axis_lut = build_axis_lut(&axis_bindings);
        let power_ms: u32 = match cfg.input_gamepad.power_refresh_interval {
            Some(v) => v,
            None => 5000,
        };
        let power_refresh_interval = power_ms as u64 * 1_000_000;
        let rumble_mul = [
            rumble_multiplier_exec(cfg.behavior.rumble_scale_left),
            rumble_multiplier_exec(cfg.behavior.rumble_scale_right),
        ];
        let parsed_gyro = match &cfg.simulate_gamepad_gyro {
            Some(g) => match ParsedGyroConfig::parse(g) {
                Ok(p) => Some(p),
                Err(e) => return Err(e),
            },
            None => None,
        };
        Ok(ParsedConfig {
            button_bindings,
            axis_bindings,
            evdev_bus_type,
            additional_buttons,
            additional_axes,
            button_lut,
            axis_lut,
            hat_lut: Vec::new(),
            power_refresh_interval,
            rumble_mul,
            parsed_gyro,
            dpad_to_hat_axis: hat,
            stickgroup,
        })
    }
}

// ---------------------------------------------------------------------------
// laws of a parse

/// What an accepted axis mapping guarantees: an ordered output range holding
/// the initial value, a clamp range within the output range, fractions that
/// are `i32` quantities with positive denominators and numerators of one sign,
/// and valid digital trigger thresholds.
pub proof fn lemma_axis_binding_sound(
    cfg: AxisMappingEnum,
    i: SimulateGamepad,
    absolute: bool,
    default_thresh: [FractionThreshold; 2],
)
    ensures
        spec_parse_axis_binding(cfg, i, absolute, default_thresh) matches Ok(b) ==> {
            &&& b.out_range[0] <= b.out_range[1]
            &&& b.out_range[0] <= b.setup.value <= b.out_range[1]
            &&& b.setup.minimum == b.out_range[0] && b.setup.maximum == b.out_range[1]
            &&& b.out_range[0] <= b.clamp_out[0]
            &&& b.clamp_out[1] <= b.out_range[1]
            &&& b.wf()
            &&& (b.neg_fraction[0] >= 0 && b.pos_fraction[0] >= 0) || (b.neg_fraction[0] <= 0
                && b.pos_fraction[0] <= 0)
            &&& thresholds_valid(b.digitrigger_thresh[0] as int, b.digitrigger_thresh[1] as int)
        },
{
}

/// The output axes of axis bindings are pairwise distinct and none is reserved.
pub open spec fn axis_outputs_distinct(out: Seq<(i32, ParsedAxisBinding)>, reserved: Seq<u16>) -> bool {
    &&& forall|i: int, j: int| 0 <= i < j < out.len() ==> (#[trigger] out[i]).1.setup.code != (#[trigger] out[j]).1.setup.code
    &&& forall|i: int| 0 <= i < out.len() ==> !reserved.contains((#[trigger] out[i]).1.setup.code)
}

/// The output keys of button bindings are pairwise distinct and none is reserved.
pub open spec fn button_outputs_distinct(out: Seq<(i32, ParsedButtonBinding)>, reserved: Seq<u16>) -> bool {
    &&& forall|i: int, j: int| 0 <= i < j < out.len() ==> (#[trigger] out[i]).1.code != (#[trigger] out[j]).1.code
    &&& forall|i: int| 0 <= i < out.len() ==> !reserved.contains((#[trigger] out[i]).1.code)
}

spec fn axis_fold_inv(reserved: Seq<u16>) -> spec_fn((Seq<(i32, ParsedAxisBinding)>, Seq<u16>)) -> bool {
    |acc: (Seq<(i32, ParsedAxisBinding)>, Seq<u16>)| {
        &&& keys_distinct(acc.0)
        &&& forall|c: u16| reserved.contains(c) ==> acc.1.contains(c)
        &&& forall|i: int| 0 <= i < acc.0.len() ==> acc.1.contains((#[trigger] acc.0[i]).1.setup.code)
        &&& axis_outputs_distinct(acc.0, reserved)
    }
}

/// The axis map never binds two gamepad axes to one output axis, nor to a reserved one.
pub proof fn lemma_axis_bindings_outputs_distinct(
    cfg: Seq<AxisMapEntry>,
    sg: SimulateGamepad,
    axis_names: Seq<String>,
    reserved: Seq<u16>,
)
    ensures
        spec_parse_axis_bindings(cfg, sg, axis_names, reserved) matches Ok((out, _)) ==> axis_outputs_distinct(out, reserved),
{
    let inv = axis_fold_inv(reserved);
    let step = axis_binding_steps(sg, axis_names);
    assert forall|s: (Seq<(i32, ParsedAxisBinding)>, Seq<u16>), a: AxisMapEntry| inv(s) && (#[trigger] step(s, a)) is Ok implies inv(step(s, a)->Ok_0) by {
        let (out, taken) = s;
        let key = spec_match_sdl_axis_name(a.key)->Ok_0;
        let b = spec_parse_axis_binding(a.mapping, sg, axis_is_absolute(axis_names, key), a.default_thresh)->Ok_0;
        lemma_assoc_insert_entries(out, key, b);
        let n = assoc_insert(out, key, b);
        let t = taken.push(b.setup.code);
        assert(step(s, a)->Ok_0 == (n, t));
        assert forall|c: u16| reserved.contains(c) implies t.contains(c) by {
            let w = choose|w: int| 0 <= w < taken.len() && taken[w] == c;
            assert(t[w] == c);
        }
        assert forall|i: int| 0 <= i < n.len() implies t.contains((#[trigger] n[i]).1.setup.code) by {
            if n[i] == (key, b) {
                assert(t[taken.len() as int] == b.setup.code);
            } else {
                let w = choose|w: int| 0 <= w < taken.len() && taken[w] == out[i].1.setup.code;
                assert(t[w] == out[i].1.setup.code);
            }
        }
        assert forall|i: int, j: int| 0 <= i < j < n.len() implies (#[trigger] n[i]).1.setup.code != (#[trigger] n[j]).1.setup.code by {
            if n[i] == (key, b) {
                assert(n[j] != (key, b));
                assert(taken.contains(out[j].1.setup.code));
            } else if n[j] == (key, b) {
                assert(taken.contains(out[i].1.setup.code));
            }
        }
        assert forall|i: int| 0 <= i < n.len() implies !reserved.contains((#[trigger] n[i]).1.setup.code) by {
            if n[i] == (key, b) {
                if reserved.contains(b.setup.code) {
                    assert(taken.contains(b.setup.code));
                }
            }
        }
    }
    lemma_fold_results_invariant(cfg, (Seq::empty(), reserved), step, inv);
}

spec fn button_fold_inv(reserved: Seq<u16>) -> spec_fn((Seq<(i32, ParsedButtonBinding)>, Seq<u16>)) -> bool {
    |acc: (Seq<(i32, ParsedButtonBinding)>, Seq<u16>)| {
        &&& keys_distinct(acc.0)
        &&& forall|c: u16| reserved.contains(c) ==> acc.1.contains(c)
        &&& forall|i: int| 0 <= i < acc.0.len() ==> acc.1.contains((#[trigger] acc.0[i]).1.code)
        &&& button_outputs_distinct(acc.0, reserved)
    }
}

/// The button map never binds two gamepad buttons to one output key, nor to a reserved one.
pub proof fn lemma_button_bindings_outputs_distinct(
    cfg: Seq<(SdlName, ButtonMappingEnum)>,
    exclude_dpad: bool,
    reserved: Seq<u16>,
)
    ensures
        spec_parse_button_bindings(cfg, exclude_dpad, reserved) matches Ok((out, _)) ==> button_outputs_distinct(out, reserved),
{
    let inv = button_fold_inv(reserved);
    let step = button_binding_steps(exclude_dpad);
    assert forall|s: (Seq<(i32, ParsedButtonBinding)>, Seq<u16>), a: (SdlName, ButtonMappingEnum)| inv(s) && (#[trigger] step(s, a)) is Ok implies inv(step(s, a)->Ok_0) by {
        let (out, taken) = s;
        let key = spec_match_sdl_button_name(a.0)->Ok_0;
        match spec_parse_button_binding(a.1, exclude_dpad) {
            Ok(Some(b)) => {
                lemma_assoc_insert_entries(out, key, b);
                let n = assoc_insert(out, key, b);
                let t = taken.push(b.code);
                assert(step(s, a)->Ok_0 == (n, t));
                assert forall|c: u16| reserved.contains(c) implies t.contains(c) by {
                    let w = choose|w: int| 0 <= w < taken.len() && taken[w] == c;
                    assert(t[w] == c);
                }
                assert forall|i: int| 0 <= i < n.len() implies t.contains((#[trigger] n[i]).1.code) by {
                    if n[i] == (key, b) {
                        assert(t[taken.len() as int] == b.code);
                    } else {
                        let w = choose|w: int| 0 <= w < taken.len() && taken[w] == out[i].1.code;
                        assert(t[w] == out[i].1.code);
                    }
                }
                assert forall|i: int, j: int| 0 <= i < j < n.len() implies (#[trigger] n[i]).1.code != (#[trigger] n[j]).1.code by {
                    if n[i] == (key, b) {
                        assert(n[j] != (key, b));
                        assert(taken.contains(out[j].1.code));
                    } else if n[j] == (key, b) {
                        assert(taken.contains(out[i].1.code));
                    }
                }
                assert forall|i: int| 0 <= i < n.len() implies !reserved.contains((#[trigger] n[i]).1.code) by {
                    if n[i] == (key, b) {
                        if reserved.contains(b.code) {
                            assert(taken.contains(b.code));
                        }
                    }
                }
            },
            _ => {},
        }
    }
    lemma_fold_results_invariant(cfg, (Seq::empty(), reserved), step, inv);
}

/// The bindings differ at most in their stick group marks.
pub open spec fn same_outputs(a: Seq<(i32, ParsedAxisBinding)>, b: Seq<(i32, ParsedAxisBinding)>) -> bool {
    &&& a.len() == b.len()
    &&& forall|i: int| 0 <= i < a.len() ==> (#[trigger] a[i]).0 == b[i].0 && a[i].1.setup == b[i].1.setup
        && a[i].1.digitrigger_button == b[i].1.digitrigger_button
}

/// Stick groups only mark axis bindings; outputs stay as they were.
pub proof fn lemma_stick_groups_keep_outputs(cfg: Seq<(String, StickGroup)>, bindings: Seq<(i32, ParsedAxisBinding)>)
    ensures
        spec_parse_stick_groups(cfg, bindings) matches Ok((_, b)) ==> same_outputs(b, bindings),
{
    let inv = |acc: (Seq<ParsedStickGroup>, Seq<(i32, ParsedAxisBinding)>)| same_outputs(acc.1, bindings);
    let step = stick_group_steps();
    assert forall|s: (Seq<ParsedStickGroup>, Seq<(i32, ParsedAxisBinding)>), a: (String, StickGroup)| inv(s) && (#[trigger] step(s, a)) is Ok implies inv(step(s, a)->Ok_0) by {
        let (groups, b0) = s;
        let idx = groups.len() as usize;
        let a0 = spec_match_sdl_axis(a.1.axis[0])->Ok_0;
        let a1 = spec_match_sdl_axis(a.1.axis[1])->Ok_0;
        let b1 = set_axisgroup(b0, a0, (idx, false));
        let b2 = set_axisgroup(b1, a1, (idx, true));
        assert(step(s, a)->Ok_0.1 == b2);
        assert(same_outputs(b1, b0));
        assert(same_outputs(b2, b1));
    }
    lemma_fold_results_invariant(cfg, (Seq::empty(), bindings), step, inv);
}

/// A parsed preset never writes one output axis from two gamepad axes or from
/// an axis and the d-pad hat, nor one output key from two gamepad buttons or
/// from a button and a digital trigger.
pub proof fn lemma_parse_outputs_distinct(cfg: Config, axis_names: Seq<String>)
    ensures
        spec_parse_config(cfg, axis_names) matches Ok(v) ==> {
            &&& forall|i: int, j: int| 0 <= i < j < v.axis_bindings.len() ==> (#[trigger] v.axis_bindings[i]).1.setup.code
                != (#[trigger] v.axis_bindings[j]).1.setup.code
            &&& forall|i: int| 0 <= i < v.axis_bindings.len() ==> (v.dpad_to_hat_axis matches Some(h) ==> (#[trigger] v.axis_bindings[i]).1.setup.code != h[0]
                && v.axis_bindings[i].1.setup.code != h[1])
            &&& button_outputs_distinct(v.button_bindings, v.additional_buttons)
        },
{
    if let Ok(v) = spec_parse_config(cfg, axis_names) {
        let hat = spec_dpad_hat_axes(cfg.behavior)->Ok_0;
        let hat_codes: Seq<u16> = match hat {
            Some(h) => seq![h[0], h[1]],
            None => Seq::empty(),
        };
        lemma_axis_bindings_outputs_distinct(cfg.axis_map@, cfg.simulate_gamepad, axis_names, hat_codes);
        let axb = spec_parse_axis_bindings(cfg.axis_map@, cfg.simulate_gamepad, axis_names, hat_codes)->Ok_0.0;
        let trigger_buttons = if cfg.behavior.simulate_digital_trigger {
            digitrigger_buttons(axb)
        } else {
            Seq::empty()
        };
        lemma_button_bindings_outputs_distinct(cfg.button_map@, !cfg.behavior.dpad_to_dpad, trigger_buttons);
        lemma_stick_groups_keep_outputs(cfg.sticks@, axb);
        let axb2 = v.axis_bindings;
        assert(same_outputs(axb2, axb));
        assert forall|i: int| 0 <= i < axb2.len() implies (v.dpad_to_hat_axis matches Some(h) ==> (#[trigger] axb2[i]).1.setup.code != h[0]
            && axb2[i].1.setup.code != h[1]) by {
            if let Some(h) = v.dpad_to_hat_axis {
                assert(hat_codes[0] == h[0]);
                assert(hat_codes[1] == h[1]);
                assert(!hat_codes.contains(axb[i].1.setup.code));
            }
        }
        assert forall|i: int, j: int| 0 <= i < j < axb2.len() implies (#[trigger] axb2[i]).1.setup.code != (#[trigger] axb2[j]).1.setup.code by {
            assert(axb[i].1.setup.code != axb[j].1.setup.code);
        }
    }
}

} // verus!
