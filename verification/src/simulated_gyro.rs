//! The integer settings of the virtual motion-sensor device.

use vstd::prelude::*;

use crate::config::SimulateGamepadGyro;
use crate::parsed_config::ConfigError;
use crate::simulated::EvdevEvent;

verus! {

/// The ranges evdev is told about for one absolute axis.
#[derive(Debug, Clone, Copy, PartialEq, Eq)]
pub struct AbsInfo {
    pub value: i32,
    pub minimum: i32,
    pub maximum: i32,
    pub fuzz: i32,
    pub flat: i32,
    pub resolution: i32,
}

/// The state of the virtual motion device: the events waiting to be written to it.
#[derive(Debug)]
pub struct SimulatedGamepadGyro {
    pub queue: Vec<EvdevEvent>,
}

/// The axis ranges of the accelerometer and gyroscope outputs.
#[derive(Debug, Clone, Copy, PartialEq, Eq)]
pub struct ParsedGyroConfig {
    pub accel_info: AbsInfo,
    pub gyro_info: AbsInfo,
}

impl ParsedGyroConfig {
    /// The ranges a preset asks for, with the defaults filled in.
    pub open spec fn spec_parse(g: SimulateGamepadGyro) -> ParsedGyroConfig {
        let accel_range = match g.accel_out_range { Some(r) => r, None => [-32768i32, 32768i32] };
        let gyro_range = match g.gyro_out_range { Some(r) => r, None => [-2097152i32, 2097152i32] };
        ParsedGyroConfig {
            accel_info: AbsInfo {
                value: 0,
                minimum: accel_range[0],
                maximum: accel_range[1],
                fuzz: match g.accel_fuzz { Some(v) => v, None => 16 },
                flat: match g.accel_flat { Some(v) => v, None => 0 },
                resolution: match g.accel_res { Some(v) => v, None => 8192 },
            },
            gyro_info: AbsInfo {
                value: 0,
                minimum: gyro_range[0],
                maximum: gyro_range[1],
                fuzz: match g.gyro_fuzz { Some(v) => v, None => 16 },
                flat: match g.gyro_flat { Some(v) => v, None => 0 },
                // the resolution is taken from `gyro_flat`; `gyro_res` is not read
                resolution: match g.gyro_flat { Some(v) => v, None => 1024 },
            },
        }
    }

    /// Reads the output ranges of the motion device: the accelerometer defaults
    /// to `[-32768, 32768]` with fuzz 16, flat 0, resolution 8192; the gyroscope
    /// to `[-2097152, 2097152]` with fuzz 16, flat 0, and as resolution the
    /// configured gyroscope flat value, else 1024. It never fails.
    pub fn parse(gicfg: &SimulateGamepadGyro) -> (r: Result<ParsedGyroConfig, ConfigError>)
        ensures
            r == Ok::<ParsedGyroConfig, ConfigError>(ParsedGyroConfig::spec_parse(*gicfg)),
    {
        let accel_range: [i32; 2] = match gicfg.accel_out_range {
            Some(r) => r,
            None => [-32768, 32768],
        };
        let gyro_range: [i32; 2] = match gicfg.gyro_out_range {
            Some(r) => r,
            None => [-2097152, 2097152],
        };
        let accel_info = AbsInfo {
            value: 0,
            minimum: accel_range[0],
            maximum: accel_range[1],
            fuzz: match gicfg.accel_fuzz {
                Some(v) => v,
                None => 16,
            },
            flat: match gicfg.accel_flat {
                Some(v) => v,
                None => 0,
            },
            resolution: match gicfg.accel_res {
                Some(v) => v,
                None => 8192,
            },
        };
        let gyro_info = AbsInfo {
            value: 0,
            minimum: gyro_range[0],
            maximum: gyro_range[1],
            fuzz: match gicfg.gyro_fuzz {
                Some(v) => v,
                None => 16,
            },
            flat: match gicfg.gyro_flat {
                Some(v) => v,
                None => 0,
            },
            // read from `gyro_flat`, as `spec_parse` states
            resolution: match gicfg.gyro_flat {
                Some(v) => v,
                None => 1024,
            },
        };
        Ok(ParsedGyroConfig { accel_info, gyro_info })
    }
}

/// The configured output ranges are kept: an accelerometer or gyroscope
/// range given in the preset becomes that device axis's minimum and maximum,
/// with the axis resting at 0; without one, the accelerometer spans
/// `[-32768, 32768]` and the gyroscope `[-2097152, 2097152]`.
pub proof fn lemma_configured_ranges_are_kept(g: SimulateGamepadGyro)
    ensures
        g.accel_out_range matches Some(r) ==> ParsedGyroConfig::spec_parse(g).accel_info.minimum == r[0]
            && ParsedGyroConfig::spec_parse(g).accel_info.maximum == r[1],
        g.gyro_out_range matches Some(r) ==> ParsedGyroConfig::spec_parse(g).gyro_info.minimum == r[0]
            && ParsedGyroConfig::spec_parse(g).gyro_info.maximum == r[1],
        g.accel_out_range is None ==> ParsedGyroConfig::spec_parse(g).accel_info.minimum == -32768
            && ParsedGyroConfig::spec_parse(g).accel_info.maximum == 32768,
        g.gyro_out_range is None ==> ParsedGyroConfig::spec_parse(g).gyro_info.minimum == -2097152
            && ParsedGyroConfig::spec_parse(g).gyro_info.maximum == 2097152,
        ParsedGyroConfig::spec_parse(g).accel_info.value == 0,
        ParsedGyroConfig::spec_parse(g).gyro_info.value == 0,
        g.accel_fuzz matches Some(f) ==> ParsedGyroConfig::spec_parse(g).accel_info.fuzz == f,
        g.gyro_fuzz matches Some(f) ==> ParsedGyroConfig::spec_parse(g).gyro_info.fuzz == f,
{
}

} // verus!
