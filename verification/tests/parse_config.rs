use sdl3_to_evdev::config::{
    AxisMapEntry, AxisMapping, AxisMappingEnum, Behavior, ButtonMapping, ButtonMappingEnum, Config, FractionThreshold,
    InputGamepad, SdlKey, SdlName, SimulateGamepad, SimulateGamepadGyro, StickDeadzoneCheck, StickGroup, StringFilter,
    StringOrU16, TrThreshold, VendorProductIds,
};
use sdl3_to_evdev::parsed_config::{
    axis_absolute, axis_by_alias, axis_code_result, axis_input_range, bus_type_result, button_by_alias,
    key_code_result, match_axis_code, match_axis_code_string, match_bus_type, match_key_code, match_key_code_string,
    match_sdl_axis, match_sdl_axis_string, match_sdl_button, match_sdl_button_string, parse_axis_binding,
    parse_button_binding, ConfigError, ParsedConfig,
};
use sdl3_to_evdev::sdl::{
    SDL_AXIS_LEFTX, SDL_AXIS_LEFTY, SDL_AXIS_LEFT_TRIGGER, SDL_AXIS_RIGHT_TRIGGER, SDL_BUTTON_DPAD_UP,
    SDL_BUTTON_GUIDE, SDL_BUTTON_LEFT_SHOULDER, SDL_BUTTON_SOUTH,
};
use sdl3_to_evdev::event_processing::scale_axis;
use sdl3_to_evdev::Args;

const BTN_SOUTH: u16 = 0x130;
const SDL_BUTTON_DPAD_LEFT_ID: i32 = 13;
const BTN_EAST: u16 = 0x131;
const BTN_TL2: u16 = 0x138;
const BTN_DPAD_UP: u16 = 0x220;
const ABS_X: u16 = 0x00;
const ABS_Y: u16 = 0x01;
const ABS_Z: u16 = 0x02;
const ABS_HAT0X: u16 = 0x10;
const ABS_HAT0Y: u16 = 0x11;

fn s(v: &str) -> StringOrU16 {
    StringOrU16::String(v.to_string())
}

fn name(v: &str) -> SdlName {
    SdlName { name: v.to_string(), sdl_lookup: None }
}

/// What a fraction threshold `v` of the input range `[ia, ib, ic]` evaluates to.
fn fraction(v: f64, [ia, ib, ic]: [i32; 3]) -> FractionThreshold {
    FractionThreshold {
        finite: v.is_finite(),
        sign_negative: v.is_sign_negative(),
        sign_positive: v.is_sign_positive(),
        times_negative_span: (v * (ib as i64 - ia as i64) as f64) as i32,
        times_positive_span: (v * (ic as i64 - ib as i64) as f64) as i32,
    }
}

fn default_thresh(range: [i32; 3]) -> [FractionThreshold; 2] {
    [fraction(0.8, range), fraction(0.75, range)]
}

fn simulate_gamepad() -> SimulateGamepad {
    SimulateGamepad {
        name: "Virtual pad".to_string(),
        bus_type: None,
        vendor_id: 0x054c,
        product_id: 0x09cc,
        version: 0x8111,
        default_axis_fuzz: None,
        default_axis_flat: None,
        default_axis_res: None,
        keep_open_out_gamepad: None,
        enable_rumble: true,
        emit_timestamp: false,
    }
}

fn input_gamepad() -> InputGamepad {
    InputGamepad {
        filter_name: StringFilter::Empty,
        filter_path: StringFilter::Empty,
        filter_guid: StringFilter::Empty,
        filter_serial: StringFilter::Empty,
        filter_vendor_id: VendorProductIds::Empty,
        filter_product_id: VendorProductIds::Empty,
        filter_product_version: VendorProductIds::Empty,
        filter_fw_version: VendorProductIds::Empty,
        wait_timeout_ms: None,
        wait_timeout_ms_idle: None,
        power_refresh_interval: None,
        input_event_batch_size: None,
        sdl_gamepad_mapping: None,
    }
}

fn behavior() -> Behavior {
    Behavior {
        dpad_to_dpad: false,
        dpad_to_hat: true,
        dpad_to_hat_axis: None,
        rumble_scale_left: None,
        rumble_scale_right: None,
        simulate_digital_trigger: false,
    }
}

fn axis_names() -> Vec<String> {
    ["leftx", "lefty", "rightx", "righty", "lefttrigger", "righttrigger"].iter().map(|v| v.to_string()).collect()
}

fn axis_entry(key: &str, mapping: AxisMappingEnum, absolute: bool) -> AxisMapEntry {
    let range = axis_input_range(&mapping, absolute);
    AxisMapEntry { key: name(key), mapping, default_thresh: default_thresh(range) }
}

fn base_config() -> Config {
    Config {
        input_gamepad: input_gamepad(),
        simulate_gamepad: simulate_gamepad(),
        simulate_gamepad_gyro: None,
        behavior: behavior(),
        button_map: vec![
            (name("south"), ButtonMappingEnum::Code(s("south"))),
            (name("east"), ButtonMappingEnum::Code(s("BTN_EAST"))),
            (
                name("dpad_up"),
                ButtonMappingEnum::Advanced(ButtonMapping { key: s("BTN_DPAD_UP"), dpad: true }),
            ),
        ],
        axis_map: vec![
            axis_entry("leftx", AxisMappingEnum::Code(s("x")), false),
            axis_entry("lefty", AxisMappingEnum::Code(s("ABS_Y")), false),
            axis_entry("left_trigger", AxisMappingEnum::Code(s("z")), true),
        ],
        sticks: vec![],
    }
}

fn advanced(key: &str) -> AxisMapping {
    AxisMapping {
        key: s(key),
        initial: None,
        from_range: None,
        to_range: None,
        out_range: None,
        fuzz: None,
        flat: None,
        res: None,
        digitrigger_button: None,
        digitrigger_thresh: None,
    }
}

fn args() -> Args {
    Args { verbose: false, dump_parse_config: false }
}

#[test]
fn key_names_resolve_through_evdev() {
    assert_eq!(match_key_code_string("BTN_SOUTH"), Some(BTN_SOUTH));
    assert_eq!(match_key_code_string("south"), Some(BTN_SOUTH));
    assert_eq!(match_key_code_string("KEY_A"), Some(30));
    assert_eq!(match_key_code_string("no_such_key"), None);
    assert_eq!(match_key_code(&StringOrU16::U16(0x200)).ok(), Some(0x200));
    assert!(matches!(match_key_code(&s("nope")), Err(ConfigError::UnknownKeyCode(n)) if n == "nope"));
}

#[test]
fn axis_names_resolve_through_evdev() {
    assert_eq!(match_axis_code_string("ABS_RZ"), Some(0x05));
    assert_eq!(match_axis_code_string("hat0x"), Some(ABS_HAT0X));
    assert_eq!(match_axis_code_string("sideways"), None);
    assert_eq!(match_axis_code(&s("x")).ok(), Some(ABS_X));
    assert!(matches!(match_axis_code(&s("sideways")), Err(ConfigError::UnknownAxisCode(_))));
}

#[test]
fn bus_type_names_are_exact() {
    assert_eq!(match_bus_type(&s("BUS_USB")).ok(), Some(3));
    assert_eq!(match_bus_type(&s("BUS_BLUETOOTH")).ok(), Some(5));
    assert_eq!(match_bus_type(&StringOrU16::U16(6)).ok(), Some(6));
    assert!(matches!(match_bus_type(&s("usb")), Err(ConfigError::UnknownBusType(_))));
}

#[test]
fn sdl_button_aliases() {
    assert_eq!(match_sdl_button_string("DPad_Up", None), Some(SDL_BUTTON_DPAD_UP));
    assert_eq!(match_sdl_button_string("dpu", None), Some(SDL_BUTTON_DPAD_UP));
    assert_eq!(match_sdl_button_string("Left Shoulder", None), Some(SDL_BUTTON_LEFT_SHOULDER));
    assert_eq!(match_sdl_button_string("steam", None), Some(SDL_BUTTON_GUIDE));
    assert_eq!(match_sdl_button_string("a", Some(SDL_BUTTON_SOUTH)), Some(SDL_BUTTON_SOUTH));
    assert_eq!(match_sdl_button_string("bogus", None), None);
    assert_eq!(match_sdl_button(&SdlKey::Index(4)).ok(), Some(4));
    assert!(matches!(match_sdl_button(&SdlKey::Index(26)), Err(ConfigError::UnknownSdlButtonId(26))));
    assert!(matches!(match_sdl_button(&SdlKey::Name(name("bogus"))), Err(ConfigError::UnknownSdlButtonName(_))));
}

#[test]
fn sdl_axis_aliases() {
    assert_eq!(match_sdl_axis_string("Left_X", None), Some(SDL_AXIS_LEFTX));
    assert_eq!(match_sdl_axis_string("ly", None), Some(SDL_AXIS_LEFTY));
    assert_eq!(match_sdl_axis_string("L2", None), Some(SDL_AXIS_LEFT_TRIGGER));
    assert_eq!(match_sdl_axis_string("rt", None), Some(SDL_AXIS_RIGHT_TRIGGER));
    assert_eq!(match_sdl_axis_string("wheel", None), None);
    assert_eq!(match_sdl_axis(&SdlKey::Index(5)).ok(), Some(5));
    assert!(matches!(match_sdl_axis(&SdlKey::Index(6)), Err(ConfigError::UnknownSdlAxisId(6))));
    assert!(matches!(match_sdl_axis(&SdlKey::Name(name("wheel"))), Err(ConfigError::UnknownSdlAxisName(_))));
}

#[test]
fn triggers_are_absolute_axes() {
    let names = axis_names();
    assert!(!axis_absolute(&names, SDL_AXIS_LEFTX));
    assert!(axis_absolute(&names, SDL_AXIS_LEFT_TRIGGER));
    let upper: Vec<String> = vec!["LeftX".into(), "LEFT_TRIGGER".into()];
    assert!(axis_absolute(&upper, 1));
    // an axis without a name is two-directional
    assert!(!axis_absolute(&upper, 2));
    assert!(!axis_absolute(&upper, -1));
}

#[test]
fn default_input_ranges() {
    let m = AxisMappingEnum::Code(s("x"));
    assert_eq!(axis_input_range(&m, false), [-32768, 0, 32767]);
    assert_eq!(axis_input_range(&m, true), [0, 0, 32767]);
    let mut a = advanced("x");
    a.out_range = Some([-100, 100]);
    a.from_range = Some([-10, 0, 10]);
    assert_eq!(axis_input_range(&AxisMappingEnum::Advanced(a), true), [-10, 0, 10]);
}

#[test]
fn stick_axis_binding_defaults() {
    let m = AxisMappingEnum::Code(s("x"));
    let range = axis_input_range(&m, false);
    let b = parse_axis_binding(&m, &simulate_gamepad(), false, &default_thresh(range)).ok().unwrap();
    assert_eq!(b.setup.code, ABS_X);
    assert_eq!((b.setup.minimum, b.setup.maximum, b.setup.value), (-32768, 32767, 0));
    assert_eq!(b.in_off, 0);
    assert_eq!(b.out_off, 0);
    assert_eq!(b.neg_fraction, [32768, 32768]);
    assert_eq!(b.pos_fraction, [32767, 32767]);
    assert_eq!(b.clamp_out, [-32768, 32767]);
    assert_eq!(b.digitrigger_thresh, [26213, 24575]);
    assert_eq!(b.digitrigger_button, None);
    assert_eq!(b.axisgroup, None);
}

#[test]
fn trigger_axis_binding_with_ranges() {
    let mut a = advanced("ABS_Z");
    a.out_range = Some([0, 255]);
    a.fuzz = Some(2);
    a.digitrigger_button = Some(s("tl2"));
    let m = AxisMappingEnum::Advanced(a);
    let range = axis_input_range(&m, true);
    assert_eq!(range, [0, 0, 32767]);
    let mut sg = simulate_gamepad();
    sg.default_axis_flat = Some(7);
    let b = parse_axis_binding(&m, &sg, true, &default_thresh(range)).ok().unwrap();
    assert_eq!(b.setup.code, ABS_Z);
    assert_eq!((b.setup.minimum, b.setup.maximum), (0, 255));
    assert_eq!((b.setup.fuzz, b.setup.flat, b.setup.resolution), (2, 7, 0));
    assert_eq!(b.pos_fraction, [255, 32767]);
    assert_eq!(b.neg_fraction, [0, 1]);
    assert_eq!(b.clamp_out, [0, 255]);
    assert_eq!(b.digitrigger_button, Some(BTN_TL2));
}

#[test]
fn inverted_target_range_is_accepted() {
    let mut a = advanced("y");
    a.to_range = Some([32767, 0, -32768]);
    let m = AxisMappingEnum::Advanced(a);
    let range = axis_input_range(&m, false);
    let b = parse_axis_binding(&m, &simulate_gamepad(), false, &default_thresh(range)).ok().unwrap();
    assert_eq!(b.neg_fraction, [-32767, 32768]);
    assert_eq!(b.pos_fraction, [-32768, 32767]);
    assert_eq!(b.clamp_out, [-32768, 32767]);
}

#[test]
fn axis_binding_errors() {
    let sg = simulate_gamepad();
    let th = default_thresh([-32768, 0, 32767]);

    let mut a = advanced("x");
    a.out_range = Some([10, -10]);
    assert!(matches!(parse_axis_binding(&AxisMappingEnum::Advanced(a), &sg, false, &th), Err(ConfigError::AxisOutRangeOrder)));

    let mut a = advanced("x");
    a.out_range = Some([0, 10]);
    a.initial = Some(11);
    assert!(matches!(
        parse_axis_binding(&AxisMappingEnum::Advanced(a), &sg, false, &th),
        Err(ConfigError::AxisInitialOutsideRange)
    ));

    let mut a = advanced("x");
    a.from_range = Some([0, -5, 10]);
    assert!(matches!(parse_axis_binding(&AxisMappingEnum::Advanced(a), &sg, false, &th), Err(ConfigError::AxisFromRangeOrder)));

    let mut a = advanced("x");
    a.to_range = Some([0, 10, 5]);
    assert!(matches!(parse_axis_binding(&AxisMappingEnum::Advanced(a), &sg, false, &th), Err(ConfigError::AxisToRangeOrder)));

    let mut a = advanced("x");
    a.digitrigger_thresh = Some([TrThreshold::Abs { abs: 100 }, TrThreshold::Abs { abs: 200 }]);
    assert!(matches!(
        parse_axis_binding(&AxisMappingEnum::Advanced(a), &sg, false, &th),
        Err(ConfigError::DigitriggerThresholds)
    ));

    let mut a = advanced("x");
    a.digitrigger_thresh = Some([TrThreshold::Abs { abs: 100 }, TrThreshold::Abs { abs: -50 }]);
    assert!(matches!(
        parse_axis_binding(&AxisMappingEnum::Advanced(a), &sg, false, &th),
        Err(ConfigError::DigitriggerThresholds)
    ));

    let mut a = advanced("x");
    a.digitrigger_thresh = Some([TrThreshold::Abs { abs: 0 }, TrThreshold::Abs { abs: 100 }]);
    assert!(matches!(
        parse_axis_binding(&AxisMappingEnum::Advanced(a), &sg, false, &th),
        Err(ConfigError::DigitriggerThresholds)
    ));

    let mut a = advanced("x");
    a.from_range = Some([i32::MIN, 0, 10]);
    assert!(matches!(parse_axis_binding(&AxisMappingEnum::Advanced(a), &sg, false, &th), Err(ConfigError::ArithmeticOverflow)));

    let mut a = advanced("x");
    a.digitrigger_button = Some(s("no_such_button"));
    assert!(matches!(parse_axis_binding(&AxisMappingEnum::Advanced(a), &sg, false, &th), Err(ConfigError::UnknownKeyCode(_))));
}

#[test]
fn absolute_thresholds_are_taken_as_given() {
    let mut a = advanced("x");
    a.digitrigger_thresh = Some([TrThreshold::Abs { abs: -300 }, TrThreshold::Abs { abs: -200 }]);
    let m = AxisMappingEnum::Advanced(a);
    let b = parse_axis_binding(&m, &simulate_gamepad(), false, &default_thresh([-32768, 0, 32767])).ok().unwrap();
    assert_eq!(b.digitrigger_thresh, [-300, -200]);
}

#[test]
fn button_binding_skips_dpad_when_asked() {
    let m = ButtonMappingEnum::Advanced(ButtonMapping { key: s("BTN_DPAD_UP"), dpad: true });
    assert!(matches!(parse_button_binding(&m, true), Ok(None)));
    let b = parse_button_binding(&m, false).ok().unwrap().unwrap();
    assert_eq!(b.code, BTN_DPAD_UP);
    assert!(!b.state);
    let plain = ButtonMappingEnum::Code(s("east"));
    assert_eq!(parse_button_binding(&plain, true).ok().unwrap().unwrap().code, BTN_EAST);
}

#[test]
fn parse_sample_preset() {
    let cfg = base_config();
    let p = ParsedConfig::parse(&cfg, &args(), &axis_names()).ok().unwrap();
    assert_eq!(p.evdev_bus_type, 3);
    // the d-pad drives the hat, so the d-pad button mapping is left out
    assert_eq!(p.button_bindings.len(), 2);
    assert_eq!(p.button_lut.len(), 26);
    assert_eq!(p.button_lut[SDL_BUTTON_SOUTH as usize], BTN_SOUTH);
    assert_eq!(p.button_lut[SDL_BUTTON_DPAD_UP as usize], u16::MAX);
    assert_eq!(p.axis_lut.len(), 6);
    assert_eq!(p.axis_lut[SDL_AXIS_LEFTY as usize].unwrap().setup.code, ABS_Y);
    assert!(p.axis_lut[3].is_none());
    // the trigger axis is absolute: its output range starts at 0
    assert_eq!(p.axis_lut[SDL_AXIS_LEFT_TRIGGER as usize].unwrap().setup.minimum, 0);
    assert_eq!(p.dpad_to_hat_axis, Some([ABS_HAT0X, ABS_HAT0Y]));
    assert_eq!(p.additional_axes.len(), 2);
    assert_eq!((p.additional_axes[0].code, p.additional_axes[0].minimum, p.additional_axes[0].maximum), (ABS_HAT0X, -1, 1));
    assert!(p.additional_buttons.is_empty());
    assert_eq!(p.power_refresh_interval, 5_000_000_000);
    assert_eq!(p.rumble_mul, [65535, 65535]);
    assert!(p.parsed_gyro.is_none());
    assert!(p.stickgroup.is_empty());
    assert!(p.hat_lut.is_empty());
}

#[test]
fn dpad_to_dpad_keeps_dpad_buttons() {
    let mut cfg = base_config();
    cfg.behavior.dpad_to_dpad = true;
    cfg.behavior.dpad_to_hat = false;
    let p = ParsedConfig::parse(&cfg, &args(), &axis_names()).ok().unwrap();
    assert_eq!(p.button_lut[SDL_BUTTON_DPAD_UP as usize], BTN_DPAD_UP);
    assert_eq!(p.dpad_to_hat_axis, None);
    assert!(p.additional_axes.is_empty());
}

#[test]
fn digital_triggers_reserve_their_keys() {
    let mut cfg = base_config();
    cfg.behavior.simulate_digital_trigger = true;
    let mut a = advanced("rz");
    a.digitrigger_button = Some(s("tr2"));
    cfg.axis_map.push(axis_entry("righttrigger", AxisMappingEnum::Advanced(a), true));
    let p = ParsedConfig::parse(&cfg, &args(), &axis_names()).ok().unwrap();
    assert_eq!(p.additional_buttons, vec![0x139]);

    cfg.button_map.push((name("back"), ButtonMappingEnum::Code(s("tr2"))));
    let e = ParsedConfig::parse(&cfg, &args(), &axis_names()).err().unwrap();
    assert!(matches!(e, ConfigError::DuplicateButtonOutput { code: 0x139, .. }));
}

#[test]
fn duplicate_outputs_are_refused() {
    let mut cfg = base_config();
    cfg.button_map.push((name("west"), ButtonMappingEnum::Code(s("BTN_SOUTH"))));
    let e = ParsedConfig::parse(&cfg, &args(), &axis_names()).err().unwrap();
    assert!(matches!(e, ConfigError::DuplicateButtonOutput { code: BTN_SOUTH, .. }));

    let mut cfg = base_config();
    cfg.axis_map.push(axis_entry("rightx", AxisMappingEnum::Code(s("ABS_X")), false));
    let e = ParsedConfig::parse(&cfg, &args(), &axis_names()).err().unwrap();
    assert!(matches!(e, ConfigError::DuplicateAxisOutput { code: ABS_X, .. }));

    // the hat axes are taken by the d-pad
    let mut cfg = base_config();
    cfg.axis_map.push(axis_entry("rightx", AxisMappingEnum::Code(s("hat0x")), false));
    let e = ParsedConfig::parse(&cfg, &args(), &axis_names()).err().unwrap();
    assert!(matches!(e, ConfigError::DuplicateAxisOutput { code: ABS_HAT0X, .. }));
}

#[test]
fn binding_errors_name_the_key() {
    let mut cfg = base_config();
    cfg.button_map.push((name("north"), ButtonMappingEnum::Code(s("BTN_NOWHERE"))));
    let e = ParsedConfig::parse(&cfg, &args(), &axis_names()).err().unwrap();
    match e {
        ConfigError::ButtonBinding { key, inner } => {
            assert_eq!(key, "north");
            assert!(matches!(*inner, ConfigError::UnknownKeyCode(_)));
        },
        other => panic!("unexpected error {other:?}"),
    }

    let mut cfg = base_config();
    cfg.axis_map.push(axis_entry("righty", AxisMappingEnum::Code(s("ABS_NOWHERE")), false));
    let e = ParsedConfig::parse(&cfg, &args(), &axis_names()).err().unwrap();
    match e {
        ConfigError::AxisBinding { key, inner } => {
            assert_eq!(key, "righty");
            assert!(matches!(*inner, ConfigError::UnknownAxisCode(_)));
        },
        other => panic!("unexpected error {other:?}"),
    }

    let mut cfg = base_config();
    cfg.button_map.push((name("nobutton"), ButtonMappingEnum::Code(s("BTN_WEST"))));
    let e = ParsedConfig::parse(&cfg, &args(), &axis_names()).err().unwrap();
    assert!(matches!(e, ConfigError::UnknownSdlButtonName(_)));
}

#[test]
fn bus_type_error_is_wrapped() {
    let mut cfg = base_config();
    cfg.simulate_gamepad.bus_type = Some(s("BUS_NOWHERE"));
    let e = ParsedConfig::parse(&cfg, &args(), &axis_names()).err().unwrap();
    match e {
        ConfigError::ParsingBusType(inner) => assert!(matches!(*inner, ConfigError::UnknownBusType(_))),
        other => panic!("unexpected error {other:?}"),
    }
    cfg.simulate_gamepad.bus_type = Some(s("BUS_BLUETOOTH"));
    assert_eq!(ParsedConfig::parse(&cfg, &args(), &axis_names()).ok().unwrap().evdev_bus_type, 5);
}

#[test]
fn custom_hat_axes() {
    let mut cfg = base_config();
    cfg.behavior.dpad_to_hat_axis = Some([s("hat1x"), s("ABS_HAT1Y")]);
    let p = ParsedConfig::parse(&cfg, &args(), &axis_names()).ok().unwrap();
    assert_eq!(p.dpad_to_hat_axis, Some([0x12, 0x13]));
    cfg.behavior.dpad_to_hat_axis = Some([s("hat1x"), s("nothing")]);
    assert!(matches!(ParsedConfig::parse(&cfg, &args(), &axis_names()), Err(ConfigError::UnknownAxisCode(_))));
}

#[test]
fn stick_groups_mark_their_axes() {
    let mut cfg = base_config();
    cfg.sticks.push((
        "left".to_string(),
        StickGroup {
            axis: [SdlKey::Name(name("leftx")), SdlKey::Index(1)],
            process: true,
            deadzone_check: StickDeadzoneCheck::Valid,
        },
    ));
    let p = ParsedConfig::parse(&cfg, &args(), &axis_names()).ok().unwrap();
    assert_eq!(p.stickgroup.len(), 1);
    assert_eq!(p.stickgroup[0].axes, [SDL_AXIS_LEFTX, SDL_AXIS_LEFTY]);
    assert_eq!(p.axis_lut[0].unwrap().axisgroup, Some((0, false)));
    assert_eq!(p.axis_lut[1].unwrap().axisgroup, Some((0, true)));
    assert_eq!(p.axis_lut[4].unwrap().axisgroup, None);
}

#[test]
fn stick_group_verdicts_are_errors() {
    for (check, expect) in [
        (StickDeadzoneCheck::BadOrder, "order"),
        (StickDeadzoneCheck::NotFinite, "float"),
        (StickDeadzoneCheck::NegativeClamp, "clamp"),
    ] {
        let mut cfg = base_config();
        cfg.sticks.push((
            "left".to_string(),
            StickGroup { axis: [SdlKey::Index(0), SdlKey::Index(1)], process: true, deadzone_check: check },
        ));
        let e = ParsedConfig::parse(&cfg, &args(), &axis_names()).err().unwrap();
        let ok = match expect {
            "order" => matches!(e, ConfigError::StickDeadzoneOrder),
            "float" => matches!(e, ConfigError::StickInvalidFloat),
            _ => matches!(e, ConfigError::StickNegativeClamp),
        };
        assert!(ok, "{e:?}");
    }
}

#[test]
fn rumble_scale_and_power_interval() {
    let mut cfg = base_config();
    cfg.behavior.rumble_scale_left = Some(32767);
    cfg.behavior.rumble_scale_right = Some(1_000_000);
    cfg.input_gamepad.power_refresh_interval = Some(250);
    let p = ParsedConfig::parse(&cfg, &args(), &axis_names()).ok().unwrap();
    assert_eq!(p.rumble_mul, [32767, 131070]);
    assert_eq!(p.power_refresh_interval, 250_000_000);
}

#[test]
fn gyro_defaults() {
    let mut cfg = base_config();
    cfg.simulate_gamepad_gyro = Some(SimulateGamepadGyro {
        enable: true,
        name: "Motion".to_string(),
        vendor_id: 1,
        product_id: 2,
        version: 3,
        accel_out_range: None,
        gyro_out_range: Some([-100, 100]),
        accel_fuzz: None,
        accel_flat: None,
        accel_res: None,
        gyro_fuzz: None,
        gyro_flat: None,
        gyro_res: None,
    });
    let p = ParsedConfig::parse(&cfg, &args(), &axis_names()).ok().unwrap();
    let g = p.parsed_gyro.unwrap();
    assert_eq!((g.gyro_info.minimum, g.gyro_info.maximum, g.gyro_info.value), (-100, 100, 0));
    assert_eq!((g.gyro_info.fuzz, g.gyro_info.flat, g.gyro_info.resolution), (16, 0, 1024));
    assert_eq!((g.accel_info.minimum, g.accel_info.maximum), (-32768, 32768));
    assert_eq!((g.accel_info.fuzz, g.accel_info.flat, g.accel_info.resolution), (16, 0, 8192));
}

#[test]
fn input_range_maps_onto_target_range() {
    let mut a = advanced("x");
    a.from_range = Some([-1000, 200, 1000]);
    a.to_range = Some([-100, 0, 300]);
    let m = AxisMappingEnum::Advanced(a);
    let range = axis_input_range(&m, false);
    let b = parse_axis_binding(&m, &simulate_gamepad(), false, &default_thresh(range)).ok().unwrap();
    assert_eq!(scale_axis(&b, -1000), -100);
    assert_eq!(scale_axis(&b, 200), 0);
    assert_eq!(scale_axis(&b, 1000), 300);
    assert_eq!(scale_axis(&b, 600), 150);
    assert_eq!(scale_axis(&b, -400), -50);
    // beyond the ends the output stays at the ends of the target range
    assert_eq!(scale_axis(&b, 5000), 300);
    assert_eq!(scale_axis(&b, -5000), -100);
}

#[test]
fn lookup_results_become_codes_or_errors() {
    let n = "KEY_WHATEVER".to_string();
    assert_eq!(key_code_result(&n, Some(30)).ok(), Some(30));
    assert!(matches!(key_code_result(&n, Some(u16::MAX)), Err(ConfigError::UnsupportedKeyCode)));
    assert!(matches!(key_code_result(&n, None), Err(ConfigError::UnknownKeyCode(v)) if v == "KEY_WHATEVER"));
    assert_eq!(axis_code_result(&n, Some(0x10)).ok(), Some(0x10));
    assert!(matches!(axis_code_result(&n, None), Err(ConfigError::UnknownAxisCode(v)) if v == "KEY_WHATEVER"));
    assert_eq!(bus_type_result(&n, Some(3)).ok(), Some(3));
    assert!(matches!(bus_type_result(&n, None), Err(ConfigError::UnknownBusType(_))));
}

#[test]
fn alias_tables_take_the_compared_form() {
    assert_eq!(button_by_alias("dpadleft", None), Some(SDL_BUTTON_DPAD_LEFT_ID));
    assert_eq!(button_by_alias("DPad_Left", None), None);
    assert_eq!(button_by_alias("touchpad", Some(1)), Some(20));
    assert_eq!(button_by_alias("paddle", Some(16)), Some(16));
    assert_eq!(axis_by_alias("triggerr", None), Some(SDL_AXIS_RIGHT_TRIGGER));
    assert_eq!(axis_by_alias("Left_X", Some(2)), Some(2));
    // a lookup that names no gamepad button or axis counts as none
    assert_eq!(button_by_alias("paddle", Some(26)), None);
    assert_eq!(axis_by_alias("wheel", Some(-1)), None);
    assert!(matches!(
        match_sdl_button(&SdlKey::Name(SdlName { name: "paddle".into(), sdl_lookup: Some(40) })),
        Err(ConfigError::UnknownSdlButtonName(_))
    ));
}

#[test]
fn larger_inputs_never_give_smaller_outputs() {
    let mut a = advanced("x");
    a.from_range = Some([-20000, 1000, 30000]);
    a.to_range = Some([-7, 3, 50]);
    let m = AxisMappingEnum::Advanced(a);
    let range = axis_input_range(&m, false);
    let b = parse_axis_binding(&m, &simulate_gamepad(), false, &default_thresh(range)).ok().unwrap();
    let mut prev = i32::MIN;
    for v in (i16::MIN..=i16::MAX).step_by(97) {
        let out = scale_axis(&b, v);
        assert!(out >= prev, "{v}: {out} < {prev}");
        assert!(b.clamp_out[0] <= out && out <= b.clamp_out[1]);
        prev = out;
    }
}

#[test]
fn aliases_name_valid_ids() {
    for n in ["n", "e", "s", "w", "select", "steam", "start", "l3", "r3", "l1", "r1", "dpu", "dpd", "dpl", "dpr",
        "misc1", "misc6", "rightpaddle1", "leftpaddle2", "touchpad"] {
        let id = match_sdl_button_string(n, None).unwrap();
        assert!((0..26).contains(&id), "{n}");
    }
    for n in ["lx", "ly", "rx", "ry", "lt", "rt"] {
        let id = match_sdl_axis_string(n, None).unwrap();
        assert!((0..6).contains(&id), "{n}");
    }
}

#[test]
fn zero_thresholds_disable_the_digital_trigger() {
    let sg = simulate_gamepad();
    let th = default_thresh([-32768, 0, 32767]);
    let a = AxisMapping {
        key: StringOrU16::U16(0),
        digitrigger_thresh: Some([TrThreshold::Abs { abs: 0 }, TrThreshold::Abs { abs: 0 }]),
        ..advanced("x")
    };
    let b = parse_axis_binding(&AxisMappingEnum::Advanced(a), &sg, false, &th).ok().unwrap();
    assert_eq!(b.digitrigger_thresh, [0, 0]);
    // a span of at most two input steps leaves both thresholds at zero
    let mut a = advanced("x");
    a.from_range = Some([0, 0, 2]);
    let b = parse_axis_binding(&AxisMappingEnum::Advanced(a), &sg, false, &th).ok().unwrap();
    assert_eq!(b.digitrigger_thresh, [0, 0]);
}
