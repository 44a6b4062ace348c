use sdl3_to_evdev::config::{
    AxisMapEntry, AxisMapping, AxisMappingEnum, Behavior, ButtonMappingEnum, Config, FractionThreshold, InputGamepad,
    SdlKey, SdlName, SimulateGamepad, SimulateGamepadGyro, StickDeadzoneCheck, StickGroup, StringFilter, StringOrU16,
    TrThreshold, VendorProductIds,
};
use sdl3_to_evdev::event_loop::{max_batch_size, DEFAULT_BATCH_SIZE};
use sdl3_to_evdev::event_processing::{EventAction, GamepadEvent, HatState, LoopState, MotionSensor};
use sdl3_to_evdev::parsed_config::{axis_input_range, ParsedConfig};
use sdl3_to_evdev::sdl::{SDL_BUTTON_DPAD_LEFT, SDL_BUTTON_DPAD_UP, SDL_BUTTON_SOUTH};
use sdl3_to_evdev::simulated::{
    EvdevEvent, RumbleAction, RumbleEvent, SimulatedGamepad, EV_ABS, EV_KEY, EV_MSC, FF_GAIN, FF_GAIN_INITIAL,
    FF_SLOTS, MSC_TIMESTAMP,
};
use sdl3_to_evdev::simulated_gyro::SimulatedGamepadGyro;
use sdl3_to_evdev::Args;

const BTN_SOUTH: u16 = 0x130;
const BTN_TL2: u16 = 0x138;
const ABS_X: u16 = 0x00;
const ABS_Y: u16 = 0x01;
const ABS_Z: u16 = 0x02;
const ABS_HAT0X: u16 = 0x10;
const ABS_HAT0Y: u16 = 0x11;
const PAD: u32 = 7;

fn s(v: &str) -> StringOrU16 {
    StringOrU16::String(v.to_string())
}

fn name(v: &str) -> SdlName {
    SdlName { name: v.to_string(), sdl_lookup: None }
}

fn fraction(v: f64, [ia, ib, ic]: [i32; 3]) -> FractionThreshold {
    FractionThreshold {
        finite: v.is_finite(),
        sign_negative: v.is_sign_negative(),
        sign_positive: v.is_sign_positive(),
        times_negative_span: (v * (ib as i64 - ia as i64) as f64) as i32,
        times_positive_span: (v * (ic as i64 - ib as i64) as f64) as i32,
    }
}

fn axis_entry(key: &str, mapping: AxisMappingEnum, absolute: bool) -> AxisMapEntry {
    let range = axis_input_range(&mapping, absolute);
    AxisMapEntry { key: name(key), mapping, default_thresh: [fraction(0.8, range), fraction(0.75, range)] }
}

fn input_gamepad() -> InputGamepad {
    InputGamepad {
        filter_name: StringFilter::Empty,
        filter_path: StringFilter::Empty,
        filter_guid: StringFilter::Empty,
        filter_serial: StringFilter::Empty,
        filter_vendor_id: VendorProductIds::Empty,
        filter_product_id: VendorProductIds::Empty,
        filter_product_version: VendorProductIds::Empty,
        filter_fw_version: VendorProductIds::Empty,
        wait_timeout_ms: None,
        wait_timeout_ms_idle: None,
        power_refresh_interval: None,
        input_event_batch_size: None,
        sdl_gamepad_mapping: None,
    }
}

fn config(sticks: bool) -> Config {
    let trigger = AxisMappingEnum::Advanced(AxisMapping {
        key: s("z"),
        initial: None,
        from_range: None,
        to_range: None,
        out_range: None,
        fuzz: None,
        flat: None,
        res: None,
        digitrigger_button: Some(s("tl2")),
        digitrigger_thresh: None,
    });
    let mut stick_list = vec![];
    if sticks {
        stick_list.push((
            "left".to_string(),
            StickGroup {
                axis: [SdlKey::Index(0), SdlKey::Index(1)],
                process: true,
                deadzone_check: StickDeadzoneCheck::Valid,
            },
        ));
    }
    Config {
        input_gamepad: input_gamepad(),
        simulate_gamepad: SimulateGamepad {
            name: "Virtual pad".to_string(),
            bus_type: None,
            vendor_id: 1,
            product_id: 2,
            version: 3,
            default_axis_fuzz: None,
            default_axis_flat: None,
            default_axis_res: None,
            keep_open_out_gamepad: None,
            enable_rumble: true,
            emit_timestamp: true,
        },
        simulate_gamepad_gyro: None,
        behavior: Behavior {
            dpad_to_dpad: false,
            dpad_to_hat: true,
            dpad_to_hat_axis: None,
            rumble_scale_left: None,
            rumble_scale_right: None,
            simulate_digital_trigger: true,
        },
        button_map: vec![(name("south"), ButtonMappingEnum::Code(s("BTN_SOUTH")))],
        axis_map: vec![
            axis_entry("leftx", AxisMappingEnum::Code(s("x")), false),
            axis_entry("lefty", AxisMappingEnum::Code(s("y")), false),
            axis_entry("lefttrigger", trigger, true),
        ],
        sticks: stick_list,
    }
}

fn axis_names() -> Vec<String> {
    ["leftx", "lefty", "rightx", "righty", "lefttrigger", "righttrigger"].iter().map(|v| v.to_string()).collect()
}

fn setup(sticks: bool) -> (Config, ParsedConfig, LoopState) {
    let cfg = config(sticks);
    let p = ParsedConfig::parse(&cfg, &Args { verbose: false, dump_parse_config: false }, &axis_names()).ok().unwrap();
    let mut ls = LoopState::new();
    assert!(p.check_stick_axes_bound());
    ls.connect(PAD, &p, false);
    (cfg, p, ls)
}

fn queue(ls: &LoopState) -> Vec<EvdevEvent> {
    ls.output.as_ref().unwrap().queue.clone()
}

fn key(code: u16, value: i32) -> EvdevEvent {
    EvdevEvent { event_type: EV_KEY, code, value }
}

fn abs(code: u16, value: i32) -> EvdevEvent {
    EvdevEvent { event_type: EV_ABS, code, value }
}

#[test]
fn connect_opens_a_fresh_virtual_gamepad() {
    let (_, p, ls) = setup(true);
    let (id, calib) = ls.input.as_ref().unwrap();
    assert_eq!(*id, PAD);
    assert_eq!(calib.states.len(), 1);
    assert_eq!(calib.states[0].axis_codes, [ABS_X, ABS_Y]);
    assert!(!calib.states[0].dirty);
    let out = ls.output.as_ref().unwrap();
    assert!(out.queue.is_empty());
    assert_eq!(out.ff_gain, FF_GAIN_INITIAL);
    assert_eq!(out.ff_slot.len(), FF_SLOTS);
    assert_eq!(out.digitrigger_state, vec![false; p.axis_lut.len()]);
    assert!(ls.motion_output.is_none());
}

#[test]
fn buttons_produce_key_events() {
    let (cfg, p, mut ls) = setup(false);
    assert_eq!(ls.process_event(&cfg, &p, GamepadEvent::ButtonDown { which: PAD, button: SDL_BUTTON_SOUTH }), EventAction::Nothing);
    assert_eq!(ls.process_event(&cfg, &p, GamepadEvent::ButtonUp { which: PAD, button: SDL_BUTTON_SOUTH }), EventAction::Nothing);
    assert_eq!(queue(&ls), vec![key(BTN_SOUTH, 1), key(BTN_SOUTH, 0)]);
}

#[test]
fn unbound_buttons_and_other_pads_are_ignored() {
    let (cfg, p, mut ls) = setup(false);
    ls.process_event(&cfg, &p, GamepadEvent::ButtonDown { which: PAD, button: 10 });
    ls.process_event(&cfg, &p, GamepadEvent::ButtonDown { which: PAD + 1, button: SDL_BUTTON_SOUTH });
    ls.process_event(&cfg, &p, GamepadEvent::AxisMotion { which: PAD + 1, axis: 0, value: 100 });
    ls.process_event(&cfg, &p, GamepadEvent::ButtonDown { which: PAD, button: 99 });
    assert!(queue(&ls).is_empty());
}

#[test]
fn dpad_drives_the_hat() {
    let (cfg, p, mut ls) = setup(false);
    ls.process_event(&cfg, &p, GamepadEvent::ButtonDown { which: PAD, button: SDL_BUTTON_DPAD_UP });
    ls.process_event(&cfg, &p, GamepadEvent::ButtonDown { which: PAD, button: SDL_BUTTON_DPAD_LEFT });
    ls.process_event(&cfg, &p, GamepadEvent::ButtonUp { which: PAD, button: SDL_BUTTON_DPAD_UP });
    assert_eq!(queue(&ls), vec![abs(ABS_HAT0Y, -1), abs(ABS_HAT0X, -1), abs(ABS_HAT0Y, 0)]);
    assert!(ls.tracker.hat_is_consistent());
}

#[test]
fn hats_without_a_table_produce_nothing() {
    let (cfg, p, mut ls) = setup(false);
    ls.process_event(&cfg, &p, GamepadEvent::HatMotion { which: PAD, hat_idx: 0, state: HatState::LeftUp });
    assert!(queue(&ls).is_empty());
}

#[test]
fn axes_are_scaled() {
    let (cfg, p, mut ls) = setup(false);
    ls.process_event(&cfg, &p, GamepadEvent::AxisMotion { which: PAD, axis: 0, value: 16384 });
    ls.process_event(&cfg, &p, GamepadEvent::AxisMotion { which: PAD, axis: 1, value: -32768 });
    ls.process_event(&cfg, &p, GamepadEvent::AxisMotion { which: PAD, axis: 0, value: 0 });
    assert_eq!(queue(&ls), vec![abs(ABS_X, 16384), abs(ABS_Y, -32768), abs(ABS_X, 0)]);
}

#[test]
fn digital_trigger_has_hysteresis() {
    let (cfg, p, mut ls) = setup(false);
    let m = p.axis_lut[4].unwrap();
    assert_eq!(m.digitrigger_thresh, [26213, 24575]);
    for v in [30000i16, 25000, 20000, 25000] {
        ls.process_event(&cfg, &p, GamepadEvent::AxisMotion { which: PAD, axis: 4, value: v });
    }
    assert_eq!(
        queue(&ls),
        vec![
            abs(ABS_Z, 30000),
            key(BTN_TL2, 1),
            abs(ABS_Z, 25000),
            abs(ABS_Z, 20000),
            key(BTN_TL2, 0),
            abs(ABS_Z, 25000),
        ]
    );
    assert!(!ls.output.as_ref().unwrap().digitrigger_state[4]);
}

#[test]
fn trigger_negative_input_is_clamped() {
    let (cfg, p, mut ls) = setup(false);
    ls.process_event(&cfg, &p, GamepadEvent::AxisMotion { which: PAD, axis: 4, value: -5 });
    assert_eq!(queue(&ls), vec![abs(ABS_Z, 0)]);
}

#[test]
fn stick_axes_only_record_their_value() {
    let (cfg, p, mut ls) = setup(true);
    ls.process_event(&cfg, &p, GamepadEvent::AxisMotion { which: PAD, axis: 1, value: -1234 });
    assert!(queue(&ls).is_empty());
    let g = &ls.input.as_ref().unwrap().1.states[0];
    assert_eq!(g.current, [0, -1234]);
    assert!(g.dirty);
}

#[test]
fn device_events() {
    let (cfg, p, mut ls) = setup(false);
    assert_eq!(ls.process_event(&cfg, &p, GamepadEvent::DeviceAdded { which: 9 }), EventAction::AddController(9));
    assert_eq!(ls.process_event(&cfg, &p, GamepadEvent::DeviceRemoved { which: 9 }), EventAction::Nothing);
    assert!(ls.input.is_some());
    ls.process_event(&cfg, &p, GamepadEvent::ButtonDown { which: PAD, button: SDL_BUTTON_SOUTH });
    assert_eq!(
        ls.process_event(&cfg, &p, GamepadEvent::DeviceRemoved { which: PAD }),
        EventAction::Disconnected { pending: vec![key(BTN_SOUTH, 1)], motion_pending: vec![] }
    );
    assert!(ls.input.is_none());
    assert!(ls.output.is_none());
    assert!(ls.motion_output.is_none());
    assert_eq!(ls.process_event(&cfg, &p, GamepadEvent::Other), EventAction::Nothing);
    assert!(!ls.exit);
    assert_eq!(ls.process_event(&cfg, &p, GamepadEvent::Quit), EventAction::Quit);
    assert!(ls.exit);
}

#[test]
fn rumble_plays_uploaded_effects() {
    let (cfg, p, mut ls) = setup(false);
    assert!(ls.wants_rumble(&cfg));
    let up = RumbleEvent::Uploaded { effect_id: 0, rumble: Some((65535, 32768)), length: 100 };
    assert_eq!(ls.process_rumble(&cfg, &p, up), RumbleAction::Nothing);
    let play = RumbleEvent::ForceFeedback { code: 0, value: 1 };
    assert_eq!(ls.process_rumble(&cfg, &p, play), RumbleAction::SetRumble { left: 65535, right: 32768, duration: 100 });
    let gain = RumbleEvent::ForceFeedback { code: FF_GAIN, value: 32768 };
    assert_eq!(ls.process_rumble(&cfg, &p, gain), RumbleAction::Nothing);
    assert_eq!(ls.output.as_ref().unwrap().ff_gain, 32768);
    assert_eq!(ls.process_rumble(&cfg, &p, play), RumbleAction::SetRumble { left: 32768, right: 16384, duration: 100 });
    let stop = RumbleEvent::ForceFeedback { code: 0, value: 0 };
    assert_eq!(ls.process_rumble(&cfg, &p, stop), RumbleAction::SetRumble { left: 0, right: 0, duration: 0 });
    assert_eq!(ls.process_rumble(&cfg, &p, RumbleEvent::Erased { effect_id: 0 }), RumbleAction::Nothing);
    assert_eq!(ls.process_rumble(&cfg, &p, play), RumbleAction::SetRumble { left: 0, right: 0, duration: 0 });
}

#[test]
fn rumble_edge_cases() {
    let mut g = SimulatedGamepad::create(0);
    let mul = [65535, 131070];
    let up = RumbleEvent::Uploaded { effect_id: 3, rumble: Some((1000, 1000)), length: 0 };
    g.process_rumble_event(mul, up);
    // a length of 0 plays for as long as possible; the right motor is doubled
    assert_eq!(
        g.process_rumble_event(mul, RumbleEvent::ForceFeedback { code: 3, value: 1 }),
        RumbleAction::SetRumble { left: 1000, right: 2000, duration: 65535 }
    );
    // out-of-range slots change nothing
    let before = g.ff_slot.clone();
    g.process_rumble_event(mul, RumbleEvent::Uploaded { effect_id: 16, rumble: Some((1, 1)), length: 1 });
    g.process_rumble_event(mul, RumbleEvent::Erased { effect_id: 99 });
    assert_eq!(g.ff_slot, before);
    assert_eq!(g.process_rumble_event(mul, RumbleEvent::ForceFeedback { code: 40, value: 1 }), RumbleAction::Nothing);
    // a non-rumble effect empties its slot
    g.process_rumble_event(mul, RumbleEvent::Uploaded { effect_id: 3, rumble: None, length: 5 });
    assert!(g.ff_slot[3].is_none());
    // a negative gain cannot scale a rumble
    g.process_rumble_event(mul, RumbleEvent::Uploaded { effect_id: 1, rumble: Some((10, 10)), length: 5 });
    g.process_rumble_event(mul, RumbleEvent::ForceFeedback { code: FF_GAIN, value: -1 });
    assert_eq!(g.process_rumble_event(mul, RumbleEvent::ForceFeedback { code: 1, value: 1 }), RumbleAction::GainOverflow);
    assert_eq!(g.process_rumble_event(mul, RumbleEvent::Other), RumbleAction::Nothing);
}

#[test]
fn no_output_means_no_rumble() {
    let (cfg, p, _) = setup(false);
    let mut ls = LoopState::new();
    assert!(!ls.wants_rumble(&cfg));
    assert_eq!(
        ls.process_rumble(&cfg, &p, RumbleEvent::ForceFeedback { code: 0, value: 1 }),
        RumbleAction::Nothing
    );
}

#[test]
fn timestamps_close_non_empty_batches() {
    let mut g = SimulatedGamepad::create(0);
    g.push_timestamp(5_000_000, true);
    assert!(g.queue.is_empty());
    g.queue.push(key(BTN_SOUTH, 1));
    g.push_timestamp(5_000_000, false);
    assert_eq!(g.queue.len(), 1);
    g.push_timestamp(5_000_000, true);
    assert_eq!(g.queue[1], EvdevEvent { event_type: EV_MSC, code: MSC_TIMESTAMP, value: 5000 });

    let mut m = SimulatedGamepadGyro { queue: vec![] };
    m.push_timestamp(1_999);
    assert!(m.queue.is_empty());
    m.queue.push(abs(ABS_X, 1));
    m.push_timestamp(1_999);
    assert_eq!(m.queue[1], EvdevEvent { event_type: EV_MSC, code: MSC_TIMESTAMP, value: 1 });
}

#[test]
fn wait_timeouts() {
    let mut cfg = input_gamepad();
    let mut ls = LoopState::new();
    assert_eq!(ls.wait_timeout_ms(&cfg), 5000);
    cfg.wait_timeout_ms_idle = Some(100);
    assert_eq!(ls.wait_timeout_ms(&cfg), 100);
    let (_, p, _) = setup(false);
    ls.connect(PAD, &p, true);
    assert!(ls.motion_output.is_some());
    assert_eq!(ls.wait_timeout_ms(&cfg), 5);
    cfg.wait_timeout_ms = Some(2);
    assert_eq!(ls.wait_timeout_ms(&cfg), 2);
}

#[test]
fn batch_size() {
    let mut cfg = input_gamepad();
    assert_eq!(max_batch_size(&cfg), DEFAULT_BATCH_SIZE);
    cfg.input_event_batch_size = Some(4);
    assert_eq!(max_batch_size(&cfg), 4);
}

#[test]
fn power_checks_follow_the_interval() {
    let mut ls = LoopState::new();
    assert_eq!(ls.take_power_check(0), Some(false));
    ls.tick = 999;
    assert_eq!(ls.take_power_check(1000), Some(false));
    ls.tick = 1000;
    assert_eq!(ls.take_power_check(1000), Some(true));
    assert_eq!(ls.last_power_check, 1000);
    assert_eq!(ls.take_power_check(1000), Some(false));
    assert_eq!(ls.take_power_check(u64::MAX), None);

    assert!(!ls.power_check(None));
    assert!(ls.power_check(Some((2, 80))));
    assert!(!ls.power_check(Some((2, 80))));
    assert!(ls.power_check(Some((2, 79))));
    assert!(!ls.power_check(None));
    assert_eq!(ls.last_power_info, Some((2, 79)));
}

fn gyro(range: [i32; 2]) -> SimulateGamepadGyro {
    SimulateGamepadGyro {
        enable: true,
        name: "Motion".to_string(),
        vendor_id: 1,
        product_id: 2,
        version: 3,
        accel_out_range: None,
        gyro_out_range: Some(range),
        accel_fuzz: None,
        accel_flat: None,
        accel_res: None,
        gyro_fuzz: None,
        gyro_flat: None,
        gyro_res: None,
    }
}

fn motion_setup(range: [i32; 2]) -> (ParsedConfig, LoopState) {
    let mut cfg = config(false);
    cfg.simulate_gamepad_gyro = Some(gyro(range));
    let p = ParsedConfig::parse(&cfg, &Args { verbose: false, dump_parse_config: false }, &axis_names()).ok().unwrap();
    let mut ls = LoopState::new();
    ls.connect(PAD, &p, true);
    (p, ls)
}

#[test]
fn sensor_readings_are_clamped_to_the_output_range() {
    let (p, mut ls) = motion_setup([-100, 100]);
    assert_eq!(ls.process_sensor(&p, PAD, MotionSensor::Gyroscope, [150, -5, -200]), EventAction::Nothing);
    assert_eq!(ls.process_sensor(&p, PAD, MotionSensor::Accelerometer, [40000, 1, -40000]), EventAction::Nothing);
    assert_eq!(ls.process_sensor(&p, PAD + 1, MotionSensor::Accelerometer, [1, 1, 1]), EventAction::Nothing);
    assert_eq!(
        ls.motion_output.as_ref().unwrap().queue,
        vec![
            abs(0x03, 100),
            abs(0x04, -5),
            abs(0x05, -100),
            abs(0x00, 32768),
            abs(0x01, 1),
            abs(0x02, -32768),
        ]
    );
    assert!(queue(&ls).is_empty());
}

#[test]
fn sensor_range_out_of_order_is_reported() {
    let (p, mut ls) = motion_setup([10, -10]);
    assert_eq!(ls.process_sensor(&p, PAD, MotionSensor::Gyroscope, [0, 0, 0]), EventAction::ClampRangeInvalid);
    assert!(ls.motion_output.as_ref().unwrap().queue.is_empty());
    let mut idle = LoopState::new();
    assert_eq!(idle.process_sensor(&p, PAD, MotionSensor::Gyroscope, [0, 0, 0]), EventAction::Nothing);
}

#[test]
fn negative_gain_with_zero_product_stills_the_motors() {
    let mut g = SimulatedGamepad::create(0);
    let mul = [0, 0];
    g.process_rumble_event(mul, RumbleEvent::Uploaded { effect_id: 2, rumble: Some((500, 700)), length: 40 });
    g.process_rumble_event(mul, RumbleEvent::ForceFeedback { code: FF_GAIN, value: -1 });
    assert_eq!(
        g.process_rumble_event(mul, RumbleEvent::ForceFeedback { code: 2, value: 1 }),
        RumbleAction::SetRumble { left: 0, right: 0, duration: 40 }
    );
    // zero magnitudes: no overflow either, with the usual multipliers
    let mul = [65535, 65535];
    g.process_rumble_event(mul, RumbleEvent::Uploaded { effect_id: 3, rumble: Some((0, 0)), length: 0 });
    assert_eq!(
        g.process_rumble_event(mul, RumbleEvent::ForceFeedback { code: 3, value: 1 }),
        RumbleAction::SetRumble { left: 0, right: 0, duration: 65535 }
    );
    // one motor with a non-zero product overflows
    g.process_rumble_event(mul, RumbleEvent::Uploaded { effect_id: 4, rumble: Some((0, 1)), length: 0 });
    assert_eq!(
        g.process_rumble_event(mul, RumbleEvent::ForceFeedback { code: 4, value: 1 }),
        RumbleAction::GainOverflow
    );
}

#[test]
fn disconnect_hands_out_both_queues() {
    let (p, mut ls) = motion_setup([-100, 100]);
    let cfg = config(false);
    ls.process_sensor(&p, PAD, MotionSensor::Gyroscope, [1, 2, 3]);
    let a = ls.process_event(&cfg, &p, GamepadEvent::DeviceRemoved { which: PAD });
    assert_eq!(
        a,
        EventAction::Disconnected { pending: vec![], motion_pending: vec![abs(0x03, 1), abs(0x04, 2), abs(0x05, 3)] }
    );
    assert!(ls.output.is_none() && ls.motion_output.is_none() && ls.input.is_none());
    assert!(!ls.wants_rumble(&cfg));
}

#[test]
fn zero_thresholds_leave_the_trigger_button_alone() {
    let mut cfg = config(false);
    if let AxisMappingEnum::Advanced(a) = &mut cfg.axis_map[2].mapping {
        a.digitrigger_thresh = Some([TrThreshold::Abs { abs: 0 }, TrThreshold::Abs { abs: 0 }]);
    }
    let p = ParsedConfig::parse(&cfg, &Args { verbose: false, dump_parse_config: false }, &axis_names()).ok().unwrap();
    let mut ls = LoopState::new();
    ls.connect(PAD, &p, false);
    ls.process_event(&cfg, &p, GamepadEvent::AxisMotion { which: PAD, axis: 4, value: 32767 });
    assert_eq!(queue(&ls), vec![abs(ABS_Z, 32767)]);
}

#[test]
fn disabled_rumble_changes_nothing() {
    let (mut cfg, p, mut ls) = setup(false);
    cfg.simulate_gamepad.enable_rumble = false;
    let up = RumbleEvent::Uploaded { effect_id: 0, rumble: Some((100, 100)), length: 10 };
    assert_eq!(ls.process_rumble(&cfg, &p, up), RumbleAction::Nothing);
    assert!(ls.output.as_ref().unwrap().ff_slot[0].is_none());
    assert_eq!(ls.process_rumble(&cfg, &p, RumbleEvent::ForceFeedback { code: FF_GAIN, value: 7 }), RumbleAction::Nothing);
    assert_eq!(ls.output.as_ref().unwrap().ff_gain, FF_GAIN_INITIAL);
    // with the gamepad gone, nothing either
    cfg.simulate_gamepad.enable_rumble = true;
    ls.input = None;
    assert_eq!(ls.process_rumble(&cfg, &p, up), RumbleAction::Nothing);
    assert!(ls.output.as_ref().unwrap().ff_slot[0].is_none());
}
