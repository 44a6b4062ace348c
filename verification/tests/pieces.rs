use sdl3_to_evdev::calibration::{clamp_i32, AxisGroup, CalibrationState};
use sdl3_to_evdev::config::{
    default_true, AxisMapping, AxisMappingEnum, ButtonMapping, ButtonMappingEnum, InputGamepad, StringFilter,
    StringOrU16, TrThreshold, VendorProductIds,
};
use sdl3_to_evdev::event_processing::{check_num, check_str, check_str_result, FilterError, GamepadInfo, LoopState};
use sdl3_to_evdev::fold::{assoc_find, assoc_insert_exec, contains_u16};
use sdl3_to_evdev::none_vec;
use sdl3_to_evdev::simulated::{EvdevEvent, EV_ABS};
use sdl3_to_evdev::text::{str_contains, str_eq};

#[test]
fn text_helpers() {
    assert!(str_eq("abc", "abc"));
    assert!(!str_eq("abc", "abd"));
    assert!(str_contains("Steam Controller", "Controller"));
    assert!(str_contains("abc", ""));
    assert!(!str_contains("ab", "abc"));
    assert!(!str_contains("Steam Controller", "steam"));
}

#[test]
fn assoc_lists() {
    let mut v: Vec<(i32, u16)> = Vec::new();
    assoc_insert_exec(&mut v, 3, 30);
    assoc_insert_exec(&mut v, 1, 10);
    assoc_insert_exec(&mut v, 3, 31);
    assert_eq!(v, vec![(3, 31), (1, 10)]);
    assert_eq!(assoc_find(&v, 1), Some(1));
    assert_eq!(assoc_find(&v, 2), None);
    assert!(contains_u16(&vec![1, 5, 9], 5));
    assert!(!contains_u16(&vec![], 5));
}

#[test]
fn config_helpers() {
    assert!(default_true());
    assert!(matches!(StringOrU16::from(5u16), StringOrU16::U16(5)));
    assert!(matches!(StringOrU16::from("a".to_string()), StringOrU16::String(s) if s == "a"));
    assert!(matches!(StringOrU16::from("BTN_A"), StringOrU16::String(s) if s == "BTN_A"));
    let m = ButtonMappingEnum::Code(StringOrU16::U16(0x130)).mapping();
    assert!(matches!(m.key, StringOrU16::U16(0x130)));
    assert!(!m.dpad);
    let m = ButtonMappingEnum::Advanced(ButtonMapping { key: StringOrU16::U16(1), dpad: true }).mapping();
    assert!(m.dpad);
    let a = AxisMappingEnum::Code(StringOrU16::U16(2)).mapping();
    assert!(a.out_range.is_none() && a.digitrigger_thresh.is_none());
    let adv = AxisMappingEnum::Advanced(AxisMapping {
        key: StringOrU16::U16(2),
        initial: Some(4),
        from_range: None,
        to_range: None,
        out_range: Some([0, 9]),
        fuzz: None,
        flat: None,
        res: None,
        digitrigger_button: None,
        digitrigger_thresh: Some([TrThreshold::Abs { abs: 3 }, TrThreshold::Abs { abs: 2 }]),
    })
    .mapping();
    assert_eq!(adv.initial, Some(4));
    assert_eq!(adv.out_range, Some([0, 9]));
    assert_eq!(VendorProductIds::Single(4).slice(), &[4]);
    assert_eq!(VendorProductIds::Vec(vec![1, 2]).slice(), &[1, 2]);
    assert!(VendorProductIds::Empty.slice().is_empty());
    assert!(matches!(VendorProductIds::default(), VendorProductIds::Empty));
    assert!(matches!(StringFilter::default(), StringFilter::Empty));
    assert_eq!(StringFilter::Single("x".into()).slice(), &["x".to_string()]);
    let v: Vec<Option<u8>> = none_vec(3);
    assert_eq!(v, vec![None, None, None]);
}

fn group() -> AxisGroup {
    AxisGroup {
        current: [0, 0],
        prev_out: None,
        axis_codes: [0, 1],
        clamp_out: [[-100, 100], [0, 50]],
        dirty: false,
        in_deadzone: false,
        process: true,
        name: "left".into(),
    }
}

#[test]
fn emit_output_clamps_and_skips_repeats() {
    let mut g = group();
    let mut q = Vec::new();
    assert!(g.emit_output([150, -3], &mut q));
    assert_eq!(
        q,
        vec![
            EvdevEvent { event_type: EV_ABS, code: 0, value: 100 },
            EvdevEvent { event_type: EV_ABS, code: 1, value: 0 },
        ]
    );
    assert_eq!(g.prev_out, Some([100, 0]));
    assert!(g.emit_output([120, -9], &mut q));
    assert_eq!(q.len(), 2);
    assert!(g.emit_output([5, 6], &mut q));
    assert_eq!(q.len(), 4);

    let mut bad = group();
    bad.clamp_out = [[10, -10], [0, 1]];
    assert!(!bad.emit_output([0, 0], &mut q));
    assert_eq!(q.len(), 4);
    assert_eq!(bad.prev_out, None);
}

#[test]
fn set_axis_only_for_processing_groups() {
    let mut c = CalibrationState { states: vec![group()] };
    assert!(c.set_axis(77, 0, true));
    assert_eq!(c.states[0].current, [0, 77]);
    assert!(c.states[0].dirty);
    assert!(!c.set_axis(1, 1, false));
    c.states[0].process = false;
    assert!(!c.set_axis(5, 0, false));
    assert_eq!(c.states[0].current, [0, 77]);
}

#[test]
fn clamp_values() {
    assert_eq!(clamp_i32(5, 0, 3), 3);
    assert_eq!(clamp_i32(-5, 0, 3), 0);
    assert_eq!(clamp_i32(2, 0, 3), 2);
}

#[test]
fn filters_match_by_substring_of_the_pattern() {
    let f = StringFilter::Vec(vec!["Steam Controller (wired)".into(), "Pro".into()]);
    assert_eq!(check_str(&f, &Some("Steam Controller".into())), Some(true));
    assert_eq!(check_str(&f, &Some("Xbox".into())), Some(false));
    assert_eq!(check_str(&f, &None), None);
    assert_eq!(check_str(&StringFilter::Empty, &None), Some(true));
    assert_eq!(check_num(&VendorProductIds::Single(0x28de), &Some(0x28de)), Some(true));
    assert_eq!(check_num(&VendorProductIds::Single(0x28de), &Some(1)), Some(false));
    assert_eq!(check_num(&VendorProductIds::Single(0x28de), &None), None);
    assert_eq!(check_num(&VendorProductIds::Empty, &None), Some(true));
    assert_eq!(check_str_result(&f, &Err("gone".into())), Err("gone".to_string()));
    assert_eq!(check_str_result(&StringFilter::Empty, &Err("gone".into())), Ok(true));
}

fn input(name: StringFilter, vendor: VendorProductIds) -> InputGamepad {
    InputGamepad {
        filter_name: name,
        filter_path: StringFilter::Empty,
        filter_guid: StringFilter::Single("28de".into()),
        filter_serial: StringFilter::Single("ABC123".into()),
        filter_vendor_id: vendor,
        filter_product_id: VendorProductIds::Empty,
        filter_product_version: VendorProductIds::Empty,
        filter_fw_version: VendorProductIds::Vec(vec![0x100, 0x101]),
        wait_timeout_ms: None,
        wait_timeout_ms_idle: None,
        power_refresh_interval: None,
        input_event_batch_size: None,
        sdl_gamepad_mapping: None,
    }
}

fn info() -> GamepadInfo {
    GamepadInfo {
        name: Ok("Steam Controller".into()),
        path: Ok("/dev/hidraw3".into()),
        guid: "030000de28de00000011000001000000".into(),
        vendor: Some(0x28de),
        product: Some(0x1102),
        version: None,
    }
}

#[test]
fn gamepad_filters() {
    let ls = LoopState::new();
    let cfg = input(StringFilter::Single("Steam Controller".into()), VendorProductIds::Single(0x28de));
    assert_eq!(ls.accepts_gamepad(&cfg, &info()), Ok(true));

    let other_vendor = input(StringFilter::Empty, VendorProductIds::Single(0x045e));
    assert_eq!(ls.accepts_gamepad(&other_vendor, &info()), Ok(false));

    let mut no_name = info();
    no_name.name = Err("no name".into());
    assert_eq!(ls.accepts_gamepad(&cfg, &no_name), Err(FilterError::QueryingName("no name".into())));

    let mut no_vendor = info();
    no_vendor.vendor = None;
    assert_eq!(ls.accepts_gamepad(&cfg, &no_vendor), Err(FilterError::QueryingVendorId));

    let mut other_guid = info();
    other_guid.guid = "0300000000000000".into();
    assert_eq!(ls.accepts_gamepad(&cfg, &other_guid), Ok(false));

    assert_eq!(LoopState::accepts_opened(&cfg, &Some("ABC123".into()), &Some(0x101)), Ok(true));
    assert_eq!(LoopState::accepts_opened(&cfg, &Some("ABC".into()), &Some(0x101)), Ok(true));
    assert_eq!(LoopState::accepts_opened(&cfg, &Some("XYZ".into()), &Some(0x101)), Ok(false));
    assert_eq!(LoopState::accepts_opened(&cfg, &None, &Some(0x101)), Err(FilterError::QueryingSerial));
    assert_eq!(LoopState::accepts_opened(&cfg, &Some("ABC123".into()), &Some(0x102)), Ok(false));
    assert_eq!(LoopState::accepts_opened(&cfg, &Some("ABC123".into()), &None), Err(FilterError::QueryingFwVersion));
}

#[test]
fn empty_filters_accept_any_gamepad() {
    let cfg = InputGamepad {
        filter_name: StringFilter::Empty,
        filter_path: StringFilter::Empty,
        filter_guid: StringFilter::Empty,
        filter_serial: StringFilter::Empty,
        filter_vendor_id: VendorProductIds::Empty,
        filter_product_id: VendorProductIds::Empty,
        filter_product_version: VendorProductIds::Empty,
        filter_fw_version: VendorProductIds::Empty,
        wait_timeout_ms: None,
        wait_timeout_ms_idle: None,
        power_refresh_interval: None,
        input_event_batch_size: None,
        sdl_gamepad_mapping: None,
    };
    let unknown = GamepadInfo {
        name: Ok("anything".into()),
        path: Ok("".into()),
        guid: "".into(),
        vendor: None,
        product: None,
        version: None,
    };
    assert_eq!(LoopState::new().accepts_gamepad(&cfg, &unknown), Ok(true));
    assert_eq!(LoopState::accepts_opened(&cfg, &None, &None), Ok(true));
}
