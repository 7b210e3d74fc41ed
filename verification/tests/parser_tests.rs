use buttplug_osc::command::{
    validate_osc_message, Command, OscArg, OscMessage, ParseError,
};

fn msg(addr: &str, args: Option<Vec<OscArg>>) -> OscMessage {
    OscMessage { addr: addr.to_string(), args }
}

fn double(v: f64) -> OscArg {
    OscArg::Double { bits: v.to_bits(), trunc: v as u32 }
}

fn single(v: f32) -> OscArg {
    OscArg::Float { bits: (v as f64).to_bits(), trunc: v as u32 }
}

#[test]
fn vibrate_all_half_speed() {
    let m = msg("/devices/all/vibrate/speed", Some(vec![double(0.5)]));
    let r = validate_osc_message(&m).unwrap();
    assert_eq!(r.devices_set, "all");
    assert_eq!(r.command, Command::Vibrate((0.5f64).to_bits()));
}

#[test]
fn stop_named_set() {
    let m = msg("/devices/foo/stop", None);
    let r = validate_osc_message(&m).unwrap();
    assert_eq!(r.devices_set, "foo");
    assert_eq!(r.command, Command::Stop);
}

#[test]
fn stop_needs_no_args_even_with_args() {
    let m = msg("/devices/foo/stop", Some(vec![double(1.0)]));
    let r = validate_osc_message(&m).unwrap();
    assert_eq!(r.command, Command::Stop);
}

#[test]
fn vibrate_with_string_argument_rejected() {
    let m = msg("/devices/foo/vibrate/speed", Some(vec![OscArg::Other]));
    let r = validate_osc_message(&m);
    assert!(matches!(
        r,
        Err(ParseError::InvalidArgumentValue(Some(OscArg::Other)))
    ));
    assert_eq!(
        r.unwrap_err().describe(),
        "invalid argument value"
    );
}

#[test]
fn vibrate_map_int_motor_double_speed() {
    let m = msg(
        "/devices/bar/vibrateMap/speedMap",
        Some(vec![OscArg::Int(2), double(0.75)]),
    );
    let r = validate_osc_message(&m).unwrap();
    assert_eq!(r.devices_set, "bar");
    assert_eq!(r.command, Command::VibrateMap(2, (0.75f64).to_bits()));
}

#[test]
fn vibrate_map_float_motor_coerces() {
    let m = msg(
        "/devices/bar/vibrateMap/speedMap",
        Some(vec![single(3.7), single(0.25)]),
    );
    let r = validate_osc_message(&m).unwrap();
    assert_eq!(r.command, Command::VibrateMap(3, (0.25f32 as f64).to_bits()));
}

#[test]
fn vibrate_map_bad_speed_rejected() {
    let m = msg(
        "/devices/bar/vibrateMap/speedMap",
        Some(vec![OscArg::Int(2), OscArg::Int(9)]),
    );
    let r = validate_osc_message(&m);
    assert!(matches!(
        r,
        Err(ParseError::InvalidArgumentValue(Some(OscArg::Int(9))))
    ));
}

#[test]
fn vibrate_map_missing_speed_rejected() {
    let m = msg(
        "/devices/bar/vibrateMap/speedMap",
        Some(vec![OscArg::Int(2)]),
    );
    let r = validate_osc_message(&m);
    assert!(matches!(r, Err(ParseError::InvalidArgumentValue(None))));
}

#[test]
fn vibrate_single_precision_widens() {
    let m = msg("/devices/foo/vibrate/speed", Some(vec![single(0.5)]));
    let r = validate_osc_message(&m).unwrap();
    assert_eq!(r.command, Command::Vibrate((0.5f32 as f64).to_bits()));
}

#[test]
fn vibrate_without_any_args_rejected() {
    let m = msg("/devices/foo/vibrate/speed", None);
    let r = validate_osc_message(&m);
    assert!(matches!(r, Err(ParseError::MissingArguments)));
    assert_eq!(
        r.unwrap_err().describe(),
        "invalid argument value: none"
    );
}

#[test]
fn vibrate_with_empty_args_rejected() {
    let m = msg("/devices/foo/vibrate/speed", Some(vec![]));
    let r = validate_osc_message(&m);
    assert!(matches!(r, Err(ParseError::InvalidArgumentValue(None))));
}

#[test]
fn wrong_root_rejected() {
    let m = msg("/gadgets/foo/stop", None);
    let r = validate_osc_message(&m);
    assert!(matches!(r, Err(ParseError::InvalidMessage)));
    assert_eq!(r.unwrap_err().describe(), "invalid message");
}

#[test]
fn empty_address_rejected() {
    let m = msg("", None);
    assert!(matches!(
        validate_osc_message(&m),
        Err(ParseError::InvalidMessage)
    ));
}

#[test]
fn unknown_command_rejected() {
    let m = msg("/devices/foo/explode", None);
    let r = validate_osc_message(&m);
    assert!(matches!(r, Err(ParseError::InvalidCommand)));
    assert_eq!(r.unwrap_err().describe(), "invalid command");
}

#[test]
fn too_short_path_rejected() {
    let m = msg("/devices/foo", None);
    assert!(matches!(
        validate_osc_message(&m),
        Err(ParseError::InvalidCommand)
    ));
}

#[test]
fn wrong_argument_name_rejected() {
    let m = msg("/devices/foo/vibrate/velocity", Some(vec![double(0.5)]));
    let r = validate_osc_message(&m);
    assert!(matches!(r, Err(ParseError::InvalidArgumentName)));
    assert_eq!(r.unwrap_err().describe(), "invalid argument name");

    let m = msg("/devices/foo/vibrateMap/speeds", Some(vec![double(0.5)]));
    assert!(matches!(
        validate_osc_message(&m),
        Err(ParseError::InvalidArgumentName)
    ));
}

#[test]
fn trailing_segments_are_ignored() {
    let m = msg("/devices/foo/stop/extra", None);
    let r = validate_osc_message(&m).unwrap();
    assert_eq!(r.command, Command::Stop);
}

#[test]
fn path_without_leading_slash_still_matches_segment_one() {
    // Splitting does not care what stands before the first slash; only
    // segment one must read `devices`.
    let m = msg("x/devices/foo/stop", None);
    let r = validate_osc_message(&m).unwrap();
    assert_eq!(r.devices_set, "foo");
}
