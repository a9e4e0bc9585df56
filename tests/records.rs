use telemetry_agent::record::{location_record, serial_record, LocationMessage, UploadBody};
use telemetry_agent::split_fields;

fn parse_all(line: &str) -> Vec<Option<f32>> {
    split_fields(line).iter().map(|t| t.parse::<f32>().ok()).collect()
}

#[test]
fn split_plain_line() {
    assert_eq!(split_fields("1,2.5,x"), vec!["1".to_string(), "2.5".to_string(), "x".to_string()]);
}

#[test]
fn split_empty_and_trailing() {
    assert_eq!(split_fields(""), vec![String::new()]);
    assert_eq!(split_fields("a,"), vec!["a".to_string(), String::new()]);
    assert_eq!(split_fields(",,"), vec![String::new(), String::new(), String::new()]);
}

#[test]
fn split_keeps_spaces_and_unicode() {
    assert_eq!(split_fields(" 1 ,é"), vec![" 1 ".to_string(), "é".to_string()]);
}

#[test]
fn serial_full_line_fills_every_field() {
    let vals = parse_all("100,3.1,3.2,12.5,4.0,55.5,24.0,10.0,30.0,31.0,1500,1600");
    let r = serial_record(42, &vals);
    assert_eq!(r.ts, 42);
    assert_eq!(r.arduino_secs, Some(100.0));
    assert_eq!(r.battery_voltage_1, Some(3.1));
    assert_eq!(r.battery_voltage_2, Some(3.2));
    assert_eq!(r.voltage, Some(12.5));
    assert_eq!(r.current, Some(4.0));
    assert_eq!(r.watthours, Some(55.5));
    assert_eq!(r.motor_voltage, Some(24.0));
    assert_eq!(r.motor_current, Some(10.0));
    assert_eq!(r.temp1, Some(30.0));
    assert_eq!(r.temp2, Some(31.0));
    assert_eq!(r.rpm1, Some(1500.0));
    assert_eq!(r.rpm2, Some(1600.0));
    assert_eq!(r.gps_lat, None);
    assert_eq!(r.gps_long, None);
    assert_eq!(r.gps_speed, None);
    assert_eq!(r.gps_track, None);
    assert_eq!(r.accel, None);
}

#[test]
fn serial_extra_fields_are_ignored() {
    let vals = parse_all("1,2,3,4,5,6,7,8,9,10,11,12,13,14");
    let r = serial_record(7, &vals);
    assert_eq!(r.arduino_secs, Some(1.0));
    assert_eq!(r.rpm2, Some(12.0));
}

#[test]
fn serial_short_line_leaves_trailing_fields_absent() {
    let vals = parse_all("5,1.5,2.5");
    let r = serial_record(9, &vals);
    assert_eq!(r.arduino_secs, Some(5.0));
    assert_eq!(r.battery_voltage_1, Some(1.5));
    assert_eq!(r.battery_voltage_2, Some(2.5));
    assert_eq!(r.voltage, None);
    assert_eq!(r.current, None);
    assert_eq!(r.rpm2, None);
}

#[test]
fn serial_malformed_token_only_drops_its_field() {
    let good = serial_record(1, &parse_all("1,2,3,4,5,6,7,8,9,10,11,12"));
    let bad = serial_record(1, &parse_all("1,2,3,oops,5,6,7,8,9,10,11,12"));
    assert_eq!(bad.voltage, None);
    assert_eq!(good.voltage, Some(4.0));
    let mut expected = good;
    expected.voltage = None;
    assert_eq!(bad, expected);
}

#[test]
fn serial_empty_line_gives_bare_record() {
    let r = serial_record(3, &parse_all(""));
    let empty: UploadBody<f32> = serial_record(3, &Vec::new());
    assert_eq!(r, empty);
    assert_eq!(r.ts, 3);
    assert_eq!(r.arduino_secs, None);
}

#[test]
fn location_fix_3d_gives_position_record() {
    let msg = LocationMessage::Fix3D { time: 1_500_000_000, lat: 42.0f32, lon: -71.0, speed: 3.5 };
    let r = location_record(&msg).unwrap();
    assert_eq!(r.ts, 1_500_000_000);
    assert_eq!(r.gps_lat, Some(42.0));
    assert_eq!(r.gps_long, Some(-71.0));
    assert_eq!(r.gps_speed, Some(3.5));
    assert_eq!(r.gps_track, None);
    assert_eq!(r.voltage, None);
    assert_eq!(r.arduino_secs, None);
    assert_eq!(r.rpm1, None);
    assert_eq!(r.battery_voltage_1, None);
}

#[test]
fn location_fix_2d_gives_same_record() {
    let a = location_record(&LocationMessage::Fix2D { time: 77, lat: 42.0f32, lon: -71.0, speed: 3.5 });
    let b = location_record(&LocationMessage::Fix3D { time: 77, lat: 42.0f32, lon: -71.0, speed: 3.5 });
    assert!(a.is_some());
    assert_eq!(a, b);
}

#[test]
fn location_non_fix_gives_nothing() {
    assert_eq!(location_record::<f32>(&LocationMessage::NoFix), None);
    assert_eq!(location_record::<f32>(&LocationMessage::Other), None);
}
