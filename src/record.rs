//! The sparse telemetry record and how each feed fills it.
//!
//! The record is generic over the type of a measured value, so that the
//! layout rules are stated and proved apart from how a value is read.

use vstd::prelude::*;

verus! {

/// How many fields a serial-feed line carries, in the newer layout.
pub const SERIAL_FIELD_COUNT: usize = 12;

/// One telemetry snapshot: a timestamp in seconds since the epoch, and
/// measurements of which each one may be absent ("unknown", not zero).
#[derive(Clone, Copy, Debug, PartialEq)]
pub struct UploadBody<V> {
    pub ts: u64,
    /// Seconds counted by the serial device itself.
    pub arduino_secs: Option<V>,
    pub voltage: Option<V>,
    pub current: Option<V>,
    pub watthours: Option<V>,
    pub temp1: Option<V>,
    pub temp2: Option<V>,
    pub gps_speed: Option<V>,
    pub gps_long: Option<V>,
    pub gps_lat: Option<V>,
    pub accel: Option<V>,
    pub pressure1: Option<V>,
    pub pressure2: Option<V>,
    pub rpm1: Option<V>,
    pub rpm2: Option<V>,
    pub motor_voltage: Option<V>,
    pub motor_current: Option<V>,
    pub gps_track: Option<V>,
    pub battery_voltage_1: Option<V>,
    pub battery_voltage_2: Option<V>,
}

/// A message of the location feed, reduced to what the record needs. The
/// time of a fix is in seconds since the epoch.
#[derive(Clone, Copy, Debug, PartialEq)]
pub enum LocationMessage<V> {
    Fix3D { time: u64, lat: V, lon: V, speed: V },
    Fix2D { time: u64, lat: V, lon: V, speed: V },
    /// A position report without a fix.
    NoFix,
    /// Any other message (status, version, devices, ...).
    Other,
}

/// The value at position `i` of a parsed line, absent past its end.
pub open spec fn value_at<V>(vals: Seq<Option<V>>, i: int) -> Option<V> {
    if 0 <= i < vals.len() {
        vals[i]
    } else {
        None
    }
}

/// The record field that position `i` of a serial-feed line fills.
pub open spec fn serial_field<V>(r: UploadBody<V>, i: int) -> Option<V> {
    if i == 0 {
        r.arduino_secs
    } else if i == 1 {
        r.battery_voltage_1
    } else if i == 2 {
        r.battery_voltage_2
    } else if i == 3 {
        r.voltage
    } else if i == 4 {
        r.current
    } else if i == 5 {
        r.watthours
    } else if i == 6 {
        r.motor_voltage
    } else if i == 7 {
        r.motor_current
    } else if i == 8 {
        r.temp1
    } else if i == 9 {
        r.temp2
    } else if i == 10 {
        r.rpm1
    } else {
        r.rpm2
    }
}

/// No field of the location feed is set.
pub open spec fn positional_absent<V>(r: UploadBody<V>) -> bool {
    &&& r.gps_speed.is_none()
    &&& r.gps_long.is_none()
    &&& r.gps_lat.is_none()
    &&& r.gps_track.is_none()
}

/// No field of the serial feed is set, nor any other engine-side field.
pub open spec fn engine_absent<V>(r: UploadBody<V>) -> bool {
    &&& forall|i: int| 0 <= i < SERIAL_FIELD_COUNT ==> (#[trigger] serial_field(r, i)).is_none()
    &&& r.accel.is_none()
    &&& r.pressure1.is_none()
    &&& r.pressure2.is_none()
}

/// The record made from the parsed values of one serial-feed line, stamped
/// with `ts`: position `i` fills `serial_field(_, i)`, missing trailing
/// positions and the fields of the location feed stay absent.
pub open spec fn serial_record_spec<V>(ts: u64, vals: Seq<Option<V>>) -> UploadBody<V> {
    UploadBody {
        ts,
        arduino_secs: value_at(vals, 0),
        battery_voltage_1: value_at(vals, 1),
        battery_voltage_2: value_at(vals, 2),
        voltage: value_at(vals, 3),
        current: value_at(vals, 4),
        watthours: value_at(vals, 5),
        motor_voltage: value_at(vals, 6),
        motor_current: value_at(vals, 7),
        temp1: value_at(vals, 8),
        temp2: value_at(vals, 9),
        rpm1: value_at(vals, 10),
        rpm2: value_at(vals, 11),
        gps_speed: None,
        gps_long: None,
        gps_lat: None,
        accel: None,
        pressure1: None,
        pressure2: None,
        gps_track: None,
    }
}

/// The record of a position fix: its time, latitude, longitude and speed.
pub open spec fn fix_record<V>(time: u64, lat: V, lon: V, speed: V) -> UploadBody<V> {
    UploadBody {
        ts: time,
        arduino_secs: None,
        voltage: None,
        current: None,
        watthours: None,
        temp1: None,
        temp2: None,
        gps_speed: Some(speed),
        gps_long: Some(lon),
        gps_lat: Some(lat),
        accel: None,
        pressure1: None,
        pressure2: None,
        rpm1: None,
        rpm2: None,
        motor_voltage: None,
        motor_current: None,
        gps_track: None,
        battery_voltage_1: None,
        battery_voltage_2: None,
    }
}

/// What a location-feed message contributes: a record for a 2D or 3D fix,
/// nothing for any other message.
pub open spec fn location_record_spec<V>(msg: LocationMessage<V>) -> Option<UploadBody<V>> {
    match msg {
        LocationMessage::Fix3D { time, lat, lon, speed } => Some(fix_record(time, lat, lon, speed)),
        LocationMessage::Fix2D { time, lat, lon, speed } => Some(fix_record(time, lat, lon, speed)),
        _ => None,
    }
}

/// Each of the twelve positions of a parsed serial-feed line lands in its own
/// field: the value read there when the line has that position, absent when
/// the line is shorter. The location-feed fields stay absent.
pub proof fn lemma_serial_layout<V>(ts: u64, vals: Seq<Option<V>>)
    ensures
        serial_record_spec(ts, vals).ts == ts,
        positional_absent(serial_record_spec(ts, vals)),
        forall|i: int|
            0 <= i < SERIAL_FIELD_COUNT ==> #[trigger] serial_field(serial_record_spec(ts, vals), i)
                == value_at(vals, i),
        forall|i: int|
            0 <= i < SERIAL_FIELD_COUNT && i < vals.len() ==> #[trigger] serial_field(
                serial_record_spec(ts, vals),
                i,
            ) == vals[i],
        forall|i: int|
            vals.len() <= i < SERIAL_FIELD_COUNT ==> (#[trigger] serial_field(
                serial_record_spec(ts, vals),
                i,
            )).is_none(),
{
}

/// A value that could not be read leaves its own field absent and changes no
/// other field of the record.
pub proof fn lemma_unreadable_value_is_isolated<V>(ts: u64, vals: Seq<Option<V>>, k: int)
    requires
        0 <= k < vals.len(),
        k < SERIAL_FIELD_COUNT,
    ensures
        serial_field(serial_record_spec(ts, vals.update(k, None)), k).is_none(),
        serial_record_spec(ts, vals.update(k, None)).ts == serial_record_spec(ts, vals).ts,
        forall|j: int|
            0 <= j < SERIAL_FIELD_COUNT && j != k ==> #[trigger] serial_field(
                serial_record_spec(ts, vals.update(k, None)),
                j,
            ) == serial_field(serial_record_spec(ts, vals), j),
        positional_absent(serial_record_spec(ts, vals.update(k, None))),
{
}

/// A 2D or 3D fix gives a record stamped with the fix time that holds its
/// latitude, longitude and speed, and no engine-side field.
pub proof fn lemma_fix_gives_position_record<V>(time: u64, lat: V, lon: V, speed: V)
    ensures
        location_record_spec(LocationMessage::Fix3D { time, lat, lon, speed }) == Some(
            fix_record(time, lat, lon, speed),
        ),
        location_record_spec(LocationMessage::Fix2D { time, lat, lon, speed }) == Some(
            fix_record(time, lat, lon, speed),
        ),
        fix_record(time, lat, lon, speed).ts == time,
        fix_record(time, lat, lon, speed).gps_lat == Some(lat),
        fix_record(time, lat, lon, speed).gps_long == Some(lon),
        fix_record(time, lat, lon, speed).gps_speed == Some(speed),
        fix_record(time, lat, lon, speed).gps_track.is_none(),
        engine_absent(fix_record(time, lat, lon, speed)),
{
}

/// A message that is not a 2D or 3D fix gives no record.
pub proof fn lemma_non_fix_gives_nothing<V>(msg: LocationMessage<V>)
    requires
        !(msg is Fix3D),
        !(msg is Fix2D),
    ensures
        location_record_spec(msg).is_none(),
{
}

fn value_at_exec<V: Copy>(vals: &Vec<Option<V>>, i: usize) -> (r: Option<V>)
    ensures
        r == value_at(vals@, i as int),
{
    if i < vals.len() {
        vals[i]
    } else {
        None
    }
}

/// Lays out the parsed values of one serial-feed line as a record stamped
/// with `ts`. A value that could not be read is `None` and leaves its field
/// absent; values past the twelfth are not used.
pub fn serial_record<V: Copy>(ts: u64, vals: &Vec<Option<V>>) -> (r: UploadBody<V>)
    ensures
        r == serial_record_spec(ts, vals@),
{
    UploadBody {
        ts,
        arduino_secs: value_at_exec(vals, 0),
        battery_voltage_1: value_at_exec(vals, 1),
        battery_voltage_2: value_at_exec(vals, 2),
        voltage: value_at_exec(vals, 3),
        current: value_at_exec(vals, 4),
        watthours: value_at_exec(vals, 5),
        motor_voltage: value_at_exec(vals, 6),
        motor_current: value_at_exec(vals, 7),
        temp1: value_at_exec(vals, 8),
        temp2: value_at_exec(vals, 9),
        rpm1: value_at_exec(vals, 10),
        rpm2: value_at_exec(vals, 11),
        gps_speed: None,
        gps_long: None,
        gps_lat: None,
        accel: None,
        pressure1: None,
        pressure2: None,
        gps_track: None,
    }
}

/// Translates one location-feed message: a 2D or 3D fix becomes a record
/// stamped with the fix time; any other message gives `None`.
pub fn location_record<V: Copy>(msg: &LocationMessage<V>) -> (r: Option<UploadBody<V>>)
    ensures
        r == location_record_spec(*msg),
{
    match *msg {
        LocationMessage::Fix3D { time, lat, lon, speed } | LocationMessage::Fix2D {
            time,
            lat,
            lon,
            speed,
        } => Some(
            UploadBody {
                ts: time,
                arduino_secs: None,
                voltage: None,
                current: None,
                watthours: None,
                temp1: None,
                temp2: None,
                gps_speed: Some(speed),
                gps_long: Some(lon),
                gps_lat: Some(lat),
                accel: None,
                pressure1: None,
                pressure2: None,
                rpm1: None,
                rpm2: None,
                motor_voltage: None,
                motor_current: None,
                gps_track: None,
                battery_voltage_1: None,
                battery_voltage_2: None,
            },
        ),
        _ => None,
    }
}

} // verus!
