//! A field telemetry agent: readings from a serial sensor feed and a location
//! feed become sparse timestamped records, which are uploaded one request each.

pub mod fields;

pub use fields::split_fields;
pub mod record;

pub use record::{location_record, serial_record, LocationMessage, UploadBody};
pub mod upload;

pub use upload::{Config, TelemetryAgent, UploadOutcome, UploadRequest};
pub mod supervisor;

pub use supervisor::{next_step, SourceAction, SourceEvent, SourceState};
pub mod clock;

pub use clock::get_ts;
