//! A logging decorator that renders each accepted record as a timestamped
//! line and forwards it, wrapped in a tagged JSON envelope, to an inner sink.

pub mod decorator;
pub mod envelope;
pub mod json;
pub mod record;
pub mod render;
pub mod sink;
pub mod timestamp;

pub use decorator::{DatadogLog, Emission, EmissionView, Tags};
pub use envelope::Envelope;
pub use record::{Level, Metadata, MetadataView, Record, RecordView};
pub use sink::Sink;
