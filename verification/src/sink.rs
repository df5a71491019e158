//! The interface of a logging sink.

use vstd::prelude::*;
use crate::record::{Metadata, Record};

verus! {

/// A destination for log records.
///
/// A sink says whether it would take a record with given metadata, takes
/// records, and flushes what it may have buffered. How it does so is its own
/// business: the methods promise nothing, and a decorator around a sink is
/// specified by which of these calls it makes and what it hands to them.
pub trait Sink {
    /// Says whether a record with this metadata would be logged.
    fn enabled(&self, metadata: &Metadata) -> bool;

    /// Logs the record.
    fn log(&self, record: &Record);

    /// Flushes any buffered records.
    fn flush(&self);
}

} // verus!
