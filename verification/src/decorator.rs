//! The forwarding decorator: what it emits for a record, and which calls it
//! makes on the sink it wraps.

use vstd::prelude::*;
use crate::envelope::{
    envelope_fields, key_hostname, key_message, key_service, key_source, key_tags,
    lemma_envelope_fields, Envelope,
};
use crate::json::json_object_text;
use crate::record::{Metadata, Record, RecordView};
use crate::render::{
    lemma_first_space_follows_timestamp, lemma_line_begins_with_timestamp,
    lemma_line_ends_with_level_and_message, render_line, rendered_line,
};
use crate::sink::Sink;
use crate::timestamp::{is_utc_millis_timestamp, lemma_timestamp_has_no_space, utc_timestamp};

verus! {

/// The four static tags of a decorator.
pub struct Tags {
    pub source: Seq<char>,
    pub tags: Seq<char>,
    pub hostname: Seq<char>,
    pub service: Seq<char>,
}

/// The two forms in which an accepted record leaves the decorator: the line
/// to write to standard output, and then the record to hand to the inner
/// sink.
#[derive(Clone, Debug, PartialEq, Eq)]
pub struct Emission {
    line: String,
    record: Record,
}

/// The mathematical value of an [`Emission`].
pub struct EmissionView {
    pub line: Seq<char>,
    pub record: RecordView,
}

impl View for Emission {
    type V = EmissionView;

    closed spec fn view(&self) -> EmissionView {
        EmissionView { line: self.line@, record: self.record@ }
    }
}

impl Emission {
    /// The record for the inner sink, as the sink receives it.
    pub closed spec fn record_value(&self) -> &Record {
        &self.record
    }

    /// The line for standard output, without the newline that ends it there.
    pub fn line(&self) -> (line: &str)
        ensures
            line@ == self@.line,
    {
        self.line.as_str()
    }

    /// The record for the inner sink.
    #[verifier::when_used_as_spec(record_value)]
    pub fn record(&self) -> (record: &Record)
        ensures
            record == self.record_value(),
            record@ == self@.record,
    {
        &self.record
    }

    /// The record that the inner sink receives with an emission has the
    /// value that the view of the emission holds.
    pub proof fn lemma_record_view(&self)
        ensures
            self.record()@ == self@.record,
    {
    }
}

/// The envelope of a rendered line under the given tags.
pub open spec fn envelope_of(tags: Tags, line: Seq<char>) -> Map<Seq<char>, Seq<char>> {
    envelope_fields(tags.source, tags.tags, tags.hostname, line, tags.service)
}

/// The record that goes to the inner sink for `record`, rendered as `line`:
/// its message is the JSON text of the envelope, and its metadata and source
/// location are those of `record`.
pub open spec fn outgoing_record(tags: Tags, record: RecordView, line: Seq<char>) -> RecordView {
    RecordView { message: json_object_text(envelope_of(tags, line)), ..record }
}

/// What is emitted for `record`, logged at `timestamp`: the line for
/// standard output and the record for the inner sink.
pub open spec fn emission_of(tags: Tags, record: RecordView, timestamp: Seq<char>) -> EmissionView {
    let line = rendered_line(timestamp, record.metadata.level, record.message);
    EmissionView { line, record: outgoing_record(tags, record, line) }
}

/// Whether `emission` is what is emitted for `record` at some time that the
/// clock can show.
pub open spec fn emits(tags: Tags, record: RecordView, emission: EmissionView) -> bool {
    exists|timestamp: Seq<char>|
        is_utc_millis_timestamp(timestamp) && emission == #[trigger] emission_of(
            tags,
            record,
            timestamp,
        )
}

/// A sink around a sink: it answers for the inner sink, and hands every
/// record that the inner sink takes on to it inside a tagged envelope.
///
/// The inner sink decides for itself what it answers and what it does with a
/// record. So the contracts below say of each call on it what was handed to
/// it and what came back. `call_ensures(L::enabled, (sink, metadata), on)`
/// says that `on` is an answer of the inner sink's `enabled` to `metadata`:
/// it is known only of an answer that a call gave, and with it holds
/// whatever the sink itself promises of its answers.
pub struct DatadogLog<L: Sink> {
    source: String,
    tags: String,
    hostname: String,
    service: String,
    nested: L,
}

impl<L: Sink> View for DatadogLog<L> {
    type V = Tags;

    closed spec fn view(&self) -> Tags {
        Tags {
            source: self.source@,
            tags: self.tags@,
            hostname: self.hostname@,
            service: self.service@,
        }
    }
}

impl<L: Sink> DatadogLog<L> {
    /// The inner sink, as the calls of the decorator reach it.
    pub closed spec fn nested_value(&self) -> &L {
        &self.nested
    }

    /// Makes a decorator with the given tags around `nested`. Any text is a
    /// tag, the empty one too.
    pub fn new(source: &str, tags: &str, hostname: &str, service: &str, nested: L) -> (decorator:
        DatadogLog<L>)
        ensures
            decorator@ == (Tags {
                source: source@,
                tags: tags@,
                hostname: hostname@,
                service: service@,
            }),
            decorator.nested() == &nested,
    {
        DatadogLog {
            source: source.to_owned(),
            tags: tags.to_owned(),
            hostname: hostname.to_owned(),
            service: service.to_owned(),
            nested,
        }
    }

    /// The inner sink.
    #[verifier::when_used_as_spec(nested_value)]
    pub fn nested(&self) -> (nested: &L)
        ensures
            nested == self.nested_value(),
    {
        &self.nested
    }

    /// Says whether a record with this metadata would be logged. The
    /// decorator has no say of its own: it asks the inner sink about
    /// `metadata` and gives its answer back.
    pub fn enabled(&self, metadata: &Metadata) -> (on: bool)
        ensures
            call_ensures(L::enabled, (self.nested(), metadata), on),
    {
        self.nested.enabled(metadata)
    }

    /// Flushes the inner sink. The decorator holds nothing back that it
    /// would have to flush itself.
    pub fn flush(&self)
        ensures
            call_ensures(L::flush, (self.nested(),), ()),
    {
        self.nested.flush()
    }

    /// The envelope of a rendered line: the line as its message, beside the
    /// four tags of this decorator.
    pub fn envelope(&self, line: &str) -> (envelope: Envelope)
        ensures
            envelope@ == envelope_of(self@, line@),
    {
        Envelope::new(
            self.source.as_str(),
            self.tags.as_str(),
            self.hostname.as_str(),
            line,
            self.service.as_str(),
        )
    }

    /// The record for the inner sink: the envelope of `line` as JSON text,
    /// with the metadata and the source location of `record`.
    pub fn outgoing(&self, record: &Record, line: &str) -> (outgoing: Record)
        ensures
            outgoing@ == outgoing_record(self@, record@, line@),
    {
        record.with_message(self.envelope(line).to_json())
    }

    /// What this decorator emits for `record` if it is logged at
    /// `timestamp`. The inner sink is not asked: see [`Self::accept`].
    pub fn emission(&self, record: &Record, timestamp: &str) -> (emission: Emission)
        ensures
            emission@ == emission_of(self@, record@, timestamp@),
    {
        let line = render_line(timestamp, record.level(), record.message());
        let outgoing = self.outgoing(record, line.as_str());
        Emission { line, record: outgoing }
    }

    /// Decides what to emit for `record`. The inner sink is asked about the
    /// metadata of the record, and its answer is whether anything is
    /// emitted: nothing if it is not enabled, and else the emission of
    /// `record` at the time that the clock shows.
    pub fn accept(&self, record: &Record) -> (emission: Option<Emission>)
        ensures
            call_ensures(L::enabled, (self.nested(), record.metadata()), emission is Some),
            emission matches Some(e) ==> emits(self@, record@, e@),
    {
        if self.enabled(record.metadata()) {
            let timestamp = utc_timestamp();
            Some(self.emission(record, timestamp.as_str()))
        } else {
            None
        }
    }

    /// Hands the record of an emission to the inner sink.
    pub fn forward(&self, emission: &Emission)
        ensures
            call_ensures(L::log, (self.nested(), emission.record()), ()),
    {
        self.nested.log(emission.record())
    }

    /// Logs `record`. The inner sink is asked whether the metadata of the
    /// record is enabled. If it answers that it is not, nothing else is
    /// done. If it is, the rendered line goes to `write_line`, which writes
    /// it to standard output, and then the record with the envelope goes to
    /// the inner sink.
    pub fn log<W: Fn(&str)>(&self, record: &Record, write_line: W)
        requires
            forall|line: &str| call_requires(write_line, (line,)),
        ensures
            call_ensures(L::enabled, (self.nested(), record.metadata()), false) || exists|
                emission: Emission,
                line: &str,
            |
                {
                    &&& call_ensures(L::enabled, (self.nested(), record.metadata()), true)
                    &&& emits(self@, record@, emission@)
                    &&& line@ == emission@.line
                    &&& #[trigger] call_ensures(write_line, (line,), ())
                    &&& #[trigger] call_ensures(L::log, (self.nested(), emission.record()), ())
                },
    {
        match self.accept(record) {
            Some(emission) => {
                write_line(emission.line());
                self.forward(&emission);
            },
            None => {},
        }
    }
}

/// What is emitted keeps the record and carries the tags. The outgoing record
/// has the metadata and the source location of the record that came in. Its
/// message is the JSON text of an envelope of five fields, which holds the
/// four tags as they are and the rendered line as its message. The line ends
/// with a space, the name of the level, a space, and the message of the
/// record.
pub proof fn lemma_emission_keeps_record_and_tags(
    tags: Tags,
    record: RecordView,
    timestamp: Seq<char>,
)
    ensures
        ({
            let emission = emission_of(tags, record, timestamp);
            let envelope = envelope_of(tags, emission.line);
            &&& emission.record.metadata == record.metadata
            &&& emission.record.module == record.module
            &&& emission.record.file == record.file
            &&& emission.record.line == record.line
            &&& emission.record.message == json_object_text(envelope)
            &&& envelope.dom().len() == 5
            &&& envelope[key_source()] == tags.source
            &&& envelope[key_tags()] == tags.tags
            &&& envelope[key_hostname()] == tags.hostname
            &&& envelope[key_service()] == tags.service
            &&& envelope[key_message()] == emission.line
            &&& (seq![' '] + record.metadata.level.name() + seq![' '] + record.message).is_suffix_of(
                emission.line,
            )
        }),
{
    let emission = emission_of(tags, record, timestamp);
    lemma_envelope_fields(tags.source, tags.tags, tags.hostname, emission.line, tags.service);
    lemma_line_ends_with_level_and_message(timestamp, record.metadata.level, record.message);
}

/// The message of every envelope that leaves with an accepted record begins
/// with a timestamp: a UTC date and time with millisecond precision, which
/// ends where the first space of the message stands.
pub proof fn lemma_message_begins_with_timestamp(
    tags: Tags,
    record: RecordView,
    emission: EmissionView,
)
    requires
        emits(tags, record, emission),
    ensures
        emission.record.message == json_object_text(envelope_of(tags, emission.line)),
        exists|timestamp: Seq<char>|
            {
                let message = envelope_of(tags, emission.line)[key_message()];
                &&& #[trigger] is_utc_millis_timestamp(timestamp)
                &&& timestamp.is_prefix_of(message)
                &&& message[timestamp.len() as int] == ' '
                &&& forall|i: int| 0 <= i < timestamp.len() ==> #[trigger] message[i] != ' '
            },
{
    let timestamp = choose|timestamp: Seq<char>|
        is_utc_millis_timestamp(timestamp) && emission == #[trigger] emission_of(
            tags,
            record,
            timestamp,
        );
    let level = record.metadata.level;
    lemma_envelope_fields(tags.source, tags.tags, tags.hostname, emission.line, tags.service);
    lemma_timestamp_has_no_space(timestamp);
    lemma_line_begins_with_timestamp(timestamp, level, record.message);
    lemma_first_space_follows_timestamp(timestamp, level, record.message);
}

} // verus!
