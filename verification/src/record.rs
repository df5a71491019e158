//! Log records as plain values: severity, target, message and source location.

use vstd::prelude::*;

verus! {

/// Severity of a log record, from most to least severe.
#[derive(Clone, Copy, Debug, PartialEq, Eq, Structural)]
pub enum Level {
    Error,
    Warn,
    Info,
    Debug,
    Trace,
}

impl Level {
    /// The canonical upper-case name of the level.
    pub open spec fn name(self) -> Seq<char> {
        match self {
            Level::Error => "ERROR"@,
            Level::Warn => "WARN"@,
            Level::Info => "INFO"@,
            Level::Debug => "DEBUG"@,
            Level::Trace => "TRACE"@,
        }
    }

    /// Returns the canonical upper-case name of the level.
    pub fn as_str(&self) -> (name: &'static str)
        ensures
            name@ == self.name(),
    {
        match self {
            Level::Error => "ERROR",
            Level::Warn => "WARN",
            Level::Info => "INFO",
            Level::Debug => "DEBUG",
            Level::Trace => "TRACE",
        }
    }
}

/// What a sink needs to decide whether it takes a record: severity and target.
#[derive(Clone, Debug, PartialEq, Eq)]
pub struct Metadata {
    level: Level,
    target: String,
}

/// The mathematical value of a [`Metadata`].
pub struct MetadataView {
    pub level: Level,
    pub target: Seq<char>,
}

impl View for Metadata {
    type V = MetadataView;

    closed spec fn view(&self) -> MetadataView {
        MetadataView { level: self.level, target: self.target@ }
    }
}

impl Metadata {
    /// Makes the metadata of a record with the given severity and target.
    pub fn new(level: Level, target: &str) -> (metadata: Metadata)
        ensures
            metadata@ == (MetadataView { level, target: target@ }),
    {
        Metadata { level, target: target.to_owned() }
    }

    /// The severity.
    pub fn level(&self) -> (level: Level)
        ensures
            level == self@.level,
    {
        self.level
    }

    /// The target, usually the name of the module that logs.
    pub fn target(&self) -> (target: &str)
        ensures
            target@ == self@.target,
    {
        self.target.as_str()
    }

    /// A copy with the same severity and target.
    pub fn duplicate(&self) -> (copy: Metadata)
        ensures
            copy@ == self@,
    {
        Metadata { level: self.level, target: self.target.clone() }
    }
}

/// One log event: metadata, the formatted message, and where it was logged.
#[derive(Clone, Debug, PartialEq, Eq)]
pub struct Record {
    metadata: Metadata,
    message: String,
    module: Option<String>,
    file: Option<String>,
    line: Option<u32>,
}

/// The mathematical value of a [`Record`].
pub struct RecordView {
    pub metadata: MetadataView,
    pub message: Seq<char>,
    pub module: Option<Seq<char>>,
    pub file: Option<Seq<char>>,
    pub line: Option<u32>,
}

impl View for Record {
    type V = RecordView;

    closed spec fn view(&self) -> RecordView {
        RecordView {
            metadata: self.metadata@,
            message: self.message@,
            module: self.module.deep_view(),
            file: self.file.deep_view(),
            line: self.line,
        }
    }
}

/// An owned copy of an optional text.
fn owned_text(text: Option<&str>) -> (copy: Option<String>)
    ensures
        copy.deep_view() == text.deep_view(),
{
    match text {
        Some(t) => Some(t.to_owned()),
        None => None,
    }
}

/// A borrowed form of an optional text.
fn borrowed_text(text: &Option<String>) -> (borrowed: Option<&str>)
    ensures
        borrowed.deep_view() == text.deep_view(),
{
    match text {
        Some(t) => Some(t.as_str()),
        None => None,
    }
}

impl Record {
    /// Makes a record from its parts.
    pub fn new(
        metadata: Metadata,
        message: &str,
        module: Option<&str>,
        file: Option<&str>,
        line: Option<u32>,
    ) -> (record: Record)
        ensures
            record@ == (RecordView {
                metadata: metadata@,
                message: message@,
                module: module.deep_view(),
                file: file.deep_view(),
                line,
            }),
            record.metadata() == &metadata,
    {
        Record {
            metadata,
            message: message.to_owned(),
            module: owned_text(module),
            file: owned_text(file),
            line,
        }
    }

    /// The metadata of the record, as a sink receives it.
    pub closed spec fn metadata_value(&self) -> &Metadata {
        &self.metadata
    }

    /// The metadata: severity and target.
    #[verifier::when_used_as_spec(metadata_value)]
    pub fn metadata(&self) -> (metadata: &Metadata)
        ensures
            metadata == self.metadata_value(),
            metadata@ == self@.metadata,
    {
        &self.metadata
    }

    /// The severity.
    pub fn level(&self) -> (level: Level)
        ensures
            level == self@.metadata.level,
    {
        self.metadata.level
    }

    /// The target.
    pub fn target(&self) -> (target: &str)
        ensures
            target@ == self@.metadata.target,
    {
        self.metadata.target.as_str()
    }

    /// The formatted message.
    pub fn message(&self) -> (message: &str)
        ensures
            message@ == self@.message,
    {
        self.message.as_str()
    }

    /// The module that logged the record, if known.
    pub fn module(&self) -> (module: Option<&str>)
        ensures
            module.deep_view() == self@.module,
    {
        borrowed_text(&self.module)
    }

    /// The source file that logged the record, if known.
    pub fn file(&self) -> (file: Option<&str>)
        ensures
            file.deep_view() == self@.file,
    {
        borrowed_text(&self.file)
    }

    /// The source line that logged the record, if known.
    pub fn line(&self) -> (line: Option<u32>)
        ensures
            line == self@.line,
    {
        self.line
    }

    /// A record with the same metadata and source location as this one, and
    /// the given message in place of its own.
    pub fn with_message(&self, message: String) -> (record: Record)
        ensures
            record@ == (RecordView { message: message@, ..self@ }),
    {
        Record {
            metadata: self.metadata.duplicate(),
            message,
            module: owned_text(borrowed_text(&self.module)),
            file: owned_text(borrowed_text(&self.file)),
            line: self.line,
        }
    }

    /// The metadata that a sink receives with a record has the value that
    /// the view of the record holds.
    pub proof fn lemma_metadata_view(&self)
        ensures
            self.metadata()@ == self@.metadata,
    {
    }
}

} // verus!
