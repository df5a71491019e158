//! The structured envelope in which a rendered line travels downstream.

use vstd::prelude::*;
use crate::json::{json_object_text, object_fields, object_insert, object_new, object_to_json};

verus! {

/// The key of the envelope's source tag.
pub open spec fn key_source() -> Seq<char> {
    "ddsource"@
}

/// The key of the envelope's free-form tags.
pub open spec fn key_tags() -> Seq<char> {
    "ddtags"@
}

/// The key of the envelope's host name.
pub open spec fn key_hostname() -> Seq<char> {
    "hostname"@
}

/// The key of the envelope's message.
pub open spec fn key_message() -> Seq<char> {
    "message"@
}

/// The key of the envelope's service name.
pub open spec fn key_service() -> Seq<char> {
    "service"@
}

/// The five fields of an envelope as a mapping from key to text.
pub open spec fn envelope_fields(
    source: Seq<char>,
    tags: Seq<char>,
    hostname: Seq<char>,
    message: Seq<char>,
    service: Seq<char>,
) -> Map<Seq<char>, Seq<char>> {
    Map::empty().insert(key_source(), source).insert(key_tags(), tags).insert(
        key_hostname(),
        hostname,
    ).insert(key_message(), message).insert(key_service(), service)
}

/// A flat mapping of five text fields: the four static tags of a decorator
/// and the rendered line of one record.
#[derive(Clone, Debug, PartialEq, Eq)]
pub struct Envelope {
    ddsource: String,
    ddtags: String,
    hostname: String,
    message: String,
    service: String,
}

impl View for Envelope {
    type V = Map<Seq<char>, Seq<char>>;

    closed spec fn view(&self) -> Map<Seq<char>, Seq<char>> {
        envelope_fields(
            self.ddsource@,
            self.ddtags@,
            self.hostname@,
            self.message@,
            self.service@,
        )
    }
}

impl Envelope {
    /// Makes an envelope of the four tags and the message.
    pub fn new(source: &str, tags: &str, hostname: &str, message: &str, service: &str) -> (envelope:
        Envelope)
        ensures
            envelope@ == envelope_fields(source@, tags@, hostname@, message@, service@),
    {
        Envelope {
            ddsource: source.to_owned(),
            ddtags: tags.to_owned(),
            hostname: hostname.to_owned(),
            message: message.to_owned(),
            service: service.to_owned(),
        }
    }

    /// The envelope as the text of a JSON object with its five fields.
    pub fn to_json(&self) -> (text: String)
        ensures
            text@ == json_object_text(self@),
    {
        let mut object = object_new();
        object_insert(&mut object, "ddsource", self.ddsource.as_str());
        object_insert(&mut object, "ddtags", self.ddtags.as_str());
        object_insert(&mut object, "hostname", self.hostname.as_str());
        object_insert(&mut object, "message", self.message.as_str());
        object_insert(&mut object, "service", self.service.as_str());
        object_to_json(object)
    }
}

/// An envelope has exactly the five keys, and holds under each the text it
/// was made with.
pub proof fn lemma_envelope_fields(
    source: Seq<char>,
    tags: Seq<char>,
    hostname: Seq<char>,
    message: Seq<char>,
    service: Seq<char>,
)
    ensures
        ({
            let fields = envelope_fields(source, tags, hostname, message, service);
            &&& fields.dom() =~= set![key_source(), key_tags(), key_hostname(), key_message(), key_service()]
            &&& fields.dom().len() == 5
            &&& fields[key_source()] == source
            &&& fields[key_tags()] == tags
            &&& fields[key_hostname()] == hostname
            &&& fields[key_message()] == message
            &&& fields[key_service()] == service
        }),
{
    reveal_strlit("ddsource");
    reveal_strlit("ddtags");
    reveal_strlit("hostname");
    reveal_strlit("message");
    reveal_strlit("service");
    assert(key_source().len() == 8 && key_source()[0] == 'd');
    assert(key_tags().len() == 6);
    assert(key_hostname().len() == 8 && key_hostname()[0] == 'h');
    assert(key_message().len() == 7 && key_message()[0] == 'm');
    assert(key_service().len() == 7 && key_service()[0] == 's');
}

} // verus!
