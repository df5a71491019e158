//! The human-readable line of a record.

use vstd::prelude::*;
use vstd::string::StringExecFns;
use crate::record::Level;

verus! {

/// The line of a record: timestamp, a space, the name of the level, a space,
/// and the message.
pub open spec fn rendered_line(timestamp: Seq<char>, level: Level, message: Seq<char>) -> Seq<
    char,
> {
    timestamp + seq![' '] + level.name() + seq![' '] + message
}

/// Renders the line of a record with the given level and message, logged at
/// the given time.
pub fn render_line(timestamp: &str, level: Level, message: &str) -> (line: String)
    ensures
        line@ == rendered_line(timestamp@, level, message@),
{
    proof {
        reveal_strlit(" ");
    }
    let mut line = timestamp.to_owned();
    line.append(" ");
    line.append(level.as_str());
    line.append(" ");
    line.append(message);
    line
}

/// A rendered line begins with its timestamp, and a space follows it.
pub proof fn lemma_line_begins_with_timestamp(
    timestamp: Seq<char>,
    level: Level,
    message: Seq<char>,
)
    ensures
        timestamp.is_prefix_of(rendered_line(timestamp, level, message)),
        rendered_line(timestamp, level, message)[timestamp.len() as int] == ' ',
{
    let line = rendered_line(timestamp, level, message);
    assert(line.subrange(0, timestamp.len() as int) =~= timestamp);
}

/// A rendered line ends with a space, the name of the level, a space, and
/// the message.
pub proof fn lemma_line_ends_with_level_and_message(
    timestamp: Seq<char>,
    level: Level,
    message: Seq<char>,
)
    ensures
        (seq![' '] + level.name() + seq![' '] + message).is_suffix_of(
            rendered_line(timestamp, level, message),
        ),
{
    let line = rendered_line(timestamp, level, message);
    let tail = seq![' '] + level.name() + seq![' '] + message;
    assert(line =~= timestamp + tail);
    assert(line.subrange(line.len() - tail.len(), line.len() as int) =~= tail);
}

/// The first space of a rendered line is the one that follows the timestamp,
/// if the timestamp holds none: a reader who cuts the line there has the time
/// on the left, and the level and the message on the right.
pub proof fn lemma_first_space_follows_timestamp(
    timestamp: Seq<char>,
    level: Level,
    message: Seq<char>,
)
    requires
        !timestamp.contains(' '),
    ensures
        rendered_line(timestamp, level, message)[timestamp.len() as int] == ' ',
        forall|i: int|
            0 <= i < timestamp.len() ==> #[trigger] rendered_line(timestamp, level, message)[i]
                != ' ',
{
    let line = rendered_line(timestamp, level, message);
    assert forall|i: int| 0 <= i < timestamp.len() implies #[trigger] line[i] != ' ' by {
        assert(line[i] == timestamp[i]);
    }
}

} // verus!
