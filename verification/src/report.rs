//! The text of the line that describes a panic.

use vstd::prelude::*;
use vstd::string::*;
use crate::decimal::{decimal, decimal_string, decimal_value, lemma_decimal_round_trip};
use crate::payload::{PanicPayload, PayloadModel};

verus! {

/// A source location as text: the file name, the line and the column, each
/// separated from the next by a colon, the numbers as decimal numerals.
pub open spec fn location_text(file: Seq<char>, line: nat, column: nat) -> Seq<char> {
    file + ":"@ + decimal(line) + ":"@ + decimal(column)
}

/// The line that reports a panic.
///
/// With a message it reads `panicked at '<message>', <file>:<line>:<column>`,
/// the message standing between the quotes as it is.  Without one it reads
/// `panicked at <file>:<line>:<column>`.
pub open spec fn report_text(payload: PayloadModel) -> Seq<char> {
    match payload.message {
        Some(message) => "panicked at '"@ + message + "', "@ + location_text(
            payload.file,
            payload.line,
            payload.column,
        ),
        None => "panicked at "@ + location_text(payload.file, payload.line, payload.column),
    }
}

/// Renders a source location as `<file>:<line>:<column>`.
pub fn format_location(file: &str, line: u32, column: u32) -> (text: String)
    ensures
        text@ == location_text(file@, line as nat, column as nat),
{
    let mut text = String::from_str(file);
    text.append(":");
    text.append(decimal_string(line).as_str());
    text.append(":");
    text.append(decimal_string(column).as_str());
    text
}

/// Renders the line that reports `payload`, without a line terminator.
pub fn format_report(payload: &PanicPayload) -> (text: String)
    ensures
        text@ == report_text(payload@),
{
    let location = format_location(payload.file.as_str(), payload.line, payload.column);
    match &payload.message {
        Some(message) => {
            let mut text = String::from_str("panicked at '");
            text.append(message.as_str());
            text.append("', ");
            text.append(location.as_str());
            text
        },
        None => {
            let mut text = String::from_str("panicked at ");
            text.append(location.as_str());
            text
        },
    }
}

/// The parts of a location: the file name as it was given, a colon, the
/// numeral of the line, a colon, and the numeral of the column, with nothing
/// before, between or after them.  The two numerals read back as the line
/// and the column that were given.
pub proof fn lemma_location_parts(file: Seq<char>, line: nat, column: nat)
    ensures
        ({
            let text = location_text(file, line, column);
            let line_start = file.len() as int + 1;
            let line_end = line_start + decimal(line).len() as int;
            &&& text.len() == file.len() + decimal(line).len() + decimal(column).len() + 2
            &&& text.subrange(0, file.len() as int) == file
            &&& text[file.len() as int] == ':'
            &&& text.subrange(line_start, line_end) == decimal(line)
            &&& text[line_end] == ':'
            &&& text.subrange(line_end + 1, text.len() as int) == decimal(column)
            &&& decimal_value(text.subrange(line_start, line_end)) == line
            &&& decimal_value(text.subrange(line_end + 1, text.len() as int)) == column
        }),
{
    reveal_strlit(":");
    lemma_decimal_round_trip(line);
    lemma_decimal_round_trip(column);
    let text = location_text(file, line, column);
    let line_start = file.len() as int + 1;
    let line_end = line_start + decimal(line).len() as int;
    assert(text.subrange(0, file.len() as int) =~= file);
    assert(text.subrange(line_start, line_end) =~= decimal(line));
    assert(text.subrange(line_end + 1, text.len() as int) =~= decimal(column));
}

/// When the payload has a message, the line is the opening `panicked at '`,
/// then the message character for character, then the closing `', `, then
/// the location.
pub proof fn lemma_message_is_quoted_verbatim(payload: PayloadModel)
    requires
        payload.message is Some,
    ensures
        ({
            let text = report_text(payload);
            let message = payload.message->0;
            let location = location_text(payload.file, payload.line, payload.column);
            let message_end = 13 + message.len() as int;
            &&& text.len() == 16 + message.len() + location.len()
            &&& text.subrange(0, 13) == "panicked at '"@
            &&& text.subrange(13, message_end) == message
            &&& text.subrange(message_end, message_end + 3) == "', "@
            &&& text.subrange(message_end + 3, text.len() as int) == location
        }),
{
    reveal_strlit("panicked at '");
    reveal_strlit("', ");
    let text = report_text(payload);
    let message = payload.message->0;
    let location = location_text(payload.file, payload.line, payload.column);
    let message_end = 13 + message.len() as int;
    assert(text.subrange(0, 13) =~= "panicked at '"@);
    assert(text.subrange(13, message_end) =~= message);
    assert(text.subrange(message_end, message_end + 3) =~= "', "@);
    assert(text.subrange(message_end + 3, text.len() as int) =~= location);
}

/// When the payload has no message, the line is `panicked at ` followed at
/// once by the location: no quotes and no message stand in between.
pub proof fn lemma_no_message_leaves_location_only(payload: PayloadModel)
    requires
        payload.message is None,
    ensures
        ({
            let text = report_text(payload);
            let location = location_text(payload.file, payload.line, payload.column);
            &&& text.len() == 12 + location.len()
            &&& text.subrange(0, 12) == "panicked at "@
            &&& text.subrange(12, text.len() as int) == location
        }),
{
    reveal_strlit("panicked at ");
    let text = report_text(payload);
    let location = location_text(payload.file, payload.line, payload.column);
    assert(text.subrange(0, 12) =~= "panicked at "@);
    assert(text.subrange(12, text.len() as int) =~= location);
}

} // verus!
