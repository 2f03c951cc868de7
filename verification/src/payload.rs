//! What the language runtime reports about a panic.

use vstd::prelude::*;

verus! {

/// A panic as the runtime describes it: the message, if there is one, and the
/// place in the source where the panic was raised.
///
/// Every combination of values is a valid payload, including an empty
/// message, an empty file name and a line or column of zero.
#[derive(Clone, Debug, PartialEq, Eq)]
pub struct PanicPayload {
    /// The formatted panic message; `None` when the panic carries none.
    pub message: Option<String>,
    /// The source file in which the panic was raised.
    pub file: String,
    /// The line in `file`.
    pub line: u32,
    /// The column in `line`.
    pub column: u32,
}

/// The mathematical content of a [`PanicPayload`].
pub struct PayloadModel {
    pub message: Option<Seq<char>>,
    pub file: Seq<char>,
    pub line: nat,
    pub column: nat,
}

impl View for PanicPayload {
    type V = PayloadModel;

    open spec fn view(&self) -> PayloadModel {
        PayloadModel {
            message: match self.message {
                Some(message) => Some(message@),
                None => None,
            },
            file: self.file@,
            line: self.line as nat,
            column: self.column as nat,
        }
    }
}

impl PanicPayload {
    /// A payload with the given message and source location.
    pub fn new(message: Option<String>, file: String, line: u32, column: u32) -> (payload: Self)
        ensures
            payload.message == message,
            payload.file == file,
            payload.line == line,
            payload.column == column,
    {
        PanicPayload { message, file, line, column }
    }
}

} // verus!
