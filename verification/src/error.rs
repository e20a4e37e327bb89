//! Errors as RPC callers see them.

use vstd::prelude::*;

verus! {

/// The JSON-RPC error codes that async operations answer with.
#[derive(Clone, Copy, Debug, PartialEq, Eq, Structural)]
pub enum LegacyCode {
    /// A failure while a command was being handled.
    Misc,
    /// Too little memory was left for the operation.
    OutOfMemory,
    /// A parameter was invalid, missing or given twice.
    InvalidParameter,
}

/// The contents of an error: its code, its message and, as JSON text, its optional data.
#[verifier::ext_equal]
pub struct ErrorModel {
    pub code: i32,
    pub message: Seq<char>,
    pub data: Option<Seq<char>>,
}

/// The view of an optional text.
pub open spec fn text_view(text: Option<String>) -> Option<Seq<char>> {
    match text {
        Some(text) => Some(text@),
        None => None,
    }
}

/// An error that answers an RPC call.
#[derive(Debug)]
pub struct RpcError {
    pub code: i32,
    pub message: String,
    pub data: Option<String>,
}

impl View for RpcError {
    type V = ErrorModel;

    open spec fn view(&self) -> ErrorModel {
        ErrorModel { code: self.code, message: self.message@, data: text_view(self.data) }
    }
}

impl LegacyCode {
    /// The number that stands for this code in a response.
    pub open spec fn number(self) -> i32 {
        match self {
            LegacyCode::Misc => -1i32,
            LegacyCode::OutOfMemory => -7i32,
            LegacyCode::InvalidParameter => -8i32,
        }
    }

    /// The error with this code and the given message, without data.
    pub open spec fn error(self, message: Seq<char>) -> ErrorModel {
        ErrorModel { code: self.number(), message, data: None }
    }

    /// Returns the number that stands for this code in a response.
    pub fn code(self) -> (code: i32)
        ensures
            code == self.number(),
    {
        match self {
            LegacyCode::Misc => -1,
            LegacyCode::OutOfMemory => -7,
            LegacyCode::InvalidParameter => -8,
        }
    }

    /// Builds an error with this code and a fixed message.
    pub fn with_static(self, message: &'static str) -> (error: RpcError)
        ensures
            error@ == self.error(message@),
            error.code == self.number(),
            error.message@ == message@,
            error.data is None,
    {
        self.with_message(message.to_owned())
    }

    /// Builds an error with this code and the given message.
    pub fn with_message(self, message: String) -> (error: RpcError)
        ensures
            error@ == self.error(message@),
            error.code == self.number(),
            error.message@ == message@,
            error.data is None,
    {
        RpcError { code: self.code(), message, data: None }
    }
}

/// The view of an error shows its code, its message and its data as they are.
pub proof fn law_error_view_is_faithful(error: RpcError)
    ensures
        error@.code == error.code,
        error@.message == error.message@,
        error@.data is Some <==> error.data is Some,
        error.data matches Some(data) ==> error@.data == Some(data@),
{
}

/// The view of an optional text tells whether there is one, and which.
pub proof fn law_text_view_is_faithful(text: String)
    ensures
        text_view(Some(text)) == Some(text@),
        text_view(None) is None,
{
}

/// An error made with a code has that code's number, the message that was given and no data,
/// whatever the message is.
pub proof fn law_errors_carry_their_message(code: LegacyCode, message: Seq<char>)
    ensures
        code.error(message).message == message,
        code.error(message).code == code.number(),
        code.error(message).data is None,
{
}

/// Every code has a negative number, and no two share one.
pub proof fn law_numbers_are_distinct(a: LegacyCode, b: LegacyCode)
    ensures
        a.number() == b.number() <==> a == b,
        a.number() < 0,
{
}

} // verus!
