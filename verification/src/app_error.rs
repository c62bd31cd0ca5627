//! The error that the services report.
use vstd::prelude::*;

use crate::text::{chars_of, push_str, string_from_chars};

verus! {

/// An error with a message and, optionally, the error that caused it. The
/// cause is held as the text of its pretty `Debug` rendering (`{:#?}`), which
/// is all that is ever read of it.
#[derive(Clone, Debug, PartialEq, Eq)]
pub struct AppError {
    pub message: String,
    pub cause: Option<String>,
}

/// The text under which an error is displayed.
pub open spec fn app_error_text(message: Seq<char>, cause: Option<Seq<char>>) -> Seq<char> {
    match cause {
        Some(c) => "(message: "@ + message + ", cause: "@ + c + ")"@,
        None => "(message: "@ + message + ", cause: None)"@,
    }
}

impl AppError {
    /// An error without a cause.
    pub fn new(message: String) -> (e: AppError)
        ensures
            e.message@ == message@,
            e.cause is None,
    {
        AppError { message, cause: None }
    }

    /// An error caused by another one, given by its pretty `Debug` text.
    pub fn with_cause(message: String, cause: String) -> (e: AppError)
        ensures
            e.message@ == message@,
            e.cause matches Some(c) && c@ == cause@,
    {
        AppError { message, cause: Some(cause) }
    }

    /// The displayed text: `(message: {message}, cause: {cause})`, where a
    /// missing cause reads `None`.
    pub fn to_display_string(&self) -> (s: String)
        ensures
            s@ == app_error_text(
                self.message@,
                match self.cause {
                    Some(c) => Some(c@),
                    None => None,
                },
            ),
    {
        let mut out = chars_of("(message: ");
        push_str(&mut out, self.message.as_str());
        match &self.cause {
            Some(c) => {
                push_str(&mut out, ", cause: ");
                push_str(&mut out, c.as_str());
                push_str(&mut out, ")");
            },
            None => {
                push_str(&mut out, ", cause: None)");
            },
        }
        string_from_chars(&out)
    }
}

} // verus!
