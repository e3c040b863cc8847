//! The ways in which resolving the editor command can fail.

use crate::shell::{describe, diagnostic};
use shellish_parse::ParseError;
use vstd::prelude::*;
use vstd::string::StringExecFns;

verus! {

/// Any error that can occur while resolving the editor command.
#[derive(Debug)]
pub enum EditorBuilderError {
    /// No source held a command.
    NoCommand,
    /// A command was found, but it holds no words.
    EmptyCommand,
    /// The command is not valid shell-like syntax.
    ParseError(ParseError),
}

impl EditorBuilderError {
    /// The message of each error. That of a parse error ends with the
    /// tokenizer's own diagnostic.
    pub open spec fn message_text(self) -> Seq<char> {
        match self {
            EditorBuilderError::NoCommand => "Edit command not defined in any of the listed sources"@,
            EditorBuilderError::EmptyCommand => "Editor command is empty"@,
            EditorBuilderError::ParseError(error) => "Invalid editor command: "@ + diagnostic(error),
        }
    }

    /// The tokenizer error behind this error, if there is one.
    pub open spec fn cause(self) -> Option<ParseError> {
        match self {
            EditorBuilderError::ParseError(error) => Some(error),
            _ => None,
        }
    }

    /// A human-readable message, fit for direct display.
    pub fn message(&self) -> (text: String)
        ensures
            text@ == self.message_text(),
    {
        match self {
            EditorBuilderError::NoCommand => String::from_str(
                "Edit command not defined in any of the listed sources",
            ),
            EditorBuilderError::EmptyCommand => String::from_str("Editor command is empty"),
            EditorBuilderError::ParseError(error) => {
                let detail = describe(error);
                String::from_str("Invalid editor command: ").concat(detail.as_str())
            },
        }
    }

    /// The lower-level error that caused this one: the tokenizer's error for
    /// a parse error, nothing for the others.
    pub fn source(&self) -> (cause: Option<&ParseError>)
        ensures
            match self.cause() {
                Some(error) => cause == Some(&error),
                None => cause.is_none(),
            },
    {
        match self {
            EditorBuilderError::ParseError(error) => Some(error),
            _ => None,
        }
    }
}

} // verus!
