//! The boundary to the `shellish_parse` crate, which splits a command line
//! into words.
//!
//! Nothing in this module is proved. Each item says what it takes on trust
//! about the tokenizer; the rest of the crate is verified against these
//! statements.

use shellish_parse::{ParseError, ParseOptions};
use vstd::prelude::*;

verus! {

/// The error type of `shellish_parse`. A value of it is carried through
/// verified code unopened.
#[verifier::external_type_specification]
#[verifier::external_body]
pub struct ExParseError(shellish_parse::ParseError);

/// The outcome of `shellish_parse::parse` on a command line, under the
/// tokenizer's default options: the words in order, or the tokenizer's error.
/// The quoting and escaping rules are the tokenizer's own and are not
/// restated here.
pub uninterp spec fn shell_words(command: Seq<char>) -> Result<Seq<Seq<char>>, ParseError>;

/// The text that `shellish_parse::ParseError` displays as.
pub uninterp spec fn diagnostic(error: ParseError) -> Seq<char>;

/// The characters that separate words: space, tab and line feed.
pub open spec fn is_separator(c: char) -> bool {
    c == ' ' || c == '\t' || c == '\n'
}

/// A command line that holds nothing but separators (the empty one included).
pub open spec fn is_blank(command: Seq<char>) -> bool {
    forall|i: int| 0 <= i < command.len() ==> is_separator(#[trigger] command[i])
}

/// The outcome that holds no words and no error.
pub open spec fn no_words() -> Result<Seq<Seq<char>>, ParseError> {
    Ok(Seq::empty())
}

/// The words of a command line: none for a blank line, otherwise whatever the
/// tokenizer makes of it.
pub open spec fn words(command: Seq<char>) -> Result<Seq<Seq<char>>, ParseError> {
    if is_blank(command) {
        no_words()
    } else {
        shell_words(command)
    }
}

/// The character sequences of a list of strings.
pub open spec fn texts(strings: Seq<String>) -> Seq<Seq<char>> {
    strings.map_values(|s: String| s@)
}

/// A tokenizer outcome with each word as a character sequence.
pub open spec fn outcome_texts(outcome: Result<Vec<String>, ParseError>) -> Result<
    Seq<Seq<char>>,
    ParseError,
> {
    match outcome {
        Ok(tokens) => Ok(texts(tokens@)),
        Err(error) => Err(error),
    }
}

/// Calls `shellish_parse::parse` with the default `ParseOptions`.
///
/// Trusted: the outcome depends on the command line alone, and a command line
/// made only of spaces, tabs and line feeds yields no words and no error. The
/// tokenizer returns on every input.
#[verifier::external_body]
pub(crate) fn split_words(command: &str) -> (outcome: Result<Vec<String>, ParseError>)
    ensures
        outcome_texts(outcome) == shell_words(command@),
        is_blank(command@) ==> outcome_texts(outcome) == no_words(),
{
    shellish_parse::parse(command, ParseOptions::default())
}

/// Formats a `shellish_parse::ParseError` through its `Display` impl.
///
/// Trusted: the text depends on the error alone.
#[verifier::external_body]
pub(crate) fn describe(error: &ParseError) -> (text: String)
    ensures
        text@ == diagnostic(*error),
{
    format!("{}", error)
}

} // verus!
