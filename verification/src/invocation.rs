//! The result of resolving: a program name and its arguments.

use crate::error::EditorBuilderError;
use crate::shell::{outcome_texts, texts};
use shellish_parse::ParseError;
use vstd::prelude::*;

verus! {

/// What an [`Invocation`] stands for: the program's name and the arguments in
/// order, each as a character sequence.
pub struct InvocationView {
    pub program: Seq<char>,
    pub args: Seq<Seq<char>>,
}

/// A program name and the argument list to start it with.
#[derive(Clone, Debug)]
pub struct Invocation {
    program: String,
    args: Vec<String>,
}

impl View for Invocation {
    type V = InvocationView;

    closed spec fn view(&self) -> InvocationView {
        InvocationView { program: self.program@, args: texts(self.args@) }
    }
}

/// The invocation that the tokenizer's outcome and a path list stand for. The
/// first word names the program; the other words, then the paths, are its
/// arguments. With no word at all there is no program to name, and the
/// tokenizer's error is passed on.
pub open spec fn assembled(
    tokenized: Result<Seq<Seq<char>>, ParseError>,
    paths: Seq<Seq<char>>,
) -> Result<InvocationView, EditorBuilderError> {
    match tokenized {
        Err(error) => Err(EditorBuilderError::ParseError(error)),
        Ok(words) => if words.len() == 0 {
            Err(EditorBuilderError::EmptyCommand)
        } else {
            Ok(InvocationView { program: words[0], args: words.skip(1) + paths })
        },
    }
}

/// An outcome with the invocation replaced by what it stands for.
pub open spec fn outcome_view(outcome: Result<Invocation, EditorBuilderError>) -> Result<
    InvocationView,
    EditorBuilderError,
> {
    match outcome {
        Ok(invocation) => Ok(invocation@),
        Err(error) => Err(error),
    }
}

impl Invocation {
    /// Combines what the tokenizer made of a command line with the paths to
    /// open.
    pub fn assemble(
        tokenized: Result<Vec<String>, ParseError>,
        paths: Vec<String>,
    ) -> (outcome: Result<Self, EditorBuilderError>)
        ensures
            outcome_view(outcome) == assembled(outcome_texts(tokenized), texts(paths@)),
    {
        let mut args = match tokenized {
            Ok(words) => words,
            Err(error) => {
                return Err(EditorBuilderError::ParseError(error));
            },
        };
        let mut paths = paths;
        if args.len() == 0 {
            return Err(EditorBuilderError::EmptyCommand);
        }
        let ghost all_words = args@;
        let ghost all_paths = paths@;
        let program = args.remove(0);
        args.append(&mut paths);
        assert(texts(args@) =~= texts(all_words).skip(1) + texts(all_paths));
        Ok(Invocation { program, args })
    }

    /// The name of the program to start.
    pub fn get_program(&self) -> (program: &str)
        ensures
            program@ == self@.program,
    {
        self.program.as_str()
    }

    /// The arguments to start the program with, in order.
    pub fn get_args(&self) -> (args: &Vec<String>)
        ensures
            texts(args@) == self@.args,
    {
        &self.args
    }
}

} // verus!
