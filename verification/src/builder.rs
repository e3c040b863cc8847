//! The builder that picks the editor command and collects the paths to open.

use crate::error::EditorBuilderError;
use crate::invocation::{assembled, outcome_view, Invocation, InvocationView};
use crate::shell::{split_words, texts, words};
use vstd::prelude::*;

verus! {

/// The environment variable that is consulted first: the user's preferred
/// interactive editor.
pub const PRIMARY_VARIABLE: &'static str = "VISUAL";

/// The environment variable that is consulted second: any editor.
pub const SECONDARY_VARIABLE: &'static str = "EDITOR";

/// What an [`EditorBuilder`] stands for: the command line selected so far, if
/// any, and the paths registered so far, in order.
pub struct CommandSpec {
    pub command: Option<Seq<char>>,
    pub paths: Seq<Seq<char>>,
}

impl CommandSpec {
    /// The state before anything was offered or registered.
    pub open spec fn empty() -> CommandSpec {
        CommandSpec { command: None, paths: Seq::empty() }
    }

    /// Offers a candidate command line. It is selected if it is present and
    /// nothing was selected before; otherwise nothing changes.
    pub open spec fn offer(self, candidate: Option<Seq<char>>) -> CommandSpec {
        CommandSpec {
            command: if self.command is Some {
                self.command
            } else {
                candidate
            },
            paths: self.paths,
        }
    }

    /// Offers a list of candidates, one after the other.
    pub open spec fn offer_all(self, candidates: Seq<Option<Seq<char>>>) -> CommandSpec
        decreases candidates.len(),
    {
        if candidates.len() == 0 {
            self
        } else {
            self.offer_all(candidates.drop_last()).offer(candidates.last())
        }
    }

    /// Registers one more path, behind those registered before.
    pub open spec fn add_path(self, path: Seq<char>) -> CommandSpec {
        CommandSpec { command: self.command, paths: self.paths.push(path) }
    }

    /// Registers a list of paths, one after the other.
    pub open spec fn add_paths(self, paths: Seq<Seq<char>>) -> CommandSpec
        decreases paths.len(),
    {
        if paths.len() == 0 {
            self
        } else {
            self.add_paths(paths.drop_last()).add_path(paths.last())
        }
    }

    /// The outcome of assembly: which invocation this state resolves to, or
    /// why it resolves to none.
    pub open spec fn resolve(self) -> Result<InvocationView, EditorBuilderError> {
        match self.command {
            None => Err(EditorBuilderError::NoCommand),
            Some(command) => assembled(words(command), self.paths),
        }
    }
}

/// A candidate as a character sequence.
pub open spec fn candidate_text(source: Option<&str>) -> Option<Seq<char>> {
    match source {
        Some(command) => Some(command@),
        None => None,
    }
}

/// A builder for the invocation that opens the user's editor. Sources are
/// offered in order of priority, highest first; the first one that holds a
/// value is used, also when that value is blank.
#[derive(Clone, Debug)]
pub struct EditorBuilder {
    command: Option<String>,
    paths: Vec<String>,
}

impl View for EditorBuilder {
    type V = CommandSpec;

    closed spec fn view(&self) -> CommandSpec {
        CommandSpec {
            command: match self.command {
                Some(command) => Some(command@),
                None => None,
            },
            paths: texts(self.paths@),
        }
    }
}

impl Default for EditorBuilder {
    /// The builder with no command and no paths.
    fn default() -> (builder: Self)
        ensures
            builder@ == CommandSpec::empty(),
    {
        EditorBuilder::new()
    }
}

impl EditorBuilder {
    /// Creates a builder with no command and no paths.
    pub fn new() -> (builder: Self)
        ensures
            builder@ == CommandSpec::empty(),
    {
        let builder = EditorBuilder { command: None, paths: Vec::new() };
        assert(builder@.paths =~= Seq::empty());
        builder
    }

    /// Shorthand for opening one file with the command held by the two
    /// environment variables, whose values the caller reads and hands over.
    pub fn edit_file(
        path: &str,
        primary: Option<&str>,
        secondary: Option<&str>,
    ) -> (outcome: Result<Invocation, EditorBuilderError>)
        ensures
            outcome_view(outcome) == CommandSpec::empty().offer(candidate_text(primary)).offer(
                candidate_text(secondary),
            ).add_path(path@).resolve(),
    {
        EditorBuilder::new().environment(primary, secondary).path(path).build()
    }

    /// Offers a command line from a static default or from a configuration
    /// file. An absent source leaves the builder as it is, and so does any
    /// source that comes after one that was present.
    pub fn source(self, source: Option<&str>) -> (builder: Self)
        ensures
            builder@ == self@.offer(candidate_text(source)),
    {
        let mut builder = self;
        if builder.command.is_none() {
            if let Some(command) = source {
                builder.command = Some(command.to_owned());
            }
        }
        builder
    }

    /// Offers the values of the two environment variables, the primary one
    /// first. The caller reads them when it makes this call; what it hands
    /// over is kept, whatever happens to the environment afterwards.
    pub fn environment(self, primary: Option<&str>, secondary: Option<&str>) -> (builder: Self)
        ensures
            builder@ == self@.offer(candidate_text(primary)).offer(candidate_text(secondary)),
    {
        self.source(primary).source(secondary)
    }

    /// Registers a path to pass to the editor. Paths are passed behind the
    /// command's own arguments, in the order of registration.
    pub fn path(self, path: &str) -> (builder: Self)
        ensures
            builder@ == self@.add_path(path@),
    {
        let mut builder = self;
        let ghost before = builder.paths@;
        builder.paths.push(path.to_owned());
        assert(texts(builder.paths@) =~= texts(before).push(path@));
        builder
    }

    /// Splits the selected command line into words and combines them with
    /// the registered paths.
    pub fn build(self) -> (outcome: Result<Invocation, EditorBuilderError>)
        ensures
            outcome_view(outcome) == self@.resolve(),
    {
        let command = match self.command {
            Some(command) => command,
            None => {
                return Err(EditorBuilderError::NoCommand);
            },
        };
        Invocation::assemble(split_words(command.as_str()), self.paths)
    }
}

} // verus!
