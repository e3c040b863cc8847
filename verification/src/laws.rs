//! What holds of every builder, stated over [`CommandSpec`], the model that
//! the contracts of [`crate::EditorBuilder`] speak of.

use crate::builder::CommandSpec;
use crate::error::EditorBuilderError;
use crate::invocation::InvocationView;
use crate::shell::is_blank;
use vstd::prelude::*;

verus! {

/// A list of `count` absent candidates.
pub open spec fn absent(count: nat) -> Seq<Option<Seq<char>>> {
    Seq::new(count, |i: int| None)
}

/// Offering candidates never touches the paths, and a command that was
/// selected before stays selected.
pub proof fn lemma_offers_keep_selection(spec: CommandSpec, candidates: Seq<Option<Seq<char>>>)
    ensures
        spec.offer_all(candidates).paths == spec.paths,
        spec.command is Some ==> spec.offer_all(candidates) == spec,
    decreases candidates.len(),
{
    if candidates.len() > 0 {
        lemma_offers_keep_selection(spec, candidates.drop_last());
    }
}

/// Precedence: among the candidates offered to a builder that has selected
/// nothing yet, the first present one is selected, whatever is offered after
/// it, and assembly uses that one.
pub proof fn lemma_first_present_wins(
    spec: CommandSpec,
    candidates: Seq<Option<Seq<char>>>,
    first: int,
)
    requires
        spec.command is None,
        0 <= first < candidates.len(),
        candidates[first] is Some,
        forall|j: int| 0 <= j < first ==> candidates[j] is None,
    ensures
        spec.offer_all(candidates) == (CommandSpec {
            command: candidates[first],
            paths: spec.paths,
        }),
        spec.offer_all(candidates).resolve() == spec.offer(candidates[first]).resolve(),
    decreases candidates.len(),
{
    let earlier = candidates.drop_last();
    if first == candidates.len() - 1 {
        lemma_only_absent_offered(spec, earlier);
    } else {
        lemma_first_present_wins(spec, earlier, first);
    }
}

/// Offering only absent candidates selects nothing.
pub proof fn lemma_only_absent_offered(spec: CommandSpec, candidates: Seq<Option<Seq<char>>>)
    requires
        forall|j: int| 0 <= j < candidates.len() ==> candidates[j] is None,
    ensures
        spec.offer_all(candidates) == spec,
    decreases candidates.len(),
{
    if candidates.len() > 0 {
        lemma_only_absent_offered(spec, candidates.drop_last());
    }
}

/// Offering an absent candidate any number of times, before or after a
/// command was selected, changes nothing.
pub proof fn lemma_absent_offers_change_nothing(spec: CommandSpec, count: nat)
    ensures
        spec.offer(None) == spec,
        spec.offer_all(absent(count)) == spec,
{
    lemma_only_absent_offered(spec, absent(count));
}

/// A selected command line that holds nothing but separators resolves to
/// [`EditorBuilderError::EmptyCommand`].
pub proof fn lemma_blank_command_is_empty(spec: CommandSpec)
    requires
        spec.command is Some,
        is_blank(spec.command->Some_0),
    ensures
        spec.resolve() == Err::<InvocationView, _>(EditorBuilderError::EmptyCommand),
{
}

/// An empty string is present: offered to a builder that has selected
/// nothing yet, it is selected, no later candidate replaces it, and assembly
/// fails with [`EditorBuilderError::EmptyCommand`].
pub proof fn lemma_empty_source_wins_then_fails(
    spec: CommandSpec,
    later: Seq<Option<Seq<char>>>,
)
    requires
        spec.command is None,
    ensures
        spec.offer(Some(Seq::empty())).offer_all(later).command == Some(Seq::<char>::empty()),
        spec.offer(Some(Seq::empty())).offer_all(later).resolve() == Err::<InvocationView, _>(
            EditorBuilderError::EmptyCommand,
        ),
{
    let selected = spec.offer(Some(Seq::empty()));
    lemma_offers_keep_selection(selected, later);
    lemma_blank_command_is_empty(selected);
}

/// Registering paths appends them, in order, to those registered before and
/// leaves the selected command alone.
pub proof fn lemma_paths_keep_order(spec: CommandSpec, paths: Seq<Seq<char>>)
    ensures
        spec.add_paths(paths) == (CommandSpec {
            command: spec.command,
            paths: spec.paths + paths,
        }),
    decreases paths.len(),
{
    if paths.len() > 0 {
        lemma_paths_keep_order(spec, paths.drop_last());
        assert(spec.paths + paths =~= (spec.paths + paths.drop_last()).push(paths.last()));
    } else {
        assert(spec.paths + paths =~= spec.paths);
    }
}

/// Path append order: whether assembly succeeds, and with which program,
/// does not depend on the paths; the argument list is that of the command
/// alone followed by exactly the registered paths, in order of
/// registration.
pub proof fn lemma_paths_come_last(spec: CommandSpec, paths: Seq<Seq<char>>)
    requires
        spec.paths.len() == 0,
    ensures
        match spec.resolve() {
            Ok(bare) => spec.add_paths(paths).resolve() == Ok::<_, EditorBuilderError>(
                InvocationView { program: bare.program, args: bare.args + paths },
            ),
            Err(error) => spec.add_paths(paths).resolve() == Err::<InvocationView, _>(error),
        },
        spec.add_paths(paths).resolve() matches Ok(full) ==> full.args.len() >= paths.len()
            && full.args.skip(full.args.len() - paths.len()) == paths,
{
    lemma_paths_keep_order(spec, paths);
    assert(spec.paths + paths =~= paths);
    assert(spec.paths =~= Seq::empty());
    if let Ok(bare) = spec.resolve() {
        let full = spec.add_paths(paths).resolve()->Ok_0;
        assert(bare.args + paths =~= full.args);
        assert(full.args.skip(full.args.len() - paths.len()) =~= paths);
    }
}

/// Offers and path registrations do not interfere: they may be made in
/// either order.
pub proof fn lemma_offer_and_path_commute(
    spec: CommandSpec,
    candidate: Option<Seq<char>>,
    path: Seq<char>,
)
    ensures
        spec.offer(candidate).add_path(path) == spec.add_path(path).offer(candidate),
{
}

} // verus!
