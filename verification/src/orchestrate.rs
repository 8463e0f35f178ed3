//! One copy from start to end: how the destination gets its name, what is
//! announced, and the order of the steps.

use crate::address::{remote_is_dir, Location};
use vstd::prelude::*;
use vstd::string::StringExecFns;

verus! {

/// What became of the destination when it was resolved.
#[derive(Clone, Copy, Debug, PartialEq, Eq, Structural)]
pub enum Resolution {
    /// The destination names the target itself and stays as it is.
    Kept,
    /// The destination is a directory: the source's name was appended.
    Appended,
    /// The destination is a directory, but the source has no name to give.
    Unnamed,
}

/// Gives the destination the source's name where the destination is a
/// directory, as `cp file dir/` makes `dir/file`; leaves it alone where it
/// is not.
pub fn name_destination(source: &Location, destination: &mut Location, directory: bool)
    requires
        directory ==> source.has_name(),
    ensures
        directory ==> final(destination).is_extension_of(*old(destination), source.name_spec()),
        !directory ==> *final(destination) == *old(destination),
{
    if directory {
        let name = source.name();
        destination.push(name.as_str());
    }
}

/// What becomes of a destination, given whether it is a directory: it is
/// kept where it is none, it receives the source's name where it is one,
/// and it is left unnamed where the source has no name to give.
pub open spec fn resolution(source: Location, directory: bool) -> Resolution {
    if !directory {
        Resolution::Kept
    } else if source.has_name() {
        Resolution::Appended
    } else {
        Resolution::Unnamed
    }
}

/// Resolves the destination of a copy, given whether it is a directory:
/// appends the source's name to a directory and leaves anything else as it
/// is. Where the source has no name the destination stays as it is and
/// the copy cannot go on.
pub fn resolve_as(source: &Location, destination: &mut Location, directory: bool) -> (r: Resolution)
    ensures
        r == resolution(*source, directory),
        r == Resolution::Appended ==> final(destination).is_extension_of(
            *old(destination),
            source.name_spec(),
        ),
        r != Resolution::Appended ==> *final(destination) == *old(destination),
{
    if !directory {
        Resolution::Kept
    } else if source.can_be_named() {
        name_destination(source, destination, true);
        Resolution::Appended
    } else {
        Resolution::Unnamed
    }
}

/// Resolves the destination of a copy: asks whether it is a directory and
/// goes on as `resolve_as` does with the answer. For a remote destination
/// the answer is known from its URL; for a local one the file system
/// gives it.
pub fn resolve_destination(source: &Location, destination: &mut Location) -> (r: Resolution)
    ensures
        *old(destination) matches Location::Remote(url) ==> r == resolution(
            *source,
            remote_is_dir(url.path),
        ),
        r == resolution(*source, false) || r == resolution(*source, true),
        r == Resolution::Appended ==> final(destination).is_extension_of(
            *old(destination),
            source.name_spec(),
        ),
        r != Resolution::Appended ==> *final(destination) == *old(destination),
{
    let directory = destination.is_dir();
    resolve_as(source, destination, directory)
}

/// The line that is shown before the transfer starts.
pub open spec fn announcement_text(source: Location, destination: Location) -> Seq<char> {
    "copying "@ + source.text() + " to "@ + destination.text()
}

/// Says what is copied where, with the destination as it was resolved.
pub fn announcement(source: &Location, destination: &Location) -> (r: String)
    ensures
        r@ == announcement_text(*source, *destination),
{
    let from = source.to_text();
    let to = destination.to_text();
    "copying ".to_owned().concat(from.as_str()).concat(" to ").concat(to.as_str())
}

/// The steps of one copy, in the order they are taken.
#[derive(Clone, Copy, Debug, PartialEq, Eq, Structural)]
pub enum CopyState {
    /// The destination is being resolved.
    Resolving,
    /// The source stream is being opened.
    OpeningSource,
    /// The sink stream is being opened.
    OpeningSink,
    /// Bytes are moving.
    Transferring,
    /// The sink is being completed.
    Finalizing,
    /// The copy succeeded.
    Done,
    /// A step failed. Nothing is retried: a new copy starts from `Resolving`.
    Failed,
}

impl CopyState {
    /// The state from which every copy starts.
    pub open spec fn initial() -> CopyState {
        CopyState::Resolving
    }

    /// Whether the copy has ended.
    pub open spec fn is_terminal(self) -> bool {
        self == CopyState::Done || self == CopyState::Failed
    }

    /// The state that follows when the step of this state succeeds.
    pub open spec fn successor(self) -> CopyState {
        match self {
            CopyState::Resolving => CopyState::OpeningSource,
            CopyState::OpeningSource => CopyState::OpeningSink,
            CopyState::OpeningSink => CopyState::Transferring,
            CopyState::Transferring => CopyState::Finalizing,
            CopyState::Finalizing => CopyState::Done,
            CopyState::Done => CopyState::Done,
            CopyState::Failed => CopyState::Failed,
        }
    }

    /// The state after the step of this state has ended, well or not.
    pub open spec fn after(self, succeeded: bool) -> CopyState {
        if self.is_terminal() {
            self
        } else if succeeded {
            self.successor()
        } else {
            CopyState::Failed
        }
    }

    /// The state after a run of steps, given how each one ended.
    pub open spec fn after_all(self, outcomes: Seq<bool>) -> CopyState
        decreases outcomes.len(),
    {
        if outcomes.len() == 0 {
            self
        } else {
            self.after(outcomes[0]).after_all(outcomes.skip(1))
        }
    }

    /// How many steps lie between this state and `Done` when none fails.
    pub open spec fn steps_left(self) -> nat {
        match self {
            CopyState::Resolving => 5,
            CopyState::OpeningSource => 4,
            CopyState::OpeningSink => 3,
            CopyState::Transferring => 2,
            CopyState::Finalizing => 1,
            CopyState::Done => 0,
            CopyState::Failed => 0,
        }
    }

    /// The state in which a copy starts.
    pub fn start() -> (r: CopyState)
        ensures
            r == CopyState::initial(),
    {
        CopyState::Resolving
    }

    /// Whether the copy has ended, in success or in failure.
    pub fn ended(self) -> (r: bool)
        ensures
            r == self.is_terminal(),
    {
        self == CopyState::Done || self == CopyState::Failed
    }

    /// Moves on when the step of this state has ended: to the next step
    /// where it succeeded, to `Failed` where it did not. An ended copy
    /// stays as it is.
    pub fn advance(self, succeeded: bool) -> (r: CopyState)
        ensures
            r == self.after(succeeded),
    {
        match self {
            CopyState::Done => CopyState::Done,
            CopyState::Failed => CopyState::Failed,
            _ if !succeeded => CopyState::Failed,
            CopyState::Resolving => CopyState::OpeningSource,
            CopyState::OpeningSource => CopyState::OpeningSink,
            CopyState::OpeningSink => CopyState::Transferring,
            CopyState::Transferring => CopyState::Finalizing,
            CopyState::Finalizing => CopyState::Done,
        }
    }
}

/// A copy that has ended stays ended, whatever is reported to it.
pub proof fn lemma_terminal_is_absorbing(state: CopyState, outcomes: Seq<bool>)
    requires
        state.is_terminal(),
    ensures
        state.after_all(outcomes) == state,
    decreases outcomes.len(),
{
    if outcomes.len() > 0 {
        lemma_terminal_is_absorbing(state, outcomes.skip(1));
    }
}

/// One failed step ends the copy in `Failed`, from any state but `Done`,
/// and nothing that follows brings it back.
pub proof fn lemma_failure_is_final(state: CopyState, outcomes: Seq<bool>, i: int)
    requires
        0 <= i < outcomes.len(),
        !outcomes[i],
        i < state.steps_left(),
    ensures
        state.after_all(outcomes) == CopyState::Failed,
    decreases outcomes.len(),
{
    if state == CopyState::Failed {
        lemma_terminal_is_absorbing(state, outcomes);
    } else if i == 0 {
        lemma_terminal_is_absorbing(CopyState::Failed, outcomes.skip(1));
    } else if !outcomes[0] {
        lemma_terminal_is_absorbing(CopyState::Failed, outcomes.skip(1));
    } else {
        assert(outcomes.skip(1)[i - 1] == outcomes[i]);
        lemma_failure_is_final(state.successor(), outcomes.skip(1), i - 1);
    }
}

/// A copy whose steps all succeed reaches `Done` after as many steps as
/// were left, and not before.
pub proof fn lemma_success_reaches_done(state: CopyState, outcomes: Seq<bool>)
    requires
        state != CopyState::Failed,
        forall|i: int| 0 <= i < outcomes.len() ==> outcomes[i],
    ensures
        state.after_all(outcomes) == CopyState::Done <==> outcomes.len() >= state.steps_left(),
    decreases outcomes.len(),
{
    if outcomes.len() > 0 {
        assert(outcomes[0]);
        assert forall|i: int| 0 <= i < outcomes.skip(1).len() implies outcomes.skip(1)[i] by {
            assert(outcomes.skip(1)[i] == outcomes[i + 1]);
        }
        lemma_success_reaches_done(state.after(true), outcomes.skip(1));
    }
}

} // verus!
