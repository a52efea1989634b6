//! Replacing the backing file.
//!
//! A save never writes the backing file directly. The new contents go to a
//! temporary file beside it, the temporary file is copied onto the backing
//! file, and the temporary file is removed. The first operation that fails
//! ends the save. The operations themselves are the caller's; this module
//! says what to write where, and which operation comes next.

use vstd::prelude::*;
use vstd::string::StringExecFns;

verus! {

/// The name of the temporary file that belongs to `file_name`.
pub open spec fn temp_name_of(file_name: Seq<char>) -> Seq<char> {
    file_name + ".updated"@
}

/// What one save writes, and where.
#[derive(Debug)]
pub struct SavePlan {
    /// The backing file.
    pub file_name: String,
    /// The temporary file, in the same directory as the backing file.
    pub temp_name: String,
    /// The full new contents of the backing file.
    pub contents: String,
}

impl SavePlan {
    /// The plan that replaces `file_name` with `contents`.
    pub fn new(file_name: &str, contents: String) -> (plan: SavePlan)
        ensures
            plan.file_name@ == file_name@,
            plan.temp_name@ == temp_name_of(file_name@),
            plan.contents == contents,
    {
        let mut temp_name = file_name.to_owned();
        temp_name.append(".updated");
        SavePlan { file_name: file_name.to_owned(), temp_name, contents }
    }
}

/// One file operation of a save.
#[derive(Clone, Copy, Debug, PartialEq, Eq, Structural)]
pub enum SaveStep {
    /// Create or truncate the temporary file and write the contents to it.
    WriteTemp,
    /// Copy the temporary file onto the backing file.
    CopyToTarget,
    /// Remove the temporary file.
    RemoveTemp,
}

/// Why a save did not complete.
#[derive(Clone, Copy, Debug, PartialEq, Eq, Structural)]
pub enum SaveError {
    /// The tree could not be rendered as text; no file was touched. The
    /// store never reports it: rendering a tree of strings does not fail.
    Render,
    /// The temporary file could not be created or written.
    WriteTemp,
    /// The temporary file could not be copied onto the backing file.
    CopyToTarget,
    /// The temporary file could not be removed.
    RemoveTemp,
}

/// How far a save has come.
#[derive(Clone, Copy, Debug, PartialEq, Eq, Structural)]
pub enum SaveState {
    /// The given operation is to be carried out next.
    Run(SaveStep),
    /// All operations succeeded.
    Saved,
    /// An operation failed and the save was abandoned.
    Failed(SaveError),
}

/// The error that a failure of `step` amounts to.
pub open spec fn failure_of(step: SaveStep) -> SaveError {
    match step {
        SaveStep::WriteTemp => SaveError::WriteTemp,
        SaveStep::CopyToTarget => SaveError::CopyToTarget,
        SaveStep::RemoveTemp => SaveError::RemoveTemp,
    }
}

/// The state that follows `state` once its operation has succeeded or
/// failed. A save that is over stays as it is.
pub open spec fn after(state: SaveState, succeeded: bool) -> SaveState {
    match state {
        SaveState::Run(step) => if !succeeded {
            SaveState::Failed(failure_of(step))
        } else {
            match step {
                SaveStep::WriteTemp => SaveState::Run(SaveStep::CopyToTarget),
                SaveStep::CopyToTarget => SaveState::Run(SaveStep::RemoveTemp),
                SaveStep::RemoveTemp => SaveState::Saved,
            }
        },
        _ => state,
    }
}

/// The state reached from `state` when the operations carried out one after
/// another end as `outcomes` says.
pub open spec fn after_all(state: SaveState, outcomes: Seq<bool>) -> SaveState
    decreases outcomes.len(),
{
    if outcomes.len() == 0 {
        state
    } else {
        after_all(after(state, outcomes.first()), outcomes.drop_first())
    }
}

/// The operations of a save, in the order in which they are carried out.
pub open spec fn steps() -> Seq<SaveStep> {
    seq![SaveStep::WriteTemp, SaveStep::CopyToTarget, SaveStep::RemoveTemp]
}

/// A save that is over stays as it ended, whatever is reported afterwards.
pub proof fn lemma_over_stays(state: SaveState, outcomes: Seq<bool>)
    requires
        !(state is Run),
    ensures
        after_all(state, outcomes) == state,
    decreases outcomes.len(),
{
    if outcomes.len() > 0 {
        lemma_over_stays(state, outcomes.drop_first());
    }
}

/// As long as every operation succeeds, the operations come in the order of
/// [`steps`]: after `n` successes, fewer than there are operations, the
/// next one is due.
pub proof fn lemma_steps_in_order(outcomes: Seq<bool>)
    requires
        outcomes.len() < steps().len(),
        forall|i: int| 0 <= i < outcomes.len() ==> outcomes[i],
    ensures
        after_all(SaveState::Run(SaveStep::WriteTemp), outcomes) == SaveState::Run(
            steps()[outcomes.len() as int],
        ),
{
    reveal_with_fuel(after_all, 3);
}

/// A save ends as saved exactly when its three operations, in turn, all
/// succeed.
pub proof fn lemma_saved_iff_all_succeed(outcomes: Seq<bool>)
    ensures
        after_all(SaveState::Run(SaveStep::WriteTemp), outcomes) == SaveState::Saved <==> (
        outcomes.len() >= 3 && outcomes[0] && outcomes[1] && outcomes[2]),
{
    reveal_with_fuel(after_all, 4);
    let start = SaveState::Run(SaveStep::WriteTemp);
    if outcomes.len() >= 1 {
        let rest1 = outcomes.drop_first();
        if !outcomes[0] {
            lemma_over_stays(after(start, false), rest1);
        } else if outcomes.len() >= 2 {
            let rest2 = rest1.drop_first();
            if !outcomes[1] {
                lemma_over_stays(SaveState::Failed(SaveError::CopyToTarget), rest2);
            } else if outcomes.len() >= 3 {
                let rest3 = rest2.drop_first();
                if !outcomes[2] {
                    lemma_over_stays(SaveState::Failed(SaveError::RemoveTemp), rest3);
                } else {
                    lemma_over_stays(SaveState::Saved, rest3);
                }
            }
        }
    }
}

/// The first operation that fails ends the save with its error; none of the
/// operations after it is asked for.
pub proof fn lemma_first_failure_ends(outcomes: Seq<bool>, k: int)
    requires
        0 <= k < steps().len(),
        k < outcomes.len(),
        forall|i: int| 0 <= i < k ==> outcomes[i],
        !outcomes[k],
    ensures
        after_all(SaveState::Run(SaveStep::WriteTemp), outcomes) == SaveState::Failed(
            failure_of(steps()[k]),
        ),
{
    reveal_with_fuel(after_all, 4);
    let rest1 = outcomes.drop_first();
    if k == 0 {
        lemma_over_stays(SaveState::Failed(SaveError::WriteTemp), rest1);
    } else {
        let rest2 = rest1.drop_first();
        if k == 1 {
            lemma_over_stays(SaveState::Failed(SaveError::CopyToTarget), rest2);
        } else {
            lemma_over_stays(SaveState::Failed(SaveError::RemoveTemp), rest2.drop_first());
        }
    }
}

impl SaveState {
    /// The state in which every save begins.
    pub fn start() -> (state: SaveState)
        ensures
            state == SaveState::Run(SaveStep::WriteTemp),
    {
        SaveState::Run(SaveStep::WriteTemp)
    }

    /// The state after the pending operation has ended.
    pub fn advance(self, succeeded: bool) -> (next: SaveState)
        ensures
            next == after(self, succeeded),
    {
        match self {
            SaveState::Run(step) => {
                if !succeeded {
                    match step {
                        SaveStep::WriteTemp => SaveState::Failed(SaveError::WriteTemp),
                        SaveStep::CopyToTarget => SaveState::Failed(SaveError::CopyToTarget),
                        SaveStep::RemoveTemp => SaveState::Failed(SaveError::RemoveTemp),
                    }
                } else {
                    match step {
                        SaveStep::WriteTemp => SaveState::Run(SaveStep::CopyToTarget),
                        SaveStep::CopyToTarget => SaveState::Run(SaveStep::RemoveTemp),
                        SaveStep::RemoveTemp => SaveState::Saved,
                    }
                }
            },
            SaveState::Saved => SaveState::Saved,
            SaveState::Failed(error) => SaveState::Failed(error),
        }
    }
}

} // verus!
