//! The two execution models a run can be measured under, and the names by
//! which a configuration selects them.

use vstd::prelude::*;
use vstd::string::StringExecFns;

verus! {

/// How the scheduler that resumes the yielding task is organised.
///
/// The choice is made once, before any task exists, and never changes.
#[derive(Copy, Clone, Debug, PartialEq, Eq, Structural, PartialOrd, Ord, Hash)]
pub enum ExecutionModel {
    /// One logical thread: a task that yields is resumed on that same thread.
    SingleThreadedCooperative,
    /// A pool of worker threads sharing the ready tasks: a task that yields may
    /// be resumed on any worker.
    MultiThreadedWorkStealing,
}

impl ExecutionModel {
    /// The configuration value that selects this model.
    pub open spec fn token(self) -> Seq<char> {
        match self {
            ExecutionModel::SingleThreadedCooperative => "current"@,
            ExecutionModel::MultiThreadedWorkStealing => "multi"@,
        }
    }

    /// The model that a configuration value selects, if it selects one.
    /// Matching is exact: no trimming, no folding of case.
    pub open spec fn selected_by(value: Seq<char>) -> Option<ExecutionModel> {
        if value == "current"@ {
            Some(ExecutionModel::SingleThreadedCooperative)
        } else if value == "multi"@ {
            Some(ExecutionModel::MultiThreadedWorkStealing)
        } else {
            None
        }
    }

    /// The configuration value that selects this model.
    pub fn name(self) -> (name: &'static str)
        ensures
            name@ == self.token(),
    {
        match self {
            ExecutionModel::SingleThreadedCooperative => "current",
            ExecutionModel::MultiThreadedWorkStealing => "multi",
        }
    }

    /// Reads a configuration value. `None` is the configuration error: the
    /// value names neither model, and nothing may be scheduled.
    pub fn from_name(value: &str) -> (model: Option<ExecutionModel>)
        ensures
            model == Self::selected_by(value@),
    {
        let given = String::from_str(value);
        if given == String::from_str("current") {
            Some(ExecutionModel::SingleThreadedCooperative)
        } else if given == String::from_str("multi") {
            Some(ExecutionModel::MultiThreadedWorkStealing)
        } else {
            None
        }
    }
}

/// Every model is selected by its own name, and by no other value.
pub proof fn lemma_name_selects_model(model: ExecutionModel, value: Seq<char>)
    ensures
        ExecutionModel::selected_by(model.token()) == Some(model),
        ExecutionModel::selected_by(value) == Some(model) <==> value == model.token(),
{
    reveal_strlit("current");
    reveal_strlit("multi");
    assert("current"@.len() != "multi"@.len());
}

} // verus!
