//! What the stages of the relay have in common: how one ends.

use vstd::prelude::*;

verus! {

/// The ways a stage can fail for good.
#[derive(Debug, Clone, Copy, PartialEq, Eq, Structural)]
pub enum Fault {
    /// The broker could not be reached when the stage started.
    Connect,
    /// The broker refused a subscription.
    Subscribe,
    /// A publish failed because the connection was aborted.
    Publish,
    /// The script engine could not be started or its script run.
    Engine,
}

/// Why a stage ended in failure.
#[derive(Debug)]
pub struct StageError {
    /// What failed.
    pub fault: Fault,
    /// What the failing party said of it, for people to read.
    pub detail: String,
}

/// A stage's failure, its detail by its characters.
pub struct StageErrorView {
    pub fault: Fault,
    pub detail: Seq<char>,
}

impl View for StageError {
    type V = StageErrorView;

    open spec fn view(&self) -> StageErrorView {
        StageErrorView { fault: self.fault, detail: self.detail@ }
    }
}

/// How a stage ended, a failure seen through its view.
pub open spec fn ending_view(ending: Result<(), StageError>) -> Result<(), StageErrorView> {
    match ending {
        Ok(()) => Ok(()),
        Err(error) => Err(error@),
    }
}

/// What an outside party answered: nothing on success, its own words on
/// failure.
pub open spec fn reply_view(reply: Result<(), String>) -> Result<(), Seq<char>> {
    match reply {
        Ok(()) => Ok(()),
        Err(said) => Err(said@),
    }
}

/// The failure that a stage ends with where `fault` struck and the
/// failing party said `detail`.
pub open spec fn failed(fault: Fault, detail: Seq<char>) -> Result<(), StageErrorView> {
    Err(StageErrorView { fault, detail })
}

impl StageError {
    /// The failure `fault`, with what was said of it.
    pub fn new(fault: Fault, detail: String) -> (error: Self)
        ensures
            error@ == (StageErrorView { fault, detail: detail@ }),
    {
        Self { fault, detail }
    }
}

} // verus!
