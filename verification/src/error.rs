//! The one error of the bridge: the stage that failed and the store's words.

use vstd::prelude::*;
use vstd::string::StringExecFns;

verus! {

/// The stage of a call at which the store refused.
#[derive(Clone, Copy, Debug, PartialEq, Eq, Structural)]
pub enum Stage {
    /// Opening the connection.
    Open,
    /// Preparing the statement.
    Prepare,
    /// Binding the parameters and starting a reading statement.
    Query,
    /// Fetching a row of a reading statement.
    Collect,
    /// Binding the parameters and running a writing statement.
    Execute,
}

/// A failed call: where it failed and what the store said.
#[derive(Debug, PartialEq, Eq)]
pub struct ExecutionError {
    pub stage: Stage,
    pub detail: String,
}

impl View for ExecutionError {
    type V = (Stage, Seq<char>);

    open spec fn view(&self) -> (Stage, Seq<char>) {
        (self.stage, self.detail@)
    }
}

/// The words that introduce a failure of each stage.
pub open spec fn prefix_of(stage: Stage) -> Seq<char> {
    match stage {
        Stage::Open => "Failed to open database: "@,
        Stage::Prepare => "Failed to prepare statement: "@,
        Stage::Query => "Query failed: "@,
        Stage::Collect => "Failed to collect rows: "@,
        Stage::Execute => "Execute failed: "@,
    }
}

/// The message of a failure: the words of its stage, then the store's.
pub open spec fn message_of(error: (Stage, Seq<char>)) -> Seq<char> {
    prefix_of(error.0) + error.1
}

impl ExecutionError {
    /// The message that the caller is shown.
    pub fn message(&self) -> (text: String)
        ensures
            text@ == message_of(self@),
    {
        let prefix = match self.stage {
            Stage::Open => "Failed to open database: ",
            Stage::Prepare => "Failed to prepare statement: ",
            Stage::Query => "Query failed: ",
            Stage::Collect => "Failed to collect rows: ",
            Stage::Execute => "Execute failed: ",
        };
        String::from_str(prefix).concat(self.detail.as_str())
    }
}

} // verus!
