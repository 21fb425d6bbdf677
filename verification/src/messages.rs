//! The work handed to database workers, and their replies.

use vstd::prelude::*;

use crate::query::QueryResult;

verus! {

/// A unit of work for a worker, named by the positions of its suite and case:
/// run a suite's skip clause, run a case's skip clause, or run a case.
#[derive(Debug, Clone, Copy, PartialEq, Eq, Structural)]
pub enum WorkerMessage {
    SuiteSkip { suite_index: usize },
    CaseSkip { suite_index: usize, case_index: usize },
    CaseRun { suite_index: usize, case_index: usize },
}

impl WorkerMessage {
    pub fn suite_skip(suite_index: usize) -> (m: WorkerMessage)
        ensures
            m == (WorkerMessage::SuiteSkip { suite_index }),
    {
        WorkerMessage::SuiteSkip { suite_index }
    }

    pub fn case_skip(suite_index: usize, case_index: usize) -> (m: WorkerMessage)
        ensures
            m == (WorkerMessage::CaseSkip { suite_index, case_index }),
    {
        WorkerMessage::CaseSkip { suite_index, case_index }
    }

    pub fn case_run(suite_index: usize, case_index: usize) -> (m: WorkerMessage)
        ensures
            m == (WorkerMessage::CaseRun { suite_index, case_index }),
    {
        WorkerMessage::CaseRun { suite_index, case_index }
    }
}

/// A worker's answer to a message: the result of the query it ran.
#[derive(Debug)]
pub enum WorkerReply {
    SuiteSkip { suite_index: usize, result: QueryResult },
    CaseSkip { suite_index: usize, case_index: usize, result: QueryResult },
    CaseRun { suite_index: usize, case_index: usize, result: QueryResult },
}

/// The message that a reply answers.
pub open spec fn answered_message(reply: WorkerReply) -> WorkerMessage {
    match reply {
        WorkerReply::SuiteSkip { suite_index, .. } => WorkerMessage::SuiteSkip { suite_index },
        WorkerReply::CaseSkip { suite_index, case_index, .. } => WorkerMessage::CaseSkip {
            suite_index,
            case_index,
        },
        WorkerReply::CaseRun { suite_index, case_index, .. } => WorkerMessage::CaseRun {
            suite_index,
            case_index,
        },
    }
}

/// The result that a reply carries.
pub open spec fn reply_result(reply: WorkerReply) -> QueryResult {
    match reply {
        WorkerReply::SuiteSkip { result, .. } => result,
        WorkerReply::CaseSkip { result, .. } => result,
        WorkerReply::CaseRun { result, .. } => result,
    }
}

impl WorkerReply {
    pub fn suite_skip(suite_index: usize, result: QueryResult) -> (r: WorkerReply)
        ensures
            r == (WorkerReply::SuiteSkip { suite_index, result }),
    {
        WorkerReply::SuiteSkip { suite_index, result }
    }

    pub fn case_skip(suite_index: usize, case_index: usize, result: QueryResult) -> (r: WorkerReply)
        ensures
            r == (WorkerReply::CaseSkip { suite_index, case_index, result }),
    {
        WorkerReply::CaseSkip { suite_index, case_index, result }
    }

    pub fn case_run(suite_index: usize, case_index: usize, result: QueryResult) -> (r: WorkerReply)
        ensures
            r == (WorkerReply::CaseRun { suite_index, case_index, result }),
    {
        WorkerReply::CaseRun { suite_index, case_index, result }
    }

    /// The message that this reply answers.
    pub fn answered(&self) -> (m: WorkerMessage)
        ensures
            m == answered_message(*self),
    {
        match self {
            WorkerReply::SuiteSkip { suite_index, .. } => WorkerMessage::SuiteSkip {
                suite_index: *suite_index,
            },
            WorkerReply::CaseSkip { suite_index, case_index, .. } => WorkerMessage::CaseSkip {
                suite_index: *suite_index,
                case_index: *case_index,
            },
            WorkerReply::CaseRun { suite_index, case_index, .. } => WorkerMessage::CaseRun {
                suite_index: *suite_index,
                case_index: *case_index,
            },
        }
    }
}

} // verus!
