//! The lifecycle status of the job slot.

use vstd::prelude::*;

verus! {

/// Where the job slot stands.
///
/// `Waiting`: no run has been started yet. `Running`: the builder was started
/// and has not been seen to end. `Finished`: the builder ended and its output
/// was captured. `Error`: the builder could not be started, or waiting for it
/// failed; the text says why.
#[derive(Debug, PartialEq, Eq)]
pub enum JobStatus {
    Waiting,
    Running,
    Finished,
    Error(String),
}

/// The mathematical value of a status.
pub enum StatusView {
    Waiting,
    Running,
    Finished,
    Error(Seq<char>),
}

impl View for JobStatus {
    type V = StatusView;

    open spec fn view(&self) -> StatusView {
        match *self {
            JobStatus::Waiting => StatusView::Waiting,
            JobStatus::Running => StatusView::Running,
            JobStatus::Finished => StatusView::Finished,
            JobStatus::Error(reason) => StatusView::Error(reason@),
        }
    }
}

impl Clone for JobStatus {
    fn clone(&self) -> (copy: Self)
        ensures
            copy == *self,
    {
        match self {
            JobStatus::Waiting => JobStatus::Waiting,
            JobStatus::Running => JobStatus::Running,
            JobStatus::Finished => JobStatus::Finished,
            JobStatus::Error(reason) => JobStatus::Error(reason.clone()),
        }
    }
}

} // verus!
