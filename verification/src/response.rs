//! The outward-facing result of checking a submission, and the mapping from
//! the internal error taxonomy onto it.

use vstd::prelude::*;

use crate::error::{message_spec, SubmissionError, SubmissionErrorView};
use crate::model::{TestCaseResult, TestCaseResultView};

verus! {

/// What a request is answered with once a submission has been checked.
#[derive(Clone, PartialEq, Debug)]
pub enum SubmissionResult {
    /// Every test case passed.
    Pass,
    /// Not every test case passed; the payload holds one verdict per test
    /// case, in order, passed cases included.
    Failure(Vec<TestCaseResult>),
    /// A fault the user is responsible for — a compilation error, a timeout,
    /// an execution error — with its user-facing message.
    Error(String),
    /// A fault of the service.  Never carried in a response body: the shell
    /// answers it with a bare server-error status.
    InternalError,
}

/// Mathematical image of a [`SubmissionResult`].
#[verifier::ext_equal]
pub enum SubmissionResultView {
    Pass,
    Failure(Seq<TestCaseResultView>),
    Error(Seq<char>),
    InternalError,
}

impl View for SubmissionResult {
    type V = SubmissionResultView;

    open spec fn view(&self) -> SubmissionResultView {
        match self {
            SubmissionResult::Pass => SubmissionResultView::Pass,
            SubmissionResult::Failure(rs) => SubmissionResultView::Failure(
                crate::model::results_view(rs@),
            ),
            SubmissionResult::Error(msg) => SubmissionResultView::Error(msg@),
            SubmissionResult::InternalError => SubmissionResultView::InternalError,
        }
    }
}

/// How each error maps onto a response: internal faults stay opaque, a failed
/// check keeps its per-case verdicts, and every user-attributable error
/// becomes its message.
pub open spec fn result_of_error(e: SubmissionErrorView) -> SubmissionResultView {
    match e {
        SubmissionErrorView::Internal => SubmissionResultView::InternalError,
        SubmissionErrorView::Failure(rs) => SubmissionResultView::Failure(rs),
        _ => SubmissionResultView::Error(message_spec(e)),
    }
}

impl SubmissionResult {
    /// Maps an error onto the response it is answered with.
    pub fn from(err: SubmissionError) -> (r: SubmissionResult)
        ensures
            r@ == result_of_error(err@),
    {
        match err {
            SubmissionError::Internal => SubmissionResult::InternalError,
            SubmissionError::Failure(rs) => SubmissionResult::Failure(rs),
            other => {
                let msg = other.message();
                SubmissionResult::Error(msg)
            },
        }
    }
}

/// The response of one whole request, as decided after the check has run and
/// the job directory has been torn down: a teardown failure overrides any
/// outcome with an internal fault; otherwise a clean check is a pass and an
/// error maps through [`result_of_error`].
pub open spec fn submit_outcome_spec(
    check_result: Result<(), SubmissionErrorView>,
    teardown_ok: bool,
) -> SubmissionResultView {
    if !teardown_ok {
        SubmissionResultView::InternalError
    } else {
        match check_result {
            Ok(_) => SubmissionResultView::Pass,
            Err(e) => result_of_error(e),
        }
    }
}

/// Decides the response of a request from the check's outcome and whether the
/// job directory could be removed.
pub fn submit_outcome(check_result: Result<(), SubmissionError>, teardown_ok: bool) -> (r:
    SubmissionResult)
    ensures
        r@ == submit_outcome_spec(
            match check_result {
                Ok(_) => Ok(()),
                Err(e) => Err(e@),
            },
            teardown_ok,
        ),
{
    if !teardown_ok {
        SubmissionResult::InternalError
    } else {
        match check_result {
            Ok(_) => SubmissionResult::Pass,
            Err(e) => SubmissionResult::from(e),
        }
    }
}

} // verus!
