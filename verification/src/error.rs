//! The error taxonomy of the grading pipeline, and the user-facing message of
//! each error.

use vstd::prelude::*;

use crate::model::{results_view, TestCaseResult, TestCaseResultView};
use crate::text::dec_str;
use crate::text::u64_to_string;

verus! {

/// Every external-tool invocation — each compile step and the execution — is
/// bounded by this single wall-clock limit, in seconds.
pub const TIMEOUT_SECONDS: u64 = 10;

/// An error that arises while a submission is checked.
#[derive(Clone, PartialEq, Debug)]
pub enum SubmissionError {
    /// A fault of the service, not of the user: a failed file operation, a
    /// process that could not be spawned or waited on, a harness whose output
    /// broke the wire protocol, a tool that exited with an unexpected code.
    /// Carries no message: the user can do nothing with one.
    Internal,
    /// The submitted solution did not compile; the payload is the compiler's
    /// diagnostic with the job directory scrubbed out of it.
    Compilation(String),
    /// A compile step exceeded the timeout limit; the payload is that limit in
    /// seconds.
    CompileTimeout(u64),
    /// The execution exceeded the timeout limit; the payload is that limit in
    /// seconds.
    ExecuteTimeout(u64),
    /// The submission ran but did not pass every test case; the payload holds
    /// one verdict per test case, in order.
    Failure(Vec<TestCaseResult>),
    /// The execution process stopped with an error of its own, such as a
    /// syntax error in an interpreted language.
    Execution(String),
}

/// Mathematical image of a [`SubmissionError`].
#[verifier::ext_equal]
pub enum SubmissionErrorView {
    Internal,
    Compilation(Seq<char>),
    CompileTimeout(u64),
    ExecuteTimeout(u64),
    Failure(Seq<TestCaseResultView>),
    Execution(Seq<char>),
}

impl View for SubmissionError {
    type V = SubmissionErrorView;

    open spec fn view(&self) -> SubmissionErrorView {
        match self {
            SubmissionError::Internal => SubmissionErrorView::Internal,
            SubmissionError::Compilation(msg) => SubmissionErrorView::Compilation(msg@),
            SubmissionError::CompileTimeout(s) => SubmissionErrorView::CompileTimeout(*s),
            SubmissionError::ExecuteTimeout(s) => SubmissionErrorView::ExecuteTimeout(*s),
            SubmissionError::Failure(rs) => SubmissionErrorView::Failure(results_view(rs@)),
            SubmissionError::Execution(msg) => SubmissionErrorView::Execution(msg@),
        }
    }
}

/// The user-facing message of each error, word for word.
pub open spec fn message_spec(e: SubmissionErrorView) -> Seq<char> {
    match e {
        SubmissionErrorView::Internal => "an internal server error occurred"@,
        SubmissionErrorView::Compilation(msg) => "an error occurred during compilation: "@ + msg,
        SubmissionErrorView::CompileTimeout(s) => "compilation exceeded the timeout limit of "@
            + dec_str(s as int) + "s"@,
        SubmissionErrorView::ExecuteTimeout(s) => "execution exceeded the timeout limit of "@
            + dec_str(s as int) + "s"@,
        SubmissionErrorView::Failure(_) => "the submission did not pass all test cases"@,
        SubmissionErrorView::Execution(msg) => "an error occurred during execution: "@ + msg,
    }
}

impl SubmissionError {
    /// The user-facing message of this error.
    pub fn message(&self) -> (r: String)
        ensures
            r@ == message_spec(self@),
    {
        match self {
            SubmissionError::Internal => {
                let r = "an internal server error occurred".to_owned();
                assert(r@ =~= message_spec(self@));
                r
            },
            SubmissionError::Compilation(msg) => {
                let mut r = "an error occurred during compilation: ".to_owned();
                r.append(msg.as_str());
                assert(r@ =~= message_spec(self@));
                r
            },
            SubmissionError::CompileTimeout(s) => {
                let mut r = "compilation exceeded the timeout limit of ".to_owned();
                let digits = u64_to_string(*s);
                r.append(digits.as_str());
                r.append("s");
                assert(r@ =~= message_spec(self@));
                r
            },
            SubmissionError::ExecuteTimeout(s) => {
                let mut r = "execution exceeded the timeout limit of ".to_owned();
                let digits = u64_to_string(*s);
                r.append(digits.as_str());
                r.append("s");
                assert(r@ =~= message_spec(self@));
                r
            },
            SubmissionError::Failure(_) => {
                let r = "the submission did not pass all test cases".to_owned();
                assert(r@ =~= message_spec(self@));
                r
            },
            SubmissionError::Execution(msg) => {
                let mut r = "an error occurred during execution: ".to_owned();
                r.append(msg.as_str());
                assert(r@ =~= message_spec(self@));
                r
            },
        }
    }
}


/// Path scrubbing carries through to the user: no occurrence of the job
/// directory's absolute path appears in a user-visible error message, as long
/// as none appears in the diagnostic payload the error carries — every fixed
/// part of every message is free of path separators.
pub proof fn lemma_message_free_of_dir(e: SubmissionErrorView, dir: Seq<char>)
    requires
        dir.len() > 0,
        dir[0] == '/',
        match e {
            SubmissionErrorView::Compilation(msg) => !crate::text::contains_seq(msg, dir),
            SubmissionErrorView::Execution(msg) => !crate::text::contains_seq(msg, dir),
            _ => true,
        },
    ensures
        !crate::text::contains_seq(message_spec(e), dir),
{
    match e {
        SubmissionErrorView::Internal => {
            reveal_strlit("an internal server error occurred");
            crate::text::lemma_no_head_no_match("an internal server error occurred"@, dir);
        },
        SubmissionErrorView::Compilation(msg) => {
            reveal_strlit("an error occurred during compilation: ");
            crate::text::lemma_contains_in_suffix(
                "an error occurred during compilation: "@,
                msg,
                dir,
            );
        },
        SubmissionErrorView::CompileTimeout(s) => {
            reveal_strlit("compilation exceeded the timeout limit of ");
            reveal_strlit("s");
            crate::text::lemma_dec_str_avoids(s as int, '/');
            let prefix = "compilation exceeded the timeout limit of "@;
            let digits = dec_str(s as int);
            let m = message_spec(e);
            assert forall|i: int| 0 <= i < m.len() implies m[i] != '/' by {
                if i < prefix.len() {
                    assert(m[i] == prefix[i]);
                } else if i < prefix.len() + digits.len() {
                    assert(m[i] == (prefix + digits)[i]);
                    assert((prefix + digits)[i] == digits[i - prefix.len()]);
                } else {
                    assert(m[i] == "s"@[i - prefix.len() - digits.len()]);
                }
            }
            crate::text::lemma_no_head_no_match(m, dir);
        },
        SubmissionErrorView::ExecuteTimeout(s) => {
            reveal_strlit("execution exceeded the timeout limit of ");
            reveal_strlit("s");
            crate::text::lemma_dec_str_avoids(s as int, '/');
            let prefix = "execution exceeded the timeout limit of "@;
            let digits = dec_str(s as int);
            let m = message_spec(e);
            assert forall|i: int| 0 <= i < m.len() implies m[i] != '/' by {
                if i < prefix.len() {
                    assert(m[i] == prefix[i]);
                } else if i < prefix.len() + digits.len() {
                    assert(m[i] == (prefix + digits)[i]);
                    assert((prefix + digits)[i] == digits[i - prefix.len()]);
                } else {
                    assert(m[i] == "s"@[i - prefix.len() - digits.len()]);
                }
            }
            crate::text::lemma_no_head_no_match(m, dir);
        },
        SubmissionErrorView::Failure(_) => {
            reveal_strlit("the submission did not pass all test cases");
            crate::text::lemma_no_head_no_match("the submission did not pass all test cases"@, dir);
        },
        SubmissionErrorView::Execution(msg) => {
            reveal_strlit("an error occurred during execution: ");
            crate::text::lemma_contains_in_suffix(
                "an error occurred during execution: "@,
                msg,
                dir,
            );
        },
    }
}

} // verus!
