//! The data model of the grading service: submissions and test cases coming
//! in, per-test-case verdicts going out.  The types are agnostic of the target
//! language being graded.

use vstd::prelude::*;

verus! {

/// The allowed types of a parameter value.
#[derive(Clone, Copy, PartialEq, Eq, Structural, Debug)]
pub enum ParameterType {
    /// A boolean value, written `"true"` or `"false"`.
    Bool,
    /// A signed integer in decimal.
    Int,
    /// A floating-point value in decimal, with a fractional part.
    Float,
    /// A single character.
    Char,
    /// A string of raw text.
    String,
}

/// One argument or expected value of a test case, in canonical textual form.
#[derive(Clone, PartialEq, Debug)]
#[verifier::ext_equal]
pub struct Parameter {
    /// The type the textual value is to be read at.
    pub value_type: ParameterType,
    /// The value itself, in the canonical external form of its type.
    pub value: String,
}

/// Mathematical image of a [`Parameter`].
#[verifier::ext_equal]
pub struct ParameterView {
    pub value_type: ParameterType,
    pub value: Seq<char>,
}

impl View for Parameter {
    type V = ParameterView;

    open spec fn view(&self) -> ParameterView {
        ParameterView { value_type: self.value_type, value: self.value@ }
    }
}

/// The views of a sequence of parameters.
pub open spec fn params_view(ps: Seq<Parameter>) -> Seq<ParameterView> {
    ps.map_values(|p: Parameter| p@)
}

/// One test case: input arguments for the submitted solution and the values a
/// correct solution returns for them.
#[derive(Clone, PartialEq, Debug)]
pub struct TestCase {
    /// Stable identifier, echoed back unchanged in the matching result.
    pub id: u64,
    /// The arguments the solution is called with, in order.
    pub input_parameters: Vec<Parameter>,
    /// The expected values, in order.
    pub output_parameters: Vec<Parameter>,
}

/// Mathematical image of a [`TestCase`].
#[verifier::ext_equal]
pub struct TestCaseView {
    pub id: u64,
    pub input_parameters: Seq<ParameterView>,
    pub output_parameters: Seq<ParameterView>,
}

impl View for TestCase {
    type V = TestCaseView;

    open spec fn view(&self) -> TestCaseView {
        TestCaseView {
            id: self.id,
            input_parameters: params_view(self.input_parameters@),
            output_parameters: params_view(self.output_parameters@),
        }
    }
}

/// The views of a sequence of test cases.
pub open spec fn cases_view(cs: Seq<TestCase>) -> Seq<TestCaseView> {
    cs.map_values(|c: TestCase| c@)
}

/// A submission: the user's program together with the test cases it is graded
/// against, in execution order.
#[derive(Clone, PartialEq, Debug)]
pub struct Submission {
    /// Source text of the user's program.
    pub solution: String,
    /// The test cases, in the order they are run and reported.
    pub test_cases: Vec<TestCase>,
}

/// Mathematical image of a [`Submission`].
#[verifier::ext_equal]
pub struct SubmissionView {
    pub solution: Seq<char>,
    pub test_cases: Seq<TestCaseView>,
}

impl View for Submission {
    type V = SubmissionView;

    open spec fn view(&self) -> SubmissionView {
        SubmissionView {
            solution: self.solution@,
            test_cases: cases_view(self.test_cases@),
        }
    }
}

/// Why a test case did not pass.
#[derive(Clone, PartialEq, Debug)]
pub enum TestCaseFailureReason {
    /// The solution returned a value other than the expected one.  Both sides
    /// are carried in the graded language's native rendering.
    WrongAnswer {
        /// The inputs of the test case, echoed for error feedback.
        input_parameters: Vec<Parameter>,
        /// What the solution returned.
        actual: String,
        /// What it should have returned.
        expected: String,
    },
    /// The solution raised an error on this test case; the payload is the
    /// short diagnostic the harness reported.
    RuntimeError(String),
}

/// Mathematical image of a [`TestCaseFailureReason`].
#[verifier::ext_equal]
pub enum TestCaseFailureReasonView {
    WrongAnswer { input_parameters: Seq<ParameterView>, actual: Seq<char>, expected: Seq<char> },
    RuntimeError(Seq<char>),
}

impl View for TestCaseFailureReason {
    type V = TestCaseFailureReasonView;

    open spec fn view(&self) -> TestCaseFailureReasonView {
        match self {
            TestCaseFailureReason::WrongAnswer { input_parameters, actual, expected } => {
                TestCaseFailureReasonView::WrongAnswer {
                    input_parameters: params_view(input_parameters@),
                    actual: actual@,
                    expected: expected@,
                }
            },
            TestCaseFailureReason::RuntimeError(details) => {
                TestCaseFailureReasonView::RuntimeError(details@)
            },
        }
    }
}

/// The verdict of one test case.
#[derive(Clone, PartialEq, Debug)]
pub enum TestResult {
    /// The solution returned the expected value.
    Pass,
    /// The test case never ran, because an earlier one halted the harness.
    Unknown,
    /// The test case ran and did not pass.
    Failure(TestCaseFailureReason),
}

/// Mathematical image of a [`TestResult`].
#[verifier::ext_equal]
pub enum TestResultView {
    Pass,
    Unknown,
    Failure(TestCaseFailureReasonView),
}

impl View for TestResult {
    type V = TestResultView;

    open spec fn view(&self) -> TestResultView {
        match self {
            TestResult::Pass => TestResultView::Pass,
            TestResult::Unknown => TestResultView::Unknown,
            TestResult::Failure(reason) => TestResultView::Failure(reason@),
        }
    }
}

/// The verdict of one test case, tagged with the test case's identifier.
#[derive(Clone, PartialEq, Debug)]
pub struct TestCaseResult {
    /// Copied from the test case this verdict belongs to.
    pub id: u64,
    /// The verdict itself.
    pub test_result: TestResult,
}

/// Mathematical image of a [`TestCaseResult`].
#[verifier::ext_equal]
pub struct TestCaseResultView {
    pub id: u64,
    pub test_result: TestResultView,
}

impl View for TestCaseResult {
    type V = TestCaseResultView;

    open spec fn view(&self) -> TestCaseResultView {
        TestCaseResultView { id: self.id, test_result: self.test_result@ }
    }
}

/// The views of a sequence of test case results.
pub open spec fn results_view(rs: Seq<TestCaseResult>) -> Seq<TestCaseResultView> {
    rs.map_values(|r: TestCaseResult| r@)
}

impl Parameter {
    /// A copy of this parameter, provably equal to the original.
    pub fn duplicate(&self) -> (r: Parameter)
        ensures
            r == *self,
    {
        let r = Parameter { value_type: self.value_type, value: self.value.clone() };
        proof {
            assert(r =~= *self);
        }
        r
    }
}

/// A copy of `ps` whose views provably equal the originals'.
pub fn duplicate_parameters(ps: &Vec<Parameter>) -> (r: Vec<Parameter>)
    ensures
        params_view(r@) == params_view(ps@),
{
    let mut r: Vec<Parameter> = Vec::new();
    let mut k: usize = 0;
    while k < ps.len()
        invariant
            k <= ps.len(),
            params_view(r@) =~= params_view(ps@).take(k as int),
        decreases ps.len() - k,
    {
        let p = ps[k].duplicate();
        let ghost r0 = r@;
        r.push(p);
        proof {
            assert(params_view(r0).len() == k as int);
            assert(r0.len() == k as int);
            assert(r@ == r0.push(p));
            assert forall|i: int| 0 <= i < r@.len() implies params_view(r@)[i] == params_view(
                ps@,
            ).take(k + 1)[i] by {
                if i < k {
                    assert(r@[i] == r0[i]);
                    assert(params_view(r0)[i] == params_view(ps@).take(k as int)[i]);
                } else {
                    assert(r@[i] == p);
                }
            }
            assert(params_view(r@) =~= params_view(ps@).take(k + 1));
        }
        k = k + 1;
    }
    proof {
        assert(params_view(ps@).take(ps@.len() as int) =~= params_view(ps@));
    }
    r
}

} // verus!
