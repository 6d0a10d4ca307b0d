//! The language-agnostic grading pipeline: assembling the three job files,
//! planning the external-tool invocations, classifying what came back from
//! them, parsing the harness's result protocol and summarising the verdicts.
//!
//! The pipeline itself runs no process and writes no file.  A thin shell
//! performs the plan this module lays out — create the job directory, write
//! the files of [`JobFiles`], run each command of [`RunPlan`] under the
//! timeout — and hands every outcome back to the verified decision functions
//! here.

use vstd::prelude::*;

use crate::error::{SubmissionError, SubmissionErrorView, TIMEOUT_SECONDS};
use crate::model::{
    cases_view, results_view, Parameter, ParameterType, ParameterView, Submission, TestCase,
    TestCaseResult, TestCaseResultView, TestCaseView, TestResult, TestResultView,
};
use crate::text::{contains_seq, lemma_scrub_clean, replace_first, replace_first_spec, scrub,
    split_lines,
    scrub_string};

pub mod haskell;
pub mod parse;
pub mod python;

verus! {

/// The marker in a base harness template that the generated test-case
/// statements replace.
pub const TEST_CASES_TARGET: &'static str = "TEST_CASES";

/// A parameter the formatters accept: a boolean value has at least one
/// character (its first is moved to title case).
pub open spec fn parameter_formattable(p: ParameterView) -> bool {
    p.value_type == ParameterType::Bool ==> p.value.len() > 0
}

pub open spec fn parameters_formattable(ps: Seq<ParameterView>) -> bool {
    forall|i: int| 0 <= i < ps.len() ==> parameter_formattable(ps[i])
}

pub open spec fn case_formattable(c: TestCaseView) -> bool {
    parameters_formattable(c.input_parameters) && parameters_formattable(c.output_parameters)
}

pub open spec fn cases_formattable(cs: Seq<TestCaseView>) -> bool {
    forall|i: int| 0 <= i < cs.len() ==> case_formattable(cs[i])
}

/// One external-tool invocation the shell is to perform.
#[derive(Clone, PartialEq, Debug)]
pub struct ToolCommand {
    /// The program to spawn.
    pub program: String,
    /// Its arguments, in order.
    pub args: Vec<String>,
    /// Whether the process must run under the restricted user account.
    pub restricted: bool,
}

/// Mathematical image of a [`ToolCommand`].
#[verifier::ext_equal]
pub struct ToolCommandView {
    pub program: Seq<char>,
    pub args: Seq<Seq<char>>,
    pub restricted: bool,
}

impl View for ToolCommand {
    type V = ToolCommandView;

    open spec fn view(&self) -> ToolCommandView {
        ToolCommandView {
            program: self.program@,
            args: self.args@.map_values(|a: String| a@),
            restricted: self.restricted,
        }
    }
}

/// One compile invocation of a run plan.
#[derive(Clone, PartialEq, Debug)]
pub struct CompileStep {
    /// The compiler invocation.
    pub command: ToolCommand,
    /// Whether a failure of this step is the user's: a diagnostic of a step
    /// that compiles user-supplied code is reported back; a failure on fixed
    /// helper code is an internal fault.
    pub user_owned: bool,
}

/// Mathematical image of a [`CompileStep`].
#[verifier::ext_equal]
pub struct CompileStepView {
    pub command: ToolCommandView,
    pub user_owned: bool,
}

impl View for CompileStep {
    type V = CompileStepView;

    open spec fn view(&self) -> CompileStepView {
        CompileStepView { command: self.command@, user_owned: self.user_owned }
    }
}

/// Everything the shell runs for one submission: the compile steps in order,
/// then the execution.
#[derive(Clone, PartialEq, Debug)]
pub struct RunPlan {
    /// The compile invocations, to be run in order; empty for an interpreted
    /// target.
    pub compile_steps: Vec<CompileStep>,
    /// The execution of the built (or interpreted) harness.
    pub execute: ToolCommand,
}

/// Mathematical image of a [`RunPlan`].
#[verifier::ext_equal]
pub struct RunPlanView {
    pub compile_steps: Seq<CompileStepView>,
    pub execute: ToolCommandView,
}

impl View for RunPlan {
    type V = RunPlanView;

    open spec fn view(&self) -> RunPlanView {
        RunPlanView {
            compile_steps: self.compile_steps@.map_values(|s: CompileStep| s@),
            execute: self.execute@,
        }
    }
}

/// What one external-tool invocation came to, as the shell reports it back.
#[derive(Clone, PartialEq, Debug)]
pub enum ToolOutcome {
    /// The process exited before the deadline; its exit code (absent when a
    /// signal ended it) and everything it wrote to its two output streams.
    Completed { code: Option<i32>, stdout: String, stderr: String },
    /// The deadline passed; the process was killed and its output discarded.
    TimedOut,
    /// The process could not be spawned or waited on.
    Failed,
}

/// Mathematical image of a [`ToolOutcome`].
#[verifier::ext_equal]
pub enum ToolOutcomeView {
    Completed { code: Option<i32>, stdout: Seq<char>, stderr: Seq<char> },
    TimedOut,
    Failed,
}

impl View for ToolOutcome {
    type V = ToolOutcomeView;

    open spec fn view(&self) -> ToolOutcomeView {
        match self {
            ToolOutcome::Completed { code, stdout, stderr } => ToolOutcomeView::Completed {
                code: *code,
                stdout: stdout@,
                stderr: stderr@,
            },
            ToolOutcome::TimedOut => ToolOutcomeView::TimedOut,
            ToolOutcome::Failed => ToolOutcomeView::Failed,
        }
    }
}

/// Everything specific to one target language, behind one fixed contract: the
/// file layout under the job directory, the fixed helper and template
/// sources, the parameter formatting rules and the compile-and-run plan.
pub trait LanguageHandler: Sized {
    /// The job directory this handler works in.
    spec fn dir_spec(&self) -> Seq<char>;

    /// Where the assembled main harness is written.
    spec fn test_file_path_spec(&self) -> Seq<char>;

    /// Where the user's solution is written.
    spec fn solution_file_path_spec(&self) -> Seq<char>;

    /// Where the fixed test-runner helper is written.
    spec fn test_runner_file_path_spec(&self) -> Seq<char>;

    /// The main-program template, holding the test-case marker.
    spec fn base_test_code_spec(&self) -> Seq<char>;

    /// The fixed helper defining the per-case checker.
    spec fn test_runner_code_spec(&self) -> Seq<char>;

    /// How one parameter is rendered as a target-language literal.
    spec fn format_parameter_spec(&self, p: ParameterView) -> Seq<char>;

    /// The generated harness statements for the given test cases.
    spec fn test_cases_spec(&self, cases: Seq<TestCaseView>) -> Seq<char>;

    /// The compile steps and the execution this handler's toolchain needs.
    spec fn run_plan_spec(&self) -> RunPlanView;

    /// Creates a handler bound to the job directory `temp_dir`.
    fn new(temp_dir: String) -> (r: Self)
        ensures
            r.dir_spec() == temp_dir@,
    ;

    /// The job directory this handler works in.
    fn dir(&self) -> (r: &String)
        ensures
            r@ == self.dir_spec(),
    ;

    /// The path of the main harness file, extension included.
    fn test_file_path(&self) -> (r: String)
        ensures
            r@ == self.test_file_path_spec(),
    ;

    /// The main-program template the generated test cases are inserted into,
    /// in place of [`TEST_CASES_TARGET`].
    fn base_test_code(&self) -> (r: &str)
        ensures
            r@ == self.base_test_code_spec(),
    ;

    /// The path of the solution file, extension included.
    fn solution_file_path(&self) -> (r: String)
        ensures
            r@ == self.solution_file_path_spec(),
    ;

    /// The path of the test-runner helper file, extension included.
    fn test_runner_file_path(&self) -> (r: String)
        ensures
            r@ == self.test_runner_file_path_spec(),
    ;

    /// The fixed source of the test-runner helper, which defines the per-case
    /// checker the harness calls.
    fn test_runner_code(&self) -> (r: &str)
        ensures
            r@ == self.test_runner_code_spec(),
    ;

    /// One harness statement per test case: call the solution on the formatted
    /// inputs, compare against the formatted expected outputs through the
    /// checker, and guard the case so a runtime error is reported on its own
    /// line.  Statements are joined with newlines.
    fn generate_test_cases(&self, test_cases: &Vec<TestCase>) -> (r: String)
        requires
            cases_formattable(cases_view(test_cases@)),
        ensures
            r@ == self.test_cases_spec(cases_view(test_cases@)),
    ;

    /// Renders one parameter as a parenthesised, typed target-language
    /// literal.
    fn format_parameter(&self, parameter: &Parameter) -> (r: String)
        requires
            parameter_formattable(parameter@),
        ensures
            r@ == self.format_parameter_spec(parameter@),
    ;

    /// The compile steps and the execution for this handler's toolchain.
    fn run_plan(&self) -> (r: RunPlan)
        ensures
            r@ == self.run_plan_spec(),
    ;
}

/// The three files the harness assembler produces for one submission, each
/// with the path it belongs at.
#[derive(Clone, PartialEq, Debug)]
pub struct JobFiles {
    /// Where the user's solution goes.
    pub solution_path: String,
    /// The user's solution, verbatim.
    pub solution_code: String,
    /// Where the fixed test-runner helper goes.
    pub test_runner_path: String,
    /// The fixed test-runner helper, verbatim.
    pub test_runner_code: String,
    /// Where the assembled main harness goes.
    pub test_file_path: String,
    /// The handler's template with the marker replaced by the generated
    /// test-case statements.
    pub test_code: String,
}

/// Assembles the three job files for `submission`: the solution verbatim, the
/// handler's fixed test-runner helper, and the harness template with its one
/// test-case marker replaced by the generated statements.
pub fn job_files_for<H: LanguageHandler>(handler: &H, submission: &Submission) -> (r: JobFiles)
    requires
        cases_formattable(cases_view(submission.test_cases@)),
    ensures
        r.solution_path@ == handler.solution_file_path_spec(),
        r.solution_code@ == submission.solution@,
        r.test_runner_path@ == handler.test_runner_file_path_spec(),
        r.test_runner_code@ == handler.test_runner_code_spec(),
        r.test_file_path@ == handler.test_file_path_spec(),
        r.test_code@ == replace_first_spec(
            handler.base_test_code_spec(),
            TEST_CASES_TARGET@,
            handler.test_cases_spec(cases_view(submission.test_cases@)),
        ),
{
    let fragments = handler.generate_test_cases(&submission.test_cases);
    let test_code = replace_first(handler.base_test_code(), TEST_CASES_TARGET, fragments.as_str());
    JobFiles {
        solution_path: handler.solution_file_path(),
        solution_code: submission.solution.clone(),
        test_runner_path: handler.test_runner_file_path(),
        test_runner_code: handler.test_runner_code().to_owned(),
        test_file_path: handler.test_file_path(),
        test_code,
    }
}

/// How a compile step's outcome is read: exit code zero is success; exit code
/// one on a user-owned step is the user's compilation error, reported with
/// the job directory scrubbed out of the diagnostic; a timeout on a
/// user-owned step is the user's; everything else — another exit code, a
/// signal death, any failure on fixed helper code, a wait failure — is an
/// internal fault.
pub open spec fn compile_outcome_spec(
    o: ToolOutcomeView,
    user_owned: bool,
    dir: Seq<char>,
) -> Result<(), SubmissionErrorView> {
    match o {
        ToolOutcomeView::Completed { code, stdout, stderr } => {
            if code == Some(0i32) {
                Ok(())
            } else if code == Some(1i32) && user_owned {
                Err(SubmissionErrorView::Compilation(scrub(stderr, dir)))
            } else {
                Err(SubmissionErrorView::Internal)
            }
        },
        ToolOutcomeView::TimedOut => {
            if user_owned {
                Err(SubmissionErrorView::CompileTimeout(TIMEOUT_SECONDS))
            } else {
                Err(SubmissionErrorView::Internal)
            }
        },
        ToolOutcomeView::Failed => Err(SubmissionErrorView::Internal),
    }
}

/// Classifies what one compile step came to.  `dir` is the job directory,
/// scrubbed out of any diagnostic handed to the user.
pub fn classify_compile(outcome: ToolOutcome, user_owned: bool, dir: &str) -> (r: Result<
    (),
    SubmissionError,
>)
    requires
        dir@.len() > 0,
    ensures
        match compile_outcome_spec(outcome@, user_owned, dir@) {
            Ok(_) => r is Ok,
            Err(ev) => r is Err && r->Err_0@ == ev,
        },
{
    match outcome {
        ToolOutcome::Completed { code, stdout: _, stderr } => {
            match code {
                Some(0) => Ok(()),
                Some(1) => {
                    if user_owned {
                        let stripped = scrub_string(stderr.as_str(), dir);
                        Err(SubmissionError::Compilation(stripped))
                    } else {
                        Err(SubmissionError::Internal)
                    }
                },
                _ => Err(SubmissionError::Internal),
            }
        },
        ToolOutcome::TimedOut => {
            if user_owned {
                Err(SubmissionError::CompileTimeout(TIMEOUT_SECONDS))
            } else {
                Err(SubmissionError::Internal)
            }
        },
        ToolOutcome::Failed => Err(SubmissionError::Internal),
    }
}

/// How the execution's outcome is read: a completed run hands its standard
/// output on, path-scrubbed, whatever its exit code — the output stream is
/// the sole result channel; a timeout is the user's; a wait failure is an
/// internal fault.
pub open spec fn execution_outcome_spec(o: ToolOutcomeView, dir: Seq<char>) -> Result<
    Seq<char>,
    SubmissionErrorView,
> {
    match o {
        ToolOutcomeView::Completed { code, stdout, stderr } => Ok(scrub(stdout, dir)),
        ToolOutcomeView::TimedOut => Err(SubmissionErrorView::ExecuteTimeout(TIMEOUT_SECONDS)),
        ToolOutcomeView::Failed => Err(SubmissionErrorView::Internal),
    }
}

/// Classifies what the execution came to.  `dir` is the job directory,
/// scrubbed out of the captured output.
pub fn classify_execution(outcome: ToolOutcome, dir: &str) -> (r: Result<String, SubmissionError>)
    requires
        dir@.len() > 0,
    ensures
        match execution_outcome_spec(outcome@, dir@) {
            Ok(out) => r is Ok && r->Ok_0@ == out,
            Err(ev) => r is Err && r->Err_0@ == ev,
        },
{
    match outcome {
        ToolOutcome::Completed { code: _, stdout, stderr: _ } => {
            Ok(scrub_string(stdout.as_str(), dir))
        },
        ToolOutcome::TimedOut => Err(SubmissionError::ExecuteTimeout(TIMEOUT_SECONDS)),
        ToolOutcome::Failed => Err(SubmissionError::Internal),
    }
}

/// No occurrence of the job directory's path survives in the diagnostic a
/// compilation error carries to the user.
pub proof fn lemma_compile_diagnostic_free_of_dir(
    o: ToolOutcomeView,
    user_owned: bool,
    dir: Seq<char>,
)
    requires
        dir.len() > 0,
    ensures
        match compile_outcome_spec(o, user_owned, dir) {
            Err(SubmissionErrorView::Compilation(msg)) => !contains_seq(msg, dir),
            _ => true,
        },
{
    match o {
        ToolOutcomeView::Completed { code, stdout, stderr } => {
            lemma_scrub_clean(stderr, dir);
        },
        _ => {},
    }
}

/// No occurrence of the job directory's path survives in the harness output
/// the execution hands on.
pub proof fn lemma_execution_output_free_of_dir(o: ToolOutcomeView, dir: Seq<char>)
    requires
        dir.len() > 0,
    ensures
        match execution_outcome_spec(o, dir) {
            Ok(out) => !contains_seq(out, dir),
            _ => true,
        },
{
    match o {
        ToolOutcomeView::Completed { code, stdout, stderr } => {
            lemma_scrub_clean(stdout, dir);
        },
        _ => {},
    }
}

/// Every verdict is a pass.
pub open spec fn all_passed(rs: Seq<TestCaseResultView>) -> bool {
    forall|i: int| 0 <= i < rs.len() ==> rs[i].test_result == TestResultView::Pass
}

/// Folds the per-case verdicts into the check's result: success when every
/// test case passed, and otherwise the full list of verdicts as a failure.
pub fn summarize_results(results: Vec<TestCaseResult>) -> (r: Result<(), SubmissionError>)
    ensures
        all_passed(results_view(results@)) <==> r is Ok,
        !all_passed(results_view(results@)) ==> r is Err && r->Err_0@
            == SubmissionErrorView::Failure(results_view(results@)),
{
    let mut k: usize = 0;
    let mut failed = false;
    while k < results.len()
        invariant
            k <= results@.len(),
            failed ==> !all_passed(results_view(results@)),
            !failed ==> forall|i: int|
                0 <= i < k ==> results_view(results@)[i].test_result == TestResultView::Pass,
        decreases results@.len() - k,
    {
        match &results[k].test_result {
            TestResult::Pass => {},
            _ => {
                proof {
                    assert(results_view(results@)[k as int].test_result != TestResultView::Pass);
                }
                failed = true;
            },
        }
        k = k + 1;
    }
    if failed {
        Err(SubmissionError::Failure(results))
    } else {
        Ok(())
    }
}

/// The result of checking a submission's harness output under per-case
/// guards: an output that breaks the protocol is an internal fault; one whose
/// verdicts all pass is a success; any other is a failure carrying every
/// verdict.
pub open spec fn check_output_spec(out: Seq<char>, cases: Seq<TestCaseView>) -> Result<
    (),
    SubmissionErrorView,
> {
    match parse::parse_output_spec(out, cases) {
        None => Err(SubmissionErrorView::Internal),
        Some(rs) => if all_passed(rs) {
            Ok(())
        } else {
            Err(SubmissionErrorView::Failure(rs))
        },
    }
}

/// The runner that grades one submission in one job directory.
pub struct TestRunner {
    /// The language handler the runner grades through.
    pub handler: haskell::Haskell,
}

impl TestRunner {
    /// A runner whose job files and tool invocations live under `temp_dir`.
    pub fn new(temp_dir: String) -> (r: Self)
        ensures
            r.handler.dir_spec() == temp_dir@,
    {
        TestRunner { handler: <haskell::Haskell as LanguageHandler>::new(temp_dir) }
    }

    /// Parses the harness output of a run under per-case guards; see
    /// [`parse::parse_output`].
    pub fn parse_test_output(test_output: &str, test_cases: &Vec<TestCase>) -> (r: Result<
        Vec<TestCaseResult>,
        SubmissionError,
    >)
        ensures
            match parse::parse_output_spec(test_output@, cases_view(test_cases@)) {
                Some(expected) => r is Ok && results_view(r->Ok_0@) == expected,
                None => r is Err && r->Err_0 == SubmissionError::Internal,
            },
    {
        parse::parse_output(test_output, test_cases)
    }

    /// Assembles the three job files for `submission`; see [`job_files_for`].
    pub fn job_files(&self, submission: &Submission) -> (r: JobFiles)
        requires
            cases_formattable(cases_view(submission.test_cases@)),
        ensures
            r.solution_path@ == self.handler.solution_file_path_spec(),
            r.solution_code@ == submission.solution@,
            r.test_runner_path@ == self.handler.test_runner_file_path_spec(),
            r.test_runner_code@ == self.handler.test_runner_code_spec(),
            r.test_file_path@ == self.handler.test_file_path_spec(),
            r.test_code@ == replace_first_spec(
                self.handler.base_test_code_spec(),
                TEST_CASES_TARGET@,
                self.handler.test_cases_spec(cases_view(submission.test_cases@)),
            ),
    {
        job_files_for(&self.handler, submission)
    }

    /// The compile steps and the execution for this runner's toolchain.
    pub fn run_plan(&self) -> (r: RunPlan)
        ensures
            r@ == self.handler.run_plan_spec(),
    {
        self.handler.run_plan()
    }

    /// Checks the harness output of a completed run against the submission's
    /// test cases: parses it under per-case guards and passes exactly when
    /// every verdict does.
    pub fn check_output(test_output: &str, test_cases: &Vec<TestCase>) -> (r: Result<
        (),
        SubmissionError,
    >)
        ensures
            match check_output_spec(test_output@, cases_view(test_cases@)) {
                Ok(_) => r is Ok,
                Err(ev) => r is Err && r->Err_0@ == ev,
            },
    {
        let results = match parse::parse_output(test_output, test_cases) {
            Ok(results) => results,
            Err(e) => {
                return Err(SubmissionError::Internal);
            },
        };
        summarize_results(results)
    }
}


/// An output of exactly one `p` line per test case — at least one — passes
/// the whole check.
pub proof fn lemma_all_pass_output(out: Seq<char>, cases: Seq<TestCaseView>)
    requires
        cases.len() > 0,
        split_lines(crate::text::trim_trailing(out)).len() == cases.len(),
        forall|i: int|
            0 <= i < cases.len() ==> split_lines(crate::text::trim_trailing(out))[i]
                == seq!['p'],
    ensures
        check_output_spec(out, cases) == Ok::<(), SubmissionErrorView>(()),
{
    let t = crate::text::trim_trailing(out);
    let lines = split_lines(t);
    assert(t.len() > 0) by {
        if t.len() == 0 {
            assert(lines =~= Seq::<Seq<char>>::empty());
        }
    }
    assert forall|i: int| 0 <= i < lines.len() && i < cases.len() implies parse::line_test_result(
        lines[i],
        cases[i].input_parameters,
    ) is Some by {
        parse::lemma_pass_line(cases[i].input_parameters);
    }
    let rs = parse::parse_output_spec(out, cases)->Some_0;
    assert forall|i: int| 0 <= i < rs.len() implies rs[i].test_result == TestResultView::Pass by {
        parse::lemma_pass_line(cases[i].input_parameters);
    }
}


/// No occurrence of the job directory's absolute path appears in the
/// user-visible message of any error the compile classifier produces.
pub proof fn lemma_compile_message_free_of_dir(
    o: ToolOutcomeView,
    user_owned: bool,
    dir: Seq<char>,
)
    requires
        dir.len() > 0,
        dir[0] == '/',
    ensures
        match compile_outcome_spec(o, user_owned, dir) {
            Err(e) => !contains_seq(crate::error::message_spec(e), dir),
            Ok(_) => true,
        },
{
    lemma_compile_diagnostic_free_of_dir(o, user_owned, dir);
    match compile_outcome_spec(o, user_owned, dir) {
        Err(e) => {
            crate::error::lemma_message_free_of_dir(e, dir);
        },
        Ok(_) => {},
    }
}

/// No occurrence of the job directory's absolute path appears in the
/// user-visible message of any error the execution classifier produces.
pub proof fn lemma_execution_message_free_of_dir(o: ToolOutcomeView, dir: Seq<char>)
    requires
        dir.len() > 0,
        dir[0] == '/',
    ensures
        match execution_outcome_spec(o, dir) {
            Err(e) => !contains_seq(crate::error::message_spec(e), dir),
            Ok(out) => !contains_seq(out, dir),
        },
{
    lemma_execution_output_free_of_dir(o, dir);
    match execution_outcome_spec(o, dir) {
        Err(e) => {
            crate::error::lemma_message_free_of_dir(e, dir);
        },
        Ok(_) => {},
    }
}

} // verus!
