//! End-to-end scenarios over the verified pipeline pieces: harness output as
//! the toolchain would produce it, classification of tool outcomes, the error
//! taxonomy and the response mapping.

use mozart::error::SubmissionError;
use mozart::model::{
    Parameter, ParameterType, Submission, TestCase, TestCaseFailureReason, TestCaseResult,
    TestResult,
};
use mozart::response::{submit_outcome, SubmissionResult};
use mozart::runner::parse::parse_halting_output;
use mozart::runner::{classify_compile, classify_execution, LanguageHandler, TestRunner, ToolOutcome};

fn int_parameter(value: &str) -> Parameter {
    Parameter { value_type: ParameterType::Int, value: String::from(value) }
}

fn int_test_case(id: u64, input: &str, output: &str) -> TestCase {
    TestCase {
        id,
        input_parameters: vec![int_parameter(input)],
        output_parameters: vec![int_parameter(output)],
    }
}

#[test]
fn all_pass_integer_doubling() {
    // A doubling solution passes both test cases: the harness prints one `p`
    // line per case, and the submission as a whole passes.
    let test_cases = vec![int_test_case(0, "10", "20"), int_test_case(1, "5", "10")];
    let harness_output = "p\np\n";

    let checked = TestRunner::check_output(harness_output, &test_cases);
    assert_eq!(checked, Ok(()));

    let response = submit_outcome(checked, true);
    assert_eq!(response, SubmissionResult::Pass);
}

#[test]
fn all_fail_identity_on_ints() {
    // An identity solution fails both cases with the actual and expected
    // values the harness printed.
    let test_cases = vec![int_test_case(0, "10", "20"), int_test_case(1, "5", "10")];
    let harness_output = "f,10,20\nf,5,10\n";

    let checked = TestRunner::check_output(harness_output, &test_cases);

    let expected_results = vec![
        TestCaseResult {
            id: 0,
            test_result: TestResult::Failure(TestCaseFailureReason::WrongAnswer {
                input_parameters: vec![int_parameter("10")],
                actual: String::from("10"),
                expected: String::from("20"),
            }),
        },
        TestCaseResult {
            id: 1,
            test_result: TestResult::Failure(TestCaseFailureReason::WrongAnswer {
                input_parameters: vec![int_parameter("5")],
                actual: String::from("5"),
                expected: String::from("10"),
            }),
        },
    ];
    assert_eq!(checked, Err(SubmissionError::Failure(expected_results.clone())));

    let response = submit_outcome(checked, true);
    assert_eq!(response, SubmissionResult::Failure(expected_results));
}

#[test]
fn compilation_error_is_reported_with_its_diagnostic() {
    // A truncated solution fails its compile step with exit code one; the
    // diagnostic is carried to the user behind the compilation-error prefix.
    let outcome = ToolOutcome::Completed {
        code: Some(1),
        stdout: String::new(),
        stderr: String::from("/jobs/c/Solution.hs:3:1: parse error on input"),
    };

    let classified = classify_compile(outcome, true, "/jobs/c");
    let err = classified.expect_err("exit code one is a compilation error");

    let response = SubmissionResult::from(err);
    match response {
        SubmissionResult::Error(message) => {
            assert!(message.starts_with("an error occurred during compilation:"));
            assert!(!message.contains("/jobs/c"));
            assert!(message.contains("/Solution.hs:3:1: parse error on input"));
        },
        other => panic!("expected an error response, got {:?}", other),
    }
}

#[test]
fn execute_timeout_is_reported_with_the_limit() {
    // A diverging solution exceeds the execution deadline.
    let classified = classify_execution(ToolOutcome::TimedOut, "/jobs/d");
    let err = classified.expect_err("a timed-out execution is the user's error");
    assert_eq!(err, SubmissionError::ExecuteTimeout(mozart::error::TIMEOUT_SECONDS));

    let response = SubmissionResult::from(err);
    match response {
        SubmissionResult::Error(message) => {
            assert!(message.starts_with("execution exceeded the timeout limit of"));
        },
        other => panic!("expected an error response, got {:?}", other),
    }
}

#[test]
fn runtime_error_in_middle_test_case_under_halting_guards() {
    // Three cases; the second divides by zero and halts the harness, so only
    // the first case's line was written: the second becomes a runtime error
    // and the third is unknown.
    let test_cases =
        vec![int_test_case(0, "2", "5"), int_test_case(1, "0", "0"), int_test_case(2, "2", "5")];
    let harness_output = "p\n";

    let actual = parse_halting_output(harness_output, &test_cases)
        .expect("a truncated read still yields one verdict per case");

    let expected = vec![
        TestCaseResult { id: 0, test_result: TestResult::Pass },
        TestCaseResult {
            id: 1,
            test_result: TestResult::Failure(TestCaseFailureReason::RuntimeError(String::new())),
        },
        TestCaseResult { id: 2, test_result: TestResult::Unknown },
    ];
    assert_eq!(actual, expected);
}

#[test]
fn runtime_error_in_middle_test_case_under_per_case_guards() {
    // The same scenario under per-case guards: the guard catches the error,
    // prints its diagnostic, and the harness goes on to the last case.
    let test_cases =
        vec![int_test_case(0, "2", "5"), int_test_case(1, "0", "0"), int_test_case(2, "2", "5")];
    let harness_output = "p\nr,divide by zero\np\n";

    let actual = TestRunner::parse_test_output(harness_output, &test_cases)
        .expect("three well-formed lines for three cases");

    let expected = vec![
        TestCaseResult { id: 0, test_result: TestResult::Pass },
        TestCaseResult {
            id: 1,
            test_result: TestResult::Failure(TestCaseFailureReason::RuntimeError(String::from(
                "divide by zero",
            ))),
        },
        TestCaseResult { id: 2, test_result: TestResult::Pass },
    ];
    assert_eq!(actual, expected);
}

#[test]
fn mixed_verdicts_with_eventual_crash() {
    // Six cases alternating pass and wrong answer; the fifth crashes the
    // harness, so the sixth never runs.
    let test_cases = vec![
        int_test_case(0, "1", "2"),
        int_test_case(1, "2", "4"),
        int_test_case(2, "3", "6"),
        int_test_case(3, "4", "8"),
        int_test_case(4, "0", "0"),
        int_test_case(5, "6", "12"),
    ];
    let harness_output = "p\nf,2,4\np\nf,4,8\n";

    let actual = parse_halting_output(harness_output, &test_cases)
        .expect("four well-formed lines for six cases");

    assert_eq!(actual.len(), 6);
    assert_eq!(actual[0].test_result, TestResult::Pass);
    assert!(matches!(
        actual[1].test_result,
        TestResult::Failure(TestCaseFailureReason::WrongAnswer { .. })
    ));
    assert_eq!(actual[2].test_result, TestResult::Pass);
    assert!(matches!(
        actual[3].test_result,
        TestResult::Failure(TestCaseFailureReason::WrongAnswer { .. })
    ));
    assert_eq!(
        actual[4].test_result,
        TestResult::Failure(TestCaseFailureReason::RuntimeError(String::new()))
    );
    assert_eq!(actual[5].test_result, TestResult::Unknown);
}

#[test]
fn halting_parse_of_empty_output() {
    let test_cases = vec![int_test_case(0, "1", "2"), int_test_case(1, "2", "4")];

    let actual =
        parse_halting_output("", &test_cases).expect("an empty read means the first case crashed");

    let expected = vec![
        TestCaseResult {
            id: 0,
            test_result: TestResult::Failure(TestCaseFailureReason::RuntimeError(String::new())),
        },
        TestCaseResult { id: 1, test_result: TestResult::Unknown },
    ];
    assert_eq!(actual, expected);
}

#[test]
fn halting_parse_with_no_test_cases() {
    let actual = parse_halting_output("", &vec![]).expect("nothing owed for no cases");
    assert_eq!(actual, vec![]);
}

#[test]
fn error_messages_are_word_for_word() {
    assert_eq!(
        SubmissionError::Internal.message(),
        String::from("an internal server error occurred")
    );
    assert_eq!(
        SubmissionError::Compilation(String::from("boom")).message(),
        String::from("an error occurred during compilation: boom")
    );
    assert_eq!(
        SubmissionError::CompileTimeout(10).message(),
        String::from("compilation exceeded the timeout limit of 10s")
    );
    assert_eq!(
        SubmissionError::ExecuteTimeout(25).message(),
        String::from("execution exceeded the timeout limit of 25s")
    );
    assert_eq!(
        SubmissionError::Execution(String::from("late crash")).message(),
        String::from("an error occurred during execution: late crash")
    );
    assert_eq!(
        SubmissionError::Failure(vec![]).message(),
        String::from("the submission did not pass all test cases")
    );
}

#[test]
fn response_mapping_follows_the_taxonomy() {
    assert_eq!(SubmissionResult::from(SubmissionError::Internal), SubmissionResult::InternalError);

    let results = vec![TestCaseResult { id: 0, test_result: TestResult::Pass }];
    assert_eq!(
        SubmissionResult::from(SubmissionError::Failure(results.clone())),
        SubmissionResult::Failure(results)
    );

    assert_eq!(
        SubmissionResult::from(SubmissionError::CompileTimeout(10)),
        SubmissionResult::Error(String::from("compilation exceeded the timeout limit of 10s"))
    );
}

#[test]
fn teardown_failure_overrides_the_outcome() {
    assert_eq!(submit_outcome(Ok(()), false), SubmissionResult::InternalError);
    assert_eq!(
        submit_outcome(Err(SubmissionError::CompileTimeout(10)), false),
        SubmissionResult::InternalError
    );
}

#[test]
fn runner_compile_failures_stay_internal() {
    // A failure while compiling the fixed test-runner helper is not the
    // user's: it stays an internal fault, whatever the outcome was.
    let outcome = ToolOutcome::Completed {
        code: Some(1),
        stdout: String::new(),
        stderr: String::from("TestRunner.hs: something odd"),
    };
    assert_eq!(classify_compile(outcome, false, "/jobs/e"), Err(SubmissionError::Internal));
    assert_eq!(
        classify_compile(ToolOutcome::TimedOut, false, "/jobs/e"),
        Err(SubmissionError::Internal)
    );
}

#[test]
fn unexpected_compiler_exits_are_internal() {
    let signalled =
        ToolOutcome::Completed { code: None, stdout: String::new(), stderr: String::new() };
    assert_eq!(classify_compile(signalled, true, "/jobs/f"), Err(SubmissionError::Internal));

    let odd =
        ToolOutcome::Completed { code: Some(2), stdout: String::new(), stderr: String::new() };
    assert_eq!(classify_compile(odd, true, "/jobs/f"), Err(SubmissionError::Internal));

    assert_eq!(classify_compile(ToolOutcome::Failed, true, "/jobs/f"), Err(SubmissionError::Internal));
}

#[test]
fn execution_output_is_scrubbed() {
    let outcome = ToolOutcome::Completed {
        code: Some(0),
        stdout: String::from("f,/jobs/g/test,expected\n"),
        stderr: String::new(),
    };

    let stdout = classify_execution(outcome, "/jobs/g").expect("a completed run hands on stdout");

    assert_eq!(stdout, String::from("f,/test,expected\n"));
}

#[test]
fn scrubbing_removes_occurrences_that_removal_itself_creates() {
    // Removing the first occurrence of `/m/x` out of `/m/m/x/x` joins the
    // remaining halves into a fresh occurrence, which is removed in turn.
    let outcome = ToolOutcome::Completed {
        code: Some(1),
        stdout: String::new(),
        stderr: String::from("/m/m/x/x"),
    };

    let classified = classify_compile(outcome, true, "/m/x");

    match classified {
        Err(SubmissionError::Compilation(message)) => {
            assert!(!message.contains("/m/x"));
            assert_eq!(message, String::new());
        },
        other => panic!("expected a compilation error, got {:?}", other),
    }
}

#[test]
fn job_files_substitute_the_marker_once() {
    let runner = TestRunner::new(String::from("/jobs/h"));
    let submission = Submission {
        solution: String::from("module Solution where\nsolution :: Int -> Int\nsolution x = x + x\n"),
        test_cases: vec![int_test_case(0, "10", "20")],
    };

    let files = runner.job_files(&submission);

    assert_eq!(files.solution_path, String::from("/jobs/h/Solution.hs"));
    assert_eq!(files.solution_code, submission.solution);
    assert_eq!(files.test_runner_path, String::from("/jobs/h/TestRunner.hs"));
    assert_eq!(files.test_runner_code, String::from(mozart::runner::haskell::HASKELL_TEST_RUNNER));
    assert_eq!(files.test_file_path, String::from("/jobs/h/Main.hs"));

    let fragments = mozart::runner::haskell::Haskell::new(String::from("/jobs/h"))
        .generate_test_cases(&submission.test_cases);
    let expected_harness =
        mozart::runner::haskell::HASKELL_BASE_TEST_CODE.replacen("TEST_CASES", &fragments, 1);
    assert_eq!(files.test_code, expected_harness);
    assert!(!files.test_code.contains("TEST_CASES"));
}
