//! Tests of the wire-format parser under per-case guards.

use mozart::error::SubmissionError;
use mozart::model::{
    Parameter, ParameterType, TestCase, TestCaseFailureReason, TestCaseResult, TestResult,
};
use mozart::runner::TestRunner;

/// A test case with the supplied `id` and no parameters.
fn empty_test_case(id: u64) -> TestCase {
    TestCase { id, input_parameters: vec![], output_parameters: vec![] }
}

fn int_parameter(value: &str) -> Parameter {
    Parameter { value_type: ParameterType::Int, value: String::from(value) }
}

/// A test case with one integer input and one integer expected output.
fn int_test_case(id: u64, input: &str, output: &str) -> TestCase {
    TestCase {
        id,
        input_parameters: vec![int_parameter(input)],
        output_parameters: vec![int_parameter(output)],
    }
}

#[test]
fn empty_test_output() {
    let test_output = "";
    // the parameters are not necessary for this test, only the test case id
    let test_cases = vec![empty_test_case(0), empty_test_case(1), empty_test_case(2)];
    let expected = Err(SubmissionError::Internal);

    let actual = TestRunner::parse_test_output(test_output, &test_cases);

    assert_eq!(actual, expected);
}

#[test]
fn empty_line() {
    let test_output = ["p", "", "p"].join("\n");
    // the parameters are not necessary for this test, only the test case id
    let test_cases = vec![empty_test_case(0), empty_test_case(1), empty_test_case(2)];
    let expected = Err(SubmissionError::Internal);

    let actual = TestRunner::parse_test_output(&test_output, &test_cases);

    assert_eq!(actual, expected);
}

#[test]
fn failure_outcome_without_actual_and_expected() {
    let test_output = ["f"].join("\n");
    // the parameters are not necessary for this test, only the test case id
    let test_cases = vec![empty_test_case(0)];
    let expected = Err(SubmissionError::Internal);

    let actual = TestRunner::parse_test_output(&test_output, &test_cases);

    assert_eq!(actual, expected);
}

#[test]
fn failure_outcome_with_actual_but_without_expected() {
    let test_output = ["f,5"].join("\n");
    // the parameters are not necessary for this test, only the test case id
    let test_cases = vec![empty_test_case(0)];
    let expected = Err(SubmissionError::Internal);

    let actual = TestRunner::parse_test_output(&test_output, &test_cases);

    assert_eq!(actual, expected);
}

#[test]
fn unknown_test_output() {
    let test_output = ["p", "s"].join("\n");
    // the parameters are not necessary for this test, only the test case id
    let test_cases = vec![empty_test_case(0), empty_test_case(1)];
    let expected = Err(SubmissionError::Internal);

    let actual = TestRunner::parse_test_output(&test_output, &test_cases);

    assert_eq!(actual, expected);
}

#[test]
fn runtime_error_in_last_test_case() -> Result<(), SubmissionError> {
    let test_output = ["p", "r"].join("\n");
    // the parameters are not necessary for this test, only the test case id
    let test_cases = vec![empty_test_case(0), empty_test_case(1)];
    let expected = vec![
        TestCaseResult { id: 0, test_result: TestResult::Pass },
        TestCaseResult {
            id: 1,
            test_result: TestResult::Failure(TestCaseFailureReason::RuntimeError(String::new())),
        },
    ];

    let actual = TestRunner::parse_test_output(&test_output, &test_cases)?;

    assert_eq!(actual, expected);

    Ok(())
}

#[test]
fn runtime_error_in_first_test_case() -> Result<(), SubmissionError> {
    let test_output = ["r", "p", "p", "p", "p"].join("\n");
    let test_cases = vec![
        empty_test_case(0),
        empty_test_case(1),
        empty_test_case(2),
        empty_test_case(3),
        empty_test_case(4),
    ];
    let expected = vec![
        TestCaseResult {
            id: 0,
            test_result: TestResult::Failure(TestCaseFailureReason::RuntimeError(String::new())),
        },
        TestCaseResult { id: 1, test_result: TestResult::Pass },
        TestCaseResult { id: 2, test_result: TestResult::Pass },
        TestCaseResult { id: 3, test_result: TestResult::Pass },
        TestCaseResult { id: 4, test_result: TestResult::Pass },
    ];

    let actual = TestRunner::parse_test_output(&test_output, &test_cases)?;

    assert_eq!(actual, expected);

    Ok(())
}

#[test]
fn all_test_cases_passed() -> Result<(), SubmissionError> {
    let test_output = ["p", "p", "p", "p", "p"].join("\n");
    // the parameters are not necessary for this test, only the test case id
    let test_cases = vec![
        empty_test_case(0),
        empty_test_case(1),
        empty_test_case(2),
        empty_test_case(3),
        empty_test_case(4),
    ];
    let expected = vec![
        TestCaseResult { id: 0, test_result: TestResult::Pass },
        TestCaseResult { id: 1, test_result: TestResult::Pass },
        TestCaseResult { id: 2, test_result: TestResult::Pass },
        TestCaseResult { id: 3, test_result: TestResult::Pass },
        TestCaseResult { id: 4, test_result: TestResult::Pass },
    ];

    let actual = TestRunner::parse_test_output(&test_output, &test_cases)?;

    assert_eq!(actual, expected);

    Ok(())
}

#[test]
fn all_test_cases_wrong_answer() -> Result<(), SubmissionError> {
    let test_output = ["f,5,-5", "f,10,-10", "f,7,-7", "f,-10,10", "f,-5,5"].join("\n");
    let test_cases = vec![
        int_test_case(0, "5", "-5"),
        int_test_case(1, "10", "-10"),
        int_test_case(2, "7", "-7"),
        int_test_case(3, "-10", "10"),
        int_test_case(4, "-5", "5"),
    ];
    let expected = vec![
        TestCaseResult {
            id: 0,
            test_result: TestResult::Failure(TestCaseFailureReason::WrongAnswer {
                input_parameters: vec![int_parameter("5")],
                actual: String::from("5"),
                expected: String::from("-5"),
            }),
        },
        TestCaseResult {
            id: 1,
            test_result: TestResult::Failure(TestCaseFailureReason::WrongAnswer {
                input_parameters: vec![int_parameter("10")],
                actual: String::from("10"),
                expected: String::from("-10"),
            }),
        },
        TestCaseResult {
            id: 2,
            test_result: TestResult::Failure(TestCaseFailureReason::WrongAnswer {
                input_parameters: vec![int_parameter("7")],
                actual: String::from("7"),
                expected: String::from("-7"),
            }),
        },
        TestCaseResult {
            id: 3,
            test_result: TestResult::Failure(TestCaseFailureReason::WrongAnswer {
                input_parameters: vec![int_parameter("-10")],
                actual: String::from("-10"),
                expected: String::from("10"),
            }),
        },
        TestCaseResult {
            id: 4,
            test_result: TestResult::Failure(TestCaseFailureReason::WrongAnswer {
                input_parameters: vec![int_parameter("-5")],
                actual: String::from("-5"),
                expected: String::from("5"),
            }),
        },
    ];

    let actual = TestRunner::parse_test_output(&test_output, &test_cases)?;

    assert_eq!(actual, expected);

    Ok(())
}

#[test]
fn mixed_pass_and_failure_with_runtime_error() -> Result<(), SubmissionError> {
    let test_output = ["p", "f,10,-10", "p", "r", "p"].join("\n");
    let test_cases = vec![
        int_test_case(0, "5", "-5"),
        int_test_case(1, "10", "-10"),
        int_test_case(2, "7", "-7"),
        int_test_case(3, "-10", "10"),
        int_test_case(4, "-5", "5"),
    ];
    let expected = vec![
        TestCaseResult { id: 0, test_result: TestResult::Pass },
        TestCaseResult {
            id: 1,
            test_result: TestResult::Failure(TestCaseFailureReason::WrongAnswer {
                input_parameters: vec![int_parameter("10")],
                actual: String::from("10"),
                expected: String::from("-10"),
            }),
        },
        TestCaseResult { id: 2, test_result: TestResult::Pass },
        TestCaseResult {
            id: 3,
            test_result: TestResult::Failure(TestCaseFailureReason::RuntimeError(String::new())),
        },
        TestCaseResult { id: 4, test_result: TestResult::Pass },
    ];

    let actual = TestRunner::parse_test_output(&test_output, &test_cases)?;

    assert_eq!(actual, expected);

    Ok(())
}

#[test]
fn more_lines_than_test_cases() {
    let test_output = ["p", "p", "p"].join("\n");
    let test_cases = vec![empty_test_case(0), empty_test_case(1)];
    let expected = Err(SubmissionError::Internal);

    let actual = TestRunner::parse_test_output(&test_output, &test_cases);

    assert_eq!(actual, expected);
}

#[test]
fn fewer_lines_than_test_cases() {
    let test_output = ["p", "p"].join("\n");
    let test_cases = vec![empty_test_case(0), empty_test_case(1), empty_test_case(2)];
    let expected = Err(SubmissionError::Internal);

    let actual = TestRunner::parse_test_output(&test_output, &test_cases);

    assert_eq!(actual, expected);
}

#[test]
fn carriage_return_line_breaks() -> Result<(), SubmissionError> {
    let test_output = "p\r\np\r\n";
    let test_cases = vec![empty_test_case(0), empty_test_case(1)];
    let expected = vec![
        TestCaseResult { id: 0, test_result: TestResult::Pass },
        TestCaseResult { id: 1, test_result: TestResult::Pass },
    ];

    let actual = TestRunner::parse_test_output(test_output, &test_cases)?;

    assert_eq!(actual, expected);

    Ok(())
}

#[test]
fn expected_value_keeps_later_commas() -> Result<(), SubmissionError> {
    let test_output = "f,(1,2),(3,4)";
    let test_cases = vec![empty_test_case(7)];

    let actual = TestRunner::parse_test_output(test_output, &test_cases)?;

    assert_eq!(
        actual,
        vec![TestCaseResult {
            id: 7,
            test_result: TestResult::Failure(TestCaseFailureReason::WrongAnswer {
                input_parameters: vec![],
                actual: String::from("(1"),
                expected: String::from("2),(3,4)"),
            }),
        }]
    );

    Ok(())
}

#[test]
fn runtime_error_detail_is_kept() -> Result<(), SubmissionError> {
    let test_output = "r,divide by zero";
    let test_cases = vec![empty_test_case(3)];
    let expected = vec![TestCaseResult {
        id: 3,
        test_result: TestResult::Failure(TestCaseFailureReason::RuntimeError(String::from(
            "divide by zero",
        ))),
    }];

    let actual = TestRunner::parse_test_output(test_output, &test_cases)?;

    assert_eq!(actual, expected);

    Ok(())
}

#[test]
fn parsing_twice_yields_identical_output() {
    let test_output = ["p", "f,10,-10", "r,boom"].join("\n");
    let test_cases = vec![
        int_test_case(0, "5", "-5"),
        int_test_case(1, "10", "-10"),
        int_test_case(2, "7", "-7"),
    ];

    let first = TestRunner::parse_test_output(&test_output, &test_cases);
    let second = TestRunner::parse_test_output(&test_output, &test_cases);

    assert_eq!(first, second);
}
