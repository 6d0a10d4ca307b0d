//! Tests of the Python parameter formatter.

use mozart::model::{Parameter, ParameterType};
use mozart::runner::python::Python;
use mozart::runner::LanguageHandler;

#[test]
fn python_bool_false() {
    let python = Python::new(String::new());
    let input = Parameter { value_type: ParameterType::Bool, value: String::from("false") };
    let expected = String::from("False");

    let actual = python.format_parameter(&input);

    assert_eq!(actual, expected);
}

#[test]
fn python_bool_true() {
    let python = Python::new(String::new());
    let input = Parameter { value_type: ParameterType::Bool, value: String::from("true") };
    let expected = String::from("True");

    let actual = python.format_parameter(&input);

    assert_eq!(actual, expected);
}

#[test]
fn python_int_positive() {
    let python = Python::new(String::new());
    let input = Parameter { value_type: ParameterType::Int, value: String::from("100") };
    let expected = String::from("100");

    let actual = python.format_parameter(&input);

    assert_eq!(actual, expected);
}

#[test]
fn python_int_negative() {
    let python = Python::new(String::new());
    let input = Parameter { value_type: ParameterType::Int, value: String::from("-100") };
    let expected = String::from("-100");

    let actual = python.format_parameter(&input);

    assert_eq!(actual, expected);
}

#[test]
fn python_float_positive() {
    let python = Python::new(String::new());
    let input = Parameter { value_type: ParameterType::Float, value: String::from("10.0") };
    let expected = String::from("10.0");

    let actual = python.format_parameter(&input);

    assert_eq!(actual, expected);
}

#[test]
fn python_float_negative() {
    let python = Python::new(String::new());
    let input = Parameter { value_type: ParameterType::Float, value: String::from("-10.0") };
    let expected = String::from("-10.0");

    let actual = python.format_parameter(&input);

    assert_eq!(actual, expected);
}

#[test]
fn python_char() {
    let python = Python::new(String::new());
    let input = Parameter { value_type: ParameterType::Char, value: String::from("a") };
    let expected = String::from("\"a\"");

    let actual = python.format_parameter(&input);

    assert_eq!(actual, expected);
}

#[test]
fn python_string() {
    let python = Python::new(String::new());
    let input = Parameter { value_type: ParameterType::String, value: String::from("hello") };
    let expected = String::from(r#""hello""#);

    let actual = python.format_parameter(&input);

    assert_eq!(actual, expected);
}

#[test]
fn python_generated_test_case() {
    let python = Python::new(String::from("/jobs/b"));
    let test_cases = vec![mozart::model::TestCase {
        id: 0,
        input_parameters: vec![Parameter {
            value_type: ParameterType::Int,
            value: String::from("10"),
        }],
        output_parameters: vec![Parameter {
            value_type: ParameterType::Int,
            value: String::from("20"),
        }],
    }];

    let actual = python.generate_test_cases(&test_cases);

    let expected = String::from(
        "\n    try:\n                test_checker(solution(10), (20))\n\n    \
         except Exception as e:\n        print(\"r,\" + str(e))\n",
    );
    assert_eq!(actual, expected);
}

#[test]
fn python_run_plan_interprets_the_harness_restricted() {
    let python = Python::new(String::from("/jobs/b"));

    let plan = python.run_plan();

    assert!(plan.compile_steps.is_empty());
    assert_eq!(plan.execute.program, String::from("python"));
    assert_eq!(plan.execute.args, vec![String::from("/jobs/b/main.py")]);
    assert!(plan.execute.restricted);
}
