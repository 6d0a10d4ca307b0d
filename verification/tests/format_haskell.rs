//! Tests of the Haskell parameter formatter.

use mozart::model::{Parameter, ParameterType};
use mozart::runner::haskell::Haskell;
use mozart::runner::LanguageHandler;

#[test]
fn haskell_bool_false() {
    let haskell = Haskell::new(String::new());
    let input = Parameter { value_type: ParameterType::Bool, value: String::from("false") };
    let expected = String::from("(False :: Bool)");

    let actual = haskell.format_parameter(&input);

    assert_eq!(actual, expected);
}

#[test]
fn haskell_bool_true() {
    let haskell = Haskell::new(String::new());
    let input = Parameter { value_type: ParameterType::Bool, value: String::from("true") };
    let expected = String::from("(True :: Bool)");

    let actual = haskell.format_parameter(&input);

    assert_eq!(actual, expected);
}

#[test]
fn haskell_int_positive() {
    let haskell = Haskell::new(String::new());
    let input = Parameter { value_type: ParameterType::Int, value: String::from("100") };
    let expected = String::from("(100 :: Int)");

    let actual = haskell.format_parameter(&input);

    assert_eq!(actual, expected);
}

#[test]
fn haskell_int_negative() {
    let haskell = Haskell::new(String::new());
    let input = Parameter { value_type: ParameterType::Int, value: String::from("-100") };
    let expected = String::from("(-100 :: Int)");

    let actual = haskell.format_parameter(&input);

    assert_eq!(actual, expected);
}

#[test]
fn haskell_float_positive() {
    let haskell = Haskell::new(String::new());
    let input = Parameter { value_type: ParameterType::Float, value: String::from("10.0") };
    let expected = String::from("(10.0 :: Double)");

    let actual = haskell.format_parameter(&input);

    assert_eq!(actual, expected);
}

#[test]
fn haskell_float_negative() {
    let haskell = Haskell::new(String::new());
    let input = Parameter { value_type: ParameterType::Float, value: String::from("-10.0") };
    let expected = String::from("(-10.0 :: Double)");

    let actual = haskell.format_parameter(&input);

    assert_eq!(actual, expected);
}

#[test]
fn haskell_char() {
    let haskell = Haskell::new(String::new());
    let input = Parameter { value_type: ParameterType::Char, value: String::from("a") };
    let expected = String::from("('a' :: Char)");

    let actual = haskell.format_parameter(&input);

    assert_eq!(actual, expected);
}

#[test]
fn haskell_string() {
    let haskell = Haskell::new(String::new());
    let input = Parameter { value_type: ParameterType::String, value: String::from("hello") };
    let expected = String::from(r#"("hello" :: String)"#);

    let actual = haskell.format_parameter(&input);

    assert_eq!(actual, expected);
}

#[test]
fn haskell_generated_test_case() {
    let haskell = Haskell::new(String::from("/jobs/a"));
    let test_cases = vec![mozart::model::TestCase {
        id: 0,
        input_parameters: vec![Parameter {
            value_type: ParameterType::Int,
            value: String::from("10"),
        }],
        output_parameters: vec![Parameter {
            value_type: ParameterType::Int,
            value: String::from("20"),
        }],
    }];

    let actual = haskell.generate_test_cases(&test_cases);

    let expected = String::from(
        "\n  catch (testChecker (solution (10 :: Int)) ((20 :: Int))) \
         (\\(e :: SomeException) -> putStrLn (\"r\" ++ \",\" ++ intercalate \"\\\\n\" \
         (lines (show e))))\n",
    );
    assert_eq!(actual, expected);
}

#[test]
fn haskell_paths_are_rooted_at_the_job_directory() {
    let haskell = Haskell::new(String::from("/jobs/a"));

    assert_eq!(haskell.solution_file_path(), String::from("/jobs/a/Solution.hs"));
    assert_eq!(haskell.test_runner_file_path(), String::from("/jobs/a/TestRunner.hs"));
    assert_eq!(haskell.test_file_path(), String::from("/jobs/a/Main.hs"));
}

#[test]
fn haskell_run_plan_compiles_then_executes_restricted() {
    let haskell = Haskell::new(String::from("/jobs/a"));

    let plan = haskell.run_plan();

    assert_eq!(plan.compile_steps.len(), 3);
    assert_eq!(plan.compile_steps[0].command.program, String::from("ghc"));
    assert_eq!(
        plan.compile_steps[0].command.args,
        vec![String::from("/jobs/a/Solution.hs"), String::from("-O2")]
    );
    assert!(plan.compile_steps[0].user_owned);
    assert_eq!(
        plan.compile_steps[1].command.args,
        vec![String::from("/jobs/a/TestRunner.hs"), String::from("-O2")]
    );
    assert!(!plan.compile_steps[1].user_owned);
    assert_eq!(
        plan.compile_steps[2].command.args,
        vec![
            String::from("-o"),
            String::from("/jobs/a/test"),
            String::from("/jobs/a/Main.hs"),
            String::from("-i/jobs/a"),
            String::from("-O2"),
        ]
    );
    assert!(plan.compile_steps[2].user_owned);
    assert!(!plan.compile_steps[0].command.restricted);
    assert_eq!(plan.execute.program, String::from("/jobs/a/test"));
    assert!(plan.execute.args.is_empty());
    assert!(plan.execute.restricted);
}
