//! The language handler for Haskell: file layout, harness template, parameter
//! formatting and the compile-and-run plan for `ghc`.

use vstd::prelude::*;

use super::{
    cases_formattable, parameter_formattable, parameters_formattable, CompileStepView,
    LanguageHandler, RunPlan, RunPlanView, CompileStep, ToolCommand, ToolCommandView,
};
use crate::model::{cases_view, params_view, Parameter, ParameterType, ParameterView, TestCase,
    TestCaseView};
use crate::text::{join, upper_first, upper_first_str};

verus! {

/// The main-program template.  The marker line is replaced by the generated
/// test-case statements.
pub const HASKELL_BASE_TEST_CODE: &'static str = "\nmodule Main where\n\nimport Solution\nimport TestRunner\nimport Control.Exception\nimport Data.List\n\nmain = do\nTEST_CASES\n";

/// The fixed test-runner helper: prints `p` for a matching answer and an
/// `f,ACTUAL,EXPECTED` line otherwise.
pub const HASKELL_TEST_RUNNER: &'static str = "\nmodule TestRunner where\n\ntestChecker actual expected = do\n  if actual == expected\n    then putStrLn \"p\"\n    else putStrLn (\"f\" ++ \",\" ++ show actual ++ \",\" ++ show expected)\n";

/// What stands before the checker call in each guarded test-case statement.
pub const HASKELL_CATCH_PRE: &'static str = "\n  catch (";

/// What stands after the checker call in each guarded test-case statement:
/// the per-case guard that reports an uncaught exception as an `r,DETAIL`
/// line, its newlines folded into the one line.
pub const HASKELL_CATCH_POST: &'static str = ") (\\(e :: SomeException) -> putStrLn (\"r\" ++ \",\" ++ intercalate \"\\\\n\" (lines (show e))))\n";

/// How one parameter is rendered as a parenthesised, typed Haskell literal.
/// A boolean's first character moves to title case; a negative number keeps
/// its sign inside the parentheses and so stays a valid literal.
pub open spec fn haskell_format_spec(p: ParameterView) -> Seq<char> {
    match p.value_type {
        ParameterType::Int => "("@ + p.value + " :: Int)"@,
        ParameterType::Float => "("@ + p.value + " :: Double)"@,
        ParameterType::Char => "('"@ + p.value + "' :: Char)"@,
        ParameterType::String => "(\""@ + p.value + "\" :: String)"@,
        ParameterType::Bool => "("@ + upper_first(p.value) + " :: Bool)"@,
    }
}

/// The unguarded checker call of one test case: the solution applied to the
/// formatted inputs, compared against the tuple of formatted expected outputs.
pub open spec fn haskell_case_stmt(c: TestCaseView) -> Seq<char> {
    "testChecker (solution "@ + join(
        c.input_parameters.map_values(|p: ParameterView| haskell_format_spec(p)),
        " "@,
    ) + ") ("@ + join(
        c.output_parameters.map_values(|p: ParameterView| haskell_format_spec(p)),
        ","@,
    ) + ")"@
}

/// One test case's harness statement: the checker call inside the per-case
/// exception guard.
pub open spec fn haskell_guarded_stmt(c: TestCaseView) -> Seq<char> {
    HASKELL_CATCH_PRE@ + haskell_case_stmt(c) + HASKELL_CATCH_POST@
}

/// The generated statements of all test cases, joined with newlines.
pub open spec fn haskell_cases_spec(cs: Seq<TestCaseView>) -> Seq<char> {
    join(cs.map_values(|c: TestCaseView| haskell_guarded_stmt(c)), "\n"@)
}

/// The compile steps and the execution for the Haskell toolchain rooted at
/// `dir`: compile the solution, the fixed test runner, then the harness
/// linked against both, and execute the built binary under the restricted
/// user.  The solution and harness compiles answer for user code; the test
/// runner's does not.
pub open spec fn haskell_run_plan_spec(dir: Seq<char>) -> RunPlanView {
    RunPlanView {
        compile_steps: seq![
            CompileStepView {
                command: ToolCommandView {
                    program: "ghc"@,
                    args: seq![dir + "/Solution.hs"@, "-O2"@],
                    restricted: false,
                },
                user_owned: true,
            },
            CompileStepView {
                command: ToolCommandView {
                    program: "ghc"@,
                    args: seq![dir + "/TestRunner.hs"@, "-O2"@],
                    restricted: false,
                },
                user_owned: false,
            },
            CompileStepView {
                command: ToolCommandView {
                    program: "ghc"@,
                    args: seq![
                        "-o"@,
                        dir + "/test"@,
                        dir + "/Main.hs"@,
                        "-i"@ + dir,
                        "-O2"@,
                    ],
                    restricted: false,
                },
                user_owned: true,
            },
        ],
        execute: ToolCommandView {
            program: dir + "/test"@,
            args: Seq::empty(),
            restricted: true,
        },
    }
}

/// Renders one parameter as a parenthesised, typed Haskell literal.
fn haskell_format(parameter: &Parameter) -> (r: String)
    requires
        parameter_formattable(parameter@),
    ensures
        r@ == haskell_format_spec(parameter@),
{
    match parameter.value_type {
        ParameterType::Int => {
            let mut r = "(".to_owned();
            r.append(parameter.value.as_str());
            r.append(" :: Int)");
            assert(r@ =~= haskell_format_spec(parameter@));
            r
        },
        ParameterType::Float => {
            let mut r = "(".to_owned();
            r.append(parameter.value.as_str());
            r.append(" :: Double)");
            assert(r@ =~= haskell_format_spec(parameter@));
            r
        },
        ParameterType::Char => {
            let mut r = "('".to_owned();
            r.append(parameter.value.as_str());
            r.append("' :: Char)");
            assert(r@ =~= haskell_format_spec(parameter@));
            r
        },
        ParameterType::String => {
            let mut r = "(\"".to_owned();
            r.append(parameter.value.as_str());
            r.append("\" :: String)");
            assert(r@ =~= haskell_format_spec(parameter@));
            r
        },
        ParameterType::Bool => {
            let title = upper_first_str(parameter.value.as_str());
            let mut r = "(".to_owned();
            r.append(title.as_str());
            r.append(" :: Bool)");
            assert(r@ =~= haskell_format_spec(parameter@));
            r
        },
    }
}

/// The parameters of one test case, each rendered as a Haskell literal,
/// joined with `sep`.
fn haskell_formatted_params(ps: &Vec<Parameter>, sep: &str) -> (r: String)
    requires
        parameters_formattable(params_view(ps@)),
    ensures
        r@ == join(params_view(ps@).map_values(|p: ParameterView| haskell_format_spec(p)), sep@),
{
    let ghost pviews = params_view(ps@);
    let ghost fmt = |p: ParameterView| haskell_format_spec(p);
    let mut parts: Vec<String> = Vec::new();
    let mut k: usize = 0;
    while k < ps.len()
        invariant
            k <= ps@.len(),
            pviews == params_view(ps@),
            fmt == (|p: ParameterView| haskell_format_spec(p)),
            parameters_formattable(pviews),
            parts@.len() == k,
            forall|i: int| 0 <= i < k ==> parts@[i]@ == fmt(pviews[i]),
        decreases ps@.len() - k,
    {
        proof {
            assert(pviews[k as int] == ps@[k as int]@);
        }
        let part = haskell_format(&ps[k]);
        parts.push(part);
        k = k + 1;
    }
    let r = crate::text::join_strings(&parts, sep);
    proof {
        assert(parts@.map_values(|p: String| p@) =~= pviews.map_values(fmt));
    }
    r
}

/// The language handler for Haskell.
#[derive(Clone, PartialEq, Debug)]
pub struct Haskell {
    /// The job directory of the request being graded.
    pub temp_dir: String,
}

impl LanguageHandler for Haskell {
    open spec fn dir_spec(&self) -> Seq<char> {
        self.temp_dir@
    }

    open spec fn test_file_path_spec(&self) -> Seq<char> {
        self.temp_dir@ + "/Main.hs"@
    }

    open spec fn solution_file_path_spec(&self) -> Seq<char> {
        self.temp_dir@ + "/Solution.hs"@
    }

    open spec fn test_runner_file_path_spec(&self) -> Seq<char> {
        self.temp_dir@ + "/TestRunner.hs"@
    }

    open spec fn base_test_code_spec(&self) -> Seq<char> {
        HASKELL_BASE_TEST_CODE@
    }

    open spec fn test_runner_code_spec(&self) -> Seq<char> {
        HASKELL_TEST_RUNNER@
    }

    open spec fn format_parameter_spec(&self, p: ParameterView) -> Seq<char> {
        haskell_format_spec(p)
    }

    open spec fn test_cases_spec(&self, cases: Seq<TestCaseView>) -> Seq<char> {
        haskell_cases_spec(cases)
    }

    open spec fn run_plan_spec(&self) -> RunPlanView {
        haskell_run_plan_spec(self.temp_dir@)
    }

    fn new(temp_dir: String) -> (r: Self) {
        Haskell { temp_dir }
    }

    fn dir(&self) -> (r: &String) {
        &self.temp_dir
    }

    fn test_file_path(&self) -> (r: String) {
        let mut path = self.temp_dir.clone();
        path.append("/Main.hs");
        path
    }

    fn base_test_code(&self) -> (r: &str) {
        HASKELL_BASE_TEST_CODE
    }

    fn solution_file_path(&self) -> (r: String) {
        let mut path = self.temp_dir.clone();
        path.append("/Solution.hs");
        path
    }

    fn test_runner_file_path(&self) -> (r: String) {
        let mut path = self.temp_dir.clone();
        path.append("/TestRunner.hs");
        path
    }

    fn test_runner_code(&self) -> (r: &str) {
        HASKELL_TEST_RUNNER
    }

    fn generate_test_cases(&self, test_cases: &Vec<TestCase>) -> (r: String) {
        let ghost cviews = cases_view(test_cases@);
        let ghost guarded = |c: TestCaseView| haskell_guarded_stmt(c);
        let mut parts: Vec<String> = Vec::new();
        let mut k: usize = 0;
        while k < test_cases.len()
            invariant
                k <= test_cases@.len(),
                cviews == cases_view(test_cases@),
                guarded == (|c: TestCaseView| haskell_guarded_stmt(c)),
                cases_formattable(cviews),
                parts@.len() == k,
                forall|i: int| 0 <= i < k ==> parts@[i]@ == guarded(cviews[i]),
            decreases test_cases@.len() - k,
        {
            let case = &test_cases[k];
            proof {
                assert(cviews[k as int] == case@);
            }
            let formatted_inputs = haskell_formatted_params(&case.input_parameters, " ");
            let formatted_outputs = haskell_formatted_params(&case.output_parameters, ",");
            let mut stmt = "testChecker (solution ".to_owned();
            stmt.append(formatted_inputs.as_str());
            stmt.append(") (");
            stmt.append(formatted_outputs.as_str());
            stmt.append(")");
            proof {
                assert(stmt@ =~= haskell_case_stmt(cviews[k as int]));
            }
            let mut guarded_stmt = HASKELL_CATCH_PRE.to_owned();
            guarded_stmt.append(stmt.as_str());
            guarded_stmt.append(HASKELL_CATCH_POST);
            proof {
                assert(guarded_stmt@ =~= haskell_guarded_stmt(cviews[k as int]));
            }
            parts.push(guarded_stmt);
            k = k + 1;
        }
        let r = crate::text::join_strings(&parts, "\n");
        proof {
            assert(parts@.map_values(|p: String| p@) =~= cviews.map_values(guarded));
        }
        r
    }

    fn format_parameter(&self, parameter: &Parameter) -> (r: String) {
        haskell_format(parameter)
    }

    fn run_plan(&self) -> (r: RunPlan) {
        let mut solution_path = self.temp_dir.clone();
        solution_path.append("/Solution.hs");
        let mut runner_path = self.temp_dir.clone();
        runner_path.append("/TestRunner.hs");
        let mut main_path = self.temp_dir.clone();
        main_path.append("/Main.hs");
        let mut exe_path = self.temp_dir.clone();
        exe_path.append("/test");
        let mut import_path = "-i".to_owned();
        import_path.append(self.temp_dir.as_str());

        let mut solution_args: Vec<String> = Vec::new();
        solution_args.push(solution_path);
        solution_args.push("-O2".to_owned());

        let mut runner_args: Vec<String> = Vec::new();
        runner_args.push(runner_path);
        runner_args.push("-O2".to_owned());

        let mut link_args: Vec<String> = Vec::new();
        link_args.push("-o".to_owned());
        link_args.push(exe_path.clone());
        link_args.push(main_path);
        link_args.push(import_path);
        link_args.push("-O2".to_owned());

        let mut compile_steps: Vec<CompileStep> = Vec::new();
        compile_steps.push(
            CompileStep {
                command: ToolCommand {
                    program: "ghc".to_owned(),
                    args: solution_args,
                    restricted: false,
                },
                user_owned: true,
            },
        );
        compile_steps.push(
            CompileStep {
                command: ToolCommand {
                    program: "ghc".to_owned(),
                    args: runner_args,
                    restricted: false,
                },
                user_owned: false,
            },
        );
        compile_steps.push(
            CompileStep {
                command: ToolCommand {
                    program: "ghc".to_owned(),
                    args: link_args,
                    restricted: false,
                },
                user_owned: true,
            },
        );
        let execute = ToolCommand { program: exe_path, args: Vec::new(), restricted: true };
        let plan = RunPlan { compile_steps, execute };
        proof {
            assert(plan@ =~~= haskell_run_plan_spec(self.temp_dir@));
        }
        plan
    }
}


/// Boolean round trip: the canonical boolean values format to Haskell's
/// title-case boolean literals.
pub proof fn lemma_haskell_bool_spelling(p: ParameterView)
    requires
        p.value_type == ParameterType::Bool,
    ensures
        p.value == "true"@ ==> haskell_format_spec(p) == "(True :: Bool)"@,
        p.value == "false"@ ==> haskell_format_spec(p) == "(False :: Bool)"@,
{
    reveal_strlit("true");
    reveal_strlit("false");
    reveal_strlit("True");
    reveal_strlit("False");
    reveal_strlit("(");
    reveal_strlit(" :: Bool)");
    reveal_strlit("(True :: Bool)");
    reveal_strlit("(False :: Bool)");
    if p.value == "true"@ {
        assert(upper_first(p.value) =~= "True"@);
        assert(haskell_format_spec(p) =~= "(True :: Bool)"@);
    }
    if p.value == "false"@ {
        assert(upper_first(p.value) =~= "False"@);
        assert(haskell_format_spec(p) =~= "(False :: Bool)"@);
    }
}

/// Negative numerics stay valid literals: a numeric value is carried into the
/// formatted form verbatim, directly after an opening parenthesis, so a
/// leading minus sign stays attached to its number inside the parentheses.
pub proof fn lemma_haskell_numeric_parenthesised(p: ParameterView)
    requires
        p.value_type == ParameterType::Int || p.value_type == ParameterType::Float,
    ensures
        haskell_format_spec(p).len() == p.value.len() + (if p.value_type
            == ParameterType::Int { 9int } else { 12int }),
        haskell_format_spec(p)[0] == '(',
        haskell_format_spec(p).last() == ')',
        haskell_format_spec(p).subrange(1, 1 + p.value.len() as int) == p.value,
{
    reveal_strlit("(");
    reveal_strlit(" :: Int)");
    reveal_strlit(" :: Double)");
    let r = haskell_format_spec(p);
    if p.value_type == ParameterType::Int {
        assert(r.subrange(1, 1 + p.value.len() as int) =~= p.value);
        assert(r.last() == " :: Int)"@.last());
    } else {
        assert(r.subrange(1, 1 + p.value.len() as int) =~= p.value);
        assert(r.last() == " :: Double)"@.last());
    }
}

} // verus!
