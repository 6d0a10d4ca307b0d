//! The language handler for Python: file layout, harness template and
//! parameter formatting for an interpreted run of `python`.

use vstd::prelude::*;

use super::{
    cases_formattable, parameter_formattable, parameters_formattable, CompileStepView,
    LanguageHandler, RunPlan, RunPlanView, ToolCommand, ToolCommandView,
};
use crate::model::{cases_view, params_view, Parameter, ParameterType, ParameterView, TestCase,
    TestCaseView};
use crate::text::{join, upper_first, upper_first_str};

verus! {

/// The main-program template.  The marker line is replaced by the generated
/// test-case statements.
pub const PYTHON_BASE_TEST_CODE: &'static str = "\nfrom solution import solution\nfrom test_runner import test_checker\n\ndef main():\nTEST_CASES\n\nif __name__ == \"__main__\":\n    exit(main())\n";

/// The fixed test-runner helper: prints `p` for a matching answer and an
/// `f,ACTUAL,EXPECTED` line otherwise.
pub const PYTHON_TEST_RUNNER: &'static str = "\ndef test_checker(actual, expected):\n    if actual == expected:\n        print(\"p\")\n    else:\n        print(\"f\" + \",\" + repr(actual) + \",\" + repr(expected))\n";

/// What stands before the checker call in each guarded test-case statement.
pub const PYTHON_TRY_PRE: &'static str = "\n    try:\n        ";

/// What stands after the checker call in each guarded test-case statement:
/// the per-case guard that reports a caught exception as an `r,DETAIL` line.
pub const PYTHON_TRY_POST: &'static str = "\n    except Exception as e:\n        print(\"r,\" + str(e))\n";

/// How one parameter is rendered as a Python literal.  Numbers stand as they
/// are — a negative sign is already a valid prefix of a Python literal —
/// characters and strings are double-quoted, and a boolean's first character
/// moves to title case.
pub open spec fn python_format_spec(p: ParameterView) -> Seq<char> {
    match p.value_type {
        ParameterType::Int => p.value,
        ParameterType::Float => p.value,
        ParameterType::Char => "\""@ + p.value + "\""@,
        ParameterType::String => "\""@ + p.value + "\""@,
        ParameterType::Bool => upper_first(p.value),
    }
}

/// The unguarded checker call of one test case: the solution applied to the
/// formatted inputs, compared against the tuple of formatted expected
/// outputs.  The statement carries its own indentation and line break.
pub open spec fn python_case_stmt(c: TestCaseView) -> Seq<char> {
    "        test_checker(solution("@ + join(
        c.input_parameters.map_values(|p: ParameterView| python_format_spec(p)),
        ","@,
    ) + "), ("@ + join(
        c.output_parameters.map_values(|p: ParameterView| python_format_spec(p)),
        ","@,
    ) + "))\n"@
}

/// One test case's harness statement: the checker call inside the per-case
/// exception guard.
pub open spec fn python_guarded_stmt(c: TestCaseView) -> Seq<char> {
    PYTHON_TRY_PRE@ + python_case_stmt(c) + PYTHON_TRY_POST@
}

/// The generated statements of all test cases, joined with newlines.
pub open spec fn python_cases_spec(cs: Seq<TestCaseView>) -> Seq<char> {
    join(cs.map_values(|c: TestCaseView| python_guarded_stmt(c)), "\n"@)
}

/// The run plan for the Python toolchain rooted at `dir`: nothing to compile;
/// the interpreter runs the harness under the restricted user.
pub open spec fn python_run_plan_spec(dir: Seq<char>) -> RunPlanView {
    RunPlanView {
        compile_steps: Seq::empty(),
        execute: ToolCommandView {
            program: "python"@,
            args: seq![dir + "/main.py"@],
            restricted: true,
        },
    }
}

/// Renders one parameter as a Python literal.
fn python_format(parameter: &Parameter) -> (r: String)
    requires
        parameter_formattable(parameter@),
    ensures
        r@ == python_format_spec(parameter@),
{
    match parameter.value_type {
        ParameterType::Int => {
            let r = parameter.value.clone();
            assert(r@ =~= python_format_spec(parameter@));
            r
        },
        ParameterType::Float => {
            let r = parameter.value.clone();
            assert(r@ =~= python_format_spec(parameter@));
            r
        },
        ParameterType::Char => {
            let mut r = "\"".to_owned();
            r.append(parameter.value.as_str());
            r.append("\"");
            assert(r@ =~= python_format_spec(parameter@));
            r
        },
        ParameterType::String => {
            let mut r = "\"".to_owned();
            r.append(parameter.value.as_str());
            r.append("\"");
            assert(r@ =~= python_format_spec(parameter@));
            r
        },
        ParameterType::Bool => {
            let r = upper_first_str(parameter.value.as_str());
            assert(r@ =~= python_format_spec(parameter@));
            r
        },
    }
}

/// The parameters of one test case, each rendered as a Python literal,
/// joined with `sep`.
fn python_formatted_params(ps: &Vec<Parameter>, sep: &str) -> (r: String)
    requires
        parameters_formattable(params_view(ps@)),
    ensures
        r@ == join(params_view(ps@).map_values(|p: ParameterView| python_format_spec(p)), sep@),
{
    let ghost pviews = params_view(ps@);
    let ghost fmt = |p: ParameterView| python_format_spec(p);
    let mut parts: Vec<String> = Vec::new();
    let mut k: usize = 0;
    while k < ps.len()
        invariant
            k <= ps@.len(),
            pviews == params_view(ps@),
            fmt == (|p: ParameterView| python_format_spec(p)),
            parameters_formattable(pviews),
            parts@.len() == k,
            forall|i: int| 0 <= i < k ==> parts@[i]@ == fmt(pviews[i]),
        decreases ps@.len() - k,
    {
        proof {
            assert(pviews[k as int] == ps@[k as int]@);
        }
        let part = python_format(&ps[k]);
        parts.push(part);
        k = k + 1;
    }
    let r = crate::text::join_strings(&parts, sep);
    proof {
        assert(parts@.map_values(|p: String| p@) =~= pviews.map_values(fmt));
    }
    r
}

/// The language handler for Python.
#[derive(Clone, PartialEq, Debug)]
pub struct Python {
    /// The job directory of the request being graded.
    pub temp_dir: String,
}

impl LanguageHandler for Python {
    open spec fn dir_spec(&self) -> Seq<char> {
        self.temp_dir@
    }

    open spec fn test_file_path_spec(&self) -> Seq<char> {
        self.temp_dir@ + "/main.py"@
    }

    open spec fn solution_file_path_spec(&self) -> Seq<char> {
        self.temp_dir@ + "/solution.py"@
    }

    open spec fn test_runner_file_path_spec(&self) -> Seq<char> {
        self.temp_dir@ + "/test_runner.py"@
    }

    open spec fn base_test_code_spec(&self) -> Seq<char> {
        PYTHON_BASE_TEST_CODE@
    }

    open spec fn test_runner_code_spec(&self) -> Seq<char> {
        PYTHON_TEST_RUNNER@
    }

    open spec fn format_parameter_spec(&self, p: ParameterView) -> Seq<char> {
        python_format_spec(p)
    }

    open spec fn test_cases_spec(&self, cases: Seq<TestCaseView>) -> Seq<char> {
        python_cases_spec(cases)
    }

    open spec fn run_plan_spec(&self) -> RunPlanView {
        python_run_plan_spec(self.temp_dir@)
    }

    fn new(temp_dir: String) -> (r: Self) {
        Python { temp_dir }
    }

    fn dir(&self) -> (r: &String) {
        &self.temp_dir
    }

    fn test_file_path(&self) -> (r: String) {
        let mut path = self.temp_dir.clone();
        path.append("/main.py");
        path
    }

    fn base_test_code(&self) -> (r: &str) {
        PYTHON_BASE_TEST_CODE
    }

    fn solution_file_path(&self) -> (r: String) {
        let mut path = self.temp_dir.clone();
        path.append("/solution.py");
        path
    }

    fn test_runner_file_path(&self) -> (r: String) {
        let mut path = self.temp_dir.clone();
        path.append("/test_runner.py");
        path
    }

    fn test_runner_code(&self) -> (r: &str) {
        PYTHON_TEST_RUNNER
    }

    fn generate_test_cases(&self, test_cases: &Vec<TestCase>) -> (r: String) {
        let ghost cviews = cases_view(test_cases@);
        let ghost guarded = |c: TestCaseView| python_guarded_stmt(c);
        let mut parts: Vec<String> = Vec::new();
        let mut k: usize = 0;
        while k < test_cases.len()
            invariant
                k <= test_cases@.len(),
                cviews == cases_view(test_cases@),
                guarded == (|c: TestCaseView| python_guarded_stmt(c)),
                cases_formattable(cviews),
                parts@.len() == k,
                forall|i: int| 0 <= i < k ==> parts@[i]@ == guarded(cviews[i]),
            decreases test_cases@.len() - k,
        {
            let case = &test_cases[k];
            proof {
                assert(cviews[k as int] == case@);
            }
            let formatted_inputs = python_formatted_params(&case.input_parameters, ",");
            let formatted_outputs = python_formatted_params(&case.output_parameters, ",");
            let mut stmt = "        test_checker(solution(".to_owned();
            stmt.append(formatted_inputs.as_str());
            stmt.append("), (");
            stmt.append(formatted_outputs.as_str());
            stmt.append("))\n");
            proof {
                assert(stmt@ =~= python_case_stmt(cviews[k as int]));
            }
            let mut guarded_stmt = PYTHON_TRY_PRE.to_owned();
            guarded_stmt.append(stmt.as_str());
            guarded_stmt.append(PYTHON_TRY_POST);
            proof {
                assert(guarded_stmt@ =~= python_guarded_stmt(cviews[k as int]));
            }
            parts.push(guarded_stmt);
            k = k + 1;
        }
        let r = crate::text::join_strings(&parts, "\n");
        proof {
            assert(parts@.map_values(|p: String| p@) =~= cviews.map_values(guarded));
        }
        r
    }

    fn format_parameter(&self, parameter: &Parameter) -> (r: String) {
        python_format(parameter)
    }

    fn run_plan(&self) -> (r: RunPlan) {
        let mut main_path = self.temp_dir.clone();
        main_path.append("/main.py");
        let mut args: Vec<String> = Vec::new();
        args.push(main_path);
        let execute = ToolCommand { program: "python".to_owned(), args, restricted: true };
        let plan = RunPlan { compile_steps: Vec::new(), execute };
        proof {
            assert(plan@ =~~= python_run_plan_spec(self.temp_dir@));
        }
        plan
    }
}


/// Boolean round trip: the canonical boolean values format to Python's
/// title-case boolean literals.
pub proof fn lemma_python_bool_spelling(p: ParameterView)
    requires
        p.value_type == ParameterType::Bool,
    ensures
        p.value == "true"@ ==> python_format_spec(p) == "True"@,
        p.value == "false"@ ==> python_format_spec(p) == "False"@,
{
    reveal_strlit("true");
    reveal_strlit("false");
    reveal_strlit("True");
    reveal_strlit("False");
    if p.value == "true"@ {
        assert(upper_first(p.value) =~= "True"@);
    }
    if p.value == "false"@ {
        assert(upper_first(p.value) =~= "False"@);
    }
}

/// Negative numerics stay valid literals: a numeric value is carried into the
/// formatted form verbatim, where a leading minus sign is already a valid
/// Python prefix.
pub proof fn lemma_python_numeric_verbatim(p: ParameterView)
    requires
        p.value_type == ParameterType::Int || p.value_type == ParameterType::Float,
    ensures
        python_format_spec(p) == p.value,
{
}

} // verus!
