//! The wire format a harness reports results in, and its parser.
//!
//! A harness writes one line per executed test case, in submission order:
//! `p` for a pass, `f,ACTUAL,EXPECTED` for a wrong answer (split on `,` into
//! at most three parts, so `EXPECTED` may itself hold commas), and `r,DETAIL`
//! for a runtime error the per-case guard caught.  Two guard regimes exist:
//! with per-case guards every test case writes its line, so exactly as many
//! lines as test cases are owed ([`parse_output`]); with halting guards an
//! uncaught error stops the harness between cases, so a short read means a
//! runtime error at the first missing position and unknown verdicts behind it
//! ([`parse_halting_output`]).

use vstd::prelude::*;

use crate::error::SubmissionError;
use crate::model::{
    cases_view, duplicate_parameters, results_view, ParameterView, TestCase, TestCaseFailureReason,
    TestCaseResult, TestCaseResultView, TestCaseFailureReasonView, TestResult, TestResultView,
    TestCaseView,
};
use crate::text::{
    find_char_in, first_at, lemma_first_at, split_lines, strip_cr, trim_trailing, trimmed_end,
};

verus! {

/// The verdict one wire-format line stands for, given the input parameters of
/// the test case it belongs to; `None` when the line breaks the protocol.
pub open spec fn line_test_result(line: Seq<char>, inputs: Seq<ParameterView>) -> Option<
    TestResultView,
> {
    let i = first_at(line, ',');
    let tag = line.take(i);
    if line.len() == 0 {
        None
    } else if tag == seq!['p'] {
        Some(TestResultView::Pass)
    } else if tag == seq!['f'] {
        if i >= line.len() {
            None
        } else {
            let rest = line.skip(i + 1);
            let j = first_at(rest, ',');
            if j >= rest.len() {
                None
            } else {
                Some(
                    TestResultView::Failure(
                        TestCaseFailureReasonView::WrongAnswer {
                            input_parameters: inputs,
                            actual: rest.take(j),
                            expected: rest.skip(j + 1),
                        },
                    ),
                )
            }
        }
    } else if tag == seq!['r'] {
        let details = if i >= line.len() {
            Seq::empty()
        } else {
            line.skip(i + 1)
        };
        Some(TestResultView::Failure(TestCaseFailureReasonView::RuntimeError(details)))
    } else {
        None
    }
}

/// Every produced line, paired with its test case, is well-formed.
pub open spec fn all_lines_ok(lines: Seq<Seq<char>>, cases: Seq<TestCaseView>) -> bool {
    forall|i: int|
        0 <= i < lines.len() && i < cases.len() ==> line_test_result(
            lines[i],
            cases[i].input_parameters,
        ) is Some
}

/// The verdict of test case `i` when the harness produced a line for it.
pub open spec fn line_result_at(
    lines: Seq<Seq<char>>,
    cases: Seq<TestCaseView>,
    i: int,
) -> TestCaseResultView {
    TestCaseResultView {
        id: cases[i].id,
        test_result: line_test_result(lines[i], cases[i].input_parameters)->Some_0,
    }
}

/// What the parser returns under per-case guards: the trimmed output must be
/// non-empty and hold exactly one well-formed line per test case, in order;
/// anything else breaks the protocol and yields no result.
pub open spec fn parse_output_spec(out: Seq<char>, cases: Seq<TestCaseView>) -> Option<
    Seq<TestCaseResultView>,
> {
    let t = trim_trailing(out);
    let lines = split_lines(t);
    if t.len() == 0 {
        None
    } else if lines.len() != cases.len() {
        None
    } else if !all_lines_ok(lines, cases) {
        None
    } else {
        Some(Seq::new(cases.len(), |i: int| line_result_at(lines, cases, i)))
    }
}

/// The verdict of test case `i` under halting guards: derived from its line
/// where one was produced; a runtime error with no detail at the first
/// position whose line is missing; unknown behind that.
pub open spec fn halting_result_at(
    lines: Seq<Seq<char>>,
    cases: Seq<TestCaseView>,
    i: int,
) -> TestCaseResultView {
    TestCaseResultView {
        id: cases[i].id,
        test_result: if i < lines.len() {
            line_test_result(lines[i], cases[i].input_parameters)->Some_0
        } else if i == lines.len() {
            TestResultView::Failure(TestCaseFailureReasonView::RuntimeError(Seq::empty()))
        } else {
            TestResultView::Unknown
        },
    }
}

/// What the parser returns under halting guards: the produced lines, at most
/// one per test case and each well-formed, give the first verdicts; a
/// truncated read gives a runtime error and then unknown verdicts.
pub open spec fn parse_halting_spec(out: Seq<char>, cases: Seq<TestCaseView>) -> Option<
    Seq<TestCaseResultView>,
> {
    let lines = split_lines(trim_trailing(out));
    if lines.len() > cases.len() {
        None
    } else if !all_lines_ok(lines, cases) {
        None
    } else {
        Some(Seq::new(cases.len(), |i: int| halting_result_at(lines, cases, i)))
    }
}

/// Reads the one line at `[start, end)` of `s` as the verdict of `case`.
fn parse_line(s: &str, start: usize, end: usize, case: &TestCase) -> (r: Result<
    TestCaseResult,
    SubmissionError,
>)
    requires
        start <= end <= s@.len(),
    ensures
        match line_test_result(s@.subrange(start as int, end as int), case@.input_parameters) {
            Some(tr) => r is Ok && r->Ok_0@ == (TestCaseResultView {
                id: case.id,
                test_result: tr,
            }),
            None => r is Err && r->Err_0 == SubmissionError::Internal,
        },
{
    let ghost line = s@.subrange(start as int, end as int);
    if start == end {
        return Err(SubmissionError::Internal);
    }
    let i = find_char_in(s, start, end, ',');
    proof {
        assert(first_at(line, ',') == i - start);
        lemma_first_at(line, ',');
    }
    if i - start != 1 {
        proof {
            let tag = line.take(i - start);
            assert(tag.len() != 1);
            assert(seq!['p'].len() == 1);
            assert(seq!['f'].len() == 1);
            assert(seq!['r'].len() == 1);
        }
        return Err(SubmissionError::Internal);
    }
    let c = s.get_char(start);
    proof {
        assert(line.take(1) =~= seq![line[0]]);
        assert(line[0] == s@[start as int]);
        assert(seq![line[0]][0] == line[0]);
        assert(seq!['p'][0] == 'p');
        assert(seq!['f'][0] == 'f');
        assert(seq!['r'][0] == 'r');
        assert(seq!['p'].len() == 1);
        assert(seq!['f'].len() == 1);
        assert(seq!['r'].len() == 1);
    }
    if c == 'p' {
        Ok(TestCaseResult { id: case.id, test_result: TestResult::Pass })
    } else if c == 'f' {
        if i == end {
            return Err(SubmissionError::Internal);
        }
        let ghost rest = line.skip(i - start + 1);
        proof {
            assert(rest =~= s@.subrange(i + 1, end as int));
        }
        let j = find_char_in(s, i + 1, end, ',');
        proof {
            assert(first_at(rest, ',') == j - (i + 1));
            lemma_first_at(rest, ',');
        }
        if j == end {
            return Err(SubmissionError::Internal);
        }
        let actual = s.substring_char(i + 1, j).to_owned();
        let expected = s.substring_char(j + 1, end).to_owned();
        let inputs = duplicate_parameters(&case.input_parameters);
        proof {
            assert(actual@ =~= rest.take(j - (i + 1)));
            assert(expected@ =~= rest.skip(j - (i + 1) + 1));
        }
        Ok(
            TestCaseResult {
                id: case.id,
                test_result: TestResult::Failure(
                    TestCaseFailureReason::WrongAnswer { input_parameters: inputs, actual, expected },
                ),
            },
        )
    } else if c == 'r' {
        let details = if i == end {
            String::new()
        } else {
            s.substring_char(i + 1, end).to_owned()
        };
        proof {
            if i < end {
                assert(details@ =~= line.skip(i - start + 1));
            } else {
                assert(details@ =~= Seq::<char>::empty());
            }
        }
        Ok(
            TestCaseResult {
                id: case.id,
                test_result: TestResult::Failure(TestCaseFailureReason::RuntimeError(details)),
            },
        )
    } else {
        Err(SubmissionError::Internal)
    }
}

/// Reads the lines of `s` up to `end`, pairing the line at each position with
/// the test case at the same position.  Returns the verdicts of the produced
/// lines and how many there were; fails on a malformed line and on more lines
/// than test cases.
fn parse_lines(s: &str, end: usize, cases: &Vec<TestCase>) -> (r: Result<
    (Vec<TestCaseResult>, usize),
    SubmissionError,
>)
    requires
        end <= s@.len(),
    ensures
        ({
            let lines = split_lines(s@.subrange(0, end as int));
            match r {
                Ok(pair) => {
                    &&& pair.1 == lines.len()
                    &&& pair.1 <= cases@.len()
                    &&& pair.0@.len() == lines.len()
                    &&& all_lines_ok(lines, cases_view(cases@))
                    &&& forall|i: int|
                        0 <= i < lines.len() ==> results_view(pair.0@)[i] == line_result_at(
                            lines,
                            cases_view(cases@),
                            i,
                        )
                },
                Err(e) => {
                    &&& e == SubmissionError::Internal
                    &&& (lines.len() > cases@.len() || !all_lines_ok(lines, cases_view(cases@)))
                },
            }
        }),
{
    let ghost t = s@.subrange(0, end as int);
    let ghost lines = split_lines(t);
    let ghost cviews = cases_view(cases@);
    let mut results: Vec<TestCaseResult> = Vec::new();
    let mut idx: usize = 0;
    let mut pos: usize = 0;
    proof {
        assert(t.skip(0) =~= t);
        assert(lines.skip(0) =~= lines);
    }
    while pos < end
        invariant
            end <= s@.len(),
            t == s@.subrange(0, end as int),
            lines == split_lines(t),
            cviews == cases_view(cases@),
            idx <= cases@.len(),
            idx == results@.len(),
            idx <= lines.len(),
            pos <= end + 1,
            pos <= end ==> split_lines(t.skip(pos as int)) == lines.skip(idx as int),
            pos > end ==> idx == lines.len(),
            forall|i: int|
                0 <= i < idx ==> line_test_result(lines[i], cviews[i].input_parameters) is Some,
            forall|i: int| 0 <= i < idx ==> results_view(results@)[i] == line_result_at(
                lines,
                cviews,
                i,
            ),
        ensures
            pos >= end,
        decreases end + 1 - pos,
    {
        let ghost rem = t.skip(pos as int);
        proof {
            assert(rem =~= s@.subrange(pos as int, end as int));
            assert(rem.len() > 0);
        }
        let nl = find_char_in(s, pos, end, '\n');
        proof {
            assert(first_at(rem, '\n') == nl - pos);
            lemma_first_at(rem, '\n');
        }
        let cend: usize = if nl > pos && s.get_char(nl - 1) == '\r' {
            nl - 1
        } else {
            nl
        };
        let ghost cur = strip_cr(rem.take(nl - pos));
        proof {
            assert(rem.take(nl - pos) =~= s@.subrange(pos as int, nl as int));
            if nl > pos && s@[nl - 1] == '\r' {
                assert(rem.take(nl - pos).last() == s@[nl - 1]);
                assert(cur =~= s@.subrange(pos as int, cend as int));
            } else {
                if nl > pos {
                    assert(rem.take(nl - pos).last() == s@[nl - 1]);
                }
                assert(cur =~= s@.subrange(pos as int, cend as int));
            }
            // `rem` decomposes as its first line, then the rest.
            if nl < end {
                assert(split_lines(rem) == seq![cur] + split_lines(rem.skip(nl - pos + 1)));
                assert(rem.skip(nl - pos + 1) =~= t.skip(nl + 1));
            } else {
                assert(split_lines(rem) == seq![cur]);
            }
            assert(lines.skip(idx as int).len() >= 1);
            assert(lines.len() > idx);
            assert(lines[idx as int] == lines.skip(idx as int)[0]);
            assert(lines[idx as int] == cur);
        }
        if idx == cases.len() {
            return Err(SubmissionError::Internal);
        }
        let case = &cases[idx];
        proof {
            assert(cviews[idx as int] == cases@[idx as int]@);
        }
        let parsed = parse_line(s, pos, cend, case);
        let tcr = match parsed {
            Ok(tcr) => tcr,
            Err(_) => {
                proof {
                    assert(line_test_result(
                        lines[idx as int],
                        cviews[idx as int].input_parameters,
                    ) is None);
                }
                return Err(SubmissionError::Internal);
            },
        };
        let ghost results0 = results@;
        results.push(tcr);
        proof {
            assert(results@ == results0.push(tcr));
            assert forall|i: int| 0 <= i < idx + 1 implies results_view(results@)[i]
                == line_result_at(lines, cviews, i) by {
                if i < idx {
                    assert(results@[i] == results0[i]);
                    assert(results_view(results0)[i] == line_result_at(lines, cviews, i));
                } else {
                    assert(results@[i] == tcr);
                }
            }
            if nl < end {
                assert((seq![cur] + split_lines(t.skip(nl + 1))).skip(1) =~= split_lines(
                    t.skip(nl + 1),
                ));
                assert(lines.skip(idx + 1) =~= lines.skip(idx as int).skip(1));
                assert(split_lines(t.skip(nl + 1)) == lines.skip(idx + 1));
            } else {
                assert(lines.skip(idx + 1) =~= lines.skip(idx as int).skip(1));
                assert(lines.skip(idx + 1) =~= Seq::<Seq<char>>::empty());
                assert(lines.len() == idx + 1);
            }
        }
        idx = idx + 1;
        if nl == end {
            pos = end;
            proof {
                assert(t.skip(pos as int) =~= Seq::<char>::empty());
                assert(split_lines(t.skip(pos as int)) =~= Seq::<Seq<char>>::empty());
                assert(lines.skip(idx as int) =~= Seq::<Seq<char>>::empty());
            }
            break ;
        }
        pos = nl + 1;
    }
    proof {
        if pos <= end {
            assert(t.skip(pos as int) =~= Seq::<char>::empty());
            assert(split_lines(t.skip(pos as int)) =~= Seq::<Seq<char>>::empty());
            assert(lines.skip(idx as int).len() == 0);
        }
        assert(idx == lines.len());
    }
    Ok((results, idx))
}

/// Parses the harness output of a run under per-case guards: one well-formed
/// line is owed for every test case.  Empty output, a malformed or empty
/// line, and a line count differing from the test-case count all break the
/// protocol and are internal faults.
pub fn parse_output(test_output: &str, test_cases: &Vec<TestCase>) -> (r: Result<
    Vec<TestCaseResult>,
    SubmissionError,
>)
    ensures
        match parse_output_spec(test_output@, cases_view(test_cases@)) {
            Some(expected) => r is Ok && results_view(r->Ok_0@) == expected,
            None => r is Err && r->Err_0 == SubmissionError::Internal,
        },
{
    let end = trimmed_end(test_output);
    let ghost t = trim_trailing(test_output@);
    if end == 0 {
        proof {
            assert(t.len() == 0);
        }
        return Err(SubmissionError::Internal);
    }
    let parsed = parse_lines(test_output, end, test_cases);
    let (results, k) = match parsed {
        Ok(pair) => pair,
        Err(_) => {
            return Err(SubmissionError::Internal);
        },
    };
    if k != test_cases.len() {
        return Err(SubmissionError::Internal);
    }
    proof {
        let lines = split_lines(t);
        let cviews = cases_view(test_cases@);
        let expected = Seq::new(cviews.len(), |i: int| line_result_at(lines, cviews, i));
        assert(results_view(results@) =~= expected);
    }
    Ok(results)
}

/// Parses the harness output of a run under halting guards: an uncaught error
/// halts the harness between cases, so when fewer lines than test cases were
/// produced, the first missing position is a runtime error and every later
/// one is unknown.  A malformed or empty line, and more lines than test
/// cases, break the protocol and are internal faults.
pub fn parse_halting_output(test_output: &str, test_cases: &Vec<TestCase>) -> (r: Result<
    Vec<TestCaseResult>,
    SubmissionError,
>)
    ensures
        match parse_halting_spec(test_output@, cases_view(test_cases@)) {
            Some(expected) => r is Ok && results_view(r->Ok_0@) == expected,
            None => r is Err && r->Err_0 == SubmissionError::Internal,
        },
{
    let end = trimmed_end(test_output);
    let ghost t = trim_trailing(test_output@);
    let ghost lines = split_lines(t);
    let ghost cviews = cases_view(test_cases@);
    let parsed = parse_lines(test_output, end, test_cases);
    let (mut results, k) = match parsed {
        Ok(pair) => pair,
        Err(_) => {
            return Err(SubmissionError::Internal);
        },
    };
    proof {
        assert(test_output@.subrange(0, end as int) == t);
    }
    if k < test_cases.len() {
        let case = &test_cases[k];
        let halted = TestCaseResult {
            id: case.id,
            test_result: TestResult::Failure(TestCaseFailureReason::RuntimeError(String::new())),
        };
        let ghost halted_g = halted;
        let ghost results0 = results@;
        results.push(halted);
        proof {
            assert forall|i: int| 0 <= i < k + 1 implies results_view(results@)[i]
                == halting_result_at(lines, cviews, i) by {
                if i < k {
                    assert(results@[i] == results0[i]);
                    assert(results_view(results0)[i] == line_result_at(lines, cviews, i));
                } else {
                    assert(results@[i] == halted_g);
                }
            }
        }
        let mut idx = k + 1;
        while idx < test_cases.len()
            invariant
                k < idx <= test_cases@.len(),
                k == lines.len(),
                cviews == cases_view(test_cases@),
                results@.len() == idx,
                forall|i: int|
                    0 <= i < idx ==> results_view(results@)[i] == halting_result_at(
                        lines,
                        cviews,
                        i,
                    ),
            decreases test_cases@.len() - idx,
        {
            let case = &test_cases[idx];
            let unknown = TestCaseResult { id: case.id, test_result: TestResult::Unknown };
            let ghost unknown_g = unknown;
            let ghost results0 = results@;
            results.push(unknown);
            proof {
                assert forall|i: int| 0 <= i < idx + 1 implies results_view(results@)[i]
                    == halting_result_at(lines, cviews, i) by {
                    if i < idx {
                        assert(results@[i] == results0[i]);
                        assert(results_view(results0)[i] == halting_result_at(lines, cviews, i));
                    } else {
                        assert(results@[i] == unknown_g);
                    }
                }
            }
            idx = idx + 1;
        }
    }
    proof {
        let expected = Seq::new(cviews.len(), |i: int| halting_result_at(lines, cviews, i));
        assert(results_view(results@) =~= expected);
    }
    Ok(results)
}


/// A line that is exactly `p` is a pass, whatever the test case's inputs.
pub proof fn lemma_pass_line(inputs: Seq<ParameterView>)
    ensures
        line_test_result(seq!['p'], inputs) == Some(TestResultView::Pass),
{
    let line: Seq<char> = seq!['p'];
    assert(line.drop_first() =~= Seq::<char>::empty());
    assert(first_at(Seq::<char>::empty(), ',') == 0);
    assert(first_at(line, ',') == 1);
    assert(line.take(1) =~= line);
}

/// One verdict per test case: whichever guard regime parsed the output, a
/// successful parse returns exactly one result for every test case, carrying
/// the same identifier at the same position.
pub proof fn lemma_results_match_cases(out: Seq<char>, cases: Seq<TestCaseView>)
    ensures
        match parse_output_spec(out, cases) {
            Some(rs) => rs.len() == cases.len() && forall|i: int|
                0 <= i < cases.len() ==> rs[i].id == cases[i].id,
            None => true,
        },
        match parse_halting_spec(out, cases) {
            Some(rs) => rs.len() == cases.len() && forall|i: int|
                0 <= i < cases.len() ==> rs[i].id == cases[i].id,
            None => true,
        },
{
}

/// The shape of a successful parse under halting guards, for an output of
/// `k` lines and `n` test cases, `k <= n`: the first `k` verdicts are read
/// from the lines; where `k < n`, position `k` is a runtime error with no
/// detail and every later position is unknown.
pub proof fn lemma_truncated_tail(out: Seq<char>, cases: Seq<TestCaseView>)
    requires
        parse_halting_spec(out, cases) is Some,
    ensures
        ({
            let lines = split_lines(trim_trailing(out));
            let rs = parse_halting_spec(out, cases)->Some_0;
            &&& lines.len() <= cases.len()
            &&& rs.len() == cases.len()
            &&& forall|i: int|
                0 <= i < lines.len() ==> rs[i].test_result == line_test_result(
                    lines[i],
                    cases[i].input_parameters,
                )->Some_0
            &&& lines.len() < cases.len() ==> rs[lines.len() as int].test_result
                == TestResultView::Failure(
                TestCaseFailureReasonView::RuntimeError(Seq::empty()),
            )
            &&& forall|i: int|
                lines.len() < i < cases.len() ==> rs[i].test_result == TestResultView::Unknown
        }),
{
}

/// The parser is a function of its input alone: two parses of the same
/// output against the same test cases return the same verdicts.
pub proof fn lemma_parse_deterministic(
    out: Seq<char>,
    cases: Seq<TestCaseView>,
    r1: Option<Seq<TestCaseResultView>>,
    r2: Option<Seq<TestCaseResultView>>,
)
    requires
        r1 == parse_output_spec(out, cases),
        r2 == parse_output_spec(out, cases),
    ensures
        r1 == r2,
{
}

} // verus!
