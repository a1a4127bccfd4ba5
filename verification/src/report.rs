use vstd::prelude::*;
use vstd::string::*;

use crate::catalog::{TestCase, TestCaseView};
use crate::text::{bool_text, boolean, decimal, decimal_text};

verus! {

/// The report line of one judged case: its name, its score and whether it
/// passed.
pub open spec fn case_line(case: TestCaseView, passed: bool) -> Seq<char> {
    "test "@ + case.name + ", score: "@ + decimal_text(case.score) + ", success: "@ + bool_text(
        passed,
    ) + "\n"@
}

/// The report after the cases judged so far: one line for each, in the order
/// of the catalog.
pub open spec fn case_lines(cases: Seq<TestCaseView>, verdicts: Seq<bool>) -> Seq<char>
    decreases verdicts.len(),
{
    if verdicts.len() == 0 || verdicts.len() > cases.len() {
        Seq::empty()
    } else {
        case_lines(cases, verdicts.drop_last()) + case_line(
            cases[verdicts.len() - 1],
            verdicts.last(),
        )
    }
}

/// One more verdict adds the line of its case to the report.
pub proof fn lemma_case_lines_push(cases: Seq<TestCaseView>, verdicts: Seq<bool>, passed: bool)
    requires
        verdicts.len() < cases.len(),
    ensures
        case_lines(cases, verdicts.push(passed)) == case_lines(cases, verdicts) + case_line(
            cases[verdicts.len() as int],
            passed,
        ),
{
    assert(verdicts.push(passed).drop_last() =~= verdicts);
}

/// The closing block of a report: the time, the total score, the checksum of
/// the submission and the identifier of the environment, one per line, then
/// an empty line.
pub open spec fn summary(
    stamp: Seq<char>,
    score: nat,
    checksum: Seq<char>,
    environment: Seq<char>,
) -> Seq<char> {
    "datetime: "@ + stamp + "\n"@ + "total score: "@ + decimal_text(score) + "\n"@
        + "file checksum: "@ + checksum + "\n"@ + "docker uuid: "@ + environment + "\n\n"@
}

/// Appends the line of a judged case to the report.
pub fn append_case_line(report: &mut String, case: &TestCase, passed: bool)
    ensures
        final(report)@ == old(report)@ + case_line(case@, passed),
{
    let mut line = String::from_str("test ");
    line.append(case.name.as_str());
    line.append(", score: ");
    line.append(decimal(case.score).as_str());
    line.append(", success: ");
    line.append(boolean(passed).as_str());
    line.append("\n");
    report.append(line.as_str());
}

/// Appends the closing block to the report.
pub fn append_summary(
    report: &mut String,
    stamp: &str,
    score: usize,
    checksum: &str,
    environment: &str,
)
    ensures
        final(report)@ == old(report)@ + summary(stamp@, score as nat, checksum@, environment@),
{
    let mut block = String::from_str("datetime: ");
    block.append(stamp);
    block.append("\n");
    block.append("total score: ");
    block.append(decimal(score).as_str());
    block.append("\n");
    block.append("file checksum: ");
    block.append(checksum);
    block.append("\n");
    block.append("docker uuid: ");
    block.append(environment);
    block.append("\n\n");
    report.append(block.as_str());
}

} // verus!
