//! Test results and the report that the runner prints about them.
use vstd::prelude::*;

use crate::numfmt::{digits, render_value, Radix};

verus! {

/// The outcome of one hypervisor test: its name, whether it passed, and the
/// message that explains the outcome.
pub struct TestResult {
    pub name: &'static str,
    pub passed: bool,
    pub message: String,
}

impl TestResult {
    /// A passed result with the given message.
    pub fn pass(name: &'static str, message: &str) -> (r: Self)
        ensures
            r.name == name,
            r.passed,
            r.message@ == message@,
    {
        TestResult { name, passed: true, message: String::from_str(message) }
    }

    /// A failed result with the given message.
    pub fn fail(name: &'static str, message: &str) -> (r: Self)
        ensures
            r.name == name,
            !r.passed,
            r.message@ == message@,
    {
        TestResult { name, passed: false, message: String::from_str(message) }
    }
}

/// How many results of a run passed, failed, and were produced.
pub struct Summary {
    pub passed: usize,
    pub failed: usize,
    pub total: usize,
}

/// The number of passed results in `rs`.
pub open spec fn passed_count(rs: Seq<TestResult>) -> nat
    decreases rs.len(),
{
    if rs.len() == 0 {
        0
    } else {
        passed_count(rs.drop_last()) + if rs.last().passed { 1nat } else { 0nat }
    }
}

/// The passed count is the number of results that passed: the length of the
/// results kept by a filter on `passed`, wherever in the sequence they stand.
pub proof fn lemma_passed_count_counts_passes(rs: Seq<TestResult>)
    ensures
        passed_count(rs) == rs.filter(|r: TestResult| r.passed).len(),
    decreases rs.len(),
{
    reveal(Seq::filter);
    if rs.len() > 0 {
        lemma_passed_count_counts_passes(rs.drop_last());
        let f = |r: TestResult| r.passed;
        let init = rs.drop_last().filter(f);
        assert(rs.filter(f) == (if f(rs.last()) {
            init.push(rs.last())
        } else {
            init
        }));
    }
}

/// Appending a result adds one to the passed count exactly when that result
/// passed, whatever came before it.
pub proof fn lemma_passed_count_push(rs: Seq<TestResult>, r: TestResult)
    ensures
        passed_count(rs.push(r)) == passed_count(rs) + if r.passed { 1nat } else { 0nat },
{
    assert(rs.push(r).drop_last() =~= rs);
}

/// No more results pass than there are.
pub proof fn lemma_passed_count_bounded(rs: Seq<TestResult>)
    ensures
        passed_count(rs) <= rs.len(),
    decreases rs.len(),
{
    if rs.len() > 0 {
        lemma_passed_count_bounded(rs.drop_last());
    }
}

/// Every result of `rs` passed exactly when the passed count is the length.
pub proof fn lemma_all_passed_iff_count(rs: Seq<TestResult>)
    ensures
        (passed_count(rs) == rs.len()) <==> (forall|i: int| 0 <= i < rs.len() ==> #[trigger] rs[i].passed),
    decreases rs.len(),
{
    if rs.len() > 0 {
        let init = rs.drop_last();
        lemma_all_passed_iff_count(init);
        lemma_passed_count_bounded(init);
        if passed_count(rs) == rs.len() {
            assert forall|i: int| 0 <= i < rs.len() implies #[trigger] rs[i].passed by {
                if i < rs.len() - 1 {
                    assert(init[i] == rs[i]);
                }
            }
        }
        if forall|i: int| 0 <= i < rs.len() ==> #[trigger] rs[i].passed {
            assert forall|i: int| 0 <= i < init.len() implies #[trigger] init[i].passed by {
                assert(rs[i] == init[i]);
            }
            assert(rs[rs.len() - 1].passed);
        }
    }
}

/// The rule printed above and below the report's title and totals.
pub open spec fn rule_text() -> Seq<char> {
    "========================================"@
}

/// The status label of a result.
pub open spec fn status_text(passed: bool) -> Seq<char> {
    if passed {
        "✓ PASS"@
    } else {
        "✗ FAIL"@
    }
}

/// The three lines printed for one result: status and name, the indented
/// message, and an empty line.
pub open spec fn entry_text(r: TestResult) -> Seq<char> {
    "["@ + status_text(r.passed) + "] "@ + r.name@ + "\n"@ + "       "@ + r.message@ + "\n"@
        + "\n"@
}

/// The entries of all results, in order.
pub open spec fn entries_text(rs: Seq<TestResult>) -> Seq<char>
    decreases rs.len(),
{
    if rs.len() == 0 {
        Seq::empty()
    } else {
        entries_text(rs.drop_last()) + entry_text(rs.last())
    }
}

/// The banner that opens the report.
pub open spec fn header_text() -> Seq<char> {
    rule_text() + "\n"@ + "Apple Hypervisor Framework ARM64 Tests"@ + "\n"@ + rule_text() + "\n"@
        + "\n"@
}

/// The totals that close the report.
pub open spec fn footer_text(passed: nat, failed: nat, total: nat) -> Seq<char> {
    rule_text() + "\n"@ + "Results: "@ + digits(passed, 10) + " passed, "@ + digits(failed, 10)
        + " failed, "@ + digits(total, 10) + " total"@ + "\n"@ + rule_text() + "\n"@
}

/// The whole text that the runner prints for the results `rs`.
pub open spec fn report_text(rs: Seq<TestResult>) -> Seq<char> {
    header_text() + entries_text(rs) + footer_text(
        passed_count(rs),
        (rs.len() - passed_count(rs)) as nat,
        rs.len(),
    )
}

/// The status label of a result.
pub fn status_label(passed: bool) -> (s: &'static str)
    ensures
        s@ == status_text(passed),
{
    if passed {
        "✓ PASS"
    } else {
        "✗ FAIL"
    }
}

/// Counts the passed and failed results.
pub fn summarize(results: &Vec<TestResult>) -> (s: Summary)
    ensures
        s.total == results.len(),
        s.passed == passed_count(results@),
        s.failed == results.len() - passed_count(results@),
        s.passed + s.failed == s.total,
        s.passed == results@.filter(|r: TestResult| r.passed).len(),
{
    let mut passed: usize = 0;
    for i in 0..results.len()
        invariant
            passed == passed_count(results@.take(i as int)),
            passed <= i,
    {
        proof {
            assert(results@.take(i + 1).drop_last() =~= results@.take(i as int));
        }
        if results[i].passed {
            passed = passed + 1;
        }
    }
    proof {
        assert(results@.take(results.len() as int) =~= results@);
    }
    proof {
        lemma_passed_count_counts_passes(results@);
    }
    Summary { passed, failed: results.len() - passed, total: results.len() }
}

/// The exit status of the runner: 1 when a test failed, 0 otherwise.
pub fn exit_status(summary: &Summary) -> (code: i32)
    ensures
        code == (if summary.failed > 0 { 1i32 } else { 0i32 }),
{
    if summary.failed > 0 {
        1
    } else {
        0
    }
}

/// Appends the three lines of one result.
fn append_entry(out: &mut String, r: &TestResult)
    ensures
        final(out)@ == old(out)@ + entry_text(*r),
{
    out.append("[");
    out.append(status_label(r.passed));
    out.append("] ");
    out.append(r.name);
    out.append("\n");
    out.append("       ");
    out.append(r.message.as_str());
    out.append("\n");
    out.append("\n");
}

/// The text that the runner prints for `results`.
pub fn render_report(results: &Vec<TestResult>) -> (s: String)
    ensures
        s@ == report_text(results@),
{
    let rule = "========================================";
    let mut s = String::from_str(rule);
    s.append("\n");
    s.append("Apple Hypervisor Framework ARM64 Tests");
    s.append("\n");
    s.append(rule);
    s.append("\n");
    s.append("\n");
    assert(s@ == header_text());
    for i in 0..results.len()
        invariant
            s@ == header_text() + entries_text(results@.take(i as int)),
    {
        proof {
            assert(results@.take(i + 1).drop_last() =~= results@.take(i as int));
        }
        append_entry(&mut s, &results[i]);
        assert(s@ =~= header_text() + entries_text(results@.take(i + 1)));
    }
    proof {
        assert(results@.take(results.len() as int) =~= results@);
    }
    let summary = summarize(results);
    s.append(rule);
    s.append("\n");
    s.append("Results: ");
    s.append(render_value(summary.passed as u64, Radix::Decimal).as_str());
    s.append(" passed, ");
    s.append(render_value(summary.failed as u64, Radix::Decimal).as_str());
    s.append(" failed, ");
    s.append(render_value(summary.total as u64, Radix::Decimal).as_str());
    s.append(" total");
    s.append("\n");
    s.append(rule);
    s.append("\n");
    assert(s@ =~= report_text(results@));
    s
}

} // verus!
