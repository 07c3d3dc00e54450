//! A test as a plan: the hypervisor calls it makes, in order, what each
//! failure is reported as, and what each read must give. The verdict of a
//! test is a function of the plan and of the answers the hypervisor gave.
use vstd::prelude::*;

use applevisor::{MemPerms, Reg, VcpuExit};

use crate::checks::{
    detail_text, exit_info_message, exit_info_text, mismatch_message, mismatch_text, with_detail,
};
use crate::numfmt::Radix;
use crate::report::TestResult;

verus! {

/// One call into the hypervisor, with its arguments. Mappings are numbered
/// in the order the plan creates them.
pub enum Call {
    /// `VirtualMachine::new()`
    CreateVm,
    /// `Vcpu::new()`
    CreateVcpu,
    /// `vcpu.set_trap_debug_exceptions(true)`
    TrapDebugExceptions,
    /// `vcpu.set_trap_debug_reg_accesses(true)`
    TrapDebugRegAccesses,
    /// `Mapping::new(size)`, kept as mapping `slot`
    CreateMapping { slot: usize, size: usize },
    /// `mapping.map(guest_addr, perms)`
    MapMemory { slot: usize, guest_addr: u64, perms: MemPerms },
    /// `mapping.write_dword(guest_addr, word)`
    WriteDword { slot: usize, guest_addr: u64, word: u32 },
    /// `mapping.read_dword(guest_addr)`
    ReadDword { slot: usize, guest_addr: u64 },
    /// `vcpu.set_reg(reg, value)`
    SetReg { reg: Reg, value: u64 },
    /// `vcpu.get_reg(reg)`
    GetReg { reg: Reg },
    /// `vcpu.run()`
    Run,
    /// `vcpu.get_exit_info()`
    ExitInfo,
}

/// What a read must give, and how a different value is reported.
pub struct Check {
    pub expected: u64,
    pub label: String,
    pub expected_text: String,
    pub radix: Radix,
}

/// A check as the contracts see it.
pub struct CheckView {
    pub expected: u64,
    pub label: Seq<char>,
    pub expected_text: Seq<char>,
    pub radix: Radix,
}

impl View for Check {
    type V = CheckView;

    open spec fn view(&self) -> CheckView {
        CheckView {
            expected: self.expected,
            label: self.label@,
            expected_text: self.expected_text@,
            radix: self.radix,
        }
    }
}

/// One step of a plan: a call; the message its failure is reported with
/// (followed by the error's text when `detailed`); and, for a read, what it
/// must give.
pub struct Step {
    pub call: Call,
    pub failure: String,
    pub detailed: bool,
    pub check: Option<Check>,
}

/// A step as the contracts see it.
pub struct StepView {
    pub call: Call,
    pub failure: Seq<char>,
    pub detailed: bool,
    pub check: Option<CheckView>,
}

impl View for Step {
    type V = StepView;

    open spec fn view(&self) -> StepView {
        StepView {
            call: self.call,
            failure: self.failure@,
            detailed: self.detailed,
            check: match self.check {
                Some(c) => Some(c@),
                None => None,
            },
        }
    }
}

/// What a test reports when every step went through.
pub enum Success {
    /// This message.
    Message(String),
    /// A description of the exit record that the last step read.
    DescribeExit,
}

/// A success as the contracts see it.
pub enum SuccessView {
    Message(Seq<char>),
    DescribeExit,
}

impl View for Success {
    type V = SuccessView;

    open spec fn view(&self) -> SuccessView {
        match self {
            Success::Message(m) => SuccessView::Message(m@),
            Success::DescribeExit => SuccessView::DescribeExit,
        }
    }
}

/// A whole test: its name, its steps in order, and its success.
pub struct Plan {
    pub name: &'static str,
    pub steps: Vec<Step>,
    pub success: Success,
}

/// A plan as the contracts see it.
pub struct PlanView {
    pub name: Seq<char>,
    pub steps: Seq<StepView>,
    pub success: SuccessView,
}

impl View for Plan {
    type V = PlanView;

    open spec fn view(&self) -> PlanView {
        PlanView {
            name: self.name@,
            steps: self.steps@.map_values(|s: Step| s@),
            success: self.success@,
        }
    }
}

/// What the hypervisor answered to one call.
pub enum Answer {
    /// The call succeeded and gave nothing back that the test reads.
    Done,
    /// A read succeeded with this value.
    Value(u64),
    /// The vCPU's exit record.
    Exit(VcpuExit),
    /// The call failed; the text of its error.
    Failed(String),
}

/// An answer as the contracts see it.
pub enum Reply {
    Done,
    Value(u64),
    Exit(VcpuExit),
    Failed(Seq<char>),
}

impl View for Answer {
    type V = Reply;

    open spec fn view(&self) -> Reply {
        match self {
            Answer::Done => Reply::Done,
            Answer::Value(v) => Reply::Value(*v),
            Answer::Exit(x) => Reply::Exit(*x),
            Answer::Failed(t) => Reply::Failed(t@),
        }
    }
}

/// The answers as the contracts see them.
pub open spec fn replies(answers: Seq<Answer>) -> Seq<Reply> {
    answers.map_values(|a: Answer| a@)
}

/// The kind of answer a call can get: reads give a value, the exit query
/// gives a record, and every call but the exit query can fail.
pub open spec fn fits(call: Call, reply: Reply) -> bool {
    match call {
        Call::GetReg { .. } | Call::ReadDword { .. } => reply is Value || reply is Failed,
        Call::ExitInfo => reply is Exit,
        _ => reply is Done || reply is Failed,
    }
}

/// The message with which a step's answer fails the test, if it does: a
/// failed call, or a read that gave another value than the step's check.
pub open spec fn failure_of(step: StepView, reply: Reply) -> Option<Seq<char>> {
    match reply {
        Reply::Failed(t) => Some(
            if step.detailed {
                detail_text(step.failure, t)
            } else {
                step.failure
            },
        ),
        Reply::Value(v) => match step.check {
            Some(c) => if v == c.expected {
                None
            } else {
                Some(mismatch_text(c.label, c.expected_text, v, c.radix))
            },
            None => None,
        },
        _ => None,
    }
}

/// `replies` are the answers a test gets while following `p`: one per step
/// from the first, each of the kind its call can get, none but the last
/// failing the test, and they stop at the first failure or at the last step.
pub open spec fn answers_run(p: PlanView, replies: Seq<Reply>) -> bool {
    &&& 1 <= replies.len() <= p.steps.len()
    &&& forall|i: int| 0 <= i < replies.len() ==> fits(p.steps[i].call, #[trigger] replies[i])
    &&& forall|i: int|
        0 <= i < replies.len() - 1 ==> failure_of(p.steps[i], #[trigger] replies[i]) is None
    &&& replies.len() == p.steps.len() || failure_of(
        p.steps[replies.len() - 1],
        replies[replies.len() - 1],
    ) is Some
}

/// The message with which a test that went through reports success.
pub open spec fn success_text(p: PlanView, replies: Seq<Reply>) -> Seq<char> {
    match p.success {
        SuccessView::Message(m) => m,
        SuccessView::DescribeExit => match replies.last() {
            Reply::Exit(x) => exit_info_text(x),
            _ => Seq::empty(),
        },
    }
}

/// The verdict of a test: it fails with the message of the answer that
/// stopped it, and passes with its success message when no answer did.
pub open spec fn verdict_of(p: PlanView, replies: Seq<Reply>) -> (bool, Seq<char>) {
    match failure_of(p.steps[replies.len() - 1], replies.last()) {
        Some(m) => (false, m),
        None => (true, success_text(p, replies)),
    }
}

/// `r` is the result of test `p` when the hypervisor answered `replies`.
pub open spec fn reports(r: TestResult, p: PlanView, replies: Seq<Reply>) -> bool {
    &&& r.name@ == p.name
    &&& r.passed == verdict_of(p, replies).0
    &&& r.message@ == verdict_of(p, replies).1
}

/// A test passes exactly when it made every call of its plan and no answer
/// failed a call or a check.
pub proof fn lemma_passes_iff_every_step_went_through(p: PlanView, replies: Seq<Reply>)
    requires
        answers_run(p, replies),
    ensures
        verdict_of(p, replies).0 <==> (replies.len() == p.steps.len() && forall|i: int|
            0 <= i < replies.len() ==> failure_of(p.steps[i], #[trigger] replies[i]) is None),
{
}

/// Judges one answer against its step: the failure message when the answer
/// fails the test, `None` when the test goes on.
pub fn judge_step(step: &Step, answer: &Answer) -> (o: Option<String>)
    ensures
        match failure_of(step@, answer@) {
            Some(m) => o is Some && o->0@ == m,
            None => o is None,
        },
{
    match answer {
        Answer::Failed(t) => {
            if step.detailed {
                Some(with_detail(step.failure.as_str(), t.as_str()))
            } else {
                Some(String::from_str(step.failure.as_str()))
            }
        },
        Answer::Value(v) => match &step.check {
            Some(c) => {
                if *v == c.expected {
                    None
                } else {
                    Some(
                        mismatch_message(c.label.as_str(), c.expected_text.as_str(), *v, c.radix),
                    )
                }
            },
            None => None,
        },
        _ => None,
    }
}

/// The result of test `plan` when the hypervisor gave `answers`.
pub fn verdict(plan: &Plan, answers: &Vec<Answer>) -> (r: TestResult)
    requires
        answers_run(plan@, replies(answers@)),
    ensures
        reports(r, plan@, replies(answers@)),
{
    let ghost rs = replies(answers@);
    let n = answers.len();
    let last = &answers[n - 1];
    assert(rs[n - 1] == last@);
    assert(plan@.steps[n - 1] == plan.steps[n - 1 as int]@);
    match judge_step(&plan.steps[n - 1], last) {
        Some(m) => TestResult::fail(plan.name, m.as_str()),
        None => match &plan.success {
            Success::Message(m) => TestResult::pass(plan.name, m.as_str()),
            Success::DescribeExit => match last {
                Answer::Exit(x) => TestResult::pass(plan.name, exit_info_message(x).as_str()),
                _ => {
                    let empty = String::new();
                    TestResult::pass(plan.name, empty.as_str())
                },
            },
        },
    }
}

} // verus!
