//! The hypervisor test suite. Each test follows its plan (see `plans`): it
//! makes the plan's calls in order through `applevisor`, judges each answer
//! with `plan::judge_step`, and stops at the first answer that fails it.
//! A test reaches the hypervisor only through its `Session`, whose history
//! records every call made through it. Each test returns its result with the
//! receipts of its calls and that history; its contract says that the
//! history is exactly the receipts' calls, that these are the plan's first
//! steps in order, and that the result is the plan's verdict on how they came
//! out (a failure carrying the `Debug` text of the hypervisor's error).
use vstd::prelude::*;

use applevisor::VcpuExit;

use crate::hv::{
    create_mapping, create_vcpu, create_vm, exit_info, get_reg, hv_error_debug, hv_error_text,
    map_mapping, read_dword, run_vcpu, set_reg, trap_debug_exceptions, trap_debug_reg_accesses,
    write_dword, Outcome, Receipt, Session,
};
use crate::plan::{
    answers_run, failure_of, fits, judge_step, lemma_passes_iff_every_step_went_through, replies,
    reports, verdict, Answer, Call, Plan, PlanView, Reply, StepView,
};
use crate::checks::{gp_reg, register_test_value_spec};
use crate::report::TestResult;
use crate::plans::{
    lemma_memory_test_reads_back_its_write,
    lemma_suite_plans_create_vm_first,
    presets_distinct,
    reads_back_a_write,
    add_instruction_plan,
    add_instruction_program,
    and_instruction_plan,
    and_instruction_program,
    eor_instruction_plan,
    eor_instruction_program,
    exit_info_plan,
    exit_info_program,
    instruction_sequence_plan,
    instruction_sequence_program,
    lemma_add_instruction_gives_check,
    lemma_and_instruction_gives_check,
    lemma_eor_instruction_gives_check,
    lemma_exit_info_gives_check,
    lemma_instruction_sequence_gives_check,
    lemma_load_store_gives_check,
    lemma_mov_immediate_gives_check,
    lemma_mov_shift_gives_check,
    lemma_orr_instruction_gives_check,
    lemma_register_plan_covers_x0_to_x28,
    lemma_sub_instruction_gives_check,
    load_store_plan,
    load_store_program,
    memory_mapping_plan,
    mov_immediate_plan,
    mov_immediate_program,
    mov_shift_plan,
    mov_shift_program,
    orr_instruction_plan,
    orr_instruction_program,
    program_gives_check,
    register_operations_plan,
    spec_add_instruction_plan,
    spec_and_instruction_plan,
    spec_eor_instruction_plan,
    spec_exit_info_plan,
    spec_instruction_sequence_plan,
    spec_load_store_plan,
    spec_memory_mapping_plan,
    spec_mov_immediate_plan,
    spec_mov_shift_plan,
    spec_orr_instruction_plan,
    spec_register_operations_plan,
    spec_sub_instruction_plan,
    spec_vm_vcpu_creation_plan,
    sub_instruction_plan,
    sub_instruction_program,
    vm_vcpu_creation_plan,
};


verus! {

/// The calls that act on the vCPU.
pub open spec fn uses_vcpu(c: Call) -> bool {
    match c {
        Call::TrapDebugExceptions | Call::TrapDebugRegAccesses | Call::SetReg { .. }
        | Call::GetReg { .. } | Call::Run | Call::ExitInfo => true,
        _ => false,
    }
}

/// The mapping that a call acts on, if any.
pub open spec fn slot_of(c: Call) -> Option<usize> {
    match c {
        Call::MapMemory { slot, .. } => Some(slot),
        Call::WriteDword { slot, .. } => Some(slot),
        Call::ReadDword { slot, .. } => Some(slot),
        _ => None,
    }
}

/// A step before step `k` creates the vCPU.
pub open spec fn vcpu_before(steps: Seq<StepView>, k: int) -> bool {
    exists|j: int| 0 <= j < k && (#[trigger] steps[j]).call is CreateVcpu
}

/// The call creates mapping `s`.
pub open spec fn creates_mapping(c: Call, s: usize) -> bool {
    match c {
        Call::CreateMapping { slot, .. } => slot == s,
        _ => false,
    }
}

/// A step before step `k` creates mapping `s`.
pub open spec fn mapping_before(steps: Seq<StepView>, k: int, s: usize) -> bool {
    exists|j: int| 0 <= j < k && creates_mapping((#[trigger] steps[j]).call, s)
}

/// A step before step `k` creates the virtual machine.
pub open spec fn vm_before(steps: Seq<StepView>, k: int) -> bool {
    exists|j: int| 0 <= j < k && (#[trigger] steps[j]).call is CreateVm
}

/// The plan creates the virtual machine before it creates a vCPU or maps
/// memory into the guest: the hypervisor grants neither without a virtual
/// machine.
pub open spec fn vm_first(p: PlanView) -> bool {
    forall|k: int|
        0 <= k < p.steps.len() && ((#[trigger] p.steps[k]).call is CreateVcpu
            || p.steps[k].call is MapMemory) ==> vm_before(p.steps, k)
}

/// Step `k` can be made once the steps before it went through: what it acts
/// on was created before it, and its arguments are ones that the calls
/// accept without panicking.
pub open spec fn step_ok(steps: Seq<StepView>, k: int) -> bool {
    let c = steps[k].call;
    &&& uses_vcpu(c) ==> vcpu_before(steps, k)
    &&& (slot_of(c) matches Some(s) ==> s < 2 && mapping_before(steps, k, s))
    &&& (c matches Call::CreateMapping { slot, size } ==> slot < 2 && 1 <= size <= isize::MAX
        - 0x3fff)
    &&& (c matches Call::WriteDword { guest_addr, .. } ==> guest_addr <= u64::MAX - 4)
    &&& (c matches Call::ReadDword { guest_addr, .. } ==> guest_addr <= u64::MAX - 4)
}

/// A plan that the suite can follow: it has a step, each step can be made
/// in turn, and a plan that describes the exit record reads it last.
pub open spec fn plan_wf(p: PlanView) -> bool {
    &&& p.steps.len() >= 1
    &&& forall|k: int| 0 <= k < p.steps.len() ==> step_ok(p.steps, k)
    &&& p.success is DescribeExit ==> p.steps.last().call is ExitInfo
}

/// An answer as its call's receipt records it (error texts aside).
pub open spec fn agrees(reply: Reply, outcome: Outcome) -> bool {
    match reply {
        Reply::Done => outcome == Outcome::Succeeded,
        Reply::Value(v) => outcome == Outcome::Read(v),
        Reply::Exit(x) => outcome == Outcome::Exit(x),
        Reply::Failed(t) => outcome matches Outcome::Refused(e) && t == hv_error_debug(e),
    }
}

/// A step came out without failing the test: the call succeeded and, for a
/// read, gave the value the step checks.
pub open spec fn went_through(step: StepView, outcome: Outcome) -> bool {
    match outcome {
        Outcome::Failed => false,
        Outcome::Refused(_) => false,
        Outcome::Read(v) => match step.check {
            Some(c) => v == c.expected,
            None => true,
        },
        _ => true,
    }
}

/// A test's result with the receipts of the calls it made, in order, and the
/// history of every call made through its session.
pub struct Run {
    pub result: TestResult,
    pub log: Vec<Receipt>,
    pub calls: Ghost<Seq<Call>>,
}

/// What holds of a test that followed plan `p`, whatever the hypervisor
/// answered: every call made through its session has a receipt, and the
/// calls are the plan's first steps, in order, with their arguments; it stopped at the first step that did not go through or
/// after the last; its result is the plan's verdict on how the calls came
/// out; and it passed exactly when it made every call of the plan and each
/// went through.
pub open spec fn follows(r: Run, p: PlanView) -> bool {
    &&& r.calls@ == r.log@.map_values(|rc: Receipt| rc.call())
    &&& 1 <= r.log.len() <= p.steps.len()
    &&& forall|i: int| 0 <= i < r.log.len() ==> (#[trigger] r.log@[i]).call() == p.steps[i].call
    &&& forall|i: int|
        0 <= i < r.log.len() - 1 ==> went_through(p.steps[i], (#[trigger] r.log@[i]).outcome())
    &&& exists|rs: Seq<Reply>|
        {
            &&& answers_run(p, rs)
            &&& rs.len() == r.log.len()
            &&& forall|i: int| 0 <= i < rs.len() ==> agrees(#[trigger] rs[i], r.log@[i].outcome())
            &&& reports(r.result, p, rs)
        }
    &&& r.result.passed <==> (r.log.len() == p.steps.len() && forall|i: int|
        0 <= i < r.log.len() ==> went_through(p.steps[i], (#[trigger] r.log@[i]).outcome()))
}

proof fn lemma_went_through(step: StepView, reply: Reply, outcome: Outcome)
    requires
        agrees(reply, outcome),
        fits(step.call, reply),
    ensures
        failure_of(step, reply) is None <==> went_through(step, outcome),
{
}

/// Makes one call through the session, and returns the hypervisor's answer
/// and the call's receipt.
fn perform(call: &Call, s: &mut Session) -> (r: (Answer, Receipt))
    requires
        uses_vcpu(*call) ==> old(s).has_vcpu(),
        slot_of(*call) matches Some(k) ==> old(s).has_mapping(k),
        *call matches Call::CreateMapping { slot, size } ==> slot < 2 && 1 <= size <= isize::MAX
            - 0x3fff,
        *call matches Call::WriteDword { guest_addr, .. } ==> guest_addr <= u64::MAX - 4,
        *call matches Call::ReadDword { guest_addr, .. } ==> guest_addr <= u64::MAX - 4,
    ensures
        final(s).history() == old(s).history().push(*call),
        r.1.call() == *call,
        agrees(r.0@, r.1.outcome()),
        fits(*call, r.0@),
        old(s).has_vcpu() ==> final(s).has_vcpu(),
        call is CreateVcpu && r.0@ is Done ==> final(s).has_vcpu(),
        old(s).has_mapping(0) ==> final(s).has_mapping(0),
        old(s).has_mapping(1) ==> final(s).has_mapping(1),
        creates_mapping(*call, 0) && r.0@ is Done ==> final(s).has_mapping(0),
        creates_mapping(*call, 1) && r.0@ is Done ==> final(s).has_mapping(1),
{
    let receipt = match call {
        Call::CreateVm => create_vm(s),
        Call::CreateVcpu => create_vcpu(s),
        Call::TrapDebugExceptions => trap_debug_exceptions(s),
        Call::TrapDebugRegAccesses => trap_debug_reg_accesses(s),
        Call::CreateMapping { slot, size } => create_mapping(s, *slot, *size),
        Call::MapMemory { slot, guest_addr, perms } => map_mapping(s, *slot, *guest_addr, *perms),
        Call::WriteDword { slot, guest_addr, word } => write_dword(s, *slot, *guest_addr, *word),
        Call::ReadDword { slot, guest_addr } => read_dword(s, *slot, *guest_addr),
        Call::SetReg { reg, value } => set_reg(s, *reg, *value),
        Call::GetReg { reg } => get_reg(s, *reg),
        Call::Run => run_vcpu(s),
        Call::ExitInfo => exit_info(s),
    };
    let answer = match receipt.outcome_of() {
        Outcome::Succeeded => Answer::Done,
        Outcome::Read(v) => Answer::Value(*v),
        Outcome::Exit(x) => Answer::Exit(VcpuExit { reason: x.reason, exception: x.exception }),
        Outcome::Refused(e) => Answer::Failed(hv_error_text(e)),
        Outcome::Failed => { return unreached() },
    };
    (answer, receipt)
}

/// Follows `plan`: makes its calls in order through one session and stops at
/// the first answer that fails the test. It returns the plan's verdict on the
/// answers the hypervisor gave, with the receipts of the calls made and the
/// session's history.
pub fn run_plan(plan: &Plan) -> (r: Run)
    requires
        plan_wf(plan@),
    ensures
        follows(r, plan@),
{
    let mut s = Session::new();
    let mut answers: Vec<Answer> = Vec::new();
    let mut log: Vec<Receipt> = Vec::new();
    let n = plan.steps.len();
    let ghost p = plan@;
    let mut k: usize = 0;
    while k < n
        invariant
            k <= n,
            n == plan.steps.len(),
            p == plan@,
            plan_wf(p),
            answers.len() == k,
            log.len() == k,
            s.history() == log@.map_values(|rc: Receipt| rc.call()),
            forall|i: int|
                0 <= i < k ==> fits(p.steps[i].call, #[trigger] replies(answers@)[i])
                    && failure_of(p.steps[i], replies(answers@)[i]) is None,
            forall|i: int| 0 <= i < k ==> (#[trigger] log@[i]).call() == p.steps[i].call,
            forall|i: int| 0 <= i < k ==> agrees(replies(answers@)[i], (#[trigger] log@[i]).outcome()),
            vcpu_before(p.steps, k as int) ==> s.has_vcpu(),
            mapping_before(p.steps, k as int, 0) ==> s.has_mapping(0),
            mapping_before(p.steps, k as int, 1) ==> s.has_mapping(1),
        decreases n - k,
    {
        let step = &plan.steps[k];
        assert(p.steps[k as int] == step@);
        assert(step_ok(p.steps, k as int));
        let (answer, receipt) = perform(&step.call, &mut s);
        let judged = judge_step(step, &answer);
        let ghost before = answers@;
        let ghost log_before = log@;
        answers.push(answer);
        log.push(receipt);
        proof {
            assert(replies(answers@) =~= replies(before).push(answers@[k as int]@));
            assert(log@.map_values(|rc: Receipt| rc.call()) =~= log_before.map_values(
                |rc: Receipt| rc.call(),
            ).push(log@[k as int].call()));
        }
        if judged.is_some() {
            proof {
                assert(answers_run(p, replies(answers@)));
            }
            let run = Run { result: verdict(plan, &answers), log, calls: Ghost(s.history()) };
            proof {
                lemma_run_follows(p, replies(answers@), run);
            }
            return run;
        }
        proof {
            if vcpu_before(p.steps, k + 1) {
                let j = choose|j: int| 0 <= j < k + 1 && (#[trigger] p.steps[j]).call is CreateVcpu;
                if j < k {
                    assert(vcpu_before(p.steps, k as int));
                }
            }
            if mapping_before(p.steps, k + 1, 0) {
                let j = choose|j: int|
                    0 <= j < k + 1 && creates_mapping((#[trigger] p.steps[j]).call, 0);
                if j < k {
                    assert(mapping_before(p.steps, k as int, 0));
                }
            }
            if mapping_before(p.steps, k + 1, 1) {
                let j = choose|j: int|
                    0 <= j < k + 1 && creates_mapping((#[trigger] p.steps[j]).call, 1);
                if j < k {
                    assert(mapping_before(p.steps, k as int, 1));
                }
            }
        }
        k = k + 1;
    }
    proof {
        assert(answers_run(p, replies(answers@)));
    }
    let run = Run { result: verdict(plan, &answers), log, calls: Ghost(s.history()) };
    proof {
        lemma_run_follows(p, replies(answers@), run);
    }
    run
}

proof fn lemma_run_follows(p: PlanView, rs: Seq<Reply>, r: Run)
    requires
        answers_run(p, rs),
        rs.len() == r.log.len(),
        forall|i: int| 0 <= i < r.log.len() ==> (#[trigger] r.log@[i]).call() == p.steps[i].call,
        forall|i: int| 0 <= i < rs.len() ==> agrees(#[trigger] rs[i], r.log@[i].outcome()),
        reports(r.result, p, rs),
        r.calls@ == r.log@.map_values(|rc: Receipt| rc.call()),
    ensures
        follows(r, p),
{
    assert forall|i: int| 0 <= i < rs.len() implies (failure_of(p.steps[i], #[trigger] rs[i]) is None
        <==> went_through(p.steps[i], r.log@[i].outcome())) by {
        lemma_went_through(p.steps[i], rs[i], r.log@[i].outcome());
    }
    lemma_passes_iff_every_step_went_through(p, rs);
    assert forall|i: int| 0 <= i < r.log.len() - 1 implies went_through(
        p.steps[i],
        (#[trigger] r.log@[i]).outcome(),
    ) by {
        assert(failure_of(p.steps[i], rs[i]) is None);
    }
    if r.result.passed {
        assert forall|i: int| 0 <= i < r.log.len() implies went_through(
            p.steps[i],
            (#[trigger] r.log@[i]).outcome(),
        ) by {
            assert(failure_of(p.steps[i], rs[i]) is None);
        }
    }
    if r.log.len() == p.steps.len() && forall|i: int|
        0 <= i < r.log.len() ==> went_through(p.steps[i], (#[trigger] r.log@[i]).outcome()) {
        assert forall|i: int| 0 <= i < rs.len() implies failure_of(p.steps[i], #[trigger] rs[i]) is None by {
            assert(went_through(p.steps[i], r.log@[i].outcome()));
        }
    }
}

/// Test 1: the virtual machine and a vCPU can be created, and the vCPU traps
/// debug exceptions and debug register accesses.
/// The test follows `plans::spec_vm_vcpu_creation_plan`.
pub fn test_vm_vcpu_creation() -> (r: Run)
    ensures
        follows(r, spec_vm_vcpu_creation_plan()),
        vm_first(spec_vm_vcpu_creation_plan()),
{
    proof {
        lemma_suite_plans_create_vm_first();
    }
    run_plan(&vm_vcpu_creation_plan())
}

/// Test 2: each of X0 to X28, then PC, reads back the value written to it.
/// The test follows `plans::spec_register_operations_plan`.
pub fn test_register_operations() -> (r: Run)
    ensures
        follows(r, spec_register_operations_plan()),
        vm_first(spec_register_operations_plan()),
        forall|i: int|
            0 <= i <= 28 ==> #[trigger] spec_register_operations_plan().steps[2 + 2 * i].call
                == (Call::SetReg {
                reg: gp_reg(i as nat),
                value: register_test_value_spec(i as nat) as u64,
            }),
        spec_register_operations_plan().steps.len() == 62,
{
    proof {
        lemma_suite_plans_create_vm_first();
    }
    proof {
        assert forall|i: int|
            0 <= i <= 28 implies #[trigger] spec_register_operations_plan().steps[2 + 2 * i].call
                == (Call::SetReg {
                reg: gp_reg(i as nat),
                value: register_test_value_spec(i as nat) as u64,
            }) by {
            lemma_register_plan_covers_x0_to_x28(i);
        }
        lemma_register_plan_covers_x0_to_x28(0);
    }
    run_plan(&register_operations_plan())
}

/// Test 3: two mappings are created and mapped (RWX at 0x4000, RW at 0x8000),
/// and a dword written to the first reads back.
/// The test follows `plans::spec_memory_mapping_plan`.
pub fn test_memory_mapping() -> (r: Run)
    ensures
        follows(r, spec_memory_mapping_plan()),
        vm_first(spec_memory_mapping_plan()),
        reads_back_a_write(spec_memory_mapping_plan()),
{
    proof {
        lemma_suite_plans_create_vm_first();
        lemma_memory_test_reads_back_its_write();
    }
    run_plan(&memory_mapping_plan())
}

/// Test 4: `mov x0, #0x42` leaves 0x42 in X0.
/// The test follows `plans::spec_mov_immediate_plan`.
pub fn test_mov_immediate() -> (r: Run)
    ensures
        follows(r, spec_mov_immediate_plan()),
        vm_first(spec_mov_immediate_plan()),
        presets_distinct(mov_immediate_program()),
        program_gives_check(mov_immediate_program()),
{
    proof {
        lemma_suite_plans_create_vm_first();
    }
    proof {
        lemma_mov_immediate_gives_check();
    }
    run_plan(&mov_immediate_plan())
}

/// Test 5: `add x0, x0, x1` from X0 = 10 and X1 = 32 leaves 42 in X0.
/// The test follows `plans::spec_add_instruction_plan`.
pub fn test_add_instruction() -> (r: Run)
    ensures
        follows(r, spec_add_instruction_plan()),
        vm_first(spec_add_instruction_plan()),
        presets_distinct(add_instruction_program()),
        program_gives_check(add_instruction_program()),
{
    proof {
        lemma_suite_plans_create_vm_first();
    }
    proof {
        lemma_add_instruction_gives_check();
    }
    run_plan(&add_instruction_plan())
}

/// Test 6: `sub x0, x0, x1` from X0 = 100 and X1 = 58 leaves 42 in X0.
/// The test follows `plans::spec_sub_instruction_plan`.
pub fn test_sub_instruction() -> (r: Run)
    ensures
        follows(r, spec_sub_instruction_plan()),
        vm_first(spec_sub_instruction_plan()),
        presets_distinct(sub_instruction_program()),
        program_gives_check(sub_instruction_program()),
{
    proof {
        lemma_suite_plans_create_vm_first();
    }
    proof {
        lemma_sub_instruction_gives_check();
    }
    run_plan(&sub_instruction_plan())
}

/// Test 7: `str x2, [x1]; ldr x0, [x1]` with X1 = 0x4100 and X2 = 0xDEADBEEF
/// leaves 0xDEADBEEF in X0.
/// The test follows `plans::spec_load_store_plan`.
pub fn test_load_store() -> (r: Run)
    ensures
        follows(r, spec_load_store_plan()),
        vm_first(spec_load_store_plan()),
        presets_distinct(load_store_program()),
        program_gives_check(load_store_program()),
{
    proof {
        lemma_suite_plans_create_vm_first();
    }
    proof {
        lemma_load_store_gives_check();
    }
    run_plan(&load_store_plan())
}

/// Test 8: `and x0, x0, x1` from X0 = 0xFF and X1 = 0x0F leaves 0x0F in X0.
/// The test follows `plans::spec_and_instruction_plan`.
pub fn test_and_instruction() -> (r: Run)
    ensures
        follows(r, spec_and_instruction_plan()),
        vm_first(spec_and_instruction_plan()),
        presets_distinct(and_instruction_program()),
        program_gives_check(and_instruction_program()),
{
    proof {
        lemma_suite_plans_create_vm_first();
    }
    proof {
        lemma_and_instruction_gives_check();
    }
    run_plan(&and_instruction_plan())
}

/// Test 9: `orr x0, x0, x1` from X0 = 0xF0 and X1 = 0x0F leaves 0xFF in X0.
/// The test follows `plans::spec_orr_instruction_plan`.
pub fn test_orr_instruction() -> (r: Run)
    ensures
        follows(r, spec_orr_instruction_plan()),
        vm_first(spec_orr_instruction_plan()),
        presets_distinct(orr_instruction_program()),
        program_gives_check(orr_instruction_program()),
{
    proof {
        lemma_suite_plans_create_vm_first();
    }
    proof {
        lemma_orr_instruction_gives_check();
    }
    run_plan(&orr_instruction_plan())
}

/// Test 10: `eor x0, x0, x1` from X0 = 0xFF and X1 = 0x0F leaves 0xF0 in X0.
/// The test follows `plans::spec_eor_instruction_plan`.
pub fn test_eor_instruction() -> (r: Run)
    ensures
        follows(r, spec_eor_instruction_plan()),
        vm_first(spec_eor_instruction_plan()),
        presets_distinct(eor_instruction_program()),
        program_gives_check(eor_instruction_program()),
{
    proof {
        lemma_suite_plans_create_vm_first();
    }
    proof {
        lemma_eor_instruction_gives_check();
    }
    run_plan(&eor_instruction_plan())
}

/// Test 11: `lsl x0, x1, #4` (`orr x0, xzr, x1, lsl #4`) from X1 = 1 leaves 16
/// in X0.
/// The test follows `plans::spec_mov_shift_plan`.
pub fn test_mov_shift() -> (r: Run)
    ensures
        follows(r, spec_mov_shift_plan()),
        vm_first(spec_mov_shift_plan()),
        presets_distinct(mov_shift_program()),
        program_gives_check(mov_shift_program()),
{
    proof {
        lemma_suite_plans_create_vm_first();
    }
    proof {
        lemma_mov_shift_gives_check();
    }
    run_plan(&mov_shift_plan())
}

/// Test 12: `mov x0, #42; mov x1, #8; add x0, x0, x1` leaves 50 in X0.
/// The test follows `plans::spec_instruction_sequence_plan`.
pub fn test_instruction_sequence() -> (r: Run)
    ensures
        follows(r, spec_instruction_sequence_plan()),
        vm_first(spec_instruction_sequence_plan()),
        presets_distinct(instruction_sequence_program()),
        program_gives_check(instruction_sequence_program()),
{
    proof {
        lemma_suite_plans_create_vm_first();
    }
    proof {
        lemma_instruction_sequence_gives_check();
    }
    run_plan(&instruction_sequence_plan())
}

/// Test 13: after the guest stops at a breakpoint, the exit record is read and
/// described.
/// The test follows `plans::spec_exit_info_plan`.
pub fn test_exit_info() -> (r: Run)
    ensures
        follows(r, spec_exit_info_plan()),
        vm_first(spec_exit_info_plan()),
        presets_distinct(exit_info_program()),
        program_gives_check(exit_info_program()),
{
    proof {
        lemma_suite_plans_create_vm_first();
    }
    proof {
        lemma_exit_info_gives_check();
    }
    run_plan(&exit_info_plan())
}

} // verus!
