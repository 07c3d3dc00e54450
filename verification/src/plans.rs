//! The plans of the thirteen tests: the calls each makes, with their exact
//! arguments and failure messages, and the proofs that the guest programs
//! they write compute the values they check.
use vstd::prelude::*;

use applevisor::{MemPerms, Reg};

use crate::a64::{
    lemma_add_program, lemma_and_program, lemma_eor_program, lemma_exit_program,
    lemma_instruction_sequence_program, lemma_load_store_program, lemma_mov_immediate_program,
    lemma_mov_shift_program, lemma_orr_program, lemma_sub_program, run, stops_with_x0, Machine,
    ADD_X0_X0_X1, AND_X0_X0_X1, BRK_0, BRK_EXIT_TEST, EOR_X0_X0_X1, LDR_X0_X1, LSL_X0_X1_4,
    MOV_X0_0X42, MOV_X0_42, MOV_X1_8, ORR_X0_X0_X1, STR_X2_X1, SUB_X0_X0_X1,
};
use crate::checks::{
    general_register, gp_reg, register_label, register_name, register_number,
    register_test_value, register_test_value_spec,
};
use crate::numfmt::{render_value, rendered, Radix};
use crate::plan::{Call, Check, CheckView, Plan, PlanView, Step, StepView, Success, SuccessView};
use crate::suite::{creates_mapping, mapping_before, plan_wf, step_ok, vcpu_before, vm_before, vm_first};

verus! {

/// A step whose failure is reported by its message alone.
pub open spec fn plain(call: Call, failure: Seq<char>) -> StepView {
    StepView { call, failure, detailed: false, check: None }
}

/// A step whose failure is reported by its message and the error's text.
pub open spec fn detailed(call: Call, failure: Seq<char>) -> StepView {
    StepView { call, failure, detailed: true, check: None }
}

/// A read of `reg` that must give what `check` says.
pub open spec fn read_reg(reg: Reg, failure: Seq<char>, check: CheckView) -> StepView {
    StepView { call: Call::GetReg { reg }, failure, detailed: true, check: Some(check) }
}

fn plain_step(call: Call, failure: &str) -> (s: Step)
    ensures
        s@ == plain(call, failure@),
{
    Step { call, failure: String::from_str(failure), detailed: false, check: None }
}

fn detailed_step(call: Call, failure: &str) -> (s: Step)
    ensures
        s@ == detailed(call, failure@),
{
    Step { call, failure: String::from_str(failure), detailed: true, check: None }
}

fn check_of(expected: u64, label: &str, expected_text: &str, radix: Radix) -> (c: Check)
    ensures
        c@ == (CheckView { expected, label: label@, expected_text: expected_text@, radix }),
{
    Check {
        expected,
        label: String::from_str(label),
        expected_text: String::from_str(expected_text),
        radix,
    }
}

fn checked_step(call: Call, failure: &str, check: Check) -> (s: Step)
    ensures
        s@ == (StepView { call, failure: failure@, detailed: true, check: Some(check@) }),
{
    Step { call, failure: String::from_str(failure), detailed: true, check: Some(check) }
}

fn push_step(steps: &mut Vec<Step>, s: Step)
    ensures
        final(steps)@.map_values(|t: Step| t@) == old(steps)@.map_values(|t: Step| t@).push(s@),
{
    let ghost before = steps@;
    steps.push(s);
    assert(steps@.map_values(|t: Step| t@) =~= before.map_values(|t: Step| t@).push(s@));
}

// ---------------------------------------------------------------------------
// Program tests: create the VM, a vCPU and a 0x4000-aligned mapping at
// 0x4000, preset registers, write a program from 0x4000 on, point PC at it,
// run, and read X0 (or the exit record).

/// A register that a program test presets.
pub struct PresetView {
    pub reg: Reg,
    pub value: u64,
    pub failure: Seq<char>,
}

/// An instruction word that a program test writes, with its failure message.
pub struct CodeWordView {
    pub word: u32,
    pub failure: Seq<char>,
}

/// How a program test ends.
pub enum FinishView {
    /// Read X0, which must pass `check`; succeed with `success`.
    ReadX0 { check: CheckView, success: Seq<char> },
    /// Read the exit record and describe it.
    DescribeExit,
}

/// A program test.
pub struct ProgramView {
    pub name: Seq<char>,
    pub mapping_size: usize,
    pub presets: Seq<PresetView>,
    pub code: Seq<CodeWordView>,
    pub set_pc_failure: Seq<char>,
    pub run_failure: Seq<char>,
    pub finish: FinishView,
}

/// The guest address of the `i`-th instruction word.
pub open spec fn code_address(i: int) -> u64 {
    (0x4000 + 4 * i) as u64
}

/// The words of a program test, in order.
pub open spec fn code_words(t: ProgramView) -> Seq<u32> {
    t.code.map_values(|c: CodeWordView| c.word)
}

/// The four steps that open every program test.
pub open spec fn program_prologue(size: usize) -> Seq<StepView> {
    seq![
        detailed(Call::CreateVm, "Failed to create VM"@),
        detailed(Call::CreateVcpu, "Failed to create VCPU"@),
        detailed(Call::CreateMapping { slot: 0, size }, "Failed to create mapping"@),
        plain(
            Call::MapMemory { slot: 0, guest_addr: 0x4000, perms: MemPerms::ReadWriteExec },
            "Failed to map memory"@,
        ),
    ]
}

/// The step that presets a register.
pub open spec fn preset_step(p: PresetView) -> StepView {
    plain(Call::SetReg { reg: p.reg, value: p.value }, p.failure)
}

/// The step that writes the `i`-th instruction word.
pub open spec fn code_step(i: int, c: CodeWordView) -> StepView {
    plain(Call::WriteDword { slot: 0, guest_addr: code_address(i), word: c.word }, c.failure)
}

/// The steps that close a program test: PC set to the first word, the run,
/// and the final read.
pub open spec fn program_epilogue(t: ProgramView) -> Seq<StepView> {
    seq![
        plain(Call::SetReg { reg: Reg::PC, value: 0x4000 }, t.set_pc_failure),
        plain(Call::Run, t.run_failure),
    ] + match t.finish {
        FinishView::ReadX0 { check, .. } => seq![read_reg(Reg::X0, "Failed to get X0"@, check)],
        FinishView::DescribeExit => seq![plain(Call::ExitInfo, Seq::empty())],
    }
}

/// The plan of a program test.
pub open spec fn program_plan(t: ProgramView) -> PlanView {
    PlanView {
        name: t.name,
        steps: program_prologue(t.mapping_size) + t.presets.map_values(|p: PresetView| preset_step(p))
            + t.code.map(|i: int, c: CodeWordView| code_step(i, c)) + program_epilogue(t),
        success: match t.finish {
            FinishView::ReadX0 { success, .. } => SuccessView::Message(success),
            FinishView::DescribeExit => SuccessView::DescribeExit,
        },
    }
}

/// Every preset register holds its value in `m`.
pub open spec fn presets_hold(m: Machine, t: ProgramView) -> bool {
    forall|i: int|
        0 <= i < t.presets.len() ==> m.x[register_number(#[trigger] t.presets[i].reg)]
            == t.presets[i].value
}

/// The program that a test writes computes what the test checks: from any
/// registers that hold the presets, it stops at `brk #0` with the expected
/// value in X0 (or, for the exit test, it stops at a breakpoint).
pub open spec fn program_gives_check(t: ProgramView) -> bool {
    match t.finish {
        FinishView::ReadX0 { check, .. } => forall|m: Machine|
            m.wf() && presets_hold(m, t) ==> #[trigger] stops_with_x0(
                m,
                code_words(t),
                check.expected,
            ),
        FinishView::DescribeExit => forall|m: Machine| (#[trigger] run(m, code_words(t))).1 is Breakpoint,
    }
}

/// A program test that the suite can follow.
pub open spec fn program_wf(t: ProgramView) -> bool {
    &&& 1 <= t.mapping_size <= isize::MAX - 0x3fff
    &&& 0x4000 + 4 * t.code.len() <= u64::MAX
}

/// A plan whose first step creates the virtual machine creates it first.
proof fn lemma_vm_first_when_opened_by_vm(p: PlanView)
    requires
        p.steps.len() >= 1,
        p.steps[0].call is CreateVm,
    ensures
        vm_first(p),
{
    assert forall|k: int|
        0 <= k < p.steps.len() && ((#[trigger] p.steps[k]).call is CreateVcpu
            || p.steps[k].call is MapMemory) implies vm_before(p.steps, k) by {
        assert(k != 0);
        assert(p.steps[0].call is CreateVm);
    }
}

proof fn lemma_program_plan_wf(t: ProgramView)
    requires
        program_wf(t),
    ensures
        plan_wf(program_plan(t)),
        vm_first(program_plan(t)),
{
    lemma_vm_first_when_opened_by_vm(program_plan(t));
    let p = program_plan(t);
    let np = t.presets.len() as int;
    let nc = t.code.len() as int;
    let s = p.steps;
    assert(s.len() == 4 + np + nc + 3);
    assert(s[1].call is CreateVcpu);
    assert(creates_mapping(s[2].call, 0));
    assert forall|k: int| 0 <= k < s.len() implies step_ok(s, k) by {
        if k >= 2 {
            assert(vcpu_before(s, k));
        }
        if k >= 3 {
            assert(mapping_before(s, k, 0));
        }
        if 4 + np <= k < 4 + np + nc {
            assert(s[k] == code_step(k - 4 - np, t.code[k - 4 - np]));
        }
        if 4 <= k < 4 + np {
            assert(s[k] == preset_step(t.presets[k - 4]));
        }
    }
}

/// A preset of a program test.
pub struct Preset {
    pub reg: Reg,
    pub value: u64,
    pub failure: String,
}

impl View for Preset {
    type V = PresetView;

    open spec fn view(&self) -> PresetView {
        PresetView { reg: self.reg, value: self.value, failure: self.failure@ }
    }
}

/// An instruction word of a program test.
pub struct CodeWord {
    pub word: u32,
    pub failure: String,
}

impl View for CodeWord {
    type V = CodeWordView;

    open spec fn view(&self) -> CodeWordView {
        CodeWordView { word: self.word, failure: self.failure@ }
    }
}

/// How a program test ends.
pub enum Finish {
    ReadX0 { check: Check, success: String },
    DescribeExit,
}

impl View for Finish {
    type V = FinishView;

    open spec fn view(&self) -> FinishView {
        match self {
            Finish::ReadX0 { check, success } => FinishView::ReadX0 {
                check: check@,
                success: success@,
            },
            Finish::DescribeExit => FinishView::DescribeExit,
        }
    }
}

/// A program test.
pub struct ProgramTest {
    pub name: &'static str,
    pub mapping_size: usize,
    pub presets: Vec<Preset>,
    pub code: Vec<CodeWord>,
    pub set_pc_failure: String,
    pub run_failure: String,
    pub finish: Finish,
}

impl View for ProgramTest {
    type V = ProgramView;

    open spec fn view(&self) -> ProgramView {
        ProgramView {
            name: self.name@,
            mapping_size: self.mapping_size,
            presets: self.presets@.map_values(|p: Preset| p@),
            code: self.code@.map_values(|c: CodeWord| c@),
            set_pc_failure: self.set_pc_failure@,
            run_failure: self.run_failure@,
            finish: self.finish@,
        }
    }
}

/// The plan of a program test.
pub fn program_plan_of(t: ProgramTest) -> (p: Plan)
    requires
        program_wf(t@),
    ensures
        p@ == program_plan(t@),
        plan_wf(p@),
        vm_first(p@),
{
    let ghost tv = t@;
    let mut steps: Vec<Step> = Vec::new();
    push_step(&mut steps, detailed_step(Call::CreateVm, "Failed to create VM"));
    push_step(&mut steps, detailed_step(Call::CreateVcpu, "Failed to create VCPU"));
    push_step(
        &mut steps,
        detailed_step(
            Call::CreateMapping { slot: 0, size: t.mapping_size },
            "Failed to create mapping",
        ),
    );
    push_step(
        &mut steps,
        plain_step(
            Call::MapMemory { slot: 0, guest_addr: 0x4000, perms: MemPerms::ReadWriteExec },
            "Failed to map memory",
        ),
    );
    assert(steps@.map_values(|s: Step| s@) =~= program_prologue(tv.mapping_size));
    let np = t.presets.len();
    for i in 0..np
        invariant
            np == t.presets.len(),
            tv == t@,
            steps@.map_values(|s: Step| s@) == program_prologue(tv.mapping_size)
                + tv.presets.take(i as int).map_values(|p: PresetView| preset_step(p)),
    {
        let pr = &t.presets[i];
        assert(tv.presets[i as int] == pr@);
        push_step(&mut steps, plain_step(Call::SetReg { reg: pr.reg, value: pr.value }, pr.failure.as_str()));
        assert(tv.presets.take(i + 1).map_values(|p: PresetView| preset_step(p)) =~= tv.presets.take(
            i as int,
        ).map_values(|p: PresetView| preset_step(p)).push(preset_step(tv.presets[i as int])));
    }
    assert(tv.presets.take(np as int) =~= tv.presets);
    let nc = t.code.len();
    let ghost head = program_prologue(tv.mapping_size) + tv.presets.map_values(
        |p: PresetView| preset_step(p),
    );
    for i in 0..nc
        invariant
            nc == t.code.len(),
            0x4000 + 4 * nc <= u64::MAX,
            tv == t@,
            steps@.map_values(|s: Step| s@) == head + tv.code.take(i as int).map(
                |j: int, c: CodeWordView| code_step(j, c),
            ),
    {
        let cw = &t.code[i];
        assert(tv.code[i as int] == cw@);
        let addr: u64 = 0x4000 + 4 * (i as u64);
        push_step(
            &mut steps,
            plain_step(
                Call::WriteDword { slot: 0, guest_addr: addr, word: cw.word },
                cw.failure.as_str(),
            ),
        );
        assert(tv.code.take(i + 1).map(|j: int, c: CodeWordView| code_step(j, c)) =~= tv.code.take(
            i as int,
        ).map(|j: int, c: CodeWordView| code_step(j, c)).push(code_step(i as int, tv.code[i as int])));
    }
    assert(tv.code.take(nc as int) =~= tv.code);
    push_step(
        &mut steps,
        plain_step(Call::SetReg { reg: Reg::PC, value: 0x4000 }, t.set_pc_failure.as_str()),
    );
    push_step(&mut steps, plain_step(Call::Run, t.run_failure.as_str()));
    let success = match t.finish {
        Finish::ReadX0 { check, success } => {
            push_step(
                &mut steps,
                checked_step(Call::GetReg { reg: Reg::X0 }, "Failed to get X0", check),
            );
            Success::Message(success)
        },
        Finish::DescribeExit => {
            let empty = String::new();
            push_step(&mut steps, plain_step(Call::ExitInfo, empty.as_str()));
            Success::DescribeExit
        },
    };
    let p = Plan { name: t.name, steps, success };
    assert(p@.steps =~= program_plan(tv).steps);
    proof {
        lemma_program_plan_wf(tv);
    }
    p
}

fn preset(reg: Reg, value: u64, failure: &str) -> (p: Preset)
    ensures
        p@ == (PresetView { reg, value, failure: failure@ }),
{
    Preset { reg, value, failure: String::from_str(failure) }
}

fn code_word(word: u32, failure: &str) -> (c: CodeWord)
    ensures
        c@ == (CodeWordView { word, failure: failure@ }),
{
    CodeWord { word, failure: String::from_str(failure) }
}

} // verus!

verus! {

/// The failure message of the instruction sequence's write at `addr`.
fn write_failure_at(addr: u64) -> (s: String)
    ensures
        s@ == "Failed to write instruction at "@ + rendered(addr as nat, Radix::Hex),
{
    let mut s = String::from_str("Failed to write instruction at ");
    s.append(render_value(addr, Radix::Hex).as_str());
    s
}

/// The MOV Immediate test: `movz x0, #0x42; brk #0`: X0 must read 0x42.
pub open spec fn mov_immediate_program() -> ProgramView {
    ProgramView {
        name: "MOV Immediate"@,
        mapping_size: 0x1000,
        presets: seq![],
        code: seq![
            CodeWordView { word: MOV_X0_0X42, failure: "Failed to write MOV instruction"@ },
            CodeWordView { word: BRK_0, failure: "Failed to write BRK instruction"@ },
        ],
        set_pc_failure: "Failed to set PC"@,
        run_failure: "Failed to run VCPU"@,
        finish: FinishView::ReadX0 {
            check: CheckView {
                expected: 0x42,
                label: "X0"@,
                expected_text: "0x42"@,
                radix: Radix::Hex,
            },
            success: "MOV X0, #0x42 executed correctly, X0 = 0x42"@,
        },
    }
}

/// The plan of the MOV Immediate test.
pub open spec fn spec_mov_immediate_plan() -> PlanView {
    program_plan(mov_immediate_program())
}

/// The plan of the MOV Immediate test.
pub fn mov_immediate_plan() -> (p: Plan)
    ensures
        p@ == spec_mov_immediate_plan(),
        plan_wf(p@),
        vm_first(p@),
{
    let mut presets: Vec<Preset> = Vec::new();
    let mut code: Vec<CodeWord> = Vec::new();
    code.push(code_word(MOV_X0_0X42, "Failed to write MOV instruction"));
    code.push(code_word(BRK_0, "Failed to write BRK instruction"));
    let t = ProgramTest {
        name: "MOV Immediate",
        mapping_size: 0x1000,
        presets,
        code,
        set_pc_failure: String::from_str("Failed to set PC"),
        run_failure: String::from_str("Failed to run VCPU"),
        finish: Finish::ReadX0 {
            check: check_of(0x42, "X0", "0x42", Radix::Hex),
            success: String::from_str("MOV X0, #0x42 executed correctly, X0 = 0x42"),
        },
    };
    assert(t@.presets =~= mov_immediate_program().presets);
    assert(t@.code =~= mov_immediate_program().code);
    program_plan_of(t)
}

/// The program that the MOV Immediate test writes leaves in X0 the value it
/// checks, from any registers that hold its presets.
pub proof fn lemma_mov_immediate_gives_check()
    ensures
        program_gives_check(mov_immediate_program()),
        presets_distinct(mov_immediate_program()),
{
    let t = mov_immediate_program();
    assert(code_words(t) =~= seq![MOV_X0_0X42, BRK_0]);
    assert forall|m: Machine| m.wf() && presets_hold(m, t) implies #[trigger] stops_with_x0(
        m,
        code_words(t),
        0x42,
    ) by {

        lemma_mov_immediate_program(m);
    }
}

/// The ADD Instruction test: `add x0, x0, x1; brk #0` from X0 = 10, X1 = 32: X0 must read 42.
pub open spec fn add_instruction_program() -> ProgramView {
    ProgramView {
        name: "ADD Instruction"@,
        mapping_size: 0x1000,
        presets: seq![PresetView { reg: Reg::X0, value: 10, failure: "Failed to set initial registers"@ },
            PresetView { reg: Reg::X1, value: 32, failure: "Failed to set initial registers"@ }],
        code: seq![
            CodeWordView { word: ADD_X0_X0_X1, failure: "Failed to write ADD instruction"@ },
            CodeWordView { word: BRK_0, failure: "Failed to write BRK instruction"@ },
        ],
        set_pc_failure: "Failed to execute"@,
        run_failure: "Failed to execute"@,
        finish: FinishView::ReadX0 {
            check: CheckView {
                expected: 42,
                label: "X0"@,
                expected_text: "42"@,
                radix: Radix::Decimal,
            },
            success: "ADD X0, X0, X1 executed correctly, X0 = 42"@,
        },
    }
}

/// The plan of the ADD Instruction test.
pub open spec fn spec_add_instruction_plan() -> PlanView {
    program_plan(add_instruction_program())
}

/// The plan of the ADD Instruction test.
pub fn add_instruction_plan() -> (p: Plan)
    ensures
        p@ == spec_add_instruction_plan(),
        plan_wf(p@),
        vm_first(p@),
{
    let mut presets: Vec<Preset> = Vec::new();
    presets.push(preset(Reg::X0, 10, "Failed to set initial registers"));
    presets.push(preset(Reg::X1, 32, "Failed to set initial registers"));
    let mut code: Vec<CodeWord> = Vec::new();
    code.push(code_word(ADD_X0_X0_X1, "Failed to write ADD instruction"));
    code.push(code_word(BRK_0, "Failed to write BRK instruction"));
    let t = ProgramTest {
        name: "ADD Instruction",
        mapping_size: 0x1000,
        presets,
        code,
        set_pc_failure: String::from_str("Failed to execute"),
        run_failure: String::from_str("Failed to execute"),
        finish: Finish::ReadX0 {
            check: check_of(42, "X0", "42", Radix::Decimal),
            success: String::from_str("ADD X0, X0, X1 executed correctly, X0 = 42"),
        },
    };
    assert(t@.presets =~= add_instruction_program().presets);
    assert(t@.code =~= add_instruction_program().code);
    program_plan_of(t)
}

/// The program that the ADD Instruction test writes leaves in X0 the value it
/// checks, from any registers that hold its presets.
pub proof fn lemma_add_instruction_gives_check()
    ensures
        program_gives_check(add_instruction_program()),
        presets_distinct(add_instruction_program()),
{
    let t = add_instruction_program();
    assert(code_words(t) =~= seq![ADD_X0_X0_X1, BRK_0]);
    assert forall|m: Machine| m.wf() && presets_hold(m, t) implies #[trigger] stops_with_x0(
        m,
        code_words(t),
        42,
    ) by {
        assert(m.x[register_number(t.presets[0].reg)] == t.presets[0].value);
        assert(m.x[register_number(t.presets[1].reg)] == t.presets[1].value);
        lemma_add_program(m);
    }
}

/// The SUB Instruction test: `sub x0, x0, x1; brk #0` from X0 = 100, X1 = 58: X0 must read 42.
pub open spec fn sub_instruction_program() -> ProgramView {
    ProgramView {
        name: "SUB Instruction"@,
        mapping_size: 0x1000,
        presets: seq![PresetView { reg: Reg::X0, value: 100, failure: "Failed to set initial registers"@ },
            PresetView { reg: Reg::X1, value: 58, failure: "Failed to set initial registers"@ }],
        code: seq![
            CodeWordView { word: SUB_X0_X0_X1, failure: "Failed to write SUB instruction"@ },
            CodeWordView { word: BRK_0, failure: "Failed to write BRK instruction"@ },
        ],
        set_pc_failure: "Failed to execute"@,
        run_failure: "Failed to execute"@,
        finish: FinishView::ReadX0 {
            check: CheckView {
                expected: 42,
                label: "X0"@,
                expected_text: "42"@,
                radix: Radix::Decimal,
            },
            success: "SUB X0, X0, X1 executed correctly, X0 = 42"@,
        },
    }
}

/// The plan of the SUB Instruction test.
pub open spec fn spec_sub_instruction_plan() -> PlanView {
    program_plan(sub_instruction_program())
}

/// The plan of the SUB Instruction test.
pub fn sub_instruction_plan() -> (p: Plan)
    ensures
        p@ == spec_sub_instruction_plan(),
        plan_wf(p@),
        vm_first(p@),
{
    let mut presets: Vec<Preset> = Vec::new();
    presets.push(preset(Reg::X0, 100, "Failed to set initial registers"));
    presets.push(preset(Reg::X1, 58, "Failed to set initial registers"));
    let mut code: Vec<CodeWord> = Vec::new();
    code.push(code_word(SUB_X0_X0_X1, "Failed to write SUB instruction"));
    code.push(code_word(BRK_0, "Failed to write BRK instruction"));
    let t = ProgramTest {
        name: "SUB Instruction",
        mapping_size: 0x1000,
        presets,
        code,
        set_pc_failure: String::from_str("Failed to execute"),
        run_failure: String::from_str("Failed to execute"),
        finish: Finish::ReadX0 {
            check: check_of(42, "X0", "42", Radix::Decimal),
            success: String::from_str("SUB X0, X0, X1 executed correctly, X0 = 42"),
        },
    };
    assert(t@.presets =~= sub_instruction_program().presets);
    assert(t@.code =~= sub_instruction_program().code);
    program_plan_of(t)
}

/// The program that the SUB Instruction test writes leaves in X0 the value it
/// checks, from any registers that hold its presets.
pub proof fn lemma_sub_instruction_gives_check()
    ensures
        program_gives_check(sub_instruction_program()),
        presets_distinct(sub_instruction_program()),
{
    let t = sub_instruction_program();
    assert(code_words(t) =~= seq![SUB_X0_X0_X1, BRK_0]);
    assert forall|m: Machine| m.wf() && presets_hold(m, t) implies #[trigger] stops_with_x0(
        m,
        code_words(t),
        42,
    ) by {
        assert(m.x[register_number(t.presets[0].reg)] == t.presets[0].value);
        assert(m.x[register_number(t.presets[1].reg)] == t.presets[1].value);
        lemma_sub_program(m);
    }
}

/// The Load/Store test: `str x2, [x1]; ldr x0, [x1]; brk #0` from X1 = 0x4100, X2 = 0xDEADBEEF in a
/// 0x2000-byte mapping: X0 must read 0xDEADBEEF.
pub open spec fn load_store_program() -> ProgramView {
    ProgramView {
        name: "Load/Store"@,
        mapping_size: 0x2000,
        presets: seq![PresetView { reg: Reg::X1, value: 0x4100, failure: "Failed to set X1"@ },
            PresetView { reg: Reg::X2, value: 0xDEADBEEF, failure: "Failed to set X2"@ }],
        code: seq![
            CodeWordView { word: STR_X2_X1, failure: "Failed to write STR instruction"@ },
            CodeWordView { word: LDR_X0_X1, failure: "Failed to write LDR instruction"@ },
            CodeWordView { word: BRK_0, failure: "Failed to write BRK instruction"@ },
        ],
        set_pc_failure: "Failed to execute"@,
        run_failure: "Failed to execute"@,
        finish: FinishView::ReadX0 {
            check: CheckView {
                expected: 0xDEADBEEF,
                label: "X0"@,
                expected_text: "0xDEADBEEF"@,
                radix: Radix::Hex,
            },
            success: "STR/LDR executed correctly, X0 = 0xDEADBEEF"@,
        },
    }
}

/// The plan of the Load/Store test.
pub open spec fn spec_load_store_plan() -> PlanView {
    program_plan(load_store_program())
}

/// The plan of the Load/Store test.
pub fn load_store_plan() -> (p: Plan)
    ensures
        p@ == spec_load_store_plan(),
        plan_wf(p@),
        vm_first(p@),
{
    let mut presets: Vec<Preset> = Vec::new();
    presets.push(preset(Reg::X1, 0x4100, "Failed to set X1"));
    presets.push(preset(Reg::X2, 0xDEADBEEF, "Failed to set X2"));
    let mut code: Vec<CodeWord> = Vec::new();
    code.push(code_word(STR_X2_X1, "Failed to write STR instruction"));
    code.push(code_word(LDR_X0_X1, "Failed to write LDR instruction"));
    code.push(code_word(BRK_0, "Failed to write BRK instruction"));
    let t = ProgramTest {
        name: "Load/Store",
        mapping_size: 0x2000,
        presets,
        code,
        set_pc_failure: String::from_str("Failed to execute"),
        run_failure: String::from_str("Failed to execute"),
        finish: Finish::ReadX0 {
            check: check_of(0xDEADBEEF, "X0", "0xDEADBEEF", Radix::Hex),
            success: String::from_str("STR/LDR executed correctly, X0 = 0xDEADBEEF"),
        },
    };
    assert(t@.presets =~= load_store_program().presets);
    assert(t@.code =~= load_store_program().code);
    program_plan_of(t)
}

/// The program that the Load/Store test writes leaves in X0 the value it
/// checks, from any registers that hold its presets.
pub proof fn lemma_load_store_gives_check()
    ensures
        program_gives_check(load_store_program()),
        presets_distinct(load_store_program()),
{
    let t = load_store_program();
    assert(code_words(t) =~= seq![STR_X2_X1, LDR_X0_X1, BRK_0]);
    assert forall|m: Machine| m.wf() && presets_hold(m, t) implies #[trigger] stops_with_x0(
        m,
        code_words(t),
        0xDEADBEEF,
    ) by {
        assert(m.x[register_number(t.presets[0].reg)] == t.presets[0].value);
        assert(m.x[register_number(t.presets[1].reg)] == t.presets[1].value);
        lemma_load_store_program(m);
    }
}

/// The AND Instruction test: `and x0, x0, x1; brk #0` from X0 = 0xFF, X1 = 0x0F: X0 must read 0x0F.
pub open spec fn and_instruction_program() -> ProgramView {
    ProgramView {
        name: "AND Instruction"@,
        mapping_size: 0x1000,
        presets: seq![PresetView { reg: Reg::X0, value: 0xFF, failure: "Failed to set initial registers"@ },
            PresetView { reg: Reg::X1, value: 0x0F, failure: "Failed to set initial registers"@ }],
        code: seq![
            CodeWordView { word: AND_X0_X0_X1, failure: "Failed to write AND instruction"@ },
            CodeWordView { word: BRK_0, failure: "Failed to write BRK instruction"@ },
        ],
        set_pc_failure: "Failed to execute"@,
        run_failure: "Failed to execute"@,
        finish: FinishView::ReadX0 {
            check: CheckView {
                expected: 0x0F,
                label: "X0"@,
                expected_text: "0x0F"@,
                radix: Radix::Hex,
            },
            success: "AND X0, X0, X1 executed correctly, X0 = 0x0F"@,
        },
    }
}

/// The plan of the AND Instruction test.
pub open spec fn spec_and_instruction_plan() -> PlanView {
    program_plan(and_instruction_program())
}

/// The plan of the AND Instruction test.
pub fn and_instruction_plan() -> (p: Plan)
    ensures
        p@ == spec_and_instruction_plan(),
        plan_wf(p@),
        vm_first(p@),
{
    let mut presets: Vec<Preset> = Vec::new();
    presets.push(preset(Reg::X0, 0xFF, "Failed to set initial registers"));
    presets.push(preset(Reg::X1, 0x0F, "Failed to set initial registers"));
    let mut code: Vec<CodeWord> = Vec::new();
    code.push(code_word(AND_X0_X0_X1, "Failed to write AND instruction"));
    code.push(code_word(BRK_0, "Failed to write BRK instruction"));
    let t = ProgramTest {
        name: "AND Instruction",
        mapping_size: 0x1000,
        presets,
        code,
        set_pc_failure: String::from_str("Failed to execute"),
        run_failure: String::from_str("Failed to execute"),
        finish: Finish::ReadX0 {
            check: check_of(0x0F, "X0", "0x0F", Radix::Hex),
            success: String::from_str("AND X0, X0, X1 executed correctly, X0 = 0x0F"),
        },
    };
    assert(t@.presets =~= and_instruction_program().presets);
    assert(t@.code =~= and_instruction_program().code);
    program_plan_of(t)
}

/// The program that the AND Instruction test writes leaves in X0 the value it
/// checks, from any registers that hold its presets.
pub proof fn lemma_and_instruction_gives_check()
    ensures
        program_gives_check(and_instruction_program()),
        presets_distinct(and_instruction_program()),
{
    let t = and_instruction_program();
    assert(code_words(t) =~= seq![AND_X0_X0_X1, BRK_0]);
    assert forall|m: Machine| m.wf() && presets_hold(m, t) implies #[trigger] stops_with_x0(
        m,
        code_words(t),
        0x0F,
    ) by {
        assert(m.x[register_number(t.presets[0].reg)] == t.presets[0].value);
        assert(m.x[register_number(t.presets[1].reg)] == t.presets[1].value);
        lemma_and_program(m);
    }
}

/// The ORR Instruction test: `orr x0, x0, x1; brk #0` from X0 = 0xF0, X1 = 0x0F: X0 must read 0xFF.
pub open spec fn orr_instruction_program() -> ProgramView {
    ProgramView {
        name: "ORR Instruction"@,
        mapping_size: 0x1000,
        presets: seq![PresetView { reg: Reg::X0, value: 0xF0, failure: "Failed to set initial registers"@ },
            PresetView { reg: Reg::X1, value: 0x0F, failure: "Failed to set initial registers"@ }],
        code: seq![
            CodeWordView { word: ORR_X0_X0_X1, failure: "Failed to write ORR instruction"@ },
            CodeWordView { word: BRK_0, failure: "Failed to write BRK instruction"@ },
        ],
        set_pc_failure: "Failed to execute"@,
        run_failure: "Failed to execute"@,
        finish: FinishView::ReadX0 {
            check: CheckView {
                expected: 0xFF,
                label: "X0"@,
                expected_text: "0xFF"@,
                radix: Radix::Hex,
            },
            success: "ORR X0, X0, X1 executed correctly, X0 = 0xFF"@,
        },
    }
}

/// The plan of the ORR Instruction test.
pub open spec fn spec_orr_instruction_plan() -> PlanView {
    program_plan(orr_instruction_program())
}

/// The plan of the ORR Instruction test.
pub fn orr_instruction_plan() -> (p: Plan)
    ensures
        p@ == spec_orr_instruction_plan(),
        plan_wf(p@),
        vm_first(p@),
{
    let mut presets: Vec<Preset> = Vec::new();
    presets.push(preset(Reg::X0, 0xF0, "Failed to set initial registers"));
    presets.push(preset(Reg::X1, 0x0F, "Failed to set initial registers"));
    let mut code: Vec<CodeWord> = Vec::new();
    code.push(code_word(ORR_X0_X0_X1, "Failed to write ORR instruction"));
    code.push(code_word(BRK_0, "Failed to write BRK instruction"));
    let t = ProgramTest {
        name: "ORR Instruction",
        mapping_size: 0x1000,
        presets,
        code,
        set_pc_failure: String::from_str("Failed to execute"),
        run_failure: String::from_str("Failed to execute"),
        finish: Finish::ReadX0 {
            check: check_of(0xFF, "X0", "0xFF", Radix::Hex),
            success: String::from_str("ORR X0, X0, X1 executed correctly, X0 = 0xFF"),
        },
    };
    assert(t@.presets =~= orr_instruction_program().presets);
    assert(t@.code =~= orr_instruction_program().code);
    program_plan_of(t)
}

/// The program that the ORR Instruction test writes leaves in X0 the value it
/// checks, from any registers that hold its presets.
pub proof fn lemma_orr_instruction_gives_check()
    ensures
        program_gives_check(orr_instruction_program()),
        presets_distinct(orr_instruction_program()),
{
    let t = orr_instruction_program();
    assert(code_words(t) =~= seq![ORR_X0_X0_X1, BRK_0]);
    assert forall|m: Machine| m.wf() && presets_hold(m, t) implies #[trigger] stops_with_x0(
        m,
        code_words(t),
        0xFF,
    ) by {
        assert(m.x[register_number(t.presets[0].reg)] == t.presets[0].value);
        assert(m.x[register_number(t.presets[1].reg)] == t.presets[1].value);
        lemma_orr_program(m);
    }
}

/// The EOR Instruction test: `eor x0, x0, x1; brk #0` from X0 = 0xFF, X1 = 0x0F: X0 must read 0xF0.
pub open spec fn eor_instruction_program() -> ProgramView {
    ProgramView {
        name: "EOR Instruction"@,
        mapping_size: 0x1000,
        presets: seq![PresetView { reg: Reg::X0, value: 0xFF, failure: "Failed to set initial registers"@ },
            PresetView { reg: Reg::X1, value: 0x0F, failure: "Failed to set initial registers"@ }],
        code: seq![
            CodeWordView { word: EOR_X0_X0_X1, failure: "Failed to write EOR instruction"@ },
            CodeWordView { word: BRK_0, failure: "Failed to write BRK instruction"@ },
        ],
        set_pc_failure: "Failed to execute"@,
        run_failure: "Failed to execute"@,
        finish: FinishView::ReadX0 {
            check: CheckView {
                expected: 0xF0,
                label: "X0"@,
                expected_text: "0xF0"@,
                radix: Radix::Hex,
            },
            success: "EOR X0, X0, X1 executed correctly, X0 = 0xF0"@,
        },
    }
}

/// The plan of the EOR Instruction test.
pub open spec fn spec_eor_instruction_plan() -> PlanView {
    program_plan(eor_instruction_program())
}

/// The plan of the EOR Instruction test.
pub fn eor_instruction_plan() -> (p: Plan)
    ensures
        p@ == spec_eor_instruction_plan(),
        plan_wf(p@),
        vm_first(p@),
{
    let mut presets: Vec<Preset> = Vec::new();
    presets.push(preset(Reg::X0, 0xFF, "Failed to set initial registers"));
    presets.push(preset(Reg::X1, 0x0F, "Failed to set initial registers"));
    let mut code: Vec<CodeWord> = Vec::new();
    code.push(code_word(EOR_X0_X0_X1, "Failed to write EOR instruction"));
    code.push(code_word(BRK_0, "Failed to write BRK instruction"));
    let t = ProgramTest {
        name: "EOR Instruction",
        mapping_size: 0x1000,
        presets,
        code,
        set_pc_failure: String::from_str("Failed to execute"),
        run_failure: String::from_str("Failed to execute"),
        finish: Finish::ReadX0 {
            check: check_of(0xF0, "X0", "0xF0", Radix::Hex),
            success: String::from_str("EOR X0, X0, X1 executed correctly, X0 = 0xF0"),
        },
    };
    assert(t@.presets =~= eor_instruction_program().presets);
    assert(t@.code =~= eor_instruction_program().code);
    program_plan_of(t)
}

/// The program that the EOR Instruction test writes leaves in X0 the value it
/// checks, from any registers that hold its presets.
pub proof fn lemma_eor_instruction_gives_check()
    ensures
        program_gives_check(eor_instruction_program()),
        presets_distinct(eor_instruction_program()),
{
    let t = eor_instruction_program();
    assert(code_words(t) =~= seq![EOR_X0_X0_X1, BRK_0]);
    assert forall|m: Machine| m.wf() && presets_hold(m, t) implies #[trigger] stops_with_x0(
        m,
        code_words(t),
        0xF0,
    ) by {
        assert(m.x[register_number(t.presets[0].reg)] == t.presets[0].value);
        assert(m.x[register_number(t.presets[1].reg)] == t.presets[1].value);
        lemma_eor_program(m);
    }
}

/// The MOV Shift test: `lsl x0, x1, #4; brk #0` from X1 = 1: X0 must read 16.
pub open spec fn mov_shift_program() -> ProgramView {
    ProgramView {
        name: "MOV Shift"@,
        mapping_size: 0x1000,
        presets: seq![PresetView { reg: Reg::X1, value: 1, failure: "Failed to set X1"@ }],
        code: seq![
            CodeWordView { word: LSL_X0_X1_4, failure: "Failed to write LSL instruction"@ },
            CodeWordView { word: BRK_0, failure: "Failed to write BRK instruction"@ },
        ],
        set_pc_failure: "Failed to execute"@,
        run_failure: "Failed to execute"@,
        finish: FinishView::ReadX0 {
            check: CheckView {
                expected: 16,
                label: "X0"@,
                expected_text: "16"@,
                radix: Radix::Decimal,
            },
            success: "LSL X0, X1, #4 executed correctly, X0 = 16"@,
        },
    }
}

/// The plan of the MOV Shift test.
pub open spec fn spec_mov_shift_plan() -> PlanView {
    program_plan(mov_shift_program())
}

/// The plan of the MOV Shift test.
pub fn mov_shift_plan() -> (p: Plan)
    ensures
        p@ == spec_mov_shift_plan(),
        plan_wf(p@),
        vm_first(p@),
{
    let mut presets: Vec<Preset> = Vec::new();
    presets.push(preset(Reg::X1, 1, "Failed to set X1"));
    let mut code: Vec<CodeWord> = Vec::new();
    code.push(code_word(LSL_X0_X1_4, "Failed to write LSL instruction"));
    code.push(code_word(BRK_0, "Failed to write BRK instruction"));
    let t = ProgramTest {
        name: "MOV Shift",
        mapping_size: 0x1000,
        presets,
        code,
        set_pc_failure: String::from_str("Failed to execute"),
        run_failure: String::from_str("Failed to execute"),
        finish: Finish::ReadX0 {
            check: check_of(16, "X0", "16", Radix::Decimal),
            success: String::from_str("LSL X0, X1, #4 executed correctly, X0 = 16"),
        },
    };
    assert(t@.presets =~= mov_shift_program().presets);
    assert(t@.code =~= mov_shift_program().code);
    program_plan_of(t)
}

/// The program that the MOV Shift test writes leaves in X0 the value it
/// checks, from any registers that hold its presets.
pub proof fn lemma_mov_shift_gives_check()
    ensures
        program_gives_check(mov_shift_program()),
        presets_distinct(mov_shift_program()),
{
    let t = mov_shift_program();
    assert(code_words(t) =~= seq![LSL_X0_X1_4, BRK_0]);
    assert forall|m: Machine| m.wf() && presets_hold(m, t) implies #[trigger] stops_with_x0(
        m,
        code_words(t),
        16,
    ) by {
        assert(m.x[register_number(t.presets[0].reg)] == t.presets[0].value);
        lemma_mov_shift_program(m);
    }
}

/// The Instruction Sequence test: `mov x0, #42; mov x1, #8; add x0, x0, x1; brk #0`: X0 must read 50.
pub open spec fn instruction_sequence_program() -> ProgramView {
    ProgramView {
        name: "Instruction Sequence"@,
        mapping_size: 0x1000,
        presets: seq![],
        code: seq![
            CodeWordView { word: MOV_X0_42, failure: "Failed to write instruction at "@ + rendered(code_address(0) as nat, Radix::Hex) },
            CodeWordView { word: MOV_X1_8, failure: "Failed to write instruction at "@ + rendered(code_address(1) as nat, Radix::Hex) },
            CodeWordView { word: ADD_X0_X0_X1, failure: "Failed to write instruction at "@ + rendered(code_address(2) as nat, Radix::Hex) },
            CodeWordView { word: BRK_0, failure: "Failed to write instruction at "@ + rendered(code_address(3) as nat, Radix::Hex) },
        ],
        set_pc_failure: "Failed to execute"@,
        run_failure: "Failed to execute"@,
        finish: FinishView::ReadX0 {
            check: CheckView {
                expected: 50,
                label: "X0"@,
                expected_text: "50"@,
                radix: Radix::Decimal,
            },
            success: "Multi-instruction ADD sequence executed correctly, X0 = 50"@,
        },
    }
}

/// The plan of the Instruction Sequence test.
pub open spec fn spec_instruction_sequence_plan() -> PlanView {
    program_plan(instruction_sequence_program())
}

/// The plan of the Instruction Sequence test.
pub fn instruction_sequence_plan() -> (p: Plan)
    ensures
        p@ == spec_instruction_sequence_plan(),
        plan_wf(p@),
        vm_first(p@),
{
    let mut presets: Vec<Preset> = Vec::new();
    let mut code: Vec<CodeWord> = Vec::new();
    code.push(CodeWord { word: MOV_X0_42, failure: write_failure_at(0x4000) });
    code.push(CodeWord { word: MOV_X1_8, failure: write_failure_at(0x4004) });
    code.push(CodeWord { word: ADD_X0_X0_X1, failure: write_failure_at(0x4008) });
    code.push(CodeWord { word: BRK_0, failure: write_failure_at(0x400c) });
    let t = ProgramTest {
        name: "Instruction Sequence",
        mapping_size: 0x1000,
        presets,
        code,
        set_pc_failure: String::from_str("Failed to execute"),
        run_failure: String::from_str("Failed to execute"),
        finish: Finish::ReadX0 {
            check: check_of(50, "X0", "50", Radix::Decimal),
            success: String::from_str("Multi-instruction ADD sequence executed correctly, X0 = 50"),
        },
    };
    assert(t@.presets =~= instruction_sequence_program().presets);
    assert(t@.code =~= instruction_sequence_program().code);
    program_plan_of(t)
}

/// The program that the Instruction Sequence test writes leaves in X0 the value it
/// checks, from any registers that hold its presets.
pub proof fn lemma_instruction_sequence_gives_check()
    ensures
        program_gives_check(instruction_sequence_program()),
        presets_distinct(instruction_sequence_program()),
{
    let t = instruction_sequence_program();
    assert(code_words(t) =~= seq![MOV_X0_42, MOV_X1_8, ADD_X0_X0_X1, BRK_0]);
    assert forall|m: Machine| m.wf() && presets_hold(m, t) implies #[trigger] stops_with_x0(
        m,
        code_words(t),
        50,
    ) by {

        lemma_instruction_sequence_program(m);
    }
}

/// The Exit Info test: a lone breakpoint (`brk #0x123`); the test describes the exit record.
pub open spec fn exit_info_program() -> ProgramView {
    ProgramView {
        name: "Exit Info"@,
        mapping_size: 0x1000,
        presets: seq![],
        code: seq![
            CodeWordView { word: BRK_EXIT_TEST, failure: "Failed to write BRK instruction"@ },
        ],
        set_pc_failure: "Failed to execute"@,
        run_failure: "Failed to execute"@,
        finish: FinishView::DescribeExit,
    }
}

/// The plan of the Exit Info test.
pub open spec fn spec_exit_info_plan() -> PlanView {
    program_plan(exit_info_program())
}

/// The plan of the Exit Info test.
pub fn exit_info_plan() -> (p: Plan)
    ensures
        p@ == spec_exit_info_plan(),
        plan_wf(p@),
        vm_first(p@),
{
    let mut presets: Vec<Preset> = Vec::new();
    let mut code: Vec<CodeWord> = Vec::new();
    code.push(code_word(BRK_EXIT_TEST, "Failed to write BRK instruction"));
    let t = ProgramTest {
        name: "Exit Info",
        mapping_size: 0x1000,
        presets,
        code,
        set_pc_failure: String::from_str("Failed to execute"),
        run_failure: String::from_str("Failed to execute"),
        finish: Finish::DescribeExit,
    };
    assert(t@.presets =~= exit_info_program().presets);
    assert(t@.code =~= exit_info_program().code);
    program_plan_of(t)
}

/// The program that the Exit Info test writes stops at once at a breakpoint.
pub proof fn lemma_exit_info_gives_check()
    ensures
        program_gives_check(exit_info_program()),
        presets_distinct(exit_info_program()),
{
    let t = exit_info_program();
    assert(code_words(t) =~= seq![BRK_EXIT_TEST]);
    assert forall|m: Machine| (#[trigger] run(m, code_words(t))).1 is Breakpoint by {
        lemma_exit_program(m);
    }
}

/// The load/store test's data sits in its mapping apart from its code: the
/// base register X1 is preset to 0x4100, which is 8-byte aligned; the eight
/// bytes from it lie inside the mapped range [0x4000, 0x4000 + 0x2000); and
/// the code ends at or before it.
pub proof fn lemma_load_store_layout()
    ensures
        ({
            let t = load_store_program();
            &&& t.presets[0].reg == Reg::X1
            &&& t.presets[0].value == 0x4100
            &&& t.presets[0].value % 8 == 0
            &&& 0x4000 <= t.presets[0].value
            &&& t.presets[0].value + 8 <= 0x4000 + t.mapping_size
            &&& code_address(t.code.len() as int) <= t.presets[0].value
        }),
{
}

// ---------------------------------------------------------------------------
// The tests that run no guest program.

/// The plan of the VM/VCPU creation test: create the VM and a vCPU, then
/// trap debug exceptions and debug register accesses.
pub open spec fn spec_vm_vcpu_creation_plan() -> PlanView {
    PlanView {
        name: "VM/VCPU Creation"@,
        steps: seq![
            detailed(Call::CreateVm, "Failed to create VM"@),
            detailed(Call::CreateVcpu, "Failed to create VCPU"@),
            plain(Call::TrapDebugExceptions, "Failed to set trap debug exceptions"@),
            plain(Call::TrapDebugRegAccesses, "Failed to set trap debug reg accesses"@),
        ],
        success: SuccessView::Message(
            "VM and VCPU created successfully with debug features enabled"@,
        ),
    }
}

/// The plan of the VM/VCPU creation test.
pub fn vm_vcpu_creation_plan() -> (p: Plan)
    ensures
        p@ == spec_vm_vcpu_creation_plan(),
        plan_wf(p@),
        vm_first(p@),
{
    let mut steps: Vec<Step> = Vec::new();
    push_step(&mut steps, detailed_step(Call::CreateVm, "Failed to create VM"));
    push_step(&mut steps, detailed_step(Call::CreateVcpu, "Failed to create VCPU"));
    push_step(&mut steps, plain_step(Call::TrapDebugExceptions, "Failed to set trap debug exceptions"));
    push_step(
        &mut steps,
        plain_step(Call::TrapDebugRegAccesses, "Failed to set trap debug reg accesses"),
    );
    let p = Plan {
        name: "VM/VCPU Creation",
        steps,
        success: Success::Message(
            String::from_str("VM and VCPU created successfully with debug features enabled"),
        ),
    };
    assert(p@.steps =~= spec_vm_vcpu_creation_plan().steps);
    proof {
        let st = p@.steps;
        lemma_vm_first_when_opened_by_vm(p@);
        assert(st[1].call is CreateVcpu);
        assert forall|k: int| 0 <= k < st.len() implies step_ok(st, k) by {
            if k >= 2 {
                assert(vcpu_before(st, k));
            }
        }
    }
    p
}

/// The two steps for general register X`i`: write its test value, then read
/// it back.
pub open spec fn register_pair(i: nat) -> Seq<StepView> {
    seq![
        plain(
            Call::SetReg { reg: gp_reg(i), value: register_test_value_spec(i) as u64 },
            "Failed to set "@ + register_name(i),
        ),
        read_reg(
            gp_reg(i),
            "Failed to get "@ + register_name(i),
            CheckView {
                expected: register_test_value_spec(i) as u64,
                label: register_name(i),
                expected_text: rendered(register_test_value_spec(i), Radix::Hex),
                radix: Radix::Hex,
            },
        ),
    ]
}

/// The register steps for X0 to X`n - 1`, in order.
pub open spec fn register_pairs(n: nat) -> Seq<StepView> {
    Seq::new(2 * n, |k: int| register_pair((k / 2) as nat)[k % 2])
}

/// The plan of the register test: create the VM and a vCPU; write and read
/// back each of X0 to X28; then write 0x8000 to PC and read it back.
pub open spec fn spec_register_operations_plan() -> PlanView {
    PlanView {
        name: "Register Operations"@,
        steps: seq![
            detailed(Call::CreateVm, "Failed to create VM"@),
            detailed(Call::CreateVcpu, "Failed to create VCPU"@),
        ] + register_pairs(29) + seq![
            plain(Call::SetReg { reg: Reg::PC, value: 0x8000 }, "Failed to set PC"@),
            read_reg(
                Reg::PC,
                "Failed to get PC"@,
                CheckView {
                    expected: 0x8000,
                    label: "PC"@,
                    expected_text: rendered(0x8000, Radix::Hex),
                    radix: Radix::Hex,
                },
            ),
        ],
        success: SuccessView::Message("All general purpose registers and PC read/write verified"@),
    }
}

/// The register test makes 62 calls, and for each `i` from 0 to 28 its
/// calls 2 + 2i and 3 + 2i write X`i`'s own test value and read X`i` back.
pub proof fn lemma_register_plan_covers_x0_to_x28(i: int)
    requires
        0 <= i <= 28,
    ensures
        spec_register_operations_plan().steps.len() == 62,
        spec_register_operations_plan().steps[2 + 2 * i].call == (Call::SetReg {
            reg: gp_reg(i as nat),
            value: register_test_value_spec(i as nat) as u64,
        }),
        spec_register_operations_plan().steps[3 + 2 * i].call == (Call::GetReg { reg: gp_reg(i as nat) }),
        spec_register_operations_plan().steps[3 + 2 * i].check->0.expected
            == register_test_value_spec(i as nat) as u64,
{
    let st = spec_register_operations_plan().steps;
    assert(st[2 + 2 * i] == register_pairs(29)[2 * i]);
    assert(st[3 + 2 * i] == register_pairs(29)[2 * i + 1]);
    assert((2 * i) / 2 == i && (2 * i) % 2 == 0);
    assert((2 * i + 1) / 2 == i && (2 * i + 1) % 2 == 1);
}

/// The plan of the register test.
pub fn register_operations_plan() -> (p: Plan)
    ensures
        p@ == spec_register_operations_plan(),
        plan_wf(p@),
        vm_first(p@),
{
    let mut steps: Vec<Step> = Vec::new();
    push_step(&mut steps, detailed_step(Call::CreateVm, "Failed to create VM"));
    push_step(&mut steps, detailed_step(Call::CreateVcpu, "Failed to create VCPU"));
    let ghost head = seq![
        detailed(Call::CreateVm, "Failed to create VM"@),
        detailed(Call::CreateVcpu, "Failed to create VCPU"@),
    ];
    assert(steps@.map_values(|s: Step| s@) =~= head + register_pairs(0));
    let mut i: u8 = 0;
    while i <= 28
        invariant
            i <= 29,
            steps@.map_values(|s: Step| s@) == head + register_pairs(i as nat),
        decreases 29 - i,
    {
        let reg = general_register(i);
        let value = register_test_value(i);
        let label = register_label(i);
        let mut set_failure = String::from_str("Failed to set ");
        set_failure.append(label.as_str());
        let mut get_failure = String::from_str("Failed to get ");
        get_failure.append(label.as_str());
        let expected_text = render_value(value, Radix::Hex);
        let ghost before = steps@.map_values(|s: Step| s@);
        push_step(
            &mut steps,
            plain_step(Call::SetReg { reg, value }, set_failure.as_str()),
        );
        push_step(
            &mut steps,
            checked_step(
                Call::GetReg { reg },
                get_failure.as_str(),
                check_of(value, label.as_str(), expected_text.as_str(), Radix::Hex),
            ),
        );
        proof {
            let pair = register_pair(i as nat);
            assert(steps@.map_values(|s: Step| s@) =~= before.push(pair[0]).push(pair[1]));
            assert forall|k: int| 0 <= k < 2 * (i + 1) implies #[trigger] register_pairs(
                (i + 1) as nat,
            )[k] == register_pairs(i as nat).push(pair[0]).push(pair[1])[k] by {
                if k < 2 * i {
                } else if k == 2 * i {
                    assert(k / 2 == i && k % 2 == 0);
                } else {
                    assert(k / 2 == i && k % 2 == 1);
                }
            }
            assert(register_pairs((i + 1) as nat) =~= register_pairs(i as nat).push(pair[0]).push(
                pair[1],
            ));
        }
        i = i + 1;
    }
    push_step(&mut steps, plain_step(Call::SetReg { reg: Reg::PC, value: 0x8000 }, "Failed to set PC"));
    let pc_text = render_value(0x8000, Radix::Hex);
    push_step(
        &mut steps,
        checked_step(
            Call::GetReg { reg: Reg::PC },
            "Failed to get PC",
            check_of(0x8000, "PC", pc_text.as_str(), Radix::Hex),
        ),
    );
    let p = Plan {
        name: "Register Operations",
        steps,
        success: Success::Message(
            String::from_str("All general purpose registers and PC read/write verified"),
        ),
    };
    assert(p@.steps =~= spec_register_operations_plan().steps);
    proof {
        let st = p@.steps;
        lemma_vm_first_when_opened_by_vm(p@);
        assert(st[1].call is CreateVcpu);
        assert forall|k: int| 0 <= k < st.len() implies step_ok(st, k) by {
            if k >= 2 {
                assert(vcpu_before(st, k));
            }
            if 2 <= k < 60 {
                assert(st[k] == register_pairs(29)[k - 2]);
            }
        }
    }
    p
}

/// The plan of the memory test: create the VM and two mappings (0x1000 and
/// 0x2000 bytes), map the first RWX at 0x4000 and the second RW at 0x8000,
/// write 0x12345678 at 0x4000 and read it back.
pub open spec fn spec_memory_mapping_plan() -> PlanView {
    PlanView {
        name: "Memory Mapping"@,
        steps: seq![
            detailed(Call::CreateVm, "Failed to create VM"@),
            detailed(Call::CreateMapping { slot: 0, size: 0x1000 }, "Failed to create mapping 1"@),
            detailed(Call::CreateMapping { slot: 1, size: 0x2000 }, "Failed to create mapping 2"@),
            plain(
                Call::MapMemory { slot: 0, guest_addr: 0x4000, perms: MemPerms::ReadWriteExec },
                "Failed to map mem1 with RWX permissions"@,
            ),
            plain(
                Call::MapMemory { slot: 1, guest_addr: 0x8000, perms: MemPerms::ReadWrite },
                "Failed to map mem2 with RW permissions"@,
            ),
            plain(
                Call::WriteDword { slot: 0, guest_addr: 0x4000, word: 0x1234_5678 },
                "Failed to write dword to mem1"@,
            ),
            StepView {
                call: Call::ReadDword { slot: 0, guest_addr: 0x4000 },
                failure: "Failed to read dword"@,
                detailed: true,
                check: Some(
                    CheckView {
                        expected: 0x1234_5678,
                        label: "Memory read"@,
                        expected_text: rendered(0x1234_5678, Radix::Hex),
                        radix: Radix::Hex,
                    },
                ),
            },
        ],
        success: SuccessView::Message("Memory mapping with RWX/RW permissions verified"@),
    }
}

/// The plan of the memory test.
pub fn memory_mapping_plan() -> (p: Plan)
    ensures
        p@ == spec_memory_mapping_plan(),
        plan_wf(p@),
        vm_first(p@),
{
    let mut steps: Vec<Step> = Vec::new();
    push_step(&mut steps, detailed_step(Call::CreateVm, "Failed to create VM"));
    push_step(
        &mut steps,
        detailed_step(Call::CreateMapping { slot: 0, size: 0x1000 }, "Failed to create mapping 1"),
    );
    push_step(
        &mut steps,
        detailed_step(Call::CreateMapping { slot: 1, size: 0x2000 }, "Failed to create mapping 2"),
    );
    push_step(
        &mut steps,
        plain_step(
            Call::MapMemory { slot: 0, guest_addr: 0x4000, perms: MemPerms::ReadWriteExec },
            "Failed to map mem1 with RWX permissions",
        ),
    );
    push_step(
        &mut steps,
        plain_step(
            Call::MapMemory { slot: 1, guest_addr: 0x8000, perms: MemPerms::ReadWrite },
            "Failed to map mem2 with RW permissions",
        ),
    );
    let test_data: u32 = 0x1234_5678;
    push_step(
        &mut steps,
        plain_step(
            Call::WriteDword { slot: 0, guest_addr: 0x4000, word: test_data },
            "Failed to write dword to mem1",
        ),
    );
    let expected_text = render_value(test_data as u64, Radix::Hex);
    push_step(
        &mut steps,
        checked_step(
            Call::ReadDword { slot: 0, guest_addr: 0x4000 },
            "Failed to read dword",
            check_of(test_data as u64, "Memory read", expected_text.as_str(), Radix::Hex),
        ),
    );
    let p = Plan {
        name: "Memory Mapping",
        steps,
        success: Success::Message(String::from_str("Memory mapping with RWX/RW permissions verified")),
    };
    assert(p@.steps =~= spec_memory_mapping_plan().steps);
    proof {
        let st = p@.steps;
        lemma_vm_first_when_opened_by_vm(p@);
        assert(creates_mapping(st[1].call, 0));
        assert(creates_mapping(st[2].call, 1));
        assert forall|k: int| 0 <= k < st.len() implies step_ok(st, k) by {
            if k >= 2 {
                assert(mapping_before(st, k, 0));
            }
            if k >= 3 {
                assert(mapping_before(st, k, 1));
            }
        }
    }
    p
}

} // verus!

verus! {

/// Every test creates the virtual machine before it creates its vCPU or
/// maps memory into the guest.
pub proof fn lemma_suite_plans_create_vm_first()
    ensures
        vm_first(spec_vm_vcpu_creation_plan()),
        vm_first(spec_register_operations_plan()),
        vm_first(spec_memory_mapping_plan()),
        vm_first(spec_mov_immediate_plan()),
        vm_first(spec_add_instruction_plan()),
        vm_first(spec_sub_instruction_plan()),
        vm_first(spec_load_store_plan()),
        vm_first(spec_and_instruction_plan()),
        vm_first(spec_orr_instruction_plan()),
        vm_first(spec_eor_instruction_plan()),
        vm_first(spec_mov_shift_plan()),
        vm_first(spec_instruction_sequence_plan()),
        vm_first(spec_exit_info_plan()),
{
    lemma_vm_first_when_opened_by_vm(spec_vm_vcpu_creation_plan());
    lemma_vm_first_when_opened_by_vm(spec_register_operations_plan());
    lemma_vm_first_when_opened_by_vm(spec_memory_mapping_plan());
    lemma_vm_first_when_opened_by_vm(spec_mov_immediate_plan());
    lemma_vm_first_when_opened_by_vm(spec_add_instruction_plan());
    lemma_vm_first_when_opened_by_vm(spec_sub_instruction_plan());
    lemma_vm_first_when_opened_by_vm(spec_load_store_plan());
    lemma_vm_first_when_opened_by_vm(spec_and_instruction_plan());
    lemma_vm_first_when_opened_by_vm(spec_orr_instruction_plan());
    lemma_vm_first_when_opened_by_vm(spec_eor_instruction_plan());
    lemma_vm_first_when_opened_by_vm(spec_mov_shift_plan());
    lemma_vm_first_when_opened_by_vm(spec_instruction_sequence_plan());
    lemma_vm_first_when_opened_by_vm(spec_exit_info_plan());
}

/// The presets of a program test name distinct general registers X0 to X30,
/// so that some register file holds them all.
pub open spec fn presets_distinct(t: ProgramView) -> bool {
    &&& forall|i: int|
        0 <= i < t.presets.len() ==> 0 <= register_number(#[trigger] t.presets[i].reg) <= 30
    &&& forall|i: int, j: int|
        0 <= i < j < t.presets.len() ==> register_number(#[trigger] t.presets[i].reg)
            != register_number(#[trigger] t.presets[j].reg)
}

/// Distinct presets can all hold at once: some machine holds every preset, so
/// `program_gives_check` is never vacuous for such a test.
pub proof fn lemma_presets_satisfiable(t: ProgramView)
    requires
        presets_distinct(t),
    ensures
        exists|m: Machine| m.wf() && presets_hold(m, t),
{
    let x = Seq::new(
        31,
        |r: int|
            if exists|i: int| 0 <= i < t.presets.len() && register_number(t.presets[i].reg) == r {
                t.presets[choose|i: int|
                    0 <= i < t.presets.len() && register_number(t.presets[i].reg) == r].value
            } else {
                0u64
            },
    );
    let m = Machine { x, sp: 0, mem: Map::empty() };
    assert forall|i: int| 0 <= i < t.presets.len() implies m.x[register_number(
        #[trigger] t.presets[i].reg,
    )] == t.presets[i].value by {
        let r = register_number(t.presets[i].reg);
        assert(0 <= i < t.presets.len() && register_number(t.presets[i].reg) == r);
        let c = choose|c: int| 0 <= c < t.presets.len() && register_number(t.presets[c].reg) == r;
        if c != i {
            if c < i {
                assert(register_number(t.presets[c].reg) != register_number(t.presets[i].reg));
            } else {
                assert(register_number(t.presets[i].reg) != register_number(t.presets[c].reg));
            }
        }
    }
    assert(m.wf() && presets_hold(m, t));
}

/// Step `j` writes `word` at `guest_addr` of mapping `slot`.
pub open spec fn writes(step: StepView, slot: usize, guest_addr: u64, word: u32) -> bool {
    step.call == (Call::WriteDword { slot, guest_addr, word })
}

/// The step checks that its read gives `value`.
pub open spec fn expects(step: StepView, value: u64) -> bool {
    match step.check {
        Some(c) => c.expected == value,
        None => false,
    }
}

/// The last step of `p` reads back what an earlier step wrote: it reads the
/// same mapping at the same guest address, and its check expects the word
/// written there.
pub open spec fn reads_back_a_write(p: PlanView) -> bool {
    exists|j: int, slot: usize, guest_addr: u64, word: u32|
        {
            &&& 0 <= j < p.steps.len() - 1
            &&& #[trigger] writes(p.steps[j], slot, guest_addr, word)
            &&& p.steps.last().call == (Call::ReadDword { slot, guest_addr })
            &&& expects(p.steps.last(), word as u64)
        }
}

/// The memory test reads back, from the mapping and address it wrote, the
/// word it wrote there, and expects that word.
pub proof fn lemma_memory_test_reads_back_its_write()
    ensures
        reads_back_a_write(spec_memory_mapping_plan()),
{
    let p = spec_memory_mapping_plan();
    assert(p.steps.last() == p.steps[6]);
    assert(writes(p.steps[5], 0, 0x4000, 0x1234_5678));
    assert(expects(p.steps.last(), 0x1234_5678u32 as u64));
    assert(p.steps.last().call == (Call::ReadDword { slot: 0, guest_addr: 0x4000 }));
    assert(0 <= 5 < p.steps.len() - 1 && writes(p.steps[5], 0, 0x4000, 0x1234_5678)
        && expects(p.steps.last(), 0x1234_5678u32 as u64));
}

} // verus!
