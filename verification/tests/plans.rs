use applevisor::{ExitReason, MemPerms, Reg, VcpuExit, VcpuExitException};
use hello_hv::a64::{ADD_X0_X0_X1, BRK_0, BRK_EXIT_TEST, LDR_X0_X1, LSL_X0_X1_4, STR_X2_X1, SUB_X0_X0_X1};
use hello_hv::plan::{judge_step, verdict, Answer, Call, Plan};
use hello_hv::plans::{
    add_instruction_plan, eor_instruction_plan, exit_info_plan, instruction_sequence_plan,
    load_store_plan, memory_mapping_plan, mov_immediate_plan, mov_shift_plan,
    register_operations_plan, sub_instruction_plan, vm_vcpu_creation_plan,
};

fn done(n: usize) -> Vec<Answer> {
    (0..n).map(|_| Answer::Done).collect()
}

fn failure(plan: &Plan, k: usize) -> String {
    plan.steps[k].failure.clone()
}

#[test]
fn add_plan_writes_add_then_brk_after_presetting_x0_and_x1() {
    let p = add_instruction_plan();
    assert_eq!(p.name, "ADD Instruction");
    assert_eq!(p.steps.len(), 11);
    assert!(matches!(p.steps[0].call, Call::CreateVm));
    assert!(matches!(p.steps[1].call, Call::CreateVcpu));
    assert!(matches!(p.steps[2].call, Call::CreateMapping { slot: 0, size: 0x1000 }));
    assert!(matches!(
        p.steps[3].call,
        Call::MapMemory { slot: 0, guest_addr: 0x4000, perms: MemPerms::ReadWriteExec }
    ));
    assert!(matches!(p.steps[4].call, Call::SetReg { reg: Reg::X0, value: 10 }));
    assert!(matches!(p.steps[5].call, Call::SetReg { reg: Reg::X1, value: 32 }));
    assert!(matches!(p.steps[6].call, Call::WriteDword { slot: 0, guest_addr: 0x4000, word: ADD_X0_X0_X1 }));
    assert!(matches!(p.steps[7].call, Call::WriteDword { slot: 0, guest_addr: 0x4004, word: BRK_0 }));
    assert!(matches!(p.steps[8].call, Call::SetReg { reg: Reg::PC, value: 0x4000 }));
    assert!(matches!(p.steps[9].call, Call::Run));
    assert!(matches!(p.steps[10].call, Call::GetReg { reg: Reg::X0 }));
    assert_eq!(failure(&p, 4), "Failed to set initial registers");
    assert_eq!(failure(&p, 6), "Failed to write ADD instruction");
    assert_eq!(failure(&p, 7), "Failed to write BRK instruction");
    assert_eq!(p.steps[10].check.as_ref().unwrap().expected, 42);
}

#[test]
fn other_program_plans_write_their_own_words() {
    let sub = sub_instruction_plan();
    assert!(matches!(sub.steps[6].call, Call::WriteDword { word: SUB_X0_X0_X1, .. }));
    let eor = eor_instruction_plan();
    assert_eq!(failure(&eor, 6), "Failed to write EOR instruction");
    assert_eq!(failure(&eor, 7), "Failed to write BRK instruction");
    let shift = mov_shift_plan();
    assert!(matches!(shift.steps[4].call, Call::SetReg { reg: Reg::X1, value: 1 }));
    assert!(matches!(shift.steps[5].call, Call::WriteDword { word: LSL_X0_X1_4, .. }));
    let ls = load_store_plan();
    assert!(matches!(ls.steps[2].call, Call::CreateMapping { size: 0x2000, .. }));
    assert!(matches!(ls.steps[4].call, Call::SetReg { reg: Reg::X1, value: 0x4100 }));
    assert!(matches!(ls.steps[5].call, Call::SetReg { reg: Reg::X2, value: 0xDEADBEEF }));
    assert!(matches!(ls.steps[6].call, Call::WriteDword { guest_addr: 0x4000, word: STR_X2_X1, .. }));
    assert!(matches!(ls.steps[7].call, Call::WriteDword { guest_addr: 0x4004, word: LDR_X0_X1, .. }));
    assert!(matches!(ls.steps[8].call, Call::WriteDword { guest_addr: 0x4008, word: BRK_0, .. }));
    let mov = mov_immediate_plan();
    assert_eq!(failure(&mov, 6), "Failed to set PC");
    assert_eq!(failure(&mov, 7), "Failed to run VCPU");
    let seq = instruction_sequence_plan();
    assert_eq!(failure(&seq, 7), "Failed to write instruction at 0x400c");
    let exit = exit_info_plan();
    assert!(matches!(exit.steps[4].call, Call::WriteDword { word: BRK_EXIT_TEST, .. }));
    assert!(matches!(exit.steps[7].call, Call::ExitInfo));
}

#[test]
fn register_plan_covers_x0_to_x28_then_pc() {
    let p = register_operations_plan();
    assert_eq!(p.steps.len(), 62);
    let regs = [
        Reg::X0, Reg::X1, Reg::X2, Reg::X3, Reg::X4, Reg::X5, Reg::X6, Reg::X7, Reg::X8, Reg::X9,
        Reg::X10, Reg::X11, Reg::X12, Reg::X13, Reg::X14, Reg::X15, Reg::X16, Reg::X17, Reg::X18,
        Reg::X19, Reg::X20, Reg::X21, Reg::X22, Reg::X23, Reg::X24, Reg::X25, Reg::X26, Reg::X27,
        Reg::X28,
    ];
    for (i, r) in regs.iter().enumerate() {
        let v = 0xDEAD_BEEF_0000_0000u64 | i as u64;
        match p.steps[2 + 2 * i].call {
            Call::SetReg { reg, value } => assert_eq!((reg, value), (*r, v)),
            _ => panic!("step {} is not a register write", 2 + 2 * i),
        }
        match p.steps[3 + 2 * i].call {
            Call::GetReg { reg } => assert_eq!(reg, *r),
            _ => panic!("step {} is not a register read", 3 + 2 * i),
        }
        assert_eq!(failure(&p, 2 + 2 * i), format!("Failed to set X{}", i));
        assert_eq!(failure(&p, 3 + 2 * i), format!("Failed to get X{}", i));
    }
    assert!(matches!(p.steps[60].call, Call::SetReg { reg: Reg::PC, value: 0x8000 }));
    assert!(matches!(p.steps[61].call, Call::GetReg { reg: Reg::PC }));
}

#[test]
fn register_test_stops_at_a_bad_x28() {
    let p = register_operations_plan();
    let mut answers = done(2);
    for i in 0..28u64 {
        answers.push(Answer::Done);
        answers.push(Answer::Value(0xDEAD_BEEF_0000_0000 | i));
    }
    answers.push(Answer::Done);
    answers.push(Answer::Value(0));
    assert_eq!(answers.len(), 60);
    let r = verdict(&p, &answers);
    assert_eq!(r.name, "Register Operations");
    assert!(!r.passed);
    assert_eq!(r.message, "X28 mismatch: expected 0xdeadbeef0000001c, got 0x0");
}

#[test]
fn register_test_reports_a_failed_write() {
    let p = register_operations_plan();
    let mut answers = done(2);
    for i in 0..5u64 {
        answers.push(Answer::Done);
        answers.push(Answer::Value(0xDEAD_BEEF_0000_0000 | i));
    }
    answers.push(Answer::Failed("denied".to_string()));
    let r = verdict(&p, &answers);
    assert!(!r.passed);
    assert_eq!(r.message, "Failed to set X5");
}

#[test]
fn register_test_passes_on_a_faithful_register_file() {
    let p = register_operations_plan();
    let mut answers = done(2);
    for i in 0..29u64 {
        answers.push(Answer::Done);
        answers.push(Answer::Value(0xDEAD_BEEF_0000_0000 | i));
    }
    answers.push(Answer::Done);
    answers.push(Answer::Value(0x8000));
    let r = verdict(&p, &answers);
    assert!(r.passed);
    assert_eq!(r.message, "All general purpose registers and PC read/write verified");
}

#[test]
fn load_store_reports_a_failed_pc_write_as_failed_to_execute() {
    let p = load_store_plan();
    let mut answers = done(9);
    answers.push(Answer::Failed("busy".to_string()));
    let r = verdict(&p, &answers);
    assert_eq!(r.name, "Load/Store");
    assert!(!r.passed);
    assert_eq!(r.message, "Failed to execute");
}

#[test]
fn add_test_verdicts() {
    let p = add_instruction_plan();
    let mut answers = done(10);
    answers.push(Answer::Value(42));
    let r = verdict(&p, &answers);
    assert!(r.passed);
    assert_eq!(r.message, "ADD X0, X0, X1 executed correctly, X0 = 42");
    let mut answers = done(10);
    answers.push(Answer::Value(41));
    let r = verdict(&p, &answers);
    assert!(!r.passed);
    assert_eq!(r.message, "X0 mismatch: expected 42, got 41");
    let mut answers = done(10);
    answers.push(Answer::Failed("HypervisorError".to_string()));
    assert_eq!(verdict(&p, &answers).message, "Failed to get X0: HypervisorError");
}

#[test]
fn vm_creation_failure_carries_the_error_text() {
    let p = vm_vcpu_creation_plan();
    let r = verdict(&p, &vec![Answer::Failed("no VM".to_string())]);
    assert!(!r.passed);
    assert_eq!(r.message, "Failed to create VM: no VM");
    let mut answers = done(2);
    answers.push(Answer::Failed("x".to_string()));
    assert_eq!(verdict(&p, &answers).message, "Failed to set trap debug exceptions");
    let r = verdict(&p, &done(4));
    assert!(r.passed);
    assert_eq!(r.message, "VM and VCPU created successfully with debug features enabled");
}

#[test]
fn memory_test_plan_and_verdicts() {
    let p = memory_mapping_plan();
    assert_eq!(p.steps.len(), 7);
    assert!(matches!(p.steps[4].call, Call::MapMemory { slot: 1, guest_addr: 0x8000, perms: MemPerms::ReadWrite }));
    let mut answers = done(6);
    answers.push(Answer::Value(0x1234_5679));
    assert_eq!(verdict(&p, &answers).message, "Memory read mismatch: expected 0x12345678, got 0x12345679");
    let mut answers = done(6);
    answers.push(Answer::Value(0x1234_5678));
    assert!(verdict(&p, &answers).passed);
}

#[test]
fn exit_test_describes_the_record_it_read() {
    let p = exit_info_plan();
    let mut answers = done(7);
    answers.push(Answer::Exit(VcpuExit {
        reason: ExitReason::EXCEPTION,
        exception: VcpuExitException { syndrome: 2181038087, virtual_address: 1024, physical_address: 1024 },
    }));
    let r = verdict(&p, &answers);
    assert!(r.passed);
    assert_eq!(
        r.message,
        "Exit information retrieved: reason=EXCEPTION, exception=hv_vcpu_exit_exception_t { syndrome: 2181038087, virtual_address: 1024, physical_address: 1024 }"
    );
}

#[test]
fn judge_step_goes_on_after_a_good_read() {
    let p = add_instruction_plan();
    assert!(judge_step(&p.steps[10], &Answer::Value(42)).is_none());
    assert!(judge_step(&p.steps[9], &Answer::Done).is_none());
    assert_eq!(judge_step(&p.steps[9], &Answer::Failed("e".to_string())).unwrap(), "Failed to execute");
}
