use applevisor::{ExitReason, Reg, VcpuExit, VcpuExitException};
use hello_hv::checks::{
    exit_info_message, general_register, mismatch_message, register_label,
    register_test_value, with_detail,
};
use hello_hv::numfmt::Radix;

#[test]
fn detail_follows_context() {
    assert_eq!(
        with_detail("Failed to create VM", "HypervisorError { code: 1 }"),
        "Failed to create VM: HypervisorError { code: 1 }"
    );
}

#[test]
fn mismatch_messages_as_the_tests_print_them() {
    assert_eq!(
        mismatch_message("X0", "0x42", 0x43, Radix::Hex),
        "X0 mismatch: expected 0x42, got 0x43"
    );
    assert_eq!(
        mismatch_message("X0", "42", 41, Radix::Decimal),
        "X0 mismatch: expected 42, got 41"
    );
    assert_eq!(
        mismatch_message("Memory read", "0x12345678", 0, Radix::Hex),
        "Memory read mismatch: expected 0x12345678, got 0x0"
    );
}

#[test]
fn general_registers_by_number() {
    assert_eq!(general_register(0), Reg::X0);
    assert_eq!(general_register(5), Reg::X5);
    assert_eq!(general_register(17), Reg::X17);
    assert_eq!(general_register(28), Reg::X28);
    let all: Vec<Reg> = (0..=28).map(general_register).collect();
    for i in 0..all.len() {
        for j in 0..all.len() {
            assert_eq!(i == j, all[i] == all[j]);
        }
    }
}

#[test]
fn register_test_values_carry_the_number() {
    assert_eq!(register_test_value(0), 0xDEAD_BEEF_0000_0000);
    assert_eq!(register_test_value(28), 0xDEAD_BEEF_0000_001C);
    assert_eq!(register_test_value(11), 0xDEAD_BEEF_0000_0000 | 11);
    assert_ne!(register_test_value(3), register_test_value(4));
}

#[test]
fn register_labels() {
    assert_eq!(register_label(0), "X0");
    assert_eq!(register_label(17), "X17");
    assert_eq!(register_label(28), "X28");
}

#[test]
fn exit_info_message_of_the_readme_run() {
    let exit = VcpuExit {
        reason: ExitReason::EXCEPTION,
        exception: VcpuExitException {
            syndrome: 2181038087,
            virtual_address: 1024,
            physical_address: 1024,
        },
    };
    assert_eq!(
        exit_info_message(&exit),
        "Exit information retrieved: reason=EXCEPTION, exception=hv_vcpu_exit_exception_t { syndrome: 2181038087, virtual_address: 1024, physical_address: 1024 }"
    );
    let exit = VcpuExit {
        reason: ExitReason::VTIMER_ACTIVATED,
        exception: VcpuExitException { syndrome: 0, virtual_address: 0, physical_address: 0 },
    };
    assert_eq!(exit_info_message(&exit), format!(
        "Exit information retrieved: reason={:?}, exception={:?}", exit.reason, exit.exception));
}
