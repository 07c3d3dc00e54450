use hello_hv::report::{exit_status, render_report, status_label, summarize, TestResult};

fn readme_results() -> Vec<TestResult> {
    let rows: [(&'static str, &str); 13] = [
        ("VM/VCPU Creation", "VM and VCPU created successfully with debug features enabled"),
        ("Register Operations", "All general purpose registers and PC read/write verified"),
        ("Memory Mapping", "Memory mapping with RWX/RW permissions verified"),
        ("MOV Immediate", "MOV X0, #0x42 executed correctly, X0 = 0x42"),
        ("ADD Instruction", "ADD X0, X0, X1 executed correctly, X0 = 42"),
        ("SUB Instruction", "SUB X0, X0, X1 executed correctly, X0 = 42"),
        ("Load/Store", "STR/LDR executed correctly, X0 = 0xDEADBEEF"),
        ("AND Instruction", "AND X0, X0, X1 executed correctly, X0 = 0x0F"),
        ("ORR Instruction", "ORR X0, X0, X1 executed correctly, X0 = 0xFF"),
        ("EOR Instruction", "EOR X0, X0, X1 executed correctly, X0 = 0xF0"),
        ("MOV Shift", "LSL X0, X1, #4 executed correctly, X0 = 16"),
        ("Instruction Sequence", "Multi-instruction ADD sequence executed correctly, X0 = 50"),
        (
            "Exit Info",
            "Exit information retrieved: reason=EXCEPTION, exception=hv_vcpu_exit_exception_t { syndrome: 2181038087, virtual_address: 1024, physical_address: 1024 }",
        ),
    ];
    rows.iter().map(|(n, m)| TestResult::pass(n, m)).collect()
}

#[test]
fn pass_and_fail_keep_name_and_message() {
    let p = TestResult::pass("ADD Instruction", "ok");
    assert_eq!(p.name, "ADD Instruction");
    assert!(p.passed);
    assert_eq!(p.message, "ok");
    let f = TestResult::fail("SUB Instruction", "Failed to execute");
    assert_eq!(f.name, "SUB Instruction");
    assert!(!f.passed);
    assert_eq!(f.message, "Failed to execute");
}

#[test]
fn status_labels() {
    assert_eq!(status_label(true), "✓ PASS");
    assert_eq!(status_label(false), "✗ FAIL");
}

#[test]
fn readme_report_is_rendered_exactly() {
    let results = readme_results();
    let expected = "========================================
Apple Hypervisor Framework ARM64 Tests
========================================

[✓ PASS] VM/VCPU Creation
       VM and VCPU created successfully with debug features enabled

[✓ PASS] Register Operations
       All general purpose registers and PC read/write verified

[✓ PASS] Memory Mapping
       Memory mapping with RWX/RW permissions verified

[✓ PASS] MOV Immediate
       MOV X0, #0x42 executed correctly, X0 = 0x42

[✓ PASS] ADD Instruction
       ADD X0, X0, X1 executed correctly, X0 = 42

[✓ PASS] SUB Instruction
       SUB X0, X0, X1 executed correctly, X0 = 42

[✓ PASS] Load/Store
       STR/LDR executed correctly, X0 = 0xDEADBEEF

[✓ PASS] AND Instruction
       AND X0, X0, X1 executed correctly, X0 = 0x0F

[✓ PASS] ORR Instruction
       ORR X0, X0, X1 executed correctly, X0 = 0xFF

[✓ PASS] EOR Instruction
       EOR X0, X0, X1 executed correctly, X0 = 0xF0

[✓ PASS] MOV Shift
       LSL X0, X1, #4 executed correctly, X0 = 16

[✓ PASS] Instruction Sequence
       Multi-instruction ADD sequence executed correctly, X0 = 50

[✓ PASS] Exit Info
       Exit information retrieved: reason=EXCEPTION, exception=hv_vcpu_exit_exception_t { syndrome: 2181038087, virtual_address: 1024, physical_address: 1024 }

========================================
Results: 13 passed, 0 failed, 13 total
========================================
";
    assert_eq!(render_report(&results), expected);
}

#[test]
fn summary_counts_and_exit_status_of_a_clean_run() {
    let results = readme_results();
    let s = summarize(&results);
    assert_eq!((s.passed, s.failed, s.total), (13, 0, 13));
    assert_eq!(exit_status(&s), 0);
}

#[test]
fn a_failure_is_counted_shown_and_sets_the_exit_status() {
    let results = vec![
        TestResult::pass("VM/VCPU Creation", "fine"),
        TestResult::fail("ADD Instruction", "X0 mismatch: expected 42, got 41"),
        TestResult::fail("SUB Instruction", "Failed to execute"),
    ];
    let s = summarize(&results);
    assert_eq!((s.passed, s.failed, s.total), (1, 2, 3));
    assert_eq!(s.passed + s.failed, s.total);
    assert_eq!(exit_status(&s), 1);
    let text = render_report(&results);
    assert!(text.contains("[✗ FAIL] ADD Instruction\n       X0 mismatch: expected 42, got 41\n\n"));
    assert!(text.ends_with(
        "========================================\nResults: 1 passed, 2 failed, 3 total\n========================================\n"
    ));
}

#[test]
fn empty_run_reports_zero_totals() {
    let results: Vec<TestResult> = Vec::new();
    let s = summarize(&results);
    assert_eq!((s.passed, s.failed, s.total), (0, 0, 0));
    assert_eq!(exit_status(&s), 0);
    assert_eq!(
        render_report(&results),
        "========================================\nApple Hypervisor Framework ARM64 Tests\n========================================\n\n========================================\nResults: 0 passed, 0 failed, 0 total\n========================================\n"
    );
}
