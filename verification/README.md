# hello_hv

A test suite for Apple's Hypervisor.framework on ARM64 (Apple Silicon),
driven through the `applevisor` crate and verified with Verus.

Thirteen tests create the process's virtual machine (and, all but the memory
test, a vCPU), map guest memory, write small AArch64 programs into it, run
them, and check the value they leave in X0; a report summarises the results.
Each test returns its result with the receipts of the hypervisor calls it
made, which its contract ties to the test's plan.

- `src/a64.rs`: the instruction words of the guest programs, a model of the
  AArch64 instructions they use, and proofs of what each program computes.
- `src/hv.rs`: the trusted calls into `applevisor`. The handles live in a
  session whose history records every call; each call returns a receipt.
- `src/checks.rs`: message texts and register numbering.
- `src/plan.rs`: a test as a plan of hypervisor calls, and the verdict of a
  plan on the answers the hypervisor gives.
- `src/plans.rs`: the thirteen plans, each with its exact calls, arguments and
  failure messages; for the program tests, a proof that the words written
  compute, from the preset registers, the value the test checks.
- `src/numfmt.rs`: decimal and `0x` hexadecimal rendering, proved to read back.
- `src/report.rs`: test results, their summary, the printed report and the
  exit status.
- `src/suite.rs`: the thirteen tests: each makes, through its session,
  exactly its plan's calls in order up to the first that fails it, and
  reports the plan's verdict.
- `app/main.rs`: runs the suite and prints the report (ARM64 only).

The binary needs the hypervisor entitlement (`codesign --entitlements`) to run.
