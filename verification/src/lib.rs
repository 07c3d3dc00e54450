//! A test suite for Apple's Hypervisor.framework on ARM64, driven through
//! `applevisor`: thirteen tests that create a virtual machine and a vCPU, map
//! guest memory, run small guest programs and check what they leave in the
//! registers, together with the report that summarises them.
//!
//! - `a64`: the guest programs' instruction words, a model of the AArch64
//!   instructions they use, and proofs of what each program computes;
//! - `hv`: the trusted boundary to `applevisor`: the session that holds the
//!   handles and the history of calls, and wrappers that return receipts;
//! - `checks`: the texts of the tests' messages, and register numbering;
//! - `numfmt`: decimal and `0x` hexadecimal rendering of values;
//! - `plan`: a test as a plan of hypervisor calls, and its verdict on the
//!   answers the hypervisor gives;
//! - `plans`: the thirteen plans, with proofs that each guest program
//!   computes the value its test checks;
//! - `report`: test results, their summary and the printed report;
//! - `suite`: the thirteen tests, each following its plan.
pub mod a64;
pub mod checks;
pub mod hv;
pub mod numfmt;
pub mod plan;
pub mod plans;
pub mod report;
pub mod suite;
