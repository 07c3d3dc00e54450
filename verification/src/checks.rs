//! The texts of the suite's messages (failures, mismatches, exit records) and
//! the numbering of the registers the register test covers.
use vstd::prelude::*;

use applevisor::{ExitReason, Reg, VcpuExit, VcpuExitException};

use crate::numfmt::{digits, render_value, rendered, Radix};

verus! {

/// `context: detail`, as a failure that carries the hypervisor's own words.
pub open spec fn detail_text(context: Seq<char>, detail: Seq<char>) -> Seq<char> {
    context + ": "@ + detail
}

/// `label mismatch: expected <expected>, got <got>`.
pub open spec fn mismatch_text(label: Seq<char>, expected: Seq<char>, got: u64, radix: Radix) -> Seq<
    char,
> {
    label + " mismatch: expected "@ + expected + ", got "@ + rendered(got as nat, radix)
}

/// A failure message that ends with the text of the error that caused it.
pub fn with_detail(context: &str, detail: &str) -> (s: String)
    ensures
        s@ == detail_text(context@, detail@),
{
    let mut s = String::from_str(context);
    s.append(": ");
    s.append(detail);
    s
}

/// The message of a read that gave another value than the one expected.
pub fn mismatch_message(label: &str, expected: &str, got: u64, radix: Radix) -> (s: String)
    ensures
        s@ == mismatch_text(label@, expected@, got, radix),
{
    let mut s = String::from_str(label);
    s.append(" mismatch: expected ");
    s.append(expected);
    s.append(", got ");
    s.append(render_value(got, radix).as_str());
    s
}

/// The number of a general register X0 to X30, or -1 for any other register.
pub open spec fn register_number(r: Reg) -> int {
    match r {
        Reg::X0 => 0,
        Reg::X1 => 1,
        Reg::X2 => 2,
        Reg::X3 => 3,
        Reg::X4 => 4,
        Reg::X5 => 5,
        Reg::X6 => 6,
        Reg::X7 => 7,
        Reg::X8 => 8,
        Reg::X9 => 9,
        Reg::X10 => 10,
        Reg::X11 => 11,
        Reg::X12 => 12,
        Reg::X13 => 13,
        Reg::X14 => 14,
        Reg::X15 => 15,
        Reg::X16 => 16,
        Reg::X17 => 17,
        Reg::X18 => 18,
        Reg::X19 => 19,
        Reg::X20 => 20,
        Reg::X21 => 21,
        Reg::X22 => 22,
        Reg::X23 => 23,
        Reg::X24 => 24,
        Reg::X25 => 25,
        Reg::X26 => 26,
        Reg::X27 => 27,
        Reg::X28 => 28,
        Reg::X29 => 29,
        Reg::X30 => 30,
        _ => -1,
    }
}

/// General register X`i` among X0 to X28 (X28 for any larger `i`).
pub open spec fn gp_reg(i: nat) -> Reg {
    if i == 0 {
        Reg::X0
    } else if i == 1 {
        Reg::X1
    } else if i == 2 {
        Reg::X2
    } else if i == 3 {
        Reg::X3
    } else if i == 4 {
        Reg::X4
    } else if i == 5 {
        Reg::X5
    } else if i == 6 {
        Reg::X6
    } else if i == 7 {
        Reg::X7
    } else if i == 8 {
        Reg::X8
    } else if i == 9 {
        Reg::X9
    } else if i == 10 {
        Reg::X10
    } else if i == 11 {
        Reg::X11
    } else if i == 12 {
        Reg::X12
    } else if i == 13 {
        Reg::X13
    } else if i == 14 {
        Reg::X14
    } else if i == 15 {
        Reg::X15
    } else if i == 16 {
        Reg::X16
    } else if i == 17 {
        Reg::X17
    } else if i == 18 {
        Reg::X18
    } else if i == 19 {
        Reg::X19
    } else if i == 20 {
        Reg::X20
    } else if i == 21 {
        Reg::X21
    } else if i == 22 {
        Reg::X22
    } else if i == 23 {
        Reg::X23
    } else if i == 24 {
        Reg::X24
    } else if i == 25 {
        Reg::X25
    } else if i == 26 {
        Reg::X26
    } else if i == 27 {
        Reg::X27
    } else {
        Reg::X28
    }
}

/// General register X`i`, for the registers X0 to X28 that the register test
/// covers.
pub fn general_register(i: u8) -> (r: Reg)
    requires
        i <= 28,
    ensures
        r == gp_reg(i as nat),
        register_number(r) == i,
{
    match i {
        0 => Reg::X0,
        1 => Reg::X1,
        2 => Reg::X2,
        3 => Reg::X3,
        4 => Reg::X4,
        5 => Reg::X5,
        6 => Reg::X6,
        7 => Reg::X7,
        8 => Reg::X8,
        9 => Reg::X9,
        10 => Reg::X10,
        11 => Reg::X11,
        12 => Reg::X12,
        13 => Reg::X13,
        14 => Reg::X14,
        15 => Reg::X15,
        16 => Reg::X16,
        17 => Reg::X17,
        18 => Reg::X18,
        19 => Reg::X19,
        20 => Reg::X20,
        21 => Reg::X21,
        22 => Reg::X22,
        23 => Reg::X23,
        24 => Reg::X24,
        25 => Reg::X25,
        26 => Reg::X26,
        27 => Reg::X27,
        _ => Reg::X28,
    }
}

/// Distinct indices give distinct registers.
pub proof fn lemma_general_register_distinct(i: u8, j: u8, ri: Reg, rj: Reg)
    requires
        register_number(ri) == i,
        register_number(rj) == j,
        i != j,
    ensures
        ri != rj,
{
}

/// The value that the register test writes to X`i`: `0xDEAD_BEEF` in the
/// high half and the register's number in the low bits.
pub open spec fn register_test_value_spec(i: nat) -> nat {
    0xDEAD_BEEF_0000_0000 + i
}

/// The value that the register test writes to X`i`, computed as
/// `0xDEAD_BEEF_0000_0000 | i`.
pub fn register_test_value(i: u8) -> (v: u64)
    ensures
        v == register_test_value_spec(i as nat),
        v == 0xDEAD_BEEF_0000_0000u64 | (i as u64),
{
    let v: u64 = 0xDEAD_BEEF_0000_0000u64 | (i as u64);
    let w: u64 = i as u64;
    assert(0xDEAD_BEEF_0000_0000u64 | w == 0xDEAD_BEEF_0000_0000u64 + w) by (bit_vector)
        requires
            w < 256,
    ;
    v
}

/// Each register gets its own test value, so a read that returned another
/// register's value would be caught.
pub proof fn lemma_register_test_values_distinct(i: nat, j: nat)
    requires
        i != j,
    ensures
        register_test_value_spec(i) != register_test_value_spec(j),
{
}

/// The name `X<i>` of general register `i`.
pub open spec fn register_name(i: nat) -> Seq<char> {
    "X"@ + digits(i, 10)
}

/// The name `X<i>` of a general register.
pub fn register_label(i: u8) -> (s: String)
    ensures
        s@ == register_name(i as nat),
{
    let mut s = String::from_str("X");
    s.append(render_value(i as u64, Radix::Decimal).as_str());
    s
}

/// The `Debug` text of an exit reason: the variant's name.
pub open spec fn exit_reason_text(r: ExitReason) -> Seq<char> {
    match r {
        ExitReason::CANCELED => "CANCELED"@,
        ExitReason::EXCEPTION => "EXCEPTION"@,
        ExitReason::VTIMER_ACTIVATED => "VTIMER_ACTIVATED"@,
        ExitReason::UNKNOWN => "UNKNOWN"@,
    }
}

/// The `Debug` text of the exception details of an exit: the structure's
/// name and its three fields in decimal.
pub open spec fn exit_exception_text(e: VcpuExitException) -> Seq<char> {
    "hv_vcpu_exit_exception_t { syndrome: "@ + digits(e.syndrome as nat, 10)
        + ", virtual_address: "@ + digits(e.virtual_address as nat, 10) + ", physical_address: "@
        + digits(e.physical_address as nat, 10) + " }"@
}

/// The message with which the exit-information test passes.
pub open spec fn exit_info_text(exit: VcpuExit) -> Seq<char> {
    "Exit information retrieved: reason="@ + exit_reason_text(exit.reason) + ", exception="@
        + exit_exception_text(exit.exception)
}

fn exit_reason_str(r: &ExitReason) -> (s: &'static str)
    ensures
        s@ == exit_reason_text(*r),
{
    match r {
        ExitReason::CANCELED => "CANCELED",
        ExitReason::EXCEPTION => "EXCEPTION",
        ExitReason::VTIMER_ACTIVATED => "VTIMER_ACTIVATED",
        ExitReason::UNKNOWN => "UNKNOWN",
    }
}

/// Describes a vCPU exit: its reason and its exception details.
pub fn exit_info_message(exit: &VcpuExit) -> (s: String)
    ensures
        s@ == exit_info_text(*exit),
{
    let mut s = String::from_str("Exit information retrieved: reason=");
    s.append(exit_reason_str(&exit.reason));
    s.append(", exception=");
    s.append("hv_vcpu_exit_exception_t { syndrome: ");
    s.append(render_value(exit.exception.syndrome, Radix::Decimal).as_str());
    s.append(", virtual_address: ");
    s.append(render_value(exit.exception.virtual_address, Radix::Decimal).as_str());
    s.append(", physical_address: ");
    s.append(render_value(exit.exception.physical_address, Radix::Decimal).as_str());
    s.append(" }");
    assert(s@ =~= exit_info_text(*exit));
    s
}

} // verus!
