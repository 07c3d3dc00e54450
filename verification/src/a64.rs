//! The AArch64 instructions that the suite's guest programs use: their
//! encodings, a model of what they do, and the instruction words the suite
//! writes into guest memory.
//!
//! The model covers the 64-bit forms only: MOVZ; ADD, SUB, AND, ORR and EOR
//! with a shifted register (LSL); STR and LDR with an unsigned scaled
//! offset; and BRK. A word outside this subset decodes to `None`.
use vstd::prelude::*;

verus! {

/// `movz x0, #0x42`
pub const MOV_X0_0X42: u32 = 0xd280_0840;

/// `movz x0, #42`
pub const MOV_X0_42: u32 = 0xd280_0540;

/// `movz x1, #8`
pub const MOV_X1_8: u32 = 0xd280_0101;

/// `add x0, x0, x1`
pub const ADD_X0_X0_X1: u32 = 0x8b01_0000;

/// `sub x0, x0, x1`
pub const SUB_X0_X0_X1: u32 = 0xcb01_0000;

/// `and x0, x0, x1`
pub const AND_X0_X0_X1: u32 = 0x8a01_0000;

/// `orr x0, x0, x1`
pub const ORR_X0_X0_X1: u32 = 0xaa01_0000;

/// `eor x0, x0, x1`
pub const EOR_X0_X0_X1: u32 = 0xca01_0000;

/// `orr x0, xzr, x1, lsl #4`, that is `lsl x0, x1, #4`
pub const LSL_X0_X1_4: u32 = 0xaa01_13e0;

/// `str x2, [x1]`
pub const STR_X2_X1: u32 = 0xf900_0022;

/// `ldr x0, [x1]`
pub const LDR_X0_X1: u32 = 0xf940_0020;

/// `brk #0`
pub const BRK_0: u32 = 0xd420_0000;

/// The breakpoint that the exit-information test executes; its immediate is
/// `0x123`.
pub const BRK_EXIT_TEST: u32 = 0xd420_2460;

/// One decoded instruction. Register numbers run from 0 to 31; what 31 means
/// depends on the instruction (the zero register or the stack pointer).
pub enum Instr {
    /// `movz xd, #imm16, lsl #(16 * hw)`
    MovZ { rd: u32, imm16: u32, hw: u32 },
    /// `add xd, xn, xm, lsl #amount`
    AddReg { rd: u32, rn: u32, rm: u32, amount: u32 },
    /// `sub xd, xn, xm, lsl #amount`
    SubReg { rd: u32, rn: u32, rm: u32, amount: u32 },
    /// `and xd, xn, xm, lsl #amount`
    AndReg { rd: u32, rn: u32, rm: u32, amount: u32 },
    /// `orr xd, xn, xm, lsl #amount`
    OrrReg { rd: u32, rn: u32, rm: u32, amount: u32 },
    /// `eor xd, xn, xm, lsl #amount`
    EorReg { rd: u32, rn: u32, rm: u32, amount: u32 },
    /// `str xt, [xn|sp, #(imm12 * 8)]`
    StrImm { rt: u32, rn: u32, imm12: u32 },
    /// `ldr xt, [xn|sp, #(imm12 * 8)]`
    LdrImm { rt: u32, rn: u32, imm12: u32 },
    /// `brk #imm16`
    Brk { imm16: u32 },
}

/// The instruction that a word encodes, within the modelled subset.
pub open spec fn decode(w: u32) -> Option<Instr> {
    let rd = w & 0x1f;
    let rn = (w >> 5u32) & 0x1f;
    let rm = (w >> 16u32) & 0x1f;
    let amount = (w >> 10u32) & 0x3f;
    if w & 0xff80_0000 == 0xd280_0000 {
        Some(Instr::MovZ { rd, imm16: (w >> 5u32) & 0xffff, hw: (w >> 21u32) & 0x3 })
    } else if w & 0xffe0_0000 == 0x8b00_0000 {
        Some(Instr::AddReg { rd, rn, rm, amount })
    } else if w & 0xffe0_0000 == 0xcb00_0000 {
        Some(Instr::SubReg { rd, rn, rm, amount })
    } else if w & 0xffe0_0000 == 0x8a00_0000 {
        Some(Instr::AndReg { rd, rn, rm, amount })
    } else if w & 0xffe0_0000 == 0xaa00_0000 {
        Some(Instr::OrrReg { rd, rn, rm, amount })
    } else if w & 0xffe0_0000 == 0xca00_0000 {
        Some(Instr::EorReg { rd, rn, rm, amount })
    } else if w & 0xffc0_0000 == 0xf900_0000 {
        Some(Instr::StrImm { rt: rd, rn, imm12: (w >> 10u32) & 0xfff })
    } else if w & 0xffc0_0000 == 0xf940_0000 {
        Some(Instr::LdrImm { rt: rd, rn, imm12: (w >> 10u32) & 0xfff })
    } else if w & 0xffe0_001f == 0xd420_0000 {
        Some(Instr::Brk { imm16: (w >> 5u32) & 0xffff })
    } else {
        None
    }
}

/// The guest state that the modelled instructions read and write: the
/// general registers X0 to X30, the stack pointer, and memory by 8-byte
/// words at byte addresses.
pub struct Machine {
    pub x: Seq<u64>,
    pub sp: u64,
    pub mem: Map<int, u64>,
}

impl Machine {
    /// The machine has its 31 general registers.
    pub open spec fn wf(self) -> bool {
        self.x.len() == 31
    }

    /// Register `r`, where 31 reads as the zero register.
    pub open spec fn reg_or_zero(self, r: u32) -> u64 {
        if r >= 31 {
            0
        } else {
            self.x[r as int]
        }
    }

    /// Register `r` as an address base, where 31 is the stack pointer.
    pub open spec fn base_reg(self, r: u32) -> u64 {
        if r >= 31 {
            self.sp
        } else {
            self.x[r as int]
        }
    }

    /// The machine with register `r` set to `v`; writes to 31 are discarded.
    pub open spec fn with_reg(self, r: u32, v: u64) -> Machine {
        if r >= 31 {
            self
        } else {
            Machine { x: self.x.update(r as int, v), ..self }
        }
    }
}

/// Arithmetic modulo 2^64, as the 64-bit registers hold it.
pub open spec fn wrap64(v: int) -> u64 {
    (v % 0x1_0000_0000_0000_0000int) as u64
}

/// Register `rm` shifted left by `amount`, as the shifted-register forms
/// read their second operand.
pub open spec fn shifted(m: Machine, rm: u32, amount: u32) -> u64 {
    m.reg_or_zero(rm) << amount
}

/// The address that a load or store with an unsigned scaled offset touches.
pub open spec fn word_address(m: Machine, rn: u32, imm12: u32) -> int {
    wrap64(m.base_reg(rn) + imm12 * 8) as int
}

/// The state after one instruction. A breakpoint changes nothing: it stops
/// the guest.
pub open spec fn step(m: Machine, i: Instr) -> Machine {
    match i {
        Instr::MovZ { rd, imm16, hw } => m.with_reg(rd, (imm16 as u64) << (16 * hw) as u64),
        Instr::AddReg { rd, rn, rm, amount } => m.with_reg(
            rd,
            wrap64(m.reg_or_zero(rn) + shifted(m, rm, amount)),
        ),
        Instr::SubReg { rd, rn, rm, amount } => m.with_reg(
            rd,
            wrap64(m.reg_or_zero(rn) - shifted(m, rm, amount)),
        ),
        Instr::AndReg { rd, rn, rm, amount } => m.with_reg(
            rd,
            m.reg_or_zero(rn) & shifted(m, rm, amount),
        ),
        Instr::OrrReg { rd, rn, rm, amount } => m.with_reg(
            rd,
            m.reg_or_zero(rn) | shifted(m, rm, amount),
        ),
        Instr::EorReg { rd, rn, rm, amount } => m.with_reg(
            rd,
            m.reg_or_zero(rn) ^ shifted(m, rm, amount),
        ),
        Instr::StrImm { rt, rn, imm12 } => Machine {
            mem: m.mem.insert(word_address(m, rn, imm12), m.reg_or_zero(rt)),
            ..m
        },
        Instr::LdrImm { rt, rn, imm12 } => m.with_reg(rt, m.mem[word_address(m, rn, imm12)]),
        Instr::Brk { .. } => m,
    }
}

/// Why a guest program stopped.
pub enum Stop {
    /// It reached `brk #imm16`.
    Breakpoint(u32),
    /// It reached a word outside the modelled subset.
    Undefined,
    /// It ran past its last word.
    End,
}

/// Runs the words of a program laid out one after the other from the
/// program counter, until a breakpoint, an unmodelled word, or the end.
pub open spec fn run(m: Machine, words: Seq<u32>) -> (Machine, Stop)
    decreases words.len(),
{
    if words.len() == 0 {
        (m, Stop::End)
    } else {
        match decode(words[0]) {
            None => (m, Stop::Undefined),
            Some(Instr::Brk { imm16 }) => (m, Stop::Breakpoint(imm16)),
            Some(i) => run(step(m, i), words.drop_first()),
        }
    }
}

/// A program stops at `brk #0` with `value` in X0.
pub open spec fn stops_with_x0(m: Machine, words: Seq<u32>, value: u64) -> bool {
    let (f, stop) = run(m, words);
    &&& stop == Stop::Breakpoint(0)
    &&& f.x[0] == value
}

} // verus!

verus! {

/// Each instruction word that the suite writes encodes the instruction its
/// name gives. (The exit-information test's breakpoint carries the
/// immediate `0x123`.)
pub proof fn lemma_suite_words_decode()
    ensures
        decode(MOV_X0_0X42) == Some(Instr::MovZ { rd: 0, imm16: 0x42, hw: 0 }),
        decode(MOV_X0_42) == Some(Instr::MovZ { rd: 0, imm16: 42, hw: 0 }),
        decode(MOV_X1_8) == Some(Instr::MovZ { rd: 1, imm16: 8, hw: 0 }),
        decode(ADD_X0_X0_X1) == Some(Instr::AddReg { rd: 0, rn: 0, rm: 1, amount: 0 }),
        decode(SUB_X0_X0_X1) == Some(Instr::SubReg { rd: 0, rn: 0, rm: 1, amount: 0 }),
        decode(AND_X0_X0_X1) == Some(Instr::AndReg { rd: 0, rn: 0, rm: 1, amount: 0 }),
        decode(ORR_X0_X0_X1) == Some(Instr::OrrReg { rd: 0, rn: 0, rm: 1, amount: 0 }),
        decode(EOR_X0_X0_X1) == Some(Instr::EorReg { rd: 0, rn: 0, rm: 1, amount: 0 }),
        decode(LSL_X0_X1_4) == Some(Instr::OrrReg { rd: 0, rn: 31, rm: 1, amount: 4 }),
        decode(STR_X2_X1) == Some(Instr::StrImm { rt: 2, rn: 1, imm12: 0 }),
        decode(LDR_X0_X1) == Some(Instr::LdrImm { rt: 0, rn: 1, imm12: 0 }),
        decode(BRK_0) == Some(Instr::Brk { imm16: 0 }),
        decode(BRK_EXIT_TEST) == Some(Instr::Brk { imm16: 0x123 }),
{
    let w: u32 = MOV_X0_0X42;
    assert(w & 0xff80_0000 == 0xd280_0000 && w & 0x1f == 0 && (w >> 5u32) & 0xffff == 0x42
        && (w >> 21u32) & 0x3 == 0) by (bit_vector)
        requires
            w == 0xd280_0840u32,
    ;
    let w: u32 = MOV_X0_42;
    assert(w & 0xff80_0000 == 0xd280_0000 && w & 0x1f == 0 && (w >> 5u32) & 0xffff == 42
        && (w >> 21u32) & 0x3 == 0) by (bit_vector)
        requires
            w == 0xd280_0540u32,
    ;
    let w: u32 = MOV_X1_8;
    assert(w & 0xff80_0000 == 0xd280_0000 && w & 0x1f == 1 && (w >> 5u32) & 0xffff == 8
        && (w >> 21u32) & 0x3 == 0) by (bit_vector)
        requires
            w == 0xd280_0101u32,
    ;
    let w: u32 = ADD_X0_X0_X1;
    assert(w & 0xff80_0000 != 0xd280_0000 && w & 0xffe0_0000 == 0x8b00_0000 && w & 0x1f == 0
        && (w >> 5u32) & 0x1f == 0 && (w >> 16u32) & 0x1f == 1 && (w >> 10u32) & 0x3f == 0)
        by (bit_vector)
        requires
            w == 0x8b01_0000u32,
    ;
    let w: u32 = SUB_X0_X0_X1;
    assert(w & 0xff80_0000 != 0xd280_0000 && w & 0xffe0_0000 == 0xcb00_0000 && w & 0x1f == 0
        && (w >> 5u32) & 0x1f == 0 && (w >> 16u32) & 0x1f == 1 && (w >> 10u32) & 0x3f == 0)
        by (bit_vector)
        requires
            w == 0xcb01_0000u32,
    ;
    let w: u32 = AND_X0_X0_X1;
    assert(w & 0xff80_0000 != 0xd280_0000 && w & 0xffe0_0000 == 0x8a00_0000 && w & 0x1f == 0
        && (w >> 5u32) & 0x1f == 0 && (w >> 16u32) & 0x1f == 1 && (w >> 10u32) & 0x3f == 0)
        by (bit_vector)
        requires
            w == 0x8a01_0000u32,
    ;
    let w: u32 = ORR_X0_X0_X1;
    assert(w & 0xff80_0000 != 0xd280_0000 && w & 0xffe0_0000 == 0xaa00_0000 && w & 0x1f == 0
        && (w >> 5u32) & 0x1f == 0 && (w >> 16u32) & 0x1f == 1 && (w >> 10u32) & 0x3f == 0)
        by (bit_vector)
        requires
            w == 0xaa01_0000u32,
    ;
    let w: u32 = EOR_X0_X0_X1;
    assert(w & 0xff80_0000 != 0xd280_0000 && w & 0xffe0_0000 == 0xca00_0000 && w & 0x1f == 0
        && (w >> 5u32) & 0x1f == 0 && (w >> 16u32) & 0x1f == 1 && (w >> 10u32) & 0x3f == 0)
        by (bit_vector)
        requires
            w == 0xca01_0000u32,
    ;
    let w: u32 = LSL_X0_X1_4;
    assert(w & 0xff80_0000 != 0xd280_0000 && w & 0xffe0_0000 == 0xaa00_0000 && w & 0x1f == 0
        && (w >> 5u32) & 0x1f == 31 && (w >> 16u32) & 0x1f == 1 && (w >> 10u32) & 0x3f == 4)
        by (bit_vector)
        requires
            w == 0xaa01_13e0u32,
    ;
    let w: u32 = STR_X2_X1;
    assert(w & 0xff80_0000 != 0xd280_0000 && w & 0xffe0_0000 != 0x8b00_0000 && w & 0xffe0_0000
        != 0xcb00_0000 && w & 0xffe0_0000 != 0x8a00_0000 && w & 0xffe0_0000 != 0xaa00_0000 && w
        & 0xffe0_0000 != 0xca00_0000 && w & 0xffc0_0000 == 0xf900_0000 && w & 0x1f == 2 && (w
        >> 5u32) & 0x1f == 1 && (w >> 10u32) & 0xfff == 0) by (bit_vector)
        requires
            w == 0xf900_0022u32,
    ;
    let w: u32 = LDR_X0_X1;
    assert(w & 0xff80_0000 != 0xd280_0000 && w & 0xffe0_0000 != 0x8b00_0000 && w & 0xffe0_0000
        != 0xcb00_0000 && w & 0xffe0_0000 != 0x8a00_0000 && w & 0xffe0_0000 != 0xaa00_0000 && w
        & 0xffe0_0000 != 0xca00_0000 && w & 0xffc0_0000 != 0xf900_0000 && w & 0xffc0_0000
        == 0xf940_0000 && w & 0x1f == 0 && (w >> 5u32) & 0x1f == 1 && (w >> 10u32) & 0xfff == 0)
        by (bit_vector)
        requires
            w == 0xf940_0020u32,
    ;
    let w: u32 = BRK_0;
    assert(w & 0xff80_0000 != 0xd280_0000 && w & 0xffe0_0000 != 0x8b00_0000 && w & 0xffe0_0000
        != 0xcb00_0000 && w & 0xffe0_0000 != 0x8a00_0000 && w & 0xffe0_0000 != 0xaa00_0000 && w
        & 0xffe0_0000 != 0xca00_0000 && w & 0xffc0_0000 != 0xf900_0000 && w & 0xffc0_0000
        != 0xf940_0000 && w & 0xffe0_001f == 0xd420_0000 && (w >> 5u32) & 0xffff == 0)
        by (bit_vector)
        requires
            w == 0xd420_0000u32,
    ;
    let w: u32 = BRK_EXIT_TEST;
    assert(w & 0xff80_0000 != 0xd280_0000 && w & 0xffe0_0000 != 0x8b00_0000 && w & 0xffe0_0000
        != 0xcb00_0000 && w & 0xffe0_0000 != 0x8a00_0000 && w & 0xffe0_0000 != 0xaa00_0000 && w
        & 0xffe0_0000 != 0xca00_0000 && w & 0xffc0_0000 != 0xf900_0000 && w & 0xffc0_0000
        != 0xf940_0000 && w & 0xffe0_001f == 0xd420_0000 && (w >> 5u32) & 0xffff == 0x123)
        by (bit_vector)
        requires
            w == 0xd420_2460u32,
    ;
}

proof fn lemma_shift_by_zero(v: u64)
    ensures
        v << 0u32 == v,
        v << 0u64 == v,
{
    assert(v << 0u32 == v && v << 0u64 == v) by (bit_vector);
}

proof fn lemma_movz_value(imm16: u32)
    ensures
        step_movz_value(imm16, 0) == imm16 as u64,
{
    lemma_shift_by_zero(imm16 as u64);
}

/// The value that `movz` puts in its register.
pub open spec fn step_movz_value(imm16: u32, hw: u32) -> u64 {
    (imm16 as u64) << (16 * hw) as u64
}

/// One instruction, then the rest of the program.
proof fn lemma_run_step(m: Machine, words: Seq<u32>, i: Instr)
    requires
        words.len() > 0,
        decode(words[0]) == Some(i),
        !(i is Brk),
    ensures
        run(m, words) == run(step(m, i), words.drop_first()),
{
}

/// `movz x0, #0x42; brk #0` stops at its breakpoint with 0x42 in X0, whatever
/// the registers held before.
pub proof fn lemma_mov_immediate_program(m: Machine)
    requires
        m.wf(),
    ensures
        stops_with_x0(m, seq![MOV_X0_0X42, BRK_0], 0x42),
{
    lemma_suite_words_decode();
    let w = seq![MOV_X0_0X42, BRK_0];
    let i = Instr::MovZ { rd: 0, imm16: 0x42, hw: 0 };
    lemma_run_step(m, w, i);
    lemma_movz_value(0x42);
    assert(w.drop_first() =~= seq![BRK_0]);
}

/// A program of one register-register instruction then `brk #0`.
proof fn lemma_binary_program(m: Machine, word: u32, i: Instr)
    requires
        m.wf(),
        decode(word) == Some(i),
        !(i is Brk),
    ensures
        run(m, seq![word, BRK_0]) == (step(m, i), Stop::Breakpoint(0)),
{
    lemma_suite_words_decode();
    let w = seq![word, BRK_0];
    lemma_run_step(m, w, i);
    assert(w.drop_first() =~= seq![BRK_0]);
}

/// `add x0, x0, x1; brk #0` from X0 = 10 and X1 = 32 stops with 42 in X0.
pub proof fn lemma_add_program(m: Machine)
    requires
        m.wf(),
        m.x[0] == 10,
        m.x[1] == 32,
    ensures
        stops_with_x0(m, seq![ADD_X0_X0_X1, BRK_0], 42),
{
    lemma_suite_words_decode();
    lemma_binary_program(m, ADD_X0_X0_X1, Instr::AddReg { rd: 0, rn: 0, rm: 1, amount: 0 });
    lemma_shift_by_zero(32);
}

/// `sub x0, x0, x1; brk #0` from X0 = 100 and X1 = 58 stops with 42 in X0.
pub proof fn lemma_sub_program(m: Machine)
    requires
        m.wf(),
        m.x[0] == 100,
        m.x[1] == 58,
    ensures
        stops_with_x0(m, seq![SUB_X0_X0_X1, BRK_0], 42),
{
    lemma_suite_words_decode();
    lemma_binary_program(m, SUB_X0_X0_X1, Instr::SubReg { rd: 0, rn: 0, rm: 1, amount: 0 });
    lemma_shift_by_zero(58);
}

/// `and x0, x0, x1; brk #0` from X0 = 0xFF and X1 = 0x0F stops with 0x0F in X0.
pub proof fn lemma_and_program(m: Machine)
    requires
        m.wf(),
        m.x[0] == 0xff,
        m.x[1] == 0x0f,
    ensures
        stops_with_x0(m, seq![AND_X0_X0_X1, BRK_0], 0x0f),
{
    lemma_suite_words_decode();
    lemma_binary_program(m, AND_X0_X0_X1, Instr::AndReg { rd: 0, rn: 0, rm: 1, amount: 0 });
    lemma_shift_by_zero(0x0f);
    assert(0xffu64 & 0x0fu64 == 0x0f) by (bit_vector);
}

/// `orr x0, x0, x1; brk #0` from X0 = 0xF0 and X1 = 0x0F stops with 0xFF in X0.
pub proof fn lemma_orr_program(m: Machine)
    requires
        m.wf(),
        m.x[0] == 0xf0,
        m.x[1] == 0x0f,
    ensures
        stops_with_x0(m, seq![ORR_X0_X0_X1, BRK_0], 0xff),
{
    lemma_suite_words_decode();
    lemma_binary_program(m, ORR_X0_X0_X1, Instr::OrrReg { rd: 0, rn: 0, rm: 1, amount: 0 });
    lemma_shift_by_zero(0x0f);
    assert(0xf0u64 | 0x0fu64 == 0xff) by (bit_vector);
}

/// `eor x0, x0, x1; brk #0` from X0 = 0xFF and X1 = 0x0F stops with 0xF0 in X0.
pub proof fn lemma_eor_program(m: Machine)
    requires
        m.wf(),
        m.x[0] == 0xff,
        m.x[1] == 0x0f,
    ensures
        stops_with_x0(m, seq![EOR_X0_X0_X1, BRK_0], 0xf0),
{
    lemma_suite_words_decode();
    lemma_binary_program(m, EOR_X0_X0_X1, Instr::EorReg { rd: 0, rn: 0, rm: 1, amount: 0 });
    lemma_shift_by_zero(0x0f);
    assert(0xffu64 ^ 0x0fu64 == 0xf0) by (bit_vector);
}

/// `lsl x0, x1, #4; brk #0` from X1 = 1 stops with 16 in X0.
pub proof fn lemma_mov_shift_program(m: Machine)
    requires
        m.wf(),
        m.x[1] == 1,
    ensures
        stops_with_x0(m, seq![LSL_X0_X1_4, BRK_0], 16),
{
    lemma_suite_words_decode();
    lemma_binary_program(m, LSL_X0_X1_4, Instr::OrrReg { rd: 0, rn: 31, rm: 1, amount: 4 });
    assert(0u64 | (1u64 << 4u32) == 16) by (bit_vector);
}

/// `str x2, [x1]; ldr x0, [x1]; brk #0` from X1 = 0x4100 and X2 = 0xDEADBEEF
/// stops with 0xDEADBEEF in X0: the load reads back what the store wrote.
pub proof fn lemma_load_store_program(m: Machine)
    requires
        m.wf(),
        m.x[1] == 0x4100,
        m.x[2] == 0xdead_beef,
    ensures
        stops_with_x0(m, seq![STR_X2_X1, LDR_X0_X1, BRK_0], 0xdead_beef),
{
    lemma_suite_words_decode();
    let w = seq![STR_X2_X1, LDR_X0_X1, BRK_0];
    let st = Instr::StrImm { rt: 2, rn: 1, imm12: 0 };
    let ld = Instr::LdrImm { rt: 0, rn: 1, imm12: 0 };
    lemma_run_step(m, w, st);
    let m1 = step(m, st);
    assert(w.drop_first() =~= seq![LDR_X0_X1, BRK_0]);
    lemma_binary_program(m1, LDR_X0_X1, ld);
    assert(word_address(m, 1, 0) == 0x4100);
    assert(word_address(m1, 1, 0) == 0x4100);
}

/// `movz x0, #42; movz x1, #8; add x0, x0, x1; brk #0` stops with 50 in X0,
/// whatever the registers held before.
pub proof fn lemma_instruction_sequence_program(m: Machine)
    requires
        m.wf(),
    ensures
        stops_with_x0(m, seq![MOV_X0_42, MOV_X1_8, ADD_X0_X0_X1, BRK_0], 50),
{
    lemma_suite_words_decode();
    let w = seq![MOV_X0_42, MOV_X1_8, ADD_X0_X0_X1, BRK_0];
    let i0 = Instr::MovZ { rd: 0, imm16: 42, hw: 0 };
    let i1 = Instr::MovZ { rd: 1, imm16: 8, hw: 0 };
    lemma_run_step(m, w, i0);
    lemma_movz_value(42);
    let m1 = step(m, i0);
    let w1 = w.drop_first();
    assert(w1 =~= seq![MOV_X1_8, ADD_X0_X0_X1, BRK_0]);
    lemma_run_step(m1, w1, i1);
    lemma_movz_value(8);
    let m2 = step(m1, i1);
    assert(w1.drop_first() =~= seq![ADD_X0_X0_X1, BRK_0]);
    assert(m2.x[0] == 42 && m2.x[1] == 8);
    lemma_binary_program(m2, ADD_X0_X0_X1, Instr::AddReg { rd: 0, rn: 0, rm: 1, amount: 0 });
    lemma_shift_by_zero(8);
}

/// The exit-information test's program stops at once, at a breakpoint whose
/// immediate is 0x123, leaving the registers as they were.
pub proof fn lemma_exit_program(m: Machine)
    ensures
        run(m, seq![BRK_EXIT_TEST]) == (m, Stop::Breakpoint(0x123)),
{
    lemma_suite_words_decode();
}

} // verus!
