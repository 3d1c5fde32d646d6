//! The RV32I instruction records and their semantics.

pub mod decode;

pub use self::decode::decode;

use vstd::prelude::*;
use crate::machine::state::{self, State, StateView};
use crate::machine::word::{
    add32, byte_of, extract_byte, extract_half, low_half, right_shift_arithmetic, sign_extend,
    sign_extend_spec, signed_ge, signed_lt, signed_lt_spec, sra_spec, sub32, wrapping_add32,
    wrapping_sub32,
};

verus! {

/// One decoded RV32I instruction.
///
/// Register operands are indices into `x0..x31`.  Immediates are kept as
/// the decoder assembled them, not yet sign-extended: 12 significant bits
/// for the I and S formats, 13 for branches, 21 for `JAL`, and the full
/// upper-immediate word for `LUI` and `AUIPC`.
#[allow(inconsistent_fields)]
#[derive(Debug, Clone, Copy, PartialEq, Eq)]
pub enum Inst {
    /// Load upper immediate: `rd <- imm`.
    LUI { rd: u8, imm: u32 },
    /// Add upper immediate to pc: `rd <- pc + imm`.
    AUIPC { rd: u8, imm: u32 },
    /// Jump and link: `rd <- pc + 4`, continue at `pc + sext(imm)`.
    JAL { rd: u8, imm: u32 },
    /// Jump and link register: continue at `(rs1 + sext(imm)) & !1`.
    JALR { rd: u8, rs1: u8, imm: u16 },
    /// Branch if equal.
    BEQ { rs1: u8, rs2: u8, imm: u16 },
    /// Branch if not equal.
    BNE { rs1: u8, rs2: u8, imm: u16 },
    /// Branch if less than, signed.
    BLT { rs1: u8, rs2: u8, imm: u16 },
    /// Branch if less than, unsigned.
    BLTU { rs1: u8, rs2: u8, imm: u16 },
    /// Branch if greater or equal, signed.
    BGE { rs1: u8, rs2: u8, imm: u16 },
    /// Branch if greater or equal, unsigned.
    BGEU { rs1: u8, rs2: u8, imm: u16 },
    /// Load byte, sign-extended.
    LB { rs1: u8, rd: u8, imm: u16 },
    /// Load halfword, sign-extended.
    LH { rs1: u8, rd: u8, imm: u16 },
    /// Load word.
    LW { rd: u8, rs1: u8, imm: u16 },
    /// Load byte, zero-extended.
    LBU { rd: u8, rs1: u8, imm: u16 },
    /// Load halfword, zero-extended.
    LHU { rd: u8, rs1: u8, imm: u16 },
    /// Store the low byte of `rs2`.
    SB { rs1: u8, rs2: u8, imm: u16 },
    /// Store the low halfword of `rs2`.
    SH { rs1: u8, rs2: u8, imm: u16 },
    /// Store the word in `rs2`.
    SW { rs1: u8, rs2: u8, imm: u16 },
    /// Add immediate.
    ADDI { rd: u8, rs1: u8, imm: u16 },
    /// Set if less than immediate, signed.
    SLTI { rd: u8, rs1: u8, imm: u16 },
    /// Set if less than immediate, unsigned.
    SLTIU { rd: u8, rs1: u8, imm: u16 },
    /// Exclusive or with immediate.
    XORI { rd: u8, rs1: u8, imm: u16 },
    /// Or with immediate.
    ORI { rd: u8, rs1: u8, imm: u16 },
    /// And with immediate.
    ANDI { rd: u8, rs1: u8, imm: u16 },
    /// Shift left logical by `shamt`.
    SLLI { rd: u8, rs1: u8, shamt: u8 },
    /// Shift right logical by `shamt`.
    SRLI { rd: u8, rs1: u8, shamt: u8 },
    /// Shift right arithmetic by `shamt`.
    SRAI { rd: u8, rs1: u8, shamt: u8 },
    /// Add.
    ADD { rd: u8, rs1: u8, rs2: u8 },
    /// Subtract.
    SUB { rd: u8, rs1: u8, rs2: u8 },
    /// Shift left logical by the low five bits of `rs2`.
    SLL { rd: u8, rs1: u8, rs2: u8 },
    /// Shift right logical by the low five bits of `rs2`.
    SRL { rd: u8, rs1: u8, rs2: u8 },
    /// Shift right arithmetic by the low five bits of `rs2`.
    SRA { rd: u8, rs1: u8, rs2: u8 },
    /// Set if less than, signed.
    SLT { rd: u8, rs1: u8, rs2: u8 },
    /// Set if less than, unsigned.
    SLTU { rd: u8, rs1: u8, rs2: u8 },
    /// Exclusive or.
    XOR { rd: u8, rs1: u8, rs2: u8 },
    /// Or.
    OR { rd: u8, rs1: u8, rs2: u8 },
    /// And.
    AND { rd: u8, rs1: u8, rs2: u8 },
    /// Environment call: hands control to the runtime.
    ECALL,
    /// An instruction that is acknowledged and has no effect: `FENCE`,
    /// `FENCE.I` and the CSR instructions.
    IGNORE,
}

impl Inst {
    /// Whether every operand fits the field that the encoding has for it:
    /// register indices below 32, shift amounts below 32, and immediates
    /// within the width and alignment of their format.
    pub open spec fn well_formed(self) -> bool {
        match self {
            Inst::LUI { rd, imm } | Inst::AUIPC { rd, imm } => rd < 32 && imm % 0x1000 == 0,
            Inst::JAL { rd, imm } => rd < 32 && imm < 0x20_0000 && imm % 2 == 0,
            Inst::JALR { rd, rs1, imm }
            | Inst::LB { rd, rs1, imm }
            | Inst::LH { rd, rs1, imm }
            | Inst::LW { rd, rs1, imm }
            | Inst::LBU { rd, rs1, imm }
            | Inst::LHU { rd, rs1, imm }
            | Inst::ADDI { rd, rs1, imm }
            | Inst::SLTI { rd, rs1, imm }
            | Inst::SLTIU { rd, rs1, imm }
            | Inst::XORI { rd, rs1, imm }
            | Inst::ORI { rd, rs1, imm }
            | Inst::ANDI { rd, rs1, imm } => rd < 32 && rs1 < 32 && imm < 0x1000,
            Inst::BEQ { rs1, rs2, imm }
            | Inst::BNE { rs1, rs2, imm }
            | Inst::BLT { rs1, rs2, imm }
            | Inst::BLTU { rs1, rs2, imm }
            | Inst::BGE { rs1, rs2, imm }
            | Inst::BGEU { rs1, rs2, imm } => {
                rs1 < 32 && rs2 < 32 && imm < 0x2000 && imm % 2 == 0
            },
            Inst::SB { rs1, rs2, imm }
            | Inst::SH { rs1, rs2, imm }
            | Inst::SW { rs1, rs2, imm } => rs1 < 32 && rs2 < 32 && imm < 0x1000,
            Inst::SLLI { rd, rs1, shamt }
            | Inst::SRLI { rd, rs1, shamt }
            | Inst::SRAI { rd, rs1, shamt } => rd < 32 && rs1 < 32 && shamt < 32,
            Inst::ADD { rd, rs1, rs2 }
            | Inst::SUB { rd, rs1, rs2 }
            | Inst::SLL { rd, rs1, rs2 }
            | Inst::SRL { rd, rs1, rs2 }
            | Inst::SRA { rd, rs1, rs2 }
            | Inst::SLT { rd, rs1, rs2 }
            | Inst::SLTU { rd, rs1, rs2 }
            | Inst::XOR { rd, rs1, rs2 }
            | Inst::OR { rd, rs1, rs2 }
            | Inst::AND { rd, rs1, rs2 } => rd < 32 && rs1 < 32 && rs2 < 32,
            Inst::ECALL | Inst::IGNORE => true,
        }
    }
}

/// Why an instruction did not retire.
#[derive(Debug, Clone, Copy, PartialEq, Eq)]
pub enum InstError {
    /// A register or memory access of the instruction faulted.
    State(state::Error),
    /// The instruction was an `ECALL`: execution is to be suspended.
    Suspend,
}

impl From<state::Error> for InstError {
    fn from(e: state::Error) -> (r: InstError) {
        InstError::State(e)
    }
}

impl vstd::std_specs::convert::FromSpecImpl<state::Error> for InstError {
    open spec fn obeys_from_spec() -> bool {
        true
    }

    open spec fn from_spec(e: state::Error) -> InstError {
        InstError::State(e)
    }
}

/// The comparison that a conditional branch makes between two registers.
#[derive(Debug, Clone, Copy, PartialEq, Eq)]
pub enum Condition {
    /// Equal.
    Eq,
    /// Not equal.
    Ne,
    /// Less than, signed.
    Lt,
    /// Greater or equal, signed.
    Ge,
    /// Less than, unsigned.
    Ltu,
    /// Greater or equal, unsigned.
    Geu,
}

impl Condition {
    /// Whether the condition holds of the words `a` and `b`.
    pub open spec fn holds(self, a: u32, b: u32) -> bool {
        match self {
            Condition::Eq => a == b,
            Condition::Ne => a != b,
            Condition::Lt => signed_lt_spec(a, b),
            Condition::Ge => !signed_lt_spec(a, b),
            Condition::Ltu => a < b,
            Condition::Geu => a >= b,
        }
    }

    /// Evaluates the condition on the words `a` and `b`.
    pub fn eval(self, a: u32, b: u32) -> (r: bool)
        ensures
            r == self.holds(a, b),
    {
        match self {
            Condition::Eq => a == b,
            Condition::Ne => a != b,
            Condition::Lt => signed_lt(a, b),
            Condition::Ge => signed_ge(a, b),
            Condition::Ltu => a < b,
            Condition::Geu => !(a < b),
        }
    }
}

/// What one instruction does to the machine.
pub struct Effect {
    /// The state once the instruction has retired.
    pub state: StateView,
    /// The address to continue at, or `None` to continue with the
    /// instruction that follows.
    pub next_pc: Option<u32>,
}

/// A 12-bit immediate, sign-extended to a word.
pub open spec fn sext12(imm: u16) -> u32 {
    sign_extend_spec(imm as u32, 12)
}

/// A 13-bit branch offset, sign-extended to a word.
pub open spec fn sext13(imm: u16) -> u32 {
    sign_extend_spec(imm as u32, 13)
}

/// A 21-bit jump offset, sign-extended to a word.
pub open spec fn sext21(imm: u32) -> u32 {
    sign_extend_spec(imm, 21)
}

/// The word that stands for a truth value: 1 or 0.
pub open spec fn flag(b: bool) -> u32 {
    if b {
        1
    } else {
        0
    }
}

/// What a byte load delivers to the register: the byte, sign-extended from
/// bit 7 or zero-extended.
pub open spec fn widen_byte(loaded: Result<u8, state::Error>, signed: bool) -> Result<
    u32,
    state::Error,
> {
    match loaded {
        Ok(v) => Ok(
            if signed {
                sign_extend_spec(v as u32, 8)
            } else {
                v as u32
            },
        ),
        Err(e) => Err(e),
    }
}

/// What a halfword load delivers to the register: the halfword,
/// sign-extended from bit 15 or zero-extended.
pub open spec fn widen_half(loaded: Result<u16, state::Error>, signed: bool) -> Result<
    u32,
    state::Error,
> {
    match loaded {
        Ok(v) => Ok(
            if signed {
                sign_extend_spec(v as u32, 16)
            } else {
                v as u32
            },
        ),
        Err(e) => Err(e),
    }
}

/// `rd <- value`, then on to the following instruction.
pub open spec fn retire(s: StateView, rd: u8, value: u32) -> Result<Effect, InstError> {
    match s.write_reg(rd, value) {
        Ok(t) => Ok(Effect { state: t, next_pc: None }),
        Err(e) => Err(InstError::State(e)),
    }
}

/// `rd <- pc + 4`, then on to `target`.
pub open spec fn link(s: StateView, rd: u8, target: u32) -> Result<Effect, InstError> {
    match s.write_reg(rd, add32(s.pc, 4)) {
        Ok(t) => Ok(Effect { state: t, next_pc: Some(target) }),
        Err(e) => Err(InstError::State(e)),
    }
}

/// Reads `rs1` and goes on with `f` of its value.
pub open spec fn with_rs1(
    s: StateView,
    rs1: u8,
    f: spec_fn(u32) -> Result<Effect, InstError>,
) -> Result<Effect, InstError> {
    match s.read_reg(rs1) {
        Ok(a) => f(a),
        Err(e) => Err(InstError::State(e)),
    }
}

/// Reads `rs1`, then `rs2`, and goes on with `f` of their values.
pub open spec fn with_rs1_rs2(
    s: StateView,
    rs1: u8,
    rs2: u8,
    f: spec_fn(u32, u32) -> Result<Effect, InstError>,
) -> Result<Effect, InstError> {
    match s.read_reg(rs1) {
        Ok(a) => match s.read_reg(rs2) {
            Ok(b) => f(a, b),
            Err(e) => Err(InstError::State(e)),
        },
        Err(e) => Err(InstError::State(e)),
    }
}

/// A conditional branch: continue at `pc + sext(imm)` when `cond` holds of
/// `rs1` and `rs2`, and with the following instruction otherwise.  The
/// state is left as it is.
pub open spec fn branch_spec(s: StateView, rs1: u8, rs2: u8, imm: u16, cond: Condition) -> Result<
    Effect,
    InstError,
> {
    with_rs1_rs2(
        s,
        rs1,
        rs2,
        |a: u32, b: u32|
            Ok(
                Effect {
                    state: s,
                    next_pc: if cond.holds(a, b) {
                        Some(add32(s.pc, sext13(imm)))
                    } else {
                        None
                    },
                },
            ),
    )
}

/// A load: `rd <- loaded`, where `loaded` is what the memory access at
/// `rs1 + sext(imm)` gave.
pub open spec fn load_spec(
    s: StateView,
    rd: u8,
    rs1: u8,
    imm: u16,
    access: spec_fn(u32) -> Result<u32, state::Error>,
) -> Result<Effect, InstError> {
    with_rs1(
        s,
        rs1,
        |a: u32|
            match access(add32(a, sext12(imm))) {
                Ok(v) => retire(s, rd, v),
                Err(e) => Err(InstError::State(e)),
            },
    )
}

/// A store: the memory after `write` of the address `rs1 + sext(imm)` and
/// the value of `rs2`.
pub open spec fn store_spec(
    s: StateView,
    rs1: u8,
    rs2: u8,
    imm: u16,
    write: spec_fn(u32, u32) -> Result<StateView, state::Error>,
) -> Result<Effect, InstError> {
    with_rs1_rs2(
        s,
        rs1,
        rs2,
        |a: u32, b: u32|
            match write(add32(a, sext12(imm)), b) {
                Ok(t) => Ok(Effect { state: t, next_pc: None }),
                Err(e) => Err(InstError::State(e)),
            },
    )
}

/// `rd <- f(rs1)`.
pub open spec fn unary_spec(s: StateView, rd: u8, rs1: u8, f: spec_fn(u32) -> u32) -> Result<
    Effect,
    InstError,
> {
    with_rs1(s, rs1, |a: u32| retire(s, rd, f(a)))
}

/// `rd <- f(rs1, rs2)`.
pub open spec fn binary_spec(
    s: StateView,
    rd: u8,
    rs1: u8,
    rs2: u8,
    f: spec_fn(u32, u32) -> u32,
) -> Result<Effect, InstError> {
    with_rs1_rs2(s, rs1, rs2, |a: u32, b: u32| retire(s, rd, f(a, b)))
}

/// The semantics of RV32I: what `inst` does when executed in state `s`.
///
/// Source registers are read first, then memory is accessed, then the
/// destination is written; the first fault ends the instruction.  All
/// arithmetic wraps around at 2^32.
pub open spec fn exec_spec(inst: Inst, s: StateView) -> Result<Effect, InstError> {
    match inst {
        Inst::LUI { rd, imm } => retire(s, rd, imm),
        Inst::AUIPC { rd, imm } => retire(s, rd, add32(s.pc, imm)),
        Inst::JAL { rd, imm } => link(s, rd, add32(s.pc, sext21(imm))),
        Inst::JALR { rd, rs1, imm } => with_rs1(
            s,
            rs1,
            |a: u32| link(s, rd, add32(a, sext12(imm)) & 0xffff_fffe),
        ),
        Inst::BEQ { rs1, rs2, imm } => branch_spec(s, rs1, rs2, imm, Condition::Eq),
        Inst::BNE { rs1, rs2, imm } => branch_spec(s, rs1, rs2, imm, Condition::Ne),
        Inst::BLT { rs1, rs2, imm } => branch_spec(s, rs1, rs2, imm, Condition::Lt),
        Inst::BLTU { rs1, rs2, imm } => branch_spec(s, rs1, rs2, imm, Condition::Ltu),
        Inst::BGE { rs1, rs2, imm } => branch_spec(s, rs1, rs2, imm, Condition::Ge),
        Inst::BGEU { rs1, rs2, imm } => branch_spec(s, rs1, rs2, imm, Condition::Geu),
        Inst::LB { rs1, rd, imm } => load_spec(
            s,
            rd,
            rs1,
            imm,
            |addr: u32| widen_byte(s.load8(addr), true),
        ),
        Inst::LH { rs1, rd, imm } => load_spec(
            s,
            rd,
            rs1,
            imm,
            |addr: u32| widen_half(s.load16(addr), true),
        ),
        Inst::LW { rd, rs1, imm } => load_spec(s, rd, rs1, imm, |addr: u32| s.load32(addr)),
        Inst::LBU { rd, rs1, imm } => load_spec(
            s,
            rd,
            rs1,
            imm,
            |addr: u32| widen_byte(s.load8(addr), false),
        ),
        Inst::LHU { rd, rs1, imm } => load_spec(
            s,
            rd,
            rs1,
            imm,
            |addr: u32| widen_half(s.load16(addr), false),
        ),
        Inst::SB { rs1, rs2, imm } => store_spec(
            s,
            rs1,
            rs2,
            imm,
            |addr: u32, v: u32| s.store8(addr, byte_of(v, 0)),
        ),
        Inst::SH { rs1, rs2, imm } => store_spec(
            s,
            rs1,
            rs2,
            imm,
            |addr: u32, v: u32| s.store16(addr, low_half(v)),
        ),
        Inst::SW { rs1, rs2, imm } => store_spec(
            s,
            rs1,
            rs2,
            imm,
            |addr: u32, v: u32| s.store32(addr, v),
        ),
        Inst::ADDI { rd, rs1, imm } => unary_spec(s, rd, rs1, |a: u32| add32(a, sext12(imm))),
        Inst::SLTI { rd, rs1, imm } => unary_spec(
            s,
            rd,
            rs1,
            |a: u32| flag(signed_lt_spec(a, sext12(imm))),
        ),
        Inst::SLTIU { rd, rs1, imm } => unary_spec(s, rd, rs1, |a: u32| flag(a < sext12(imm))),
        Inst::XORI { rd, rs1, imm } => unary_spec(s, rd, rs1, |a: u32| a ^ sext12(imm)),
        Inst::ORI { rd, rs1, imm } => unary_spec(s, rd, rs1, |a: u32| a | sext12(imm)),
        Inst::ANDI { rd, rs1, imm } => unary_spec(s, rd, rs1, |a: u32| a & sext12(imm)),
        Inst::SLLI { rd, rs1, shamt } => unary_spec(s, rd, rs1, |a: u32| a << (shamt as u32 % 32)),
        Inst::SRLI { rd, rs1, shamt } => unary_spec(s, rd, rs1, |a: u32| a >> (shamt as u32 % 32)),
        Inst::SRAI { rd, rs1, shamt } => unary_spec(s, rd, rs1, |a: u32| sra_spec(a, shamt as u32)),
        Inst::ADD { rd, rs1, rs2 } => binary_spec(s, rd, rs1, rs2, |a: u32, b: u32| add32(a, b)),
        Inst::SUB { rd, rs1, rs2 } => binary_spec(s, rd, rs1, rs2, |a: u32, b: u32| sub32(a, b)),
        Inst::SLL { rd, rs1, rs2 } => binary_spec(s, rd, rs1, rs2, |a: u32, b: u32| a << (b % 32)),
        Inst::SRL { rd, rs1, rs2 } => binary_spec(s, rd, rs1, rs2, |a: u32, b: u32| a >> (b % 32)),
        Inst::SRA { rd, rs1, rs2 } => binary_spec(s, rd, rs1, rs2, |a: u32, b: u32| sra_spec(a, b)),
        Inst::SLT { rd, rs1, rs2 } => binary_spec(
            s,
            rd,
            rs1,
            rs2,
            |a: u32, b: u32| flag(signed_lt_spec(a, b)),
        ),
        Inst::SLTU { rd, rs1, rs2 } => binary_spec(s, rd, rs1, rs2, |a: u32, b: u32| flag(a < b)),
        Inst::XOR { rd, rs1, rs2 } => binary_spec(s, rd, rs1, rs2, |a: u32, b: u32| a ^ b),
        Inst::OR { rd, rs1, rs2 } => binary_spec(s, rd, rs1, rs2, |a: u32, b: u32| a | b),
        Inst::AND { rd, rs1, rs2 } => binary_spec(s, rd, rs1, rs2, |a: u32, b: u32| a & b),
        Inst::ECALL => Err(InstError::Suspend),
        Inst::IGNORE => Ok(Effect { state: s, next_pc: None }),
    }
}

/// `JAL` and `JALR` link: once one of them has executed with a destination
/// other than `x0`, the destination holds the address of the instruction
/// that follows the jump, `pc + 4` for the `pc` that the jump executed at.
pub proof fn lemma_jump_links(inst: Inst, s: StateView)
    requires
        s.wf(),
        exec_spec(inst, s) is Ok,
    ensures
        inst matches Inst::JAL { rd, .. } ==> (rd != 0 ==> exec_spec(
            inst,
            s,
        )->Ok_0.state.read_reg(rd) == Ok::<u32, state::Error>(add32(s.pc, 4))),
        inst matches Inst::JALR { rd, .. } ==> (rd != 0 ==> exec_spec(
            inst,
            s,
        )->Ok_0.state.read_reg(rd) == Ok::<u32, state::Error>(add32(s.pc, 4))),
{
}

/// Whether `r`, if it is an effect on `s`, left the shape of `s` alone: the
/// state in it is well-formed, with the program counter and the memory
/// size of `s`.
pub open spec fn keeps_shape(s: StateView, r: Result<Effect, InstError>) -> bool {
    r matches Ok(effect) ==> {
        &&& effect.state.wf()
        &&& effect.state.pc == s.pc
        &&& effect.state.mem.len() == s.mem.len()
    }
}

/// Writing a register keeps the shape.
proof fn lemma_writes_keep_shape(s: StateView)
    requires
        s.wf(),
    ensures
        forall|rd: u8, value: u32| keeps_shape(s, #[trigger] retire(s, rd, value)),
        forall|rd: u8, target: u32| keeps_shape(s, #[trigger] link(s, rd, target)),
{
}

/// Arithmetic, branches and loads keep the shape, whatever they compute.
proof fn lemma_families_keep_shape(s: StateView)
    requires
        s.wf(),
    ensures
        forall|rd: u8, rs1: u8, f: spec_fn(u32) -> u32|
            keeps_shape(s, #[trigger] unary_spec(s, rd, rs1, f)),
        forall|rd: u8, rs1: u8, rs2: u8, f: spec_fn(u32, u32) -> u32|
            keeps_shape(s, #[trigger] binary_spec(s, rd, rs1, rs2, f)),
        forall|rs1: u8, rs2: u8, imm: u16, cond: Condition|
            keeps_shape(s, #[trigger] branch_spec(s, rs1, rs2, imm, cond)),
        forall|rd: u8, rs1: u8, imm: u16, access: spec_fn(u32) -> Result<u32, state::Error>|
            keeps_shape(s, #[trigger] load_spec(s, rd, rs1, imm, access)),
{
    lemma_writes_keep_shape(s);
}

/// The three stores keep the shape.
proof fn lemma_stores_keep_shape(s: StateView, rs1: u8, rs2: u8, imm: u16)
    requires
        s.wf(),
    ensures
        keeps_shape(
            s,
            store_spec(s, rs1, rs2, imm, |addr: u32, v: u32| s.store8(addr, byte_of(v, 0))),
        ),
        keeps_shape(
            s,
            store_spec(s, rs1, rs2, imm, |addr: u32, v: u32| s.store16(addr, low_half(v))),
        ),
        keeps_shape(s, store_spec(s, rs1, rs2, imm, |addr: u32, v: u32| s.store32(addr, v))),
{
}

/// No instruction touches the program counter, resizes the memory or
/// unsettles `x0`: the state after it is well-formed, with the same
/// program counter and as many bytes of memory.
pub proof fn lemma_exec_preserves_shape(inst: Inst, s: StateView)
    requires
        s.wf(),
    ensures
        keeps_shape(s, exec_spec(inst, s)),
{
    lemma_writes_keep_shape(s);
    lemma_families_keep_shape(s);
    match inst {
        Inst::SB { rs1, rs2, imm } | Inst::SH { rs1, rs2, imm } | Inst::SW { rs1, rs2, imm } => {
            lemma_stores_keep_shape(s, rs1, rs2, imm);
        },
        _ => {},
    }
}

/// An instruction whose operands are well-formed names no register that
/// does not exist: if it faults, the fault is a memory access.
pub proof fn lemma_well_formed_faults_in_memory(inst: Inst, s: StateView)
    requires
        inst.well_formed(),
    ensures
        exec_spec(inst, s) matches Err(InstError::State(e)) ==> e
            == state::Error::InvalidMemoryAccess,
{
}

/// Turns a fault of the state into the executor's error.
fn lift<T>(r: Result<T, state::Error>) -> (out: Result<T, InstError>)
    ensures
        out == match r {
            Ok(v) => Ok::<T, InstError>(v),
            Err(e) => Err::<T, InstError>(InstError::State(e)),
        },
{
    match r {
        Ok(v) => Ok(v),
        Err(e) => Err(InstError::from(e)),
    }
}

/// Takes or declines a conditional branch.
fn branch<const M: usize>(state: &State<M>, rs1: u8, rs2: u8, imm: u16, cond: Condition) -> (r:
    Result<Option<u32>, InstError>)
    ensures
        match branch_spec(state@, rs1, rs2, imm, cond) {
            Ok(effect) => r == Ok::<Option<u32>, InstError>(effect.next_pc),
            Err(e) => r == Err::<Option<u32>, InstError>(e),
        },
{
    let a = lift(state.get_r(rs1))?;
    let b = lift(state.get_r(rs2))?;
    if cond.eval(a, b) {
        let addr = wrapping_add32(state.get_pc(), sign_extend(imm as u32, 13));
        Ok(Some(addr))
    } else {
        Ok(None)
    }
}

impl Inst {
    /// Executes the instruction on `state`.
    ///
    /// `Ok(Some(pc))` asks the caller to continue at `pc`; `Ok(None)` to
    /// continue with the following instruction.  An `ECALL` yields
    /// [`InstError::Suspend`].  When the instruction faults, the state is
    /// left exactly as it was.  The program counter is never written here.
    #[verifier::rlimit(100)]
    pub fn execute<const M: usize>(self, state: &mut State<M>) -> (r: Result<
        Option<u32>,
        InstError,
    >)
        ensures
            match exec_spec(self, old(state)@) {
                Ok(effect) => r == Ok::<Option<u32>, InstError>(effect.next_pc) && final(state)@
                    == effect.state,
                Err(e) => r == Err::<Option<u32>, InstError>(e) && final(state)@ == old(state)@,
            },
    {
        match self {
            // Upper immediates.
            Inst::LUI { rd, imm } => {
                lift(state.set_r(rd, imm))?;
                Ok(None)
            },
            Inst::AUIPC { rd, imm } => {
                let val = wrapping_add32(state.get_pc(), imm);
                lift(state.set_r(rd, val))?;
                Ok(None)
            },
            // Jumps.
            Inst::JAL { rd, imm } => {
                let current_pc = state.get_pc();
                lift(state.set_r(rd, wrapping_add32(current_pc, 4)))?;
                let loc = wrapping_add32(current_pc, sign_extend(imm, 21));
                Ok(Some(loc))
            },
            Inst::JALR { rd, rs1, imm } => {
                // The source is read before the destination is written, so
                // that `rd == rs1` jumps through the old value.
                let addr = wrapping_add32(lift(state.get_r(rs1))?, sign_extend(imm as u32, 12));
                let addr = addr & 0xffff_fffe;
                let current_pc = state.get_pc();
                lift(state.set_r(rd, wrapping_add32(current_pc, 4)))?;
                Ok(Some(addr))
            },
            // Branches.
            Inst::BEQ { rs1, rs2, imm } => branch(state, rs1, rs2, imm, Condition::Eq),
            Inst::BNE { rs1, rs2, imm } => branch(state, rs1, rs2, imm, Condition::Ne),
            Inst::BLT { rs1, rs2, imm } => branch(state, rs1, rs2, imm, Condition::Lt),
            Inst::BLTU { rs1, rs2, imm } => branch(state, rs1, rs2, imm, Condition::Ltu),
            Inst::BGE { rs1, rs2, imm } => branch(state, rs1, rs2, imm, Condition::Ge),
            Inst::BGEU { rs1, rs2, imm } => branch(state, rs1, rs2, imm, Condition::Geu),
            // Loads.
            Inst::LB { rs1, rd, imm } => {
                let addr = wrapping_add32(lift(state.get_r(rs1))?, sign_extend(imm as u32, 12));
                let val = lift(state.get_mem_u8(addr))?;
                lift(state.set_r(rd, sign_extend(val as u32, 8)))?;
                Ok(None)
            },
            Inst::LH { rs1, rd, imm } => {
                let base_addr = wrapping_add32(lift(state.get_r(rs1))?, sign_extend(imm as u32, 12));
                let val = lift(state.get_mem_u16(base_addr))?;
                lift(state.set_r(rd, sign_extend(val as u32, 16)))?;
                Ok(None)
            },
            Inst::LW { rd, rs1, imm } => {
                let base_addr = wrapping_add32(lift(state.get_r(rs1))?, sign_extend(imm as u32, 12));
                let val = lift(state.get_mem_u32(base_addr))?;
                lift(state.set_r(rd, val))?;
                Ok(None)
            },
            Inst::LBU { rd, rs1, imm } => {
                let addr = wrapping_add32(lift(state.get_r(rs1))?, sign_extend(imm as u32, 12));
                let val = lift(state.get_mem_u8(addr))?;
                lift(state.set_r(rd, val as u32))?;
                Ok(None)
            },
            Inst::LHU { rd, rs1, imm } => {
                let base_addr = wrapping_add32(lift(state.get_r(rs1))?, sign_extend(imm as u32, 12));
                let val = lift(state.get_mem_u16(base_addr))?;
                lift(state.set_r(rd, val as u32))?;
                Ok(None)
            },
            // Stores.
            Inst::SB { rs1, rs2, imm } => {
                let addr = wrapping_add32(lift(state.get_r(rs1))?, sign_extend(imm as u32, 12));
                let val = lift(state.get_r(rs2))?;
                lift(state.set_mem_u8(addr, extract_byte(val, 0)))?;
                Ok(None)
            },
            Inst::SH { rs1, rs2, imm } => {
                let base_addr = wrapping_add32(lift(state.get_r(rs1))?, sign_extend(imm as u32, 12));
                let val = lift(state.get_r(rs2))?;
                lift(state.set_mem_u16(base_addr, extract_half(val)))?;
                Ok(None)
            },
            Inst::SW { rs1, rs2, imm } => {
                let base_addr = wrapping_add32(lift(state.get_r(rs1))?, sign_extend(imm as u32, 12));
                let val = lift(state.get_r(rs2))?;
                lift(state.set_mem_u32(base_addr, val))?;
                Ok(None)
            },
            // Arithmetic and logic with an immediate.
            Inst::ADDI { rd, rs1, imm } => {
                let val = wrapping_add32(lift(state.get_r(rs1))?, sign_extend(imm as u32, 12));
                lift(state.set_r(rd, val))?;
                Ok(None)
            },
            Inst::SLTI { rd, rs1, imm } => {
                let lt = signed_lt(lift(state.get_r(rs1))?, sign_extend(imm as u32, 12));
                lift(state.set_r(rd, if lt { 1 } else { 0 }))?;
                Ok(None)
            },
            Inst::SLTIU { rd, rs1, imm } => {
                let lt = lift(state.get_r(rs1))? < sign_extend(imm as u32, 12);
                lift(state.set_r(rd, if lt { 1 } else { 0 }))?;
                Ok(None)
            },
            Inst::XORI { rd, rs1, imm } => {
                let val = lift(state.get_r(rs1))? ^ sign_extend(imm as u32, 12);
                lift(state.set_r(rd, val))?;
                Ok(None)
            },
            Inst::ORI { rd, rs1, imm } => {
                let val = lift(state.get_r(rs1))? | sign_extend(imm as u32, 12);
                lift(state.set_r(rd, val))?;
                Ok(None)
            },
            Inst::ANDI { rd, rs1, imm } => {
                let val = lift(state.get_r(rs1))? & sign_extend(imm as u32, 12);
                lift(state.set_r(rd, val))?;
                Ok(None)
            },
            // Shifts by an immediate amount.
            Inst::SLLI { rd, rs1, shamt } => {
                let val = lift(state.get_r(rs1))?.wrapping_shl(shamt as u32);
                lift(state.set_r(rd, val))?;
                Ok(None)
            },
            Inst::SRLI { rd, rs1, shamt } => {
                let val = lift(state.get_r(rs1))?.wrapping_shr(shamt as u32);
                lift(state.set_r(rd, val))?;
                Ok(None)
            },
            Inst::SRAI { rd, rs1, shamt } => {
                let val = right_shift_arithmetic(lift(state.get_r(rs1))?, shamt as u32);
                lift(state.set_r(rd, val))?;
                Ok(None)
            },
            // Arithmetic and logic on registers.
            Inst::ADD { rd, rs1, rs2 } => {
                let a = lift(state.get_r(rs1))?;
                let b = lift(state.get_r(rs2))?;
                lift(state.set_r(rd, wrapping_add32(a, b)))?;
                Ok(None)
            },
            Inst::SUB { rd, rs1, rs2 } => {
                let a = lift(state.get_r(rs1))?;
                let b = lift(state.get_r(rs2))?;
                lift(state.set_r(rd, wrapping_sub32(a, b)))?;
                Ok(None)
            },
            Inst::SLT { rd, rs1, rs2 } => {
                let a = lift(state.get_r(rs1))?;
                let b = lift(state.get_r(rs2))?;
                let lt = signed_lt(a, b);
                lift(state.set_r(rd, if lt { 1 } else { 0 }))?;
                Ok(None)
            },
            Inst::SLTU { rd, rs1, rs2 } => {
                let a = lift(state.get_r(rs1))?;
                let b = lift(state.get_r(rs2))?;
                let lt = a < b;
                lift(state.set_r(rd, if lt { 1 } else { 0 }))?;
                Ok(None)
            },
            Inst::SLL { rd, rs1, rs2 } => {
                let a = lift(state.get_r(rs1))?;
                let b = lift(state.get_r(rs2))?;
                lift(state.set_r(rd, a.wrapping_shl(b)))?;
                Ok(None)
            },
            Inst::SRL { rd, rs1, rs2 } => {
                let a = lift(state.get_r(rs1))?;
                let b = lift(state.get_r(rs2))?;
                lift(state.set_r(rd, a.wrapping_shr(b)))?;
                Ok(None)
            },
            Inst::SRA { rd, rs1, rs2 } => {
                let a = lift(state.get_r(rs1))?;
                let b = lift(state.get_r(rs2))?;
                lift(state.set_r(rd, right_shift_arithmetic(a, b)))?;
                Ok(None)
            },
            Inst::XOR { rd, rs1, rs2 } => {
                let a = lift(state.get_r(rs1))?;
                let b = lift(state.get_r(rs2))?;
                lift(state.set_r(rd, a ^ b))?;
                Ok(None)
            },
            Inst::OR { rd, rs1, rs2 } => {
                let a = lift(state.get_r(rs1))?;
                let b = lift(state.get_r(rs2))?;
                lift(state.set_r(rd, a | b))?;
                Ok(None)
            },
            Inst::AND { rd, rs1, rs2 } => {
                let a = lift(state.get_r(rs1))?;
                let b = lift(state.get_r(rs2))?;
                lift(state.set_r(rd, a & b))?;
                Ok(None)
            },
            // The caller decides what suspending means.
            Inst::ECALL => Err(InstError::Suspend),
            // FENCE, FENCE.I and the CSR instructions.
            Inst::IGNORE => Ok(None),
        }
    }
}

} // verus!
