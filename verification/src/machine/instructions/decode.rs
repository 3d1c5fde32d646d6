//! The instruction decoder: from a 32-bit word to an instruction record.
//!
//! Decoding dispatches on the opcode in the low seven bits, then on
//! `funct3` and `funct7` where the format has them.  [`decode_spec`] is the
//! encoding table; [`decode`] computes it.

use vstd::prelude::*;
use crate::machine::instructions::Inst;

verus! {

/// Why a word could not be decoded.
#[derive(Debug, Clone, Copy, PartialEq, Eq)]
pub enum Error {
    /// The opcode, or the combination of opcode, `funct3` and `funct7`, is
    /// not one of RV32I.
    UnknownInst,
}

/// The `width` bits of `n` that start at bit `shift`.
pub open spec fn select_spec(n: u32, shift: u8, width: u8) -> u32 {
    (n >> shift) & (((1u32 << width) - 1) as u32)
}

/// The opcode, bits 6..0.
pub open spec fn opcode(inst: u32) -> u32 {
    inst & 0x7f
}

/// The destination register, bits 11..7.
pub open spec fn rd(inst: u32) -> u8 {
    select_spec(inst, 7, 5) as u8
}

/// The format selector `funct3`, bits 14..12.
pub open spec fn funct3(inst: u32) -> u8 {
    select_spec(inst, 12, 3) as u8
}

/// The first source register, bits 19..15.
pub open spec fn rs1(inst: u32) -> u8 {
    select_spec(inst, 15, 5) as u8
}

/// The second source register, bits 24..20.
pub open spec fn rs2(inst: u32) -> u8 {
    select_spec(inst, 20, 5) as u8
}

/// The format selector `funct7`, bits 31..25.
pub open spec fn funct7(inst: u32) -> u8 {
    select_spec(inst, 25, 7) as u8
}

/// The I-immediate: bits 31..20 as `imm[11:0]`.
pub open spec fn imm_i(inst: u32) -> u16 {
    select_spec(inst, 20, 12) as u16
}

/// The S-immediate: bits 31..25 as `imm[11:5]`, bits 11..7 as `imm[4:0]`.
pub open spec fn imm_s(inst: u32) -> u16 {
    ((select_spec(inst, 25, 7) << 5) | select_spec(inst, 7, 5)) as u16
}

/// The B-immediate: bit 31 as `imm[12]`, bit 7 as `imm[11]`, bits 30..25
/// as `imm[10:5]`, bits 11..8 as `imm[4:1]`; `imm[0]` is zero.
pub open spec fn imm_b(inst: u32) -> u16 {
    ((select_spec(inst, 31, 1) << 12)
        | (select_spec(inst, 7, 1) << 11)
        | (select_spec(inst, 25, 6) << 5)
        | (select_spec(inst, 8, 4) << 1)) as u16
}

/// The U-immediate: bits 31..12 in place, the low twelve bits zero.
pub open spec fn imm_u(inst: u32) -> u32 {
    select_spec(inst, 12, 20) << 12
}

/// The J-immediate: bit 31 as `imm[20]`, bits 19..12 as `imm[19:12]`,
/// bit 20 as `imm[11]`, bits 30..21 as `imm[10:1]`; `imm[0]` is zero.
pub open spec fn imm_j(inst: u32) -> u32 {
    (select_spec(inst, 31, 1) << 20)
        | (select_spec(inst, 12, 8) << 12)
        | (select_spec(inst, 20, 1) << 11)
        | (select_spec(inst, 21, 10) << 1)
}

/// The shift amount of an immediate shift: `imm[4:0]`.
pub open spec fn shamt(inst: u32) -> u8 {
    select_spec(inst, 20, 5) as u8
}

// Cuts the `width` bits that start at bit `shift` out of `n`.
#[inline]
fn select(n: u32, shift: u8, width: u8) -> (r: u32)
    requires
        shift < 32,
        width < 32,
    ensures
        r == select_spec(n, shift, width),
{
    assert((1u32 << width) >= 1) by (bit_vector)
        requires
            width < 32,
    ;
    (n >> shift) & ((1u32 << width) - 1)
}

/// `JALR`: the I format with `funct3 = 0`.
pub open spec fn decode_jalr(inst: u32) -> Result<Inst, Error> {
    if funct3(inst) == 0 {
        Ok(Inst::JALR { rd: rd(inst), rs1: rs1(inst), imm: imm_i(inst) })
    } else {
        Err(Error::UnknownInst)
    }
}

/// The conditional branches: the B format, selected by `funct3`.
pub open spec fn decode_branch(inst: u32) -> Result<Inst, Error> {
    let (rs1, rs2, imm) = (rs1(inst), rs2(inst), imm_b(inst));
    match funct3(inst) {
        0b000 => Ok(Inst::BEQ { rs1, rs2, imm }),
        0b001 => Ok(Inst::BNE { rs1, rs2, imm }),
        0b100 => Ok(Inst::BLT { rs1, rs2, imm }),
        0b101 => Ok(Inst::BGE { rs1, rs2, imm }),
        0b110 => Ok(Inst::BLTU { rs1, rs2, imm }),
        0b111 => Ok(Inst::BGEU { rs1, rs2, imm }),
        _ => Err(Error::UnknownInst),
    }
}

/// The loads: the I format, selected by `funct3`.
pub open spec fn decode_load(inst: u32) -> Result<Inst, Error> {
    let (rd, rs1, imm) = (rd(inst), rs1(inst), imm_i(inst));
    match funct3(inst) {
        0b000 => Ok(Inst::LB { rs1, rd, imm }),
        0b001 => Ok(Inst::LH { rs1, rd, imm }),
        0b010 => Ok(Inst::LW { rd, rs1, imm }),
        0b100 => Ok(Inst::LBU { rd, rs1, imm }),
        0b101 => Ok(Inst::LHU { rd, rs1, imm }),
        _ => Err(Error::UnknownInst),
    }
}

/// The stores: the S format, selected by `funct3`.
pub open spec fn decode_store(inst: u32) -> Result<Inst, Error> {
    let (rs1, rs2, imm) = (rs1(inst), rs2(inst), imm_s(inst));
    match funct3(inst) {
        0b000 => Ok(Inst::SB { rs1, rs2, imm }),
        0b001 => Ok(Inst::SH { rs1, rs2, imm }),
        0b010 => Ok(Inst::SW { rs1, rs2, imm }),
        _ => Err(Error::UnknownInst),
    }
}

/// Arithmetic with an immediate: the I format, selected by `funct3`; the
/// shifts are further selected by `funct7`, which takes the place of the
/// upper immediate bits.
pub open spec fn decode_op_imm(inst: u32) -> Result<Inst, Error> {
    let (rd, rs1, imm, shamt) = (rd(inst), rs1(inst), imm_i(inst), shamt(inst));
    match (funct3(inst), funct7(inst)) {
        (0b000, _) => Ok(Inst::ADDI { rd, rs1, imm }),
        (0b010, _) => Ok(Inst::SLTI { rd, rs1, imm }),
        (0b011, _) => Ok(Inst::SLTIU { rd, rs1, imm }),
        (0b100, _) => Ok(Inst::XORI { rd, rs1, imm }),
        (0b110, _) => Ok(Inst::ORI { rd, rs1, imm }),
        (0b111, _) => Ok(Inst::ANDI { rd, rs1, imm }),
        (0b001, 0b000_0000) => Ok(Inst::SLLI { rd, rs1, shamt }),
        (0b101, 0b000_0000) => Ok(Inst::SRLI { rd, rs1, shamt }),
        (0b101, 0b010_0000) => Ok(Inst::SRAI { rd, rs1, shamt }),
        _ => Err(Error::UnknownInst),
    }
}

/// Register-register arithmetic: the R format, selected by `funct3` and
/// `funct7`.
pub open spec fn decode_op(inst: u32) -> Result<Inst, Error> {
    let (rd, rs1, rs2) = (rd(inst), rs1(inst), rs2(inst));
    match (funct3(inst), funct7(inst)) {
        (0b000, 0b000_0000) => Ok(Inst::ADD { rd, rs1, rs2 }),
        (0b000, 0b010_0000) => Ok(Inst::SUB { rd, rs1, rs2 }),
        (0b001, 0b000_0000) => Ok(Inst::SLL { rd, rs1, rs2 }),
        (0b010, 0b000_0000) => Ok(Inst::SLT { rd, rs1, rs2 }),
        (0b011, 0b000_0000) => Ok(Inst::SLTU { rd, rs1, rs2 }),
        (0b100, 0b000_0000) => Ok(Inst::XOR { rd, rs1, rs2 }),
        (0b101, 0b000_0000) => Ok(Inst::SRL { rd, rs1, rs2 }),
        (0b101, 0b010_0000) => Ok(Inst::SRA { rd, rs1, rs2 }),
        (0b110, 0b000_0000) => Ok(Inst::OR { rd, rs1, rs2 }),
        (0b111, 0b000_0000) => Ok(Inst::AND { rd, rs1, rs2 }),
        _ => Err(Error::UnknownInst),
    }
}

/// Memory ordering: `FENCE` (`funct3 = 0`) and `FENCE.I` (`funct3 = 1`),
/// both acknowledged without effect.
pub open spec fn decode_misc_mem(inst: u32) -> Result<Inst, Error> {
    match funct3(inst) {
        0b000 | 0b001 => Ok(Inst::IGNORE),
        _ => Err(Error::UnknownInst),
    }
}

/// System instructions: `ECALL` is the I format with every field zero; the
/// six CSR instructions (`funct3` 1, 2, 3, 5, 6, 7) are acknowledged
/// without effect.
pub open spec fn decode_system(inst: u32) -> Result<Inst, Error> {
    match funct3(inst) {
        0b000 => if rd(inst) == 0 && rs1(inst) == 0 && imm_i(inst) == 0 {
            Ok(Inst::ECALL)
        } else {
            Err(Error::UnknownInst)
        },
        0b001 | 0b010 | 0b011 | 0b101 | 0b110 | 0b111 => Ok(Inst::IGNORE),
        _ => Err(Error::UnknownInst),
    }
}

/// The encoding table of RV32I: the instruction that `inst` encodes, or
/// [`Error::UnknownInst`] when it encodes none.
pub open spec fn decode_spec(inst: u32) -> Result<Inst, Error> {
    match opcode(inst) {
        0b011_0111 => Ok(Inst::LUI { rd: rd(inst), imm: imm_u(inst) }),
        0b001_0111 => Ok(Inst::AUIPC { rd: rd(inst), imm: imm_u(inst) }),
        0b110_1111 => Ok(Inst::JAL { rd: rd(inst), imm: imm_j(inst) }),
        0b110_0111 => decode_jalr(inst),
        0b110_0011 => decode_branch(inst),
        0b000_0011 => decode_load(inst),
        0b010_0011 => decode_store(inst),
        0b001_0011 => decode_op_imm(inst),
        0b011_0011 => decode_op(inst),
        0b000_1111 => decode_misc_mem(inst),
        0b111_0011 => decode_system(inst),
        _ => Err(Error::UnknownInst),
    }
}

/// Range facts about the fields that the decoder cuts out of a word: each
/// fits the type it is cast to and the width of its format.
proof fn lemma_field_ranges(inst: u32)
    by (bit_vector)
    ensures
        select_spec(inst, 7, 5) < 32,
        select_spec(inst, 15, 5) < 32,
        select_spec(inst, 20, 5) < 32,
        select_spec(inst, 12, 3) < 8,
        select_spec(inst, 25, 7) < 128,
        select_spec(inst, 20, 12) < 0x1000,
        (select_spec(inst, 25, 7) << 5) | select_spec(inst, 7, 5) < 0x1000,
        (select_spec(inst, 31, 1) << 12)
            | (select_spec(inst, 7, 1) << 11)
            | (select_spec(inst, 25, 6) << 5)
            | (select_spec(inst, 8, 4) << 1) < 0x2000,
        ((select_spec(inst, 31, 1) << 12)
            | (select_spec(inst, 7, 1) << 11)
            | (select_spec(inst, 25, 6) << 5)
            | (select_spec(inst, 8, 4) << 1)) % 2 == 0,
        imm_u(inst) % 0x1000 == 0,
        imm_j(inst) < 0x20_0000,
        imm_j(inst) % 2 == 0,
{
}

/// Every instruction that the table yields is well-formed.
pub proof fn lemma_decoded_is_well_formed(inst: u32)
    ensures
        decode_spec(inst) matches Ok(i) ==> i.well_formed(),
{
    lemma_field_ranges(inst);
}

// Unpacks the fields of the I format: `rd`, `funct3`, `rs1` and the
// immediate.
#[inline]
fn unpack_i(inst: u32) -> (f: (u8, u8, u8, u16))
    ensures
        f == (rd(inst), funct3(inst), rs1(inst), imm_i(inst)),
{
    proof {
        lemma_field_ranges(inst);
    }
    (
        select(inst, 7, 5) as u8,
        select(inst, 12, 3) as u8,
        select(inst, 15, 5) as u8,
        select(inst, 20, 12) as u16,
    )
}

/// Decodes one instruction word.
///
/// The result is a function of `inst` alone: the entry of the encoding
/// table for it.
pub fn decode(inst: u32) -> (r: Result<Inst, Error>)
    ensures
        r == decode_spec(inst),
        r matches Ok(i) ==> i.well_formed(),
{
    proof {
        lemma_field_ranges(inst);
        lemma_decoded_is_well_formed(inst);
    }
    match inst & 0b111_1111 {
        // U format.
        0b011_0111 => {
            let rd = select(inst, 7, 5) as u8;
            let imm = select(inst, 12, 20) << 12;
            Ok(Inst::LUI { rd, imm })
        },
        0b001_0111 => {
            let rd = select(inst, 7, 5) as u8;
            let imm = select(inst, 12, 20) << 12;
            Ok(Inst::AUIPC { rd, imm })
        },
        // J format: imm[20|10:1|11|19:12].
        0b110_1111 => {
            let rd = select(inst, 7, 5) as u8;
            let imm = (select(inst, 31, 1) << 20)
                | (select(inst, 12, 8) << 12)
                | (select(inst, 20, 1) << 11)
                | (select(inst, 21, 10) << 1);
            Ok(Inst::JAL { rd, imm })
        },
        // I format, jump.
        0b110_0111 => {
            let (rd, f3, rs1, imm) = unpack_i(inst);
            match f3 {
                0 => Ok(Inst::JALR { rd, rs1, imm }),
                _ => Err(Error::UnknownInst),
            }
        },
        // B format: imm[12|10:5] and imm[4:1|11].
        0b110_0011 => {
            let f3 = select(inst, 12, 3) as u8;
            let rs1 = select(inst, 15, 5) as u8;
            let rs2 = select(inst, 20, 5) as u8;
            let imm = ((select(inst, 31, 1) << 12)
                | (select(inst, 7, 1) << 11)
                | (select(inst, 25, 6) << 5)
                | (select(inst, 8, 4) << 1)) as u16;
            match f3 {
                0b000 => Ok(Inst::BEQ { rs1, rs2, imm }),
                0b001 => Ok(Inst::BNE { rs1, rs2, imm }),
                0b100 => Ok(Inst::BLT { rs1, rs2, imm }),
                0b101 => Ok(Inst::BGE { rs1, rs2, imm }),
                0b110 => Ok(Inst::BLTU { rs1, rs2, imm }),
                0b111 => Ok(Inst::BGEU { rs1, rs2, imm }),
                _ => Err(Error::UnknownInst),
            }
        },
        // I format, loads.
        0b000_0011 => {
            let (rd, f3, rs1, imm) = unpack_i(inst);
            match f3 {
                0b000 => Ok(Inst::LB { rs1, rd, imm }),
                0b001 => Ok(Inst::LH { rs1, rd, imm }),
                0b010 => Ok(Inst::LW { rd, rs1, imm }),
                0b100 => Ok(Inst::LBU { rd, rs1, imm }),
                0b101 => Ok(Inst::LHU { rd, rs1, imm }),
                _ => Err(Error::UnknownInst),
            }
        },
        // S format: imm[11:5] and imm[4:0].
        0b010_0011 => {
            let imm = ((select(inst, 25, 7) << 5) | select(inst, 7, 5)) as u16;
            let f3 = select(inst, 12, 3) as u8;
            let rs1 = select(inst, 15, 5) as u8;
            let rs2 = select(inst, 20, 5) as u8;
            match f3 {
                0b000 => Ok(Inst::SB { rs1, rs2, imm }),
                0b001 => Ok(Inst::SH { rs1, rs2, imm }),
                0b010 => Ok(Inst::SW { rs1, rs2, imm }),
                _ => Err(Error::UnknownInst),
            }
        },
        // I format, arithmetic and shifts.
        0b001_0011 => {
            let (rd, f3, rs1, imm) = unpack_i(inst);
            match f3 {
                0b000 => Ok(Inst::ADDI { rd, rs1, imm }),
                0b010 => Ok(Inst::SLTI { rd, rs1, imm }),
                0b011 => Ok(Inst::SLTIU { rd, rs1, imm }),
                0b100 => Ok(Inst::XORI { rd, rs1, imm }),
                0b110 => Ok(Inst::ORI { rd, rs1, imm }),
                0b111 => Ok(Inst::ANDI { rd, rs1, imm }),
                0b001 => {
                    let shamt = select(inst, 20, 5) as u8;
                    match select(inst, 25, 7) {
                        0b000_0000 => Ok(Inst::SLLI { rd, rs1, shamt }),
                        _ => Err(Error::UnknownInst),
                    }
                },
                0b101 => {
                    let shamt = select(inst, 20, 5) as u8;
                    match select(inst, 25, 7) {
                        0b000_0000 => Ok(Inst::SRLI { rd, rs1, shamt }),
                        0b010_0000 => Ok(Inst::SRAI { rd, rs1, shamt }),
                        _ => Err(Error::UnknownInst),
                    }
                },
                _ => Err(Error::UnknownInst),
            }
        },
        // R format.
        0b011_0011 => {
            let rd = select(inst, 7, 5) as u8;
            let f3 = select(inst, 12, 3) as u8;
            let rs1 = select(inst, 15, 5) as u8;
            let rs2 = select(inst, 20, 5) as u8;
            let f7 = select(inst, 25, 7) as u8;
            match (f3, f7) {
                (0b000, 0b000_0000) => Ok(Inst::ADD { rd, rs1, rs2 }),
                (0b000, 0b010_0000) => Ok(Inst::SUB { rd, rs1, rs2 }),
                (0b001, 0b000_0000) => Ok(Inst::SLL { rd, rs1, rs2 }),
                (0b010, 0b000_0000) => Ok(Inst::SLT { rd, rs1, rs2 }),
                (0b011, 0b000_0000) => Ok(Inst::SLTU { rd, rs1, rs2 }),
                (0b100, 0b000_0000) => Ok(Inst::XOR { rd, rs1, rs2 }),
                (0b101, 0b000_0000) => Ok(Inst::SRL { rd, rs1, rs2 }),
                (0b101, 0b010_0000) => Ok(Inst::SRA { rd, rs1, rs2 }),
                (0b110, 0b000_0000) => Ok(Inst::OR { rd, rs1, rs2 }),
                (0b111, 0b000_0000) => Ok(Inst::AND { rd, rs1, rs2 }),
                _ => Err(Error::UnknownInst),
            }
        },
        // FENCE and FENCE.I.
        0b000_1111 => {
            match select(inst, 12, 3) {
                0b000 | 0b001 => Ok(Inst::IGNORE),
                _ => Err(Error::UnknownInst),
            }
        },
        // ECALL and the CSR instructions.
        0b111_0011 => {
            let (rd, f3, rs1, imm) = unpack_i(inst);
            match f3 {
                0b000 => if rd == 0 && rs1 == 0 && imm == 0 {
                    Ok(Inst::ECALL)
                } else {
                    Err(Error::UnknownInst)
                },
                0b001 | 0b010 | 0b011 | 0b101 | 0b110 | 0b111 => Ok(Inst::IGNORE),
                _ => Err(Error::UnknownInst),
            }
        },
        _ => Err(Error::UnknownInst),
    }
}

/// The R format: `funct7 | rs2 | rs1 | funct3 | rd | opcode`.
pub open spec fn pack_r(op: u32, f3: u32, f7: u32, rd: u8, rs1: u8, rs2: u8) -> u32 {
    op | ((rd as u32) << 7)
        | (f3 << 12)
        | ((rs1 as u32) << 15)
        | ((rs2 as u32) << 20)
        | (f7 << 25)
}

/// The I format: `imm[11:0] | rs1 | funct3 | rd | opcode`.
pub open spec fn pack_i(op: u32, f3: u32, rd: u8, rs1: u8, imm: u16) -> u32 {
    op | ((rd as u32) << 7) | (f3 << 12) | ((rs1 as u32) << 15) | ((imm as u32) << 20)
}

/// The S format: `imm[11:5] | rs2 | rs1 | funct3 | imm[4:0] | opcode`.
pub open spec fn pack_s(op: u32, f3: u32, rs1: u8, rs2: u8, imm: u16) -> u32 {
    op | (((imm as u32) & 0x1f) << 7)
        | (f3 << 12)
        | ((rs1 as u32) << 15)
        | ((rs2 as u32) << 20)
        | (((imm as u32) >> 5) << 25)
}

/// The B format:
/// `imm[12] | imm[10:5] | rs2 | rs1 | funct3 | imm[4:1] | imm[11] | opcode`.
pub open spec fn pack_b(op: u32, f3: u32, rs1: u8, rs2: u8, imm: u16) -> u32 {
    op | ((((imm as u32) >> 11) & 1) << 7)
        | ((((imm as u32) >> 1) & 0xf) << 8)
        | (f3 << 12)
        | ((rs1 as u32) << 15)
        | ((rs2 as u32) << 20)
        | ((((imm as u32) >> 5) & 0x3f) << 25)
        | ((((imm as u32) >> 12) & 1) << 31)
}

/// The U format: `imm[31:12] | rd | opcode`.
pub open spec fn pack_u(op: u32, rd: u8, imm: u32) -> u32 {
    op | ((rd as u32) << 7) | imm
}

/// The J format: `imm[20] | imm[10:1] | imm[11] | imm[19:12] | rd | opcode`.
pub open spec fn pack_j(op: u32, rd: u8, imm: u32) -> u32 {
    op | ((rd as u32) << 7)
        | (((imm >> 12) & 0xff) << 12)
        | (((imm >> 11) & 1) << 20)
        | (((imm >> 1) & 0x3ff) << 21)
        | (((imm >> 20) & 1) << 31)
}

/// The word that encodes `inst`.  The immediate shifts are laid out as the
/// R format, with the shift amount in the place of `rs2`.
/// [`Inst::IGNORE`], which stands for several instructions, is encoded as
/// a `FENCE` with all fields zero.
pub open spec fn encode(inst: Inst) -> u32 {
    match inst {
        Inst::LUI { rd, imm } => pack_u(0b011_0111, rd, imm),
        Inst::AUIPC { rd, imm } => pack_u(0b001_0111, rd, imm),
        Inst::JAL { rd, imm } => pack_j(0b110_1111, rd, imm),
        Inst::JALR { rd, rs1, imm } => pack_i(0b110_0111, 0b000, rd, rs1, imm),
        Inst::BEQ { rs1, rs2, imm } => pack_b(0b110_0011, 0b000, rs1, rs2, imm),
        Inst::BNE { rs1, rs2, imm } => pack_b(0b110_0011, 0b001, rs1, rs2, imm),
        Inst::BLT { rs1, rs2, imm } => pack_b(0b110_0011, 0b100, rs1, rs2, imm),
        Inst::BGE { rs1, rs2, imm } => pack_b(0b110_0011, 0b101, rs1, rs2, imm),
        Inst::BLTU { rs1, rs2, imm } => pack_b(0b110_0011, 0b110, rs1, rs2, imm),
        Inst::BGEU { rs1, rs2, imm } => pack_b(0b110_0011, 0b111, rs1, rs2, imm),
        Inst::LB { rd, rs1, imm } => pack_i(0b000_0011, 0b000, rd, rs1, imm),
        Inst::LH { rd, rs1, imm } => pack_i(0b000_0011, 0b001, rd, rs1, imm),
        Inst::LW { rd, rs1, imm } => pack_i(0b000_0011, 0b010, rd, rs1, imm),
        Inst::LBU { rd, rs1, imm } => pack_i(0b000_0011, 0b100, rd, rs1, imm),
        Inst::LHU { rd, rs1, imm } => pack_i(0b000_0011, 0b101, rd, rs1, imm),
        Inst::SB { rs1, rs2, imm } => pack_s(0b010_0011, 0b000, rs1, rs2, imm),
        Inst::SH { rs1, rs2, imm } => pack_s(0b010_0011, 0b001, rs1, rs2, imm),
        Inst::SW { rs1, rs2, imm } => pack_s(0b010_0011, 0b010, rs1, rs2, imm),
        Inst::ADDI { rd, rs1, imm } => pack_i(0b001_0011, 0b000, rd, rs1, imm),
        Inst::SLTI { rd, rs1, imm } => pack_i(0b001_0011, 0b010, rd, rs1, imm),
        Inst::SLTIU { rd, rs1, imm } => pack_i(0b001_0011, 0b011, rd, rs1, imm),
        Inst::XORI { rd, rs1, imm } => pack_i(0b001_0011, 0b100, rd, rs1, imm),
        Inst::ORI { rd, rs1, imm } => pack_i(0b001_0011, 0b110, rd, rs1, imm),
        Inst::ANDI { rd, rs1, imm } => pack_i(0b001_0011, 0b111, rd, rs1, imm),
        Inst::SLLI { rd, rs1, shamt } => pack_r(0b001_0011, 0b001, 0b000_0000, rd, rs1, shamt),
        Inst::SRLI { rd, rs1, shamt } => pack_r(0b001_0011, 0b101, 0b000_0000, rd, rs1, shamt),
        Inst::SRAI { rd, rs1, shamt } => pack_r(0b001_0011, 0b101, 0b010_0000, rd, rs1, shamt),
        Inst::ADD { rd, rs1, rs2 } => pack_r(0b011_0011, 0b000, 0b000_0000, rd, rs1, rs2),
        Inst::SUB { rd, rs1, rs2 } => pack_r(0b011_0011, 0b000, 0b010_0000, rd, rs1, rs2),
        Inst::SLL { rd, rs1, rs2 } => pack_r(0b011_0011, 0b001, 0b000_0000, rd, rs1, rs2),
        Inst::SLT { rd, rs1, rs2 } => pack_r(0b011_0011, 0b010, 0b000_0000, rd, rs1, rs2),
        Inst::SLTU { rd, rs1, rs2 } => pack_r(0b011_0011, 0b011, 0b000_0000, rd, rs1, rs2),
        Inst::XOR { rd, rs1, rs2 } => pack_r(0b011_0011, 0b100, 0b000_0000, rd, rs1, rs2),
        Inst::SRL { rd, rs1, rs2 } => pack_r(0b011_0011, 0b101, 0b000_0000, rd, rs1, rs2),
        Inst::SRA { rd, rs1, rs2 } => pack_r(0b011_0011, 0b101, 0b010_0000, rd, rs1, rs2),
        Inst::OR { rd, rs1, rs2 } => pack_r(0b011_0011, 0b110, 0b000_0000, rd, rs1, rs2),
        Inst::AND { rd, rs1, rs2 } => pack_r(0b011_0011, 0b111, 0b000_0000, rd, rs1, rs2),
        Inst::ECALL => pack_i(0b111_0011, 0b000, 0, 0, 0),
        Inst::IGNORE => pack_i(0b000_1111, 0b000, 0, 0, 0),
    }
}

/// The fields cut out of a packed R-format word are the ones packed.
proof fn lemma_unpack_r(op: u32, f3: u32, f7: u32, rd: u8, rs1: u8, rs2: u8)
    by (bit_vector)
    requires
        op < 128,
        f3 < 8,
        f7 < 128,
        rd < 32,
        rs1 < 32,
        rs2 < 32,
    ensures
        opcode(pack_r(op, f3, f7, rd, rs1, rs2)) == op,
        self::rd(pack_r(op, f3, f7, rd, rs1, rs2)) == rd,
        funct3(pack_r(op, f3, f7, rd, rs1, rs2)) == f3,
        self::rs1(pack_r(op, f3, f7, rd, rs1, rs2)) == rs1,
        self::rs2(pack_r(op, f3, f7, rd, rs1, rs2)) == rs2,
        shamt(pack_r(op, f3, f7, rd, rs1, rs2)) == rs2,
        funct7(pack_r(op, f3, f7, rd, rs1, rs2)) == f7,
{
}

/// The fields cut out of a packed I-format word are the ones packed.
proof fn lemma_unpack_i(op: u32, f3: u32, rd: u8, rs1: u8, imm: u16)
    by (bit_vector)
    requires
        op < 128,
        f3 < 8,
        rd < 32,
        rs1 < 32,
        imm < 0x1000,
    ensures
        opcode(pack_i(op, f3, rd, rs1, imm)) == op,
        self::rd(pack_i(op, f3, rd, rs1, imm)) == rd,
        funct3(pack_i(op, f3, rd, rs1, imm)) == f3,
        self::rs1(pack_i(op, f3, rd, rs1, imm)) == rs1,
        imm_i(pack_i(op, f3, rd, rs1, imm)) == imm,
{
}

/// The fields cut out of a packed S-format word are the ones packed.
proof fn lemma_unpack_s(op: u32, f3: u32, rs1: u8, rs2: u8, imm: u16)
    by (bit_vector)
    requires
        op < 128,
        f3 < 8,
        rs1 < 32,
        rs2 < 32,
        imm < 0x1000,
    ensures
        opcode(pack_s(op, f3, rs1, rs2, imm)) == op,
        funct3(pack_s(op, f3, rs1, rs2, imm)) == f3,
        self::rs1(pack_s(op, f3, rs1, rs2, imm)) == rs1,
        self::rs2(pack_s(op, f3, rs1, rs2, imm)) == rs2,
        imm_s(pack_s(op, f3, rs1, rs2, imm)) == imm,
{
}

/// The fields cut out of a packed B-format word are the ones packed.
proof fn lemma_unpack_b(op: u32, f3: u32, rs1: u8, rs2: u8, imm: u16)
    by (bit_vector)
    requires
        op < 128,
        f3 < 8,
        rs1 < 32,
        rs2 < 32,
        imm < 0x2000,
        imm % 2 == 0,
    ensures
        opcode(pack_b(op, f3, rs1, rs2, imm)) == op,
        funct3(pack_b(op, f3, rs1, rs2, imm)) == f3,
        self::rs1(pack_b(op, f3, rs1, rs2, imm)) == rs1,
        self::rs2(pack_b(op, f3, rs1, rs2, imm)) == rs2,
        imm_b(pack_b(op, f3, rs1, rs2, imm)) == imm,
{
}

/// The fields cut out of a packed U-format word are the ones packed.
proof fn lemma_unpack_u(op: u32, rd: u8, imm: u32)
    by (bit_vector)
    requires
        op < 128,
        rd < 32,
        imm % 0x1000 == 0,
    ensures
        opcode(pack_u(op, rd, imm)) == op,
        self::rd(pack_u(op, rd, imm)) == rd,
        imm_u(pack_u(op, rd, imm)) == imm,
{
}

/// The fields cut out of a packed J-format word are the ones packed.
proof fn lemma_unpack_j(op: u32, rd: u8, imm: u32)
    by (bit_vector)
    requires
        op < 128,
        rd < 32,
        imm < 0x20_0000,
        imm % 2 == 0,
    ensures
        opcode(pack_j(op, rd, imm)) == op,
        self::rd(pack_j(op, rd, imm)) == rd,
        imm_j(pack_j(op, rd, imm)) == imm,
{
}

/// Decoding undoes encoding: the word that encodes a well-formed
/// instruction decodes to that instruction.
pub proof fn lemma_decode_encode(inst: Inst)
    requires
        inst.well_formed(),
    ensures
        decode_spec(encode(inst)) == Ok::<Inst, Error>(inst),
{
    match inst {
        Inst::LUI { rd, imm } => lemma_unpack_u(0b011_0111, rd, imm),
        Inst::AUIPC { rd, imm } => lemma_unpack_u(0b001_0111, rd, imm),
        Inst::JAL { rd, imm } => lemma_unpack_j(0b110_1111, rd, imm),
        Inst::JALR { rd, rs1, imm } => lemma_unpack_i(0b110_0111, 0b000, rd, rs1, imm),
        Inst::BEQ { rs1, rs2, imm } => lemma_unpack_b(0b110_0011, 0b000, rs1, rs2, imm),
        Inst::BNE { rs1, rs2, imm } => lemma_unpack_b(0b110_0011, 0b001, rs1, rs2, imm),
        Inst::BLT { rs1, rs2, imm } => lemma_unpack_b(0b110_0011, 0b100, rs1, rs2, imm),
        Inst::BGE { rs1, rs2, imm } => lemma_unpack_b(0b110_0011, 0b101, rs1, rs2, imm),
        Inst::BLTU { rs1, rs2, imm } => lemma_unpack_b(0b110_0011, 0b110, rs1, rs2, imm),
        Inst::BGEU { rs1, rs2, imm } => lemma_unpack_b(0b110_0011, 0b111, rs1, rs2, imm),
        Inst::LB { rd, rs1, imm } => lemma_unpack_i(0b000_0011, 0b000, rd, rs1, imm),
        Inst::LH { rd, rs1, imm } => lemma_unpack_i(0b000_0011, 0b001, rd, rs1, imm),
        Inst::LW { rd, rs1, imm } => lemma_unpack_i(0b000_0011, 0b010, rd, rs1, imm),
        Inst::LBU { rd, rs1, imm } => lemma_unpack_i(0b000_0011, 0b100, rd, rs1, imm),
        Inst::LHU { rd, rs1, imm } => lemma_unpack_i(0b000_0011, 0b101, rd, rs1, imm),
        Inst::SB { rs1, rs2, imm } => lemma_unpack_s(0b010_0011, 0b000, rs1, rs2, imm),
        Inst::SH { rs1, rs2, imm } => lemma_unpack_s(0b010_0011, 0b001, rs1, rs2, imm),
        Inst::SW { rs1, rs2, imm } => lemma_unpack_s(0b010_0011, 0b010, rs1, rs2, imm),
        Inst::ADDI { rd, rs1, imm } => lemma_unpack_i(0b001_0011, 0b000, rd, rs1, imm),
        Inst::SLTI { rd, rs1, imm } => lemma_unpack_i(0b001_0011, 0b010, rd, rs1, imm),
        Inst::SLTIU { rd, rs1, imm } => lemma_unpack_i(0b001_0011, 0b011, rd, rs1, imm),
        Inst::XORI { rd, rs1, imm } => lemma_unpack_i(0b001_0011, 0b100, rd, rs1, imm),
        Inst::ORI { rd, rs1, imm } => lemma_unpack_i(0b001_0011, 0b110, rd, rs1, imm),
        Inst::ANDI { rd, rs1, imm } => lemma_unpack_i(0b001_0011, 0b111, rd, rs1, imm),
        Inst::SLLI { rd, rs1, shamt } => lemma_unpack_r(0b001_0011, 0b001, 0b000_0000, rd, rs1, shamt),
        Inst::SRLI { rd, rs1, shamt } => lemma_unpack_r(0b001_0011, 0b101, 0b000_0000, rd, rs1, shamt),
        Inst::SRAI { rd, rs1, shamt } => lemma_unpack_r(0b001_0011, 0b101, 0b010_0000, rd, rs1, shamt),
        Inst::ADD { rd, rs1, rs2 } => lemma_unpack_r(0b011_0011, 0b000, 0b000_0000, rd, rs1, rs2),
        Inst::SUB { rd, rs1, rs2 } => lemma_unpack_r(0b011_0011, 0b000, 0b010_0000, rd, rs1, rs2),
        Inst::SLL { rd, rs1, rs2 } => lemma_unpack_r(0b011_0011, 0b001, 0b000_0000, rd, rs1, rs2),
        Inst::SLT { rd, rs1, rs2 } => lemma_unpack_r(0b011_0011, 0b010, 0b000_0000, rd, rs1, rs2),
        Inst::SLTU { rd, rs1, rs2 } => lemma_unpack_r(0b011_0011, 0b011, 0b000_0000, rd, rs1, rs2),
        Inst::XOR { rd, rs1, rs2 } => lemma_unpack_r(0b011_0011, 0b100, 0b000_0000, rd, rs1, rs2),
        Inst::SRL { rd, rs1, rs2 } => lemma_unpack_r(0b011_0011, 0b101, 0b000_0000, rd, rs1, rs2),
        Inst::SRA { rd, rs1, rs2 } => lemma_unpack_r(0b011_0011, 0b101, 0b010_0000, rd, rs1, rs2),
        Inst::OR { rd, rs1, rs2 } => lemma_unpack_r(0b011_0011, 0b110, 0b000_0000, rd, rs1, rs2),
        Inst::AND { rd, rs1, rs2 } => lemma_unpack_r(0b011_0011, 0b111, 0b000_0000, rd, rs1, rs2),
        Inst::ECALL => lemma_unpack_i(0b111_0011, 0b000, 0, 0, 0),
        Inst::IGNORE => lemma_unpack_i(0b000_1111, 0b000, 0, 0, 0),
    }
}

/// A word is its fields packed again, in each of the six formats.
proof fn lemma_repack(inst: u32)
    by (bit_vector)
    ensures
        pack_r(opcode(inst), funct3(inst) as u32, funct7(inst) as u32, rd(inst), rs1(inst), rs2(inst))
            == inst,
        pack_i(opcode(inst), funct3(inst) as u32, rd(inst), rs1(inst), imm_i(inst)) == inst,
        pack_s(opcode(inst), funct3(inst) as u32, rs1(inst), rs2(inst), imm_s(inst)) == inst,
        pack_b(opcode(inst), funct3(inst) as u32, rs1(inst), rs2(inst), imm_b(inst)) == inst,
        pack_u(opcode(inst), rd(inst), imm_u(inst)) == inst,
        pack_j(opcode(inst), rd(inst), imm_j(inst)) == inst,
        shamt(inst) == rs2(inst),
{
}

/// Encoding undoes decoding: a word that decodes to an instruction is the
/// encoding of that instruction, so the decoder passes over no bit of it.
/// The one exception is [`Inst::IGNORE`], which many words decode to.
pub proof fn lemma_encode_decode(inst: u32)
    ensures
        decode_spec(inst) matches Ok(i) ==> i == Inst::IGNORE || encode(i) == inst,
{
    lemma_repack(inst);
}

/// A word that the decoder does not know encodes no well-formed
/// instruction.
pub proof fn lemma_unknown_is_not_encoded(inst: u32, i: Inst)
    requires
        decode_spec(inst) is Err,
        i.well_formed(),
    ensures
        encode(i) != inst,
{
    lemma_decode_encode(i);
}

/// Decoding is a function of the word alone: whatever two calls of the
/// decoder return for the same word is the same.
pub proof fn lemma_decode_is_pure(inst: u32, first: Result<Inst, Error>, second: Result<Inst, Error>)
    requires
        first == decode_spec(inst),
        second == decode_spec(inst),
    ensures
        first == second,
{
}

} // verus!
