use crisp_vm::machine::instructions::decode::Error;
use crisp_vm::machine::instructions::{decode, Inst};

#[test]
fn decodes_upper_immediates() {
    assert_eq!(decode(0xabcd_e2b7), Ok(Inst::LUI { rd: 5, imm: 0xabcd_e000 }));
    assert_eq!(decode(0x1234_5317), Ok(Inst::AUIPC { rd: 6, imm: 0x1234_5000 }));
}

#[test]
fn decodes_jal_with_scattered_immediate() {
    assert_eq!(decode(0x0010_00ef), Ok(Inst::JAL { rd: 1, imm: 2048 }));
    assert_eq!(decode(0xffdf_f0ef), Ok(Inst::JAL { rd: 1, imm: 0x1f_fffc }));
    assert_eq!(decode(0x00ef_f06f), Ok(Inst::JAL { rd: 0, imm: 0xf_f00e }));
}

#[test]
fn decodes_jalr() {
    assert_eq!(decode(0x00c1_00e7), Ok(Inst::JALR { rd: 1, rs1: 2, imm: 12 }));
    assert_eq!(decode(0xfff2_82e7), Ok(Inst::JALR { rd: 5, rs1: 5, imm: 0xfff }));
}

#[test]
fn decodes_branches() {
    assert_eq!(decode(0x0020_8463), Ok(Inst::BEQ { rs1: 1, rs2: 2, imm: 8 }));
    assert_eq!(decode(0xfe41_9ce3), Ok(Inst::BNE { rs1: 3, rs2: 4, imm: 0x1ff8 }));
    assert_eq!(decode(0x7e62_cfe3), Ok(Inst::BLT { rs1: 5, rs2: 6, imm: 4094 }));
    assert_eq!(decode(0x8083_d063), Ok(Inst::BGE { rs1: 7, rs2: 8, imm: 0x1000 }));
    assert_eq!(decode(0x00a4_e863), Ok(Inst::BLTU { rs1: 9, rs2: 10, imm: 16 }));
    assert_eq!(decode(0x00c5_f0e3), Ok(Inst::BGEU { rs1: 11, rs2: 12, imm: 2048 }));
}

#[test]
fn decodes_loads() {
    assert_eq!(decode(0xfff1_0083), Ok(Inst::LB { rd: 1, rs1: 2, imm: 0xfff }));
    assert_eq!(decode(0x0022_1183), Ok(Inst::LH { rd: 3, rs1: 4, imm: 2 }));
    assert_eq!(decode(0x0000_a183), Ok(Inst::LW { rd: 3, rs1: 1, imm: 0 }));
    assert_eq!(decode(0x7ff3_4283), Ok(Inst::LBU { rd: 5, rs1: 6, imm: 0x7ff }));
    assert_eq!(decode(0x8004_5383), Ok(Inst::LHU { rd: 7, rs1: 8, imm: 0x800 }));
}

#[test]
fn decodes_stores_with_split_immediate() {
    assert_eq!(decode(0x0020_80a3), Ok(Inst::SB { rs1: 1, rs2: 2, imm: 1 }));
    assert_eq!(decode(0xfe41_9f23), Ok(Inst::SH { rs1: 3, rs2: 4, imm: 0xffe }));
    assert_eq!(decode(0x0020_a023), Ok(Inst::SW { rs1: 1, rs2: 2, imm: 0 }));
    assert_eq!(decode(0x7fff_2fa3), Ok(Inst::SW { rs1: 30, rs2: 31, imm: 0x7ff }));
}

#[test]
fn decodes_immediate_arithmetic() {
    assert_eq!(decode(0x0050_0093), Ok(Inst::ADDI { rd: 1, rs1: 0, imm: 5 }));
    assert_eq!(decode(0xfff0_8093), Ok(Inst::ADDI { rd: 1, rs1: 1, imm: 0xfff }));
    assert_eq!(decode(0xffb1_a113), Ok(Inst::SLTI { rd: 2, rs1: 3, imm: 0xffb }));
    assert_eq!(decode(0x0071_b113), Ok(Inst::SLTIU { rd: 2, rs1: 3, imm: 7 }));
    assert_eq!(decode(0x7ff2_c213), Ok(Inst::XORI { rd: 4, rs1: 5, imm: 0x7ff }));
    assert_eq!(decode(0x5553_e313), Ok(Inst::ORI { rd: 6, rs1: 7, imm: 0x555 }));
    assert_eq!(decode(0xff04_f413), Ok(Inst::ANDI { rd: 8, rs1: 9, imm: 0xff0 }));
}

#[test]
fn decodes_immediate_shifts() {
    assert_eq!(decode(0x01f1_1093), Ok(Inst::SLLI { rd: 1, rs1: 2, shamt: 31 }));
    assert_eq!(decode(0x0012_5193), Ok(Inst::SRLI { rd: 3, rs1: 4, shamt: 1 }));
    assert_eq!(decode(0x4113_5293), Ok(Inst::SRAI { rd: 5, rs1: 6, shamt: 17 }));
}

#[test]
fn rejects_immediate_shifts_with_other_funct7() {
    assert_eq!(decode(0x4031_1093), Err(Error::UnknownInst));
    assert_eq!(decode(0x0231_5093), Err(Error::UnknownInst));
}

#[test]
fn decodes_register_arithmetic() {
    assert_eq!(decode(0x0020_81b3), Ok(Inst::ADD { rd: 3, rs1: 1, rs2: 2 }));
    assert_eq!(decode(0x4020_81b3), Ok(Inst::SUB { rd: 3, rs1: 1, rs2: 2 }));
    assert_eq!(decode(0x0062_9233), Ok(Inst::SLL { rd: 4, rs1: 5, rs2: 6 }));
    assert_eq!(decode(0x0094_23b3), Ok(Inst::SLT { rd: 7, rs1: 8, rs2: 9 }));
    assert_eq!(decode(0x00c5_b533), Ok(Inst::SLTU { rd: 10, rs1: 11, rs2: 12 }));
    assert_eq!(decode(0x00f7_46b3), Ok(Inst::XOR { rd: 13, rs1: 14, rs2: 15 }));
    assert_eq!(decode(0x0128_d833), Ok(Inst::SRL { rd: 16, rs1: 17, rs2: 18 }));
    assert_eq!(decode(0x415a_59b3), Ok(Inst::SRA { rd: 19, rs1: 20, rs2: 21 }));
    assert_eq!(decode(0x018b_eb33), Ok(Inst::OR { rd: 22, rs1: 23, rs2: 24 }));
    assert_eq!(decode(0x01bd_7cb3), Ok(Inst::AND { rd: 25, rs1: 26, rs2: 27 }));
}

#[test]
fn rejects_register_arithmetic_with_other_funct7() {
    // The multiply of the M extension, and a SLL with SUB's funct7.
    assert_eq!(decode(0x0231_00b3), Err(Error::UnknownInst));
    assert_eq!(decode(0x4031_10b3), Err(Error::UnknownInst));
}

#[test]
fn decodes_ecall() {
    assert_eq!(decode(0x0000_0073), Ok(Inst::ECALL));
}

#[test]
fn fences_and_csr_instructions_are_ignored() {
    assert_eq!(decode(0x0ff0_000f), Ok(Inst::IGNORE));
    assert_eq!(decode(0x0000_100f), Ok(Inst::IGNORE));
    assert_eq!(decode(0x3001_10f3), Ok(Inst::IGNORE));
    assert_eq!(decode(0xf140_2073), Ok(Inst::IGNORE));
    assert_eq!(decode(0x3052_31f3), Ok(Inst::IGNORE));
    assert_eq!(decode(0x3052_51f3), Ok(Inst::IGNORE));
    assert_eq!(decode(0x3052_61f3), Ok(Inst::IGNORE));
    assert_eq!(decode(0x3052_71f3), Ok(Inst::IGNORE));
}

#[test]
fn rejects_other_system_and_misc_mem_words() {
    assert_eq!(decode(0x0010_0073), Err(Error::UnknownInst));
    assert_eq!(decode(0x3020_0073), Err(Error::UnknownInst));
    assert_eq!(decode(0x0000_4073), Err(Error::UnknownInst));
    assert_eq!(decode(0x0000_00f3), Err(Error::UnknownInst));
    assert_eq!(decode(0x0000_8073), Err(Error::UnknownInst));
    assert_eq!(decode(0x0000_200f), Err(Error::UnknownInst));
}

#[test]
fn rejects_unlisted_funct3() {
    assert_eq!(decode(0x00c1_10e7), Err(Error::UnknownInst));
    assert_eq!(decode(0x0020_a463), Err(Error::UnknownInst));
    assert_eq!(decode(0x0020_b463), Err(Error::UnknownInst));
    assert_eq!(decode(0x0001_3083), Err(Error::UnknownInst));
    assert_eq!(decode(0x0001_6083), Err(Error::UnknownInst));
    assert_eq!(decode(0x0001_7083), Err(Error::UnknownInst));
    assert_eq!(decode(0x0020_b023), Err(Error::UnknownInst));
    assert_eq!(decode(0x0020_f023), Err(Error::UnknownInst));
}

#[test]
fn rejects_unknown_opcodes() {
    assert_eq!(decode(0x0000_0000), Err(Error::UnknownInst));
    assert_eq!(decode(0xffff_ffff), Err(Error::UnknownInst));
    // Compressed-length words and opcodes of other extensions.
    assert_eq!(decode(0x0000_0001), Err(Error::UnknownInst));
    assert_eq!(decode(0x0000_0007), Err(Error::UnknownInst));
    assert_eq!(decode(0x0000_002f), Err(Error::UnknownInst));
    assert_eq!(decode(0x0000_0053), Err(Error::UnknownInst));
}

#[test]
fn only_the_listed_opcodes_decode() {
    let known: [u32; 11] = [0x37, 0x17, 0x6f, 0x67, 0x63, 0x03, 0x23, 0x13, 0x33, 0x0f, 0x73];
    for opcode in 0..128u32 {
        // All other fields zero: funct3 = 0 is listed for every known opcode.
        let decoded = decode(opcode);
        assert_eq!(decoded.is_ok(), known.contains(&opcode), "opcode {opcode:#x}");
    }
}

#[test]
fn decoding_is_repeatable() {
    let words: [u32; 8] = [
        0x0050_0093,
        0x0000_0073,
        0xffdf_f0ef,
        0x0000_0000,
        0xffff_ffff,
        0x4113_5293,
        0xfe41_9f23,
        0x0231_00b3,
    ];
    for &word in words.iter() {
        assert_eq!(decode(word), decode(word));
    }
}

#[test]
fn decoded_fields_are_within_their_widths() {
    let mut word: u32 = 0x9e37_79b9;
    for _ in 0..2000 {
        word = word.wrapping_mul(1_664_525).wrapping_add(1_013_904_223);
        match decode(word) {
            Ok(Inst::JAL { rd, imm }) => {
                assert!(rd < 32 && imm < 0x20_0000 && imm % 2 == 0);
            }
            Ok(Inst::LUI { rd, imm }) | Ok(Inst::AUIPC { rd, imm }) => {
                assert!(rd < 32 && imm % 0x1000 == 0);
            }
            Ok(Inst::BEQ { rs1, rs2, imm }) | Ok(Inst::BNE { rs1, rs2, imm }) => {
                assert!(rs1 < 32 && rs2 < 32 && imm < 0x2000 && imm % 2 == 0);
            }
            Ok(Inst::ADDI { rd, rs1, imm }) | Ok(Inst::LW { rd, rs1, imm }) => {
                assert!(rd < 32 && rs1 < 32 && imm < 0x1000);
            }
            Ok(Inst::SW { rs1, rs2, imm }) => {
                assert!(rs1 < 32 && rs2 < 32 && imm < 0x1000);
            }
            Ok(Inst::SRAI { rd, rs1, shamt }) => {
                assert!(rd < 32 && rs1 < 32 && shamt < 32);
            }
            _ => {}
        }
    }
}
