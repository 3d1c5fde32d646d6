use crisp_vm::machine::state::{Error, State};

#[test]
fn default_state_is_all_zero() {
    let state = State::<64>::default();
    assert_eq!(state.get_pc(), 0);
    for name in 0..32u8 {
        assert_eq!(state.get_r(name), Ok(0));
    }
    for addr in 0..64u32 {
        assert_eq!(state.get_mem_u8(addr), Ok(0));
    }
}

#[test]
fn pc_is_set_without_alignment_check() {
    let mut state = State::<16>::default();
    state.set_pc(0x1234_5677);
    assert_eq!(state.get_pc(), 0x1234_5677);
    state.set_pc(0);
    assert_eq!(state.get_pc(), 0);
}

#[test]
fn x0_reads_zero_after_a_write() {
    let mut state = State::<16>::default();
    assert_eq!(state.set_r(0, 0xdead_beef), Ok(()));
    assert_eq!(state.get_r(0), Ok(0));
    assert_eq!(state.set_r(0, 1), Ok(()));
    assert_eq!(state.get_r(0), Ok(0));
}

#[test]
fn each_register_holds_its_own_value() {
    let mut state = State::<16>::default();
    for name in 1..32u8 {
        assert_eq!(state.set_r(name, 0x1000 + name as u32), Ok(()));
    }
    for name in 1..32u8 {
        assert_eq!(state.get_r(name), Ok(0x1000 + name as u32));
    }
    assert_eq!(state.get_r(0), Ok(0));
}

#[test]
fn x31_is_a_register() {
    let mut state = State::<16>::default();
    assert_eq!(state.set_r(31, 0xffff_ffff), Ok(()));
    assert_eq!(state.get_r(31), Ok(0xffff_ffff));
    assert_eq!(state.get_r(30), Ok(0));
}

#[test]
fn register_index_above_31_is_invalid() {
    let mut state = State::<16>::default();
    assert_eq!(state.get_r(32), Err(Error::InvalidRegister));
    assert_eq!(state.get_r(255), Err(Error::InvalidRegister));
    assert_eq!(state.set_r(32, 1), Err(Error::InvalidRegister));
    assert_eq!(state.set_r(255, 1), Err(Error::InvalidRegister));
    for name in 0..32u8 {
        assert_eq!(state.get_r(name), Ok(0));
    }
}

#[test]
fn word_store_then_load_round_trips() {
    let mut state = State::<64>::default();
    for &(addr, val) in &[(0u32, 0xdead_beefu32), (4, 0), (8, 0xffff_ffff), (60, 0x0102_0304), (13, 0x8000_0001)] {
        assert_eq!(state.set_mem_u32(addr, val), Ok(()));
        assert_eq!(state.get_mem_u32(addr), Ok(val));
    }
}

#[test]
fn halfword_and_byte_store_then_load_round_trip() {
    let mut state = State::<64>::default();
    assert_eq!(state.set_mem_u16(10, 0xbeef), Ok(()));
    assert_eq!(state.get_mem_u16(10), Ok(0xbeef));
    assert_eq!(state.set_mem_u8(20, 0xa5), Ok(()));
    assert_eq!(state.get_mem_u8(20), Ok(0xa5));
}

#[test]
fn word_is_little_endian() {
    let mut state = State::<64>::default();
    state.set_mem_u8(16, 0x78).unwrap();
    state.set_mem_u8(17, 0x56).unwrap();
    state.set_mem_u8(18, 0x34).unwrap();
    state.set_mem_u8(19, 0x12).unwrap();
    assert_eq!(state.get_mem_u32(16), Ok(0x1234_5678));
    assert_eq!(state.get_mem_u16(16), Ok(0x5678));
    assert_eq!(state.get_mem_u16(18), Ok(0x1234));
    let composed = state.get_mem_u8(16).unwrap() as u32
        | (state.get_mem_u8(17).unwrap() as u32) << 8
        | (state.get_mem_u8(18).unwrap() as u32) << 16
        | (state.get_mem_u8(19).unwrap() as u32) << 24;
    assert_eq!(state.get_mem_u32(16), Ok(composed));
}

#[test]
fn stores_write_low_byte_first() {
    let mut state = State::<64>::default();
    state.set_mem_u32(0x20, 0xdead_beef).unwrap();
    assert_eq!(state.get_mem_u8(0x20), Ok(0xef));
    assert_eq!(state.get_mem_u8(0x21), Ok(0xbe));
    assert_eq!(state.get_mem_u8(0x22), Ok(0xad));
    assert_eq!(state.get_mem_u8(0x23), Ok(0xde));
    state.set_mem_u16(0x30, 0x1234).unwrap();
    assert_eq!(state.get_mem_u8(0x30), Ok(0x34));
    assert_eq!(state.get_mem_u8(0x31), Ok(0x12));
    assert_eq!(state.get_mem_u8(0x32), Ok(0));
}

#[test]
fn stores_leave_neighbours_alone() {
    let mut state = State::<16>::default();
    for addr in 0..16u32 {
        state.set_mem_u8(addr, 0x11).unwrap();
    }
    state.set_mem_u32(4, 0xaabb_ccdd).unwrap();
    state.set_mem_u16(10, 0xeeff).unwrap();
    let expected: [u8; 16] = [
        0x11, 0x11, 0x11, 0x11, 0xdd, 0xcc, 0xbb, 0xaa, 0x11, 0x11, 0xff, 0xee, 0x11, 0x11, 0x11, 0x11,
    ];
    for addr in 0..16u32 {
        assert_eq!(state.get_mem_u8(addr), Ok(expected[addr as usize]));
    }
}

#[test]
fn unaligned_accesses_succeed() {
    let mut state = State::<16>::default();
    assert_eq!(state.set_mem_u32(1, 0x0403_0201), Ok(()));
    assert_eq!(state.get_mem_u32(1), Ok(0x0403_0201));
    assert_eq!(state.get_mem_u16(2), Ok(0x0302));
    assert_eq!(state.set_mem_u16(7, 0xaabb), Ok(()));
    assert_eq!(state.get_mem_u16(7), Ok(0xaabb));
}

#[test]
fn accesses_at_the_last_bytes_succeed() {
    let mut state = State::<16>::default();
    assert_eq!(state.set_mem_u8(15, 1), Ok(()));
    assert_eq!(state.set_mem_u16(14, 0x0201), Ok(()));
    assert_eq!(state.set_mem_u32(12, 0x0403_0201), Ok(()));
    assert_eq!(state.get_mem_u8(15), Ok(4));
    assert_eq!(state.get_mem_u16(14), Ok(0x0403));
    assert_eq!(state.get_mem_u32(12), Ok(0x0403_0201));
}

#[test]
fn loads_outside_memory_fault() {
    let state = State::<16>::default();
    assert_eq!(state.get_mem_u8(16), Err(Error::InvalidMemoryAccess));
    assert_eq!(state.get_mem_u16(15), Err(Error::InvalidMemoryAccess));
    assert_eq!(state.get_mem_u16(16), Err(Error::InvalidMemoryAccess));
    assert_eq!(state.get_mem_u32(13), Err(Error::InvalidMemoryAccess));
    assert_eq!(state.get_mem_u32(14), Err(Error::InvalidMemoryAccess));
    assert_eq!(state.get_mem_u32(15), Err(Error::InvalidMemoryAccess));
    assert_eq!(state.get_mem_u32(16), Err(Error::InvalidMemoryAccess));
    assert_eq!(state.get_mem_u8(0xffff_ffff), Err(Error::InvalidMemoryAccess));
    assert_eq!(state.get_mem_u16(0xffff_ffff), Err(Error::InvalidMemoryAccess));
    assert_eq!(state.get_mem_u32(0xffff_fffd), Err(Error::InvalidMemoryAccess));
}

#[test]
fn stores_outside_memory_fault_and_write_nothing() {
    let mut state = State::<16>::default();
    assert_eq!(state.set_mem_u8(16, 0xff), Err(Error::InvalidMemoryAccess));
    assert_eq!(state.set_mem_u16(15, 0xffff), Err(Error::InvalidMemoryAccess));
    assert_eq!(state.set_mem_u32(13, 0xffff_ffff), Err(Error::InvalidMemoryAccess));
    assert_eq!(state.set_mem_u32(0xffff_fffe, 0xffff_ffff), Err(Error::InvalidMemoryAccess));
    for addr in 0..16u32 {
        assert_eq!(state.get_mem_u8(addr), Ok(0));
    }
}

#[test]
fn empty_memory_faults_everywhere() {
    let mut state = State::<0>::default();
    assert_eq!(state.get_mem_u8(0), Err(Error::InvalidMemoryAccess));
    assert_eq!(state.set_mem_u8(0, 0), Err(Error::InvalidMemoryAccess));
    assert_eq!(state.get_mem_u32(0), Err(Error::InvalidMemoryAccess));
}

#[test]
fn image_is_loaded_at_zero_and_padded() {
    let state = State::<8>::from_bytes(&[1, 2, 3]).expect("fits");
    assert_eq!(state.get_pc(), 0);
    let expected = [1u8, 2, 3, 0, 0, 0, 0, 0];
    for addr in 0..8u32 {
        assert_eq!(state.get_mem_u8(addr), Ok(expected[addr as usize]));
    }
    assert_eq!(state.get_mem_u8(8), Err(Error::InvalidMemoryAccess));
    for name in 0..32u8 {
        assert_eq!(state.get_r(name), Ok(0));
    }
}

#[test]
fn image_of_exactly_memory_size_fits() {
    let state = State::<4>::from_bytes(&[0xef, 0xbe, 0xad, 0xde]).expect("fits");
    assert_eq!(state.get_mem_u32(0), Ok(0xdead_beef));
}

#[test]
fn empty_image_gives_zeroed_memory() {
    let state = State::<4>::from_bytes(&[]).expect("fits");
    assert_eq!(state.get_mem_u32(0), Ok(0));
}

#[test]
fn image_longer_than_memory_is_rejected() {
    assert!(matches!(State::<4>::from_bytes(&[0; 5]), Err(Error::InvalidMemoryAccess)));
    assert!(matches!(State::<0>::from_bytes(&[0; 1]), Err(Error::InvalidMemoryAccess)));
}
