use crisp_vm::machine::instructions::InstError;
use crisp_vm::machine::state::State;
use crisp_vm::machine::{Error, Machine};

fn machine_with(words: &[(u32, u32)]) -> Machine<1024> {
    let mut state = State::<1024>::default();
    for &(addr, word) in words {
        state.set_mem_u32(addr, word).expect("in bounds");
    }
    Machine::new(state)
}

#[test]
fn addi_sets_register_and_advances_pc() {
    // addi x1, x0, 5
    let mut machine = machine_with(&[(0, 0x0050_0093)]);
    machine.step().expect("one cycle");
    assert_eq!(machine.state.get_r(1), Ok(5));
    assert_eq!(machine.state.get_pc(), 4);
}

#[test]
fn add_sums_two_registers() {
    // add x3, x1, x2
    let mut machine = machine_with(&[(0, 0x0020_81b3)]);
    machine.state.set_r(1, 1).unwrap();
    machine.state.set_r(2, 1).unwrap();
    machine.step().expect("one cycle");
    assert_eq!(machine.state.get_r(3), Ok(2));
    assert_eq!(machine.state.get_pc(), 4);
}

#[test]
fn sub_wraps_below_zero() {
    // sub x3, x1, x2
    let mut machine = machine_with(&[(0, 0x4020_81b3)]);
    machine.state.set_r(1, 1).unwrap();
    machine.state.set_r(2, 2).unwrap();
    machine.step().expect("one cycle");
    assert_eq!(machine.state.get_r(3), Ok(0xffff_ffff));
}

#[test]
fn store_word_then_load_word() {
    // sw x2, 0(x1); lw x3, 0(x1)
    let mut machine = machine_with(&[(0, 0x0020_a023), (4, 0x0000_a183)]);
    machine.state.set_r(1, 0x100).unwrap();
    machine.state.set_r(2, 0xdead_beef).unwrap();
    machine.step().expect("store");
    machine.step().expect("load");
    assert_eq!(machine.state.get_r(3), Ok(0xdead_beef));
    assert_eq!(machine.state.get_mem_u8(0x100), Ok(0xef));
    assert_eq!(machine.state.get_mem_u8(0x101), Ok(0xbe));
    assert_eq!(machine.state.get_mem_u8(0x102), Ok(0xad));
    assert_eq!(machine.state.get_mem_u8(0x103), Ok(0xde));
    assert_eq!(machine.state.get_pc(), 8);
}

#[test]
fn taken_branch_redirects_pc() {
    // beq x1, x2, +8 at 0x40
    let mut machine = machine_with(&[(0x40, 0x0020_8463)]);
    machine.state.set_r(1, 7).unwrap();
    machine.state.set_r(2, 7).unwrap();
    machine.state.set_pc(0x40);
    machine.step().expect("one cycle");
    assert_eq!(machine.state.get_pc(), 0x48);
}

#[test]
fn branch_not_taken_falls_through() {
    let mut machine = machine_with(&[(0x40, 0x0020_8463)]);
    machine.state.set_r(1, 7).unwrap();
    machine.state.set_r(2, 8).unwrap();
    machine.state.set_pc(0x40);
    machine.step().expect("one cycle");
    assert_eq!(machine.state.get_pc(), 0x44);
}

#[test]
fn ecall_suspends_with_registers_intact() {
    let mut machine = machine_with(&[(0, 0x0000_0073)]);
    machine.state.set_r(3, 1).unwrap();
    machine.state.set_r(10, 0).unwrap();
    machine.state.set_r(17, 93).unwrap();
    let outcome = machine.run();
    assert_eq!(outcome, Err(Error::Execute(InstError::Suspend)));
    assert_eq!(machine.state.get_r(3), Ok(1));
    assert_eq!(machine.state.get_r(10), Ok(0));
    assert_eq!(machine.state.get_r(17), Ok(93));
    assert_eq!(machine.state.get_pc(), 0);
    assert!(machine.passed(outcome));
}
