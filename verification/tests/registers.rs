use crisp_vm::machine::registers::{Error, Register};

#[test]
fn new_register_holds_initial_value() {
    let r = Register::new(0xdead_beef, true);
    assert_eq!(r.get(), 0xdead_beef);
}

#[test]
fn writeable_register_takes_a_write() {
    let mut r = Register::new(1, true);
    assert_eq!(r.set(2), Ok(()));
    assert_eq!(r.get(), 2);
    assert_eq!(r.set(0xffff_ffff), Ok(()));
    assert_eq!(r.get(), 0xffff_ffff);
}

#[test]
fn hardwired_register_refuses_a_write() {
    let mut r = Register::new(0, false);
    assert_eq!(r.set(7), Err(Error::Illegal));
    assert_eq!(r.get(), 0);
}

#[test]
fn register_copies_are_independent() {
    let mut a = Register::new(5, true);
    let b = a;
    a.set(6).unwrap();
    assert_eq!(a.get(), 6);
    assert_eq!(b.get(), 5);
}
