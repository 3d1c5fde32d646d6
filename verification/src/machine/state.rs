//! The architectural state: program counter, register file and memory.
//!
//! The state is described by its view, a [`StateView`], and every operation
//! is specified as a function on views.  Register `x0` is hardwired to
//! zero; memory is a fixed array of `M` bytes, addressed linearly from 0 and
//! laid out little-endian.

use vstd::prelude::*;
use crate::machine::word::{
    byte_of, extract_byte, le_u16, le_u32, lemma_bytes_compose, u16_from_le, u32_from_le,
};

verus! {

/// Faults raised by the state's accessors.
#[derive(Debug, Clone, Copy, PartialEq, Eq)]
pub enum Error {
    /// A register index above 31 was named.
    InvalidRegister,
    /// Some byte of a memory access lies outside the memory.
    InvalidMemoryAccess,
}

/// The mathematical model of a machine state.
pub struct StateView {
    /// The program counter.
    pub pc: u32,
    /// The register file `x0..x31`; entry 0 is always zero.
    pub regs: Seq<u32>,
    /// The memory, one entry per byte.
    pub mem: Seq<u8>,
}

impl StateView {
    /// The register file has 32 entries and `x0` holds zero.
    pub open spec fn wf(self) -> bool {
        &&& self.regs.len() == 32
        &&& self.regs[0] == 0
    }

    /// The state after power-up with `image` loaded at address 0 of a
    /// memory of `size` bytes: everything else is zero.
    pub open spec fn boot(image: Seq<u8>, size: nat) -> StateView {
        StateView {
            pc: 0,
            regs: Seq::new(32, |i: int| 0u32),
            mem: Seq::new(
                size,
                |i: int|
                    if i < image.len() {
                        image[i]
                    } else {
                        0u8
                    },
            ),
        }
    }

    /// This state with the program counter replaced.
    pub open spec fn with_pc(self, pc: u32) -> StateView {
        StateView { pc, ..self }
    }

    /// The value read from register `name`.
    pub open spec fn read_reg(self, name: u8) -> Result<u32, Error> {
        if name >= 32 {
            Err(Error::InvalidRegister)
        } else {
            Ok(self.regs[name as int])
        }
    }

    /// The state after writing `value` to register `name`.  A write to `x0`
    /// is accepted and changes nothing.
    pub open spec fn write_reg(self, name: u8, value: u32) -> Result<StateView, Error> {
        if name >= 32 {
            Err(Error::InvalidRegister)
        } else if name == 0 {
            Ok(self)
        } else {
            Ok(StateView { regs: self.regs.update(name as int, value), ..self })
        }
    }

    /// Whether the `len` bytes starting at `addr` all lie inside the memory.
    pub open spec fn accessible(self, addr: u32, len: nat) -> bool {
        addr + len <= self.mem.len()
    }

    /// The byte at `addr`.
    pub open spec fn load8(self, addr: u32) -> Result<u8, Error> {
        if self.accessible(addr, 1) {
            Ok(self.mem[addr as int])
        } else {
            Err(Error::InvalidMemoryAccess)
        }
    }

    /// The little-endian halfword at `addr`.
    pub open spec fn load16(self, addr: u32) -> Result<u16, Error> {
        if self.accessible(addr, 2) {
            Ok(le_u16(self.mem[addr as int], self.mem[addr + 1]))
        } else {
            Err(Error::InvalidMemoryAccess)
        }
    }

    /// The little-endian word at `addr`.
    pub open spec fn load32(self, addr: u32) -> Result<u32, Error> {
        if self.accessible(addr, 4) {
            Ok(
                le_u32(
                    self.mem[addr as int],
                    self.mem[addr + 1],
                    self.mem[addr + 2],
                    self.mem[addr + 3],
                ),
            )
        } else {
            Err(Error::InvalidMemoryAccess)
        }
    }

    /// The state after storing the byte `val` at `addr`.
    pub open spec fn store8(self, addr: u32, val: u8) -> Result<StateView, Error> {
        if self.accessible(addr, 1) {
            Ok(StateView { mem: self.mem.update(addr as int, val), ..self })
        } else {
            Err(Error::InvalidMemoryAccess)
        }
    }

    /// The state after storing the halfword `val` at `addr`, low byte first.
    pub open spec fn store16(self, addr: u32, val: u16) -> Result<StateView, Error> {
        if self.accessible(addr, 2) {
            Ok(
                StateView {
                    mem: self.mem.update(addr as int, byte_of(val as u32, 0)).update(
                        addr + 1,
                        byte_of(val as u32, 1),
                    ),
                    ..self
                },
            )
        } else {
            Err(Error::InvalidMemoryAccess)
        }
    }

    /// The state after storing the word `val` at `addr`, low byte first.
    pub open spec fn store32(self, addr: u32, val: u32) -> Result<StateView, Error> {
        if self.accessible(addr, 4) {
            Ok(
                StateView {
                    mem: self.mem.update(addr as int, byte_of(val, 0)).update(
                        addr + 1,
                        byte_of(val, 1),
                    ).update(addr + 2, byte_of(val, 2)).update(addr + 3, byte_of(val, 3)),
                    ..self
                },
            )
        } else {
            Err(Error::InvalidMemoryAccess)
        }
    }
}

/// Register `x0` reads as zero in every state: a write to it is accepted and
/// discarded, and a write to any other register leaves it alone.
pub proof fn lemma_x0_reads_zero(s: StateView, name: u8, value: u32)
    requires
        s.wf(),
    ensures
        s.read_reg(0) == Ok::<u32, Error>(0),
        s.write_reg(0, value) == Ok::<StateView, Error>(s),
        s.write_reg(name, value) matches Ok(t) ==> t.wf() && t.read_reg(0) == Ok::<u32, Error>(0),
{
}

/// A register other than `x0` holds what was last written to it, and a
/// write does not disturb any other register, the program counter or the
/// memory.
pub proof fn lemma_register_write_then_read(s: StateView, name: u8, value: u32, other: u8)
    requires
        s.wf(),
        0 < name < 32,
    ensures
        s.write_reg(name, value) matches Ok(t) && {
            &&& t.read_reg(name) == Ok::<u32, Error>(value)
            &&& other != name ==> t.read_reg(other) == s.read_reg(other)
            &&& t.pc == s.pc
            &&& t.mem == s.mem
        },
{
}

/// What was stored is what is loaded back from the same address, for each
/// access width, whenever the store succeeds.
pub proof fn lemma_store_then_load(s: StateView, addr: u32, word: u32, half: u16, byte: u8)
    ensures
        s.store32(addr, word) matches Ok(t) ==> t.load32(addr) == Ok::<u32, Error>(word),
        s.store16(addr, half) matches Ok(t) ==> t.load16(addr) == Ok::<u16, Error>(half),
        s.store8(addr, byte) matches Ok(t) ==> t.load8(addr) == Ok::<u8, Error>(byte),
{
    lemma_bytes_compose(word);
    lemma_bytes_compose(half as u32);
}

/// A store changes the bytes it covers and nothing else: the memory keeps
/// its size, and the program counter and the registers their values.
pub proof fn lemma_store_frame(s: StateView, addr: u32, val: u32, other: int)
    requires
        0 <= other < s.mem.len(),
        !(addr <= other < addr + 4),
    ensures
        s.store32(addr, val) matches Ok(t) ==> {
            &&& t.mem.len() == s.mem.len()
            &&& t.mem[other] == s.mem[other]
            &&& t.pc == s.pc
            &&& t.regs == s.regs
        },
{
}

/// The little-endian law: a word in memory is made of the bytes at its
/// four addresses, the lowest address holding the least significant byte.
/// It is stated of the words whose four addresses are all 32-bit addresses.
pub proof fn lemma_load32_little_endian(s: StateView, addr: u32)
    requires
        s.load32(addr) is Ok,
        addr + 3 <= u32::MAX,
    ensures
        ({
            &&& s.load8(addr) matches Ok(b0)
            &&& s.load8((addr + 1) as u32) matches Ok(b1)
            &&& s.load8((addr + 2) as u32) matches Ok(b2)
            &&& s.load8((addr + 3) as u32) matches Ok(b3)
            &&& s.load32(addr) == Ok::<u32, Error>(
                (b0 as u32) | ((b1 as u32) << 8) | ((b2 as u32) << 16) | ((b3 as u32) << 24),
            )
        }),
{
}

/// The state of one hart with `M` bytes of memory.
pub struct State<const M: usize> {
    pc: u32,
    // The registers x1..x31; x0 is not stored.
    registers: [u32; 31],
    memory: Vec<u8>,
}

impl<const M: usize> View for State<M> {
    type V = StateView;

    closed spec fn view(&self) -> StateView {
        StateView { pc: self.pc, regs: seq![0u32] + self.registers@, mem: self.memory@ }
    }
}

impl<const M: usize> Default for State<M> {
    /// A state with every register, the program counter and all `M` bytes
    /// of memory zero.
    fn default() -> (s: Self)
        ensures
            s@ == StateView::boot(Seq::empty(), M as nat),
    {
        let s = State { pc: 0, registers: [0u32; 31], memory: vec![0u8; M] };
        assert(s@.regs =~= Seq::new(32, |i: int| 0u32));
        assert(s@.mem =~= StateView::boot(Seq::empty(), M as nat).mem);
        s
    }
}

impl<const M: usize> State<M> {
    #[verifier::type_invariant]
    spec fn inv(&self) -> bool {
        self.memory.len() == M
    }

    /// The view of a state is always well-formed.
    pub proof fn lemma_view_wf(self)
        ensures
            self@.wf(),
    {
    }

    /// Builds a state whose memory holds `image` from address 0 onwards and
    /// zeros after it.  An image longer than the memory is rejected.
    pub fn from_bytes(image: &[u8]) -> (r: Result<Self, Error>)
        ensures
            image@.len() <= M ==> r is Ok && r->Ok_0@ == StateView::boot(image@, M as nat),
            image@.len() > M ==> r == Err::<Self, Error>(Error::InvalidMemoryAccess),
    {
        if image.len() > M {
            return Err(Error::InvalidMemoryAccess);
        }
        let mut memory = vec![0u8; M];
        let mut i: usize = 0;
        while i < image.len()
            invariant
                i <= image.len() <= M,
                memory.len() == M,
                forall|j: int| 0 <= j < i ==> memory[j] == image[j],
                forall|j: int| i <= j < M ==> memory[j] == 0u8,
            decreases image.len() - i,
        {
            memory[i] = image[i];
            i += 1;
        }
        let s = State { pc: 0, registers: [0u32; 31], memory };
        assert(s@.regs =~= Seq::new(32, |i: int| 0u32));
        assert(s@.mem =~= StateView::boot(image@, M as nat).mem);
        Ok(s)
    }

    /// Reads the program counter.
    pub fn get_pc(&self) -> (pc: u32)
        ensures
            pc == self@.pc,
    {
        self.pc
    }

    /// Sets the program counter.  No alignment is asked of `value`.
    pub fn set_pc(&mut self, value: u32)
        ensures
            final(self)@ == old(self)@.with_pc(value),
    {
        proof {
            use_type_invariant(&*self);
        }
        self.pc = value;
    }

    /// Reads register `name`.  `x0` reads as zero; an index above 31 is an
    /// [`Error::InvalidRegister`].
    pub fn get_r(&self, name: u8) -> (r: Result<u32, Error>)
        ensures
            self@.wf(),
            r == self@.read_reg(name),
            name == 0 ==> r == Ok::<u32, Error>(0),
    {
        if name == 0 {
            Ok(0)
        } else if name > 31 {
            Err(Error::InvalidRegister)
        } else {
            Ok(self.registers[(name - 1) as usize])
        }
    }

    /// Writes `value` to register `name`.  A write to `x0` is discarded
    /// without complaint; an index above 31 is an
    /// [`Error::InvalidRegister`] and changes nothing.
    pub fn set_r(&mut self, name: u8, value: u32) -> (r: Result<(), Error>)
        ensures
            final(self)@.wf(),
            match old(self)@.write_reg(name, value) {
                Ok(s) => r is Ok && final(self)@ == s,
                Err(e) => r == Err::<(), Error>(e) && final(self)@ == old(self)@,
            },
    {
        proof {
            use_type_invariant(&*self);
        }
        if name == 0 {
            Ok(())
        } else if name > 31 {
            Err(Error::InvalidRegister)
        } else {
            self.registers[(name - 1) as usize] = value;
            assert(self@.regs =~= old(self)@.regs.update(name as int, value));
            Ok(())
        }
    }

    /// Whether the `len` bytes from `addr` on all lie inside the memory.
    fn accessible(&self, addr: u32, len: usize) -> (ok: bool)
        requires
            1 <= len <= 4,
        ensures
            self@.mem.len() == M,
            ok == self@.accessible(addr, len as nat),
    {
        proof {
            use_type_invariant(self);
        }
        let size = self.memory.len();
        let a = addr as usize;
        a < size && size - a >= len
    }

    /// Reads the byte at `addr`, or reports
    /// [`Error::InvalidMemoryAccess`] when `addr` is not below `M`.
    pub fn get_mem_u8(&self, addr: u32) -> (r: Result<u8, Error>)
        ensures
            self@.mem.len() == M,
            r == self@.load8(addr),
    {
        if self.accessible(addr, 1) {
            Ok(self.memory[addr as usize])
        } else {
            Err(Error::InvalidMemoryAccess)
        }
    }

    /// Reads the little-endian halfword at `base_addr`, which need not be
    /// aligned.  Both bytes must lie below `M`.
    pub fn get_mem_u16(&self, base_addr: u32) -> (r: Result<u16, Error>)
        ensures
            self@.mem.len() == M,
            r == self@.load16(base_addr),
    {
        if self.accessible(base_addr, 2) {
            let a = base_addr as usize;
            Ok(u16_from_le(self.memory[a], self.memory[a + 1]))
        } else {
            Err(Error::InvalidMemoryAccess)
        }
    }

    /// Reads the little-endian word at `base_addr`, which need not be
    /// aligned.  All four bytes must lie below `M`.
    pub fn get_mem_u32(&self, base_addr: u32) -> (r: Result<u32, Error>)
        ensures
            self@.mem.len() == M,
            r == self@.load32(base_addr),
    {
        if self.accessible(base_addr, 4) {
            let a = base_addr as usize;
            Ok(
                u32_from_le(
                    self.memory[a],
                    self.memory[a + 1],
                    self.memory[a + 2],
                    self.memory[a + 3],
                ),
            )
        } else {
            Err(Error::InvalidMemoryAccess)
        }
    }

    /// Stores `val` at `addr`.  On [`Error::InvalidMemoryAccess`] nothing
    /// is written.
    pub fn set_mem_u8(&mut self, addr: u32, val: u8) -> (r: Result<(), Error>)
        ensures
            final(self)@.mem.len() == M,
            match old(self)@.store8(addr, val) {
                Ok(s) => r is Ok && final(self)@ == s,
                Err(e) => r == Err::<(), Error>(e) && final(self)@ == old(self)@,
            },
    {
        if self.accessible(addr, 1) {
            self.memory[addr as usize] = val;
            Ok(())
        } else {
            Err(Error::InvalidMemoryAccess)
        }
    }

    /// Stores `val` at `base_addr`, low byte first.  On
    /// [`Error::InvalidMemoryAccess`] nothing is written.
    pub fn set_mem_u16(&mut self, base_addr: u32, val: u16) -> (r: Result<(), Error>)
        ensures
            final(self)@.mem.len() == M,
            match old(self)@.store16(base_addr, val) {
                Ok(s) => r is Ok && final(self)@ == s,
                Err(e) => r == Err::<(), Error>(e) && final(self)@ == old(self)@,
            },
    {
        if self.accessible(base_addr, 2) {
            let a = base_addr as usize;
            let w = val as u32;
            self.memory[a] = extract_byte(w, 0);
            self.memory[a + 1] = extract_byte(w, 1);
            Ok(())
        } else {
            Err(Error::InvalidMemoryAccess)
        }
    }

    /// Stores `val` at `base_addr`, low byte first.  On
    /// [`Error::InvalidMemoryAccess`] nothing is written.
    pub fn set_mem_u32(&mut self, base_addr: u32, val: u32) -> (r: Result<(), Error>)
        ensures
            final(self)@.mem.len() == M,
            match old(self)@.store32(base_addr, val) {
                Ok(s) => r is Ok && final(self)@ == s,
                Err(e) => r == Err::<(), Error>(e) && final(self)@ == old(self)@,
            },
    {
        if self.accessible(base_addr, 4) {
            let a = base_addr as usize;
            self.memory[a] = extract_byte(val, 0);
            self.memory[a + 1] = extract_byte(val, 1);
            self.memory[a + 2] = extract_byte(val, 2);
            self.memory[a + 3] = extract_byte(val, 3);
            Ok(())
        } else {
            Err(Error::InvalidMemoryAccess)
        }
    }
}

} // verus!
