//! The machine: architectural state plus the fetch/decode/execute cycle.
//!
//! A cycle fetches the word at the program counter, decodes it, executes
//! it and moves the program counter on.  [`step_spec`] is the model of one
//! cycle and [`run_spec`] of a whole run.

pub mod instructions;
pub mod registers;
pub mod state;
pub mod word;

use vstd::prelude::*;
use crate::machine::instructions::decode::{decode, decode_spec, lemma_decoded_is_well_formed};
use crate::machine::instructions::{
    exec_spec, lemma_exec_preserves_shape, lemma_well_formed_faults_in_memory, Inst, InstError,
};
use crate::machine::state::{State, StateView};
use crate::machine::word::{add32, wrapping_add32};

verus! {

/// Why a run of the machine ended.
#[derive(Debug, Clone, Copy, PartialEq, Eq)]
pub enum Error {
    /// The instruction fetch faulted.
    State(state::Error),
    /// The fetched word is no instruction.
    Decode(instructions::decode::Error),
    /// The instruction faulted, or asked to suspend.
    Execute(InstError),
}

impl From<state::Error> for Error {
    fn from(e: state::Error) -> (r: Error) {
        Error::State(e)
    }
}

impl vstd::std_specs::convert::FromSpecImpl<state::Error> for Error {
    open spec fn obeys_from_spec() -> bool {
        true
    }

    open spec fn from_spec(e: state::Error) -> Error {
        Error::State(e)
    }
}

impl From<instructions::decode::Error> for Error {
    fn from(e: instructions::decode::Error) -> (r: Error) {
        Error::Decode(e)
    }
}

impl vstd::std_specs::convert::FromSpecImpl<instructions::decode::Error> for Error {
    open spec fn obeys_from_spec() -> bool {
        true
    }

    open spec fn from_spec(e: instructions::decode::Error) -> Error {
        Error::Decode(e)
    }
}

impl From<InstError> for Error {
    fn from(e: InstError) -> (r: Error) {
        Error::Execute(e)
    }
}

impl vstd::std_specs::convert::FromSpecImpl<InstError> for Error {
    open spec fn obeys_from_spec() -> bool {
        true
    }

    open spec fn from_spec(e: InstError) -> Error {
        Error::Execute(e)
    }
}

/// The number of cycles after which [`Machine::run`] gives up on a program
/// that neither suspends nor faults.
pub const CYCLE_LIMIT: u64 = 0xffff_ffff_ffff_ffff;

/// The instruction at the program counter of `s`.
pub open spec fn fetch_decode_spec(s: StateView) -> Result<Inst, Error> {
    match s.load32(s.pc) {
        Ok(word) => match decode_spec(word) {
            Ok(inst) => Ok(inst),
            Err(e) => Err(Error::Decode(e)),
        },
        Err(e) => Err(Error::State(e)),
    }
}

/// One cycle from `s`: the state after the instruction at the program
/// counter has executed and the program counter has moved on, by four or to
/// where the instruction redirected it.
pub open spec fn step_spec(s: StateView) -> Result<StateView, Error> {
    match fetch_decode_spec(s) {
        Ok(inst) => match exec_spec(inst, s) {
            Ok(effect) => Ok(
                effect.state.with_pc(
                    match effect.next_pc {
                        Some(target) => target,
                        None => add32(s.pc, 4),
                    },
                ),
            ),
            Err(e) => Err(Error::Execute(e)),
        },
        Err(e) => Err(e),
    }
}

/// A run of at most `cycles` cycles from `s`: the state that the run ends
/// in, and the error that ended it, if one did.  The cycle that fails
/// leaves the state as it found it.
pub open spec fn run_spec(s: StateView, cycles: nat) -> (StateView, Option<Error>)
    decreases cycles,
{
    if cycles == 0 {
        (s, None)
    } else {
        match step_spec(s) {
            Ok(t) => run_spec(t, (cycles - 1) as nat),
            Err(e) => (s, Some(e)),
        }
    }
}

/// The convention by which a compliance program reports success: it ends
/// with an `ECALL` while `gp` (`x3`) holds 1, `a0` (`x10`) holds 0 and `a7`
/// (`x17`) holds 93.
pub open spec fn passed_spec(s: StateView, outcome: Result<(), Error>) -> bool {
    &&& outcome == Err::<(), Error>(Error::Execute(InstError::Suspend))
    &&& s.regs[3] == 1
    &&& s.regs[10] == 0
    &&& s.regs[17] == 93
}

/// A cycle keeps the state well-formed and the memory at its size.
pub proof fn lemma_step_preserves_shape(s: StateView)
    requires
        s.wf(),
    ensures
        step_spec(s) matches Ok(t) ==> t.wf() && t.mem.len() == s.mem.len(),
{
    if let Ok(inst) = fetch_decode_spec(s) {
        lemma_exec_preserves_shape(inst, s);
    }
}

/// Throughout a run, however long, `x0` reads as zero and the memory keeps
/// its size.
pub proof fn lemma_run_preserves_shape(s: StateView, cycles: nat)
    requires
        s.wf(),
    ensures
        run_spec(s, cycles).0.wf(),
        run_spec(s, cycles).0.read_reg(0) == Ok::<u32, state::Error>(0),
        run_spec(s, cycles).0.mem.len() == s.mem.len(),
    decreases cycles,
{
    if cycles > 0 {
        lemma_step_preserves_shape(s);
        if let Ok(t) = step_spec(s) {
            lemma_run_preserves_shape(t, (cycles - 1) as nat);
        }
    }
}

/// The ways a cycle can fail: the fetch or the instruction reached outside
/// the memory, the fetched word is no instruction, or the instruction was
/// an `ECALL`.  A register fault cannot arise from a decoded instruction.
pub proof fn lemma_step_failures(s: StateView)
    ensures
        step_spec(s) matches Err(e) ==> {
            ||| e == Error::State(state::Error::InvalidMemoryAccess)
            ||| e == Error::Decode(instructions::decode::Error::UnknownInst)
            ||| e == Error::Execute(InstError::Suspend)
            ||| e == Error::Execute(InstError::State(state::Error::InvalidMemoryAccess))
        },
{
    if let Ok(word) = s.load32(s.pc) {
        lemma_decoded_is_well_formed(word);
        if let Ok(inst) = decode_spec(word) {
            lemma_well_formed_faults_in_memory(inst, s);
        }
    }
}

/// A hart together with its memory.
pub struct Machine<const M: usize> {
    /// The architectural state, open to inspection after a run.
    pub state: State<M>,
}

impl<const M: usize> Machine<M> {
    /// A machine that starts from `state`.
    pub fn new(state: State<M>) -> (m: Self)
        ensures
            m.state == state,
    {
        Machine { state }
    }

    /// Fetches the word at the program counter and decodes it.
    pub fn fetch_decode(&self) -> (r: Result<Inst, Error>)
        ensures
            r == fetch_decode_spec(self.state@),
    {
        let word = match self.state.get_mem_u32(self.state.get_pc()) {
            Ok(word) => word,
            Err(e) => { return Err(Error::from(e)); },
        };
        match decode(word) {
            Ok(inst) => Ok(inst),
            Err(e) => Err(Error::from(e)),
        }
    }

    /// The values of `x1` to `x31`, in this order, for a register dump.
    pub fn log_r(&self) -> (regs: Vec<u32>)
        ensures
            regs@ == self.state@.regs.subrange(1, 32),
    {
        let mut regs: Vec<u32> = Vec::new();
        let mut i: u8 = 0;
        while i < 31
            invariant
                i <= 31,
                regs@.len() == i,
                forall|j: int| 0 <= j < i ==> regs@[j] == self.state@.regs[j + 1],
            decreases 31 - i,
        {
            let value = self.state.get_r(i + 1);
            regs.push(value.unwrap());
            i += 1;
        }
        proof {
            self.state.lemma_view_wf();
        }
        assert(regs@ =~= self.state@.regs.subrange(1, 32));
        regs
    }

    /// Whether a run that ended with `outcome` and left the machine as it
    /// is now counts as a pass: the run was suspended by an `ECALL` with
    /// `gp == 1`, `a0 == 0` and `a7 == 93`.
    pub fn passed(&self, outcome: Result<(), Error>) -> (pass: bool)
        ensures
            pass == passed_spec(self.state@, outcome),
    {
        match outcome {
            Err(Error::Execute(InstError::Suspend)) => {
                let gp = self.state.get_r(3);
                let a0 = self.state.get_r(10);
                let a7 = self.state.get_r(17);
                gp.unwrap() == 1 && a0.unwrap() == 0 && a7.unwrap() == 93
            },
            _ => false,
        }
    }

    /// Runs one cycle: fetch, decode, execute, and move the program
    /// counter on.  A cycle that fails leaves the state as it was.
    pub fn step(&mut self) -> (r: Result<(), Error>)
        ensures
            match step_spec(old(self).state@) {
                Ok(t) => r is Ok && final(self).state@ == t,
                Err(e) => r == Err::<(), Error>(e) && final(self).state@ == old(self).state@,
            },
    {
        let pc = self.state.get_pc();
        let inst = self.fetch_decode()?;
        match inst.execute(&mut self.state) {
            Ok(Some(target)) => {
                self.state.set_pc(target);
                Ok(())
            },
            Ok(None) => {
                self.state.set_pc(wrapping_add32(pc, 4));
                Ok(())
            },
            Err(e) => Err(Error::from(e)),
        }
    }

    /// Runs cycle after cycle until one fails, and returns its error: the
    /// suspension that an `ECALL` asks for, an unknown instruction, or a
    /// fault.  The state is then the one that the failing cycle found.
    ///
    /// A program that runs for [`CYCLE_LIMIT`] cycles without any of these
    /// is abandoned with `Ok(())`.
    pub fn run(&mut self) -> (r: Result<(), Error>)
        ensures
            final(self).state@ == run_spec(old(self).state@, CYCLE_LIMIT as nat).0,
            r == match run_spec(old(self).state@, CYCLE_LIMIT as nat).1 {
                Some(e) => Err::<(), Error>(e),
                None => Ok::<(), Error>(()),
            },
    {
        let mut remaining: u64 = CYCLE_LIMIT;
        while remaining > 0
            invariant
                run_spec(self.state@, remaining as nat) == run_spec(
                    old(self).state@,
                    CYCLE_LIMIT as nat,
                ),
            decreases remaining,
        {
            match self.step() {
                Ok(()) => {},
                Err(e) => { return Err(e); },
            }
            remaining -= 1;
        }
        Ok(())
    }
}

} // verus!
