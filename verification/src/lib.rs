//! A user-mode interpreter for the RV32I base integer instruction set.
//!
//! The crate is organised around three parts: the architectural state
//! ([`machine::state`]), the instruction decoder and executor
//! ([`machine::instructions`]) and the fetch/decode/execute loop
//! ([`machine::Machine`]).  Every function is verified against a
//! mathematical model of the machine: a state is modelled by a
//! [`machine::state::StateView`], decoding by
//! [`machine::instructions::decode::decode_spec`], one instruction by
//! [`machine::instructions::exec_spec`] and a run by [`machine::run_spec`].

#![allow(unused_imports)]

pub mod machine;
