//! A register-based bytecode virtual machine for the extended BPF
//! instruction set: a bit-exact instruction decoder and a
//! fetch-decode-execute interpreter with a checked memory model.
//!
//! - [`types`] decodes and encodes 64-bit instruction words, and owns the
//!   numeric encoding constants.
//! - [`machine`] is the register/stack execution model, with the exact
//!   mathematical semantics of one fetch-decode-execute step.
//! - [`interpret`] runs whole programs against a caller-supplied helper
//!   table, with a contract tying every outcome to the step semantics.

pub mod interpret;
pub mod machine;
pub mod types;
