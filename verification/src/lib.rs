//! A minimal on-chain price-oracle emulator: a fixed-layout binary account
//! format, an instruction codec, and a dispatcher that a deterministic
//! single-threaded host runtime invokes to create and mutate oracle account
//! state.
//!
//! The host runtime hands the dispatcher the ordered account list named by an
//! instruction, the raw instruction bytes, and the current slot counter; the
//! dispatcher decodes the opcode and payload and mutates the target account's
//! byte buffer in place. Every record layout, the instruction codec, and both
//! state transitions are specified and verified here; the host itself (which
//! owns the buffers and performs signing and ownership checks) stays outside.

pub mod error;
pub mod instruction;
pub mod pack;
pub mod processor;
pub mod state;
pub mod wire;
