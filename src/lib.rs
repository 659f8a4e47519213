//! Instruction building and dispatch for calling a constant-product AMM
//! program from another on-chain program.
//!
//! * `codec`: fixed-width payloads, an 8-byte discriminator then
//!   little-endian `u64` fields.
//! * `instructions`: the downstream program's five instructions, each with its
//!   discriminator, account access classes, payload and cross-program call.
//! * `processor`: inbound calls routed by a leading opcode byte, with their
//!   account lists and payloads validated, then forwarded downstream.
//! * `states`: read views over the downstream program's persisted records.
//! * `host`: the runtime items this library relies on.
use vstd::prelude::*;

pub mod error;
pub mod host;
pub mod codec;
pub mod instructions;
pub mod processor;
pub mod states;

verus! {

/// Address of the downstream constant-product AMM program.
pub const ID: [u8; 32] = [
    169, 42, 90, 139, 79, 41, 89, 82, 132, 37, 80, 170, 147, 253, 91, 149, 181, 172, 230, 168, 235,
    146, 12, 147, 148, 46, 67, 105, 12, 32, 236, 115,
];

} // verus!
