//! Resource-accounting core of an Ethereum Virtual Machine: the operand
//! stack, the volatile byte-addressable memory, and the gas meter that
//! together enforce the numeric limits and charges bounding contract
//! execution.
//!
//! The instruction-dispatch loop, opcode decoding, and the persistent
//! account/storage backend are external collaborators; this crate only
//! provides the value-holding components they compose.

pub mod gas;
pub mod memory;
pub mod opcodes;
pub mod stack;
pub mod word;
