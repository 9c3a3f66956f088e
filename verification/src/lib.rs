//! A polyglot smart-contract execution core: EVM bytecode decoding, gas
//! accounting, a journaled state database, and a call-frame machine with
//! full Ethereum transaction semantics, together with the three-tier IR
//! builder surface that decouples bytecode front ends from code generation.
//!
//! Two reductions hold throughout. The WASM front end is an external
//! collaborator whose decoder and lowering pipeline live outside this
//! crate; here a WASM module is refused by contract. And gas is priced
//! on the warm-access schedule of the table: cold-access surcharges, the
//! SSTORE set/reset schedule and gas refunds are not modelled (a
//! successful result always reports zero refunded gas), and the
//! transaction access list is carried but has no gas effect.

pub mod backend;
pub mod gas;
pub mod journal;
pub mod keccak;
pub mod laws;
pub mod memory;
pub mod primitives;
pub mod program;
pub mod result;
pub mod runtime;
pub mod stack;
pub mod symbols;
pub mod u256;
pub mod vm;

use vstd::prelude::*;

verus! {

/// Name of the entry-point symbol of a compiled artifact.
pub const MAIN_ENTRYPOINT: &'static str = "main";

/// Version byte of a KZG versioned hash.
pub const VERSIONED_HASH_VERSION_KZG: u8 = 0x01;

/// Target number of blobs per block.
pub const TARGET_BLOB_NUMBER_PER_BLOCK: u64 = 3;

/// Largest number of blobs per block.
pub const MAX_BLOB_NUMBER_PER_BLOCK: u64 = 2 * TARGET_BLOB_NUMBER_PER_BLOCK;

/// Operand-stack capacity of a single frame.
pub const MAX_STACK_SIZE: usize = 1024;

/// Depth bound for nested calls.
pub const CALL_STACK_LIMIT: usize = 1024;

/// How far back a block-hash lookup may reach.
pub const BLOCK_HASH_HISTORY: u64 = 256;

} // verus!
