//! The execution runtime: the per-frame context (memory, operand stack,
//! gas counter, return-data buffer) and the interpreter that carries out
//! the per-opcode contract of the lowering — charge static gas, check
//! the stack, charge dynamic gas, perform the operation — against the
//! journaled state.

use vstd::prelude::*;
use crate::gas;
use crate::journal::{Account, JournaledState};
use crate::keccak::keccak256;
use crate::memory::Memory;
use crate::primitives::{Address, Log, SpecId};
use crate::program::Program;
use crate::result::{HaltReason, OutOfGasError, SuccessReason};
use crate::stack::Stack;
use crate::u256::U256;

verus! {

/// Memory may grow to at most this many bytes; a touched range ending
/// past it halts with a memory-limit failure.
pub const MEMORY_SIZE_LIMIT: u64 = 0xFFFF_FF00;

/// One contract activation's identity: its code, who called it, with
/// what value and input.
#[derive(Debug, Clone, PartialEq, Eq)]
pub struct Contract {
    /// The code to run.
    pub code: Vec<u8>,
    /// The hash of the code, where the caller knows it.
    pub hash: Option<U256>,
    /// The executing address (storage and balance context).
    pub address: Address,
    /// The calling address.
    pub caller: Address,
    /// The value passed with the call.
    pub call_value: U256,
    /// The input data.
    pub input: Vec<u8>,
}

/// A frame to execute: a contract activation at a depth, with a static
/// flag and a gas limit.
#[derive(Debug, Clone, PartialEq, Eq)]
pub struct Frame {
    pub contract: Contract,
    pub depth: usize,
    pub is_static: bool,
    pub is_eof_init: bool,
    pub gas_limit: u64,
}

/// The block half of the environment.
#[derive(Debug, Clone, PartialEq, Eq)]
pub struct BlockEnv {
    pub number: u64,
    pub timestamp: u64,
    pub coinbase: Address,
    pub basefee: U256,
    pub prevrandao: U256,
    pub gaslimit: u64,
    pub chainid: u64,
    pub blobbasefee: U256,
    pub blobhashes: Vec<U256>,
    /// Hashes of recent blocks, for `BLOCKHASH`.
    pub block_hashes: Vec<BlockHashEntry>,
}

/// The hash of one past block.
#[derive(Debug, Clone, Copy, PartialEq, Eq)]
pub struct BlockHashEntry {
    pub number: u64,
    pub hash: U256,
}

/// Where a transaction is directed.
#[derive(Debug, Clone, Copy, PartialEq, Eq, Structural)]
pub enum TxKind {
    /// A call to an existing account.
    Call(Address),
    /// A contract creation.
    Create,
}

/// One access-list entry of a transaction: an address and the storage
/// keys declared warm for it. This runtime prices every access warm, so
/// the list carries no gas effect here.
#[derive(Debug, Clone, PartialEq, Eq)]
pub struct AccessListItem {
    pub address: Address,
    pub storage_keys: Vec<U256>,
}

/// The transaction half of the environment.
#[derive(Debug, Clone, PartialEq, Eq)]
pub struct TxEnv {
    pub caller: Address,
    pub gas_limit: u64,
    pub gas_price: U256,
    pub value: U256,
    pub data: Vec<u8>,
    pub transact_to: TxKind,
    pub access_list: Vec<AccessListItem>,
}

/// The execution environment of one transaction.
#[derive(Debug, Clone, PartialEq, Eq)]
pub struct Env {
    pub block: BlockEnv,
    pub tx: TxEnv,
}

/// What a frame hands back: success with output, an explicit revert with
/// output, or a halt that consumed all gas.
#[derive(Debug, Clone, PartialEq, Eq)]
pub enum FrameOutcome {
    Success { reason: SuccessReason, gas_used: u64, output: Vec<u8> },
    Revert { gas_used: u64, output: Vec<u8> },
    Halt { reason: HaltReason, gas_used: u64 },
}

impl FrameOutcome {
    /// The gas the frame consumed, whatever the outcome.
    pub open spec fn spec_gas_used(self) -> u64 {
        match self {
            FrameOutcome::Success { gas_used, .. } => gas_used,
            FrameOutcome::Revert { gas_used, .. } => gas_used,
            FrameOutcome::Halt { gas_used, .. } => gas_used,
        }
    }
}

/// The per-frame state the compiled artifact works on: its contract,
/// memory, operand stack, gas and return-data buffer.
#[derive(Debug, Clone, PartialEq, Eq)]
pub struct RuntimeContext {
    pub contract: Contract,
    pub depth: usize,
    pub is_static: bool,
    pub is_eof_init: bool,
    pub spec_id: SpecId,
    pub gas_limit: u64,
    pub memory: Memory,
    pub stack: Stack,
    pub return_data: Vec<u8>,
}

impl RuntimeContext {
    /// A frame's state is ready to run.
    pub open spec fn well_formed(self) -> bool {
        &&& self.stack.well_formed()
        &&& self.memory.well_formed()
        &&& self.memory@.len() <= MEMORY_SIZE_LIMIT + 31
        &&& self.gas_limit <= i64::MAX
        &&& self.contract.code@.len() <= usize::MAX - 33
    }

    /// A fresh context for one frame: empty memory, empty stack, empty
    /// return data, the full gas limit.
    pub fn new(
        contract: Contract,
        depth: usize,
        is_static: bool,
        is_eof_init: bool,
        spec_id: SpecId,
        gas_limit: u64,
    ) -> (r: RuntimeContext)
        requires
            gas_limit <= i64::MAX,
            contract.code@.len() <= usize::MAX - 33,
        ensures
            r.well_formed(),
            r.contract == contract,
            r.depth == depth,
            r.is_static == is_static,
            r.is_eof_init == is_eof_init,
            r.spec_id == spec_id,
            r.gas_limit == gas_limit,
            r.stack@.len() == 0,
            r.memory@.len() == 0,
            r.return_data@.len() == 0,
    {
        RuntimeContext {
            contract,
            depth,
            is_static,
            is_eof_init,
            spec_id,
            gas_limit,
            memory: Memory::new(),
            stack: Stack::new(),
            return_data: Vec::new(),
        }
    }
}

/// Pay `cost` out of the counter; refuse without paying when it does not
/// cover.
fn charge(gas_counter: &mut i64, cost: i64) -> (r: bool)
    requires
        0 <= cost,
        0 <= *old(gas_counter),
    ensures
        r ==> *final(gas_counter) == *old(gas_counter) - cost && *final(gas_counter) >= 0,
        !r ==> *final(gas_counter) == *old(gas_counter) && *old(gas_counter) < cost,
{
    if *gas_counter >= cost {
        *gas_counter = *gas_counter - cost;
        true
    } else {
        false
    }
}

/// A word for a boolean: one for true, zero for false.
fn bool_word(b: bool) -> (r: U256)
    ensures
        r.as_nat() == (if b {
            1nat
        } else {
            0nat
        }),
{
    if b {
        U256::one()
    } else {
        U256::zero()
    }
}

/// The quadratic memory cost grows with the size.
proof fn lemma_memory_cost_monotonic(a: int, b: int)
    requires
        0 <= a <= b,
    ensures
        gas::memory_cost(a) <= gas::memory_cost(b),
{
    vstd::arithmetic::div_mod::lemma_div_is_ordered(a + 31, b + 31, 32);
    let wa = gas::words_of(a);
    let wb = gas::words_of(b);
    assert(wa * wa <= wb * wb) by (nonlinear_arith)
        requires
            0 <= wa <= wb,
    ;
    vstd::arithmetic::div_mod::lemma_div_is_ordered(wa * wa, wb * wb, 512);
}

/// Charge the expansion for a memory access at `[offset, offset + len)`
/// and grow the buffer; every memory-touching opcode goes through this
/// before it reads or writes, so the expansion gas up to the covering
/// 32-byte multiple is always charged before the access, and afterwards
/// the size is a 32-byte multiple covering the range. An offset or end
/// outside 64 bits is an invalid-operand failure; an end past the memory
/// limit a memory-limit failure; a shortfall a memory out-of-gas.
pub fn charge_memory(memory: &mut Memory, gas_counter: &mut i64, offset: U256, len: U256) -> (r:
    Result<usize, HaltReason>)
    requires
        old(memory).well_formed(),
        old(memory)@.len() <= MEMORY_SIZE_LIMIT + 31,
        0 <= *old(gas_counter),
    ensures
        final(memory).well_formed(),
        final(memory)@.len() <= MEMORY_SIZE_LIMIT + 31,
        final(memory)@.len() >= old(memory)@.len(),
        forall|j: int| 0 <= j < old(memory)@.len() ==> final(memory)@[j] == old(memory)@[j],
        forall|j: int|
            old(memory)@.len() <= j < final(memory)@.len() ==> final(memory)@[j] == 0,
        0 <= *final(gas_counter) <= *old(gas_counter),
        r matches Ok(p) ==> len.as_nat() == 0 || (p == offset.as_nat() && offset.as_nat()
            + len.as_nat() <= final(memory)@.len()),
        r matches Err(h) ==> h is OutOfGas,
{
    if len.is_zero() {
        return Ok(0);
    }
    let (off64, off_fits) = offset.to_u64();
    let (len64, len_fits) = len.to_u64();
    if !off_fits || !len_fits {
        return Err(HaltReason::OutOfGas(OutOfGasError::InvalidOperand));
    }
    if off64 > u64::MAX - len64 {
        return Err(HaltReason::OutOfGas(OutOfGasError::InvalidOperand));
    }
    let end = off64 + len64;
    if end > MEMORY_SIZE_LIMIT {
        return Err(HaltReason::OutOfGas(OutOfGasError::MemoryLimit));
    }
    let current = memory.size();
    if (end as usize) > current {
        let cost = gas::memory_expansion_cost(current as u32, end as u32);
        proof {
            lemma_memory_cost_monotonic(current as int, end as int);
        }
        if !charge(gas_counter, cost) {
            return Err(HaltReason::OutOfGas(OutOfGasError::Memory));
        }
        memory.expand_to(end as usize);
        proof {
            assert(gas::words_of(end as int) * 32 <= end + 31);
        }
    }
    Ok(off64 as usize)
}

/// Read `len` bytes of `src` starting at `offset`, zero for every
/// position past its end, as the copy opcodes read their sources.
fn read_padded(src: &[u8], offset: U256, len: usize) -> (r: Vec<u8>)
    ensures
        r@.len() == len,
        forall|j: int|
            0 <= j < len ==> r@[j] == (if offset.as_nat() + j < src@.len() {
                src@[offset.as_nat() + j]
            } else {
                0u8
            }),
{
    let (off64, fits) = offset.to_u64();
    let n = src.len();
    let mut out: Vec<u8> = Vec::new();
    let mut j: usize = 0;
    while j < len
        invariant
            j <= len,
            n == src@.len(),
            out@.len() == j,
            fits ==> off64 == offset.as_nat(),
            !fits ==> offset.as_nat() > u64::MAX,
            forall|k: int|
                0 <= k < j ==> out@[k] == (if offset.as_nat() + k < src@.len() {
                    src@[offset.as_nat() + k]
                } else {
                    0u8
                }),
        decreases len - j,
    {
        if fits && (off64 as u128) + (j as u128) < (n as u128) {
            out.push(src[(off64 as usize) + j]);
        } else {
            out.push(0);
        }
        j = j + 1;
    }
    out
}

/// The number of bytes in the big-endian form of a word, for the `EXP`
/// meter.
fn word_byte_length(v: U256) -> (r: u64)
    ensures
        r == gas::byte_length(v.as_nat()),
        r <= 32,
{
    proof {
        lemma_pow256_is_pow2(32);
        crate::u256::lemma_word_modulus_pow2();
        crate::u256::lemma_word_bound(v);
        gas::lemma_byte_length_bound(v.as_nat(), 32);
    }
    let mut rest = v;
    let mut n: u64 = 0;
    while !rest.is_zero()
        invariant
            n + gas::byte_length(rest.as_nat()) == gas::byte_length(v.as_nat()),
            gas::byte_length(v.as_nat()) <= 32,
        decreases rest.as_nat(),
    {
        let next = rest.shr_evm(U256 { lo: 8, hi: 0 });
        proof {
            vstd::arithmetic::power2::lemma2_to64();
            assert(next.as_nat() == rest.as_nat() / 256);
            vstd::arithmetic::div_mod::lemma_div_decreases(rest.as_nat() as int, 256);
        }
        rest = next;
        n = n + 1;
    }
    n
}

/// 256 to a power is 2 to eight times that power.
proof fn lemma_pow256_is_pow2(k: nat)
    ensures
        gas::pow256(k) == vstd::arithmetic::power2::pow2(8 * k),
    decreases k,
{
    if k == 0 {
        vstd::arithmetic::power2::lemma2_to64();
    } else {
        lemma_pow256_is_pow2((k - 1) as nat);
        vstd::arithmetic::power2::lemma_pow2_adds(8, 8 * (k - 1) as nat);
        vstd::arithmetic::power2::lemma2_to64();
    }
}

/// Perform one opcode of the arithmetic, comparison and bitwise family
/// (`ADD` through `SAR`): pop its operands, charge its cost, push its
/// result. Division and modulus by zero yield zero; `ADDMOD` and
/// `MULMOD` with a zero modulus yield zero.
fn op_arith(op: u8, stack: &mut Stack, gas_counter: &mut i64) -> (r: Result<(), HaltReason>)
    requires
        0x01 <= op <= 0x1d,
        old(stack).well_formed(),
        0 <= *old(gas_counter),
    ensures
        final(stack).well_formed(),
        0 <= *final(gas_counter) <= *old(gas_counter),
        r is Ok ==> *final(gas_counter) < *old(gas_counter),
        r matches Err(h) ==> !(h is CallTooDeep),
{
    if op == 0x01 {
        // ADD
        if !charge(gas_counter, gas::ADD) {
            return Err(HaltReason::OutOfGas(OutOfGasError::Basic));
        }
        let a = match stack.pop() {
            Ok(v) => v,
            Err(h) => { return Err(h) },
        };
        let b = match stack.pop() {
            Ok(v) => v,
            Err(h) => { return Err(h) },
        };
        match stack.push(a.wrapping_add(b)) {
            Ok(_) => Ok(()),
            Err(h) => Err(h),
        }
    } else if op == 0x02 {
        // MUL
        if !charge(gas_counter, gas::MUL) {
            return Err(HaltReason::OutOfGas(OutOfGasError::Basic));
        }
        let a = match stack.pop() {
            Ok(v) => v,
            Err(h) => { return Err(h) },
        };
        let b = match stack.pop() {
            Ok(v) => v,
            Err(h) => { return Err(h) },
        };
        match stack.push(a.wrapping_mul(b)) {
            Ok(_) => Ok(()),
            Err(h) => Err(h),
        }
    } else if op == 0x03 {
        // SUB
        if !charge(gas_counter, gas::SUB) {
            return Err(HaltReason::OutOfGas(OutOfGasError::Basic));
        }
        let a = match stack.pop() {
            Ok(v) => v,
            Err(h) => { return Err(h) },
        };
        let b = match stack.pop() {
            Ok(v) => v,
            Err(h) => { return Err(h) },
        };
        match stack.push(a.wrapping_sub(b)) {
            Ok(_) => Ok(()),
            Err(h) => Err(h),
        }
    } else if op == 0x04 {
        // DIV
        if !charge(gas_counter, gas::DIV) {
            return Err(HaltReason::OutOfGas(OutOfGasError::Basic));
        }
        let a = match stack.pop() {
            Ok(v) => v,
            Err(h) => { return Err(h) },
        };
        let b = match stack.pop() {
            Ok(v) => v,
            Err(h) => { return Err(h) },
        };
        match stack.push(a.div_evm(b)) {
            Ok(_) => Ok(()),
            Err(h) => Err(h),
        }
    } else if op == 0x05 {
        // SDIV
        if !charge(gas_counter, gas::SDIV) {
            return Err(HaltReason::OutOfGas(OutOfGasError::Basic));
        }
        let a = match stack.pop() {
            Ok(v) => v,
            Err(h) => { return Err(h) },
        };
        let b = match stack.pop() {
            Ok(v) => v,
            Err(h) => { return Err(h) },
        };
        match stack.push(a.sdiv_evm(b)) {
            Ok(_) => Ok(()),
            Err(h) => Err(h),
        }
    } else if op == 0x06 {
        // MOD
        if !charge(gas_counter, gas::MOD) {
            return Err(HaltReason::OutOfGas(OutOfGasError::Basic));
        }
        let a = match stack.pop() {
            Ok(v) => v,
            Err(h) => { return Err(h) },
        };
        let b = match stack.pop() {
            Ok(v) => v,
            Err(h) => { return Err(h) },
        };
        match stack.push(a.rem_evm(b)) {
            Ok(_) => Ok(()),
            Err(h) => Err(h),
        }
    } else if op == 0x07 {
        // SMOD
        if !charge(gas_counter, gas::SMOD) {
            return Err(HaltReason::OutOfGas(OutOfGasError::Basic));
        }
        let a = match stack.pop() {
            Ok(v) => v,
            Err(h) => { return Err(h) },
        };
        let b = match stack.pop() {
            Ok(v) => v,
            Err(h) => { return Err(h) },
        };
        match stack.push(a.srem_evm(b)) {
            Ok(_) => Ok(()),
            Err(h) => Err(h),
        }
    } else if op == 0x08 {
        // ADDMOD
        if !charge(gas_counter, gas::ADDMOD) {
            return Err(HaltReason::OutOfGas(OutOfGasError::Basic));
        }
        let a = match stack.pop() {
            Ok(v) => v,
            Err(h) => { return Err(h) },
        };
        let b = match stack.pop() {
            Ok(v) => v,
            Err(h) => { return Err(h) },
        };
        let m = match stack.pop() {
            Ok(v) => v,
            Err(h) => { return Err(h) },
        };
        match stack.push(a.addmod_evm(b, m)) {
            Ok(_) => Ok(()),
            Err(h) => Err(h),
        }
    } else if op == 0x09 {
        // MULMOD
        if !charge(gas_counter, gas::MULMOD) {
            return Err(HaltReason::OutOfGas(OutOfGasError::Basic));
        }
        let a = match stack.pop() {
            Ok(v) => v,
            Err(h) => { return Err(h) },
        };
        let b = match stack.pop() {
            Ok(v) => v,
            Err(h) => { return Err(h) },
        };
        let m = match stack.pop() {
            Ok(v) => v,
            Err(h) => { return Err(h) },
        };
        match stack.push(a.mulmod_evm(b, m)) {
            Ok(_) => Ok(()),
            Err(h) => Err(h),
        }
    } else if op == 0x0a {
        // EXP: 10 plus 50 per byte of the exponent.
        let base = match stack.pop() {
            Ok(v) => v,
            Err(h) => { return Err(h) },
        };
        let exponent = match stack.pop() {
            Ok(v) => v,
            Err(h) => { return Err(h) },
        };
        let bytes = word_byte_length(exponent);
        let cost: i64 = 10 + 50 * (bytes as i64);
        if !charge(gas_counter, cost) {
            return Err(HaltReason::OutOfGas(OutOfGasError::Basic));
        }
        match stack.push(base.exp_evm(exponent)) {
            Ok(_) => Ok(()),
            Err(h) => Err(h),
        }
    } else if op == 0x0b {
        // SIGNEXTEND
        if !charge(gas_counter, gas::SIGNEXTEND) {
            return Err(HaltReason::OutOfGas(OutOfGasError::Basic));
        }
        let b = match stack.pop() {
            Ok(v) => v,
            Err(h) => { return Err(h) },
        };
        let x = match stack.pop() {
            Ok(v) => v,
            Err(h) => { return Err(h) },
        };
        match stack.push(x.signextend_evm(b)) {
            Ok(_) => Ok(()),
            Err(h) => Err(h),
        }
    } else if op == 0x0c || op == 0x0d || op == 0x0e || op == 0x0f {
        Err(HaltReason::OpcodeNotFound)
    } else if op == 0x10 || op == 0x11 || op == 0x12 || op == 0x13 || op == 0x14 {
        // LT / GT / SLT / SGT / EQ
        if !charge(gas_counter, gas::LT) {
            return Err(HaltReason::OutOfGas(OutOfGasError::Basic));
        }
        let a = match stack.pop() {
            Ok(v) => v,
            Err(h) => { return Err(h) },
        };
        let b = match stack.pop() {
            Ok(v) => v,
            Err(h) => { return Err(h) },
        };
        let flag = if op == 0x10 {
            a.lt_u(b)
        } else if op == 0x11 {
            b.lt_u(a)
        } else if op == 0x12 {
            a.slt(b)
        } else if op == 0x13 {
            b.slt(a)
        } else {
            a.lo == b.lo && a.hi == b.hi
        };
        match stack.push(bool_word(flag)) {
            Ok(_) => Ok(()),
            Err(h) => Err(h),
        }
    } else if op == 0x15 {
        // ISZERO
        if !charge(gas_counter, gas::ISZERO) {
            return Err(HaltReason::OutOfGas(OutOfGasError::Basic));
        }
        let a = match stack.pop() {
            Ok(v) => v,
            Err(h) => { return Err(h) },
        };
        match stack.push(bool_word(a.is_zero())) {
            Ok(_) => Ok(()),
            Err(h) => Err(h),
        }
    } else if op == 0x16 || op == 0x17 || op == 0x18 {
        // AND / OR / XOR
        if !charge(gas_counter, gas::AND) {
            return Err(HaltReason::OutOfGas(OutOfGasError::Basic));
        }
        let a = match stack.pop() {
            Ok(v) => v,
            Err(h) => { return Err(h) },
        };
        let b = match stack.pop() {
            Ok(v) => v,
            Err(h) => { return Err(h) },
        };
        let v = if op == 0x16 {
            a.bit_and(b)
        } else if op == 0x17 {
            a.bit_or(b)
        } else {
            a.bit_xor(b)
        };
        match stack.push(v) {
            Ok(_) => Ok(()),
            Err(h) => Err(h),
        }
    } else if op == 0x19 {
        // NOT
        if !charge(gas_counter, gas::NOT) {
            return Err(HaltReason::OutOfGas(OutOfGasError::Basic));
        }
        let a = match stack.pop() {
            Ok(v) => v,
            Err(h) => { return Err(h) },
        };
        match stack.push(a.bit_not()) {
            Ok(_) => Ok(()),
            Err(h) => Err(h),
        }
    } else if op == 0x1a {
        // BYTE
        if !charge(gas_counter, gas::BYTE) {
            return Err(HaltReason::OutOfGas(OutOfGasError::Basic));
        }
        let i = match stack.pop() {
            Ok(v) => v,
            Err(h) => { return Err(h) },
        };
        let x = match stack.pop() {
            Ok(v) => v,
            Err(h) => { return Err(h) },
        };
        match stack.push(x.byte_evm(i)) {
            Ok(_) => Ok(()),
            Err(h) => Err(h),
        }
    } else if op == 0x1b {
        // SHL
        if !charge(gas_counter, gas::SHL) {
            return Err(HaltReason::OutOfGas(OutOfGasError::Basic));
        }
        let s = match stack.pop() {
            Ok(v) => v,
            Err(h) => { return Err(h) },
        };
        let x = match stack.pop() {
            Ok(v) => v,
            Err(h) => { return Err(h) },
        };
        match stack.push(x.shl_evm(s)) {
            Ok(_) => Ok(()),
            Err(h) => Err(h),
        }
    } else if op == 0x1c {
        // SHR
        if !charge(gas_counter, gas::SHR) {
            return Err(HaltReason::OutOfGas(OutOfGasError::Basic));
        }
        let s = match stack.pop() {
            Ok(v) => v,
            Err(h) => { return Err(h) },
        };
        let x = match stack.pop() {
            Ok(v) => v,
            Err(h) => { return Err(h) },
        };
        match stack.push(x.shr_evm(s)) {
            Ok(_) => Ok(()),
            Err(h) => Err(h),
        }
    } else {
        // SAR
        if !charge(gas_counter, gas::SAR) {
            return Err(HaltReason::OutOfGas(OutOfGasError::Basic));
        }
        let s = match stack.pop() {
            Ok(v) => v,
            Err(h) => { return Err(h) },
        };
        let x = match stack.pop() {
            Ok(v) => v,
            Err(h) => { return Err(h) },
        };
        match stack.push(x.sar_evm(s)) {
            Ok(_) => Ok(()),
            Err(h) => Err(h),
        }
    }
}

/// The hash of a past block, where it is within the look-back window,
/// else zero.
fn block_hash_lookup(env: &Env, number: U256) -> (r: U256) {
    let (n64, fits) = number.to_u64();
    if !fits {
        return U256::zero();
    }
    let current = env.block.number;
    if n64 >= current || current - n64 > crate::BLOCK_HASH_HISTORY {
        return U256::zero();
    }
    let count = env.block.block_hashes.len();
    let mut i: usize = 0;
    while i < count
        invariant
            i <= count == env.block.block_hashes@.len(),
        decreases count - i,
    {
        if env.block.block_hashes[i].number == n64 {
            return env.block.block_hashes[i].hash;
        }
        i = i + 1;
    }
    U256::zero()
}

/// Perform one introspection opcode (`ADDRESS` through `BLOBBASEFEE`,
/// without the memory-touching copies): charge its cost and push the
/// environment or account value it names.
fn op_env(
    op: u8,
    contract: &Contract,
    env: &Env,
    journal: &JournaledState,
    return_data_len: usize,
    stack: &mut Stack,
    gas_counter: &mut i64,
) -> (r: Result<(), HaltReason>)
    requires
        old(stack).well_formed(),
        0 <= *old(gas_counter),
    ensures
        final(stack).well_formed(),
        0 <= *final(gas_counter) <= *old(gas_counter),
        r is Ok ==> *final(gas_counter) < *old(gas_counter),
        r matches Err(h) ==> !(h is CallTooDeep),
{
    if op == 0x30 {
        // ADDRESS
        if !charge(gas_counter, gas::ADDRESS) {
            return Err(HaltReason::OutOfGas(OutOfGasError::Basic));
        }
        match stack.push(contract.address.word) {
            Ok(_) => Ok(()),
            Err(h) => Err(h),
        }
    } else if op == 0x31 {
        // BALANCE
        if !charge(gas_counter, gas::BALANCE) {
            return Err(HaltReason::OutOfGas(OutOfGasError::Basic));
        }
        let w = match stack.pop() {
            Ok(v) => v,
            Err(h) => { return Err(h) },
        };
        let addr = Address::from_word(w);
        let balance = match journal.get_account(&addr) {
            Some(a) => a.balance,
            None => U256::zero(),
        };
        match stack.push(balance) {
            Ok(_) => Ok(()),
            Err(h) => Err(h),
        }
    } else if op == 0x32 {
        // ORIGIN
        if !charge(gas_counter, gas::ORIGIN) {
            return Err(HaltReason::OutOfGas(OutOfGasError::Basic));
        }
        match stack.push(env.tx.caller.word) {
            Ok(_) => Ok(()),
            Err(h) => Err(h),
        }
    } else if op == 0x33 {
        // CALLER
        if !charge(gas_counter, gas::CALLER) {
            return Err(HaltReason::OutOfGas(OutOfGasError::Basic));
        }
        match stack.push(contract.caller.word) {
            Ok(_) => Ok(()),
            Err(h) => Err(h),
        }
    } else if op == 0x34 {
        // CALLVALUE
        if !charge(gas_counter, gas::CALLER) {
            return Err(HaltReason::OutOfGas(OutOfGasError::Basic));
        }
        match stack.push(contract.call_value) {
            Ok(_) => Ok(()),
            Err(h) => Err(h),
        }
    } else if op == 0x35 {
        // CALLDATALOAD
        if !charge(gas_counter, gas::CALLDATALOAD) {
            return Err(HaltReason::OutOfGas(OutOfGasError::Basic));
        }
        let off = match stack.pop() {
            Ok(v) => v,
            Err(h) => { return Err(h) },
        };
        let word = read_padded(contract.input.as_slice(), off, 32);
        match stack.push(U256::from_be_bytes(word.as_slice())) {
            Ok(_) => Ok(()),
            Err(h) => Err(h),
        }
    } else if op == 0x36 {
        // CALLDATASIZE
        if !charge(gas_counter, gas::CALLDATASIZE) {
            return Err(HaltReason::OutOfGas(OutOfGasError::Basic));
        }
        match stack.push(U256::from_u64(contract.input.len() as u64)) {
            Ok(_) => Ok(()),
            Err(h) => Err(h),
        }
    } else if op == 0x38 {
        // CODESIZE
        if !charge(gas_counter, gas::CODESIZE) {
            return Err(HaltReason::OutOfGas(OutOfGasError::Basic));
        }
        match stack.push(U256::from_u64(contract.code.len() as u64)) {
            Ok(_) => Ok(()),
            Err(h) => Err(h),
        }
    } else if op == 0x3a {
        // GASPRICE
        if !charge(gas_counter, gas::GASPRICE) {
            return Err(HaltReason::OutOfGas(OutOfGasError::Basic));
        }
        match stack.push(env.tx.gas_price) {
            Ok(_) => Ok(()),
            Err(h) => Err(h),
        }
    } else if op == 0x3b {
        // EXTCODESIZE
        if !charge(gas_counter, gas::EXTCODESIZE_WARM) {
            return Err(HaltReason::OutOfGas(OutOfGasError::Basic));
        }
        let w = match stack.pop() {
            Ok(v) => v,
            Err(h) => { return Err(h) },
        };
        let addr = Address::from_word(w);
        let size: u64 = match journal.get_account(&addr) {
            Some(a) => a.code.len() as u64,
            None => 0,
        };
        match stack.push(U256::from_u64(size)) {
            Ok(_) => Ok(()),
            Err(h) => Err(h),
        }
    } else if op == 0x3d {
        // RETURNDATASIZE
        if !charge(gas_counter, gas::RETURNDATASIZE) {
            return Err(HaltReason::OutOfGas(OutOfGasError::Basic));
        }
        match stack.push(U256::from_u64(return_data_len as u64)) {
            Ok(_) => Ok(()),
            Err(h) => Err(h),
        }
    } else if op == 0x3f {
        // EXTCODEHASH
        if !charge(gas_counter, gas::EXTCODEHASH) {
            return Err(HaltReason::OutOfGas(OutOfGasError::Basic));
        }
        let w = match stack.pop() {
            Ok(v) => v,
            Err(h) => { return Err(h) },
        };
        let addr = Address::from_word(w);
        let hash = match journal.get_account(&addr) {
            Some(a) => {
                let digest = keccak256(a.code.as_slice());
                U256::from_be_bytes(digest.as_slice())
            },
            None => U256::zero(),
        };
        match stack.push(hash) {
            Ok(_) => Ok(()),
            Err(h) => Err(h),
        }
    } else if op == 0x40 {
        // BLOCKHASH
        if !charge(gas_counter, gas::BLOCKHASH) {
            return Err(HaltReason::OutOfGas(OutOfGasError::Basic));
        }
        let n = match stack.pop() {
            Ok(v) => v,
            Err(h) => { return Err(h) },
        };
        match stack.push(block_hash_lookup(env, n)) {
            Ok(_) => Ok(()),
            Err(h) => Err(h),
        }
    } else if op == 0x41 {
        // COINBASE
        if !charge(gas_counter, gas::COINBASE) {
            return Err(HaltReason::OutOfGas(OutOfGasError::Basic));
        }
        match stack.push(env.block.coinbase.word) {
            Ok(_) => Ok(()),
            Err(h) => Err(h),
        }
    } else if op == 0x42 {
        // TIMESTAMP
        if !charge(gas_counter, gas::TIMESTAMP) {
            return Err(HaltReason::OutOfGas(OutOfGasError::Basic));
        }
        match stack.push(U256::from_u64(env.block.timestamp)) {
            Ok(_) => Ok(()),
            Err(h) => Err(h),
        }
    } else if op == 0x43 {
        // NUMBER
        if !charge(gas_counter, gas::NUMBER) {
            return Err(HaltReason::OutOfGas(OutOfGasError::Basic));
        }
        match stack.push(U256::from_u64(env.block.number)) {
            Ok(_) => Ok(()),
            Err(h) => Err(h),
        }
    } else if op == 0x44 {
        // PREVRANDAO
        if !charge(gas_counter, gas::PREVRANDAO) {
            return Err(HaltReason::OutOfGas(OutOfGasError::Basic));
        }
        match stack.push(env.block.prevrandao) {
            Ok(_) => Ok(()),
            Err(h) => Err(h),
        }
    } else if op == 0x45 {
        // GASLIMIT
        if !charge(gas_counter, gas::GASLIMIT) {
            return Err(HaltReason::OutOfGas(OutOfGasError::Basic));
        }
        match stack.push(U256::from_u64(env.block.gaslimit)) {
            Ok(_) => Ok(()),
            Err(h) => Err(h),
        }
    } else if op == 0x46 {
        // CHAINID
        if !charge(gas_counter, gas::CHAINID) {
            return Err(HaltReason::OutOfGas(OutOfGasError::Basic));
        }
        match stack.push(U256::from_u64(env.block.chainid)) {
            Ok(_) => Ok(()),
            Err(h) => Err(h),
        }
    } else if op == 0x47 {
        // SELFBALANCE
        if !charge(gas_counter, gas::SELFBALANCE) {
            return Err(HaltReason::OutOfGas(OutOfGasError::Basic));
        }
        let balance = match journal.get_account(&contract.address) {
            Some(a) => a.balance,
            None => U256::zero(),
        };
        match stack.push(balance) {
            Ok(_) => Ok(()),
            Err(h) => Err(h),
        }
    } else if op == 0x48 {
        // BASEFEE
        if !charge(gas_counter, gas::BASEFEE) {
            return Err(HaltReason::OutOfGas(OutOfGasError::Basic));
        }
        match stack.push(env.block.basefee) {
            Ok(_) => Ok(()),
            Err(h) => Err(h),
        }
    } else if op == 0x49 {
        // BLOBHASH
        if !charge(gas_counter, gas::BLOBHASH) {
            return Err(HaltReason::OutOfGas(OutOfGasError::Basic));
        }
        let i = match stack.pop() {
            Ok(v) => v,
            Err(h) => { return Err(h) },
        };
        let (i64v, fits) = i.to_u64();
        let hash = if fits && (i64v as u128) < (env.block.blobhashes.len() as u128) {
            env.block.blobhashes[i64v as usize]
        } else {
            U256::zero()
        };
        match stack.push(hash) {
            Ok(_) => Ok(()),
            Err(h) => Err(h),
        }
    } else if op == 0x4a {
        // BLOBBASEFEE
        if !charge(gas_counter, gas::BLOBBASEFEE) {
            return Err(HaltReason::OutOfGas(OutOfGasError::Basic));
        }
        match stack.push(env.block.blobbasefee) {
            Ok(_) => Ok(()),
            Err(h) => Err(h),
        }
    } else {
        Err(HaltReason::OpcodeNotFound)
    }
}

/// Perform one memory-touching opcode (`KECCAK256`, the copy family,
/// `MLOAD`, `MSTORE`, `MSTORE8`, `MSIZE`, `MCOPY`): charge its static
/// cost, the expansion of the touched range and the per-word cost, then
/// read or write the bytes.
#[verifier::rlimit(100)]
fn op_memory(
    op: u8,
    contract: &Contract,
    journal: &JournaledState,
    return_data: &Vec<u8>,
    memory: &mut Memory,
    stack: &mut Stack,
    gas_counter: &mut i64,
) -> (r: Result<(), HaltReason>)
    requires
        old(stack).well_formed(),
        old(memory).well_formed(),
        old(memory)@.len() <= MEMORY_SIZE_LIMIT + 31,
        0 <= *old(gas_counter),
    ensures
        final(stack).well_formed(),
        final(memory).well_formed(),
        final(memory)@.len() <= MEMORY_SIZE_LIMIT + 31,
        0 <= *final(gas_counter) <= *old(gas_counter),
        r is Ok ==> *final(gas_counter) < *old(gas_counter),
        r matches Err(h) ==> !(h is CallTooDeep),
{
    if op == 0x20 {
        // KECCAK256: 30 plus 6 per word hashed.
        if !charge(gas_counter, gas::KECCAK256) {
            return Err(HaltReason::OutOfGas(OutOfGasError::Basic));
        }
        let off = match stack.pop() {
            Ok(v) => v,
            Err(h) => { return Err(h) },
        };
        let len = match stack.pop() {
            Ok(v) => v,
            Err(h) => { return Err(h) },
        };
        let p = match charge_memory(memory, gas_counter, off, len) {
            Ok(p) => p,
            Err(h) => { return Err(h) },
        };
        let (len64, len_fits) = len.to_u64();
        if !len_fits {
            return Err(HaltReason::OutOfGas(OutOfGasError::InvalidOperand));
        }
        let words: i64 = ((len64 + 31) / 32) as i64;
        if !charge(gas_counter, gas::HASH_WORD_COST * words) {
            return Err(HaltReason::OutOfGas(OutOfGasError::Basic));
        }
        let data = if len64 == 0 {
            Vec::new()
        } else {
            memory.read_bytes(p, len64 as usize)
        };
        let digest = keccak256(data.as_slice());
        match stack.push(U256::from_be_bytes(digest.as_slice())) {
            Ok(_) => Ok(()),
            Err(h) => Err(h),
        }
    } else if op == 0x37 || op == 0x39 || op == 0x3c || op == 0x3e {
        // CALLDATACOPY / CODECOPY / EXTCODECOPY / RETURNDATACOPY
        let base: i64 = if op == 0x3c {
            gas::EXTCODECOPY_WARM
        } else if op == 0x3e {
            gas::RETURNDATACOPY
        } else {
            gas::CALLDATACOPY
        };
        if !charge(gas_counter, base) {
            return Err(HaltReason::OutOfGas(OutOfGasError::Basic));
        }
        let ext_addr = if op == 0x3c {
            let w = match stack.pop() {
                Ok(v) => v,
                Err(h) => { return Err(h) },
            };
            Some(Address::from_word(w))
        } else {
            None
        };
        let dst = match stack.pop() {
            Ok(v) => v,
            Err(h) => { return Err(h) },
        };
        let src_off = match stack.pop() {
            Ok(v) => v,
            Err(h) => { return Err(h) },
        };
        let len = match stack.pop() {
            Ok(v) => v,
            Err(h) => { return Err(h) },
        };
        let p = match charge_memory(memory, gas_counter, dst, len) {
            Ok(p) => p,
            Err(h) => { return Err(h) },
        };
        let (len64, len_fits) = len.to_u64();
        if !len_fits {
            return Err(HaltReason::OutOfGas(OutOfGasError::InvalidOperand));
        }
        let cost = gas::memory_copy_cost(len64 as u32);
        if !charge(gas_counter, cost) {
            return Err(HaltReason::OutOfGas(OutOfGasError::Basic));
        }
        if len64 == 0 {
            return Ok(());
        }
        let data = if op == 0x37 {
            read_padded(contract.input.as_slice(), src_off, len64 as usize)
        } else if op == 0x39 {
            read_padded(contract.code.as_slice(), src_off, len64 as usize)
        } else if op == 0x3c {
            match ext_addr {
                Some(a) => match journal.get_account(&a) {
                    Some(acct) => read_padded(acct.code.as_slice(), src_off, len64 as usize),
                    None => read_padded(&[], src_off, len64 as usize),
                },
                None => read_padded(&[], src_off, len64 as usize),
            }
        } else {
            // RETURNDATACOPY faults on a read past the buffer.
            let (so, so_fits) = src_off.to_u64();
            if !so_fits {
                return Err(HaltReason::OutOfOffset);
            }
            if (so as u128) + (len64 as u128) > (return_data.len() as u128) {
                return Err(HaltReason::OutOfOffset);
            }
            read_padded(return_data.as_slice(), src_off, len64 as usize)
        };
        memory.write_bytes(p, data.as_slice());
        Ok(())
    } else if op == 0x51 {
        // MLOAD
        if !charge(gas_counter, gas::MLOAD) {
            return Err(HaltReason::OutOfGas(OutOfGasError::Basic));
        }
        let off = match stack.pop() {
            Ok(v) => v,
            Err(h) => { return Err(h) },
        };
        let p = match charge_memory(memory, gas_counter, off, U256 { lo: 32, hi: 0 }) {
            Ok(p) => p,
            Err(h) => { return Err(h) },
        };
        let w = memory.load_word(p);
        match stack.push(w) {
            Ok(_) => Ok(()),
            Err(h) => Err(h),
        }
    } else if op == 0x52 {
        // MSTORE
        if !charge(gas_counter, gas::MSTORE) {
            return Err(HaltReason::OutOfGas(OutOfGasError::Basic));
        }
        let off = match stack.pop() {
            Ok(v) => v,
            Err(h) => { return Err(h) },
        };
        let val = match stack.pop() {
            Ok(v) => v,
            Err(h) => { return Err(h) },
        };
        let p = match charge_memory(memory, gas_counter, off, U256 { lo: 32, hi: 0 }) {
            Ok(p) => p,
            Err(h) => { return Err(h) },
        };
        memory.store_word(p, val);
        Ok(())
    } else if op == 0x53 {
        // MSTORE8
        if !charge(gas_counter, gas::MSTORE8) {
            return Err(HaltReason::OutOfGas(OutOfGasError::Basic));
        }
        let off = match stack.pop() {
            Ok(v) => v,
            Err(h) => { return Err(h) },
        };
        let val = match stack.pop() {
            Ok(v) => v,
            Err(h) => { return Err(h) },
        };
        let p = match charge_memory(memory, gas_counter, off, U256 { lo: 1, hi: 0 }) {
            Ok(p) => p,
            Err(h) => { return Err(h) },
        };
        memory.store_byte(p, (val.lo % 256) as u8);
        Ok(())
    } else if op == 0x59 {
        // MSIZE
        if !charge(gas_counter, gas::MSIZE) {
            return Err(HaltReason::OutOfGas(OutOfGasError::Basic));
        }
        match stack.push(U256::from_u64(memory.size() as u64)) {
            Ok(_) => Ok(()),
            Err(h) => Err(h),
        }
    } else if op == 0x5e {
        // MCOPY
        if !charge(gas_counter, gas::MCOPY) {
            return Err(HaltReason::OutOfGas(OutOfGasError::Basic));
        }
        let dst = match stack.pop() {
            Ok(v) => v,
            Err(h) => { return Err(h) },
        };
        let src = match stack.pop() {
            Ok(v) => v,
            Err(h) => { return Err(h) },
        };
        let len = match stack.pop() {
            Ok(v) => v,
            Err(h) => { return Err(h) },
        };
        let pd = match charge_memory(memory, gas_counter, dst, len) {
            Ok(p) => p,
            Err(h) => { return Err(h) },
        };
        let ps = match charge_memory(memory, gas_counter, src, len) {
            Ok(p) => p,
            Err(h) => { return Err(h) },
        };
        let (len64, len_fits) = len.to_u64();
        if !len_fits {
            return Err(HaltReason::OutOfGas(OutOfGasError::InvalidOperand));
        }
        let cost = gas::memory_copy_cost(len64 as u32);
        if !charge(gas_counter, cost) {
            return Err(HaltReason::OutOfGas(OutOfGasError::Basic));
        }
        if len64 == 0 {
            return Ok(());
        }
        let data = memory.read_bytes(ps, len64 as usize);
        memory.write_bytes(pd, data.as_slice());
        Ok(())
    } else {
        Err(HaltReason::OpcodeNotFound)
    }
}

/// Perform one storage or log opcode (`SLOAD`, `SSTORE`, `TLOAD`,
/// `TSTORE`, `LOG0` through `LOG4`): the state-changing ones are refused
/// inside a static call, and leave the checkpoint stack alone.
fn op_state(
    op: u8,
    contract: &Contract,
    is_static: bool,
    journal: &mut JournaledState,
    memory: &mut Memory,
    stack: &mut Stack,
    gas_counter: &mut i64,
) -> (r: Result<(), HaltReason>)
    requires
        old(stack).well_formed(),
        old(memory).well_formed(),
        old(memory)@.len() <= MEMORY_SIZE_LIMIT + 31,
        old(journal).well_formed(),
        0 <= *old(gas_counter),
    ensures
        final(stack).well_formed(),
        final(memory).well_formed(),
        final(memory)@.len() <= MEMORY_SIZE_LIMIT + 31,
        final(journal).well_formed(),
        final(journal).checkpoints_view() == old(journal).checkpoints_view(),
        final(journal).logs_view().len() >= old(journal).logs_view().len(),
        forall|i: int|
            0 <= i < old(journal).logs_view().len() ==> final(journal).logs_view()[i] == old(
                journal,
            ).logs_view()[i],
        0 <= *final(gas_counter) <= *old(gas_counter),
        r is Ok ==> *final(gas_counter) < *old(gas_counter),
        r matches Err(h) ==> !(h is CallTooDeep),
{
    if op == 0x54 {
        // SLOAD
        if !charge(gas_counter, gas::SLOAD) {
            return Err(HaltReason::OutOfGas(OutOfGasError::Basic));
        }
        let key = match stack.pop() {
            Ok(v) => v,
            Err(h) => { return Err(h) },
        };
        let v = journal.get_storage(&contract.address, &key);
        match stack.push(v) {
            Ok(_) => Ok(()),
            Err(h) => Err(h),
        }
    } else if op == 0x55 {
        // SSTORE
        if is_static {
            return Err(HaltReason::StateChangeDuringStaticcall);
        }
        if *gas_counter <= gas::SSTORE_MIN_REMAINING_GAS {
            return Err(HaltReason::OutOfGas(OutOfGasError::Basic));
        }
        if !charge(gas_counter, gas::SSTORE) {
            return Err(HaltReason::OutOfGas(OutOfGasError::Basic));
        }
        let key = match stack.pop() {
            Ok(v) => v,
            Err(h) => { return Err(h) },
        };
        let value = match stack.pop() {
            Ok(v) => v,
            Err(h) => { return Err(h) },
        };
        journal.set_storage(contract.address, key, value);
        Ok(())
    } else if op == 0x5c {
        // TLOAD
        if !charge(gas_counter, gas::TLOAD) {
            return Err(HaltReason::OutOfGas(OutOfGasError::Basic));
        }
        let key = match stack.pop() {
            Ok(v) => v,
            Err(h) => { return Err(h) },
        };
        let v = journal.get_transient_storage(&contract.address, &key);
        match stack.push(v) {
            Ok(_) => Ok(()),
            Err(h) => Err(h),
        }
    } else if op == 0x5d {
        // TSTORE
        if is_static {
            return Err(HaltReason::StateChangeDuringStaticcall);
        }
        if !charge(gas_counter, gas::TSTORE) {
            return Err(HaltReason::OutOfGas(OutOfGasError::Basic));
        }
        let key = match stack.pop() {
            Ok(v) => v,
            Err(h) => { return Err(h) },
        };
        let value = match stack.pop() {
            Ok(v) => v,
            Err(h) => { return Err(h) },
        };
        journal.set_transient_storage(contract.address, key, value);
        Ok(())
    } else if 0xa0 <= op && op <= 0xa4 {
        // LOG0 .. LOG4: 375, plus 375 per topic and 8 per byte.
        if is_static {
            return Err(HaltReason::StateChangeDuringStaticcall);
        }
        if !charge(gas_counter, gas::LOG0) {
            return Err(HaltReason::OutOfGas(OutOfGasError::Basic));
        }
        let topic_count: usize = (op - 0xa0) as usize;
        let off = match stack.pop() {
            Ok(v) => v,
            Err(h) => { return Err(h) },
        };
        let len = match stack.pop() {
            Ok(v) => v,
            Err(h) => { return Err(h) },
        };
        let mut topics: Vec<U256> = Vec::new();
        let mut t: usize = 0;
        while t < topic_count
            invariant
                t <= topic_count <= 4,
                stack.well_formed(),
                memory.well_formed(),
                memory@.len() <= MEMORY_SIZE_LIMIT + 31,
                memory@ == old(memory)@,
                journal.well_formed(),
                journal.checkpoints_view() == old(journal).checkpoints_view(),
                journal.logs_view() == old(journal).logs_view(),
                0 <= *gas_counter <= *old(gas_counter),
            decreases topic_count - t,
        {
            let topic = match stack.pop() {
                Ok(v) => v,
                Err(h) => { return Err(h) },
            };
            topics.push(topic);
            t = t + 1;
        }
        let p = match charge_memory(memory, gas_counter, off, len) {
            Ok(p) => p,
            Err(h) => { return Err(h) },
        };
        let (len64, len_fits) = len.to_u64();
        if !len_fits {
            return Err(HaltReason::OutOfGas(OutOfGasError::InvalidOperand));
        }
        let cost = gas::log_dynamic_gas_cost(len64 as u32, topic_count as u32);
        if !charge(gas_counter, cost) {
            return Err(HaltReason::OutOfGas(OutOfGasError::Basic));
        }
        let data = if len64 == 0 {
            Vec::new()
        } else {
            memory.read_bytes(p, len64 as usize)
        };
        journal.add_log(Log { address: contract.address, topics, data });
        Ok(())
    } else {
        Err(HaltReason::OpcodeNotFound)
    }
}

/// Resolve a dynamic jump: the target must be a valid jump destination of
/// the program, else the jump is invalid.
pub fn jump_dest(program: &Program, target: U256) -> (r: Result<usize, HaltReason>)
    requires
        program.well_formed(),
    ensures
        r matches Ok(p) ==> p == target.as_nat() && crate::program::spec_is_jumpdest(
            program.code@,
            p as nat,
        ),
        r is Err <==> !crate::program::spec_is_jumpdest(program.code@, target.as_nat()),
        r matches Err(h) ==> h == HaltReason::InvalidJump,
{
    let n = program.code.len();
    let (t64, fits) = target.to_u64();
    if !fits {
        return Err(HaltReason::InvalidJump);
    }
    if (t64 as u128) >= (n as u128) {
        return Err(HaltReason::InvalidJump);
    }
    let t = t64 as usize;
    if program.jumpdests[t] {
        Ok(t)
    } else {
        Err(HaltReason::InvalidJump)
    }
}

/// The sender's account reading before a transfer.
pub open spec fn transfer_sender(
    m: Map<nat, crate::journal::AccountView>,
    from: Address,
) -> crate::journal::AccountView {
    crate::journal::account_or_empty(m, from.as_nat())
}

/// The accounts after debiting `value` from `from`.
pub open spec fn debited_view(
    m: Map<nat, crate::journal::AccountView>,
    from: Address,
    value: U256,
) -> Map<nat, crate::journal::AccountView> {
    let fa = crate::journal::account_or_empty(m, from.as_nat());
    m.insert(
        from.as_nat(),
        crate::journal::AccountView {
            balance: (fa.balance - value.as_nat()) as nat,
            nonce: fa.nonce,
            code: fa.code,
        },
    )
}

/// The accounts after moving `value` from `from` to `to`: the sender
/// debited, then the recipient credited (the same account when the two
/// addresses coincide).
pub open spec fn transfer_views(
    m: Map<nat, crate::journal::AccountView>,
    from: Address,
    to: Address,
    value: U256,
) -> Map<nat, crate::journal::AccountView> {
    let m1 = debited_view(m, from, value);
    let ta = crate::journal::account_or_empty(m1, to.as_nat());
    m1.insert(
        to.as_nat(),
        crate::journal::AccountView {
            balance: (ta.balance + value.as_nat()) as nat,
            nonce: ta.nonce,
            code: ta.code,
        },
    )
}

/// Move `value` from `from` to `to`. Insufficient funds refuse the
/// transfer without touching the accounts; a credit overflowing the
/// recipient's balance is an overflow-payment fault, leaving only the
/// debit behind (callers revert the surrounding checkpoint).
pub(crate) fn transfer_balance(journal: &mut JournaledState, from: Address, to: Address, value: U256) -> (r:
    Result<bool, HaltReason>)
    requires
        old(journal).well_formed(),
    ensures
        final(journal).well_formed(),
        final(journal).checkpoints_view() == old(journal).checkpoints_view(),
        final(journal).logs_view() == old(journal).logs_view(),
        final(journal).storage_view() == old(journal).storage_view(),
        final(journal).transient_view() == old(journal).transient_view(),
        r matches Err(h) ==> h == HaltReason::OverflowPayment,
        value.as_nat() == 0 ==> r == Ok::<bool, HaltReason>(true)
            && final(journal).accounts_view() == old(journal).accounts_view(),
        value.as_nat() > 0 ==> (r == Ok::<bool, HaltReason>(false) <==> transfer_sender(
            old(journal).accounts_view(),
            from,
        ).balance < value.as_nat()),
        r == Ok::<bool, HaltReason>(false)
            ==> final(journal).accounts_view() == old(journal).accounts_view(),
        value.as_nat() > 0 && r == Ok::<bool, HaltReason>(true)
            ==> final(journal).accounts_view() == transfer_views(
            old(journal).accounts_view(),
            from,
            to,
            value,
        ),
        r is Err ==> final(journal).accounts_view() == debited_view(
            old(journal).accounts_view(),
            from,
            value,
        ),
        value.as_nat() > 0 && transfer_sender(old(journal).accounts_view(), from).balance
            >= value.as_nat() ==> (r is Err <==> crate::journal::account_or_empty(
            debited_view(old(journal).accounts_view(), from, value),
            to.as_nat(),
        ).balance + value.as_nat() >= crate::u256::word_modulus()),
{
    if value.is_zero() {
        return Ok(true);
    }
    let (from_balance, from_nonce, from_code) = match journal.get_account(&from) {
        Some(a) => (a.balance, a.nonce, crate::journal::copy_bytes(&a.code)),
        None => (U256::zero(), 0u64, Vec::new()),
    };
    if from_balance.lt_u(value) {
        return Ok(false);
    }
    journal.set_account(
        from,
        Account { balance: from_balance.wrapping_sub(value), nonce: from_nonce, code: from_code },
    );
    let (to_balance, to_nonce, to_code) = match journal.get_account(&to) {
        Some(a) => (a.balance, a.nonce, crate::journal::copy_bytes(&a.code)),
        None => (U256::zero(), 0u64, Vec::new()),
    };
    let (sum, carry) = to_balance.adc(value, false);
    if carry {
        return Err(HaltReason::OverflowPayment);
    }
    journal.set_account(to, Account { balance: sum, nonce: to_nonce, code: to_code });
    Ok(true)
}

/// The 20 address bytes of an account: the low 20 bytes of its word.
fn address_to_bytes(a: Address) -> (r: Vec<u8>)
    ensures
        r@.len() == 20,
{
    let all = a.word.to_be_bytes();
    let mut out: Vec<u8> = Vec::new();
    let mut i: usize = 12;
    while i < 32
        invariant
            12 <= i <= 32,
            all@.len() == 32,
            out@.len() == i - 12,
        decreases 32 - i,
    {
        out.push(all[i]);
        i = i + 1;
    }
    out
}

/// The last 20 bytes of a 32-byte digest, read as an address.
fn address_from_digest(digest: &Vec<u8>) -> (r: Address)
    requires
        digest@.len() == 32,
    ensures
        r.well_formed(),
{
    let mut tail: Vec<u8> = Vec::new();
    let mut i: usize = 12;
    while i < 32
        invariant
            12 <= i <= 32,
            digest@.len() == 32,
            tail@.len() == i - 12,
        decreases 32 - i,
    {
        tail.push(digest[i]);
        i = i + 1;
    }
    Address::from_word(U256::from_be_bytes(tail.as_slice()))
}

/// The address a `CREATE` deploys to: the Keccak-256 hash of the RLP
/// list of the sender's address and nonce, truncated to 20 bytes.
fn create_address(sender: Address, nonce: u64) -> (r: Address)
    ensures
        r.well_formed(),
{
    // Minimal big-endian RLP scalar encoding of the nonce.
    let mut nonce_enc: Vec<u8> = Vec::new();
    if nonce == 0 {
        nonce_enc.push(0x80);
    } else if nonce < 0x80 {
        nonce_enc.push(nonce as u8);
    } else {
        let mut limb: Vec<u8> = Vec::new();
        let mut rest = nonce;
        while rest > 0 && limb.len() < 8
            invariant
                limb@.len() <= 8,
            decreases rest,
        {
            limb.push((rest % 256) as u8);
            rest = rest / 256;
        }
        nonce_enc.push((0x80 + limb.len()) as u8);
        let mut k = limb.len();
        while k > 0
            invariant
                k <= limb@.len() <= 8,
                nonce_enc@.len() == 1 + (limb@.len() - k),
            decreases k,
        {
            k = k - 1;
            nonce_enc.push(limb[k]);
        }
    }
    let sender_bytes = address_to_bytes(sender);
    // List header, address item header, address bytes, nonce item.
    let mut rlp: Vec<u8> = Vec::new();
    rlp.push((0xc0 + 21 + nonce_enc.len()) as u8);
    rlp.push(0x94);
    let mut i: usize = 0;
    while i < 20
        invariant
            i <= 20,
            sender_bytes@.len() == 20,
        decreases 20 - i,
    {
        rlp.push(sender_bytes[i]);
        i = i + 1;
    }
    let mut j: usize = 0;
    let ne = nonce_enc.len();
    while j < ne
        invariant
            j <= ne == nonce_enc@.len(),
        decreases ne - j,
    {
        rlp.push(nonce_enc[j]);
        j = j + 1;
    }
    let digest = keccak256(rlp.as_slice());
    address_from_digest(&digest)
}

/// The address a `CREATE2` deploys to: the Keccak-256 hash of `0xff`,
/// the sender's address, the salt and the hash of the initcode,
/// truncated to 20 bytes.
fn create2_address(sender: Address, salt: U256, initcode: &Vec<u8>) -> (r: Address)
    ensures
        r.well_formed(),
{
    let code_hash = keccak256(initcode.as_slice());
    let sender_bytes = address_to_bytes(sender);
    let salt_bytes = salt.to_be_bytes();
    let mut preimage: Vec<u8> = Vec::new();
    preimage.push(0xff);
    let mut i: usize = 0;
    while i < 20
        invariant
            i <= 20,
            sender_bytes@.len() == 20,
        decreases 20 - i,
    {
        preimage.push(sender_bytes[i]);
        i = i + 1;
    }
    let mut j: usize = 0;
    while j < 32
        invariant
            j <= 32,
            salt_bytes@.len() == 32,
        decreases 32 - j,
    {
        preimage.push(salt_bytes[j]);
        j = j + 1;
    }
    let mut k: usize = 0;
    let hn = code_hash.len();
    while k < hn
        invariant
            k <= hn == code_hash@.len(),
        decreases hn - k,
    {
        preimage.push(code_hash[k]);
        k = k + 1;
    }
    let digest = keccak256(preimage.as_slice());
    address_from_digest(&digest)
}

/// Run one frame's code to completion against the journaled state. For
/// each opcode, in order: charge the static gas, check the stack, charge
/// the dynamic gas, perform the operation; any shortfall or fault halts,
/// consuming the frame's entire gas. A frame at the call-depth limit
/// halts at once as too deep. For every outcome the gas used never
/// exceeds the frame's limit; a halt consumes it exactly. The checkpoint
/// stack is left as it was found and logs are only appended.
#[verifier::rlimit(100)]
pub fn execute(
    program: &Program,
    env: &Env,
    journal: &mut JournaledState,
    ctx: &mut RuntimeContext,
) -> (r: FrameOutcome)
    requires
        program.well_formed(),
        program.code@ == old(ctx).contract.code@,
        old(ctx).well_formed(),
        old(journal).well_formed(),
    ensures
        final(ctx).well_formed(),
        final(ctx).gas_limit == old(ctx).gas_limit,
        final(journal).well_formed(),
        final(journal).checkpoints_view() == old(journal).checkpoints_view(),
        final(journal).logs_view().len() >= old(journal).logs_view().len(),
        forall|i: int|
            0 <= i < old(journal).logs_view().len() ==> final(journal).logs_view()[i] == old(
                journal,
            ).logs_view()[i],
        r.spec_gas_used() <= old(ctx).gas_limit,
        r is Halt ==> r.spec_gas_used() == old(ctx).gas_limit,
        (r matches FrameOutcome::Halt { reason: HaltReason::CallTooDeep, .. }) <==> old(
            ctx,
        ).depth >= crate::CALL_STACK_LIMIT,
        old(ctx).contract.code@.len() == 0 && old(ctx).depth < crate::CALL_STACK_LIMIT ==> (r
            matches FrameOutcome::Success { reason: SuccessReason::Stop, gas_used: 0u64, output }
            && output@.len() == 0),
        old(ctx).depth < crate::CALL_STACK_LIMIT && old(ctx).contract.code@.len() > 0 && old(
            ctx,
        ).contract.code@[0] == 0x00 ==> (r matches FrameOutcome::Success {
            reason: SuccessReason::Stop,
            gas_used: 0u64,
            output,
        } && output@.len() == 0),
        old(ctx).depth < crate::CALL_STACK_LIMIT && old(ctx).contract.code@.len() > 0 && old(
            ctx,
        ).contract.code@[0] == 0xfe ==> r == (FrameOutcome::Halt {
            reason: HaltReason::InvalidFEOpcode,
            gas_used: old(ctx).gas_limit,
        }),
        old(ctx).depth < crate::CALL_STACK_LIMIT && old(ctx).contract.code@ =~= seq![
            0x5bu8,
            0x56u8,
        ] && old(ctx).stack@.len() == 0 && old(ctx).gas_limit >= 11 ==> r == (
        FrameOutcome::Halt {
            reason: HaltReason::StackUnderflow,
            gas_used: old(ctx).gas_limit,
        }),
        old(ctx).depth < crate::CALL_STACK_LIMIT && old(ctx).contract.code@ =~= seq![
            0x60u8,
            0x00u8,
            0x50u8,
        ] && old(ctx).stack@.len() == 0 && old(ctx).gas_limit >= 5 ==> (r matches
            FrameOutcome::Success { reason: SuccessReason::Stop, gas_used: 5u64, output }
            && output@.len() == 0 && final(ctx).stack@.len() == 0),
    decreases old(ctx).gas_limit, 1nat,
{
    if ctx.depth >= crate::CALL_STACK_LIMIT {
        return FrameOutcome::Halt { reason: HaltReason::CallTooDeep, gas_used: ctx.gas_limit };
    }
    let gas_limit_i: i64 = ctx.gas_limit as i64;
    let mut gas_counter: i64 = gas_limit_i;
    let mut pc: usize = 0;
    loop
        invariant
            program.well_formed(),
            program.code@ == ctx.contract.code@,
            ctx.contract == old(ctx).contract,
            ctx.depth == old(ctx).depth,
            ctx.is_static == old(ctx).is_static,
            ctx.spec_id == old(ctx).spec_id,
            ctx.gas_limit == old(ctx).gas_limit,
            ctx.depth < crate::CALL_STACK_LIMIT,
            ctx.well_formed(),
            journal.well_formed(),
            journal.checkpoints_view() == old(journal).checkpoints_view(),
            journal.logs_view().len() >= old(journal).logs_view().len(),
            forall|i: int|
                0 <= i < old(journal).logs_view().len() ==> journal.logs_view()[i] == old(
                    journal,
                ).logs_view()[i],
            gas_limit_i == old(ctx).gas_limit,
            0 <= gas_counter <= gas_limit_i,
            pc <= program.code@.len() + 32,
            program.code@.len() == 0 ==> gas_counter == gas_limit_i && pc == 0,
            program.code@.len() > 0 && (program.code@[0] == 0x00 || program.code@[0] == 0xfe)
                ==> gas_counter == gas_limit_i && pc == 0,
            (program.code@ =~= seq![0x5bu8, 0x56u8] && old(ctx).stack@.len() == 0
                && gas_limit_i >= 11) ==> ((pc == 0 && gas_counter == gas_limit_i
                && ctx.stack@.len() == 0) || (pc == 1 && gas_counter == gas_limit_i - 1
                && ctx.stack@.len() == 0)),
            (program.code@ =~= seq![0x60u8, 0x00u8, 0x50u8] && old(ctx).stack@.len() == 0
                && gas_limit_i >= 5) ==> ((pc == 0 && gas_counter == gas_limit_i
                && ctx.stack@.len() == 0) || (pc == 2 && gas_counter == gas_limit_i - 3
                && ctx.stack@.len() == 1) || (pc == 3 && gas_counter == gas_limit_i - 5
                && ctx.stack@.len() == 0)),
        decreases gas_counter,
    {
        if pc >= program.code.len() {
            // Implicit STOP past the end of the code.
            return FrameOutcome::Success {
                reason: SuccessReason::Stop,
                gas_used: (gas_limit_i - gas_counter) as u64,
                output: Vec::new(),
            };
        }
        let op = program.code[pc];
        if op == 0x00 {
            // STOP
            return FrameOutcome::Success {
                reason: SuccessReason::Stop,
                gas_used: (gas_limit_i - gas_counter) as u64,
                output: Vec::new(),
            };
        } else if 0x01 <= op && op <= 0x1d {
            match op_arith(op, &mut ctx.stack, &mut gas_counter) {
                Ok(_) => {
                    pc = pc + 1;
                },
                Err(h) => {
                    return FrameOutcome::Halt { reason: h, gas_used: ctx.gas_limit };
                },
            }
        } else if op == 0x20 || op == 0x37 || op == 0x39 || op == 0x3c || op == 0x3e || op
            == 0x51 || op == 0x52 || op == 0x53 || op == 0x59 || op == 0x5e {
            match op_memory(
                op,
                &ctx.contract,
                journal,
                &ctx.return_data,
                &mut ctx.memory,
                &mut ctx.stack,
                &mut gas_counter,
            ) {
                Ok(_) => {
                    pc = pc + 1;
                },
                Err(h) => {
                    return FrameOutcome::Halt { reason: h, gas_used: ctx.gas_limit };
                },
            }
        } else if (0x30 <= op && op <= 0x36) || op == 0x38 || op == 0x3a || op == 0x3b || op
            == 0x3d || op == 0x3f || (0x40 <= op && op <= 0x4a) {
            let rd_len = ctx.return_data.len();
            match op_env(op, &ctx.contract, env, journal, rd_len, &mut ctx.stack, &mut
            gas_counter) {
                Ok(_) => {
                    pc = pc + 1;
                },
                Err(h) => {
                    return FrameOutcome::Halt { reason: h, gas_used: ctx.gas_limit };
                },
            }
        } else if op == 0x54 || op == 0x55 || op == 0x5c || op == 0x5d || (0xa0 <= op && op
            <= 0xa4) {
            let is_static = ctx.is_static;
            match op_state(
                op,
                &ctx.contract,
                is_static,
                journal,
                &mut ctx.memory,
                &mut ctx.stack,
                &mut gas_counter,
            ) {
                Ok(_) => {
                    pc = pc + 1;
                },
                Err(h) => {
                    return FrameOutcome::Halt { reason: h, gas_used: ctx.gas_limit };
                },
            }
        } else if op == 0x50 || op == 0x58 || op == 0x5a || op == 0x5b || op == 0x5f || (
        0x60 <= op && op <= 0x9f) {
            // POP, PC, GAS, JUMPDEST, and the PUSH, DUP and SWAP families.
            match op_stack_control(op, program, pc, &mut ctx.stack, &mut gas_counter) {
                Ok(advance) => {
                    pc = pc + advance;
                },
                Err(h) => {
                    return FrameOutcome::Halt { reason: h, gas_used: ctx.gas_limit };
                },
            }
        } else if op == 0x56 {
            // JUMP
            if !charge(&mut gas_counter, gas::JUMP) {
                return FrameOutcome::Halt {
                    reason: HaltReason::OutOfGas(OutOfGasError::Basic),
                    gas_used: ctx.gas_limit,
                };
            }
            let target = match ctx.stack.pop() {
                Ok(v) => v,
                Err(h) => {
                    return FrameOutcome::Halt { reason: h, gas_used: ctx.gas_limit };
                },
            };
            match jump_dest(program, target) {
                Ok(p) => {
                    pc = p;
                },
                Err(h) => {
                    return FrameOutcome::Halt { reason: h, gas_used: ctx.gas_limit };
                },
            }
        } else if op == 0x57 {
            // JUMPI
            if !charge(&mut gas_counter, gas::JUMPI) {
                return FrameOutcome::Halt {
                    reason: HaltReason::OutOfGas(OutOfGasError::Basic),
                    gas_used: ctx.gas_limit,
                };
            }
            let target = match ctx.stack.pop() {
                Ok(v) => v,
                Err(h) => {
                    return FrameOutcome::Halt { reason: h, gas_used: ctx.gas_limit };
                },
            };
            let cond = match ctx.stack.pop() {
                Ok(v) => v,
                Err(h) => {
                    return FrameOutcome::Halt { reason: h, gas_used: ctx.gas_limit };
                },
            };
            if cond.is_zero() {
                pc = pc + 1;
            } else {
                match jump_dest(program, target) {
                    Ok(p) => {
                        pc = p;
                    },
                    Err(h) => {
                        return FrameOutcome::Halt { reason: h, gas_used: ctx.gas_limit };
                    },
                }
            }
        } else if op == 0xf3 || op == 0xfd {
            // RETURN / REVERT: the memory range is the output.
            match op_exit(ctx, &mut gas_counter) {
                Ok(output) => {
                    if op == 0xf3 {
                        return FrameOutcome::Success {
                            reason: SuccessReason::Return,
                            gas_used: (gas_limit_i - gas_counter) as u64,
                            output,
                        };
                    } else {
                        return FrameOutcome::Revert {
                            gas_used: (gas_limit_i - gas_counter) as u64,
                            output,
                        };
                    }
                },
                Err(h) => {
                    return FrameOutcome::Halt { reason: h, gas_used: ctx.gas_limit };
                },
            }
        } else if op == 0xfe {
            // INVALID
            return FrameOutcome::Halt {
                reason: HaltReason::InvalidFEOpcode,
                gas_used: ctx.gas_limit,
            };
        } else if op == 0xff {
            // SELFDESTRUCT: move the whole balance to the recipient.
            match op_selfdestruct(journal, ctx, &mut gas_counter) {
                Ok(_) => {
                    return FrameOutcome::Success {
                        reason: SuccessReason::Selfdestruct,
                        gas_used: (gas_limit_i - gas_counter) as u64,
                        output: Vec::new(),
                    };
                },
                Err(h) => {
                    return FrameOutcome::Halt { reason: h, gas_used: ctx.gas_limit };
                },
            }
        } else if op == 0xf0 || op == 0xf5 {
            // CREATE / CREATE2
            match op_create(op, env, journal, ctx, &mut gas_counter) {
                Ok(_) => {
                    pc = pc + 1;
                },
                Err(h) => {
                    return FrameOutcome::Halt { reason: h, gas_used: ctx.gas_limit };
                },
            }
        } else if op == 0xf1 || op == 0xf2 || op == 0xf4 || op == 0xfa {
            // CALL / CALLCODE / DELEGATECALL / STATICCALL
            match op_call(op, env, journal, ctx, &mut gas_counter) {
                Ok(_) => {
                    pc = pc + 1;
                },
                Err(h) => {
                    return FrameOutcome::Halt { reason: h, gas_used: ctx.gas_limit };
                },
            }
        } else {
            return FrameOutcome::Halt {
                reason: HaltReason::OpcodeNotFound,
                gas_used: ctx.gas_limit,
            };
        }
    }
}


/// Perform one sub-call opcode (`CALL`, `CALLCODE`, `DELEGATECALL`,
/// `STATICCALL`): charge the base, memory and value costs, forward at
/// most all but a 64th of the remaining gas (plus the stipend for a
/// value-bearing call), run the callee under a checkpoint, commit on
/// success and revert otherwise, copy the returned bytes to memory, and
/// push the return code.
#[verifier::rlimit(100)]
fn op_call(
    op: u8,
    env: &Env,
    journal: &mut JournaledState,
    ctx: &mut RuntimeContext,
    gas_counter: &mut i64,
) -> (r: Result<(), HaltReason>)
    requires
        op == 0xf1 || op == 0xf2 || op == 0xf4 || op == 0xfa,
        old(ctx).well_formed(),
        old(ctx).depth < crate::CALL_STACK_LIMIT,
        old(journal).well_formed(),
        0 <= *old(gas_counter),
        *old(gas_counter) <= old(ctx).gas_limit,
    ensures
        final(ctx).well_formed(),
        final(ctx).contract == old(ctx).contract,
        final(ctx).depth == old(ctx).depth,
        final(ctx).is_static == old(ctx).is_static,
        final(ctx).spec_id == old(ctx).spec_id,
        final(ctx).gas_limit == old(ctx).gas_limit,
        final(journal).well_formed(),
        final(journal).checkpoints_view() == old(journal).checkpoints_view(),
        final(journal).logs_view().len() >= old(journal).logs_view().len(),
        forall|i: int|
            0 <= i < old(journal).logs_view().len() ==> final(journal).logs_view()[i] == old(
                journal,
            ).logs_view()[i],
        0 <= *final(gas_counter) <= *old(gas_counter),
        r is Ok ==> *final(gas_counter) < *old(gas_counter),
        r matches Err(h) ==> !(h is CallTooDeep),
    decreases old(ctx).gas_limit, 0nat,
{
    let is_call = op == 0xf1;
    let is_delegate = op == 0xf4;
    let with_value = op == 0xf1 || op == 0xf2;
    if !charge(gas_counter, gas::CALL) {
        return Err(HaltReason::OutOfGas(OutOfGasError::Basic));
    }
    let gas_req = match ctx.stack.pop() {
        Ok(v) => v,
        Err(h) => { return Err(h) },
    };
    let addr_word = match ctx.stack.pop() {
        Ok(v) => v,
        Err(h) => { return Err(h) },
    };
    let value = if with_value {
        match ctx.stack.pop() {
            Ok(v) => v,
            Err(h) => { return Err(h) },
        }
    } else {
        U256::zero()
    };
    let in_off = match ctx.stack.pop() {
        Ok(v) => v,
        Err(h) => { return Err(h) },
    };
    let in_len = match ctx.stack.pop() {
        Ok(v) => v,
        Err(h) => { return Err(h) },
    };
    let out_off = match ctx.stack.pop() {
        Ok(v) => v,
        Err(h) => { return Err(h) },
    };
    let out_len = match ctx.stack.pop() {
        Ok(v) => v,
        Err(h) => { return Err(h) },
    };
    if ctx.is_static && is_call && !value.is_zero() {
        return Err(HaltReason::CallNotAllowedInsideStatic);
    }
    let in_ptr = match charge_memory(&mut ctx.memory, gas_counter, in_off, in_len) {
        Ok(p) => p,
        Err(h) => { return Err(h) },
    };
    let out_ptr = match charge_memory(&mut ctx.memory, gas_counter, out_off, out_len) {
        Ok(p) => p,
        Err(h) => { return Err(h) },
    };
    let has_value = with_value && !value.is_zero();
    if has_value {
        if !charge(gas_counter, gas::NOT_ZERO_VALUE_COST as i64) {
            return Err(HaltReason::OutOfGas(OutOfGasError::Basic));
        }
    }
    // All but a 64th of the remainder may be forwarded.
    let cap: i64 = *gas_counter - *gas_counter / 64;
    let (req64, req_fits) = gas_req.to_u64();
    let forwarded: i64 = if req_fits && req64 < (cap as u64) {
        req64 as i64
    } else {
        cap
    };
    *gas_counter = *gas_counter - forwarded;
    let stipend: i64 = if has_value {
        gas::STIPEND_GAS_ADDITION as i64
    } else {
        0
    };
    let child_gas: i64 = forwarded + stipend;
    let (in_len64, in_len_fits) = in_len.to_u64();
    if !in_len_fits {
        return Err(HaltReason::OutOfGas(OutOfGasError::InvalidOperand));
    }
    let input = if in_len64 == 0 {
        Vec::new()
    } else {
        ctx.memory.read_bytes(in_ptr, in_len64 as usize)
    };
    let callee = Address::from_word(addr_word);
    journal.checkpoint();
    let transferred = if is_call {
        match transfer_balance(journal, ctx.contract.address, callee, value) {
            Ok(b) => b,
            Err(h) => {
                journal.revert_checkpoint();
                return Err(h);
            },
        }
    } else {
        true
    };
    if !transferred {
        // Insufficient balance: the call fails without running the
        // callee, and the forwarded gas returns.
        journal.revert_checkpoint();
        *gas_counter = *gas_counter + forwarded;
        ctx.return_data = Vec::new();
        return match ctx.stack.push(U256::zero()) {
            Ok(_) => Ok(()),
            Err(h) => Err(h),
        };
    }
    let callee_code = match journal.get_account(&callee) {
        Some(a) => crate::journal::copy_bytes(&a.code),
        None => Vec::new(),
    };
    if callee_code.len() > usize::MAX - 33 {
        journal.revert_checkpoint();
        return Err(HaltReason::CreateContractSizeLimit);
    }
    let child_contract = Contract {
        code: callee_code,
        hash: None,
        address: if is_call || op == 0xfa {
            callee
        } else {
            ctx.contract.address
        },
        caller: if is_delegate {
            ctx.contract.caller
        } else {
            ctx.contract.address
        },
        call_value: if is_delegate {
            ctx.contract.call_value
        } else {
            value
        },
        input,
    };
    let child_program = Program::from_opcodes(crate::journal::copy_bytes(&child_contract.code));
    let mut child_ctx = RuntimeContext::new(
        child_contract,
        ctx.depth + 1,
        ctx.is_static || op == 0xfa,
        false,
        ctx.spec_id,
        child_gas as u64,
    );
    proof {
        assert(child_ctx.gas_limit < old(ctx).gas_limit);
    }
    let outcome = execute(&child_program, env, journal, &mut child_ctx);
    let (success, unused, returned): (bool, i64, Vec<u8>) = match outcome {
        FrameOutcome::Success { gas_used, output, .. } => {
            journal.commit_checkpoint();
            (true, child_gas - (gas_used as i64), output)
        },
        FrameOutcome::Revert { gas_used, output } => {
            journal.revert_checkpoint();
            (false, child_gas - (gas_used as i64), output)
        },
        FrameOutcome::Halt { .. } => {
            journal.revert_checkpoint();
            (false, 0, Vec::new())
        },
    };
    *gas_counter = *gas_counter + unused;
    let (out_len64, out_len_fits) = out_len.to_u64();
    if !out_len_fits {
        return Err(HaltReason::OutOfGas(OutOfGasError::InvalidOperand));
    }
    let copy_n: usize = if returned.len() < (out_len64 as usize) {
        returned.len()
    } else {
        out_len64 as usize
    };
    if copy_n > 0 {
        let mut window: Vec<u8> = Vec::new();
        let mut w: usize = 0;
        while w < copy_n
            invariant
                w <= copy_n <= returned@.len(),
                window@.len() == w,
            decreases copy_n - w,
        {
            window.push(returned[w]);
            w = w + 1;
        }
        ctx.memory.write_bytes(out_ptr, window.as_slice());
    }
    ctx.return_data = returned;
    match ctx.stack.push(bool_word(success)) {
        Ok(_) => Ok(()),
        Err(h) => Err(h),
    }
}

/// Carry out a contract-creating transaction: meter the initcode, bump
/// the deployer's nonce, derive the new address, run the initcode at
/// depth zero under a checkpoint, and deposit the returned code. The
/// deployed address accompanies a successful outcome; the gas used never
/// exceeds the limit, and a halt consumes it exactly.
#[verifier::rlimit(100)]
pub fn create_transaction(
    env: &Env,
    journal: &mut JournaledState,
    caller: Address,
    value: U256,
    initcode: Vec<u8>,
    gas_limit: u64,
    spec_id: SpecId,
) -> (r: (FrameOutcome, Option<Address>))
    requires
        initcode@.len() <= usize::MAX - 33,
        gas_limit <= i64::MAX,
        old(journal).well_formed(),
    ensures
        final(journal).well_formed(),
        final(journal).checkpoints_view() == old(journal).checkpoints_view(),
        final(journal).logs_view().len() >= old(journal).logs_view().len(),
        forall|i: int|
            0 <= i < old(journal).logs_view().len() ==> final(journal).logs_view()[i] == old(
                journal,
            ).logs_view()[i],
        r.0.spec_gas_used() <= gas_limit,
        r.0 is Halt ==> r.0.spec_gas_used() == gas_limit,
        initcode@.len() > gas::MAX_INITCODE_SIZE ==> r == (
        FrameOutcome::Halt { reason: HaltReason::CreateInitCodeSizeLimit, gas_used: gas_limit },
        Option::<Address>::None,
        ),
        initcode@.len() <= gas::MAX_INITCODE_SIZE && gas::INITCODE_WORD_COST * gas::words_of(
            initcode@.len() as int,
        ) > gas_limit ==> r == (
        FrameOutcome::Halt {
            reason: HaltReason::OutOfGas(OutOfGasError::Create),
            gas_used: gas_limit,
        },
        Option::<Address>::None,
        ),
        initcode@.len() <= gas::MAX_INITCODE_SIZE && gas::INITCODE_WORD_COST * gas::words_of(
            initcode@.len() as int,
        ) <= gas_limit && crate::journal::account_or_empty(
            old(journal).accounts_view(),
            caller.as_nat(),
        ).balance < value.as_nat() ==> r == (
        FrameOutcome::Halt { reason: HaltReason::OutOfFunds, gas_used: gas_limit },
        Option::<Address>::None,
        ),
        initcode@.len() <= gas::MAX_INITCODE_SIZE && gas::INITCODE_WORD_COST * gas::words_of(
            initcode@.len() as int,
        ) <= gas_limit && crate::journal::account_or_empty(
            old(journal).accounts_view(),
            caller.as_nat(),
        ).balance >= value.as_nat() && crate::journal::account_or_empty(
            old(journal).accounts_view(),
            caller.as_nat(),
        ).nonce == u64::MAX ==> r == (
        FrameOutcome::Halt { reason: HaltReason::NonceOverflow, gas_used: gas_limit },
        Option::<Address>::None,
        ),
        r.0 is Success ==> r.1 is Some,
        !(r.0 is Success) ==> r.1 is None,
        r.0 matches FrameOutcome::Success { output, .. }
            ==> final(journal).accounts_view().contains_key(r.1->0.as_nat())
            && final(journal).accounts_view()[r.1->0.as_nat()].code == output@
            && final(journal).accounts_view()[r.1->0.as_nat()].nonce == 1,
{
    let mut gas_counter: i64 = gas_limit as i64;
    if initcode.len() > gas::MAX_INITCODE_SIZE {
        return (
            FrameOutcome::Halt { reason: HaltReason::CreateInitCodeSizeLimit, gas_used: gas_limit },
            None,
        );
    }
    let meter = gas::init_code_cost(initcode.len());
    if !charge(&mut gas_counter, meter as i64) {
        return (
            FrameOutcome::Halt {
                reason: HaltReason::OutOfGas(OutOfGasError::Create),
                gas_used: gas_limit,
            },
            None,
        );
    }
    let (caller_balance, caller_nonce, caller_code) = match journal.get_account(&caller) {
        Some(a) => (a.balance, a.nonce, crate::journal::copy_bytes(&a.code)),
        None => (U256::zero(), 0u64, Vec::new()),
    };
    if caller_balance.lt_u(value) {
        return (
            FrameOutcome::Halt { reason: HaltReason::OutOfFunds, gas_used: gas_limit },
            None,
        );
    }
    if caller_nonce == u64::MAX {
        return (
            FrameOutcome::Halt { reason: HaltReason::NonceOverflow, gas_used: gas_limit },
            None,
        );
    }
    journal.set_account(
        caller,
        Account { balance: caller_balance, nonce: caller_nonce + 1, code: caller_code },
    );
    let new_address = create_address(caller, caller_nonce);
    let collision = match journal.get_account(&new_address) {
        Some(a) => a.nonce > 0 || a.code.len() > 0,
        None => false,
    };
    if collision {
        return (
            FrameOutcome::Halt { reason: HaltReason::CreateCollision, gas_used: gas_limit },
            None,
        );
    }
    journal.checkpoint();
    journal.set_account(
        new_address,
        Account { balance: U256::zero(), nonce: 1, code: Vec::new() },
    );
    let moved = match transfer_balance(journal, caller, new_address, value) {
        Ok(b) => b,
        Err(h) => {
            journal.revert_checkpoint();
            return (FrameOutcome::Halt { reason: h, gas_used: gas_limit }, None);
        },
    };
    if !moved {
        journal.revert_checkpoint();
        return (
            FrameOutcome::Halt { reason: HaltReason::OutOfFunds, gas_used: gas_limit },
            None,
        );
    }
    let child_contract = Contract {
        code: initcode,
        hash: None,
        address: new_address,
        caller,
        call_value: value,
        input: Vec::new(),
    };
    let child_program = Program::from_opcodes(crate::journal::copy_bytes(&child_contract.code));
    let mut child_ctx = RuntimeContext::new(
        child_contract,
        0,
        false,
        false,
        spec_id,
        gas_counter as u64,
    );
    let outcome = execute(&child_program, env, journal, &mut child_ctx);
    match outcome {
        FrameOutcome::Success { gas_used, output, .. } => {
            gas_counter = gas_counter - (gas_used as i64);
            if output.len() > gas::MAX_CODE_SIZE {
                journal.revert_checkpoint();
                return (
                    FrameOutcome::Halt {
                        reason: HaltReason::CreateContractSizeLimit,
                        gas_used: gas_limit,
                    },
                    None,
                );
            }
            if output.len() > 0 && output[0] == 0xef {
                journal.revert_checkpoint();
                return (
                    FrameOutcome::Halt {
                        reason: HaltReason::CreateContractStartingWithEF,
                        gas_used: gas_limit,
                    },
                    None,
                );
            }
            if !charge(&mut gas_counter, (gas::CODEDEPOSIT as i64) * (output.len() as i64)) {
                journal.revert_checkpoint();
                return (
                    FrameOutcome::Halt {
                        reason: HaltReason::OutOfGas(OutOfGasError::Create),
                        gas_used: gas_limit,
                    },
                    None,
                );
            }
            let new_balance = match journal.get_account(&new_address) {
                Some(a) => a.balance,
                None => U256::zero(),
            };
            let deployed = crate::journal::copy_bytes(&output);
            journal.set_account(
                new_address,
                Account { balance: new_balance, nonce: 1, code: deployed },
            );
            journal.commit_checkpoint();
            (
                FrameOutcome::Success {
                    reason: SuccessReason::Return,
                    gas_used: (gas_limit as i64 - gas_counter) as u64,
                    output,
                },
                Some(new_address),
            )
        },
        FrameOutcome::Revert { gas_used, output } => {
            journal.revert_checkpoint();
            gas_counter = gas_counter - (gas_used as i64);
            (
                FrameOutcome::Revert {
                    gas_used: (gas_limit as i64 - gas_counter) as u64,
                    output,
                },
                None,
            )
        },
        FrameOutcome::Halt { reason, .. } => {
            journal.revert_checkpoint();
            (FrameOutcome::Halt { reason, gas_used: gas_limit }, None)
        },
    }
}

/// Perform a `CREATE` or `CREATE2`: charge the base, memory and
/// initcode-metering costs, derive the new address, run the initcode
/// under a checkpoint with the sender's nonce bumped, deposit the
/// returned code, and push the new address — or zero when the creation
/// failed.
#[verifier::rlimit(100)]
fn op_create(
    op: u8,
    env: &Env,
    journal: &mut JournaledState,
    ctx: &mut RuntimeContext,
    gas_counter: &mut i64,
) -> (r: Result<(), HaltReason>)
    requires
        op == 0xf0 || op == 0xf5,
        old(ctx).well_formed(),
        old(ctx).depth < crate::CALL_STACK_LIMIT,
        old(journal).well_formed(),
        0 <= *old(gas_counter),
        *old(gas_counter) <= old(ctx).gas_limit,
    ensures
        final(ctx).well_formed(),
        final(ctx).contract == old(ctx).contract,
        final(ctx).depth == old(ctx).depth,
        final(ctx).is_static == old(ctx).is_static,
        final(ctx).spec_id == old(ctx).spec_id,
        final(ctx).gas_limit == old(ctx).gas_limit,
        final(journal).well_formed(),
        final(journal).checkpoints_view() == old(journal).checkpoints_view(),
        final(journal).logs_view().len() >= old(journal).logs_view().len(),
        forall|i: int|
            0 <= i < old(journal).logs_view().len() ==> final(journal).logs_view()[i] == old(
                journal,
            ).logs_view()[i],
        0 <= *final(gas_counter) <= *old(gas_counter),
        r is Ok ==> *final(gas_counter) < *old(gas_counter),
        r matches Err(h) ==> !(h is CallTooDeep),
    decreases old(ctx).gas_limit, 0nat,
{
    if ctx.is_static {
        return Err(HaltReason::StateChangeDuringStaticcall);
    }
    if !charge(gas_counter, gas::CREATE) {
        return Err(HaltReason::OutOfGas(OutOfGasError::Basic));
    }
    let value = match ctx.stack.pop() {
        Ok(v) => v,
        Err(h) => { return Err(h) },
    };
    let offset = match ctx.stack.pop() {
        Ok(v) => v,
        Err(h) => { return Err(h) },
    };
    let len = match ctx.stack.pop() {
        Ok(v) => v,
        Err(h) => { return Err(h) },
    };
    let salt = if op == 0xf5 {
        match ctx.stack.pop() {
            Ok(v) => v,
            Err(h) => { return Err(h) },
        }
    } else {
        U256::zero()
    };
    let (len64, len_fits) = len.to_u64();
    if !len_fits {
        return Err(HaltReason::OutOfGas(OutOfGasError::InvalidOperand));
    }
    if len64 as usize > gas::MAX_INITCODE_SIZE {
        return Err(HaltReason::CreateInitCodeSizeLimit);
    }
    let p = match charge_memory(&mut ctx.memory, gas_counter, offset, len) {
        Ok(p) => p,
        Err(h) => { return Err(h) },
    };
    // Initcode metering, and for CREATE2 the hashing of the initcode.
    let meter = gas::init_code_cost(len64 as usize);
    if !charge(gas_counter, meter as i64) {
        return Err(HaltReason::OutOfGas(OutOfGasError::Create));
    }
    if op == 0xf5 {
        let words: i64 = ((len64 + 31) / 32) as i64;
        if !charge(gas_counter, gas::HASH_WORD_COST * words) {
            return Err(HaltReason::OutOfGas(OutOfGasError::Create));
        }
    }
    let initcode = if len64 == 0 {
        Vec::new()
    } else {
        ctx.memory.read_bytes(p, len64 as usize)
    };
    // The sender's balance must cover the value and its nonce must have
    // room; the nonce is bumped whether or not the initcode succeeds.
    let (sender_balance, sender_nonce, sender_code) = match journal.get_account(
        &ctx.contract.address,
    ) {
        Some(a) => (a.balance, a.nonce, crate::journal::copy_bytes(&a.code)),
        None => (U256::zero(), 0u64, Vec::new()),
    };
    if sender_balance.lt_u(value) {
        ctx.return_data = Vec::new();
        return match ctx.stack.push(U256::zero()) {
            Ok(_) => Ok(()),
            Err(h) => Err(h),
        };
    }
    if sender_nonce == u64::MAX {
        return Err(HaltReason::NonceOverflow);
    }
    journal.set_account(
        ctx.contract.address,
        Account { balance: sender_balance, nonce: sender_nonce + 1, code: sender_code },
    );
    let new_address = if op == 0xf5 {
        create2_address(ctx.contract.address, salt, &initcode)
    } else {
        create_address(ctx.contract.address, sender_nonce)
    };
    // A collision with a live account refuses the creation.
    let collision = match journal.get_account(&new_address) {
        Some(a) => a.nonce > 0 || a.code.len() > 0,
        None => false,
    };
    if collision {
        ctx.return_data = Vec::new();
        return match ctx.stack.push(U256::zero()) {
            Ok(_) => Ok(()),
            Err(h) => Err(h),
        };
    }
    // All but a 64th of the remainder goes to the initcode.
    let forwarded: i64 = *gas_counter - *gas_counter / 64;
    *gas_counter = *gas_counter - forwarded;
    journal.checkpoint();
    journal.set_account(
        new_address,
        Account { balance: U256::zero(), nonce: 1, code: Vec::new() },
    );
    let moved = match transfer_balance(journal, ctx.contract.address, new_address, value) {
        Ok(b) => b,
        Err(h) => {
            journal.revert_checkpoint();
            return Err(h);
        },
    };
    if !moved {
        journal.revert_checkpoint();
        *gas_counter = *gas_counter + forwarded;
        ctx.return_data = Vec::new();
        return match ctx.stack.push(U256::zero()) {
            Ok(_) => Ok(()),
            Err(h) => Err(h),
        };
    }
    let child_contract = Contract {
        code: initcode,
        hash: None,
        address: new_address,
        caller: ctx.contract.address,
        call_value: value,
        input: Vec::new(),
    };
    let child_program = Program::from_opcodes(crate::journal::copy_bytes(&child_contract.code));
    let mut child_ctx = RuntimeContext::new(
        child_contract,
        ctx.depth + 1,
        false,
        false,
        ctx.spec_id,
        forwarded as u64,
    );
    proof {
        assert(child_ctx.gas_limit < old(ctx).gas_limit);
    }
    let outcome = execute(&child_program, env, journal, &mut child_ctx);
    match outcome {
        FrameOutcome::Success { gas_used, output, .. } => {
            *gas_counter = *gas_counter + (forwarded - (gas_used as i64));
            let deposit_ok = output.len() <= gas::MAX_CODE_SIZE && (output.len() == 0
                || output[0] != 0xef);
            let paid = if deposit_ok {
                charge(gas_counter, (gas::CODEDEPOSIT as i64) * (output.len() as i64))
            } else {
                false
            };
            if !paid {
                // An oversized contract, a code body opening with 0xEF,
                // or an unpayable deposit fails the creation.
                journal.revert_checkpoint();
                ctx.return_data = Vec::new();
                return match ctx.stack.push(U256::zero()) {
                    Ok(_) => Ok(()),
                    Err(h) => Err(h),
                };
            }
            let new_balance = match journal.get_account(&new_address) {
                Some(a) => a.balance,
                None => U256::zero(),
            };
            journal.set_account(
                new_address,
                Account { balance: new_balance, nonce: 1, code: output },
            );
            journal.commit_checkpoint();
            ctx.return_data = Vec::new();
            match ctx.stack.push(new_address.word) {
                Ok(_) => Ok(()),
                Err(h) => Err(h),
            }
        },
        FrameOutcome::Revert { gas_used, output } => {
            journal.revert_checkpoint();
            *gas_counter = *gas_counter + (forwarded - (gas_used as i64));
            ctx.return_data = output;
            match ctx.stack.push(U256::zero()) {
                Ok(_) => Ok(()),
                Err(h) => Err(h),
            }
        },
        FrameOutcome::Halt { .. } => {
            journal.revert_checkpoint();
            ctx.return_data = Vec::new();
            match ctx.stack.push(U256::zero()) {
                Ok(_) => Ok(()),
                Err(h) => Err(h),
            }
        },
    }
}

/// Perform `SELFDESTRUCT`: charge its cost, then move the executing
/// account's whole balance to the popped recipient. Refused inside a
/// static call.
fn op_selfdestruct(
    journal: &mut JournaledState,
    ctx: &mut RuntimeContext,
    gas_counter: &mut i64,
) -> (r: Result<(), HaltReason>)
    requires
        old(ctx).well_formed(),
        old(journal).well_formed(),
        0 <= *old(gas_counter),
    ensures
        final(ctx).well_formed(),
        final(ctx).contract == old(ctx).contract,
        final(ctx).depth == old(ctx).depth,
        final(ctx).is_static == old(ctx).is_static,
        final(ctx).spec_id == old(ctx).spec_id,
        final(ctx).gas_limit == old(ctx).gas_limit,
        final(journal).well_formed(),
        final(journal).checkpoints_view() == old(journal).checkpoints_view(),
        final(journal).logs_view() == old(journal).logs_view(),
        0 <= *final(gas_counter) <= *old(gas_counter),
        r is Ok ==> *final(gas_counter) < *old(gas_counter),
        r matches Err(h) ==> !(h is CallTooDeep),
{
    if ctx.is_static {
        return Err(HaltReason::StateChangeDuringStaticcall);
    }
    if !charge(gas_counter, gas::SELFDESTRUCT) {
        return Err(HaltReason::OutOfGas(OutOfGasError::Basic));
    }
    let w = match ctx.stack.pop() {
        Ok(v) => v,
        Err(h) => { return Err(h) },
    };
    let recipient = Address::from_word(w);
    let balance = match journal.get_account(&ctx.contract.address) {
        Some(a) => a.balance,
        None => U256::zero(),
    };
    match transfer_balance(journal, ctx.contract.address, recipient, balance) {
        Ok(_) => Ok(()),
        Err(h) => Err(h),
    }
}

/// Read the output range of a `RETURN` or `REVERT`: pop the offset and
/// length, charge and perform the expansion, and hand back the bytes.
fn op_exit(ctx: &mut RuntimeContext, gas_counter: &mut i64) -> (r: Result<Vec<u8>, HaltReason>)
    requires
        old(ctx).well_formed(),
        0 <= *old(gas_counter),
    ensures
        final(ctx).well_formed(),
        final(ctx).contract == old(ctx).contract,
        final(ctx).depth == old(ctx).depth,
        final(ctx).is_static == old(ctx).is_static,
        final(ctx).spec_id == old(ctx).spec_id,
        final(ctx).gas_limit == old(ctx).gas_limit,
        0 <= *final(gas_counter) <= *old(gas_counter),
        r matches Err(h) ==> !(h is CallTooDeep),
{
    let off = match ctx.stack.pop() {
        Ok(v) => v,
        Err(h) => { return Err(h) },
    };
    let len = match ctx.stack.pop() {
        Ok(v) => v,
        Err(h) => { return Err(h) },
    };
    let p = match charge_memory(&mut ctx.memory, gas_counter, off, len) {
        Ok(p) => p,
        Err(h) => { return Err(h) },
    };
    let (len64, len_fits) = len.to_u64();
    if !len_fits {
        return Err(HaltReason::OutOfGas(OutOfGasError::InvalidOperand));
    }
    if len64 == 0 {
        Ok(Vec::new())
    } else {
        Ok(ctx.memory.read_bytes(p, len64 as usize))
    }
}

/// Perform one stack-manipulation opcode (`POP`, `PC`, `GAS`,
/// `JUMPDEST`, and the `PUSH`, `DUP` and `SWAP` families): charge its
/// cost and apply it, handing back how far the program counter advances
/// (one opcode plus any immediates).
fn op_stack_control(
    op: u8,
    program: &Program,
    pc: usize,
    stack: &mut Stack,
    gas_counter: &mut i64,
) -> (r: Result<usize, HaltReason>)
    requires
        op == 0x50 || op == 0x58 || op == 0x5a || op == 0x5b || op == 0x5f || (0x60 <= op && op
            <= 0x9f),
        pc < program.code@.len(),
        program.code@.len() <= usize::MAX - 33,
        old(stack).well_formed(),
        0 <= *old(gas_counter),
    ensures
        final(stack).well_formed(),
        0 <= *final(gas_counter) <= *old(gas_counter),
        r is Ok ==> *final(gas_counter) < *old(gas_counter),
        r matches Ok(advance) ==> 1 <= advance <= 33,
        r matches Err(h) ==> !(h is CallTooDeep),
        op == 0x5b && *old(gas_counter) >= gas::JUMPDEST ==> r == Ok::<usize, HaltReason>(1)
            && final(stack)@ == old(stack)@ && *final(gas_counter) == *old(gas_counter)
            - gas::JUMPDEST,
        0x60 <= op <= 0x7f && *old(gas_counter) >= gas::PUSHN && old(stack)@.len()
            < crate::MAX_STACK_SIZE ==> (r matches Ok(advance) && advance == 1 + (op - 0x5f)
            && final(stack)@.len() == old(stack)@.len() + 1
            && *final(gas_counter) == *old(gas_counter) - gas::PUSHN),
        op == 0x50 && *old(gas_counter) >= gas::POP && old(stack)@.len() >= 1 ==> (r matches
            Ok(advance) && advance == 1 && final(stack)@ == old(stack)@.drop_last()
            && *final(gas_counter) == *old(gas_counter) - gas::POP),
{
    if op == 0x50 {
        // POP
        if !charge(gas_counter, gas::POP) {
            return Err(HaltReason::OutOfGas(OutOfGasError::Basic));
        }
        match stack.pop() {
            Ok(_) => Ok(1),
            Err(h) => Err(h),
        }
    } else if op == 0x58 {
        // PC
        if !charge(gas_counter, gas::PC) {
            return Err(HaltReason::OutOfGas(OutOfGasError::Basic));
        }
        match stack.push(U256::from_u64(pc as u64)) {
            Ok(_) => Ok(1),
            Err(h) => Err(h),
        }
    } else if op == 0x5a {
        // GAS
        if !charge(gas_counter, gas::GAS) {
            return Err(HaltReason::OutOfGas(OutOfGasError::Basic));
        }
        match stack.push(U256::from_u64(*gas_counter as u64)) {
            Ok(_) => Ok(1),
            Err(h) => Err(h),
        }
    } else if op == 0x5b {
        // JUMPDEST
        if !charge(gas_counter, gas::JUMPDEST) {
            return Err(HaltReason::OutOfGas(OutOfGasError::Basic));
        }
        Ok(1)
    } else if op == 0x5f {
        // PUSH0
        if !charge(gas_counter, gas::PUSH0) {
            return Err(HaltReason::OutOfGas(OutOfGasError::Basic));
        }
        match stack.push(U256::zero()) {
            Ok(_) => Ok(1),
            Err(h) => Err(h),
        }
    } else if 0x60 <= op && op <= 0x7f {
        // PUSH1 .. PUSH32: the immediates follow, zero past the end of
        // the code.
        if !charge(gas_counter, gas::PUSHN) {
            return Err(HaltReason::OutOfGas(OutOfGasError::Basic));
        }
        let count: usize = (op - 0x5f) as usize;
        let mut immediate: Vec<u8> = Vec::new();
        let mut k: usize = 0;
        let code_len = program.code.len();
        while k < count
            invariant
                k <= count <= 32,
                immediate@.len() == k,
                pc < code_len == program.code@.len(),
                code_len <= usize::MAX - 33,
            decreases count - k,
        {
            if pc + 1 + k < code_len {
                immediate.push(program.code[pc + 1 + k]);
            } else {
                immediate.push(0);
            }
            k = k + 1;
        }
        match stack.push(U256::from_be_bytes(immediate.as_slice())) {
            Ok(_) => Ok(1 + count),
            Err(h) => Err(h),
        }
    } else if 0x80 <= op && op <= 0x8f {
        // DUP1 .. DUP16
        if !charge(gas_counter, gas::DUPN) {
            return Err(HaltReason::OutOfGas(OutOfGasError::Basic));
        }
        let n: usize = (op - 0x7f) as usize;
        match stack.dup(n) {
            Ok(_) => Ok(1),
            Err(h) => Err(h),
        }
    } else {
        // SWAP1 .. SWAP16
        if !charge(gas_counter, gas::SWAPN) {
            return Err(HaltReason::OutOfGas(OutOfGasError::Basic));
        }
        let n: usize = (op - 0x8f) as usize;
        match stack.swap(n) {
            Ok(_) => Ok(1),
            Err(h) => Err(h),
        }
    }
}

} // verus!
