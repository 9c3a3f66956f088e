//! The three-tier IR builder surface: type construction, a generic SSA
//! builder, and the EVM-semantic builder, kept apart so that a bytecode
//! front end needs only the tiers it uses.

use vstd::prelude::*;
use crate::u256::U256;

verus! {

/// A failure while building or lowering IR.
#[derive(Debug, Clone, PartialEq, Eq)]
pub struct CompileError {
    pub message: String,
}

/// Result of a builder operation.
pub type CompileResult<T> = Result<T, CompileError>;

/// The handle types an IR backend works with: types, SSA values and
/// basic blocks.
pub trait IRTypes {
    type Type;

    type Value;

    type BasicBlock;
}

/// Integer comparison condition.
#[derive(Clone, Copy, Debug, PartialEq, Eq, PartialOrd, Ord, Hash, Structural)]
pub enum IntCC {
    /// `==`.
    Equal,
    /// `!=`.
    NotEqual,
    /// Signed `<`.
    SignedLessThan,
    /// Signed `>=`.
    SignedGreaterThanOrEqual,
    /// Signed `>`.
    SignedGreaterThan,
    /// Signed `<=`.
    SignedLessThanOrEqual,
    /// Unsigned `<`.
    UnsignedLessThan,
    /// Unsigned `>=`.
    UnsignedGreaterThanOrEqual,
    /// Unsigned `>`.
    UnsignedGreaterThan,
    /// Unsigned `<=`.
    UnsignedLessThanOrEqual,
}

/// Linkage type.
#[derive(Clone, Copy, Debug, PartialEq, Eq, Structural)]
pub enum Linkage {
    /// Defined outside of the module.
    Import,
    /// Defined in the module and visible outside.
    Public,
    /// Defined in the module, but not visible outside.
    Private,
}

/// Tier 1: creation of the basic IR types.
pub trait TypeMethods: IRTypes {
    /// A pointer type in the IR.
    fn type_ptr(&self) -> Self::Type;

    /// An integer type of the given bit width (1, 8, 32, 64 or 256).
    fn type_int(&self, bits: u32) -> Self::Type;
}

/// Tier 2: the generic SSA builder. Constants, shadow-stack helpers,
/// memory operations, control flow, and the arithmetic, comparison and
/// bitwise families. Division and modulus by zero produce zero rather
/// than trapping, matching the EVM.
pub trait Builder: IRTypes + TypeMethods {
    /// A boolean constant.
    fn bool_const(&mut self, value: bool) -> CompileResult<Self::Value>;

    /// A signed integer constant, sign-extended to `ty`.
    fn iconst(&mut self, ty: Self::Type, value: i64) -> CompileResult<Self::Value>;

    /// An unsigned integer constant of type `ty`.
    fn uconst(&mut self, ty: Self::Type, value: u64) -> CompileResult<Self::Value>;

    /// A 32-bit signed integer constant.
    fn iconst_32(&mut self, value: i32) -> CompileResult<Self::Value>;

    /// A 64-bit signed integer constant.
    fn iconst_64(&mut self, value: i64) -> CompileResult<Self::Value>;

    /// A 256-bit integer constant.
    fn iconst_256(&mut self, value: U256) -> CompileResult<Self::Value>;

    /// Push a value onto the shadow stack.
    fn stack_push(&mut self, value: Self::Value) -> CompileResult<()>;

    /// Pop the top value off the shadow stack.
    fn stack_pop(&mut self) -> CompileResult<Self::Value>;

    /// The top value of the shadow stack, left in place.
    fn stack_peek(&mut self) -> CompileResult<Self::Value>;

    /// The `n`-th value of the shadow stack, left in place.
    fn stack_peek_nth(&mut self, n: usize) -> CompileResult<Self::Value>;

    /// Exchange the values at depths `n` and `m` of the shadow stack.
    fn stack_exchange(&mut self, n: usize, m: usize) -> CompileResult<()>;

    /// Load a value of type `ty` from `ptr`.
    fn load(&mut self, ty: Self::Type, ptr: Self::Value) -> CompileResult<Self::Value>;

    /// Store `value` at `ptr`.
    fn store(&mut self, value: Self::Value, ptr: Self::Value);

    /// A no-op.
    fn nop(&mut self);

    /// Return from the function with `values`.
    fn ret(&mut self, values: &[Self::Value]);

    /// Compare `lhs` and `rhs` under `cond`.
    fn icmp(&mut self, cond: IntCC, lhs: Self::Value, rhs: Self::Value) -> CompileResult<
        Self::Value,
    >;

    /// Compare `lhs` against an immediate under `cond`.
    fn icmp_imm(&mut self, cond: IntCC, lhs: Self::Value, rhs: i64) -> CompileResult<
        Self::Value,
    >;

    /// Whether `ptr` is null.
    fn is_null(&mut self, ptr: Self::Value) -> CompileResult<Self::Value>;

    /// Whether `ptr` is not null.
    fn is_not_null(&mut self, ptr: Self::Value) -> CompileResult<Self::Value>;

    /// Branch unconditionally to `dest`.
    fn br(&mut self, dest: Self::BasicBlock);

    /// Branch on `cond` to `then_block` or `else_block`, passing each the
    /// given values.
    fn brif(
        &mut self,
        cond: Self::Value,
        then_block: Self::BasicBlock,
        else_block: Self::BasicBlock,
        then_values: &[Self::Value],
        else_values: &[Self::Value],
    );

    /// Branch on `cond`, hinting that the `then` side is rarely taken.
    fn brif_cold(
        &mut self,
        cond: Self::Value,
        then_block: Self::BasicBlock,
        else_block: Self::BasicBlock,
        then_is_cold: bool,
    ) {
        let _ = then_is_cold;
        self.brif(cond, then_block, else_block, &[], &[]);
    }

    /// An indexed switch over `targets` with a `default` successor.
    fn switch(
        &mut self,
        default: Self::BasicBlock,
        targets: &[(u64, Self::BasicBlock)],
        flag: Self::Value,
        flag_type: Self::Type,
        default_is_cold: bool,
    ) -> CompileResult<()>;

    /// Branch indirectly to `successor`.
    fn br_indirect(&mut self, successor: Self::BasicBlock);

    /// Choose between two values by `cond`.
    fn select(
        &mut self,
        cond: Self::Value,
        then_value: Self::Value,
        else_value: Self::Value,
    ) -> CompileResult<Self::Value>;

    /// Integer addition.
    fn iadd(&mut self, lhs: Self::Value, rhs: Self::Value) -> CompileResult<Self::Value>;

    /// Integer subtraction.
    fn isub(&mut self, lhs: Self::Value, rhs: Self::Value) -> CompileResult<Self::Value>;

    /// Integer multiplication.
    fn imul(&mut self, lhs: Self::Value, rhs: Self::Value) -> CompileResult<Self::Value>;

    /// Unsigned division; a zero divisor yields zero.
    fn udiv(&mut self, lhs: Self::Value, rhs: Self::Value) -> CompileResult<Self::Value>;

    /// Signed division; a zero divisor yields zero.
    fn sdiv(&mut self, lhs: Self::Value, rhs: Self::Value) -> CompileResult<Self::Value>;

    /// Unsigned modulo; a zero modulus yields zero.
    fn umod(&mut self, lhs: Self::Value, rhs: Self::Value) -> CompileResult<Self::Value>;

    /// Signed modulo; a zero modulus yields zero.
    fn smod(&mut self, lhs: Self::Value, rhs: Self::Value) -> CompileResult<Self::Value>;

    /// Addition modulo `modulus`; a zero modulus yields zero.
    fn addmod(
        &mut self,
        lhs: Self::Value,
        rhs: Self::Value,
        modulus: Self::Value,
    ) -> CompileResult<Self::Value>;

    /// Multiplication modulo `modulus`; a zero modulus yields zero.
    fn mulmod(
        &mut self,
        lhs: Self::Value,
        rhs: Self::Value,
        modulus: Self::Value,
    ) -> CompileResult<Self::Value>;

    /// `base` raised to `exponent`, modulo 2^256.
    fn exp(&mut self, base: Self::Value, exponent: Self::Value) -> CompileResult<Self::Value>;

    /// Sign-extend `value` from its `(byte + 1)`-th byte.
    fn signextend(&mut self, byte: Self::Value, value: Self::Value) -> CompileResult<
        Self::Value,
    >;

    /// Unsigned `lhs < rhs`.
    fn lt(&mut self, lhs: Self::Value, rhs: Self::Value) -> CompileResult<Self::Value>;

    /// Unsigned `lhs > rhs`.
    fn gt(&mut self, lhs: Self::Value, rhs: Self::Value) -> CompileResult<Self::Value>;

    /// Signed `lhs < rhs`.
    fn slt(&mut self, lhs: Self::Value, rhs: Self::Value) -> CompileResult<Self::Value>;

    /// Signed `lhs > rhs`.
    fn sgt(&mut self, lhs: Self::Value, rhs: Self::Value) -> CompileResult<Self::Value>;

    /// `lhs == rhs`.
    fn eq(&mut self, lhs: Self::Value, rhs: Self::Value) -> CompileResult<Self::Value>;

    /// Whether `value` is zero.
    fn iszero(&mut self, value: Self::Value) -> CompileResult<Self::Value>;

    /// Bitwise AND.
    fn and(&mut self, lhs: Self::Value, rhs: Self::Value) -> CompileResult<Self::Value>;

    /// Bitwise OR.
    fn or(&mut self, lhs: Self::Value, rhs: Self::Value) -> CompileResult<Self::Value>;

    /// Bitwise XOR.
    fn xor(&mut self, lhs: Self::Value, rhs: Self::Value) -> CompileResult<Self::Value>;

    /// Bitwise NOT.
    fn not(&mut self, value: Self::Value) -> CompileResult<Self::Value>;

    /// The byte of `value` at `index`, counted from the most significant
    /// end.
    fn byte(&mut self, index: Self::Value, value: Self::Value) -> CompileResult<Self::Value>;

    /// Shift `value` left by `shift` bits.
    fn shl(&mut self, shift: Self::Value, value: Self::Value) -> CompileResult<Self::Value>;

    /// Shift `value` right by `shift` bits, logically.
    fn shr(&mut self, shift: Self::Value, value: Self::Value) -> CompileResult<Self::Value>;

    /// Shift `value` right by `shift` bits, arithmetically.
    fn sar(&mut self, shift: Self::Value, value: Self::Value) -> CompileResult<Self::Value>;

    /// Unsigned remainder.
    fn urem(&mut self, lhs: Self::Value, rhs: Self::Value) -> CompileResult<Self::Value>;

    /// Signed remainder.
    fn srem(&mut self, lhs: Self::Value, rhs: Self::Value) -> CompileResult<Self::Value>;

    /// Addition of an immediate.
    fn iadd_imm(&mut self, lhs: Self::Value, rhs: i64) -> CompileResult<Self::Value>;

    /// Subtraction of an immediate.
    fn isub_imm(&mut self, lhs: Self::Value, rhs: i64) -> CompileResult<Self::Value>;

    /// Multiplication by an immediate.
    fn imul_imm(&mut self, lhs: Self::Value, rhs: i64) -> CompileResult<Self::Value>;

    /// Truncate `value` to the narrower type `to`.
    fn ireduce(&mut self, to: Self::Type, value: Self::Value) -> CompileResult<Self::Value>;

    /// The address of an element, offset from `ptr` by constant indices.
    fn gep(
        &mut self,
        ptr: Self::Value,
        indices: &[i32],
        element_ty: Self::Type,
        result_ty: Self::Type,
    ) -> CompileResult<Self::Value>;

    /// Copy `len` bytes from `src` to `dst`.
    fn memcpy(&mut self, dst: Self::Value, src: Self::Value, len: Self::Value) -> CompileResult<
        (),
    >;

    /// Copy an immediate number of bytes from `src` to `dst`.
    fn memcpy_inline(&mut self, dst: Self::Value, src: Self::Value, len: i64) -> CompileResult<
        (),
    > {
        let ty = self.type_int(64);
        let len = self.iconst(ty, len)?;
        self.memcpy(dst, src, len)
    }

    /// Mark the current location as unreachable.
    fn unreachable(&mut self);
}

/// Tier 3: one operation per EVM opcode family. Each either lowers to
/// inline tier-2 SSA or to a call into the host-syscall surface.
pub trait EVMBuilder: Builder {
    /// Keccak-256 hash of the memory range `[start, start + length)`.
    fn keccak256(&mut self, start: Self::Value, length: Self::Value) -> CompileResult<
        Self::Value,
    >;

    /// The executing contract's address.
    fn address(&mut self) -> CompileResult<Self::Value>;

    /// The caller's address.
    fn caller(&mut self) -> CompileResult<Self::Value>;

    /// The value sent with the current call.
    fn callvalue(&mut self) -> CompileResult<Self::Value>;

    /// A word of the call's input data at `offset`.
    fn calldataload(&mut self, offset: Self::Value) -> CompileResult<Self::Value>;

    /// The size of the call's input data.
    fn calldatasize(&mut self) -> CompileResult<Self::Value>;

    /// Copy input data to memory.
    fn calldatacopy(
        &mut self,
        dest_offset: Self::Value,
        data_offset: Self::Value,
        length: Self::Value,
    ) -> CompileResult<()>;

    /// The size of the executing contract's code.
    fn codesize(&mut self) -> CompileResult<Self::Value>;

    /// Copy the contract's code to memory.
    fn codecopy(
        &mut self,
        dest_offset: Self::Value,
        data_offset: Self::Value,
        length: Self::Value,
    ) -> CompileResult<()>;

    /// The size of the last sub-call's return data.
    fn returndatasize(&mut self) -> CompileResult<Self::Value>;

    /// Copy the last sub-call's return data to memory.
    fn returndatacopy(
        &mut self,
        dest_offset: Self::Value,
        data_offset: Self::Value,
        length: Self::Value,
    ) -> CompileResult<()>;

    /// A word of the last sub-call's return data at `data_offset`.
    fn returndataload(&mut self, data_offset: Self::Value) -> CompileResult<Self::Value>;

    /// The remaining gas.
    fn gas(&mut self) -> CompileResult<Self::Value>;

    /// The balance of `account`.
    fn balance(&mut self, account: Self::Value) -> CompileResult<Self::Value>;

    /// The executing contract's balance.
    fn selfbalance(&mut self) -> CompileResult<Self::Value>;

    /// The code size at `account`.
    fn extcodesize(&mut self, account: Self::Value) -> CompileResult<Self::Value>;

    /// The code hash at `account`.
    fn extcodehash(&mut self, account: Self::Value) -> CompileResult<Self::Value>;

    /// Copy code of `account` to memory.
    fn extcodecopy(
        &mut self,
        account: Self::Value,
        dest_offset: Self::Value,
        code_offset: Self::Value,
        length: Self::Value,
    );

    /// The hash of the given block.
    fn blockhash(&mut self, block_number: Self::Value) -> CompileResult<Self::Value>;

    /// Load from storage at `key`.
    fn sload(&mut self, key: Self::Value) -> CompileResult<Self::Value>;

    /// Store to storage at `key`.
    fn sstore(&mut self, key: Self::Value, value: Self::Value) -> CompileResult<()>;

    /// Store to transient storage at `key`.
    fn tstore(&mut self, key: Self::Value, value: Self::Value) -> CompileResult<()>;

    /// Load from transient storage at `key`.
    fn tload(&mut self, key: Self::Value) -> CompileResult<Self::Value>;

    /// Emit a log with no topics.
    fn log0(&mut self, offset: Self::Value, length: Self::Value);

    /// Emit a log with one topic.
    fn log1(&mut self, offset: Self::Value, length: Self::Value, topic: Self::Value);

    /// Emit a log with two topics.
    fn log2(
        &mut self,
        offset: Self::Value,
        length: Self::Value,
        topic1: Self::Value,
        topic2: Self::Value,
    );

    /// Emit a log with three topics.
    fn log3(
        &mut self,
        offset: Self::Value,
        length: Self::Value,
        topic1: Self::Value,
        topic2: Self::Value,
        topic3: Self::Value,
    );

    /// Emit a log with four topics.
    fn log4(
        &mut self,
        offset: Self::Value,
        length: Self::Value,
        topic1: Self::Value,
        topic2: Self::Value,
        topic3: Self::Value,
        topic4: Self::Value,
    );

    /// Destroy the contract, sending the remaining balance to
    /// `recipient`.
    fn selfdestruct(&mut self, recipient: Self::Value);

    /// The chain id.
    fn chainid(&mut self) -> CompileResult<Self::Value>;

    /// The current block's miner.
    fn coinbase(&mut self) -> CompileResult<Self::Value>;

    /// The current block's timestamp.
    fn timestamp(&mut self) -> CompileResult<Self::Value>;

    /// The current block number.
    fn number(&mut self) -> CompileResult<Self::Value>;

    /// The previous block's randomness value.
    fn prevrandao(&mut self) -> CompileResult<Self::Value>;

    /// The current block's gas limit.
    fn gaslimit(&mut self) -> CompileResult<Self::Value>;

    /// The transaction's gas price.
    fn gasprice(&mut self) -> CompileResult<Self::Value>;

    /// The current block's base fee.
    fn basefee(&mut self) -> CompileResult<Self::Value>;

    /// The transaction origin's address.
    fn origin(&mut self) -> CompileResult<Self::Value>;

    /// The hash of the blob at `index`.
    fn blobhash(&mut self, index: Self::Value) -> CompileResult<Self::Value>;

    /// The blob base fee.
    fn blobbasefee(&mut self) -> CompileResult<Self::Value>;

    /// Load a word from memory at `offset`.
    fn mload(&mut self, offset: Self::Value) -> CompileResult<Self::Value>;

    /// Store a word to memory at `offset`.
    fn mstore(&mut self, offset: Self::Value, data: Self::Value);

    /// Store a byte to memory at `offset`.
    fn mstore8(&mut self, offset: Self::Value, data: Self::Value);

    /// The current memory size in bytes.
    fn msize(&mut self) -> CompileResult<Self::Value>;

    /// Copy a memory range to another offset.
    fn mcopy(&mut self, dest_offset: Self::Value, src_offset: Self::Value, length: Self::Value);

    /// Create a contract from the code at `[offset, offset + length)`.
    fn create(
        &mut self,
        value: Self::Value,
        offset: Self::Value,
        length: Self::Value,
    ) -> CompileResult<Self::Value>;

    /// Create a contract with a salt for a deterministic address.
    fn create2(
        &mut self,
        value: Self::Value,
        offset: Self::Value,
        length: Self::Value,
        salt: Self::Value,
    ) -> CompileResult<Self::Value>;

    /// Call a contract.
    fn call(
        &mut self,
        gas: Self::Value,
        address: Self::Value,
        value: Self::Value,
        input_offset: Self::Value,
        input_length: Self::Value,
        output_offset: Self::Value,
        output_length: Self::Value,
    ) -> CompileResult<Self::Value>;

    /// Call a contract, executing its code in the caller's context.
    fn callcode(
        &mut self,
        gas: Self::Value,
        address: Self::Value,
        value: Self::Value,
        input_offset: Self::Value,
        input_length: Self::Value,
        output_offset: Self::Value,
        output_length: Self::Value,
    ) -> CompileResult<Self::Value>;

    /// Call a contract with the caller's storage and value.
    fn delegatecall(
        &mut self,
        gas: Self::Value,
        address: Self::Value,
        input_offset: Self::Value,
        input_length: Self::Value,
        output_offset: Self::Value,
        output_length: Self::Value,
    ) -> CompileResult<Self::Value>;

    /// Call a contract, forbidding state changes.
    fn staticcall(
        &mut self,
        gas: Self::Value,
        address: Self::Value,
        input_offset: Self::Value,
        input_length: Self::Value,
        output_offset: Self::Value,
        output_length: Self::Value,
    ) -> CompileResult<Self::Value>;

    /// Return to the caller with the memory range as output.
    fn creturn(&mut self, offset: Self::Value, length: Self::Value);

    /// Revert state changes, returning the memory range as output.
    fn revert(&mut self, offset: Self::Value, length: Self::Value);

    /// Halt without output.
    fn stop(&mut self);

    /// An invalid operation.
    fn invalid(&mut self);
}

/// The WASM front end needs only the generic tiers.
pub trait WASMBuilder: Builder {

}

} // verus!
