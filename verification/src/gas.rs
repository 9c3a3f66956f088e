//! Static per-opcode gas costs and the dynamic gas-cost functions
//! (memory expansion, copy, log, exp, initcode metering).

use vstd::prelude::*;

verus! {

// Static costs of the arithmetic, comparison and bitwise family.
pub const ADD: i64 = 3;
pub const MUL: i64 = 5;
pub const SUB: i64 = 3;
pub const DIV: i64 = 5;
pub const SDIV: i64 = 5;
pub const MOD: i64 = 5;
pub const SMOD: i64 = 5;
pub const ADDMOD: i64 = 8;
pub const MULMOD: i64 = 8;
pub const EXP: i64 = 10;
pub const SIGNEXTEND: i64 = 5;
pub const LT: i64 = 3;
pub const GT: i64 = 3;
pub const SLT: i64 = 3;
pub const SGT: i64 = 3;
pub const EQ: i64 = 3;
pub const ISZERO: i64 = 3;
pub const AND: i64 = 3;
pub const OR: i64 = 3;
pub const XOR: i64 = 3;
pub const NOT: i64 = 3;
pub const BYTE: i64 = 3;
pub const SHL: i64 = 3;
pub const SHR: i64 = 3;
pub const SAR: i64 = 3;

// Environment introspection.
pub const BALANCE: i64 = 100;
pub const ORIGIN: i64 = 2;
pub const CALLER: i64 = 2;
pub const CALLDATALOAD: i64 = 3;
pub const CALLDATASIZE: i64 = 2;
pub const CALLDATACOPY: i64 = 3;
pub const CODESIZE: i64 = 2;
pub const COINBASE: i64 = 2;
pub const GASPRICE: i64 = 2;
pub const SELFBALANCE: i64 = 5;
pub const NUMBER: i64 = 2;
pub const PREVRANDAO: i64 = 2;
pub const BLOBBASEFEE: i64 = 2;
pub const CHAINID: i64 = 2;
pub const BASEFEE: i64 = 2;
pub const BLOBHASH: i64 = 3;

// Stack, memory and storage.
pub const POP: i64 = 2;
pub const MLOAD: i64 = 3;
pub const MSTORE: i64 = 3;
pub const MSTORE8: i64 = 3;
pub const SLOAD: i64 = 100;
pub const SSTORE: i64 = 100;

pub const JUMP: i64 = 8;
pub const JUMPI: i64 = 10;
pub const PC: i64 = 2;
pub const MSIZE: i64 = 2;
pub const GAS: i64 = 2;
pub const JUMPDEST: i64 = 1;

pub const MCOPY: i64 = 3;
pub const PUSH0: i64 = 2;
pub const PUSHN: i64 = 3;
pub const DUPN: i64 = 3;
pub const SWAPN: i64 = 3;

pub const TIMESTAMP: i64 = 2;
pub const KECCAK256: i64 = 30;
pub const CODECOPY: i64 = 3;
pub const KECCAK256_WORD_COST: u64 = 6;
pub const COPY_WORD_COST: u64 = 3;

pub const CALLVALUE: u64 = 9000;
pub const NEWACCOUNT: u64 = 25000;

// Log emission: base cost per topic count.
pub const LOG0: i64 = 375;
pub const LOG1: i64 = 750;
pub const LOG2: i64 = 1125;
pub const LOG3: i64 = 1500;
pub const LOG4: i64 = 1875;

pub const BLOCKHASH: i64 = 20;
pub const CODEDEPOSIT: u64 = 200;

// Sub-calls and termination.
pub const CALL: i64 = 100;
pub const RETURN: i64 = 0;
pub const REVERT: i64 = 0;
pub const STATICCALL: i64 = 100;

pub const EXTCODESIZE_WARM: i64 = 100;
pub const EXTCODECOPY_WARM: i64 = 100;

pub const RETURNDATASIZE: i64 = 2;
pub const RETURNDATACOPY: i64 = 3;
pub const EXTCODEHASH: i64 = 100;

pub const ADDRESS: i64 = 2;
pub const GASLIMIT: i64 = 2;

pub const SSTORE_MIN_REMAINING_GAS: i64 = 2_300;
pub const CREATE: i64 = 32_000;

pub const TLOAD: i64 = 100;
pub const TSTORE: i64 = 100;

pub const SELFDESTRUCT: i64 = 5_000;
pub const SELFDESTRUCT_DYNAMIC_GAS: i64 = 25_000;

pub const MIN_BLOB_GASPRICE: u64 = 1;
pub const BLOB_GASPRICE_UPDATE_FRACTION: u64 = 3_338_477;

pub const BYTE_DEPOSIT_COST: i64 = 200;
/// Per-word metering of initcode.
pub const INITCODE_WORD_COST: u64 = 2;
pub const HASH_WORD_COST: i64 = 6;

// Transaction-level costs.
pub const TX_BASE_COST: u64 = 21_000;
pub const TX_DATA_COST_PER_NON_ZERO: u64 = 16;
pub const TX_DATA_COST_PER_ZERO: u64 = 4;
pub const TX_CREATE_COST: u64 = 32_000;
pub const TX_ACCESS_LIST_ADDRESS_COST: u64 = 2_400;
pub const TX_ACCESS_LIST_STORAGE_KEY_COST: u64 = 1_900;

/// Deployed-contract code size limit.
pub const MAX_CODE_SIZE: usize = 0x6000;
pub const MAX_INITCODE_SIZE: usize = 2 * MAX_CODE_SIZE;

pub const INSTANBUL_SLOAD_GAS: u64 = 800;
pub const SSTORE_SET: u64 = 20000;
pub const SSTORE_RESET: u64 = 5000;
pub const REFUND_SSTORE_CLEARS: i64 = 15000;

pub const TRANSACTION_ZERO_DATA: u64 = 4;
pub const TRANSACTION_NON_ZERO_DATA_INIT: u64 = 16;
pub const TRANSACTION_NON_ZERO_DATA_FRONTIER: u64 = 68;

pub const ACCESS_LIST_ADDRESS: u64 = 2400;
pub const ACCESS_LIST_STORAGE_KEY: u64 = 1900;
pub const COLD_SLOAD_COST: u64 = 2100;
pub const COLD_ACCOUNT_ACCESS_COST: u64 = 2600;
pub const WARM_SLOAD_COST: u64 = 100;
pub const WARM_SSTORE_RESET: u64 = SSTORE_RESET - COLD_SLOAD_COST;

pub const CALL_STIPEND: u64 = 2300;
pub const MIN_CALLEE_GAS: u64 = CALL_STIPEND;

// Sub-call return codes and gas rules.
pub const SUCCESS_RETURN_CODE: u8 = 1;
pub const REVERT_RETURN_CODE: u8 = 0;
pub const WARM_MEMORY_ACCESS_COST: u64 = 100;
pub const NOT_ZERO_VALUE_COST: u64 = 9000;
pub const EMPTY_CALLEE_COST: u64 = 25_000;
pub const STIPEND_GAS_ADDITION: u64 = 2_300;
pub const GAS_CAP_DIVISION_FACTOR: u64 = 64;

/// Number of 32-byte words covering `len` bytes.
pub open spec fn words_of(len: int) -> int {
    (len + 31) / 32
}

/// Quadratic memory cost of a buffer of `size` bytes.
pub open spec fn memory_cost(size: int) -> int {
    (words_of(size) * words_of(size)) / 512 + 3 * words_of(size)
}

/// Bytes needed for the big-endian representation of `e` (0 for `e == 0`).
pub open spec fn byte_length(e: nat) -> nat
    decreases e,
{
    if e == 0 {
        0
    } else {
        1 + byte_length(e / 256)
    }
}

/// Gas charged for metering `init_code_length` bytes of initcode:
/// two units per 32-byte word.
pub fn init_code_cost(init_code_length: usize) -> (r: u64)
    requires
        init_code_length + 31 <= u64::MAX,
    ensures
        r == INITCODE_WORD_COST * words_of(init_code_length as int),
{
    INITCODE_WORD_COST * ((init_code_length as u64 + 31) / 32)
}

/// Gas charged for growing memory from `last_size` to `new_size` bytes:
/// the difference of the quadratic memory costs of the two sizes.
pub fn memory_expansion_cost(last_size: u32, new_size: u32) -> (r: i64)
    ensures
        r == memory_cost(new_size as int) - memory_cost(last_size as int),
{
    let new_memory_size_word: u64 = (new_size as u64 + 31) / 32;
    proof {
        lemma_word_square_bound(new_memory_size_word);
    }
    let new_memory_cost: u64 = (new_memory_size_word * new_memory_size_word) / 512
        + (3 * new_memory_size_word);

    let last_memory_size_word: u64 = (last_size as u64 + 31) / 32;
    proof {
        lemma_word_square_bound(last_memory_size_word);
    }
    let last_memory_cost: u64 = (last_memory_size_word * last_memory_size_word) / 512
        + (3 * last_memory_size_word);

    (new_memory_cost as i64) - (last_memory_cost as i64)
}

/// Gas charged for copying `size` bytes: three units per 32-byte word.
pub fn memory_copy_cost(size: u32) -> (r: i64)
    ensures
        r == 3 * words_of(size as int),
{
    let memory_word_size: u64 = (size as u64 + 31) / 32;
    (memory_word_size * 3) as i64
}

/// Dynamic gas of a `LOG` operation: 375 per topic plus 8 per data byte.
pub fn log_dynamic_gas_cost(size: u32, topic_count: u32) -> (r: i64)
    ensures
        r == LOG0 * (topic_count as int) + 8 * (size as int),
{
    (LOG0 * topic_count as i64) + (8 * size as i64)
}

/// Dynamic gas of `EXP`: a base of 10 plus 50 per byte of the exponent.
pub fn exp_dynamic_cost(exponent: u64) -> (r: i64)
    ensures
        r == 10 + 50 * byte_length(exponent as nat),
{
    proof {
        reveal_with_fuel(pow256, 9);
        assert(pow256(8) == 0x1_0000_0000_0000_0000);
        lemma_byte_length_bound(exponent as nat, 8);
    }
    let mut remaining: u64 = exponent;
    let mut bytes: i64 = 0;
    while remaining > 0
        invariant
            0 <= bytes,
            bytes + byte_length(remaining as nat) == byte_length(exponent as nat),
            byte_length(exponent as nat) <= 8,
        decreases remaining,
    {
        remaining = remaining / 256;
        bytes = bytes + 1;
    }
    10 + 50 * bytes
}

/// 256 to the `k`-th power; bounds the loop counter in `exp_dynamic_cost`.
pub open spec fn pow256(k: nat) -> int
    decreases k,
{
    if k == 0 {
        1
    } else {
        256 * pow256((k - 1) as nat)
    }
}

proof fn lemma_word_square_bound(w: u64)
    requires
        w <= 0x800_0000,
    ensures
        w * w <= 0x4000_0000_0000_0000,
{
    assert(w * w <= 0x800_0000 * 0x800_0000) by (nonlinear_arith)
        requires
            w <= 0x800_0000,
    ;
}

/// The type of a `*CALL*` instruction, as its one-byte encoding carries
/// it into compiled code.
#[derive(Clone, Copy, Debug, PartialEq, Eq, Structural)]
pub enum CallType {
    /// `CALL`.
    Call,
    /// `STATICCALL`.
    Staticcall,
    /// `DELEGATECALL`.
    Delegatecall,
    /// `CALLCODE`.
    Callcode,
}

/// The kind of an `EXT*CALL` instruction.
#[derive(Clone, Copy, Debug, PartialEq, Eq, Structural)]
pub enum ExtCallType {
    /// `EXTCALL`.
    Call,
    /// `EXTDELEGATECALL`.
    Delegatecall,
    /// `EXTSTATICCALL`.
    Staticcall,
}

/// A byte that names no call type.
#[derive(Clone, Copy, Debug, PartialEq, Eq, Structural)]
pub struct CallTypeParseError;

impl CallType {
    /// The byte encoding of the call type.
    pub fn as_u8(self) -> (r: u8)
        ensures
            r == match self {
                CallType::Call => 0u8,
                CallType::Staticcall => 1u8,
                CallType::Delegatecall => 2u8,
                CallType::Callcode => 3u8,
            },
    {
        match self {
            CallType::Call => 0,
            CallType::Staticcall => 1,
            CallType::Delegatecall => 2,
            CallType::Callcode => 3,
        }
    }

    /// The call type a byte encodes: the first four byte values name the
    /// four call types, every other byte is refused.
    pub fn try_from(value: u8) -> (r: Result<CallType, CallTypeParseError>)
        ensures
            value == 0 ==> r == Ok::<CallType, CallTypeParseError>(CallType::Call),
            value == 1 ==> r == Ok::<CallType, CallTypeParseError>(CallType::Staticcall),
            value == 2 ==> r == Ok::<CallType, CallTypeParseError>(CallType::Delegatecall),
            value == 3 ==> r == Ok::<CallType, CallTypeParseError>(CallType::Callcode),
            value > 3 ==> r == Err::<CallType, CallTypeParseError>(CallTypeParseError),
    {
        match value {
            0 => Ok(CallType::Call),
            1 => Ok(CallType::Staticcall),
            2 => Ok(CallType::Delegatecall),
            3 => Ok(CallType::Callcode),
            _ => Err(CallTypeParseError),
        }
    }
}

impl ExtCallType {
    /// The byte encoding of the call kind.
    pub fn as_u8(self) -> (r: u8)
        ensures
            r == match self {
                ExtCallType::Call => 0u8,
                ExtCallType::Delegatecall => 1u8,
                ExtCallType::Staticcall => 2u8,
            },
    {
        match self {
            ExtCallType::Call => 0,
            ExtCallType::Delegatecall => 1,
            ExtCallType::Staticcall => 2,
        }
    }

    /// The call kind a byte encodes: the first three byte values name the
    /// three kinds, every other byte is refused.
    pub fn try_from(value: u8) -> (r: Result<ExtCallType, CallTypeParseError>)
        ensures
            value == 0 ==> r == Ok::<ExtCallType, CallTypeParseError>(ExtCallType::Call),
            value == 1 ==> r == Ok::<ExtCallType, CallTypeParseError>(
                ExtCallType::Delegatecall,
            ),
            value == 2 ==> r == Ok::<ExtCallType, CallTypeParseError>(ExtCallType::Staticcall),
            value > 2 ==> r == Err::<ExtCallType, CallTypeParseError>(CallTypeParseError),
    {
        match value {
            0 => Ok(ExtCallType::Call),
            1 => Ok(ExtCallType::Delegatecall),
            2 => Ok(ExtCallType::Staticcall),
            _ => Err(CallTypeParseError),
        }
    }
}

/// A value below 256^k takes at most `k` bytes.
pub proof fn lemma_byte_length_bound(e: nat, k: nat)
    requires
        e < pow256(k),
    ensures
        byte_length(e) <= k,
    decreases k,
{
    if e == 0 {
    } else {
        assert(k > 0);
        assert(e / 256 < pow256((k - 1) as nat)) by (nonlinear_arith)
            requires
                e < 256 * pow256((k - 1) as nat),
        ;
        lemma_byte_length_bound(e / 256, (k - 1) as nat);
    }
}

} // verus!
