//! The host-syscall symbol names. Compiled artifacts embed these as
//! linker-visible symbols, and the loader binds them to the runtime's
//! implementations, so the names are fixed.

use vstd::prelude::*;

verus! {

// Debug functions.
pub const DEBUG_PRINT: &'static str = "dora_debug_print";

// System functions.
pub const WRITE_RESULT: &'static str = "dora_write_result";
pub const EXTEND_MEMORY: &'static str = "dora_extend_memory";
pub const KECCAK256_HASHER: &'static str = "dora_keccak256_hasher";
pub const STORAGE_WRITE: &'static str = "dora_write_storage";
pub const STORAGE_READ: &'static str = "dora_read_storage";
pub const APPEND_LOG: &'static str = "dora_append_log";
pub const APPEND_LOG_ONE_TOPIC: &'static str = "dora_append_log_with_one_topic";
pub const APPEND_LOG_TWO_TOPICS: &'static str = "dora_append_log_with_two_topics";
pub const APPEND_LOG_THREE_TOPICS: &'static str = "dora_append_log_with_three_topics";
pub const APPEND_LOG_FOUR_TOPICS: &'static str = "dora_append_log_with_four_topics";
pub const GET_CALLDATA_PTR: &'static str = "dora_get_calldata_ptr";
pub const GET_CALLDATA_SIZE: &'static str = "dora_get_calldata_size";
pub const GET_CODESIZE_FROM_ADDRESS: &'static str = "dora_get_codesize_from_address";
pub const COPY_CODE_TO_MEMORY: &'static str = "dora_copy_code_to_memory";
pub const GET_ADDRESS_PTR: &'static str = "dora_get_address_ptr";
pub const GET_GASLIMIT: &'static str = "dora_get_gaslimit";
pub const STORE_IN_CALLVALUE_PTR: &'static str = "dora_store_in_callvalue_ptr";
pub const STORE_IN_BLOBBASEFEE_PTR: &'static str = "dora_store_in_blobbasefee_ptr";
pub const GET_BLOB_HASH_AT_INDEX: &'static str = "dora_get_blob_hash_at_index";
pub const STORE_IN_BALANCE: &'static str = "dora_store_in_balance";
pub const GET_COINBASE_PTR: &'static str = "dora_get_coinbase_ptr";
pub const STORE_IN_TIMESTAMP_PTR: &'static str = "dora_store_in_timestamp_ptr";
pub const STORE_IN_BASEFEE_PTR: &'static str = "dora_store_in_basefee_ptr";
pub const STORE_IN_CALLER_PTR: &'static str = "dora_store_in_caller_ptr";
pub const GET_ORIGIN: &'static str = "dora_get_origin";
pub const GET_CHAINID: &'static str = "dora_get_chainid";
pub const STORE_IN_GASPRICE_PTR: &'static str = "dora_store_in_gasprice_ptr";
pub const GET_BLOCK_NUMBER: &'static str = "dora_get_block_number";
pub const STORE_IN_SELFBALANCE_PTR: &'static str = "dora_store_in_selfbalance_ptr";
pub const COPY_EXT_CODE_TO_MEMORY: &'static str = "dora_copy_ext_code_to_memory";
pub const GET_PREVRANDAO: &'static str = "dora_get_prevrandao";
pub const GET_BLOCK_HASH: &'static str = "dora_get_block_hash";
pub const GET_CODE_HASH: &'static str = "dora_get_code_hash";
pub const CALL: &'static str = "dora_call";
pub const CREATE: &'static str = "dora_create";
pub const CREATE2: &'static str = "dora_create2";
pub const GET_RETURN_DATA_SIZE: &'static str = "dora_get_return_data_size";
pub const COPY_RETURN_DATA_INTO_MEMORY: &'static str = "dora_copy_return_data_into_memory";
pub const TRANSIENT_STORAGE_READ: &'static str = "dora_transient_storage_read";
pub const TRANSIENT_STORAGE_WRITE: &'static str = "dora_transient_storage_write";
pub const SELFDESTRUCT: &'static str = "dora_selfdestruct";

} // verus!
