//! Word arithmetic, gas formulas, call types and result types.

use dora::gas;
use dora::gas::{CallType, ExtCallType};
use dora::result::{ExecutionResult, HaltReason, Output, OutOfGasError, SuccessReason, VMError};
use dora::u256::U256;

fn w(v: u64) -> U256 {
    U256::from_u64(v)
}

fn all_ones() -> U256 {
    U256 { lo: u128::MAX, hi: u128::MAX }
}

#[test]
fn init_code_cost_charges_two_per_word() {
    assert_eq!(gas::init_code_cost(0), 0);
    assert_eq!(gas::init_code_cost(1), 2);
    assert_eq!(gas::init_code_cost(32), 2);
    assert_eq!(gas::init_code_cost(33), 4);
    assert_eq!(gas::init_code_cost(512), 32);
}

#[test]
fn memory_expansion_cost_is_quadratic_difference() {
    assert_eq!(gas::memory_expansion_cost(0, 0), 0);
    assert_eq!(gas::memory_expansion_cost(0, 32), 3);
    assert_eq!(gas::memory_expansion_cost(0, 64), 6);
    assert_eq!(gas::memory_expansion_cost(32, 64), 3);
    // 1024 words: 1024^2/512 + 3*1024 = 2048 + 3072.
    assert_eq!(gas::memory_expansion_cost(0, 32768), 5120);
    assert_eq!(gas::memory_expansion_cost(1024, 2048), 3 * 64 - 3 * 32 + 8 - 2);
}

#[test]
fn memory_copy_cost_is_three_per_word() {
    assert_eq!(gas::memory_copy_cost(0), 0);
    assert_eq!(gas::memory_copy_cost(1), 3);
    assert_eq!(gas::memory_copy_cost(256), 24);
}

#[test]
fn log_cost_counts_topics_and_bytes() {
    assert_eq!(gas::log_dynamic_gas_cost(0, 0), 0);
    assert_eq!(gas::log_dynamic_gas_cost(128, 2), 375 * 2 + 8 * 128);
}

#[test]
fn exp_cost_counts_exponent_bytes() {
    assert_eq!(gas::exp_dynamic_cost(0), 10);
    assert_eq!(gas::exp_dynamic_cost(1), 60);
    assert_eq!(gas::exp_dynamic_cost(255), 60);
    assert_eq!(gas::exp_dynamic_cost(256), 110);
    assert_eq!(gas::exp_dynamic_cost(1024), 110);
    assert_eq!(gas::exp_dynamic_cost(u64::MAX), 10 + 50 * 8);
}

#[test]
fn call_type_bytes_round_trip() {
    for b in 0u8..4 {
        let t = CallType::try_from(b).unwrap();
        assert_eq!(t.as_u8(), b);
    }
    assert!(CallType::try_from(4).is_err());
    assert_eq!(CallType::try_from(0), Ok(CallType::Call));
    assert_eq!(CallType::try_from(1), Ok(CallType::Staticcall));
    assert_eq!(CallType::try_from(2), Ok(CallType::Delegatecall));
    assert_eq!(CallType::try_from(3), Ok(CallType::Callcode));
    for b in 0u8..3 {
        let t = ExtCallType::try_from(b).unwrap();
        assert_eq!(t.as_u8(), b);
    }
    assert!(ExtCallType::try_from(3).is_err());
}

#[test]
fn halt_reason_predicates() {
    assert!(HaltReason::StackOverflow.is_stack_overflow());
    assert!(HaltReason::StackUnderflow.is_stack_underflow());
    assert!(HaltReason::OutOfGas(OutOfGasError::Basic).is_out_of_gas());
    assert!(HaltReason::OpcodeNotFound.is_opcode_not_found());
    assert!(HaltReason::InvalidJump.is_invalid_jump());
    assert!(!HaltReason::InvalidJump.is_stack_overflow());
    assert_eq!(HaltReason::InvalidJump.description(), "Invalid jump");
    assert_eq!(
        OutOfGasError::Memory.description(),
        "Out-of-gas: insufficient gas for memory expansion"
    );
}

#[test]
fn execution_result_accessors() {
    let ok = ExecutionResult::Success {
        reason: SuccessReason::Return,
        gas_used: 9,
        gas_refunded: 0,
        output: Output::Call(vec![0xff]),
        logs: vec![],
    };
    assert!(ok.is_success());
    assert!(!ok.is_revert());
    assert!(!ok.is_halt());
    assert_eq!(ok.gas_used(), 9);
    assert_eq!(ok.gas_refunded(), 0);
    assert_eq!(ok.output(), Some(&vec![0xff]));
    assert!(ok.halt_reason().is_none());
    assert_eq!(ok.logs().len(), 0);
    assert_eq!(ok.into_output(), Some(vec![0xff]));

    let empty = ExecutionResult::Success {
        reason: SuccessReason::Stop,
        gas_used: 0,
        gas_refunded: 0,
        output: Output::Call(vec![]),
        logs: vec![],
    };
    assert_eq!(empty.output(), None);

    let rev = ExecutionResult::Revert { gas_used: 5, output: vec![1, 2] };
    assert!(rev.is_revert());
    assert_eq!(rev.output(), Some(&vec![1, 2]));

    let halt = ExecutionResult::Halt {
        reason: HaltReason::InvalidJump,
        gas_limit: 100,
        gas_used: 100,
    };
    assert!(halt.is_halt());
    assert_eq!(halt.halt_reason(), Some(&HaltReason::InvalidJump));
    assert_eq!(halt.gas_used(), 100);
    assert!(halt.output().is_none());
}

#[test]
fn output_accessors() {
    let addr = dora::primitives::Address::from_u64(7);
    let c = Output::Create(vec![9], Some(addr));
    assert_eq!(c.data(), &vec![9]);
    assert_eq!(c.address(), Some(&addr));
    assert_eq!(c.into_data(), vec![9]);
    let call = Output::Call(vec![1]);
    assert!(call.address().is_none());
}

#[test]
fn vm_error_messages() {
    let e = VMError::Database(String::from("boom"));
    assert_eq!(e.message(), "database error: boom");
    let e = VMError::Precompile(String::from("bad"));
    assert_eq!(e.message(), "bad");
}

#[test]
fn word_addition_wraps() {
    assert_eq!(w(2).wrapping_add(w(3)), w(5));
    assert_eq!(all_ones().wrapping_add(U256::one()), U256::zero());
    let (sum, carry) = all_ones().adc(U256::one(), false);
    assert_eq!(sum, U256::zero());
    assert!(carry);
}

#[test]
fn word_subtraction_wraps() {
    assert_eq!(w(5).wrapping_sub(w(3)), w(2));
    assert_eq!(U256::zero().wrapping_sub(U256::one()), all_ones());
}

#[test]
fn word_multiplication() {
    assert_eq!(w(3).wrapping_mul(w(5)), w(15));
    let big = U256 { lo: 0, hi: 1 };
    // 2^128 squared wraps to zero.
    assert_eq!(big.wrapping_mul(big), U256::zero());
    assert_eq!(all_ones().wrapping_mul(all_ones()), U256::one());
}

#[test]
fn division_and_modulus_by_zero_return_zero() {
    assert_eq!(w(100).div_evm(w(7)), w(14));
    assert_eq!(w(100).rem_evm(w(7)), w(2));
    assert_eq!(w(100).div_evm(U256::zero()), U256::zero());
    assert_eq!(w(100).rem_evm(U256::zero()), U256::zero());
    assert_eq!(U256::zero().div_evm(U256::zero()), U256::zero());
    assert_eq!(w(7).sdiv_evm(U256::zero()), U256::zero());
    assert_eq!(w(7).srem_evm(U256::zero()), U256::zero());
}

#[test]
fn signed_division_truncates_toward_zero() {
    let neg8 = w(8).neg_word();
    let neg2 = w(2).neg_word();
    let neg3 = w(3).neg_word();
    assert_eq!(neg8.sdiv_evm(w(3)), neg2);
    assert_eq!(w(8).sdiv_evm(neg3), neg2);
    assert_eq!(neg8.sdiv_evm(neg3), w(2));
    assert_eq!(neg8.srem_evm(w(3)), neg2);
    assert_eq!(w(8).srem_evm(neg3), w(2));
}

#[test]
fn addmod_and_mulmod() {
    assert_eq!(w(10).addmod_evm(w(5), w(7)), w(1));
    assert_eq!(w(10).mulmod_evm(w(5), w(7)), w(1));
    assert_eq!(all_ones().addmod_evm(all_ones(), w(12)), w(6));
    // A zero modulus returns zero.
    assert_eq!(w(10).addmod_evm(w(5), U256::zero()), U256::zero());
    assert_eq!(w(10).mulmod_evm(w(5), U256::zero()), U256::zero());
}

#[test]
fn exponentiation() {
    assert_eq!(w(2).exp_evm(w(10)), w(1024));
    assert_eq!(w(0).exp_evm(w(0)), w(1));
    assert_eq!(w(7).exp_evm(w(1)), w(7));
    assert_eq!(w(2).exp_evm(w(256)), U256::zero());
}

#[test]
fn comparisons_and_bitwise() {
    assert!(w(3).lt_u(w(4)));
    assert!(!w(4).lt_u(w(4)));
    assert!(w(1).neg_word().slt(w(0)));
    assert!(!w(0).slt(w(1).neg_word()));
    assert!(w(5).is_zero() == false);
    assert!(U256::zero().is_zero());
    assert_eq!(w(0b1100).bit_and(w(0b1010)), w(0b1000));
    assert_eq!(w(0b1100).bit_or(w(0b1010)), w(0b1110));
    assert_eq!(w(0b1100).bit_xor(w(0b1010)), w(0b0110));
    assert_eq!(U256::zero().bit_not(), all_ones());
}

#[test]
fn shifts() {
    assert_eq!(w(1).shl_evm(w(4)), w(16));
    assert_eq!(w(256).shr_evm(w(4)), w(16));
    assert_eq!(w(1).shl_evm(w(256)), U256::zero());
    assert_eq!(w(1).shr_evm(w(1)), U256::zero());
    // Arithmetic shift fills with the sign bit.
    assert_eq!(w(8).neg_word().sar_evm(w(1)), w(4).neg_word());
    assert_eq!(w(8).sar_evm(w(1)), w(4));
    assert_eq!(w(1).neg_word().sar_evm(w(300)), w(1).neg_word());
    assert_eq!(w(5).sar_evm(w(300)), U256::zero());
}

#[test]
fn byte_extraction() {
    assert_eq!(w(0xff).byte_evm(w(31)), w(0xff));
    assert_eq!(w(0xff).byte_evm(w(0)), U256::zero());
    assert_eq!(w(0xff).byte_evm(w(32)), U256::zero());
    assert_eq!(w(0x1234).byte_evm(w(30)), w(0x12));
}

#[test]
fn sign_extension() {
    // Extending 0xff from its lowest byte gives minus one.
    assert_eq!(w(0xff).signextend_evm(w(0)), all_ones());
    assert_eq!(w(0x7f).signextend_evm(w(0)), w(0x7f));
    assert_eq!(w(0xff).signextend_evm(w(31)), w(0xff));
    assert_eq!(w(0x80ff).signextend_evm(w(0)), all_ones());
}

#[test]
fn byte_encoding_round_trip() {
    let v = w(0x0102030405060708);
    let bytes = v.to_be_bytes();
    assert_eq!(bytes.len(), 32);
    assert_eq!(bytes[31], 0x08);
    assert_eq!(bytes[24], 0x01);
    assert_eq!(bytes[0], 0);
    let back = U256::from_be_bytes(&bytes);
    assert_eq!(back, v);
    assert_eq!(U256::from_be_bytes(&[0xff]), w(0xff));
    assert_eq!(U256::from_be_bytes(&[]), U256::zero());
}

#[test]
fn to_u64_reports_fit() {
    assert_eq!(w(77).to_u64(), (77, true));
    assert_eq!(U256 { lo: 0, hi: 1 }.to_u64(), (0, false));
    let big_lo = U256 { lo: (u64::MAX as u128) + 1, hi: 0 };
    assert_eq!(big_lo.to_u64(), (0, false));
}
