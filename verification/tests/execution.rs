//! End-to-end execution scenarios: decoding, stack and memory behaviour,
//! journaling, and whole-bytecode runs.

use dora::journal::{Account, JournaledState};
use dora::memory::Memory;
use dora::primitives::{Address, SpecId};
use dora::program::Program;
use dora::result::{ExecutionResult, HaltReason, SuccessReason};
use dora::runtime::{execute, BlockEnv, Contract, Env, FrameOutcome, RuntimeContext, TxEnv, TxKind};
use dora::stack::Stack;
use dora::u256::U256;
use dora::vm::run_bytecode_with_calldata;

fn w(v: u64) -> U256 {
    U256::from_u64(v)
}

fn test_env() -> Env {
    Env {
        block: BlockEnv {
            number: 10,
            timestamp: 1000,
            coinbase: Address::from_u64(9),
            basefee: w(1),
            prevrandao: w(42),
            gaslimit: 30_000_000,
            chainid: 1,
            blobbasefee: w(1),
            blobhashes: vec![],
            block_hashes: vec![],
        },
        tx: TxEnv {
            caller: Address::from_u64(10000),
            gas_limit: 1_000_000,
            gas_price: w(1),
            value: U256::zero(),
            data: vec![],
            transact_to: TxKind::Call(Address::from_u64(40)),
            access_list: vec![],
        },
    }
}

fn contract_with(code: Vec<u8>) -> Contract {
    Contract {
        code,
        hash: None,
        address: Address::from_u64(40),
        caller: Address::from_u64(10000),
        call_value: U256::zero(),
        input: vec![],
    }
}

fn run_code(code: Vec<u8>, gas: u64) -> (FrameOutcome, RuntimeContext, JournaledState) {
    let program = Program::from_opcodes(code.clone());
    let mut ctx = RuntimeContext::new(contract_with(code), 0, false, false, SpecId::Latest, gas);
    let mut journal = JournaledState::new();
    let env = test_env();
    let outcome = execute(&program, &env, &mut journal, &mut ctx);
    (outcome, ctx, journal)
}

#[test]
fn jumpdest_table_skips_push_immediates() {
    // The 0x5b at offset 1 is a PUSH immediate, the one at offset 2 real.
    let p = Program::from_opcodes(vec![0x60, 0x5b, 0x5b, 0x00]);
    assert_eq!(p.jumpdests, vec![false, false, true, false]);
    // Block starts: the entry, the jumpdest, and after the terminator
    // there is nothing left.
    assert_eq!(p.block_starts, vec![0, 2]);
    assert_eq!(p.code_size(), 4);
}

#[test]
fn block_starts_follow_terminators() {
    // STOP ends a block; the next opcode starts one.
    let p = Program::from_opcodes(vec![0x00, 0x01]);
    assert_eq!(p.block_starts, vec![0, 1]);
}

#[test]
fn decoding_is_deterministic() {
    let code = vec![0x60, 0x01, 0x5b, 0x56, 0xf3];
    let a = Program::from_opcodes(code.clone());
    let b = Program::from_opcodes(code);
    assert_eq!(a.jumpdests, b.jumpdests);
    assert_eq!(a.code, b.code);
}

#[test]
fn stack_bounds_produce_their_halt_reasons() {
    let mut s = Stack::new();
    assert_eq!(s.pop(), Err(HaltReason::StackUnderflow));
    for i in 0..1024u64 {
        assert_eq!(s.push(w(i)), Ok(()));
    }
    assert_eq!(s.len(), 1024);
    assert_eq!(s.push(w(7)), Err(HaltReason::StackOverflow));
    assert_eq!(s.len(), 1024);
    assert_eq!(s.pop(), Ok(w(1023)));
}

#[test]
fn stack_dup_swap() {
    let mut s = Stack::new();
    s.push(w(1)).unwrap();
    s.push(w(2)).unwrap();
    s.dup(2).unwrap();
    assert_eq!(s.peek(0), w(1));
    s.swap(1).unwrap();
    assert_eq!(s.peek(0), w(2));
    assert_eq!(s.peek(1), w(1));
    assert_eq!(s.peek(2), w(1));
}

#[test]
fn memory_grows_in_32_byte_words() {
    let mut m = Memory::new();
    assert_eq!(m.size(), 0);
    m.expand_to(1);
    assert_eq!(m.size(), 32);
    m.expand_to(33);
    assert_eq!(m.size(), 64);
    m.expand_to(10);
    assert_eq!(m.size(), 64);
    let word = m.load_word(0);
    assert_eq!(word, U256::zero());
    m.store_word(0, w(0x1234));
    assert_eq!(m.load_word(0), w(0x1234));
    m.store_byte(31, 0x56);
    assert_eq!(m.load_word(0), w(0x1256));
}

#[test]
fn journal_revert_restores_state_exactly() {
    let owner = Address::from_u64(1);
    let mut j = JournaledState::new();
    j.set_account(owner, Account { balance: w(100), nonce: 1, code: vec![] });
    j.set_storage(owner, w(1), w(11));
    j.checkpoint();
    j.set_storage(owner, w(1), w(99));
    j.set_storage(owner, w(2), w(22));
    j.set_account(owner, Account { balance: w(0), nonce: 2, code: vec![1] });
    j.set_transient_storage(owner, w(5), w(55));
    assert_eq!(j.get_storage(&owner, &w(1)), w(99));
    j.revert_checkpoint();
    assert_eq!(j.get_storage(&owner, &w(1)), w(11));
    assert_eq!(j.get_storage(&owner, &w(2)), U256::zero());
    assert_eq!(j.get_transient_storage(&owner, &w(5)), U256::zero());
    let acct = j.get_account(&owner).unwrap();
    assert_eq!(acct.balance, w(100));
    assert_eq!(acct.nonce, 1);
}

#[test]
fn journal_commit_keeps_changes() {
    let owner = Address::from_u64(1);
    let mut j = JournaledState::new();
    j.checkpoint();
    j.set_storage(owner, w(1), w(11));
    j.commit_checkpoint();
    assert_eq!(j.get_storage(&owner, &w(1)), w(11));
}

#[test]
fn push_add_halts_at_implicit_stop() {
    // PUSH1 1; PUSH1 1; ADD -> stack top 2, gas 3+3+3.
    let (outcome, ctx, _) = run_code(vec![0x60, 0x01, 0x60, 0x01, 0x01], 1000);
    match outcome {
        FrameOutcome::Success { reason, gas_used, output } => {
            assert_eq!(reason, SuccessReason::Stop);
            assert_eq!(gas_used, 9);
            assert!(output.is_empty());
        },
        other => panic!("unexpected outcome {:?}", other),
    }
    assert_eq!(ctx.stack.len(), 1);
    assert_eq!(ctx.stack.peek(0), w(2));
}

#[test]
fn push_pop_is_a_stack_noop_costing_five() {
    // PUSH1 7; POP leaves the stack empty and costs 3 + 2.
    let (outcome, ctx, _) = run_code(vec![0x60, 0x07, 0x50], 1000);
    match outcome {
        FrameOutcome::Success { gas_used, .. } => assert_eq!(gas_used, 5),
        other => panic!("unexpected outcome {:?}", other),
    }
    assert_eq!(ctx.stack.len(), 0);
}

#[test]
fn dup_swap_pop_leaves_the_stack_unchanged() {
    // PUSH1 1; DUP1; SWAP1; POP leaves exactly the pushed word.
    let (outcome, ctx, _) = run_code(vec![0x60, 0x01, 0x80, 0x90, 0x50], 1000);
    match outcome {
        FrameOutcome::Success { gas_used, .. } => assert_eq!(gas_used, 3 + 3 + 3 + 2),
        other => panic!("unexpected outcome {:?}", other),
    }
    assert_eq!(ctx.stack.len(), 1);
    assert_eq!(ctx.stack.peek(0), w(1));
}

#[test]
fn mstore_return_produces_output() {
    // PUSH1 0xFF; PUSH1 0; MSTORE; PUSH1 1; PUSH1 0x1F; RETURN.
    let code = vec![0x60, 0xff, 0x60, 0x00, 0x52, 0x60, 0x01, 0x60, 0x1f, 0xf3];
    let (outcome, ctx, _) = run_code(code, 1000);
    match outcome {
        FrameOutcome::Success { reason, output, .. } => {
            assert_eq!(reason, SuccessReason::Return);
            assert_eq!(output, vec![0xff]);
        },
        other => panic!("unexpected outcome {:?}", other),
    }
    assert_eq!(ctx.memory.size(), 32);
}

#[test]
fn div_by_zero_yields_zero_on_stack() {
    // PUSH1 0; PUSH1 0; DIV -> top is zero, no trap.
    let (outcome, ctx, _) = run_code(vec![0x60, 0x00, 0x60, 0x00, 0x04], 1000);
    assert!(matches!(outcome, FrameOutcome::Success { .. }));
    assert_eq!(ctx.stack.len(), 1);
    assert_eq!(ctx.stack.peek(0), U256::zero());
}

#[test]
fn div_then_add_underflows() {
    // PUSH1 0; PUSH1 0; DIV; ADD -> ADD finds one operand only.
    let (outcome, _, _) = run_code(vec![0x60, 0x00, 0x60, 0x00, 0x04, 0x01], 1000);
    match outcome {
        FrameOutcome::Halt { reason, gas_used } => {
            assert_eq!(reason, HaltReason::StackUnderflow);
            assert_eq!(gas_used, 1000);
        },
        other => panic!("unexpected outcome {:?}", other),
    }
}

#[test]
fn jump_with_empty_stack_underflows() {
    // JUMPDEST; JUMP with no operand.
    let (outcome, _, _) = run_code(vec![0x5b, 0x56], 1000);
    match outcome {
        FrameOutcome::Halt { reason, gas_used } => {
            assert_eq!(reason, HaltReason::StackUnderflow);
            assert_eq!(gas_used, 1000);
        },
        other => panic!("unexpected outcome {:?}", other),
    }
}

#[test]
fn revert_returns_zeroed_memory() {
    // PUSH1 3; PUSH1 0; REVERT -> three zero bytes of fresh memory.
    let (outcome, _, _) = run_code(vec![0x60, 0x03, 0x60, 0x00, 0xfd], 1000);
    match outcome {
        FrameOutcome::Revert { gas_used, output } => {
            assert_eq!(output, vec![0, 0, 0]);
            assert_eq!(gas_used, 3 + 3 + 3);
        },
        other => panic!("unexpected outcome {:?}", other),
    }
}

#[test]
fn jump_to_push_immediate_is_invalid() {
    // PUSH1 0x5b; PUSH1 1; JUMP: offset 1 holds 0x5b but as immediate.
    let (outcome, _, _) = run_code(vec![0x60, 0x5b, 0x60, 0x01, 0x56], 1000);
    match outcome {
        FrameOutcome::Halt { reason, .. } => assert_eq!(reason, HaltReason::InvalidJump),
        other => panic!("unexpected outcome {:?}", other),
    }
}

#[test]
fn jump_past_code_is_invalid() {
    let (outcome, _, _) = run_code(vec![0x60, 0x09, 0x56], 1000);
    match outcome {
        FrameOutcome::Halt { reason, .. } => assert_eq!(reason, HaltReason::InvalidJump),
        other => panic!("unexpected outcome {:?}", other),
    }
}

#[test]
fn jumpi_takes_valid_destination() {
    // PUSH1 1; PUSH1 6; JUMPI; INVALID; ...; JUMPDEST; STOP
    let code = vec![0x60, 0x01, 0x60, 0x06, 0x57, 0xfe, 0x5b, 0x00];
    let (outcome, _, _) = run_code(code, 1000);
    assert!(matches!(outcome, FrameOutcome::Success { .. }));
}

#[test]
fn stack_overflow_halts() {
    let mut code = Vec::new();
    for _ in 0..1025 {
        code.push(0x60);
        code.push(0x01);
    }
    let (outcome, _, _) = run_code(code, 10_000);
    match outcome {
        FrameOutcome::Halt { reason, .. } => assert_eq!(reason, HaltReason::StackOverflow),
        other => panic!("unexpected outcome {:?}", other),
    }
}

#[test]
fn out_of_gas_burns_the_limit() {
    let (outcome, _, _) = run_code(vec![0x60, 0x01, 0x60, 0x01, 0x01], 7);
    match outcome {
        FrameOutcome::Halt { reason, gas_used } => {
            assert!(reason.is_out_of_gas());
            assert_eq!(gas_used, 7);
        },
        other => panic!("unexpected outcome {:?}", other),
    }
}

#[test]
fn sstore_then_sload_round_trips() {
    // PUSH1 7; PUSH1 1; SSTORE; PUSH1 1; SLOAD.
    let code = vec![0x60, 0x07, 0x60, 0x01, 0x55, 0x60, 0x01, 0x54];
    let (outcome, ctx, journal) = run_code(code, 10_000);
    assert!(matches!(outcome, FrameOutcome::Success { .. }));
    assert_eq!(ctx.stack.peek(0), w(7));
    assert_eq!(journal.get_storage(&Address::from_u64(40), &w(1)), w(7));
}

#[test]
fn keccak256_of_empty_input() {
    // PUSH1 0; PUSH1 0; KECCAK256.
    let (outcome, ctx, _) = run_code(vec![0x60, 0x00, 0x60, 0x00, 0x20], 10_000);
    assert!(matches!(outcome, FrameOutcome::Success { .. }));
    let expected =
        hex::decode("c5d2460186f7233c927e7db2dcc703c0e500b653ca82273b7bfad8045d85a470").unwrap();
    assert_eq!(ctx.stack.peek(0), U256::from_be_bytes(&expected));
}

#[test]
fn logs_are_recorded() {
    // PUSH1 32; PUSH1 0; LOG0 over fresh memory.
    let code = vec![0x60, 0x20, 0x60, 0x00, 0xa0];
    let (outcome, _, journal) = run_code(code, 10_000);
    assert!(matches!(outcome, FrameOutcome::Success { .. }));
    let logs = journal.logs_snapshot();
    assert_eq!(logs.len(), 1);
    assert_eq!(logs[0].data, vec![0u8; 32]);
    assert_eq!(logs[0].topics.len(), 0);
    assert_eq!(logs[0].address, Address::from_u64(40));
}

fn self_call_code() -> Vec<u8> {
    // PUSH1 0 x5 (retLen retOff argLen argOff value); PUSH1 0x28 (self);
    // GAS; CALL; STOP.
    vec![
        0x60, 0x00, 0x60, 0x00, 0x60, 0x00, 0x60, 0x00, 0x60, 0x00, 0x60, 0x28, 0x5a, 0xf1,
        0x00,
    ]
}

#[test]
fn call_depth_limit_halts_the_deepest_frame() {
    // A frame already at the depth limit halts at once.
    let code = self_call_code();
    let program = Program::from_opcodes(code.clone());
    let mut ctx =
        RuntimeContext::new(contract_with(code), 1024, false, false, SpecId::Latest, 10_000);
    let mut journal = JournaledState::new();
    let env = test_env();
    let outcome = execute(&program, &env, &mut journal, &mut ctx);
    match outcome {
        FrameOutcome::Halt { reason, gas_used } => {
            assert_eq!(reason, HaltReason::CallTooDeep);
            assert_eq!(gas_used, 10_000);
        },
        other => panic!("unexpected outcome {:?}", other),
    }
}

#[test]
fn frame_below_depth_limit_succeeds_with_zero_return_code() {
    // The frame one short of the limit issues the call, its child halts
    // as too deep, and the caller sees a zero return code.
    let code = self_call_code();
    let mut journal = JournaledState::new();
    journal.set_account(
        Address::from_u64(40),
        Account { balance: U256::zero(), nonce: 0, code: code.clone() },
    );
    let program = Program::from_opcodes(code.clone());
    let mut ctx =
        RuntimeContext::new(contract_with(code), 1023, false, false, SpecId::Latest, 10_000);
    let env = test_env();
    let outcome = execute(&program, &env, &mut journal, &mut ctx);
    match outcome {
        FrameOutcome::Success { reason, .. } => assert_eq!(reason, SuccessReason::Stop),
        other => panic!("unexpected outcome {:?}", other),
    }
    assert_eq!(ctx.stack.peek(0), U256::zero());
}

#[test]
fn reverted_sub_call_leaves_parent_state_untouched() {
    // The callee stores then reverts; the caller's view of the callee's
    // storage must be exactly as before the call.
    let callee_addr = Address::from_u64(0x55);
    let callee_code = vec![0x60, 0x01, 0x60, 0x00, 0x55, 0x60, 0x00, 0x60, 0x00, 0xfd];
    // Caller: PUSH1 0 x5; PUSH1 0x55; GAS; CALL; STOP.
    let caller_code = vec![
        0x60, 0x00, 0x60, 0x00, 0x60, 0x00, 0x60, 0x00, 0x60, 0x00, 0x60, 0x55, 0x5a, 0xf1,
        0x00,
    ];
    let mut journal = JournaledState::new();
    journal.set_account(
        callee_addr,
        Account { balance: U256::zero(), nonce: 0, code: callee_code },
    );
    journal.set_storage(callee_addr, w(0), w(77));
    let program = Program::from_opcodes(caller_code.clone());
    let mut ctx =
        RuntimeContext::new(contract_with(caller_code), 0, false, false, SpecId::Latest, 100_000);
    let env = test_env();
    let outcome = execute(&program, &env, &mut journal, &mut ctx);
    assert!(matches!(outcome, FrameOutcome::Success { .. }));
    // The sub-call reverted: return code zero, storage untouched.
    assert_eq!(ctx.stack.peek(0), U256::zero());
    assert_eq!(journal.get_storage(&callee_addr, &w(0)), w(77));
}

#[test]
fn successful_sub_call_keeps_changes_and_returns_output() {
    let callee_addr = Address::from_u64(0x55);
    // Callee: store 9 at slot 0, then return one byte 0xAB from memory.
    let callee_code = vec![
        0x60, 0x09, 0x60, 0x00, 0x55, 0x60, 0xab, 0x60, 0x00, 0x53, 0x60, 0x01, 0x60, 0x00,
        0xf3,
    ];
    // Caller: out len 1, out off 0, in len 0, in off 0, value 0, addr, gas; CALL; STOP.
    let caller_code = vec![
        0x60, 0x01, 0x60, 0x00, 0x60, 0x00, 0x60, 0x00, 0x60, 0x00, 0x60, 0x55, 0x5a, 0xf1,
        0x00,
    ];
    let mut journal = JournaledState::new();
    journal.set_account(
        callee_addr,
        Account { balance: U256::zero(), nonce: 0, code: callee_code },
    );
    let program = Program::from_opcodes(caller_code.clone());
    let mut ctx =
        RuntimeContext::new(contract_with(caller_code), 0, false, false, SpecId::Latest, 100_000);
    let env = test_env();
    let outcome = execute(&program, &env, &mut journal, &mut ctx);
    assert!(matches!(outcome, FrameOutcome::Success { .. }));
    assert_eq!(ctx.stack.peek(0), U256::one());
    assert_eq!(journal.get_storage(&callee_addr, &w(0)), w(9));
    assert_eq!(ctx.return_data, vec![0xab]);
    assert_eq!(ctx.memory.load_word(0).byte_evm(w(0)), w(0xab));
}

#[test]
fn static_call_refuses_state_changes() {
    let callee_addr = Address::from_u64(0x55);
    // Callee tries to SSTORE.
    let callee_code = vec![0x60, 0x01, 0x60, 0x00, 0x55, 0x00];
    // Caller uses STATICCALL (six operands, no value).
    let caller_code = vec![
        0x60, 0x00, 0x60, 0x00, 0x60, 0x00, 0x60, 0x00, 0x60, 0x55, 0x5a, 0xfa, 0x00,
    ];
    let mut journal = JournaledState::new();
    journal.set_account(
        callee_addr,
        Account { balance: U256::zero(), nonce: 0, code: callee_code },
    );
    let program = Program::from_opcodes(caller_code.clone());
    let mut ctx =
        RuntimeContext::new(contract_with(caller_code), 0, false, false, SpecId::Latest, 100_000);
    let env = test_env();
    let outcome = execute(&program, &env, &mut journal, &mut ctx);
    assert!(matches!(outcome, FrameOutcome::Success { .. }));
    // The child halted, so the return code is zero and storage is clean.
    assert_eq!(ctx.stack.peek(0), U256::zero());
    assert_eq!(journal.get_storage(&callee_addr, &w(0)), U256::zero());
}

#[test]
fn call_transfers_value() {
    let callee_addr = Address::from_u64(0x55);
    let caller_addr = Address::from_u64(40);
    // Caller sends 30 wei with an empty-code call.
    let caller_code = vec![
        0x60, 0x00, 0x60, 0x00, 0x60, 0x00, 0x60, 0x00, 0x60, 0x1e, 0x60, 0x55, 0x5a, 0xf1,
        0x00,
    ];
    let mut journal = JournaledState::new();
    journal.set_account(
        caller_addr,
        Account { balance: w(100), nonce: 0, code: caller_code.clone() },
    );
    let program = Program::from_opcodes(caller_code.clone());
    let mut ctx =
        RuntimeContext::new(contract_with(caller_code), 0, false, false, SpecId::Latest, 100_000);
    let env = test_env();
    let outcome = execute(&program, &env, &mut journal, &mut ctx);
    assert!(matches!(outcome, FrameOutcome::Success { .. }));
    assert_eq!(ctx.stack.peek(0), U256::one());
    assert_eq!(journal.get_account(&caller_addr).unwrap().balance, w(70));
    assert_eq!(journal.get_account(&callee_addr).unwrap().balance, w(30));
}

#[test]
fn create_deploys_returned_code_and_bumps_nonce() {
    // Memory gets a 10-byte initcode (MSTORE8 0xAA at 0; RETURN 1 byte),
    // then CREATE with value 0 deploys it.
    let initcode: [u8; 10] = [0x60, 0xaa, 0x60, 0x00, 0x53, 0x60, 0x01, 0x60, 0x00, 0xf3];
    let mut code = vec![0x69];
    code.extend_from_slice(&initcode);
    code.extend_from_slice(&[0x60, 0x00, 0x52]);
    code.extend_from_slice(&[0x60, 0x0a, 0x60, 0x16, 0x60, 0x00, 0xf0, 0x00]);
    let deployer = Address::from_u64(40);
    let mut journal = JournaledState::new();
    journal.set_account(
        deployer,
        Account { balance: U256::zero(), nonce: 0, code: code.clone() },
    );
    let program = Program::from_opcodes(code.clone());
    let mut ctx =
        RuntimeContext::new(contract_with(code), 0, false, false, SpecId::Latest, 200_000);
    let env = test_env();
    let outcome = execute(&program, &env, &mut journal, &mut ctx);
    assert!(matches!(outcome, FrameOutcome::Success { .. }));
    let created_word = ctx.stack.peek(0);
    assert!(!created_word.is_zero());
    let created = Address::from_word(created_word);
    let account = journal.get_account(&created).unwrap();
    assert_eq!(account.code, vec![0xaa]);
    assert_eq!(account.nonce, 1);
    assert_eq!(journal.get_account(&deployer).unwrap().nonce, 1);
}

#[test]
fn create2_matches_the_published_vector() {
    // With a zero sender, zero salt and empty initcode, CREATE2 deploys
    // to 0xE33C0C7F7df4809055C3ebA6c09CFe4BaF1BD9e0.
    let code = vec![0x60, 0x00, 0x60, 0x00, 0x60, 0x00, 0x60, 0x00, 0xf5, 0x00];
    let mut contract = contract_with(code.clone());
    contract.address = Address::zero();
    let program = Program::from_opcodes(code);
    let mut ctx = RuntimeContext::new(contract, 0, false, false, SpecId::Latest, 200_000);
    let mut journal = JournaledState::new();
    let env = test_env();
    let outcome = execute(&program, &env, &mut journal, &mut ctx);
    assert!(matches!(outcome, FrameOutcome::Success { .. }));
    let expected = hex::decode("e33c0c7f7df4809055c3eba6c09cfe4baf1bd9e0").unwrap();
    assert_eq!(ctx.stack.peek(0), U256::from_be_bytes(&expected));
}

#[test]
fn create_inside_static_call_halts() {
    let code = vec![0x60, 0x00, 0x60, 0x00, 0x60, 0x00, 0xf0];
    let program = Program::from_opcodes(code.clone());
    let mut ctx =
        RuntimeContext::new(contract_with(code), 0, true, false, SpecId::Latest, 200_000);
    let mut journal = JournaledState::new();
    let env = test_env();
    let outcome = execute(&program, &env, &mut journal, &mut ctx);
    match outcome {
        FrameOutcome::Halt { reason, .. } => {
            assert_eq!(reason, HaltReason::StateChangeDuringStaticcall)
        },
        other => panic!("unexpected outcome {:?}", other),
    }
}

#[test]
fn create_transaction_deploys_code() {
    // A transaction without a target runs its data as initcode; the
    // initcode returns one byte 0xAA as the deployed body.
    let mut env = test_env();
    env.tx.transact_to = TxKind::Create;
    env.tx.data = vec![0x60, 0xaa, 0x60, 0x00, 0x53, 0x60, 0x01, 0x60, 0x00, 0xf3];
    let db = JournaledState::new();
    let rs = dora::vm::transact(env, db, SpecId::Latest).unwrap();
    match rs.result {
        ExecutionResult::Success { reason, output, .. } => {
            assert_eq!(reason, SuccessReason::Return);
            let addr = *output.address().expect("created address");
            assert_eq!(output.data(), &vec![0xaa]);
            assert!(!addr.word.is_zero());
            // The deployed account is in the returned state.
            let found = rs.state.iter().any(|e| {
                e.address == addr && e.account.code == vec![0xaa] && e.account.nonce == 1
            });
            assert!(found);
        },
        other => panic!("unexpected result {:?}", other),
    }
}

#[test]
fn run_bytecode_scenario_add() {
    let res = run_bytecode_with_calldata("6001600101", "", 1000, SpecId::Latest).unwrap();
    match res {
        ExecutionResult::Success { reason, gas_used, .. } => {
            assert_eq!(reason, SuccessReason::Stop);
            assert_eq!(gas_used, 9);
        },
        other => panic!("unexpected result {:?}", other),
    }
}

#[test]
fn run_bytecode_scenario_return() {
    let res =
        run_bytecode_with_calldata("60FF6000526001601FF3", "", 1000, SpecId::Latest).unwrap();
    match res {
        ExecutionResult::Success { reason, output, .. } => {
            assert_eq!(reason, SuccessReason::Return);
            assert_eq!(output.data(), &vec![0xff]);
        },
        other => panic!("unexpected result {:?}", other),
    }
}

#[test]
fn run_bytecode_scenario_revert() {
    let res = run_bytecode_with_calldata("60036000FD", "", 1000, SpecId::Latest).unwrap();
    match res {
        ExecutionResult::Revert { gas_used, output } => {
            assert_eq!(gas_used, 9);
            assert_eq!(output, vec![0, 0, 0]);
        },
        other => panic!("unexpected result {:?}", other),
    }
}

#[test]
fn run_bytecode_scenario_jump_underflow() {
    let res = run_bytecode_with_calldata("5B56", "", 1000, SpecId::Latest).unwrap();
    match res {
        ExecutionResult::Halt { reason, gas_limit, gas_used } => {
            assert!(reason.is_stack_underflow());
            assert_eq!(gas_limit, 1000);
            assert_eq!(gas_used, 1000);
        },
        other => panic!("unexpected result {:?}", other),
    }
}

#[test]
fn run_bytecode_rejects_bad_hex() {
    assert!(run_bytecode_with_calldata("60x1", "", 1000, SpecId::Latest).is_err());
    assert!(run_bytecode_with_calldata("600", "", 1000, SpecId::Latest).is_err());
    assert!(run_bytecode_with_calldata("6001", "zz", 1000, SpecId::Latest).is_err());
}

#[test]
fn calldata_flows_into_the_frame() {
    // CALLDATASIZE; then CALLDATALOAD of offset 0.
    let res = run_bytecode_with_calldata("366000350100", "01020304", 1000, SpecId::Latest);
    // CALLDATASIZE pushes 4; CALLDATALOAD pushes the padded word; ADD
    // halts cleanly at STOP.
    assert!(res.unwrap().is_success());
}
