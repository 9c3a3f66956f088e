//! The call-frame machine and transaction entry points: artifacts built
//! from code and memoized by code hash, frames executed against the
//! journaled state, and the results marshalled for the caller.

use vstd::prelude::*;
use crate::journal::{Account, AccountEntry, JournaledState};
use crate::primitives::{Address, SpecId};
use crate::program::Program;
use crate::result::{ExecutionResult, HaltReason, Output, VMError};
use crate::runtime::{execute, Contract, Env, Frame, FrameOutcome, RuntimeContext, TxKind};
use crate::u256::U256;

verus! {

broadcast use vstd::string::to_string_from_display_ensures_for_str;

/// A loadable representation of one contract's code: the decoded
/// program, content-addressed by code hash in the cache.
#[derive(Debug, Clone, PartialEq, Eq)]
pub struct Artifact {
    pub program: Program,
}

/// One installed artifact under its code hash.
#[derive(Debug, Clone, PartialEq, Eq)]
pub struct ArtifactEntry {
    pub hash: U256,
    pub artifact: Artifact,
}

/// How frames are carried out.
#[derive(Debug, Clone, Copy, PartialEq, Eq, Structural)]
pub enum HandlerKind {
    /// Build an artifact per code hash and run it.
    Compile,
}

/// The frame-calling strategy of a VM.
#[derive(Debug, Clone, Copy, PartialEq, Eq, Structural)]
pub struct Handler {
    pub kind: HandlerKind,
}

/// The handler that compiles contracts to artifacts and executes them.
pub fn compile_handler() -> (r: Handler)
    ensures
        r.kind == HandlerKind::Compile,
{
    Handler { kind: HandlerKind::Compile }
}

/// The long-lived context of a VM: the journaled database, the
/// environment, the spec id, the handler and the artifact cache.
#[derive(Debug, Clone, PartialEq, Eq)]
pub struct VMContext {
    pub journal: JournaledState,
    pub env: Env,
    pub spec_id: SpecId,
    pub handler: Handler,
    pub artifacts: Vec<ArtifactEntry>,
}

impl VMContext {
    /// The context is ready to execute frames: the journal is sound and
    /// every cached artifact is a sound decoding of its own code.
    pub open spec fn well_formed(self) -> bool {
        &&& self.journal.well_formed()
        &&& (forall|i: int|
            0 <= i < self.artifacts_len() ==> #[trigger] self.artifact_at(
                i,
            ).program.well_formed() && self.artifact_at(i).program.code@.len() <= usize::MAX
                - 33)
    }

    /// The number of installed artifacts.
    pub open spec fn artifacts_len(self) -> int {
        self.artifacts@.len() as int
    }

    /// The artifact at cache position `i`.
    pub open spec fn artifact_at(self, i: int) -> Artifact {
        self.artifacts@[i].artifact
    }

    /// A fresh context over a database and environment.
    pub fn new(db: JournaledState, env: Env, spec_id: SpecId, handler: Handler) -> (r: VMContext)
        requires
            db.well_formed(),
        ensures
            r.well_formed(),
            r.journal == db,
            r.env == env,
            r.spec_id == spec_id,
            r.handler == handler,
    {
        VMContext { journal: db, env, spec_id, handler, artifacts: Vec::new() }
    }

    /// The installed artifact under `code_hash`, if any: the earliest
    /// entry carrying that hash, so an installed artifact is never
    /// displaced by a later insert.
    pub fn get_artifact(&self, code_hash: &U256) -> (r: Option<&Artifact>)
        requires
            self.well_formed(),
        ensures
            r matches Some(a) ==> a.program.well_formed() && a.program.code@.len() <= usize::MAX
                - 33,
            r is None <==> (forall|i: int|
                0 <= i < self.artifacts_len() ==> self.artifacts@[i].hash != *code_hash),
            r matches Some(a) ==> exists|i: int|
                0 <= i < self.artifacts_len() && self.artifacts@[i].hash == *code_hash && a
                    == self.artifacts@[i].artifact && (forall|j: int|
                    0 <= j < i ==> self.artifacts@[j].hash != *code_hash),
    {
        let n = self.artifacts.len();
        let mut i: usize = 0;
        while i < n
            invariant
                i <= n == self.artifacts@.len(),
                self.well_formed(),
                forall|j: int| 0 <= j < i ==> self.artifacts@[j].hash != *code_hash,
            decreases n - i,
        {
            let e = &self.artifacts[i];
            if e.hash.lo == code_hash.lo && e.hash.hi == code_hash.hi {
                proof {
                    assert(self.artifact_at(i as int) == self.artifacts@[i as int].artifact);
                }
                return Some(&e.artifact);
            }
            i = i + 1;
        }
        None
    }

    /// Install an artifact under `code_hash`: the entry is appended, and
    /// since lookups take the earliest entry, an installed artifact is
    /// never replaced.
    pub fn set_artifact(&mut self, code_hash: U256, artifact: Artifact) -> (r: ())
        requires
            old(self).well_formed(),
            artifact.program.well_formed(),
            artifact.program.code@.len() <= usize::MAX - 33,
        ensures
            final(self).well_formed(),
            final(self).journal == old(self).journal,
            final(self).env == old(self).env,
            final(self).spec_id == old(self).spec_id,
            final(self).artifacts@ == old(self).artifacts@.push(
                ArtifactEntry { hash: code_hash, artifact },
            ),
    {
        let ghost old_entries = self.artifacts@;
        self.artifacts.push(ArtifactEntry { hash: code_hash, artifact });
        proof {
            assert forall|i: int| 0 <= i < self.artifacts_len() implies #[trigger] self
                .artifact_at(i).program.well_formed() && self.artifact_at(i).program.code@.len()
                <= usize::MAX - 33 by {
                if i < old_entries.len() {
                    assert(self.artifact_at(i) == old(self).artifact_at(i));
                } else {
                    assert(self.artifact_at(i) == artifact);
                }
            }
        }
    }
}

/// A fresh decoding of the same program: every view is preserved.
fn clone_program(p: &Program) -> (r: Program)
    ensures
        r.code@ == p.code@,
        r.jumpdests@ == p.jumpdests@,
        r.block_starts@ == p.block_starts@,
{
    let code = crate::journal::copy_bytes(&p.code);
    let n = p.jumpdests.len();
    let mut jumpdests: Vec<bool> = Vec::new();
    let mut i: usize = 0;
    while i < n
        invariant
            i <= n == p.jumpdests@.len(),
            jumpdests@.len() == i,
            forall|j: int| 0 <= j < i ==> jumpdests@[j] == p.jumpdests@[j],
        decreases n - i,
    {
        jumpdests.push(p.jumpdests[i]);
        i = i + 1;
    }
    let m = p.block_starts.len();
    let mut block_starts: Vec<usize> = Vec::new();
    let mut k: usize = 0;
    while k < m
        invariant
            k <= m == p.block_starts@.len(),
            block_starts@.len() == k,
            forall|j: int| 0 <= j < k ==> block_starts@[j] == p.block_starts@[j],
        decreases m - k,
    {
        block_starts.push(p.block_starts[k]);
        k = k + 1;
    }
    proof {
        assert(jumpdests@ =~= p.jumpdests@);
        assert(block_starts@ =~= p.block_starts@);
        assert(code@ =~= p.code@);
    }
    Program { code, jumpdests, block_starts }
}

/// Whether two byte strings are equal.
fn bytes_equal(a: &Vec<u8>, b: &Vec<u8>) -> (r: bool)
    ensures
        r <==> a@ =~= b@,
{
    if a.len() != b.len() {
        return false;
    }
    let n = a.len();
    let mut i: usize = 0;
    while i < n
        invariant
            i <= n == a@.len() == b@.len(),
            forall|j: int| 0 <= j < i ==> a@[j] == b@[j],
        decreases n - i,
    {
        if a[i] != b[i] {
            return false;
        }
        i = i + 1;
    }
    true
}

/// What a frame's execution hands back to the call machinery: the
/// discriminator byte, the gas split, the output bytes and, for a halt,
/// the reason.
#[derive(Debug, Clone, PartialEq, Eq)]
pub struct CallResult {
    /// 1 for success, 0 for revert or halt.
    pub status: u8,
    pub gas_used: u64,
    pub gas_remaining: u64,
    pub output: Vec<u8>,
    pub halt_reason: Option<HaltReason>,
    pub success_reason: Option<crate::result::SuccessReason>,
}

impl CallResult {
    /// Marshal a frame outcome against its gas limit: the remaining gas
    /// is the limit less what was used, zero on a halt.
    pub fn from_outcome(outcome: FrameOutcome, gas_limit: u64) -> (r: CallResult)
        requires
            outcome.spec_gas_used() <= gas_limit,
            outcome is Halt ==> outcome.spec_gas_used() == gas_limit,
        ensures
            r.gas_used == outcome.spec_gas_used(),
            r.gas_used + r.gas_remaining == gas_limit,
            outcome is Success ==> r.status == 1 && r.halt_reason is None,
            outcome matches FrameOutcome::Success { reason, .. } ==> r.success_reason == Some(
                reason,
            ),
            outcome is Revert ==> r.status == 0 && r.halt_reason is None
                && r.success_reason is None,
            outcome matches FrameOutcome::Halt { reason, .. } ==> r.status == 0
                && r.halt_reason == Some(reason) && r.gas_remaining == 0
                && r.success_reason is None,
            outcome matches FrameOutcome::Success { output, .. } ==> r.output@ == output@,
            outcome matches FrameOutcome::Revert { output, .. } ==> r.output@ == output@,
    {
        match outcome {
            FrameOutcome::Success { reason, gas_used, output } => CallResult {
                status: 1,
                gas_used,
                gas_remaining: gas_limit - gas_used,
                output,
                halt_reason: None,
                success_reason: Some(reason),
            },
            FrameOutcome::Revert { gas_used, output } => CallResult {
                status: 0,
                gas_used,
                gas_remaining: gas_limit - gas_used,
                output,
                halt_reason: None,
                success_reason: None,
            },
            FrameOutcome::Halt { reason, gas_used } => CallResult {
                status: 0,
                gas_used,
                gas_remaining: gas_limit - gas_used,
                output: Vec::new(),
                halt_reason: Some(reason),
                success_reason: None,
            },
        }
    }
}

/// The hash a frame's artifact is cached under: the declared code hash,
/// or the zero word where the frame carries none.
pub open spec fn frame_code_hash(frame: Frame) -> U256 {
    match frame.contract.hash {
        Some(h) => h,
        None => (U256 { lo: 0, hi: 0 }),
    }
}

/// Whether the cache already serves a frame: the earliest installed
/// entry under the frame's code hash decodes exactly the frame's code.
pub open spec fn cache_hit(vm: VMContext, frame: Frame) -> bool {
    exists|i: int|
        0 <= i < vm.artifacts_len() && vm.artifacts@[i].hash == frame_code_hash(frame)
            && vm.artifacts@[i].artifact.program.code@ == frame.contract.code@ && (forall|
            j: int|
            0 <= j < i ==> vm.artifacts@[j].hash != frame_code_hash(frame))
}

/// Carry out one frame: fetch the artifact for the contract's code hash,
/// building and installing it on a miss, run it in a fresh runtime
/// context, and marshal the result. The checkpoint stack is left as
/// found; the caller commits or reverts around this call.
pub fn compile_call_handler(frame: Frame, vm: &mut VMContext) -> (r: Result<CallResult, VMError>)
    requires
        old(vm).well_formed(),
        frame.gas_limit <= i64::MAX,
        frame.contract.code@.len() <= usize::MAX - 33,
    ensures
        final(vm).well_formed(),
        final(vm).env == old(vm).env,
        final(vm).spec_id == old(vm).spec_id,
        final(vm).journal.checkpoints_view() == old(vm).journal.checkpoints_view(),
        final(vm).journal.logs_view().len() >= old(vm).journal.logs_view().len(),
        forall|i: int|
            0 <= i < old(vm).journal.logs_view().len() ==> final(vm).journal.logs_view()[i]
                == old(vm).journal.logs_view()[i],
        r matches Ok(cr) ==> cr.gas_used + cr.gas_remaining == frame.gas_limit && (
        cr.halt_reason is Some ==> cr.gas_remaining == 0),
        r matches Ok(cr) ==> (cr.status == 0 || cr.status == 1) && (cr.status == 1
            <==> cr.success_reason is Some) && (cr.status == 1 ==> cr.halt_reason is None),
        r is Ok,
        cache_hit(*old(vm), frame) ==> final(vm).artifacts@ == old(vm).artifacts@,
        !cache_hit(*old(vm), frame) ==> final(vm).artifacts@ == old(vm).artifacts@.push(
            final(vm).artifacts@.last(),
        ) && final(vm).artifacts@.last().hash == frame_code_hash(frame)
            && final(vm).artifacts@.last().artifact.program.code@ == frame.contract.code@
            && final(vm).artifacts@.last().artifact.program.well_formed(),
        frame.depth < crate::CALL_STACK_LIMIT && frame.contract.code@ =~= seq![
            0x5bu8,
            0x56u8,
        ] && frame.gas_limit >= 11 ==> (r matches Ok(cr) && cr.status == 0 && cr.halt_reason
            == Some(HaltReason::StackUnderflow) && cr.gas_used == frame.gas_limit),
        frame.depth < crate::CALL_STACK_LIMIT && frame.contract.code@ =~= seq![
            0x60u8,
            0x00u8,
            0x50u8,
        ] && frame.gas_limit >= 5 ==> (r matches Ok(cr) && cr.status == 1
            && cr.success_reason == Some(crate::result::SuccessReason::Stop) && cr.gas_used
            == 5 && cr.output@.len() == 0),
{
    let code_hash = match frame.contract.hash {
        Some(h) => h,
        None => U256::zero(),
    };
    let cached: Option<Artifact> = match vm.get_artifact(&code_hash) {
        Some(a) => {
            if bytes_equal(&a.program.code, &frame.contract.code) {
                Some(Artifact { program: clone_program(&a.program) })
            } else {
                None
            }
        },
        None => None,
    };
    proof {
        // The lookup takes the earliest entry under the hash, so the
        // cached-or-not decision coincides with the hit condition.
        if cache_hit(*old(vm), frame) {
            let i = choose|i: int|
                0 <= i < old(vm).artifacts_len() && old(vm).artifacts@[i].hash
                    == frame_code_hash(frame)
                    && old(vm).artifacts@[i].artifact.program.code@ == frame.contract.code@
                    && (forall|j: int|
                    0 <= j < i ==> old(vm).artifacts@[j].hash != frame_code_hash(frame));
            assert(cached is Some);
        }
        if cached is Some {
            assert(cache_hit(*old(vm), frame));
        }
    }
    let artifact = match cached {
        Some(a) => a,
        None => {
            let program = Program::from_opcodes(crate::journal::copy_bytes(&frame.contract.code));
            let a = Artifact { program };
            vm.set_artifact(code_hash, Artifact { program: clone_program(&a.program) });
            a
        },
    };
    let mut runtime_context = RuntimeContext::new(
        frame.contract,
        frame.depth,
        frame.is_static,
        frame.is_eof_init,
        vm.spec_id,
        frame.gas_limit,
    );
    let ghost mid = *vm;
    let outcome = execute(&artifact.program, &vm.env, &mut vm.journal, &mut runtime_context);
    proof {
        assert(mid.well_formed());
        assert(vm.artifacts@ == mid.artifacts@);
        assert forall|i: int| 0 <= i < vm.artifacts_len() implies #[trigger] vm.artifact_at(
            i,
        ).program.well_formed() && vm.artifact_at(i).program.code@.len() <= usize::MAX - 33 by {
            assert(mid.artifact_at(i).program.well_formed() && mid.artifact_at(
                i,
            ).program.code@.len() <= usize::MAX - 33);
            assert(vm.artifact_at(i) == mid.artifact_at(i));
        }
        assert(vm.journal.well_formed());
        assert(vm.well_formed());
    }
    Ok(CallResult::from_outcome(outcome, frame.gas_limit))
}

/// Build the artifact for a contract's code and run it against the given
/// runtime context, returning the entry point's discriminator byte: 1
/// for success, 0 for revert, 2 for halt.
pub fn run_with_context(
    runtime_context: &mut RuntimeContext,
    env: &Env,
    journal: &mut JournaledState,
) -> (r: Result<u8, VMError>)
    requires
        old(runtime_context).well_formed(),
        old(journal).well_formed(),
    ensures
        final(journal).well_formed(),
        final(journal).checkpoints_view() == old(journal).checkpoints_view(),
        r is Ok,
        r matches Ok(b) ==> b == 1 || b == 0 || b == 2,
{
    let program = Program::from_opcodes(
        crate::journal::copy_bytes(&runtime_context.contract.code),
    );
    let outcome = execute(&program, env, journal, runtime_context);
    match outcome {
        FrameOutcome::Success { .. } => Ok(1),
        FrameOutcome::Revert { .. } => Ok(0),
        FrameOutcome::Halt { .. } => Ok(2),
    }
}

/// Whether a transaction is refused before any frame runs: a gas limit
/// beyond the signed 64-bit counter, an oversized code or initcode blob,
/// or a value transfer that the caller cannot fund or whose credit would
/// overflow the recipient's balance.
pub open spec fn transact_refused(env: Env, db: JournaledState) -> bool {
    ||| env.tx.gas_limit > i64::MAX
    ||| match env.tx.transact_to {
        TxKind::Create => env.tx.data@.len() > usize::MAX - 33,
        TxKind::Call(callee) => {
            ||| crate::journal::account_or_empty(
                db.accounts_view(),
                callee.as_nat(),
            ).code.len() > usize::MAX - 33
            ||| (env.tx.value.as_nat() > 0 && (crate::journal::account_or_empty(
                db.accounts_view(),
                env.tx.caller.as_nat(),
            ).balance < env.tx.value.as_nat() || crate::journal::account_or_empty(
                crate::runtime::debited_view(db.accounts_view(), env.tx.caller, env.tx.value),
                callee.as_nat(),
            ).balance + env.tx.value.as_nat() >= crate::u256::word_modulus()))
        },
    }
}

/// Run the transaction the environment describes against the database
/// and return the execution result together with the account state it
/// left. A successful frame's journal checkpoint is committed, any other
/// outcome is reverted; a halt's result consumes the whole gas limit,
/// and otherwise the gas used never exceeds it. The transaction is
/// refused, with an error, exactly when its inputs are invalid before
/// any frame runs. Gas refunds are not modelled: a successful result
/// always reports zero refunded gas.
pub fn transact(env: Env, db: JournaledState, spec_id: SpecId) -> (r: Result<
    ResultAndState,
    VMError,
>)
    requires
        db.well_formed(),
    ensures
        r is Err <==> transact_refused(env, db),
        r matches Ok(rs) ==> !(rs.result is FatalExternalError),
        r matches Ok(rs) ==> (rs.result matches ExecutionResult::Success {
            gas_refunded,
            ..
        } ==> gas_refunded == 0),
        r matches Ok(rs) ==> match rs.result {
            ExecutionResult::Success { gas_used, .. } => gas_used <= env.tx.gas_limit,
            ExecutionResult::Revert { gas_used, .. } => gas_used <= env.tx.gas_limit,
            ExecutionResult::Halt { gas_limit, gas_used, .. } => gas_limit == env.tx.gas_limit
                && gas_used == env.tx.gas_limit,
            ExecutionResult::FatalExternalError => true,
        },
        !transact_refused(env, db) && (env.tx.transact_to matches TxKind::Call(callee)
            && crate::journal::account_or_empty(db.accounts_view(), callee.as_nat()).code
            =~= seq![0x5bu8, 0x56u8]) && env.tx.gas_limit >= 11 ==> (r matches Ok(rs)
            && rs.result == (ExecutionResult::Halt {
            reason: HaltReason::StackUnderflow,
            gas_limit: env.tx.gas_limit,
            gas_used: env.tx.gas_limit,
        })),
        !transact_refused(env, db) && (env.tx.transact_to matches TxKind::Call(callee)
            && crate::journal::account_or_empty(db.accounts_view(), callee.as_nat()).code
            =~= seq![0x60u8, 0x00u8, 0x50u8]) && env.tx.gas_limit >= 5 ==> (r matches Ok(rs)
            && (rs.result matches ExecutionResult::Success {
            reason: crate::result::SuccessReason::Stop,
            gas_used: 5u64,
            output,
            ..
        } && output.spec_data().len() == 0)),
{
    let mut vm = VMContext::new(db, env, spec_id, compile_handler());
    let ghost vm0 = vm;
    if vm.env.tx.gas_limit > i64::MAX as u64 {
        return Err(VMError::Transaction("gas limit exceeds the signed 64-bit range".to_string()));
    }
    let callee = match vm.env.tx.transact_to {
        TxKind::Call(a) => a,
        TxKind::Create => {
            let initcode = crate::journal::copy_bytes(&vm.env.tx.data);
            if initcode.len() > usize::MAX - 33 {
                return Err(VMError::Transaction("initcode too large".to_string()));
            }
            let tx_gas = vm.env.tx.gas_limit;
            let tx_value = vm.env.tx.value;
            let tx_caller = vm.env.tx.caller;
            let (outcome, created) = crate::runtime::create_transaction(
                &vm.env,
                &mut vm.journal,
                tx_caller,
                tx_value,
                initcode,
                tx_gas,
                spec_id,
            );
            let result = match outcome {
                FrameOutcome::Success { reason, gas_used, output } => {
                    let logs = vm.journal.logs_snapshot();
                    ExecutionResult::Success {
                        reason,
                        gas_used,
                        gas_refunded: 0,
                        output: Output::Create(output, created),
                        logs,
                    }
                },
                FrameOutcome::Revert { gas_used, output } => ExecutionResult::Revert {
                    gas_used,
                    output,
                },
                FrameOutcome::Halt { reason, gas_used } => ExecutionResult::Halt {
                    reason,
                    gas_limit: tx_gas,
                    gas_used,
                },
            };
            return Ok(ResultAndState { result, state: vm.journal.accounts_snapshot() });
        },
    };
    let code = match vm.journal.get_account(&callee) {
        Some(a) => crate::journal::copy_bytes(&a.code),
        None => Vec::new(),
    };
    if code.len() > usize::MAX - 33 {
        return Err(VMError::Compile("contract code too large".to_string()));
    }
    let gas_limit = vm.env.tx.gas_limit;
    let value = vm.env.tx.value;
    let caller = vm.env.tx.caller;
    let input = crate::journal::copy_bytes(&vm.env.tx.data);
    vm.journal.checkpoint();
    if !value.is_zero() {
        let moved = match crate::runtime::transfer_balance(&mut vm.journal, caller, callee,
        value) {
            Ok(b) => b,
            Err(_) => {
                vm.journal.revert_checkpoint();
                return Err(VMError::Transaction("value transfer overflowed".to_string()));
            },
        };
        if !moved {
            vm.journal.revert_checkpoint();
            return Err(VMError::Transaction("lack of funds for value transfer".to_string()));
        }
    }
    let frame = Frame {
        contract: Contract {
            code,
            hash: None,
            address: callee,
            caller,
            call_value: value,
            input,
        },
        depth: 0,
        is_static: false,
        is_eof_init: false,
        gas_limit,
    };
    proof {
        assert(vm.artifacts@ == vm0.artifacts@);
        assert forall|i: int| 0 <= i < vm.artifacts_len() implies #[trigger] vm.artifact_at(
            i,
        ).program.well_formed() && vm.artifact_at(i).program.code@.len() <= usize::MAX - 33 by {
            assert(vm.artifact_at(i) == vm0.artifact_at(i));
        }
        assert(vm.well_formed());
    }
    let call_result = match compile_call_handler(frame, &mut vm) {
        Ok(cr) => cr,
        Err(e) => {
            vm.journal.revert_checkpoint();
            return Err(e);
        },
    };
    let result = if call_result.status == 1 {
        vm.journal.commit_checkpoint();
        let logs = vm.journal.logs_snapshot();
        let reason = match call_result.success_reason {
            Some(sr) => sr,
            None => crate::result::SuccessReason::Stop,
        };
        ExecutionResult::Success {
            reason,
            gas_used: call_result.gas_used,
            gas_refunded: 0,
            output: Output::Call(call_result.output),
            logs,
        }
    } else {
        vm.journal.revert_checkpoint();
        match call_result.halt_reason {
            Some(reason) => ExecutionResult::Halt {
                reason,
                gas_limit,
                gas_used: call_result.gas_used,
            },
            None => ExecutionResult::Revert {
                gas_used: call_result.gas_used,
                output: call_result.output,
            },
        }
    };
    Ok(ResultAndState { result, state: vm.journal.accounts_snapshot() })
}

/// Run the transaction the environment describes against the database,
/// committing a success and reverting anything else, and return the
/// execution result alone. The transaction is refused exactly when
/// `transact` refuses it.
pub fn run(env: Env, db: JournaledState, spec_id: SpecId) -> (r: Result<ExecutionResult, VMError>)
    requires
        db.well_formed(),
    ensures
        r is Err <==> transact_refused(env, db),
        r matches Ok(res) ==> !(res is FatalExternalError),
        r matches Ok(res) ==> match res {
            ExecutionResult::Success { gas_used, .. } => gas_used <= env.tx.gas_limit,
            ExecutionResult::Revert { gas_used, .. } => gas_used <= env.tx.gas_limit,
            ExecutionResult::Halt { gas_limit, gas_used, .. } => gas_limit == env.tx.gas_limit
                && gas_used == env.tx.gas_limit,
            ExecutionResult::FatalExternalError => true,
        },
        !transact_refused(env, db) && (env.tx.transact_to matches TxKind::Call(callee)
            && crate::journal::account_or_empty(db.accounts_view(), callee.as_nat()).code
            =~= seq![0x5bu8, 0x56u8]) && env.tx.gas_limit >= 11 ==> (r matches Ok(res)
            && res == (ExecutionResult::Halt {
            reason: HaltReason::StackUnderflow,
            gas_limit: env.tx.gas_limit,
            gas_used: env.tx.gas_limit,
        })),
        !transact_refused(env, db) && (env.tx.transact_to matches TxKind::Call(callee)
            && crate::journal::account_or_empty(db.accounts_view(), callee.as_nat()).code
            =~= seq![0x60u8, 0x00u8, 0x50u8]) && env.tx.gas_limit >= 5 ==> (r matches Ok(res)
            && (res matches ExecutionResult::Success {
            reason: crate::result::SuccessReason::Stop,
            gas_used: 5u64,
            output,
            ..
        } && output.spec_data().len() == 0)),
{
    match transact(env, db, spec_id) {
        Ok(rs) => Ok(rs.result),
        Err(e) => Err(e),
    }
}

/// The updated account state after a transaction.
pub type State = Vec<AccountEntry>;

/// The result of a transaction together with the account state it left
/// behind.
#[derive(Debug, Clone, PartialEq, Eq)]
pub struct ResultAndState {
    /// Status of execution, with its outputs.
    pub result: ExecutionResult,
    /// Updated state of accounts after execution.
    pub state: State,
}

/// Whether a program's block-start list is exactly the basic-block
/// partition of its code: every listed offset is a block start, every
/// block start is listed, and the list ascends strictly — which
/// determines it uniquely.
pub open spec fn block_starts_exact(p: Program) -> bool {
    &&& (forall|k: int|
        0 <= k < p.block_starts@.len() ==> crate::program::spec_is_block_start(
            p.code@,
            #[trigger] p.block_starts@[k] as nat,
        ))
    &&& (forall|j: nat|
        crate::program::spec_is_block_start(p.code@, j) ==> p.block_starts@.contains(
            j as usize,
        ))
    &&& (forall|k1: int, k2: int|
        0 <= k1 < k2 < p.block_starts@.len() ==> p.block_starts@[k1] < p.block_starts@[k2])
}

/// A contract code blob, by front end.
#[derive(Debug, Clone, PartialEq, Eq)]
pub enum Bytecode {
    /// EVM opcodes.
    EVM(Vec<u8>),
    /// A WASM module.
    WASM(Vec<u8>),
}

/// Build the artifact for a code blob, choosing the front end by its
/// kind. Only the EVM front end is offered by this runtime; a WASM
/// module is refused.
pub fn build_artifact(code: &Bytecode, spec_id: SpecId) -> (r: Result<Artifact, VMError>)
    ensures
        code matches Bytecode::EVM(b) ==> (b@.len() <= usize::MAX - 33 ==> (r matches Ok(a)
            && a.program.well_formed() && a.program.code@ == b@ && block_starts_exact(
            a.program,
        ))),
        code matches Bytecode::EVM(b) ==> (b@.len() > usize::MAX - 33 ==> r is Err),
        code is WASM ==> (r matches Err(e) && e matches VMError::Compile(m) && m@
            == "the wasm front end is not available"@),
{
    match code {
        Bytecode::EVM(bytes) => build_evm_artifact(bytes, spec_id),
        Bytecode::WASM(bytes) => build_wasm_artifact(bytes),
    }
}

/// Decode EVM code into an artifact: the program with its jump
/// destinations and basic blocks.
pub fn build_evm_artifact(code: &Vec<u8>, spec_id: SpecId) -> (r: Result<Artifact, VMError>)
    ensures
        code@.len() <= usize::MAX - 33 ==> (r matches Ok(a) && a.program.well_formed()
            && a.program.code@ == code@ && block_starts_exact(a.program)),
        code@.len() > usize::MAX - 33 ==> r is Err,
{
    let _ = spec_id;
    if code.len() > usize::MAX - 33 {
        return Err(VMError::Compile("contract code too large".to_string()));
    }
    let program = Program::from_opcodes(crate::journal::copy_bytes(code));
    Ok(Artifact { program })
}

/// The WASM front end needs the module decoder and lowering pipeline of
/// an external backend, which this runtime does not carry: a WASM module
/// is always refused.
pub fn build_wasm_artifact(code: &Vec<u8>) -> (r: Result<Artifact, VMError>)
    ensures
        r matches Err(e) && e matches VMError::Compile(m) && m@
            == "the wasm front end is not available"@,
{
    let _ = code;
    Err(VMError::Compile("the wasm front end is not available".to_string()))
}

/// Whether a character is a hexadecimal digit.
pub open spec fn is_hex_digit(c: char) -> bool {
    ('0' <= c && c <= '9') || ('a' <= c && c <= 'f') || ('A' <= c && c <= 'F')
}

/// The value of a hexadecimal digit.
pub open spec fn hex_digit_value(c: char) -> nat {
    if '0' <= c && c <= '9' {
        ((c as nat) - ('0' as nat)) as nat
    } else if 'a' <= c && c <= 'f' {
        ((c as nat) - ('a' as nat) + 10) as nat
    } else {
        ((c as nat) - ('A' as nat) + 10) as nat
    }
}

/// Whether a string is well-formed hex: an even number of hex digits.
pub open spec fn is_hex_string(s: Seq<char>) -> bool {
    s.len() % 2 == 0 && (forall|i: int| 0 <= i < s.len() ==> is_hex_digit(#[trigger] s[i]))
}

/// The byte at position `i` of a decoded hex string.
pub open spec fn hex_byte_at(s: Seq<char>, i: int) -> nat {
    hex_digit_value(s[2 * i]) * 16 + hex_digit_value(s[2 * i + 1])
}

/// Relies on hex::decode: an even-length string of hex digits decodes to
/// its byte values, two digits per byte; an odd length or any other
/// character is refused.
#[verifier::external_body]
fn hex_decode(s: &str) -> (r: Result<Vec<u8>, VMError>)
    ensures
        r is Ok <==> is_hex_string(s@),
        r matches Ok(v) ==> v@.len() == s@.len() / 2 && v@.len() <= usize::MAX / 2 && (
        forall|i: int|
            0 <= i < v@.len() ==> #[trigger] v@[i] == hex_byte_at(s@, i)),
        r matches Err(e) ==> (e matches VMError::Compile(_)),
{
    match hex::decode(s) {
        Ok(v) => Ok(v),
        Err(_) => Err(VMError::Compile("invalid hex input".to_string())),
    }
}

/// Run hex-encoded EVM bytecode with the given calldata and initial gas
/// against a fresh in-memory state: the bytecode is installed at a fixed
/// address, the transaction calls it, and the execution result comes
/// back. Invalid hex in either argument is refused; otherwise the gas
/// used never exceeds `initial_gas`, and a halt consumes it exactly.
pub fn run_bytecode_with_calldata(
    program: &str,
    calldata: &str,
    initial_gas: u64,
    spec_id: SpecId,
) -> (r: Result<ExecutionResult, VMError>)
    ensures
        !(is_hex_string(program@) && is_hex_string(calldata@)) ==> r is Err,
        is_hex_string(program@) && is_hex_string(calldata@) && initial_gas <= i64::MAX ==> r
            is Ok,
        is_hex_string(program@) && is_hex_string(calldata@) && program@.len() == 4
            && hex_byte_at(program@, 0) == 0x5b && hex_byte_at(program@, 1) == 0x56 && 11
            <= initial_gas <= i64::MAX ==> (r matches Ok(res) && res == (
        ExecutionResult::Halt {
            reason: HaltReason::StackUnderflow,
            gas_limit: initial_gas,
            gas_used: initial_gas,
        })),
        is_hex_string(program@) && is_hex_string(calldata@) && program@.len() == 6
            && hex_byte_at(program@, 0) == 0x60 && hex_byte_at(program@, 1) == 0x00
            && hex_byte_at(program@, 2) == 0x50 && 5 <= initial_gas <= i64::MAX ==> (r
            matches Ok(res) && (res matches ExecutionResult::Success {
            reason: crate::result::SuccessReason::Stop,
            gas_used: 5u64,
            output,
            ..
        } && output.spec_data().len() == 0)),
        r matches Ok(res) ==> match res {
            ExecutionResult::Success { gas_used, .. } => gas_used <= initial_gas,
            ExecutionResult::Revert { gas_used, .. } => gas_used <= initial_gas,
            ExecutionResult::Halt { gas_limit, gas_used, .. } => gas_limit == initial_gas
                && gas_used == initial_gas,
            ExecutionResult::FatalExternalError => true,
        },
{
    let opcodes = match hex_decode(program) {
        Ok(v) => v,
        Err(e) => { return Err(e) },
    };
    let data = match hex_decode(calldata) {
        Ok(v) => v,
        Err(e) => { return Err(e) },
    };
    let address = Address::from_u64(40);
    let caller = Address::from_u64(10000);
    let env = Env {
        block: crate::runtime::BlockEnv {
            number: 0,
            timestamp: 0,
            coinbase: Address::zero(),
            basefee: U256::zero(),
            prevrandao: U256::zero(),
            gaslimit: 0,
            chainid: 1,
            blobbasefee: U256::zero(),
            blobhashes: Vec::new(),
            block_hashes: Vec::new(),
        },
        tx: crate::runtime::TxEnv {
            caller,
            gas_limit: initial_gas,
            gas_price: U256::zero(),
            value: U256::zero(),
            data,
            transact_to: TxKind::Call(address),
            access_list: Vec::new(),
        },
    };
    let mut db = JournaledState::new();
    proof {
        if program@.len() == 4 && hex_byte_at(program@, 0) == 0x5b && hex_byte_at(
            program@,
            1,
        ) == 0x56 {
            assert(opcodes@ =~= seq![0x5bu8, 0x56u8]);
        }
        if program@.len() == 6 && hex_byte_at(program@, 0) == 0x60 && hex_byte_at(
            program@,
            1,
        ) == 0x00 && hex_byte_at(program@, 2) == 0x50 {
            assert(opcodes@ =~= seq![0x60u8, 0x00u8, 0x50u8]);
        }
    }
    db.set_account(address, Account { balance: U256::zero(), nonce: 0, code: opcodes });
    run(env, db, spec_id)
}

} // verus!
