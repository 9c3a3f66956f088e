//! Execution results: success, revert and halt outcomes, the reasons that
//! produce them, and the errors the VM itself can raise.

use vstd::prelude::*;
use crate::primitives::{Address, Log};

verus! {

use vstd::string::StringExecFns;

/// Why an execution completed successfully.
#[derive(Debug, Clone, Copy, PartialEq, Eq, Structural)]
pub enum SuccessReason {
    Stop,
    Return,
    Selfdestruct,
    EofReturnContract,
}

/// The out-of-gas conditions, by where the shortfall was found.
#[derive(Debug, Clone, Copy, PartialEq, Eq, Structural)]
pub enum OutOfGasError {
    /// The static charge of an opcode exhausted the counter.
    Basic,
    /// Memory expansion exceeded the VM's memory limit.
    MemoryLimit,
    /// Insufficient gas for memory expansion.
    Memory,
    /// A precompile ran out of gas.
    Precompile,
    /// Contract creation ran out of gas.
    Create,
    /// An operand such as a memory offset exceeded the 64-bit range.
    InvalidOperand,
}

/// Why an execution halted, consuming all gas.
#[derive(Debug, Clone, Copy, PartialEq, Eq, Structural)]
pub enum HaltReason {
    OutOfGas(OutOfGasError),
    OpcodeNotFound,
    InvalidFEOpcode,
    InvalidJump,
    NotActivated,
    StackUnderflow,
    StackOverflow,
    OutOfOffset,
    CreateCollision,
    PrecompileError,
    NonceOverflow,
    CreateContractSizeLimit,
    CreateContractStartingWithEF,
    CreateInitCodeSizeLimit,
    OverflowPayment,
    StateChangeDuringStaticcall,
    CallNotAllowedInsideStatic,
    OutOfFunds,
    CallTooDeep,
    EofAuxDataOverflow,
    EofAuxDataTooSmall,
    EOFFunctionStackOverflow,
    InvalidExtCallTarget,
    InvalidExtDelegatecallTarget,
}

impl HaltReason {
    pub fn is_stack_overflow(&self) -> (r: bool)
        ensures
            r <==> (self is StackOverflow),
    {
        matches!(self, HaltReason::StackOverflow)
    }

    pub fn is_stack_underflow(&self) -> (r: bool)
        ensures
            r <==> (self is StackUnderflow),
    {
        matches!(self, HaltReason::StackUnderflow)
    }

    pub fn is_out_of_gas(&self) -> (r: bool)
        ensures
            r <==> (self is OutOfGas),
    {
        matches!(self, HaltReason::OutOfGas(_))
    }

    pub fn is_opcode_not_found(&self) -> (r: bool)
        ensures
            r <==> (self is OpcodeNotFound),
    {
        matches!(self, HaltReason::OpcodeNotFound)
    }

    pub fn is_invalid_jump(&self) -> (r: bool)
        ensures
            r <==> (self is InvalidJump),
    {
        matches!(self, HaltReason::InvalidJump)
    }

    /// A short description of the halt, as a display would print it.
    pub fn description(&self) -> (r: &'static str)
    {
        match self {
            HaltReason::OutOfGas(err) => match err {
                OutOfGasError::Basic => "Out of gas: Basic out-of-gas error during execution",
                OutOfGasError::MemoryLimit => "Out of gas: memory expansion exceeded limit",
                OutOfGasError::Memory => "Out of gas: insufficient gas for memory expansion",
                OutOfGasError::Precompile => "Out of gas: triggered by a precompile",
                OutOfGasError::Create => "Out of gas: during contract creation",
                OutOfGasError::InvalidOperand => "Out of gas: invalid operand for operation",
            },
            HaltReason::OpcodeNotFound => "Opcode not found",
            HaltReason::InvalidFEOpcode => "Invalid FE opcode",
            HaltReason::InvalidJump => "Invalid jump",
            HaltReason::NotActivated => "Not activated",
            HaltReason::StackUnderflow => "Stack underflow",
            HaltReason::StackOverflow => "Stack overflow",
            HaltReason::OutOfOffset => "Out of offset",
            HaltReason::CreateCollision => "Create collision",
            HaltReason::PrecompileError => "Precompile error",
            HaltReason::NonceOverflow => "Nonce overflow",
            HaltReason::CreateContractSizeLimit => "Create contract size exceeds limit",
            HaltReason::CreateContractStartingWithEF => "Created contract starts with EF",
            HaltReason::CreateInitCodeSizeLimit => "Initcode size limit exceeded",
            HaltReason::OverflowPayment => "Overflow payment",
            HaltReason::StateChangeDuringStaticcall => "State change during static call",
            HaltReason::CallNotAllowedInsideStatic => "Call not allowed inside static",
            HaltReason::OutOfFunds => "Out of funds",
            HaltReason::CallTooDeep => "Call too deep",
            HaltReason::EofAuxDataOverflow => "EOF aux data overflow",
            HaltReason::EofAuxDataTooSmall => "EOF aux data too small",
            HaltReason::EOFFunctionStackOverflow => "EOF function stack overflow",
            HaltReason::InvalidExtCallTarget => "Invalid external call target",
            HaltReason::InvalidExtDelegatecallTarget => "Invalid external delegatecall target",
        }
    }
}

impl OutOfGasError {
    /// A short description of the shortfall, as a display would print it.
    pub fn description(&self) -> (r: &'static str)
    {
        match self {
            OutOfGasError::Basic => "Basic out-of-gas error during execution",
            OutOfGasError::MemoryLimit => "Out-of-gas: memory expansion exceeded limit",
            OutOfGasError::Memory => "Out-of-gas: insufficient gas for memory expansion",
            OutOfGasError::Precompile => "Out-of-gas triggered by a precompile",
            OutOfGasError::Create => "Out-of-gas during contract creation",
            OutOfGasError::InvalidOperand => "Out-of-gas: invalid operand for operation",
        }
    }
}

/// Output of a successful execution: a call's return bytes, or a
/// creation's return bytes with the created address.
#[derive(Clone, Debug, PartialEq, Eq)]
pub enum Output {
    Call(Vec<u8>),
    Create(Vec<u8>, Option<Address>),
}

impl Output {
    /// Consumes the output and returns the data.
    pub fn into_data(self) -> (r: Vec<u8>)
        ensures
            r@ == self.spec_data(),
    {
        match self {
            Output::Call(data) => data,
            Output::Create(data, _) => data,
        }
    }

    /// The output bytes, whichever variant carries them.
    pub open spec fn spec_data(self) -> Seq<u8> {
        match self {
            Output::Call(data) => data@,
            Output::Create(data, _) => data@,
        }
    }

    /// A reference to the output data.
    pub fn data(&self) -> (r: &Vec<u8>)
        ensures
            r@ == self.spec_data(),
    {
        match self {
            Output::Call(data) => data,
            Output::Create(data, _) => data,
        }
    }

    /// The created address, where there is one.
    pub fn address(&self) -> (r: Option<&Address>)
        ensures
            match self {
                Output::Create(_, Some(a)) => r == Some(a),
                _ => r is None,
            },
    {
        if let Output::Create(_, address) = self {
            address.as_ref()
        } else {
            None
        }
    }
}

/// The outcome of executing a transaction or a frame: success, an
/// explicit revert consuming part of the gas, a halt consuming all of it,
/// or a fatal error outside the EVM's own semantics.
#[derive(Debug, Clone, PartialEq, Eq)]
pub enum ExecutionResult {
    Success {
        reason: SuccessReason,
        gas_used: u64,
        gas_refunded: u64,
        output: Output,
        logs: Vec<Log>,
    },
    Revert { gas_used: u64, output: Vec<u8> },
    Halt { reason: HaltReason, gas_limit: u64, gas_used: u64 },
    FatalExternalError,
}

impl ExecutionResult {
    pub fn is_success(&self) -> (r: bool)
        ensures
            r <==> (self is Success),
    {
        matches!(self, ExecutionResult::Success { .. })
    }

    pub fn is_revert(&self) -> (r: bool)
        ensures
            r <==> (self is Revert),
    {
        matches!(self, ExecutionResult::Revert { .. })
    }

    pub fn is_halt(&self) -> (r: bool)
        ensures
            r <==> (self is Halt),
    {
        matches!(self, ExecutionResult::Halt { .. })
    }

    /// The halt reason of a halted execution.
    pub fn halt_reason(&self) -> (r: Option<&HaltReason>)
        ensures
            match self {
                ExecutionResult::Halt { reason, .. } => r == Some(reason),
                _ => r is None,
            },
    {
        if let ExecutionResult::Halt { reason, .. } = self {
            Some(reason)
        } else {
            None
        }
    }

    /// The output bytes of a success or a revert, if any and non-empty.
    pub fn output(&self) -> (r: Option<&Vec<u8>>)
        ensures
            match self {
                ExecutionResult::Success { output, .. } => if output.spec_data().len() > 0 {
                    r is Some && r->0@ == output.spec_data()
                } else {
                    r is None
                },
                ExecutionResult::Revert { output, .. } => if output@.len() > 0 {
                    r == Some(output)
                } else {
                    r is None
                },
                _ => r is None,
            },
    {
        let data = match self {
            ExecutionResult::Success { output, .. } => Some(output.data()),
            ExecutionResult::Revert { output, .. } => Some(output),
            _ => None,
        };
        match data {
            Some(d) => if d.len() > 0 {
                Some(d)
            } else {
                None
            },
            None => None,
        }
    }

    /// The logs of a successful execution, or none.
    pub fn logs(&self) -> (r: &[Log])
        ensures
            match self {
                ExecutionResult::Success { logs, .. } => r@ == logs@,
                _ => r@.len() == 0,
            },
    {
        match self {
            ExecutionResult::Success { logs, .. } => logs.as_slice(),
            _ => &[],
        }
    }

    /// Consumes the result and returns the output bytes of a success or a
    /// revert.
    pub fn into_output(self) -> (r: Option<Vec<u8>>)
        ensures
            match self {
                ExecutionResult::Success { output, .. } => r is Some && r->0@
                    == output.spec_data(),
                ExecutionResult::Revert { output, .. } => r is Some && r->0@ == output@,
                _ => r is None,
            },
    {
        match self {
            ExecutionResult::Success { output, .. } => Some(output.into_data()),
            ExecutionResult::Revert { output, .. } => Some(output),
            _ => None,
        }
    }

    /// Gas consumed by the execution, whatever the outcome.
    pub fn gas_used(&self) -> (r: u64)
        ensures
            match self {
                ExecutionResult::Success { gas_used, .. } => r == gas_used,
                ExecutionResult::Revert { gas_used, .. } => r == gas_used,
                ExecutionResult::Halt { gas_used, .. } => r == gas_used,
                _ => r == 0,
            },
    {
        match self {
            ExecutionResult::Success { gas_used, .. } => *gas_used,
            ExecutionResult::Revert { gas_used, .. } => *gas_used,
            ExecutionResult::Halt { gas_used, .. } => *gas_used,
            _ => 0,
        }
    }

    /// Gas refunded by a successful execution, or zero.
    pub fn gas_refunded(&self) -> (r: u64)
        ensures
            match self {
                ExecutionResult::Success { gas_refunded, .. } => r == gas_refunded,
                _ => r == 0,
            },
    {
        match self {
            ExecutionResult::Success { gas_refunded, .. } => *gas_refunded,
            _ => 0,
        }
    }
}

/// An error of the VM itself, outside EVM halt semantics: failed
/// transaction or header validation, a database failure, or a failure to
/// build an artifact.
#[derive(Debug, Clone, PartialEq, Eq)]
pub enum VMError {
    Transaction(String),
    Header(String),
    Database(String),
    Compile(String),
    Precompile(String),
    Handler(String),
}

impl VMError {
    /// The message a display of the error would print.
    pub fn message(&self) -> (r: String)
        ensures
            match self {
                VMError::Transaction(e) => r@ == "transaction validation error: "@ + e@,
                VMError::Header(e) => r@ == "header validation error: "@ + e@,
                VMError::Database(e) => r@ == "database error: "@ + e@,
                VMError::Handler(e) => r@ == "handler error: "@ + e@,
                VMError::Compile(e) => r@ == "compile error: "@ + e@,
                VMError::Precompile(e) => r@ == e@,
            },
    {
        proof {
            reveal_strlit("transaction validation error: ");
            reveal_strlit("header validation error: ");
            reveal_strlit("database error: ");
            reveal_strlit("handler error: ");
            reveal_strlit("compile error: ");
            reveal_strlit("");
        }
        match self {
            VMError::Transaction(e) => join_label("transaction validation error: ", e),
            VMError::Header(e) => join_label("header validation error: ", e),
            VMError::Database(e) => join_label("database error: ", e),
            VMError::Handler(e) => join_label("handler error: ", e),
            VMError::Compile(e) => join_label("compile error: ", e),
            VMError::Precompile(e) => join_label("", e),
        }
    }
}

/// The label followed by the detail, character for character.
fn join_label(label: &str, detail: &String) -> (r: String)
    ensures
        r@ == label@ + detail@,
{
    String::from_str(label).concat(detail.as_str())
}

} // verus!
