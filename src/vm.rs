//! The execution engine: it runs a payload and reports success and the
//! resources used.  Payload semantics are not modelled; every payload kind
//! succeeds at a fixed cost.
use vstd::prelude::*;
use crate::transaction::{Transaction, TransactionPayload, tx_verifies};

verus! {

/// Gas of a plain transfer.
pub const TRANSFER_GAS: u64 = 21000;

/// Gas of a module call.
pub const MOVE_CALL_GAS: u64 = 50000;

/// Gas of a module deployment.
pub const DEPLOY_GAS: u64 = 100000;

/// What the execution engine reports for one transaction.
pub struct ExecutionResult {
    pub success: bool,
    pub gas_used: u64,
    pub return_data: Vec<u8>,
}

/// Why a transaction was refused before execution.
#[derive(Debug, Clone, Copy, PartialEq, Eq, Structural)]
pub enum ValidationError {
    InvalidSignature,
    ZeroFee,
}

/// The execution engine.
pub struct VM;

/// The gas that a payload kind costs.
pub open spec fn gas_of(p: TransactionPayload) -> u64 {
    match p {
        TransactionPayload::Transfer { .. } => TRANSFER_GAS,
        TransactionPayload::MoveCall { .. } => MOVE_CALL_GAS,
        TransactionPayload::DeployModule { .. } => DEPLOY_GAS,
    }
}

impl VM {
    /// A new engine.
    pub fn new() -> (r: VM) {
        VM
    }

    /// Runs the payload of `tx`: it succeeds, with the gas of its kind and
    /// no return data.
    pub fn execute_transaction(&self, tx: &Transaction) -> (r: ExecutionResult)
        ensures
            r.success,
            r.gas_used == gas_of(tx.payload),
            r.return_data@.len() == 0,
    {
        match &tx.payload {
            TransactionPayload::Transfer { .. } => ExecutionResult {
                success: true,
                gas_used: TRANSFER_GAS,
                return_data: Vec::new(),
            },
            TransactionPayload::MoveCall { .. } => ExecutionResult {
                success: true,
                gas_used: MOVE_CALL_GAS,
                return_data: Vec::new(),
            },
            TransactionPayload::DeployModule { .. } => ExecutionResult {
                success: true,
                gas_used: DEPLOY_GAS,
                return_data: Vec::new(),
            },
        }
    }

    /// Checks the signature, then that the fee is not zero.
    pub fn validate_transaction(&self, tx: &Transaction) -> (r: Result<(), ValidationError>)
        ensures
            r == if !tx_verifies(*tx) {
                Err(ValidationError::InvalidSignature)
            } else if tx.fee == 0 {
                Err(ValidationError::ZeroFee)
            } else {
                Ok(())
            },
    {
        if !tx.verify() {
            return Err(ValidationError::InvalidSignature);
        }
        if tx.fee == 0 {
            return Err(ValidationError::ZeroFee);
        }
        Ok(())
    }
}

impl Default for VM {
    fn default() -> (r: VM) {
        VM::new()
    }
}

} // verus!
