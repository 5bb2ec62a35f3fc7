//! The state transition: validating one transaction and applying it to the
//! ledger store.
//!
//! Every condition is checked before the first write, so a transaction that
//! fails leaves the store exactly as it was.  The fee is charged only with a
//! successful payload: a failed execution costs nothing.
use vstd::prelude::*;
use crate::state::StateDB;
use crate::transaction::{Address, Transaction, TransactionPayload, sender_of, tx_verifies};
use crate::vm::ExecutionResult;

verus! {

/// Why a transaction was not applied.
#[derive(Debug, Clone, Copy, PartialEq, Eq, Structural)]
pub enum TxError {
    /// No signature, or one that does not verify.
    InvalidSignature,
    /// The fee is zero.
    ZeroFee,
    /// The nonce is not the sender's current one.
    NonceMismatch { expected: u64, got: u64 },
    /// The sender cannot pay the fee.
    InsufficientFeeBalance,
    /// The execution engine reported failure.
    ExecutionFailed,
    /// The sender cannot pay the amount and the fee together.
    InsufficientBalance,
    /// A balance or the nonce would pass the largest `u64`.
    Overflow,
}

/// The error that applying `tx` to `s` with engine result `exec` gives, or
/// `None` when it applies.  Checks come in this order: signature, fee,
/// nonce, fee balance, execution, payload balance, then room in the
/// recipient's balance and in the nonce.
pub open spec fn apply_error(s: StateDB, tx: Transaction, exec_success: bool) -> Option<TxError> {
    let sender = sender_of(tx);
    let balance = s.balance_of(sender);
    if !tx_verifies(tx) {
        Some(TxError::InvalidSignature)
    } else if tx.fee == 0 {
        Some(TxError::ZeroFee)
    } else if tx.nonce != s.nonce_of(sender) {
        Some(TxError::NonceMismatch { expected: s.nonce_of(sender), got: tx.nonce })
    } else if balance < tx.fee {
        Some(TxError::InsufficientFeeBalance)
    } else if !exec_success {
        Some(TxError::ExecutionFailed)
    } else if (match tx.payload {
        TransactionPayload::Transfer { amount, .. } => balance < amount as int + tx.fee as int,
        _ => false,
    }) {
        Some(TxError::InsufficientBalance)
    } else if (match tx.payload {
        TransactionPayload::Transfer { to, amount } => to@ != sender && s.balance_of(to@) as int
            + amount as int > u64::MAX as int,
        _ => false,
    }) {
        Some(TxError::Overflow)
    } else if tx.nonce == u64::MAX {
        Some(TxError::Overflow)
    } else {
        None
    }
}

/// The balance of `a` after `tx` applies to `s`: a transfer debits the
/// sender by amount and fee and credits the recipient by the amount (a
/// transfer to oneself costs the fee alone); other payloads cost the fee.
pub open spec fn balance_after(s: StateDB, tx: Transaction, a: Seq<u8>) -> int {
    let sender = sender_of(tx);
    match tx.payload {
        TransactionPayload::Transfer { to, amount } => if a == to@ && a == sender {
            s.balance_of(a) - tx.fee
        } else if a == to@ {
            s.balance_of(a) + amount
        } else if a == sender {
            s.balance_of(a) - amount - tx.fee
        } else {
            s.balance_of(a) as int
        },
        _ => if a == sender {
            s.balance_of(a) - tx.fee
        } else {
            s.balance_of(a) as int
        },
    }
}

/// The nonce of `a` after `tx` applies to `s`: the sender's goes up by one.
pub open spec fn nonce_after(s: StateDB, tx: Transaction, a: Seq<u8>) -> int {
    if a == sender_of(tx) {
        s.nonce_of(a) + 1
    } else {
        s.nonce_of(a) as int
    }
}

/// Validates `tx` and applies it, given what the execution engine reported
/// for it.  On success every balance and nonce moves as `balance_after` and
/// `nonce_after` say, and blocks and the chain pointer stay; on failure the
/// store is unchanged.
pub fn apply_transaction(store: &mut StateDB, tx: &Transaction, execution: &ExecutionResult) -> (r:
    Result<(), TxError>)
    ensures
        match r {
            Ok(_) => apply_error(*old(store), *tx, execution.success) is None,
            Err(e) => apply_error(*old(store), *tx, execution.success) == Some(e),
        },
        r is Err ==> *final(store) == *old(store),
        r is Ok ==> {
            &&& forall|a: Seq<u8>|
                #[trigger] final(store).balance_of(a) as int == balance_after(*old(store), *tx, a)
            &&& forall|a: Seq<u8>|
                #[trigger] final(store).nonce_of(a) as int == nonce_after(*old(store), *tx, a)
            &&& forall|h: Seq<u8>| #[trigger] final(store).block_of(h) == old(store).block_of(h)
            &&& final(store).latest_of() == old(store).latest_of()
        },
{
    if !tx.verify() {
        return Err(TxError::InvalidSignature);
    }
    if tx.fee == 0 {
        return Err(TxError::ZeroFee);
    }
    let sender = tx.sender_address();
    let expected_nonce = store.get_nonce(&sender);
    if tx.nonce != expected_nonce {
        return Err(TxError::NonceMismatch { expected: expected_nonce, got: tx.nonce });
    }
    let balance = store.get_balance(&sender);
    if balance < tx.fee {
        return Err(TxError::InsufficientFeeBalance);
    }
    if !execution.success {
        return Err(TxError::ExecutionFailed);
    }
    let ghost s0 = *old(store);
    match &tx.payload {
        TransactionPayload::Transfer { to, amount } => {
            if balance - tx.fee < *amount {
                return Err(TxError::InsufficientBalance);
            }
            let self_transfer = crate::crypto::hash_eq(to, &sender);
            if !self_transfer {
                let recipient_balance = store.get_balance(to);
                if recipient_balance > u64::MAX - *amount {
                    return Err(TxError::Overflow);
                }
            }
            if tx.nonce == u64::MAX {
                return Err(TxError::Overflow);
            }
            store.set_balance(&sender, balance - *amount - tx.fee);
            let credited = store.get_balance(to);
            store.set_balance(to, credited + *amount);
        },
        _ => {
            if tx.nonce == u64::MAX {
                return Err(TxError::Overflow);
            }
            store.set_balance(&sender, balance - tx.fee);
        },
    }
    store.increment_nonce(&sender);
    assert forall|a: Seq<u8>| #[trigger] store.balance_of(a) as int == balance_after(s0, *tx, a) by {}
    Ok(())
}

/// A signed transaction with a fee whose nonce is not the sender's current
/// one is refused with the expected and the given nonce, and (by the
/// contract of `apply_transaction`) the store stays as it was.
pub proof fn lemma_nonce_mismatch_rejected(s: StateDB, tx: Transaction, exec_success: bool)
    requires
        tx_verifies(tx),
        tx.fee != 0,
        tx.nonce != s.nonce_of(sender_of(tx)),
    ensures
        apply_error(s, tx, exec_success) == Some(
            TxError::NonceMismatch { expected: s.nonce_of(sender_of(tx)), got: tx.nonce },
        ),
{
}

/// A transfer whose amount and fee together exceed the sender's balance is
/// refused for want of balance, for the fee or for the whole, and (by the
/// contract of `apply_transaction`) the store stays as it was.
pub proof fn lemma_overspend_rejected(s: StateDB, tx: Transaction, to: Address, amount: u64)
    requires
        tx_verifies(tx),
        tx.fee != 0,
        tx.nonce == s.nonce_of(sender_of(tx)),
        tx.payload == (TransactionPayload::Transfer { to, amount }),
        amount as int + tx.fee as int > s.balance_of(sender_of(tx)) as int,
    ensures
        apply_error(s, tx, true) == Some(TxError::InsufficientFeeBalance) || apply_error(
            s,
            tx,
            true,
        ) == Some(TxError::InsufficientBalance),
{
}

} // verus!
