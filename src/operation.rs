//! Resolution of a correlation key to a validated incoming-payment operation.

use vstd::prelude::*;

verus! {

/// The identifier that links an issued invoice to its tracked operation: the
/// bytes of the payment's hash.
#[derive(Debug, Clone, Copy, PartialEq, Eq)]
pub struct CorrelationKey {
    pub bytes: [u8; 32],
}

impl CorrelationKey {
    /// The key of the payment with hash `hash`.
    pub fn from_payment_hash(hash: [u8; 32]) -> (r: CorrelationKey)
        ensures
            r.bytes@ == hash@,
    {
        CorrelationKey { bytes: hash }
    }
}

/// What an operation's metadata says it is.
#[derive(Debug, Clone, Copy, PartialEq, Eq)]
pub enum OperationVariant {
    /// An incoming payment: the only kind a watcher may follow.
    Receive,
    /// An outgoing payment.
    Pay,
    /// Any other operation of the payment module.
    Other,
}

/// The record the backend keeps of a tracked operation.
#[derive(Debug, PartialEq, Eq)]
pub struct OperationRecord {
    /// The tag of the module that owns the operation.
    pub kind: String,
    pub variant: OperationVariant,
}

/// An operation that has passed every check and may be watched.
#[derive(Debug, Clone, Copy, PartialEq, Eq)]
pub struct ValidatedOperation {
    pub key: CorrelationKey,
}

/// Why a correlation key could not be resolved to a watchable operation.
#[derive(Debug, Clone, Copy, PartialEq, Eq)]
pub enum ResolveError {
    /// No operation is recorded for the key: it was not issued by this wallet.
    UnknownOperation,
    /// The operation belongs to another module than the payment module.
    WrongOperationKind,
    /// The operation is a payment operation, but not an incoming payment.
    WrongOperationVariant,
}

/// The kind tag of the payment module's operations.
pub open spec fn payment_kind() -> Seq<char> {
    seq!['l', 'n']
}

/// What resolving `key` yields when the store's lookup returned `found`.
pub open spec fn resolution_of(key: CorrelationKey, found: Option<OperationRecord>) -> Result<
    ValidatedOperation,
    ResolveError,
> {
    match found {
        None => Err(ResolveError::UnknownOperation),
        Some(rec) => if rec.kind@ != payment_kind() {
            Err(ResolveError::WrongOperationKind)
        } else if !(rec.variant is Receive) {
            Err(ResolveError::WrongOperationVariant)
        } else {
            Ok(ValidatedOperation { key })
        },
    }
}

/// Validates the record that the store holds for `key` (`None` when it holds
/// none): it must exist, belong to the payment module, and be an incoming
/// payment, checked in that order.
pub fn resolve(key: CorrelationKey, found: &Option<OperationRecord>) -> (r: Result<
    ValidatedOperation,
    ResolveError,
>)
    ensures
        r == resolution_of(key, *found),
        found is None ==> r == Err::<ValidatedOperation, ResolveError>(
            ResolveError::UnknownOperation,
        ),
        found matches Some(rec) && rec.kind@ != payment_kind() ==> r == Err::<
            ValidatedOperation,
            ResolveError,
        >(ResolveError::WrongOperationKind),
{
    match found {
        None => Err(ResolveError::UnknownOperation),
        Some(rec) => {
            let expected: String = "ln".to_owned();
            proof {
                reveal_strlit("ln");
            }
            assert(expected@ =~= payment_kind());
            if !(rec.kind == expected) {
                Err(ResolveError::WrongOperationKind)
            } else {
                match rec.variant {
                    OperationVariant::Receive => Ok(ValidatedOperation { key }),
                    _ => Err(ResolveError::WrongOperationVariant),
                }
            }
        },
    }
}

} // verus!
