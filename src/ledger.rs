//! What the relay hands to the ledger, and what the ledger hands back.
use candid::Principal;
use ic_ledger_types::{AccountIdentifier, Subaccount};
use vstd::prelude::*;

verus! {

/// The number of bytes in a sub-account and in an account identifier.
pub const SUBACCOUNT_LEN: usize = 32;

/// The fee of every relayed transfer, in e8s (0.0001 token).
pub const TRANSFER_FEE_E8S: u64 = 10_000;

/// The memo of every relayed transfer.
pub const TRANSFER_MEMO: u64 = 0;

/// The ledger account identifier of the account that `owner`'s principal
/// bytes and a 32-byte `subaccount` name.
pub uninterp spec fn account_id_of(owner: Seq<u8>, subaccount: Seq<u8>) -> Seq<u8>;

/// The canonical sub-account: 32 zero bytes.
pub open spec fn default_subaccount() -> Seq<u8> {
    Seq::new(32, |i: int| 0u8)
}

/// The sub-account that a transfer pays into: the one given, else the
/// canonical one.
pub open spec fn destination_of(subaccount: Option<[u8; 32]>) -> Seq<u8> {
    match subaccount {
        Some(s) => s@,
        None => default_subaccount(),
    }
}

/// A transfer instruction for the ledger's `transfer` operation.
#[derive(Clone, Debug, PartialEq, Eq)]
pub struct LedgerTransfer {
    /// Tag of the transfer; the ledger may use it to spot repeats.
    pub memo: u64,
    /// Amount moved, in e8s.
    pub amount: u64,
    /// Fee paid, in e8s.
    pub fee: u64,
    /// Sub-account of the sender to pay from; `None` is the canonical one.
    pub from_subaccount: Option<[u8; 32]>,
    /// Account identifier of the receiver.
    pub to: [u8; 32],
    /// Creation time in nanoseconds; `None` lets the ledger use its own clock.
    pub created_at_time: Option<u64>,
}

impl LedgerTransfer {
    /// This instruction moves `amount` e8s into the account `to`, with the
    /// fixed fee and memo, from the sender's canonical sub-account, at the
    /// ledger's own time.
    pub open spec fn relays(self, amount: u64, to: Seq<u8>) -> bool {
        &&& self.memo == TRANSFER_MEMO
        &&& self.amount == amount
        &&& self.fee == TRANSFER_FEE_E8S
        &&& self.from_subaccount is None
        &&& self.to@ == to
        &&& self.created_at_time is None
    }
}

/// Why the ledger refused a transfer that reached it.
#[derive(Clone, Debug, PartialEq, Eq)]
pub enum LedgerRefusal {
    /// The fee was not the one the ledger expects.
    BadFee { expected_fee: u64 },
    /// The sender's balance does not cover amount and fee.
    InsufficientFunds { balance: u64 },
    /// The creation time lies too far in the past.
    TxTooOld { allowed_window_nanos: u64 },
    /// The creation time lies in the future.
    TxCreatedInFuture,
    /// The ledger already executed this transfer.
    TxDuplicate { duplicate_of: u64 },
}

/// What came of one call of the ledger's `transfer` operation.
#[derive(Clone, Debug, PartialEq, Eq)]
pub enum LedgerReply {
    /// The transfer was committed in the block with this index.
    Settled(u64),
    /// The ledger received the transfer and refused it.
    Refused(LedgerRefusal),
    /// The call did not reach the ledger, or its answer did not come back;
    /// the text describes the failure.
    Undelivered(String),
}

/// The sub-account that a transfer pays into: `to_subaccount` where given,
/// else 32 zero bytes.
pub fn destination_subaccount(to_subaccount: Option<[u8; 32]>) -> (r: [u8; 32])
    ensures
        r@ == destination_of(to_subaccount),
        to_subaccount is None ==> r@ == default_subaccount(),
        to_subaccount matches Some(s) ==> r == s,
{
    match to_subaccount {
        Some(s) => s,
        None => {
            let z = [0u8; 32];
            assert(z@ == default_subaccount());
            z
        },
    }
}

/// The instruction that moves `amount` e8s into the account `to`.
pub fn instruction_for(amount: u64, to: [u8; 32]) -> (r: LedgerTransfer)
    ensures
        r.relays(amount, to@),
        r.to == to,
{
    LedgerTransfer {
        memo: TRANSFER_MEMO,
        amount,
        fee: TRANSFER_FEE_E8S,
        from_subaccount: None,
        to,
        created_at_time: None,
    }
}

/// Relies on `ic_ledger_types::AccountIdentifier::new`, which derives the
/// 32-byte account identifier from a principal and a sub-account and depends
/// on nothing else. `Principal::from_slice` panics above 29 bytes.
#[verifier::external_body]
pub(crate) fn account_identifier(owner: &[u8], subaccount: &[u8; 32]) -> (r: [u8; 32])
    requires
        owner@.len() <= 29,
    ensures
        r@ == account_id_of(owner@, subaccount@),
{
    *AccountIdentifier::new(&Principal::from_slice(owner), &Subaccount(*subaccount)).as_bytes()
}

} // verus!
