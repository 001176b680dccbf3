//! The relay: who may transfer, and what a request becomes.
use crate::ledger::{
    account_id_of, default_subaccount, destination_of, destination_subaccount, instruction_for,
    account_identifier, LedgerRefusal, LedgerReply, LedgerTransfer, TRANSFER_FEE_E8S,
    TRANSFER_MEMO,
};
use crate::principal::{principal_text_bytes, PrincipalId};
use vstd::prelude::*;

verus! {

/// The textual principal of the one caller allowed to request transfers.
pub const ALLOWED_CALLER: &'static str = "qanay-uyaaa-aaaag-qbbwa-cai";

/// A request to move tokens to an account.
#[derive(Debug, PartialEq, Eq)]
pub struct TransferArgs {
    /// Amount to move, in e8s.
    pub amount: u64,
    /// Owner of the receiving account.
    pub to_principal: PrincipalId,
    /// Sub-account of the receiving account; `None` is the canonical one.
    pub to_subaccount: Option<[u8; 32]>,
}

impl TransferArgs {
    /// The account identifier that the request pays into.
    pub open spec fn destination_account(self) -> Seq<u8> {
        account_id_of(self.to_principal@, destination_of(self.to_subaccount))
    }
}

/// Why a transfer request failed.
#[derive(Clone, Debug, PartialEq, Eq)]
pub enum RelayError {
    /// The allowed caller's principal text does not parse; checked before
    /// the caller is compared.
    InvalidAllowedCaller,
    /// The caller is not the allowed caller.
    Unauthorized,
    /// The ledger could not be reached; the text describes the failure.
    Transport(String),
    /// The ledger refused the transfer.
    Ledger(LedgerRefusal),
}

impl RelayError {
    /// The error is an authorization failure, signalled before any contact
    /// with the ledger.
    pub open spec fn is_authorization(self) -> bool {
        self is InvalidAllowedCaller || self is Unauthorized
    }
}

/// The views of an optional principal.
pub open spec fn principal_view(p: Option<PrincipalId>) -> Option<Seq<u8>> {
    match p {
        Some(q) => Some(q@),
        None => None,
    }
}

/// The authorization decision for `caller` against the allowed caller's
/// bytes, `None` where the allowed caller's text did not parse.
pub open spec fn authorization(caller: Seq<u8>, allowed: Option<Seq<u8>>) -> Result<(), RelayError> {
    match allowed {
        None => Err(RelayError::InvalidAllowedCaller),
        Some(a) => if a == caller {
            Ok(())
        } else {
            Err(RelayError::Unauthorized)
        },
    }
}

/// The relay's result for a reply of the ledger.
pub open spec fn settlement(reply: LedgerReply) -> Result<u64, RelayError> {
    match reply {
        LedgerReply::Settled(block) => Ok(block),
        LedgerReply::Refused(refusal) => Err(RelayError::Ledger(refusal)),
        LedgerReply::Undelivered(detail) => Err(RelayError::Transport(detail)),
    }
}

/// Whether `caller` may request transfers when the allowed caller is
/// `allowed` (`None` where its text did not parse).
pub fn authorize(caller: &PrincipalId, allowed: &Option<PrincipalId>) -> (r: Result<(), RelayError>)
    ensures
        r == authorization(caller@, principal_view(*allowed)),
{
    match allowed {
        None => Err(RelayError::InvalidAllowedCaller),
        Some(a) => if a.same_as(caller) {
            Ok(())
        } else {
            Err(RelayError::Unauthorized)
        },
    }
}

/// The ledger instruction for `args`: the amount, the fixed fee and memo,
/// and the account identifier of the receiver's given or canonical
/// sub-account.
pub fn build_instruction(args: &TransferArgs) -> (r: LedgerTransfer)
    ensures
        r.relays(args.amount, args.destination_account()),
        r.fee == TRANSFER_FEE_E8S && r.memo == TRANSFER_MEMO,
        args.to_subaccount is None ==> r.to@ == account_id_of(
            args.to_principal@,
            default_subaccount(),
        ),
        args.to_subaccount matches Some(s) ==> r.to@ == account_id_of(args.to_principal@, s@),
{
    let sub = destination_subaccount(args.to_subaccount);
    let to = account_identifier(args.to_principal.as_bytes(), &sub);
    instruction_for(args.amount, to)
}

/// What the relay does with a request from `caller` when the allowed caller
/// is `allowed`: the instruction to send to the ledger, or the
/// authorization error. An error means that the ledger is not called.
pub fn relay_request(caller: &PrincipalId, allowed: &Option<PrincipalId>, args: &TransferArgs) -> (r:
    Result<LedgerTransfer, RelayError>)
    ensures
        authorization(caller@, principal_view(*allowed)) matches Err(e) ==> r == Err::<
            LedgerTransfer,
            RelayError,
        >(e),
        authorization(caller@, principal_view(*allowed)) is Ok ==> (r matches Ok(t) && t.relays(
            args.amount,
            args.destination_account(),
        )),
        principal_view(*allowed) != Some(caller@) ==> (r matches Err(e) && e.is_authorization()),
{
    match authorize(caller, allowed) {
        Err(e) => Err(e),
        Ok(()) => Ok(build_instruction(args)),
    }
}

/// What the relay does with a request from `caller`: checks it against
/// `ALLOWED_CALLER` and, where it passes, gives the instruction to send to
/// the ledger. An error means that the ledger is not called.
pub fn begin_transfer(caller: &PrincipalId, args: &TransferArgs) -> (r: Result<LedgerTransfer, RelayError>)
    ensures
        authorization(caller@, principal_text_bytes(ALLOWED_CALLER@)) matches Err(e) ==> r == Err::<
            LedgerTransfer,
            RelayError,
        >(e),
        authorization(caller@, principal_text_bytes(ALLOWED_CALLER@)) is Ok ==> (r matches Ok(t)
            && t.relays(args.amount, args.destination_account())),
        principal_text_bytes(ALLOWED_CALLER@) != Some(caller@) ==> (r matches Err(e)
            && e.is_authorization()),
{
    let allowed = PrincipalId::from_text(ALLOWED_CALLER);
    relay_request(caller, &allowed, args)
}

/// The result of a transfer, given the ledger's reply: the block index
/// where it settled, or the refusal or the transport failure as it came.
pub fn settle(reply: LedgerReply) -> (r: Result<u64, RelayError>)
    ensures
        r == settlement(reply),
{
    match reply {
        LedgerReply::Settled(block) => Ok(block),
        LedgerReply::Refused(refusal) => Err(RelayError::Ledger(refusal)),
        LedgerReply::Undelivered(detail) => Err(RelayError::Transport(detail)),
    }
}

/// Identical requests are not recognised as repeats: every instruction
/// built for the same request is the same instruction, memo 0 included, so
/// the ledger is asked to transfer each time, and each call returns the block
/// index of its own settlement, distinct blocks giving distinct results.
pub proof fn lemma_repeat_is_transferred_again(
    args: TransferArgs,
    first: LedgerTransfer,
    second: LedgerTransfer,
    first_block: u64,
    second_block: u64,
)
    requires
        first.relays(args.amount, args.destination_account()),
        second.relays(args.amount, args.destination_account()),
    ensures
        first == second,
        first.memo == TRANSFER_MEMO,
        settlement(LedgerReply::Settled(first_block)) == Ok::<u64, RelayError>(first_block),
        settlement(LedgerReply::Settled(second_block)) == Ok::<u64, RelayError>(second_block),
        first_block != second_block ==> settlement(LedgerReply::Settled(first_block))
            != settlement(LedgerReply::Settled(second_block)),
{
    assert(first.to =~= second.to);
}

} // verus!
