use vstd::prelude::*;
use crate::address::Address;
use crate::auth::{permitted, role_of, Invoker};
use crate::error::SfError;
use crate::locator::{associated_address_of, find_associated_token_address};
use crate::ledger::{
    decode_ledger, encode_ledger, is_decodable, ledger_wf, redirected, Contract, LedgerModel,
};

verus! {

/// Why a recipient transfer was refused.
#[derive(Clone, Copy, Debug, PartialEq, Eq, Structural)]
pub enum HandlerError {
    /// The invoking authority did not sign.
    MissingRequiredSignature,
    /// A check of the stream failed.
    Stream(SfError),
}

/// The accounts of a recipient transfer, by address.
#[derive(Clone, Copy, Debug)]
pub struct TransferAccounts {
    pub authority: Address,
    pub authority_is_signer: bool,
    /// The wallet whose role decides the authorization.
    pub authorized_wallet: Address,
    pub metadata: Address,
    pub mint: Address,
}

/// The outcome of a recipient transfer: the new ledger, or the first check
/// that failed.
pub open spec fn transfer_result(
    authority_is_signer: bool,
    authorized_wallet: Seq<u8>,
    mint: Seq<u8>,
    data: Seq<u8>,
    recipient: Seq<u8>,
    recipient_tokens: Seq<u8>,
) -> Result<LedgerModel, HandlerError> {
    let m = decode_ledger(data);
    if !authority_is_signer {
        Err(HandlerError::MissingRequiredSignature)
    } else if !is_decodable(data) || !ledger_wf(m) {
        Err(HandlerError::Stream(SfError::InvalidMetadata))
    } else if mint != m.mint {
        Err(HandlerError::Stream(SfError::MintMismatch))
    } else if !permitted(
        role_of(authorized_wallet, m.sender, m.recipient),
        m.transferable_by_sender,
        m.transferable_by_recipient,
    ) {
        Err(HandlerError::Stream(SfError::TransferNotAllowed))
    } else if associated_address_of(recipient, m.mint) != Some(recipient_tokens) {
        Err(HandlerError::Stream(SfError::NotAssociated))
    } else {
        Ok(redirected(m, recipient, recipient_tokens))
    }
}

/// Hands the stream whose ledger bytes are `data` to `recipient`, whose
/// token account must be its associated account for the stream's mint. The
/// mint account supplied must be the stream's mint. On
/// success the new ledger is written over the old; on failure `data` is
/// left as it was.
pub fn transfer_recipient(
    acc: &TransferAccounts,
    data: &mut Vec<u8>,
    recipient: Address,
    recipient_tokens: Address,
) -> (r: Result<(), HandlerError>)
    ensures
        match transfer_result(acc.authority_is_signer, acc.authorized_wallet@, acc.mint@, old(data)@, recipient@, recipient_tokens@) {
            Ok(m) => {
                &&& r is Ok
                &&& final(data)@ == encode_ledger(m) + old(data)@.subrange(
                    crate::ledger::LEDGER_LEN as int,
                    old(data)@.len() as int,
                )
                &&& decode_ledger(final(data)@) == m
            },
            Err(e) => r == Err::<(), HandlerError>(e) && final(data)@ == old(data)@,
        },
{
    if !acc.authority_is_signer {
        return Err(HandlerError::MissingRequiredSignature);
    }
    let mut ledger = match Contract::decode(data.as_slice()) {
        Ok(c) => c,
        Err(e) => return Err(HandlerError::Stream(e)),
    };
    if !ledger.is_consistent() {
        return Err(HandlerError::Stream(SfError::InvalidMetadata));
    }
    if !acc.mint.same_as(&ledger.mint) {
        return Err(HandlerError::Stream(SfError::MintMismatch));
    }
    let invoker = Invoker::new(&acc.authorized_wallet, &ledger.sender, &ledger.recipient);
    if !invoker.permits(ledger.transferable_by_sender, ledger.transferable_by_recipient) {
        return Err(HandlerError::Stream(SfError::TransferNotAllowed));
    }
    match find_associated_token_address(&recipient, &ledger.mint) {
        Some(expected) => {
            if !expected.same_as(&recipient_tokens) {
                return Err(HandlerError::Stream(SfError::NotAssociated));
            }
        },
        None => return Err(HandlerError::Stream(SfError::NotAssociated)),
    }
    ledger.set_recipient(recipient, recipient_tokens);
    ledger.persist(data);
    Ok(())
}

/// A recipient transfer keeps the ledger within its invariants.
pub proof fn lemma_transfer_preserves_invariants(
    authority_is_signer: bool,
    authorized_wallet: Seq<u8>,
    mint: Seq<u8>,
    data: Seq<u8>,
    recipient: Seq<u8>,
    recipient_tokens: Seq<u8>,
)
    requires
        transfer_result(authority_is_signer, authorized_wallet, mint, data, recipient, recipient_tokens) is Ok,
    ensures
        ledger_wf(decode_ledger(data)),
        ledger_wf(transfer_result(authority_is_signer, authorized_wallet, mint, data, recipient, recipient_tokens)->Ok_0),
{
}

/// A recipient transfer whose token account is not the new recipient's
/// associated account for the stream's mint fails with the not-associated
/// error, once the signature, the ledger, the mint and the authorization
/// passed.
pub proof fn lemma_transfer_requires_associated_account(
    authorized_wallet: Seq<u8>,
    data: Seq<u8>,
    recipient: Seq<u8>,
    recipient_tokens: Seq<u8>,
)
    requires
        is_decodable(data),
        ledger_wf(decode_ledger(data)),
        permitted(
            role_of(authorized_wallet, decode_ledger(data).sender, decode_ledger(data).recipient),
            decode_ledger(data).transferable_by_sender,
            decode_ledger(data).transferable_by_recipient,
        ),
        associated_address_of(recipient, decode_ledger(data).mint) != Some(recipient_tokens),
    ensures
        transfer_result(true, authorized_wallet, decode_ledger(data).mint, data, recipient, recipient_tokens) == Err::<LedgerModel, HandlerError>(
            HandlerError::Stream(SfError::NotAssociated),
        ),
{
}

/// With transfers open to the sender alone, a signed transfer on a sound
/// ledger is refused exactly when the authorized wallet is not the sender;
/// with them open to the recipient alone, exactly when the wallet is the
/// sender or not the recipient.
pub proof fn lemma_transfer_authorization_symmetry(
    authorized_wallet: Seq<u8>,
    data: Seq<u8>,
    recipient: Seq<u8>,
    recipient_tokens: Seq<u8>,
)
    requires
        is_decodable(data),
        ledger_wf(decode_ledger(data)),
        decode_ledger(data).transferable_by_sender != decode_ledger(data).transferable_by_recipient,
    ensures
        ({
            let m = decode_ledger(data);
            let r = transfer_result(true, authorized_wallet, m.mint, data, recipient, recipient_tokens);
            let refused = if m.transferable_by_sender {
                authorized_wallet != m.sender
            } else {
                authorized_wallet == m.sender || authorized_wallet != m.recipient
            };
            &&& refused ==> r == Err::<LedgerModel, HandlerError>(HandlerError::Stream(SfError::TransferNotAllowed))
            &&& !refused ==> r != Err::<LedgerModel, HandlerError>(HandlerError::Stream(SfError::TransferNotAllowed))
            &&& !refused && associated_address_of(recipient, m.mint) == Some(recipient_tokens) ==> r
                == Ok::<LedgerModel, HandlerError>(redirected(m, recipient, recipient_tokens))
        }),
{
}

} // verus!
