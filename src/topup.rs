use vstd::prelude::*;
use vstd::bytes::spec_u64_from_le_bytes;
use solana_program::program_pack::Pack;
use crate::address::Address;
use crate::error::SfError;
use crate::ledger::{
    can_sync, decode_ledger, deposited, encode_ledger, is_decodable, ledger_wf, synced, Contract,
    LedgerModel, LEDGER_LEN,
};
use crate::locator::{is_escrow_account, is_escrow_of};

verus! {

/// Bytes of an SPL token account.
pub const TOKEN_ACCOUNT_LEN: usize = 165;

/// Offset of the balance in an SPL token account.
pub const TOKEN_AMOUNT_OFFSET: usize = 64;

/// Offset of the account state byte in an SPL token account.
pub const TOKEN_STATE_OFFSET: usize = 108;

/// Whether the four bytes at `offset` are the tag of an optional field:
/// `[0, 0, 0, 0]` for none, `[1, 0, 0, 0]` for some.
pub open spec fn is_option_tag(data: Seq<u8>, offset: int) -> bool {
    (data[offset] == 0 || data[offset] == 1) && data[offset + 1] == 0 && data[offset + 2] == 0
        && data[offset + 3] == 0
}

/// Whether bytes hold an initialized SPL token account: 165 bytes, a state
/// of initialized or frozen, and well-formed tags on the optional delegate,
/// native amount and close authority.
pub open spec fn is_token_account(data: Seq<u8>) -> bool {
    &&& data.len() == TOKEN_ACCOUNT_LEN
    &&& (data[TOKEN_STATE_OFFSET as int] == 1 || data[TOKEN_STATE_OFFSET as int] == 2)
    &&& is_option_tag(data, 72)
    &&& is_option_tag(data, 109)
    &&& is_option_tag(data, 129)
}

/// The balance that a token account's bytes record.
pub open spec fn token_amount_of(data: Seq<u8>) -> u64 {
    spec_u64_from_le_bytes(data.subrange(TOKEN_AMOUNT_OFFSET as int, TOKEN_AMOUNT_OFFSET + 8))
}

/// Relies on `spl_token::state::Account::unpack` (with `Pack::unpack` of
/// solana-program): it accepts exactly 165 bytes whose state byte is
/// initialized or frozen and whose three option tags are well formed, and
/// reads the balance as the little-endian word at offset 64.
#[verifier::external_body]
fn unpack_token_amount(data: &[u8]) -> (r: Option<u64>)
    ensures
        r is Some <==> is_token_account(data@),
        r matches Some(amount) ==> amount == token_amount_of(data@),
{
    spl_token::state::Account::unpack(data).ok().map(|account| account.amount)
}

/// Reads the live balance of the escrow from its token account's data.
pub fn read_escrow_balance(data: &[u8]) -> (r: Result<u64, SfError>)
    ensures
        r is Ok <==> is_token_account(data@),
        r matches Ok(amount) ==> amount == token_amount_of(data@),
        r matches Err(e) ==> e == SfError::InvalidEscrowAccount,
{
    match unpack_token_amount(data) {
        Some(amount) => Ok(amount),
        None => Err(SfError::InvalidEscrowAccount),
    }
}

/// The accounts of a top-up, by address.
#[derive(Clone, Copy, Debug)]
pub struct TopupAccounts {
    pub sender: Address,
    pub sender_tokens: Address,
    pub metadata: Address,
    pub escrow_tokens: Address,
    pub streamflow_treasury: Address,
    pub streamflow_treasury_tokens: Address,
    pub partner: Address,
    pub partner_tokens: Address,
    pub mint: Address,
    pub token_program: Address,
}

/// A movement of tokens that the host performs on the library's behalf.
#[derive(Clone, Copy, Debug)]
pub struct TokenTransfer {
    pub source: Address,
    pub destination: Address,
    pub authority: Address,
    pub amount: u64,
}

/// What an accepted top-up asks of the host: the movement into the escrow,
/// and the reconciled ledger that records it once the movement succeeded.
#[derive(Clone, Copy, Debug)]
pub struct TopupPlan {
    pub ledger: Contract,
    /// The escrow's live balance that the ledger was reconciled with.
    pub escrow_balance: u64,
    pub transfer: TokenTransfer,
}

/// The checks of a top-up that come before the escrow balance is read: the
/// decoded ledger, or the first check that failed.
pub open spec fn topup_checks(
    program_id: Seq<u8>,
    metadata: Seq<u8>,
    escrow: Seq<u8>,
    data: Seq<u8>,
    amount: u64,
) -> Result<LedgerModel, SfError> {
    let m = decode_ledger(data);
    if amount == 0 {
        Err(SfError::AmountIsZero)
    } else if !is_decodable(data) || !ledger_wf(m) || !m.can_topup {
        Err(SfError::InvalidMetadata)
    } else if !is_escrow_of(m.version, metadata, program_id, escrow) {
        Err(SfError::InvalidEscrowAccount)
    } else {
        Ok(m)
    }
}

/// The checks of a top-up of `amount` at time `now` on ledger `m`, with the
/// escrow holding `balance`: the reconciled ledger, or the first that failed.
pub open spec fn reconcile_result(m: LedgerModel, balance: u64, now: u64, amount: u64) -> Result<LedgerModel, SfError> {
    let s = synced(m, balance);
    if !can_sync(m, balance) {
        Err(SfError::InvalidDeposit)
    } else if s.end_time < now {
        Err(SfError::StreamClosed)
    } else if s.deposited_amount + amount > s.total_amount {
        Err(SfError::InvalidDeposit)
    } else {
        Ok(s)
    }
}

/// The outcome of all checks of a top-up, with the escrow holding `balance`.
pub open spec fn topup_result(
    program_id: Seq<u8>,
    metadata: Seq<u8>,
    escrow: Seq<u8>,
    data: Seq<u8>,
    balance: u64,
    now: u64,
    amount: u64,
) -> Result<LedgerModel, SfError> {
    match topup_checks(program_id, metadata, escrow, data, amount) {
        Ok(m) => reconcile_result(m, balance, now, amount),
        Err(e) => Err(e),
    }
}

/// Runs the checks of a top-up that need no escrow balance, and decodes the ledger.
pub fn check_topup(program_id: &Address, acc: &TopupAccounts, data: &[u8], amount: u64) -> (r: Result<
    Contract,
    SfError,
>)
    ensures
        match r {
            Ok(c) => topup_checks(program_id@, acc.metadata@, acc.escrow_tokens@, data@, amount)
                == Ok::<LedgerModel, SfError>(c@),
            Err(e) => topup_checks(program_id@, acc.metadata@, acc.escrow_tokens@, data@, amount)
                == Err::<LedgerModel, SfError>(e),
        },
{
    if amount == 0 {
        return Err(SfError::AmountIsZero);
    }
    let ledger = match Contract::decode(data) {
        Ok(c) => c,
        Err(e) => return Err(e),
    };
    if !ledger.is_consistent() || !ledger.can_topup {
        return Err(SfError::InvalidMetadata);
    }
    if !is_escrow_account(ledger.version, &acc.metadata, program_id, &acc.escrow_tokens) {
        return Err(SfError::InvalidEscrowAccount);
    }
    Ok(ledger)
}

/// Reconciles a checked ledger with the escrow's live balance, checks that
/// the stream is open at `now` and that `amount` fits, and plans the token
/// movement into the escrow.
///
/// The amount is taken as it is, never clamped; an amount that would push
/// the deposits past the committed total is refused with `InvalidDeposit`,
/// so that no top-up leaves deposits above the total.
pub fn reconcile_topup(
    acc: &TopupAccounts,
    ledger: Contract,
    escrow_balance: u64,
    now: u64,
    amount: u64,
) -> (r: Result<TopupPlan, SfError>)
    ensures
        match r {
            Ok(plan) => {
                &&& reconcile_result(ledger@, escrow_balance, now, amount) == Ok::<LedgerModel, SfError>(plan.ledger@)
                &&& plan.escrow_balance == escrow_balance
                &&& plan.transfer.source@ == acc.sender_tokens@
                &&& plan.transfer.destination@ == acc.escrow_tokens@
                &&& plan.transfer.authority@ == acc.sender@
                &&& plan.transfer.amount == amount
            },
            Err(e) => reconcile_result(ledger@, escrow_balance, now, amount) == Err::<LedgerModel, SfError>(e),
        },
{
    let mut ledger = ledger;
    match ledger.sync_balance(escrow_balance) {
        Ok(()) => {},
        Err(e) => return Err(e),
    }
    if ledger.end_time < now {
        return Err(SfError::StreamClosed);
    }
    if amount > ledger.total_amount - ledger.deposited_amount {
        return Err(SfError::InvalidDeposit);
    }
    let transfer = TokenTransfer {
        source: acc.sender_tokens,
        destination: acc.escrow_tokens,
        authority: acc.sender,
        amount,
    };
    Ok(TopupPlan { ledger, escrow_balance, transfer })
}

/// Checks a top-up of `amount` into the stream whose ledger bytes are `data`
/// at time `now`, reading the escrow's balance from its token account's bytes
/// `escrow_data`, and plans the token movement. Nothing is written: the ledger
/// changes in `finish_topup`, once the movement succeeded.
///
/// The checks come in this order: a zero amount, the ledger, the escrow
/// address, the escrow's token account, the reconciliation, the end of the
/// stream, and an amount that would push the deposits past the total, which
/// is refused with `InvalidDeposit` rather than clamped.
pub fn topup(
    program_id: &Address,
    acc: &TopupAccounts,
    data: &[u8],
    escrow_data: &[u8],
    now: u64,
    amount: u64,
) -> (r: Result<TopupPlan, SfError>)
    ensures
        match topup_checks(program_id@, acc.metadata@, acc.escrow_tokens@, data@, amount) {
            Err(e) => r == Err::<TopupPlan, SfError>(e),
            Ok(m) => if !is_token_account(escrow_data@) {
                r == Err::<TopupPlan, SfError>(SfError::InvalidEscrowAccount)
            } else {
                match reconcile_result(m, token_amount_of(escrow_data@), now, amount) {
                    Ok(synced_ledger) => match r {
                        Ok(plan) => {
                            &&& plan.ledger@ == synced_ledger
                            &&& plan.escrow_balance == token_amount_of(escrow_data@)
                            &&& plan.transfer.source@ == acc.sender_tokens@
                            &&& plan.transfer.destination@ == acc.escrow_tokens@
                            &&& plan.transfer.authority@ == acc.sender@
                            &&& plan.transfer.amount == amount
                        },
                        Err(_) => false,
                    },
                    Err(e) => r == Err::<TopupPlan, SfError>(e),
                }
            },
        },
{
    let ledger = match check_topup(program_id, acc, data, amount) {
        Ok(c) => c,
        Err(e) => return Err(e),
    };
    let balance = match read_escrow_balance(escrow_data) {
        Ok(b) => b,
        Err(e) => return Err(e),
    };
    reconcile_topup(acc, ledger, balance, now, amount)
}

/// Whether a plan can be recorded: its amount fits under the total.
pub open spec fn plan_fits(plan: TopupPlan) -> bool {
    plan.ledger.deposited_amount + plan.transfer.amount <= plan.ledger.total_amount
}

/// Records a planned top-up in the ledger bytes where the token movement
/// succeeded (`moved`); where it failed the bytes stay exactly as they were.
pub fn finish_topup(plan: &TopupPlan, data: &mut Vec<u8>, moved: bool)
    requires
        plan_fits(*plan),
        old(data)@.len() >= LEDGER_LEN,
    ensures
        moved ==> final(data)@ == encode_ledger(deposited(plan.ledger@, plan.transfer.amount))
            + old(data)@.subrange(LEDGER_LEN as int, old(data)@.len() as int),
        moved ==> decode_ledger(final(data)@) == deposited(plan.ledger@, plan.transfer.amount),
        !moved ==> final(data)@ == old(data)@,
{
    if moved {
        let mut ledger = plan.ledger;
        ledger.deposit(plan.transfer.amount);
        ledger.persist(data);
    }
}

/// A top-up never leaves a ledger outside its invariants: the reconciled
/// ledger and the ledger after the deposit both meet them.
pub proof fn lemma_topup_preserves_invariants(
    program_id: Seq<u8>,
    metadata: Seq<u8>,
    escrow: Seq<u8>,
    data: Seq<u8>,
    balance: u64,
    now: u64,
    amount: u64,
)
    requires
        topup_result(program_id, metadata, escrow, data, balance, now, amount) is Ok,
    ensures
        ledger_wf(decode_ledger(data)),
        ledger_wf(topup_result(program_id, metadata, escrow, data, balance, now, amount)->Ok_0),
        ledger_wf(deposited(topup_result(program_id, metadata, escrow, data, balance, now, amount)->Ok_0, amount)),
{
}

/// A top-up with an escrow account other than the one derived for the stream
/// fails with the escrow error, once the amount and the ledger passed.
pub proof fn lemma_topup_escrow_binding(
    program_id: Seq<u8>,
    metadata: Seq<u8>,
    escrow: Seq<u8>,
    data: Seq<u8>,
    balance: u64,
    now: u64,
    amount: u64,
)
    requires
        amount != 0,
        is_decodable(data),
        ledger_wf(decode_ledger(data)),
        decode_ledger(data).can_topup,
        !is_escrow_of(decode_ledger(data).version, metadata, program_id, escrow),
    ensures
        topup_result(program_id, metadata, escrow, data, balance, now, amount) == Err::<LedgerModel, SfError>(
            SfError::InvalidEscrowAccount,
        ),
{
}

/// A successful top-up of `amount` raises the deposits by exactly `amount`,
/// and what the escrow holds by the ledger's count by exactly `amount`.
pub proof fn lemma_topup_arithmetic(
    program_id: Seq<u8>,
    metadata: Seq<u8>,
    escrow: Seq<u8>,
    data: Seq<u8>,
    balance: u64,
    now: u64,
    amount: u64,
)
    requires
        topup_result(program_id, metadata, escrow, data, balance, now, amount) is Ok,
    ensures
        ({
            let before = topup_result(program_id, metadata, escrow, data, balance, now, amount)->Ok_0;
            let after = deposited(before, amount);
            &&& after.deposited_amount == before.deposited_amount + amount
            &&& after.withdrawn_amount == before.withdrawn_amount
            &&& after.deposited_amount - after.withdrawn_amount == balance + amount
        }),
{
}

/// A top-up whose stream has ended by `now`, once reconciled with the
/// escrow balance, fails with the closed-stream error.
pub proof fn lemma_topup_closed_stream(
    program_id: Seq<u8>,
    metadata: Seq<u8>,
    escrow: Seq<u8>,
    data: Seq<u8>,
    balance: u64,
    now: u64,
    amount: u64,
)
    requires
        amount != 0,
        is_decodable(data),
        ledger_wf(decode_ledger(data)),
        decode_ledger(data).can_topup,
        is_escrow_of(decode_ledger(data).version, metadata, program_id, escrow),
        can_sync(decode_ledger(data), balance),
        synced(decode_ledger(data), balance).end_time < now,
    ensures
        topup_result(program_id, metadata, escrow, data, balance, now, amount) == Err::<LedgerModel, SfError>(
            SfError::StreamClosed,
        ),
{
}

/// A top-up of nothing is refused before anything else is looked at.
pub proof fn lemma_topup_zero_refused(
    program_id: Seq<u8>,
    metadata: Seq<u8>,
    escrow: Seq<u8>,
    data: Seq<u8>,
    balance: u64,
    now: u64,
)
    ensures
        topup_result(program_id, metadata, escrow, data, balance, now, 0) == Err::<LedgerModel, SfError>(
            SfError::AmountIsZero,
        ),
{
}

} // verus!
