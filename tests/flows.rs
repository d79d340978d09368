use solana_program::program_pack::Pack;
use solana_program::pubkey::Pubkey;
use streamflow_core::address::Address;
use streamflow_core::error::SfError;
use streamflow_core::ledger::{Contract, LEDGER_LEN};
use streamflow_core::locator::{find_associated_token_address, find_escrow_account, is_escrow_account};
use streamflow_core::topup::{finish_topup, read_escrow_balance, topup, TopupAccounts};
use streamflow_core::transfer_recipient::{transfer_recipient, HandlerError, TransferAccounts};

fn addr(b: u8) -> Address {
    Address::new([b; 32])
}

fn key(a: &Address) -> Pubkey {
    Pubkey::new_from_array(a.bytes)
}

fn program() -> Address {
    addr(0x77)
}

fn stream_key() -> Address {
    addr(0x55)
}

fn escrow() -> Address {
    find_escrow_account(2, &stream_key(), &program()).unwrap().0
}

fn ledger() -> Contract {
    Contract {
        version: 2,
        mint: addr(1),
        sender: addr(2),
        sender_tokens: addr(3),
        recipient: addr(4),
        recipient_tokens: addr(5),
        escrow_tokens: escrow(),
        streamflow_treasury: addr(7),
        streamflow_treasury_tokens: addr(8),
        partner: addr(9),
        partner_tokens: addr(10),
        start_time: 100,
        end_time: 200,
        cliff: 100,
        cliff_amount: 0,
        amount_per_period: 10,
        period: 1,
        total_amount: 1000,
        deposited_amount: 400,
        withdrawn_amount: 100,
        can_topup: true,
        cancelable_by_sender: true,
        cancelable_by_recipient: false,
        transferable_by_sender: true,
        transferable_by_recipient: false,
    }
}

fn data_of(c: &Contract) -> Vec<u8> {
    let mut d = c.encode();
    d.extend_from_slice(&[0xEE; 16]);
    d
}

fn topup_accounts() -> TopupAccounts {
    TopupAccounts {
        sender: addr(2),
        sender_tokens: addr(3),
        metadata: stream_key(),
        escrow_tokens: escrow(),
        streamflow_treasury: addr(7),
        streamflow_treasury_tokens: addr(8),
        partner: addr(9),
        partner_tokens: addr(10),
        mint: addr(1),
        token_program: Address::new(spl_token::id().to_bytes()),
    }
}

#[test]
fn escrow_address_follows_version() {
    let pid = key(&program());
    let seed = key(&stream_key());
    let (v2, bump2) = Pubkey::find_program_address(&[b"strm", seed.as_ref()], &pid);
    let (v1, bump1) = Pubkey::find_program_address(&[seed.as_ref()], &pid);
    let found2 = find_escrow_account(2, &stream_key(), &program()).unwrap();
    let found1 = find_escrow_account(1, &stream_key(), &program()).unwrap();
    assert_eq!(found2.0.bytes, v2.to_bytes());
    assert_eq!(found2.1, bump2);
    assert_eq!(found1.0.bytes, v1.to_bytes());
    assert_eq!(found1.1, bump1);
    assert!(v1 != v2);
    assert!(is_escrow_account(3, &stream_key(), &program(), &Address::new(v2.to_bytes())));
    assert!(!is_escrow_account(1, &stream_key(), &program(), &Address::new(v2.to_bytes())));
}

fn escrow_bytes(amount: u64) -> Vec<u8> {
    let account = spl_token::state::Account {
        mint: key(&addr(1)),
        owner: key(&escrow()),
        amount,
        state: spl_token::state::AccountState::Initialized,
        ..Default::default()
    };
    let mut bytes = vec![0u8; spl_token::state::Account::LEN];
    spl_token::state::Account::pack(account, &mut bytes).unwrap();
    bytes
}

#[test]
fn escrow_balance_read_from_token_account() {
    let bytes = escrow_bytes(300);
    assert_eq!(read_escrow_balance(&bytes), Ok(300));
    assert_eq!(read_escrow_balance(&bytes[..100]), Err(SfError::InvalidEscrowAccount));
    assert_eq!(read_escrow_balance(&[0u8; 165]), Err(SfError::InvalidEscrowAccount));
}

#[test]
fn topup_zero_amount_refused() {
    let data = data_of(&ledger());
    let r = topup(&program(), &topup_accounts(), &data, &escrow_bytes(300), 150, 0);
    assert_eq!(r.unwrap_err(), SfError::AmountIsZero);
    let r = topup(&program(), &topup_accounts(), &[], &escrow_bytes(300), 150, 0);
    assert_eq!(r.unwrap_err(), SfError::AmountIsZero);
}

#[test]
fn topup_bad_metadata_refused() {
    let r = topup(&program(), &topup_accounts(), &[1, 2, 3], &escrow_bytes(300), 150, 10);
    assert_eq!(r.unwrap_err(), SfError::InvalidMetadata);
    let mut c = ledger();
    c.can_topup = false;
    let r = topup(&program(), &topup_accounts(), &data_of(&c), &escrow_bytes(300), 150, 10);
    assert_eq!(r.unwrap_err(), SfError::InvalidMetadata);
    let mut c = ledger();
    c.withdrawn_amount = 500;
    let r = topup(&program(), &topup_accounts(), &data_of(&c), &escrow_bytes(300), 150, 10);
    assert_eq!(r.unwrap_err(), SfError::InvalidMetadata);
}

#[test]
fn topup_wrong_escrow_refused() {
    let mut acc = topup_accounts();
    acc.escrow_tokens = addr(6);
    let data = data_of(&ledger());
    let r = topup(&program(), &acc, &data, &escrow_bytes(300), 150, 10);
    assert_eq!(r.unwrap_err(), SfError::InvalidEscrowAccount);
    let mut c = ledger();
    c.version = 1;
    let r = topup(&program(), &topup_accounts(), &data_of(&c), &escrow_bytes(300), 150, 10);
    assert_eq!(r.unwrap_err(), SfError::InvalidEscrowAccount);
}

#[test]
fn topup_unreadable_escrow_refused() {
    let data = data_of(&ledger());
    let r = topup(&program(), &topup_accounts(), &data, &[0u8; 165], 150, 10);
    assert_eq!(r.unwrap_err(), SfError::InvalidEscrowAccount);
    let r = topup(&program(), &topup_accounts(), &data, &escrow_bytes(300)[..164], 150, 10);
    assert_eq!(r.unwrap_err(), SfError::InvalidEscrowAccount);
    let r = topup(&program(), &topup_accounts(), &data, &[], 150, 0);
    assert_eq!(r.unwrap_err(), SfError::AmountIsZero);
}

#[test]
fn topup_closed_stream_refused() {
    let data = data_of(&ledger());
    let r = topup(&program(), &topup_accounts(), &data, &escrow_bytes(300), 201, 10);
    assert_eq!(r.unwrap_err(), SfError::StreamClosed);
    assert!(topup(&program(), &topup_accounts(), &data, &escrow_bytes(300), 200, 10).is_ok());
}

#[test]
fn topup_over_total_refused() {
    let data = data_of(&ledger());
    let r = topup(&program(), &topup_accounts(), &data, &escrow_bytes(300), 150, 601);
    assert_eq!(r.unwrap_err(), SfError::InvalidDeposit);
    let r = topup(&program(), &topup_accounts(), &data, &escrow_bytes(250), 150, 10);
    assert_eq!(r.unwrap_err(), SfError::InvalidDeposit);
}

#[test]
fn topup_success_adds_amount() {
    let mut data = data_of(&ledger());
    let plan = topup(&program(), &topup_accounts(), &data, &escrow_bytes(300), 150, 600).unwrap();
    assert!(plan.transfer.source == addr(3));
    assert!(plan.transfer.destination == escrow());
    assert!(plan.transfer.authority == addr(2));
    assert_eq!(plan.transfer.amount, 600);
    assert_eq!(plan.ledger.deposited_amount, 400);
    assert_eq!(plan.escrow_balance, 300);
    finish_topup(&plan, &mut data, true);
    let after = Contract::decode(&data).unwrap();
    assert_eq!(after.deposited_amount, 1000);
    assert_eq!(after.withdrawn_amount, 100);
    assert_eq!(&data[LEDGER_LEN..], &[0xEE; 16][..]);
}

#[test]
fn topup_syncs_outside_deposit_first() {
    let mut data = data_of(&ledger());
    let plan = topup(&program(), &topup_accounts(), &data, &escrow_bytes(350), 150, 5).unwrap();
    assert_eq!(plan.ledger.deposited_amount, 450);
    finish_topup(&plan, &mut data, true);
    assert_eq!(Contract::decode(&data).unwrap().deposited_amount, 455);
}

#[test]
fn topup_failed_movement_leaves_bytes() {
    let mut data = data_of(&ledger());
    let before = data.clone();
    let plan = topup(&program(), &topup_accounts(), &data, &escrow_bytes(350), 150, 5).unwrap();
    finish_topup(&plan, &mut data, false);
    assert_eq!(data, before);
}

fn transfer_accounts(wallet: Address, signed: bool) -> TransferAccounts {
    TransferAccounts {
        authority: wallet,
        authority_is_signer: signed,
        authorized_wallet: wallet,
        metadata: stream_key(),
        mint: addr(1),
    }
}

fn ata(owner: &Address) -> Address {
    let k = spl_associated_token_account::get_associated_token_address(&key(owner), &key(&addr(1)));
    Address::new(k.to_bytes())
}

#[test]
fn transfer_by_sender_allowed_only() {
    let new = addr(30);
    let mut data = data_of(&ledger());
    let before = data.clone();
    for who in [addr(4), addr(31)] {
        let r = transfer_recipient(&transfer_accounts(who, true), &mut data, new, ata(&new));
        assert_eq!(r, Err(HandlerError::Stream(SfError::TransferNotAllowed)));
        assert_eq!(data, before);
    }
    let r = transfer_recipient(&transfer_accounts(addr(2), true), &mut data, new, ata(&new));
    assert_eq!(r, Ok(()));
    let after = Contract::decode(&data).unwrap();
    assert!(after.recipient == new);
    assert!(after.recipient_tokens == ata(&new));
    assert!(after.sender == addr(2));
    assert_eq!(after.deposited_amount, 400);
}

#[test]
fn transfer_flags_flipped() {
    let mut c = ledger();
    c.transferable_by_sender = false;
    c.transferable_by_recipient = true;
    let new = addr(30);
    let mut data = data_of(&c);
    let r = transfer_recipient(&transfer_accounts(addr(2), true), &mut data, new, ata(&new));
    assert_eq!(r, Err(HandlerError::Stream(SfError::TransferNotAllowed)));
    let r = transfer_recipient(&transfer_accounts(addr(31), true), &mut data, new, ata(&new));
    assert_eq!(r, Err(HandlerError::Stream(SfError::TransferNotAllowed)));
    let r = transfer_recipient(&transfer_accounts(addr(4), true), &mut data, new, ata(&new));
    assert_eq!(r, Ok(()));
}

#[test]
fn transfer_requires_associated_account() {
    let new = addr(30);
    let mut data = data_of(&ledger());
    let before = data.clone();
    let r = transfer_recipient(&transfer_accounts(addr(2), true), &mut data, new, addr(40));
    assert_eq!(r, Err(HandlerError::Stream(SfError::NotAssociated)));
    let r = transfer_recipient(&transfer_accounts(addr(2), true), &mut data, new, new);
    assert_eq!(r, Err(HandlerError::Stream(SfError::NotAssociated)));
    assert_eq!(data, before);
}

#[test]
fn transfer_requires_signature_and_metadata() {
    let new = addr(30);
    let mut data = data_of(&ledger());
    let r = transfer_recipient(&transfer_accounts(addr(2), false), &mut data, new, ata(&new));
    assert_eq!(r, Err(HandlerError::MissingRequiredSignature));
    let mut short = vec![0u8; 10];
    let r = transfer_recipient(&transfer_accounts(addr(2), true), &mut short, new, ata(&new));
    assert_eq!(r, Err(HandlerError::Stream(SfError::InvalidMetadata)));
}

#[test]
fn transfer_requires_stream_mint() {
    let new = addr(30);
    let mut data = data_of(&ledger());
    let before = data.clone();
    let mut accounts = transfer_accounts(addr(2), true);
    accounts.mint = addr(50);
    let r = transfer_recipient(&accounts, &mut data, new, ata(&new));
    assert_eq!(r, Err(HandlerError::Stream(SfError::MintMismatch)));
    assert_eq!(data, before);
}

#[test]
fn associated_address_matches_token_program() {
    for owner in [addr(30), addr(2), addr(0xFF)] {
        let found = find_associated_token_address(&owner, &addr(1)).unwrap();
        assert!(found == ata(&owner));
        assert!(found != owner);
    }
}

#[test]
fn token_account_acceptance() {
    let mut frozen = escrow_bytes(42);
    frozen[108] = 2;
    assert_eq!(read_escrow_balance(&frozen), Ok(42));
    let mut bad_state = escrow_bytes(42);
    bad_state[108] = 3;
    assert_eq!(read_escrow_balance(&bad_state), Err(SfError::InvalidEscrowAccount));
    for tag in [72usize, 109, 129] {
        let mut bad_tag = escrow_bytes(42);
        bad_tag[tag] = 2;
        assert_eq!(read_escrow_balance(&bad_tag), Err(SfError::InvalidEscrowAccount));
        let mut bad_tail = escrow_bytes(42);
        bad_tail[tag + 3] = 1;
        assert_eq!(read_escrow_balance(&bad_tail), Err(SfError::InvalidEscrowAccount));
    }
    let mut frozen_data = data_of(&ledger());
    let plan = topup(&program(), &topup_accounts(), &frozen_data, &frozen, 150, 5);
    assert_eq!(plan.unwrap_err(), SfError::InvalidDeposit);
    frozen = escrow_bytes(300);
    frozen[108] = 2;
    let plan = topup(&program(), &topup_accounts(), &frozen_data, &frozen, 150, 5).unwrap();
    finish_topup(&plan, &mut frozen_data, true);
    assert_eq!(Contract::decode(&frozen_data).unwrap().deposited_amount, 405);
}
