use streamflow_core::auth::{Invoker, Role};
use streamflow_core::address::Address;
use streamflow_core::error::SfError;
use streamflow_core::fees::{fee_share, split_amount};

fn addr(b: u8) -> Address {
    Address::new([b; 32])
}

#[test]
fn fee_share_rounds_down() {
    assert_eq!(fee_share(1000, 250), 25);
    assert_eq!(fee_share(999, 1), 0);
    assert_eq!(fee_share(19999, 1), 1);
    assert_eq!(fee_share(u64::MAX, 10000), u64::MAX);
    assert_eq!(fee_share(u64::MAX, 5000), u64::MAX / 2);
    assert_eq!(fee_share(12345, 0), 0);
}

#[test]
fn fee_split_conserves_amount() {
    for &(a, r) in &[(0u64, 0u64), (1, 9999), (1_000_000, 25), (u64::MAX, 10000), (77, 3333)] {
        let f = fee_share(a, r);
        assert_eq!(f + (a - f), a);
        assert!(fee_share(a + (a < u64::MAX) as u64, r) >= f);
    }
}

#[test]
fn split_keeps_remainders_on_net_side() {
    let s = split_amount(1001, 25, 10);
    assert_eq!(s.treasury_fee, 2);
    assert_eq!(s.partner_fee, 1);
    assert_eq!(s.net_amount, 998);
    assert_eq!(s.treasury_fee + s.partner_fee + s.net_amount, 1001);
}

#[test]
fn error_codes_are_ordinals() {
    assert_eq!(SfError::AccountsNotWritable.code(), 0);
    assert_eq!(SfError::InvalidEscrowAccount.code(), 4);
    assert_eq!(SfError::NotAssociated.code(), 5);
    assert_eq!(SfError::TransferNotAllowed.code(), 7);
    assert_eq!(SfError::StreamClosed.code(), 8);
    assert_eq!(SfError::AmountIsZero.code(), 12);
    assert_eq!(SfError::AmountMoreThanAvailable.code(), 13);
    assert_eq!(SfError::AmountIsZero.message(), "Amount cannot be zero");
}

#[test]
fn role_resolution_prefers_sender() {
    assert_eq!(Invoker::new(&addr(1), &addr(1), &addr(1)).role, Role::Sender);
    assert_eq!(Invoker::new(&addr(2), &addr(1), &addr(2)).role, Role::Recipient);
    assert_eq!(Invoker::new(&addr(3), &addr(1), &addr(2)).role, Role::Neither);
}

#[test]
fn flag_pair_test() {
    let sender = Invoker::new(&addr(1), &addr(1), &addr(2));
    let recipient = Invoker::new(&addr(2), &addr(1), &addr(2));
    let other = Invoker::new(&addr(9), &addr(1), &addr(2));
    assert!(sender.permits(true, false));
    assert!(!recipient.permits(true, false));
    assert!(!other.permits(true, true));
    assert!(!sender.permits(false, true));
    assert!(recipient.permits(false, true));
}
