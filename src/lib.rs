//! Accounting and authorization core of a token-streaming escrow.
//!
//! The ledger of one stream, its byte layout, the escrow-address check,
//! the role-based authorization of restricted actions, and the top-up and
//! recipient-transfer flows, each with a contract proved by Verus.

pub mod address;
pub mod auth;
pub mod error;
pub mod fees;
pub mod ledger;
pub mod locator;
pub mod topup;
pub mod transfer_recipient;
