use vstd::prelude::*;

verus! {

/// The failures that the stream operations report. Each has a stable code,
/// its position in this list.
#[derive(Clone, Copy, Debug, PartialEq, Eq, Structural)]
pub enum SfError {
    AccountsNotWritable,
    InvalidMetadata,
    InvalidMetadataAccount,
    MetadataAccountMismatch,
    InvalidEscrowAccount,
    NotAssociated,
    MintMismatch,
    TransferNotAllowed,
    StreamClosed,
    InvalidTreasury,
    InvalidTimestamps,
    InvalidDeposit,
    AmountIsZero,
    AmountMoreThanAvailable,
}

/// The stable numeric code of each error.
pub open spec fn error_code(e: SfError) -> u32 {
    match e {
        SfError::AccountsNotWritable => 0,
        SfError::InvalidMetadata => 1,
        SfError::InvalidMetadataAccount => 2,
        SfError::MetadataAccountMismatch => 3,
        SfError::InvalidEscrowAccount => 4,
        SfError::NotAssociated => 5,
        SfError::MintMismatch => 6,
        SfError::TransferNotAllowed => 7,
        SfError::StreamClosed => 8,
        SfError::InvalidTreasury => 9,
        SfError::InvalidTimestamps => 10,
        SfError::InvalidDeposit => 11,
        SfError::AmountIsZero => 12,
        SfError::AmountMoreThanAvailable => 13,
    }
}

/// The diagnostic text of each error.
pub open spec fn error_message(e: SfError) -> Seq<char> {
    match e {
        SfError::AccountsNotWritable => "Accounts not writable!"@,
        SfError::InvalidMetadata => "Invalid Metadata!"@,
        SfError::InvalidMetadataAccount => "Invalid metadata account"@,
        SfError::MetadataAccountMismatch => "Provided accounts don't match the ones in contract."@,
        SfError::InvalidEscrowAccount => "Invalid escrow account"@,
        SfError::NotAssociated => "Provided account(s) is/are not valid associated token accounts."@,
        SfError::MintMismatch => "Sender mint does not match accounts mint!"@,
        SfError::TransferNotAllowed => "Recipient not transferable for account"@,
        SfError::StreamClosed => "Stream closed"@,
        SfError::InvalidTreasury => "Invalid Streamflow Treasury accounts supplied"@,
        SfError::InvalidTimestamps => "Given timestamps are invalid"@,
        SfError::InvalidDeposit => "Deposited amount must be <= Total amount"@,
        SfError::AmountIsZero => "Amount cannot be zero"@,
        SfError::AmountMoreThanAvailable => "Amount requested is larger than available"@,
    }
}

impl SfError {
    /// The code handed back to the caller of a failed operation.
    pub fn code(&self) -> (r: u32)
        ensures
            r == error_code(*self),
    {
        match self {
            SfError::AccountsNotWritable => 0,
            SfError::InvalidMetadata => 1,
            SfError::InvalidMetadataAccount => 2,
            SfError::MetadataAccountMismatch => 3,
            SfError::InvalidEscrowAccount => 4,
            SfError::NotAssociated => 5,
            SfError::MintMismatch => 6,
            SfError::TransferNotAllowed => 7,
            SfError::StreamClosed => 8,
            SfError::InvalidTreasury => 9,
            SfError::InvalidTimestamps => 10,
            SfError::InvalidDeposit => 11,
            SfError::AmountIsZero => 12,
            SfError::AmountMoreThanAvailable => 13,
        }
    }

    /// The diagnostic line logged with the code.
    pub fn message(&self) -> (r: String)
        ensures
            r@ == error_message(*self),
    {
        let s: &str = match self {
            SfError::AccountsNotWritable => "Accounts not writable!",
            SfError::InvalidMetadata => "Invalid Metadata!",
            SfError::InvalidMetadataAccount => "Invalid metadata account",
            SfError::MetadataAccountMismatch => "Provided accounts don't match the ones in contract.",
            SfError::InvalidEscrowAccount => "Invalid escrow account",
            SfError::NotAssociated => "Provided account(s) is/are not valid associated token accounts.",
            SfError::MintMismatch => "Sender mint does not match accounts mint!",
            SfError::TransferNotAllowed => "Recipient not transferable for account",
            SfError::StreamClosed => "Stream closed",
            SfError::InvalidTreasury => "Invalid Streamflow Treasury accounts supplied",
            SfError::InvalidTimestamps => "Given timestamps are invalid",
            SfError::InvalidDeposit => "Deposited amount must be <= Total amount",
            SfError::AmountIsZero => "Amount cannot be zero",
            SfError::AmountMoreThanAvailable => "Amount requested is larger than available",
        };
        s.to_string()
    }
}

} // verus!
