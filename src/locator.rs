use vstd::prelude::*;
use solana_program::pubkey::Pubkey;
use crate::address::Address;

verus! {

/// The program address that `Pubkey::try_find_program_address` derives from
/// the seeds and the program id, with its bump seed; `None` where no bump
/// seed gives one.
pub uninterp spec fn program_address_of(seeds: Seq<Seq<u8>>, program_id: Seq<u8>) -> Option<(Seq<u8>, u8)>;

/// Relies on `Pubkey::try_find_program_address` of solana-program: it hashes
/// the seeds, each bump seed from 255 down and the program id, and returns the
/// first result off the curve with its bump seed, or `None`; it reads nothing
/// but its arguments.
#[verifier::external_body]
pub(crate) fn try_find_program_address(seeds: &Vec<Vec<u8>>, program_id: &Address) -> (r: Option<(Address, u8)>)
    ensures
        match r {
            Some(found) => program_address_of(seeds.deep_view(), program_id@) == Some((found.0@, found.1)),
            None => program_address_of(seeds.deep_view(), program_id@) is None,
        },
{
    let slices: Vec<&[u8]> = seeds.iter().map(|s| s.as_slice()).collect();
    Pubkey::try_find_program_address(&slices, &Pubkey::new_from_array(program_id.bytes))
        .map(|(key, bump)| (Address { bytes: key.to_bytes() }, bump))
}

/// The first protocol version whose escrow seeds start with a fixed prefix.
pub const PREFIXED_ESCROW_VERSION: u8 = 2;

/// The prefix of escrow seeds, the bytes of "strm".
pub open spec fn escrow_seed_prefix() -> Seq<u8> {
    seq![115u8, 116u8, 114u8, 109u8]
}

/// The seeds of a stream's escrow address under protocol `version`.
pub open spec fn escrow_seeds(version: u8, stream: Seq<u8>) -> Seq<Seq<u8>> {
    if version < PREFIXED_ESCROW_VERSION {
        seq![stream]
    } else {
        seq![escrow_seed_prefix(), stream]
    }
}

/// The escrow address of the stream whose ledger is at `stream`.
pub open spec fn escrow_address_of(version: u8, stream: Seq<u8>, program_id: Seq<u8>) -> Option<(Seq<u8>, u8)> {
    program_address_of(escrow_seeds(version, stream), program_id)
}

/// Whether `candidate` is the escrow address of the stream.
pub open spec fn is_escrow_of(version: u8, stream: Seq<u8>, program_id: Seq<u8>, candidate: Seq<u8>) -> bool {
    match escrow_address_of(version, stream, program_id) {
        Some(found) => found.0 == candidate,
        None => false,
    }
}

fn escrow_prefix_bytes() -> (r: Vec<u8>)
    ensures
        r@ == escrow_seed_prefix(),
{
    let mut v: Vec<u8> = Vec::new();
    v.push(115u8);
    v.push(116u8);
    v.push(114u8);
    v.push(109u8);
    assert(v@ =~= escrow_seed_prefix());
    v
}

/// Derives the escrow address of the stream whose ledger is at `stream`,
/// with the seed scheme of protocol `version`.
pub fn find_escrow_account(version: u8, stream: &Address, program_id: &Address) -> (r: Option<(Address, u8)>)
    ensures
        match r {
            Some(found) => escrow_address_of(version, stream@, program_id@) == Some((found.0@, found.1)),
            None => escrow_address_of(version, stream@, program_id@) is None,
        },
{
    let mut seeds: Vec<Vec<u8>> = Vec::new();
    if version >= PREFIXED_ESCROW_VERSION {
        seeds.push(escrow_prefix_bytes());
    }
    seeds.push(stream.to_vec());
    assert(seeds.deep_view() =~= escrow_seeds(version, stream@)) by {
        assert forall|i: int| 0 <= i < seeds@.len() implies #[trigger] seeds@[i].deep_view() =~= seeds@[i]@ by {}
    }
    try_find_program_address(&seeds, program_id)
}

/// Whether `candidate` is the escrow account of the stream.
pub fn is_escrow_account(version: u8, stream: &Address, program_id: &Address, candidate: &Address) -> (r: bool)
    ensures
        r == is_escrow_of(version, stream@, program_id@, candidate@),
{
    match find_escrow_account(version, stream, program_id) {
        Some(found) => found.0.same_as(candidate),
        None => false,
    }
}

/// The SPL token program's id, `TokenkegQfeZyiNwAJbNbGKPFXCWuBvf9Ss623VQ5DA`.
pub open spec fn token_program_id() -> Seq<u8> {
    [
        6u8, 221, 246, 225, 215, 101, 161, 147, 217, 203, 225, 70,
        206, 235, 121, 172, 28, 180, 133, 237, 95, 91, 55, 145,
        58, 140, 245, 133, 126, 255, 0, 169,
    ]@
}

/// The associated token account program's id,
/// `ATokenGPvbdGVxr1b2hvZbsiqW5xWH25efTNsLJA8knL`.
pub open spec fn associated_token_program_id() -> Seq<u8> {
    [
        140u8, 151, 37, 143, 78, 36, 137, 241, 187, 61, 16, 41,
        20, 142, 13, 131, 11, 90, 19, 153, 218, 255, 16, 132,
        4, 142, 123, 216, 219, 233, 248, 89,
    ]@
}

/// The associated token account of `wallet` for `mint`: the program address
/// of the associated token account program for the seeds wallet, token
/// program id and mint; `None` where no bump seed gives one.
pub open spec fn associated_address_of(wallet: Seq<u8>, mint: Seq<u8>) -> Option<Seq<u8>> {
    match program_address_of(seq![wallet, token_program_id(), mint], associated_token_program_id()) {
        Some(found) => Some(found.0),
        None => None,
    }
}

fn token_program_address() -> (r: Address)
    ensures
        r@ == token_program_id(),
{
    Address {
        bytes: [
            6u8, 221, 246, 225, 215, 101, 161, 147, 217, 203, 225, 70,
            206, 235, 121, 172, 28, 180, 133, 237, 95, 91, 55, 145,
            58, 140, 245, 133, 126, 255, 0, 169,
        ],
    }
}

fn associated_token_program_address() -> (r: Address)
    ensures
        r@ == associated_token_program_id(),
{
    Address {
        bytes: [
            140u8, 151, 37, 143, 78, 36, 137, 241, 187, 61, 16, 41,
            20, 142, 13, 131, 11, 90, 19, 153, 218, 255, 16, 132,
            4, 142, 123, 216, 219, 233, 248, 89,
        ],
    }
}

/// Derives the associated token account of `wallet` for `mint`.
pub fn find_associated_token_address(wallet: &Address, mint: &Address) -> (r: Option<Address>)
    ensures
        match r {
            Some(found) => associated_address_of(wallet@, mint@) == Some(found@),
            None => associated_address_of(wallet@, mint@) is None,
        },
{
    let mut seeds: Vec<Vec<u8>> = Vec::new();
    seeds.push(wallet.to_vec());
    seeds.push(token_program_address().to_vec());
    seeds.push(mint.to_vec());
    assert(seeds.deep_view() =~= seq![wallet@, token_program_id(), mint@]) by {
        assert forall|i: int| 0 <= i < seeds@.len() implies #[trigger] seeds@[i].deep_view() =~= seeds@[i]@ by {}
    }
    match try_find_program_address(&seeds, &associated_token_program_address()) {
        Some(found) => Some(found.0),
        None => None,
    }
}

} // verus!
