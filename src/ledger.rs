use vstd::prelude::*;
use vstd::bytes::{spec_u64_from_le_bytes, spec_u64_to_le_bytes, u64_from_le_bytes, u64_to_le_bytes};
use vstd::slice::slice_subrange;
use crate::address::{Address, ADDRESS_LEN};
use crate::error::SfError;

verus! {

/// Bytes that one encoded ledger takes at the start of its storage buffer.
pub const LEDGER_LEN: usize = 398;

/// Offset of the first capability flag in the encoded ledger.
pub const FLAGS_OFFSET: usize = 393;

/// The persisted record of one stream.
#[derive(Clone, Copy, Debug)]
pub struct Contract {
    /// Protocol version the stream was created under.
    pub version: u8,
    pub mint: Address,
    pub sender: Address,
    pub sender_tokens: Address,
    pub recipient: Address,
    pub recipient_tokens: Address,
    pub escrow_tokens: Address,
    pub streamflow_treasury: Address,
    pub streamflow_treasury_tokens: Address,
    pub partner: Address,
    pub partner_tokens: Address,
    pub start_time: u64,
    pub end_time: u64,
    pub cliff: u64,
    pub cliff_amount: u64,
    pub amount_per_period: u64,
    pub period: u64,
    pub total_amount: u64,
    pub deposited_amount: u64,
    pub withdrawn_amount: u64,
    pub can_topup: bool,
    pub cancelable_by_sender: bool,
    pub cancelable_by_recipient: bool,
    pub transferable_by_sender: bool,
    pub transferable_by_recipient: bool,
}

/// What a ledger holds, with each address as its bytes.
pub struct LedgerModel {
    pub version: u8,
    pub mint: Seq<u8>,
    pub sender: Seq<u8>,
    pub sender_tokens: Seq<u8>,
    pub recipient: Seq<u8>,
    pub recipient_tokens: Seq<u8>,
    pub escrow_tokens: Seq<u8>,
    pub streamflow_treasury: Seq<u8>,
    pub streamflow_treasury_tokens: Seq<u8>,
    pub partner: Seq<u8>,
    pub partner_tokens: Seq<u8>,
    pub start_time: u64,
    pub end_time: u64,
    pub cliff: u64,
    pub cliff_amount: u64,
    pub amount_per_period: u64,
    pub period: u64,
    pub total_amount: u64,
    pub deposited_amount: u64,
    pub withdrawn_amount: u64,
    pub can_topup: bool,
    pub cancelable_by_sender: bool,
    pub cancelable_by_recipient: bool,
    pub transferable_by_sender: bool,
    pub transferable_by_recipient: bool,
}

impl View for Contract {
    type V = LedgerModel;

    open spec fn view(&self) -> LedgerModel {
        LedgerModel {
            version: self.version,
            mint: self.mint@,
            sender: self.sender@,
            sender_tokens: self.sender_tokens@,
            recipient: self.recipient@,
            recipient_tokens: self.recipient_tokens@,
            escrow_tokens: self.escrow_tokens@,
            streamflow_treasury: self.streamflow_treasury@,
            streamflow_treasury_tokens: self.streamflow_treasury_tokens@,
            partner: self.partner@,
            partner_tokens: self.partner_tokens@,
            start_time: self.start_time,
            end_time: self.end_time,
            cliff: self.cliff,
            cliff_amount: self.cliff_amount,
            amount_per_period: self.amount_per_period,
            period: self.period,
            total_amount: self.total_amount,
            deposited_amount: self.deposited_amount,
            withdrawn_amount: self.withdrawn_amount,
            can_topup: self.can_topup,
            cancelable_by_sender: self.cancelable_by_sender,
            cancelable_by_recipient: self.cancelable_by_recipient,
            transferable_by_sender: self.transferable_by_sender,
            transferable_by_recipient: self.transferable_by_recipient,
        }
    }
}

/// The one byte that encodes a flag.
pub open spec fn flag_byte(b: bool) -> u8 {
    if b {
        1
    } else {
        0
    }
}

/// Bytes of the version and the addresses at the start of the encoding.
pub const HEADER_LEN: usize = 321;

/// Bytes of the amounts and times that follow the header.
pub const WORDS_LEN: usize = 72;

/// The start of a ledger's encoding: the version byte, then the addresses.
#[verifier::opaque]
pub open spec fn encode_header(m: LedgerModel) -> Seq<u8> {
    seq![m.version]
        + m.mint
        + m.sender
        + m.sender_tokens
        + m.recipient
        + m.recipient_tokens
        + m.escrow_tokens
        + m.streamflow_treasury
        + m.streamflow_treasury_tokens
        + m.partner
        + m.partner_tokens
}

/// The amounts and times of a ledger as little-endian words.
#[verifier::opaque]
pub open spec fn encode_words(m: LedgerModel) -> Seq<u8> {
    spec_u64_to_le_bytes(m.start_time)
        + spec_u64_to_le_bytes(m.end_time)
        + spec_u64_to_le_bytes(m.cliff)
        + spec_u64_to_le_bytes(m.cliff_amount)
        + spec_u64_to_le_bytes(m.amount_per_period)
        + spec_u64_to_le_bytes(m.period)
        + spec_u64_to_le_bytes(m.total_amount)
        + spec_u64_to_le_bytes(m.deposited_amount)
        + spec_u64_to_le_bytes(m.withdrawn_amount)
}

/// The flags of a ledger, one byte each.
pub open spec fn encode_flags(m: LedgerModel) -> Seq<u8> {
    seq![
        flag_byte(m.can_topup),
        flag_byte(m.cancelable_by_sender),
        flag_byte(m.cancelable_by_recipient),
        flag_byte(m.transferable_by_sender),
        flag_byte(m.transferable_by_recipient),
    ]
}

/// The encoding of a ledger: header, words, flags.
pub open spec fn encode_ledger(m: LedgerModel) -> Seq<u8> {
    encode_header(m) + encode_words(m) + encode_flags(m)
}

/// Whether a buffer holds a decodable ledger: long enough, and each flag
/// byte a zero or a one (bytes after the ledger are not looked at).
pub open spec fn is_decodable(s: Seq<u8>) -> bool {
    &&& s.len() >= LEDGER_LEN
    &&& forall|i: int| FLAGS_OFFSET <= i < LEDGER_LEN ==> #[trigger] s[i] <= 1
}

/// The ledger that a decodable buffer holds.
pub open spec fn decode_ledger(s: Seq<u8>) -> LedgerModel {
    LedgerModel {
        version: s[0],
        mint: s.subrange(1, 33),
        sender: s.subrange(33, 65),
        sender_tokens: s.subrange(65, 97),
        recipient: s.subrange(97, 129),
        recipient_tokens: s.subrange(129, 161),
        escrow_tokens: s.subrange(161, 193),
        streamflow_treasury: s.subrange(193, 225),
        streamflow_treasury_tokens: s.subrange(225, 257),
        partner: s.subrange(257, 289),
        partner_tokens: s.subrange(289, 321),
        start_time: spec_u64_from_le_bytes(s.subrange(321, 329)),
        end_time: spec_u64_from_le_bytes(s.subrange(329, 337)),
        cliff: spec_u64_from_le_bytes(s.subrange(337, 345)),
        cliff_amount: spec_u64_from_le_bytes(s.subrange(345, 353)),
        amount_per_period: spec_u64_from_le_bytes(s.subrange(353, 361)),
        period: spec_u64_from_le_bytes(s.subrange(361, 369)),
        total_amount: spec_u64_from_le_bytes(s.subrange(369, 377)),
        deposited_amount: spec_u64_from_le_bytes(s.subrange(377, 385)),
        withdrawn_amount: spec_u64_from_le_bytes(s.subrange(385, 393)),
        can_topup: s[393] == 1,
        cancelable_by_sender: s[394] == 1,
        cancelable_by_recipient: s[395] == 1,
        transferable_by_sender: s[396] == 1,
        transferable_by_recipient: s[397] == 1,
    }
}

/// The ledger's invariants: deposits within the committed total, withdrawals
/// within the deposits, and a schedule that ends after it starts.
pub open spec fn ledger_wf(m: LedgerModel) -> bool {
    &&& m.deposited_amount <= m.total_amount
    &&& m.withdrawn_amount <= m.deposited_amount
    &&& m.start_time < m.end_time
}

/// Whether `balance`, the escrow's live balance, can be reconciled with the
/// ledger: it holds at least what the ledger tracks, and counting it as
/// deposited keeps the deposits within the total.
pub open spec fn can_sync(m: LedgerModel, balance: u64) -> bool {
    &&& m.withdrawn_amount <= m.deposited_amount
    &&& m.deposited_amount - m.withdrawn_amount <= balance
    &&& m.withdrawn_amount + balance <= m.total_amount
}

/// The ledger after reconciling it with the escrow balance: whatever reached
/// the escrow by other paths counts as deposited.
pub open spec fn synced(m: LedgerModel, balance: u64) -> LedgerModel {
    LedgerModel { deposited_amount: (m.withdrawn_amount + balance) as u64, ..m }
}

/// The ledger after `amount` more was moved into the escrow.
pub open spec fn deposited(m: LedgerModel, amount: u64) -> LedgerModel {
    LedgerModel { deposited_amount: (m.deposited_amount + amount) as u64, ..m }
}

/// The ledger after its recipient was replaced.
pub open spec fn redirected(m: LedgerModel, recipient: Seq<u8>, recipient_tokens: Seq<u8>) -> LedgerModel {
    LedgerModel { recipient, recipient_tokens, ..m }
}

/// Whether each address of the model has the length of an address.
pub open spec fn addresses_sized(m: LedgerModel) -> bool {
    m.mint.len() == ADDRESS_LEN
    && m.sender.len() == ADDRESS_LEN
    && m.sender_tokens.len() == ADDRESS_LEN
    && m.recipient.len() == ADDRESS_LEN
    && m.recipient_tokens.len() == ADDRESS_LEN
    && m.escrow_tokens.len() == ADDRESS_LEN
    && m.streamflow_treasury.len() == ADDRESS_LEN
    && m.streamflow_treasury_tokens.len() == ADDRESS_LEN
    && m.partner.len() == ADDRESS_LEN
    && m.partner_tokens.len() == ADDRESS_LEN
}

proof fn lemma_header_parts(m: LedgerModel)
    requires
        addresses_sized(m),
    ensures
        encode_header(m).len() == HEADER_LEN,
        encode_header(m)[0] == m.version,
        encode_header(m).subrange(1, 33) == m.mint,
        encode_header(m).subrange(33, 65) == m.sender,
        encode_header(m).subrange(65, 97) == m.sender_tokens,
        encode_header(m).subrange(97, 129) == m.recipient,
        encode_header(m).subrange(129, 161) == m.recipient_tokens,
        encode_header(m).subrange(161, 193) == m.escrow_tokens,
        encode_header(m).subrange(193, 225) == m.streamflow_treasury,
        encode_header(m).subrange(225, 257) == m.streamflow_treasury_tokens,
        encode_header(m).subrange(257, 289) == m.partner,
        encode_header(m).subrange(289, 321) == m.partner_tokens,
{
    reveal(encode_header);
    let h = encode_header(m);
    assert(h.subrange(1, 33) =~= m.mint);
    assert(h.subrange(33, 65) =~= m.sender);
    assert(h.subrange(65, 97) =~= m.sender_tokens);
    assert(h.subrange(97, 129) =~= m.recipient);
    assert(h.subrange(129, 161) =~= m.recipient_tokens);
    assert(h.subrange(161, 193) =~= m.escrow_tokens);
    assert(h.subrange(193, 225) =~= m.streamflow_treasury);
    assert(h.subrange(225, 257) =~= m.streamflow_treasury_tokens);
    assert(h.subrange(257, 289) =~= m.partner);
    assert(h.subrange(289, 321) =~= m.partner_tokens);
}

proof fn lemma_words_parts(m: LedgerModel)
    ensures
        encode_words(m).len() == WORDS_LEN,
        encode_words(m).subrange(0, 8) == spec_u64_to_le_bytes(m.start_time),
        encode_words(m).subrange(8, 16) == spec_u64_to_le_bytes(m.end_time),
        encode_words(m).subrange(16, 24) == spec_u64_to_le_bytes(m.cliff),
        encode_words(m).subrange(24, 32) == spec_u64_to_le_bytes(m.cliff_amount),
        encode_words(m).subrange(32, 40) == spec_u64_to_le_bytes(m.amount_per_period),
        encode_words(m).subrange(40, 48) == spec_u64_to_le_bytes(m.period),
        encode_words(m).subrange(48, 56) == spec_u64_to_le_bytes(m.total_amount),
        encode_words(m).subrange(56, 64) == spec_u64_to_le_bytes(m.deposited_amount),
        encode_words(m).subrange(64, 72) == spec_u64_to_le_bytes(m.withdrawn_amount),
{
    reveal(encode_words);
    vstd::bytes::lemma_auto_spec_u64_to_from_le_bytes();
    let w = encode_words(m);
    assert(w.subrange(0, 8) =~= spec_u64_to_le_bytes(m.start_time));
    assert(w.subrange(8, 16) =~= spec_u64_to_le_bytes(m.end_time));
    assert(w.subrange(16, 24) =~= spec_u64_to_le_bytes(m.cliff));
    assert(w.subrange(24, 32) =~= spec_u64_to_le_bytes(m.cliff_amount));
    assert(w.subrange(32, 40) =~= spec_u64_to_le_bytes(m.amount_per_period));
    assert(w.subrange(40, 48) =~= spec_u64_to_le_bytes(m.period));
    assert(w.subrange(48, 56) =~= spec_u64_to_le_bytes(m.total_amount));
    assert(w.subrange(56, 64) =~= spec_u64_to_le_bytes(m.deposited_amount));
    assert(w.subrange(64, 72) =~= spec_u64_to_le_bytes(m.withdrawn_amount));
}

/// A ledger's encoding is decodable and decodes to the same ledger.
pub proof fn lemma_decode_encode(m: LedgerModel)
    requires
        addresses_sized(m),
    ensures
        encode_ledger(m).len() == LEDGER_LEN,
        is_decodable(encode_ledger(m)),
        decode_ledger(encode_ledger(m)) == m,
{
    lemma_header_parts(m);
    lemma_words_parts(m);
    vstd::bytes::lemma_auto_spec_u64_to_from_le_bytes();
    let (h, w, f) = (encode_header(m), encode_words(m), encode_flags(m));
    let e = encode_ledger(m);
    assert(e.len() == LEDGER_LEN);
    assert(e[0] == h[0]);
    assert(e.subrange(1, 33) =~= h.subrange(1, 33));
    assert(e.subrange(33, 65) =~= h.subrange(33, 65));
    assert(e.subrange(65, 97) =~= h.subrange(65, 97));
    assert(e.subrange(97, 129) =~= h.subrange(97, 129));
    assert(e.subrange(129, 161) =~= h.subrange(129, 161));
    assert(e.subrange(161, 193) =~= h.subrange(161, 193));
    assert(e.subrange(193, 225) =~= h.subrange(193, 225));
    assert(e.subrange(225, 257) =~= h.subrange(225, 257));
    assert(e.subrange(257, 289) =~= h.subrange(257, 289));
    assert(e.subrange(289, 321) =~= h.subrange(289, 321));
    assert(e.subrange(321, 329) =~= w.subrange(0, 8));
    assert(e.subrange(329, 337) =~= w.subrange(8, 16));
    assert(e.subrange(337, 345) =~= w.subrange(16, 24));
    assert(e.subrange(345, 353) =~= w.subrange(24, 32));
    assert(e.subrange(353, 361) =~= w.subrange(32, 40));
    assert(e.subrange(361, 369) =~= w.subrange(40, 48));
    assert(e.subrange(369, 377) =~= w.subrange(48, 56));
    assert(e.subrange(377, 385) =~= w.subrange(56, 64));
    assert(e.subrange(385, 393) =~= w.subrange(64, 72));
    assert(e[393] == f[0]);
    assert(e[394] == f[1]);
    assert(e[395] == f[2]);
    assert(e[396] == f[3]);
    assert(e[397] == f[4]);
    assert forall|i: int| FLAGS_OFFSET <= i < LEDGER_LEN implies #[trigger] e[i] <= 1 by {
        assert(i == 393 || i == 394 || i == 395 || i == 396 || i == 397);
    }
    assert(decode_ledger(e) =~= m);
}

/// Bytes after the ledger play no part in decoding it.
pub proof fn lemma_decode_ignores_tail(s: Seq<u8>, tail: Seq<u8>)
    requires
        s.len() == LEDGER_LEN,
    ensures
        is_decodable(s + tail) == is_decodable(s),
        decode_ledger(s + tail) == decode_ledger(s),
{
    let x = s + tail;
    assert(x.subrange(1, 33) =~= s.subrange(1, 33));
    assert(x.subrange(33, 65) =~= s.subrange(33, 65));
    assert(x.subrange(65, 97) =~= s.subrange(65, 97));
    assert(x.subrange(97, 129) =~= s.subrange(97, 129));
    assert(x.subrange(129, 161) =~= s.subrange(129, 161));
    assert(x.subrange(161, 193) =~= s.subrange(161, 193));
    assert(x.subrange(193, 225) =~= s.subrange(193, 225));
    assert(x.subrange(225, 257) =~= s.subrange(225, 257));
    assert(x.subrange(257, 289) =~= s.subrange(257, 289));
    assert(x.subrange(289, 321) =~= s.subrange(289, 321));
    assert(x.subrange(321, 329) =~= s.subrange(321, 329));
    assert(x.subrange(329, 337) =~= s.subrange(329, 337));
    assert(x.subrange(337, 345) =~= s.subrange(337, 345));
    assert(x.subrange(345, 353) =~= s.subrange(345, 353));
    assert(x.subrange(353, 361) =~= s.subrange(353, 361));
    assert(x.subrange(361, 369) =~= s.subrange(361, 369));
    assert(x.subrange(369, 377) =~= s.subrange(369, 377));
    assert(x.subrange(377, 385) =~= s.subrange(377, 385));
    assert(x.subrange(385, 393) =~= s.subrange(385, 393));
    assert(decode_ledger(x) =~= decode_ledger(s));
    assert(is_decodable(x) == is_decodable(s)) by {
        assert forall|i: int| FLAGS_OFFSET <= i < LEDGER_LEN implies x[i] == s[i] by {}
    }
}

fn read_u64(buf: &[u8], offset: usize) -> (r: u64)
    requires
        offset + 8 <= buf@.len(),
    ensures
        r == spec_u64_from_le_bytes(buf@.subrange(offset as int, offset + 8)),
{
    let len: usize = buf.len();
    assert(offset + 8 <= len);
    u64_from_le_bytes(slice_subrange(buf, offset, offset + 8))
}

fn read_flag(buf: &[u8], offset: usize) -> (r: Option<bool>)
    requires
        offset < buf@.len(),
    ensures
        r == (if buf@[offset as int] <= 1 { Some(buf@[offset as int] == 1) } else { None::<bool> }),
{
    let b = buf[offset];
    if b == 0 {
        Some(false)
    } else if b == 1 {
        Some(true)
    } else {
        None
    }
}

fn push_u64(out: &mut Vec<u8>, v: u64)
    ensures
        final(out)@ == old(out)@ + spec_u64_to_le_bytes(v),
{
    let mut bytes = u64_to_le_bytes(v);
    out.append(&mut bytes);
}

fn push_address(out: &mut Vec<u8>, a: &Address)
    ensures
        final(out)@ == old(out)@ + a@,
{
    let mut bytes = a.to_vec();
    out.append(&mut bytes);
}

fn push_flag(out: &mut Vec<u8>, b: bool)
    ensures
        final(out)@ == old(out)@ + seq![flag_byte(b)],
{
    out.push(if b { 1u8 } else { 0u8 });
}

impl Contract {
    /// Decodes the ledger at the start of `buf`; bytes after it are ignored.
    pub fn decode(buf: &[u8]) -> (r: Result<Contract, SfError>)
        ensures
            r is Ok <==> is_decodable(buf@),
            r matches Ok(c) ==> c@ == decode_ledger(buf@),
            r matches Err(e) ==> e == SfError::InvalidMetadata,
    {
        if buf.len() < LEDGER_LEN {
            return Err(SfError::InvalidMetadata);
        }
        let can_topup = match read_flag(buf, 393) {
            Some(b) => b,
            None => {
                assert(buf@[393] > 1);
                return Err(SfError::InvalidMetadata);
            },
        };
        let cancelable_by_sender = match read_flag(buf, 394) {
            Some(b) => b,
            None => {
                assert(buf@[394] > 1);
                return Err(SfError::InvalidMetadata);
            },
        };
        let cancelable_by_recipient = match read_flag(buf, 395) {
            Some(b) => b,
            None => {
                assert(buf@[395] > 1);
                return Err(SfError::InvalidMetadata);
            },
        };
        let transferable_by_sender = match read_flag(buf, 396) {
            Some(b) => b,
            None => {
                assert(buf@[396] > 1);
                return Err(SfError::InvalidMetadata);
            },
        };
        let transferable_by_recipient = match read_flag(buf, 397) {
            Some(b) => b,
            None => {
                assert(buf@[397] > 1);
                return Err(SfError::InvalidMetadata);
            },
        };
        let c = Contract {
            version: buf[0],
            mint: Address::read_from(buf, 1),
            sender: Address::read_from(buf, 33),
            sender_tokens: Address::read_from(buf, 65),
            recipient: Address::read_from(buf, 97),
            recipient_tokens: Address::read_from(buf, 129),
            escrow_tokens: Address::read_from(buf, 161),
            streamflow_treasury: Address::read_from(buf, 193),
            streamflow_treasury_tokens: Address::read_from(buf, 225),
            partner: Address::read_from(buf, 257),
            partner_tokens: Address::read_from(buf, 289),
            start_time: read_u64(buf, 321),
            end_time: read_u64(buf, 329),
            cliff: read_u64(buf, 337),
            cliff_amount: read_u64(buf, 345),
            amount_per_period: read_u64(buf, 353),
            period: read_u64(buf, 361),
            total_amount: read_u64(buf, 369),
            deposited_amount: read_u64(buf, 377),
            withdrawn_amount: read_u64(buf, 385),
            can_topup,
            cancelable_by_sender,
            cancelable_by_recipient,
            transferable_by_sender,
            transferable_by_recipient,
        };
        assert(c@ == decode_ledger(buf@));
        assert forall|i: int| FLAGS_OFFSET <= i < LEDGER_LEN implies #[trigger] buf@[i] <= 1 by {

            assert(i == 393 || i == 394 || i == 395 || i == 396 || i == 397);
        }
        Ok(c)
    }

    /// The ledger's bytes.
    pub fn encode(&self) -> (r: Vec<u8>)
        ensures
            r@ == encode_ledger(self@),
            r@.len() == LEDGER_LEN,
    {
        let mut out: Vec<u8> = Vec::new();
        out.push(self.version);
        push_address(&mut out, &self.mint);
        push_address(&mut out, &self.sender);
        push_address(&mut out, &self.sender_tokens);
        push_address(&mut out, &self.recipient);
        push_address(&mut out, &self.recipient_tokens);
        push_address(&mut out, &self.escrow_tokens);
        push_address(&mut out, &self.streamflow_treasury);
        push_address(&mut out, &self.streamflow_treasury_tokens);
        push_address(&mut out, &self.partner);
        push_address(&mut out, &self.partner_tokens);
        proof {
            reveal(encode_header);
            lemma_header_parts(self@);
        }
        let mut words: Vec<u8> = Vec::new();
        push_u64(&mut words, self.start_time);
        push_u64(&mut words, self.end_time);
        push_u64(&mut words, self.cliff);
        push_u64(&mut words, self.cliff_amount);
        push_u64(&mut words, self.amount_per_period);
        push_u64(&mut words, self.period);
        push_u64(&mut words, self.total_amount);
        push_u64(&mut words, self.deposited_amount);
        push_u64(&mut words, self.withdrawn_amount);
        proof {
            reveal(encode_words);
            lemma_words_parts(self@);
        }
        out.append(&mut words);
        push_flag(&mut out, self.can_topup);
        push_flag(&mut out, self.cancelable_by_sender);
        push_flag(&mut out, self.cancelable_by_recipient);
        push_flag(&mut out, self.transferable_by_sender);
        push_flag(&mut out, self.transferable_by_recipient);
        assert(out@ =~= encode_ledger(self@));
        out
    }

    /// Writes the ledger over the first bytes of `data`, leaving the rest as it was.
    pub fn persist(&self, data: &mut Vec<u8>)
        requires
            old(data)@.len() >= LEDGER_LEN,
        ensures
            final(data)@ == encode_ledger(self@) + old(data)@.subrange(LEDGER_LEN as int, old(data)@.len() as int),
            is_decodable(final(data)@),
            decode_ledger(final(data)@) == self@,
    {
        let bytes = self.encode();
        let mut i: usize = 0;
        while i < LEDGER_LEN
            invariant
                0 <= i <= LEDGER_LEN,
                bytes@.len() == LEDGER_LEN,
                old(data)@.len() >= LEDGER_LEN,
                data@.len() == old(data)@.len(),
                forall|j: int| 0 <= j < i ==> data@[j] == bytes@[j],
                forall|j: int| i <= j < data@.len() ==> data@[j] == old(data)@[j],
            decreases LEDGER_LEN - i,
        {
            data.set(i, bytes[i]);
            i = i + 1;
        }
        assert(data@ =~= bytes@ + old(data)@.subrange(LEDGER_LEN as int, old(data)@.len() as int));
        proof {
            lemma_decode_encode(self@);
            lemma_decode_ignores_tail(bytes@, old(data)@.subrange(LEDGER_LEN as int, old(data)@.len() as int));
        }
    }

    /// Whether the ledger meets its invariants.
    pub fn is_consistent(&self) -> (r: bool)
        ensures
            r == ledger_wf(self@),
    {
        self.deposited_amount <= self.total_amount && self.withdrawn_amount <= self.deposited_amount
            && self.start_time < self.end_time
    }

    /// Reconciles the tracked deposits with `balance`, the escrow's live
    /// balance: whatever reached the escrow by other paths counts as
    /// deposited. The deposits never shrink, so a balance below what the
    /// ledger tracks cannot be reconciled; neither can one that would push
    /// the deposits past the total. Both fail with `InvalidDeposit` and
    /// change nothing, rather than leave the drift unexamined.
    pub fn sync_balance(&mut self, balance: u64) -> (r: Result<(), SfError>)
        ensures
            r is Ok <==> can_sync(old(self)@, balance),
            r is Ok ==> final(self)@ == synced(old(self)@, balance),
            r is Err ==> r == Err::<(), SfError>(SfError::InvalidDeposit) && final(self)@ == old(self)@,
            ledger_wf(old(self)@) && r is Ok ==> ledger_wf(final(self)@),
    {
        if self.withdrawn_amount > self.deposited_amount {
            return Err(SfError::InvalidDeposit);
        }
        let in_escrow = self.deposited_amount - self.withdrawn_amount;
        if balance < in_escrow || self.withdrawn_amount > self.total_amount
            || balance > self.total_amount - self.withdrawn_amount {
            return Err(SfError::InvalidDeposit);
        }
        self.deposited_amount = self.withdrawn_amount + balance;
        Ok(())
    }

    /// Records `amount` more as deposited, once it was moved into the escrow.
    pub fn deposit(&mut self, amount: u64)
        requires
            old(self).deposited_amount + amount <= old(self).total_amount,
        ensures
            final(self)@ == deposited(old(self)@, amount),
            ledger_wf(old(self)@) ==> ledger_wf(final(self)@),
    {
        self.deposited_amount = self.deposited_amount + amount;
    }

    /// Hands the stream to a new recipient and its token account.
    pub fn set_recipient(&mut self, recipient: Address, recipient_tokens: Address)
        ensures
            final(self)@ == redirected(old(self)@, recipient@, recipient_tokens@),
            ledger_wf(old(self)@) ==> ledger_wf(final(self)@),
    {
        self.recipient = recipient;
        self.recipient_tokens = recipient_tokens;
    }
}

} // verus!
