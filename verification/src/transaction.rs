//! The unsigned transaction record and its canonical byte encoding.
//!
//! The canonical encoding is the wire contract for "what was signed": fields in
//! a fixed order (sender, recipient, amount, nonce), variable-length fields
//! behind an 8-byte little-endian length prefix, integers as 8-byte
//! little-endian words. The encoding is pure and injective on well-formed
//! transactions, so byte-identical encodings mean equal transactions.

use vstd::bytes::*;
use vstd::prelude::*;

verus! {

/// A transaction whose canonical encoding is impossible: a required field is
/// absent. Raised before any cryptographic work is attempted.
#[derive(Clone, Copy, Debug, PartialEq, Eq, Structural)]
pub enum MalformedTransactionError {
    MissingSender,
    MissingRecipient,
    MissingAmount,
    MissingNonce,
}

/// The unsigned transaction payload. Every field is required; a `None` field
/// makes the transaction malformed. All values are fully contained: nothing
/// depends on a clock or any other environment at encoding time.
pub struct RawTransaction {
    /// Identity of the originator, as protocol-defined bytes.
    pub sender: Option<Vec<u8>>,
    /// Identity of the receiver, as protocol-defined bytes.
    pub recipient: Option<Vec<u8>>,
    /// Amount transferred; unsigned by protocol rule.
    pub amount: Option<u64>,
    /// Replay-protection counter chosen by the producer.
    pub nonce: Option<u64>,
}

/// The mathematical model of a transaction: the same four fields with byte
/// strings abstracted to sequences.
#[verifier::ext_equal]
pub ghost struct TxView {
    pub sender: Option<Seq<u8>>,
    pub recipient: Option<Seq<u8>>,
    pub amount: Option<u64>,
    pub nonce: Option<u64>,
}

impl View for RawTransaction {
    type V = TxView;

    open spec fn view(&self) -> TxView {
        TxView {
            sender: match self.sender {
                Some(s) => Some(s@),
                None => None,
            },
            recipient: match self.recipient {
                Some(r) => Some(r@),
                None => None,
            },
            amount: self.amount,
            nonce: self.nonce,
        }
    }
}

/// A transaction is well formed when every required field is present and each
/// variable-length field is short enough for its 8-byte length prefix.
pub open spec fn is_well_formed(t: TxView) -> bool {
    &&& t.sender matches Some(s) && s.len() <= u64::MAX
    &&& t.recipient matches Some(r) && r.len() <= u64::MAX
    &&& t.amount is Some
    &&& t.nonce is Some
}

/// The error that canonicalization reports for a malformed transaction: the
/// first absent field in canonical field order.
pub open spec fn malformed_of(t: TxView) -> MalformedTransactionError
    recommends
        !is_well_formed(t),
{
    if t.sender is None {
        MalformedTransactionError::MissingSender
    } else if t.recipient is None {
        MalformedTransactionError::MissingRecipient
    } else if t.amount is None {
        MalformedTransactionError::MissingAmount
    } else {
        MalformedTransactionError::MissingNonce
    }
}

/// A variable-length field on the wire: its length as an 8-byte little-endian
/// prefix, then its bytes.
pub open spec fn length_prefixed(b: Seq<u8>) -> Seq<u8>
    recommends
        b.len() <= u64::MAX,
{
    spec_u64_to_le_bytes(b.len() as u64) + b
}

/// The canonical bytes of a well-formed transaction: length-prefixed sender,
/// length-prefixed recipient, amount, nonce.
pub open spec fn canonical_bytes(t: TxView) -> Seq<u8>
    recommends
        is_well_formed(t),
{
    match (t.sender, t.recipient, t.amount, t.nonce) {
        (Some(s), Some(r), Some(a), Some(n)) => length_prefixed(s) + (length_prefixed(r) + (
        spec_u64_to_le_bytes(a) + spec_u64_to_le_bytes(n))),
        _ => Seq::empty(),
    }
}

/// Appends every byte of `b` to `out`.
fn append_bytes(out: &mut Vec<u8>, b: &Vec<u8>)
    ensures
        final(out)@ == old(out)@ + b@,
{
    let mut i: usize = 0;
    while i < b.len()
        invariant
            i <= b@.len(),
            out@ == old(out)@ + b@.subrange(0, i as int),
        decreases b@.len() - i,
    {
        out.push(b[i]);
        i = i + 1;
        proof {
            assert(out@ =~= old(out)@ + b@.subrange(0, i as int));
        }
    }
    proof {
        assert(out@ =~= old(out)@ + b@);
    }
}

/// Deterministically encodes a transaction into the byte sequence that is
/// signed and verified. Succeeds exactly on well-formed transactions; a
/// malformed transaction is reported as the first absent field, and no bytes
/// are produced for it.
pub fn canonicalize(t: &RawTransaction) -> (r: Result<Vec<u8>, MalformedTransactionError>)
    ensures
        r is Ok <==> is_well_formed(t@),
        r matches Ok(bytes) ==> bytes@ == canonical_bytes(t@),
        r matches Err(e) ==> e == malformed_of(t@),
{
    let sender = match &t.sender {
        Some(s) => s,
        None => {
            return Err(MalformedTransactionError::MissingSender);
        },
    };
    let recipient = match &t.recipient {
        Some(r) => r,
        None => {
            return Err(MalformedTransactionError::MissingRecipient);
        },
    };
    let amount = match t.amount {
        Some(a) => a,
        None => {
            return Err(MalformedTransactionError::MissingAmount);
        },
    };
    let nonce = match t.nonce {
        Some(n) => n,
        None => {
            return Err(MalformedTransactionError::MissingNonce);
        },
    };
    let mut out: Vec<u8> = Vec::new();
    let mut sender_len = u64_to_le_bytes(sender.len() as u64);
    out.append(&mut sender_len);
    append_bytes(&mut out, sender);
    let mut recipient_len = u64_to_le_bytes(recipient.len() as u64);
    out.append(&mut recipient_len);
    append_bytes(&mut out, recipient);
    let mut amount_bytes = u64_to_le_bytes(amount);
    out.append(&mut amount_bytes);
    let mut nonce_bytes = u64_to_le_bytes(nonce);
    out.append(&mut nonce_bytes);
    proof {
        assert(out@ =~= canonical_bytes(t@));
    }
    Ok(out)
}

/// Canonicalization is deterministic: one transaction has one canonical
/// encoding, so encoding it twice yields identical bytes.
pub proof fn lemma_canonical_deterministic(t1: TxView, t2: TxView)
    requires
        t1 == t2,
    ensures
        canonical_bytes(t1) == canonical_bytes(t2),
{
}

/// A length-prefixed field determines itself and whatever follows it: equal
/// encodings split at the same place into equal parts.
proof fn lemma_length_prefixed_splits(b1: Seq<u8>, x1: Seq<u8>, b2: Seq<u8>, x2: Seq<u8>)
    requires
        b1.len() <= u64::MAX,
        b2.len() <= u64::MAX,
        length_prefixed(b1) + x1 == length_prefixed(b2) + x2,
    ensures
        b1 == b2,
        x1 == x2,
{
    lemma_auto_spec_u64_to_from_le_bytes();
    let c = length_prefixed(b1) + x1;
    assert(c.subrange(0, 8) =~= spec_u64_to_le_bytes(b1.len() as u64));
    assert(c.subrange(0, 8) =~= spec_u64_to_le_bytes(b2.len() as u64));
    assert(spec_u64_from_le_bytes(spec_u64_to_le_bytes(b1.len() as u64)) == b1.len() as u64);
    assert(spec_u64_from_le_bytes(spec_u64_to_le_bytes(b2.len() as u64)) == b2.len() as u64);
    assert(b1.len() == b2.len());
    assert(c.subrange(8, 8 + b1.len() as int) =~= b1);
    assert(c.subrange(8, 8 + b2.len() as int) =~= b2);
    assert(x1 =~= c.subrange(8 + b1.len() as int, c.len() as int));
    assert(x2 =~= c.subrange(8 + b2.len() as int, c.len() as int));
}

/// The canonical encoding is injective on well-formed transactions: distinct
/// transactions have distinct canonical bytes, so tampering with any field
/// changes the message that was signed.
pub proof fn lemma_canonical_injective(t1: TxView, t2: TxView)
    requires
        is_well_formed(t1),
        is_well_formed(t2),
        canonical_bytes(t1) == canonical_bytes(t2),
    ensures
        t1 == t2,
{
    lemma_auto_spec_u64_to_from_le_bytes();
    let s1 = t1.sender->Some_0;
    let r1 = t1.recipient->Some_0;
    let a1 = t1.amount->Some_0;
    let n1 = t1.nonce->Some_0;
    let s2 = t2.sender->Some_0;
    let r2 = t2.recipient->Some_0;
    let a2 = t2.amount->Some_0;
    let n2 = t2.nonce->Some_0;
    let tail1 = spec_u64_to_le_bytes(a1) + spec_u64_to_le_bytes(n1);
    let tail2 = spec_u64_to_le_bytes(a2) + spec_u64_to_le_bytes(n2);
    lemma_length_prefixed_splits(
        s1,
        length_prefixed(r1) + tail1,
        s2,
        length_prefixed(r2) + tail2,
    );
    lemma_length_prefixed_splits(r1, tail1, r2, tail2);
    assert(tail1.subrange(0, 8) =~= spec_u64_to_le_bytes(a1));
    assert(tail2.subrange(0, 8) =~= spec_u64_to_le_bytes(a2));
    assert(tail1.subrange(8, 16) =~= spec_u64_to_le_bytes(n1));
    assert(tail2.subrange(8, 16) =~= spec_u64_to_le_bytes(n2));
    assert(spec_u64_from_le_bytes(spec_u64_to_le_bytes(a1)) == a1);
    assert(spec_u64_from_le_bytes(spec_u64_to_le_bytes(n1)) == n1);
    assert(t1 =~= t2);
}

/// Tampering is detectable at the encoding: changing any field of a
/// well-formed transaction changes its canonical bytes, and with them the
/// message a signature is checked against.
pub proof fn lemma_tamper_changes_canonical_bytes(t1: TxView, t2: TxView)
    requires
        is_well_formed(t1),
        is_well_formed(t2),
        t1 != t2,
    ensures
        canonical_bytes(t1) != canonical_bytes(t2),
{
    if canonical_bytes(t1) == canonical_bytes(t2) {
        lemma_canonical_injective(t1, t2);
    }
}

} // verus!
