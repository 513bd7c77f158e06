//! The wire form of a transaction: XDR encoding, the network-separated
//! signature, and decoding back from the bytes.
//!
//! Layout (all integers big-endian, per XDR): a `TransactionV1Envelope`
//! holding one payment operation, a text memo, no preconditions, and
//! exactly one decorated signature.

use vstd::prelude::*;
use crate::codec::{
    be_to_u32,
    be_to_u64,
    push_bytes,
    push_u32_be,
    push_u64_be,
    push_zeros,
    read_bytes,
    read_u32_be,
    read_u64_be,
    u32_be,
    u64_be,
    zeros,
};
use crate::errors::AppError;
use crate::keys::{
    derive_public_key,
    ed25519_sig,
    seed_public_key,
    seed_valid,
    sha256,
    sha256_of,
    sign_with_seed,
};
use crate::tx::{built_tx, intent_valid, tx_wf, PaymentIntentView, UnsignedTransaction,
    UnsignedTransactionView};

verus! {

/// XDR pads an opaque run out to a multiple of four bytes.
pub open spec fn pad4(n: nat) -> nat {
    if n % 4 == 0 {
        0
    } else {
        (4 - n % 4) as nat
    }
}

/// The fixed bytes before the memo text: source account discriminant and
/// key, fee, sequence, no preconditions, text-memo discriminant, memo
/// length.
pub open spec fn tx_prefix(t: UnsignedTransactionView) -> Seq<u8> {
    u32_be(0) + t.source + u32_be(t.fee) + u64_be(t.sequence as u64) + u32_be(0) + u32_be(1)
        + u32_be(t.memo.len() as u32)
}

/// The fixed bytes after the memo: one operation with no sub-source, the
/// payment body (destination, native asset, amount), and an empty
/// extension.
pub open spec fn tx_suffix(t: UnsignedTransactionView) -> Seq<u8> {
    u32_be(1) + u32_be(0) + u32_be(1) + u32_be(0) + t.destination + u32_be(0) + u64_be(
        t.amount as u64,
    ) + u32_be(0)
}

/// The canonical XDR bytes of an unsigned transaction.
pub open spec fn tx_bytes(t: UnsignedTransactionView) -> Seq<u8> {
    tx_prefix(t) + t.memo + zeros(pad4(t.memo.len())) + tx_suffix(t)
}

/// What is hashed and signed: the network id, the transaction envelope
/// type tag, and the transaction bytes. Binding the network id makes a
/// signature for one network invalid on any other.
pub open spec fn signature_base(network_id: Seq<u8>, t: UnsignedTransactionView) -> Seq<u8> {
    network_id + u32_be(2) + tx_bytes(t)
}

/// A signed, wire-ready transaction envelope: the transaction plus exactly
/// one decorated signature.
#[derive(Debug)]
pub struct SignedEnvelope {
    pub tx: UnsignedTransaction,
    pub hint: Vec<u8>,
    pub signature: Vec<u8>,
}

/// The mathematical content of a `SignedEnvelope`.
#[verifier::ext_equal]
pub ghost struct SignedEnvelopeView {
    pub tx: UnsignedTransactionView,
    pub hint: Seq<u8>,
    pub signature: Seq<u8>,
}

impl View for SignedEnvelope {
    type V = SignedEnvelopeView;

    open spec fn view(&self) -> SignedEnvelopeView {
        SignedEnvelopeView { tx: self.tx@, hint: self.hint@, signature: self.signature@ }
    }
}

/// A well-formed envelope: a well-formed transaction, a 4-byte signature
/// hint and a 64-byte ed25519 signature.
pub open spec fn env_wf(e: SignedEnvelopeView) -> bool {
    tx_wf(e.tx) && e.hint.len() == 4 && e.signature.len() == 64
}

/// The canonical XDR bytes of a signed envelope.
pub open spec fn envelope_bytes(e: SignedEnvelopeView) -> Seq<u8> {
    tx_bytes(e.tx) + u32_be(1) + e.hint + u32_be(64) + e.signature
}

/// Reads a signed envelope back from its canonical XDR bytes. Yields
/// nothing unless the bytes are exactly the encoding of a well-formed
/// envelope.
pub open spec fn parse_envelope(s: Seq<u8>) -> Option<SignedEnvelopeView> {
    if s.len() < 60 {
        None
    } else {
        let ml = be_to_u32(s.subrange(56, 60)) as int;
        let p = pad4(ml as nat) as int;
        let o = 60 + ml + p;
        if ml > 28 || s.len() != o + 140 {
            None
        } else if s.subrange(0, 4) != u32_be(0) || s.subrange(48, 52) != u32_be(0) || s.subrange(
            52,
            56,
        ) != u32_be(1) || s.subrange(60 + ml, o) != zeros((p) as nat) || s.subrange(o, o + 4)
            != u32_be(1) || s.subrange(o + 4, o + 8) != u32_be(0) || s.subrange(o + 8, o + 12)
            != u32_be(1) || s.subrange(o + 12, o + 16) != u32_be(0) || s.subrange(o + 48, o + 52)
            != u32_be(0) || s.subrange(o + 60, o + 64) != u32_be(0) || s.subrange(o + 64, o + 68)
            != u32_be(1) || s.subrange(o + 72, o + 76) != u32_be(64) {
            None
        } else {
            let fee = be_to_u32(s.subrange(36, 40));
            let seq64 = be_to_u64(s.subrange(40, 48));
            let amt64 = be_to_u64(s.subrange(o + 52, o + 60));
            if fee < 100 || seq64 >= 0x8000000000000000u64 || amt64 == 0 || amt64
                >= 0x8000000000000000u64 {
                None
            } else {
                Some(
                    SignedEnvelopeView {
                        tx: UnsignedTransactionView {
                            source: s.subrange(4, 36),
                            sequence: seq64 as i64,
                            fee: fee,
                            destination: s.subrange(o + 16, o + 48),
                            amount: amt64 as i64,
                            memo: s.subrange(60, 60 + ml),
                        },
                        hint: s.subrange(o + 68, o + 72),
                        signature: s.subrange(o + 76, o + 140),
                    },
                )
            }
        }
    }
}

/// Decoding the canonical bytes of a well-formed envelope recovers the
/// envelope -- destination, amount, asset, memo, sequence and all.
#[verifier::rlimit(60)]
pub proof fn lemma_envelope_roundtrip(e: SignedEnvelopeView)
    requires
        env_wf(e),
    ensures
        parse_envelope(envelope_bytes(e)) == Some(e),
{
    let s = envelope_bytes(e);
    let t = e.tx;
    let m = t.memo.len() as int;
    let p = pad4(t.memo.len()) as int;
    let o = 60 + m + p;
    assert(tx_prefix(t).len() == 60);
    assert(tx_suffix(t).len() == 64);
    assert(tx_bytes(t).len() == 124 + m + p);
    assert(s.len() == 200 + m + p);
    assert(s.subrange(56, 60) =~= u32_be(t.memo.len() as u32));
    crate::codec::lemma_u32_be_roundtrip(t.memo.len() as u32);
    assert(be_to_u32(s.subrange(56, 60)) as int == m);
    assert(s.subrange(0, 4) =~= u32_be(0));
    assert(s.subrange(4, 36) =~= t.source);
    assert(s.subrange(36, 40) =~= u32_be(t.fee));
    assert(s.subrange(40, 48) =~= u64_be(t.sequence as u64));
    assert(s.subrange(48, 52) =~= u32_be(0));
    assert(s.subrange(52, 56) =~= u32_be(1));
    assert(s.subrange(60, 60 + m) =~= t.memo);
    assert(s.subrange(60 + m, o) =~= zeros(p as nat));
    assert(s.subrange(o, o + 4) =~= u32_be(1));
    assert(s.subrange(o + 4, o + 8) =~= u32_be(0));
    assert(s.subrange(o + 8, o + 12) =~= u32_be(1));
    assert(s.subrange(o + 12, o + 16) =~= u32_be(0));
    assert(s.subrange(o + 16, o + 48) =~= t.destination);
    assert(s.subrange(o + 48, o + 52) =~= u32_be(0));
    assert(s.subrange(o + 52, o + 60) =~= u64_be(t.amount as u64));
    assert(s.subrange(o + 60, o + 64) =~= u32_be(0));
    assert(s.subrange(o + 64, o + 68) =~= u32_be(1));
    assert(s.subrange(o + 68, o + 72) =~= e.hint);
    assert(s.subrange(o + 72, o + 76) =~= u32_be(64));
    assert(s.subrange(o + 76, o + 140) =~= e.signature);
    crate::codec::lemma_u32_be_roundtrip(t.fee);
    crate::codec::lemma_u64_be_roundtrip(t.sequence as u64);
    crate::codec::lemma_u64_be_roundtrip(t.amount as u64);
    let d = parse_envelope(s).unwrap();
    assert(d.tx =~= t);
    assert(d =~= e);
}

/// A successful parse is exact: the envelope read out of the bytes is
/// well formed and the bytes are precisely its canonical encoding.
#[verifier::rlimit(60)]
pub proof fn lemma_parse_sound(s: Seq<u8>)
    requires
        parse_envelope(s) is Some,
    ensures
        env_wf(parse_envelope(s).unwrap()),
        envelope_bytes(parse_envelope(s).unwrap()) == s,
{
    let e = parse_envelope(s).unwrap();
    let ml = be_to_u32(s.subrange(56, 60)) as int;
    let p = pad4(ml as nat) as int;
    let o = 60 + ml + p;
    crate::codec::lemma_u32_bytes_roundtrip(s.subrange(36, 40));
    crate::codec::lemma_u64_bytes_roundtrip(s.subrange(40, 48));
    crate::codec::lemma_u64_bytes_roundtrip(s.subrange(o + 52, o + 60));
    crate::codec::lemma_u32_bytes_roundtrip(s.subrange(56, 60));
    assert(e.tx.memo.len() == ml);
    assert(env_wf(e));
    assert(tx_prefix(e.tx) =~= s.subrange(0, 60));
    assert(tx_suffix(e.tx) =~= s.subrange(o, o + 64));
    assert(tx_bytes(e.tx) =~= s.subrange(0, o + 64));
    assert(envelope_bytes(e) =~= s);
}

/// The canonical encoding is injective on well-formed envelopes:
/// byte-identical wire forms carry identical transactions and signatures.
pub proof fn lemma_envelope_bytes_injective(e1: SignedEnvelopeView, e2: SignedEnvelopeView)
    requires
        env_wf(e1),
        env_wf(e2),
        envelope_bytes(e1) == envelope_bytes(e2),
    ensures
        e1 == e2,
{
    lemma_envelope_roundtrip(e1);
    lemma_envelope_roundtrip(e2);
}

/// The base64 wire text of an envelope.
pub open spec fn base64_of_envelope(e: SignedEnvelopeView) -> Seq<u8> {
    crate::base64::base64_of(envelope_bytes(e))
}

/// The canonical wire text of a signed envelope: the base64 of its XDR
/// bytes, as ASCII bytes.
pub fn envelope_wire(env: &SignedEnvelope) -> (r: Vec<u8>)
    requires
        env_wf(env@),
    ensures
        r@ == base64_of_envelope(env@),
{
    let bytes = encode_envelope(env);
    crate::base64::base64_encode(&bytes)
}

/// Building at a fetched sequence and signing yields an envelope whose
/// decoded sequence is the fetched sequence plus one: the envelope decodes
/// to itself, and the transaction it carries is the built one.
pub proof fn lemma_signed_sequence(i: PaymentIntentView, fetched: i64, e: SignedEnvelopeView)
    requires
        i.sender.len() == 32,
        i.receiver.len() == 32,
        intent_valid(i),
        0 <= fetched < i64::MAX,
        e.tx == built_tx(i, fetched),
        e.hint.len() == 4,
        e.signature.len() == 64,
    ensures
        parse_envelope(envelope_bytes(e)) == Some(e),
        parse_envelope(envelope_bytes(e)).unwrap().tx.sequence == fetched + 1,
{
    lemma_envelope_roundtrip(e);
}

/// Two builds from one intent at one fetched sequence yield byte-identical
/// unsigned transactions.
pub proof fn lemma_build_idempotent(i1: PaymentIntentView, f1: i64, i2: PaymentIntentView, f2: i64)
    requires
        i1 == i2,
        f1 == f2,
    ensures
        tx_bytes(built_tx(i1, f1)) == tx_bytes(built_tx(i2, f2)),
{
}

/// Decodes a signed envelope from its canonical XDR bytes, exactly as
/// `parse_envelope` reads them.
#[verifier::loop_isolation(false)]
pub fn decode_envelope(bytes: &Vec<u8>) -> (r: Option<SignedEnvelope>)
    ensures
        (r matches Some(env) ==> parse_envelope(bytes@) == Some(env@) && env_wf(env@)),
        (r is None ==> parse_envelope(bytes@) is None),
{
    let n = bytes.len();
    if n < 60 {
        return None;
    }
    let mlw = read_u32_be(bytes, 56);
    if mlw > 28 {
        return None;
    }
    let ml = mlw as usize;
    let pad = if ml % 4 == 0 {
        0
    } else {
        4 - ml % 4
    };
    let o = 60 + ml + pad;
    proof {
        assert(pad == pad4(ml as nat));
    }
    if n != o + 140 {
        return None;
    }
    proof {
        crate::codec::lemma_u32_bytes_roundtrip(bytes@.subrange(0, 4));
        crate::codec::lemma_u32_bytes_roundtrip(bytes@.subrange(48, 52));
        crate::codec::lemma_u32_bytes_roundtrip(bytes@.subrange(52, 56));
        crate::codec::lemma_u32_bytes_roundtrip(bytes@.subrange(o as int, o + 4));
        crate::codec::lemma_u32_bytes_roundtrip(bytes@.subrange(o + 4, o + 8));
        crate::codec::lemma_u32_bytes_roundtrip(bytes@.subrange(o + 8, o + 12));
        crate::codec::lemma_u32_bytes_roundtrip(bytes@.subrange(o + 12, o + 16));
        crate::codec::lemma_u32_bytes_roundtrip(bytes@.subrange(o + 48, o + 52));
        crate::codec::lemma_u32_bytes_roundtrip(bytes@.subrange(o + 60, o + 64));
        crate::codec::lemma_u32_bytes_roundtrip(bytes@.subrange(o + 64, o + 68));
        crate::codec::lemma_u32_bytes_roundtrip(bytes@.subrange(o + 72, o + 76));
        crate::codec::lemma_u32_be_roundtrip(0);
        crate::codec::lemma_u32_be_roundtrip(1);
        crate::codec::lemma_u32_be_roundtrip(64);
    }
    if read_u32_be(bytes, 0) != 0 {
        return None;
    }
    if read_u32_be(bytes, 48) != 0 {
        return None;
    }
    if read_u32_be(bytes, 52) != 1 {
        return None;
    }
    let mut i: usize = 0;
    while i < pad
        invariant
            i <= pad,
            60 + ml + pad + 140 == n == bytes@.len(),
            forall|j: int| 0 <= j < i ==> #[trigger] bytes@[60 + ml + j] == 0,
        decreases pad - i,
    {
        if bytes[60 + ml + i] != 0 {
            assert(bytes@.subrange(60 + ml, 60 + ml + pad) != zeros(pad as nat)) by {
                assert(bytes@.subrange(60 + ml, 60 + ml + pad)[i as int] == bytes@[60 + ml
                    + i as int]);
                assert(zeros(pad as nat)[i as int] == 0);
            }
            return None;
        }
        i = i + 1;
    }
    assert(bytes@.subrange(60 + ml, 60 + ml + pad) =~= zeros(pad as nat)) by {
        assert forall|k: int| 0 <= k < pad implies #[trigger] bytes@.subrange(
            60 + ml,
            60 + ml + pad,
        )[k] == 0 by {
            assert(bytes@.subrange(60 + ml, 60 + ml + pad)[k] == bytes@[60 + ml + k]);
        }
    }
    if read_u32_be(bytes, o) != 1 {
        return None;
    }
    if read_u32_be(bytes, o + 4) != 0 {
        return None;
    }
    if read_u32_be(bytes, o + 8) != 1 {
        return None;
    }
    if read_u32_be(bytes, o + 12) != 0 {
        return None;
    }
    if read_u32_be(bytes, o + 48) != 0 {
        return None;
    }
    if read_u32_be(bytes, o + 60) != 0 {
        return None;
    }
    if read_u32_be(bytes, o + 64) != 1 {
        return None;
    }
    if read_u32_be(bytes, o + 72) != 64 {
        return None;
    }
    let fee = read_u32_be(bytes, 36);
    if fee < 100 {
        return None;
    }
    let seqw = read_u64_be(bytes, 40);
    if seqw >= 0x8000000000000000u64 {
        return None;
    }
    let amtw = read_u64_be(bytes, o + 52);
    if amtw == 0 || amtw >= 0x8000000000000000u64 {
        return None;
    }
    let source = read_bytes(bytes, 4, 32);
    let memo = read_bytes(bytes, 60, ml);
    let dest = read_bytes(bytes, o + 16, 32);
    let hint = read_bytes(bytes, o + 68, 4);
    let sig = read_bytes(bytes, o + 76, 64);
    let env = SignedEnvelope {
        tx: UnsignedTransaction {
            source: crate::tx::AccountId { key: source },
            sequence: seqw as i64,
            fee,
            destination: crate::tx::AccountId { key: dest },
            amount: amtw as i64,
            memo,
        },
        hint,
        signature: sig,
    };
    proof {
        let d = parse_envelope(bytes@).unwrap();
        assert(d.tx =~= env@.tx);
        assert(d =~= env@);
    }
    Some(env)
}

/// Encodes an unsigned transaction to its canonical XDR bytes.
pub fn encode_tx(tx: &UnsignedTransaction) -> (r: Vec<u8>)
    requires
        tx_wf(tx@),
    ensures
        r@ == tx_bytes(tx@),
{
    let mut out: Vec<u8> = Vec::new();
    push_u32_be(&mut out, 0);
    push_bytes(&mut out, &tx.source.key);
    push_u32_be(&mut out, tx.fee);
    push_u64_be(&mut out, tx.sequence as u64);
    push_u32_be(&mut out, 0);
    push_u32_be(&mut out, 1);
    push_u32_be(&mut out, tx.memo.len() as u32);
    push_bytes(&mut out, &tx.memo);
    let m = tx.memo.len();
    let pad = if m % 4 == 0 {
        0
    } else {
        4 - m % 4
    };
    push_zeros(&mut out, pad);
    push_u32_be(&mut out, 1);
    push_u32_be(&mut out, 0);
    push_u32_be(&mut out, 1);
    push_u32_be(&mut out, 0);
    push_bytes(&mut out, &tx.destination.key);
    push_u32_be(&mut out, 0);
    push_u64_be(&mut out, tx.amount as u64);
    push_u32_be(&mut out, 0);
    assert(out@ =~= tx_bytes(tx@));
    out
}

/// Encodes a signed envelope to its canonical XDR bytes.
pub fn encode_envelope(env: &SignedEnvelope) -> (r: Vec<u8>)
    requires
        env_wf(env@),
    ensures
        r@ == envelope_bytes(env@),
{
    let mut out = encode_tx(&env.tx);
    push_u32_be(&mut out, 1);
    push_bytes(&mut out, &env.hint);
    push_u32_be(&mut out, 64);
    push_bytes(&mut out, &env.signature);
    assert(out@ =~= envelope_bytes(env@));
    out
}

/// Builds the signature base for `tx` on the network identified by
/// `network_id`.
pub fn signature_payload(network_id: &Vec<u8>, tx: &UnsignedTransaction) -> (r: Vec<u8>)
    requires
        tx_wf(tx@),
    ensures
        r@ == signature_base(network_id@, tx@),
{
    let mut out: Vec<u8> = Vec::new();
    push_bytes(&mut out, network_id);
    push_u32_be(&mut out, 2);
    let txb = encode_tx(tx);
    push_bytes(&mut out, &txb);
    assert(out@ =~= signature_base(network_id@, tx@));
    out
}

/// Signs `tx` for the network identified by `network_id` with the seed's
/// key pair and wraps it into an envelope with exactly one signature.
///
/// A malformed seed is rejected; a valid seed always yields the envelope
/// whose signature is the seed's ed25519 signature over the SHA-256 hash
/// of the signature base, and whose hint is the last four bytes of the
/// seed's public key.
pub fn sign_transaction(tx: UnsignedTransaction, secret: &str, network_id: &Vec<u8>) -> (r: Result<
    SignedEnvelope,
    AppError,
>)
    requires
        tx_wf(tx@),
        network_id@.len() == 32,
    ensures
        r is Ok <==> seed_valid(secret@),
        (r matches Ok(env) ==> env@.tx == tx@ && env_wf(env@) && env@.signature == ed25519_sig(
            secret@,
            sha256_of(signature_base(network_id@, tx@)),
        ) && env@.hint == seed_public_key(secret@).unwrap().subrange(28, 32)),
        (r matches Err(e) ==> e matches AppError::CryptoError { message } && message@
            == "invalid secret seed"@),
{
    let pk = match derive_public_key(secret) {
        Some(pk) => pk,
        None => {
            return Err(AppError::CryptoError { message: "invalid secret seed".to_owned() });
        },
    };
    let payload = signature_payload(network_id, &tx);
    let tx_hash = sha256(&payload);
    let signature = match sign_with_seed(secret, &tx_hash) {
        Some(s) => s,
        None => {
            return Err(AppError::CryptoError { message: "invalid secret seed".to_owned() });
        },
    };
    let hint = read_bytes(&pk, 28, 4);
    Ok(SignedEnvelope { tx, hint, signature })
}

} // verus!
