//! The payment data model and the transaction builder.

use vstd::prelude::*;
use crate::errors::AppError;

verus! {

/// The network-defined minimum fee for a one-operation transaction, in
/// stroops.
pub const MIN_BASE_FEE: u32 = 100;

/// The protocol ceiling for a text memo, in bytes.
pub const MAX_MEMO_BYTES: usize = 28;

/// An account identified by its raw 32-byte ed25519 public key.
#[derive(Debug)]
pub struct AccountId {
    pub key: Vec<u8>,
}

impl View for AccountId {
    type V = Seq<u8>;

    open spec fn view(&self) -> Seq<u8> {
        self.key@
    }
}

impl AccountId {
    pub open spec fn wf(&self) -> bool {
        self@.len() == 32
    }
}

/// An account's current sequence number, as the gateway reports it.
#[derive(Debug)]
pub struct AccountSequence {
    pub account_id: String,
    pub sequence: i64,
}

impl AccountSequence {
    pub open spec fn wf(&self) -> bool {
        self.sequence >= 0
    }
}

/// Everything a single payment needs, fixed once per run.
#[derive(Debug)]
pub struct PaymentIntent {
    pub sender: AccountId,
    pub receiver: AccountId,
    pub amount: i64,
    pub memo: Vec<u8>,
    pub fee: u32,
}

/// The mathematical content of a `PaymentIntent`.
#[verifier::ext_equal]
pub ghost struct PaymentIntentView {
    pub sender: Seq<u8>,
    pub receiver: Seq<u8>,
    pub amount: i64,
    pub memo: Seq<u8>,
    pub fee: u32,
}

impl View for PaymentIntent {
    type V = PaymentIntentView;

    open spec fn view(&self) -> PaymentIntentView {
        PaymentIntentView {
            sender: self.sender@,
            receiver: self.receiver@,
            amount: self.amount,
            memo: self.memo@,
            fee: self.fee,
        }
    }
}

impl PaymentIntent {
    /// Both keys decoded to their 32 raw bytes.
    pub open spec fn wf(&self) -> bool {
        self.sender.wf() && self.receiver.wf()
    }
}

/// Whether the intent passes the builder's validation.
pub open spec fn intent_valid(i: PaymentIntentView) -> bool {
    i.amount > 0 && i.memo.len() <= MAX_MEMO_BYTES && i.fee >= MIN_BASE_FEE
}

/// A one-payment transaction awaiting its signature.
#[derive(Debug)]
pub struct UnsignedTransaction {
    pub source: AccountId,
    pub sequence: i64,
    pub fee: u32,
    pub destination: AccountId,
    pub amount: i64,
    pub memo: Vec<u8>,
}

/// The mathematical content of an `UnsignedTransaction`.
#[verifier::ext_equal]
pub ghost struct UnsignedTransactionView {
    pub source: Seq<u8>,
    pub sequence: i64,
    pub fee: u32,
    pub destination: Seq<u8>,
    pub amount: i64,
    pub memo: Seq<u8>,
}

impl View for UnsignedTransaction {
    type V = UnsignedTransactionView;

    open spec fn view(&self) -> UnsignedTransactionView {
        UnsignedTransactionView {
            source: self.source@,
            sequence: self.sequence,
            fee: self.fee,
            destination: self.destination@,
            amount: self.amount,
            memo: self.memo@,
        }
    }
}

/// What every built transaction satisfies: decoded keys, a non-negative
/// sequence, a positive amount, a memo within the protocol ceiling, and at
/// least the minimum fee.
pub open spec fn tx_wf(t: UnsignedTransactionView) -> bool {
    &&& t.source.len() == 32
    &&& t.destination.len() == 32
    &&& t.sequence >= 0
    &&& t.amount > 0
    &&& t.memo.len() <= MAX_MEMO_BYTES
    &&& t.fee >= MIN_BASE_FEE
}

/// The one transaction `build` produces from `intent` at `fetched`: the
/// intent's payment under sequence `fetched + 1`.
pub open spec fn built_tx(i: PaymentIntentView, fetched: i64) -> UnsignedTransactionView
    recommends
        fetched < i64::MAX,
{
    UnsignedTransactionView {
        source: i.sender,
        sequence: (fetched + 1) as i64,
        fee: i.fee,
        destination: i.receiver,
        amount: i.amount,
        memo: i.memo,
    }
}

/// Copies a 32-byte account id.
fn dup_account(a: &AccountId) -> (r: AccountId)
    ensures
        r@ == a@,
{
    AccountId { key: vstd::slice::slice_to_vec(a.key.as_slice()) }
}

/// Assembles the unsigned transaction for `intent` at the fetched sequence
/// number, or rejects the intent.
///
/// The sequence of the result is always the fetched sequence plus one --
/// the sole replay-prevention mechanism -- and is never caller-supplied.
/// An amount that is not positive, a memo over the protocol ceiling, or a
/// fee below the network minimum is rejected, never truncated, and no
/// other intent is.
pub fn build(intent: &PaymentIntent, fetched: &AccountSequence) -> (r: Result<
    UnsignedTransaction,
    AppError,
>)
    requires
        intent.wf(),
        fetched.wf(),
        fetched.sequence < i64::MAX,
    ensures
        r is Ok <==> intent_valid(intent@),
        (r matches Ok(tx) ==> tx@ == built_tx(intent@, fetched.sequence) && tx_wf(tx@)
            && tx@.sequence == fetched.sequence + 1),
        intent@.amount <= 0 ==> (r matches Err(e) && e matches AppError::ConfigError { message }
            && message@ == "invalid amount: must be positive"@),
        intent@.amount > 0 && intent@.memo.len() > MAX_MEMO_BYTES ==> (r matches Err(e)
            && e matches AppError::ConfigError { message } && message@
            == "invalid memo: longer than 28 bytes"@),
        intent@.amount > 0 && intent@.memo.len() <= MAX_MEMO_BYTES && intent@.fee < MIN_BASE_FEE
            ==> (r matches Err(e) && e matches AppError::ConfigError { message } && message@
            == "invalid fee: below network minimum"@),
{
    if intent.amount <= 0 {
        return Err(AppError::ConfigError { message: "invalid amount: must be positive".to_owned() },
        );
    }
    if intent.memo.len() > MAX_MEMO_BYTES {
        return Err(AppError::ConfigError { message: "invalid memo: longer than 28 bytes".to_owned() },
        );
    }
    if intent.fee < MIN_BASE_FEE {
        return Err(AppError::ConfigError { message: "invalid fee: below network minimum".to_owned() },
        );
    }
    let tx = UnsignedTransaction {
        source: dup_account(&intent.sender),
        sequence: fetched.sequence + 1,
        fee: intent.fee,
        destination: dup_account(&intent.receiver),
        amount: intent.amount,
        memo: vstd::slice::slice_to_vec(intent.memo.as_slice()),
    };
    assert(tx@ =~= built_tx(intent@, fetched.sequence));
    Ok(tx)
}

} // verus!
