//! Confirmed transactions as an RPC node reports them, reduced to what the analysis
//! reads.
use vstd::prelude::*;

verus! {

/// A field that a node may give, may give as null, or may leave out.
#[derive(Debug)]
pub enum OptionSerializer<T> {
    Present(T),
    Null,
    Skip,
}

/// How the bytes of a serialized transaction are written as text.
#[derive(Clone, Copy, Debug, PartialEq, Eq, Structural)]
pub enum TransactionBinaryEncoding {
    Base58,
    Base64,
}

/// One entry of an account list that names more than the address.
#[derive(Debug)]
pub struct ParsedAccount {
    pub pubkey: String,
}

#[derive(Debug)]
pub struct UiParsedMessage {
    pub account_keys: Vec<ParsedAccount>,
}

#[derive(Debug)]
pub struct UiRawMessage {
    pub account_keys: Vec<String>,
}

#[derive(Debug)]
pub enum UiMessage {
    Parsed(UiParsedMessage),
    Raw(UiRawMessage),
}

#[derive(Debug)]
pub struct UiTransaction {
    pub signatures: Vec<String>,
    pub message: UiMessage,
}

#[derive(Debug)]
pub struct UiAccountsList {
    pub signatures: Vec<String>,
    pub account_keys: Vec<ParsedAccount>,
}

/// A transaction in one of the encodings that a node answers with.
#[derive(Debug)]
pub enum EncodedTransaction {
    LegacyBinary(String),
    Binary(String, TransactionBinaryEncoding),
    Json(UiTransaction),
    Accounts(UiAccountsList),
}

/// An amount of a token in its smallest unit, written in decimal.
#[derive(Debug)]
pub struct UiTokenAmount {
    pub amount: String,
}

/// What one account held of one token.
#[derive(Debug)]
pub struct UiTransactionTokenBalance {
    pub mint: String,
    pub ui_token_amount: UiTokenAmount,
    pub owner: OptionSerializer<String>,
}

/// What the execution of a transaction reported. A failed transaction carries the text
/// of its error in `status`. The balances are those of the accounts of the
/// transaction, in their order.
#[derive(Debug)]
pub struct UiTransactionStatusMeta {
    pub status: Result<(), String>,
    pub fee: u64,
    pub pre_balances: Vec<u64>,
    pub post_balances: Vec<u64>,
    pub pre_token_balances: OptionSerializer<Vec<UiTransactionTokenBalance>>,
    pub post_token_balances: OptionSerializer<Vec<UiTransactionTokenBalance>>,
}

#[derive(Debug)]
pub struct EncodedTransactionWithStatusMeta {
    pub transaction: EncodedTransaction,
    pub meta: Option<UiTransactionStatusMeta>,
}

/// A transaction with the slot that it was confirmed in.
#[derive(Debug)]
pub struct EncodedConfirmedTransactionWithStatusMeta {
    pub slot: u64,
    pub transaction: EncodedTransactionWithStatusMeta,
}

} // verus!
