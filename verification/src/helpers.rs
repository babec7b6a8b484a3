//! What can be read off an encoded transaction: its hash, its accounts, its fee payer.
use solana_transaction_status::{
    EncodedTransaction as RpcTransaction, TransactionBinaryEncoding as RpcEncoding,
};
use vstd::prelude::*;

use crate::keys::{
    parse_pubkey, parse_signature, parsed_pubkey, parsed_signature, pubkey_text, signature_text,
    Pubkey, Signature,
};
use crate::transaction::{
    EncodedTransaction, OptionSerializer, ParsedAccount, TransactionBinaryEncoding, UiAccountsList,
    UiMessage, UiParsedMessage, UiRawMessage, UiTransaction,
};

verus! {

/// The value of a field, `None` where it is null or left out.
pub open spec fn given<T>(input: OptionSerializer<T>) -> Option<T> {
    match input {
        OptionSerializer::Present(inner) => Some(inner),
        OptionSerializer::Null => None,
        OptionSerializer::Skip => None,
    }
}

/// Takes the value out of a field that may be null or left out.
pub fn option_ser_to_option<T>(input: OptionSerializer<T>) -> (output: Option<T>)
    ensures
        output == given(input),
        input matches OptionSerializer::Present(value) ==> output == Some(value),
        !(input is Present) ==> output is None,
{
    match input {
        OptionSerializer::Present(inner) => Some(inner),
        _ => None,
    }
}

/// A binary transaction once decoded.
#[derive(Debug)]
pub struct DecodedTransaction {
    pub signatures: Vec<Signature>,
    pub account_keys: Vec<Pubkey>,
}

/// The contents of a `DecodedTransaction`.
#[verifier::ext_equal]
pub struct DecodedTransactionView {
    pub signatures: Seq<Signature>,
    pub account_keys: Seq<Pubkey>,
}

impl View for DecodedTransaction {
    type V = DecodedTransactionView;

    open spec fn view(&self) -> DecodedTransactionView {
        DecodedTransactionView {
            signatures: self.signatures@,
            account_keys: self.account_keys@,
        }
    }
}

/// What `solana_transaction_status::EncodedTransaction::decode` makes of a blob in
/// base 64 or in base 58: the signatures and the static account keys of a transaction,
/// or `None` where the blob holds no valid one.
pub uninterp spec fn decoded_blob(blob: Seq<char>, base64: bool) -> Option<DecodedTransactionView>;

/// Calls `solana_transaction_status::EncodedTransaction::decode` on a `LegacyBinary`
/// transaction (no encoding given) or on a `Binary` one. A legacy blob is decoded as
/// one in base 58. The result depends on the blob and its encoding alone and is named
/// by `decoded_blob`. Only a transaction that passes `VersionedTransaction::sanitize`
/// is returned, which asks for at least one signature and for at least as many account
/// keys as signatures.
#[verifier::external_body]
fn decode_blob(blob: &str, encoding: Option<TransactionBinaryEncoding>) -> (decoded: Option<
    DecodedTransaction,
>)
    ensures
        decoded is Some == decoded_blob(
            blob@,
            encoding == Some(TransactionBinaryEncoding::Base64),
        ) is Some,
        decoded matches Some(t) ==> decoded_blob(
            blob@,
            encoding == Some(TransactionBinaryEncoding::Base64),
        ) == Some(t@),
        decoded matches Some(t) ==> 1 <= t.signatures@.len() <= t.account_keys@.len(),
{
    let text = blob.to_owned();
    let encoded = match encoding {
        None => RpcTransaction::LegacyBinary(text),
        Some(TransactionBinaryEncoding::Base58) => RpcTransaction::Binary(text, RpcEncoding::Base58),
        Some(TransactionBinaryEncoding::Base64) => RpcTransaction::Binary(text, RpcEncoding::Base64),
    };
    encoded.decode().map(|t| {
        let keys = t.message.static_account_keys().iter();
        DecodedTransaction {
            signatures: t.signatures.iter().map(|s| Signature { bytes: (*s).into() }).collect(),
            account_keys: keys.map(|k| Pubkey { bytes: k.to_bytes() }).collect(),
        }
    })
}

/// The hash of a decoded transaction: its first signature.
pub open spec fn decoded_hash(decoded: Option<DecodedTransactionView>) -> Option<Signature> {
    match decoded {
        Some(t) => Some(t.signatures[0]),
        None => None,
    }
}

/// The accounts of a decoded transaction, none where it could not be decoded.
pub open spec fn decoded_accounts(decoded: Option<DecodedTransactionView>) -> Seq<Pubkey> {
    match decoded {
        Some(t) => t.account_keys,
        None => Seq::empty(),
    }
}

/// The texts that stand in a list of parsed accounts, in their order.
pub open spec fn account_texts(accounts: Seq<ParsedAccount>) -> Seq<Seq<char>> {
    accounts.map_values(|a: ParsedAccount| a.pubkey@)
}

/// The account keys of a message as texts, in their order.
pub open spec fn message_texts(message: UiMessage) -> Seq<Seq<char>> {
    match message {
        UiMessage::Parsed(m) => account_texts(m.account_keys@),
        UiMessage::Raw(m) => m.account_keys@.map_values(|k: String| k@),
    }
}

/// Whether every text of a list is an address.
pub open spec fn all_pubkeys(texts: Seq<Seq<char>>) -> bool {
    forall|i: int| 0 <= i < texts.len() ==> parsed_pubkey(#[trigger] texts[i]) is Some
}

/// The addresses that a list of texts stands for.
pub open spec fn pubkeys(texts: Seq<Seq<char>>) -> Seq<Pubkey> {
    texts.map_values(|t: Seq<char>| parsed_pubkey(t)->0)
}

/// Whether the first of a list of signatures exists and can be read.
pub open spec fn first_signature_readable(signatures: Seq<String>) -> bool {
    signatures.len() > 0 && parsed_signature(signatures[0]@) is Some
}

/// Whether the hash of a transaction can be read: a transaction that lists its
/// signatures has a first one, and it is a signature.
pub open spec fn hash_readable(txn: EncodedTransaction) -> bool {
    match txn {
        EncodedTransaction::LegacyBinary(_) => true,
        EncodedTransaction::Binary(_, _) => true,
        EncodedTransaction::Json(d) => first_signature_readable(d.signatures@),
        EncodedTransaction::Accounts(a) => first_signature_readable(a.signatures@),
    }
}

/// The hash of a transaction, `None` where it is a blob that holds no valid one.
pub open spec fn transaction_hash(txn: EncodedTransaction) -> Option<Signature> {
    match txn {
        EncodedTransaction::LegacyBinary(a) => decoded_hash(decoded_blob(a@, false)),
        EncodedTransaction::Binary(a, b) => decoded_hash(
            decoded_blob(a@, b == TransactionBinaryEncoding::Base64),
        ),
        EncodedTransaction::Json(d) => parsed_signature(d.signatures@[0]@),
        EncodedTransaction::Accounts(a) => parsed_signature(a.signatures@[0]@),
    }
}

/// Whether every account key that a transaction lists is an address.
pub open spec fn accounts_readable(txn: EncodedTransaction) -> bool {
    match txn {
        EncodedTransaction::LegacyBinary(_) => true,
        EncodedTransaction::Binary(_, _) => true,
        EncodedTransaction::Json(d) => all_pubkeys(message_texts(d.message)),
        EncodedTransaction::Accounts(a) => all_pubkeys(account_texts(a.account_keys@)),
    }
}

/// The accounts of a transaction, in their order; none where it is a blob that holds
/// no valid one.
pub open spec fn transaction_accounts(txn: EncodedTransaction) -> Seq<Pubkey> {
    match txn {
        EncodedTransaction::LegacyBinary(a) => decoded_accounts(decoded_blob(a@, false)),
        EncodedTransaction::Binary(a, b) => decoded_accounts(
            decoded_blob(a@, b == TransactionBinaryEncoding::Base64),
        ),
        EncodedTransaction::Json(d) => pubkeys(message_texts(d.message)),
        EncodedTransaction::Accounts(a) => pubkeys(account_texts(a.account_keys@)),
    }
}

/// The account that pays for a transaction: the first one that it lists.
pub open spec fn payer(accounts: Seq<Pubkey>) -> Option<Pubkey> {
    if accounts.len() > 0 {
        Some(accounts[0])
    } else {
        None
    }
}

/// Whether a transaction is a blob.
pub open spec fn is_blob(txn: EncodedTransaction) -> bool {
    txn is LegacyBinary || txn is Binary
}

/// The signatures that a transaction lists as texts. A blob lists none.
pub open spec fn listed_signatures(txn: EncodedTransaction) -> Seq<Seq<char>> {
    match txn {
        EncodedTransaction::LegacyBinary(_) => Seq::empty(),
        EncodedTransaction::Binary(_, _) => Seq::empty(),
        EncodedTransaction::Json(d) => d.signatures@.map_values(|s: String| s@),
        EncodedTransaction::Accounts(a) => a.signatures@.map_values(|s: String| s@),
    }
}

/// The accounts that a transaction lists as texts. A blob lists none.
pub open spec fn listed_accounts(txn: EncodedTransaction) -> Seq<Seq<char>> {
    match txn {
        EncodedTransaction::LegacyBinary(_) => Seq::empty(),
        EncodedTransaction::Binary(_, _) => Seq::empty(),
        EncodedTransaction::Json(d) => message_texts(d.message),
        EncodedTransaction::Accounts(a) => account_texts(a.account_keys@),
    }
}

/// Whether addresses display the texts that they were read from.
pub open spec fn display_as(keys: Seq<Pubkey>, texts: Seq<Seq<char>>) -> bool {
    forall|i: int| 0 <= i < texts.len() ==> pubkey_text(keys[i]) == #[trigger] texts[i]
}

/// Reads the hash off a transaction that was decoded, or could not be.
pub fn hash_from_decoded_transaction(decoded: Option<DecodedTransaction>) -> (hash: Option<
    Signature,
>)
    requires
        decoded matches Some(t) ==> t.signatures@.len() > 0,
    ensures
        decoded matches Some(t) ==> hash == Some(t.signatures@[0]),
        decoded is None ==> hash is None,
{
    match decoded {
        Some(t) => Some(t.signatures[0]),
        None => None,
    }
}

/// Reads the accounts off a transaction that was decoded, or could not be.
pub fn account_list_from_decoded_transaction(decoded: Option<DecodedTransaction>) -> (accounts: Vec<
    Pubkey,
>)
    ensures
        decoded matches Some(t) ==> accounts@ == t.account_keys@,
        decoded is None ==> accounts@ == Seq::<Pubkey>::empty(),
{
    match decoded {
        Some(t) => t.account_keys,
        None => Vec::new(),
    }
}

/// Picks the fee payer out of the accounts of a transaction.
pub fn fee_payer_from_account_list(accounts: &Vec<Pubkey>) -> (fee_payer: Option<Pubkey>)
    ensures
        fee_payer == payer(accounts@),
        accounts@.len() > 0 ==> fee_payer == Some(accounts@[0]),
        accounts@.len() == 0 ==> fee_payer is None,
{
    if accounts.len() > 0 {
        Some(accounts[0])
    } else {
        None
    }
}

/// Reads an address.
pub(crate) fn read_pubkey(text: &str) -> (key: Pubkey)
    requires
        parsed_pubkey(text@) is Some,
    ensures
        parsed_pubkey(text@) == Some(key),
        pubkey_text(key) == text@,
{
    parse_pubkey(text).unwrap()
}

/// Reads a list of parsed accounts.
fn read_accounts(accounts: &Vec<ParsedAccount>) -> (keys: Vec<Pubkey>)
    requires
        all_pubkeys(account_texts(accounts@)),
    ensures
        keys@ == pubkeys(account_texts(accounts@)),
        display_as(keys@, account_texts(accounts@)),
{
    let ghost texts = account_texts(accounts@);
    let mut keys: Vec<Pubkey> = Vec::new();
    for i in 0..accounts.len()
        invariant
            texts == account_texts(accounts@),
            all_pubkeys(texts),
            keys@ == pubkeys(texts).take(i as int),
            forall|j: int| 0 <= j < i ==> pubkey_text(keys@[j]) == #[trigger] texts[j],
    {
        assert(accounts@[i as int].pubkey@ == texts[i as int]);
        keys.push(read_pubkey(accounts[i].pubkey.as_str()));
        assert(keys@ =~= pubkeys(texts).take(i + 1));
    }
    assert(pubkeys(texts).take(texts.len() as int) =~= pubkeys(texts));
    keys
}

/// Reads a list of raw account keys.
fn read_raw_keys(raw: &Vec<String>) -> (keys: Vec<Pubkey>)
    requires
        all_pubkeys(raw@.map_values(|k: String| k@)),
    ensures
        keys@ == pubkeys(raw@.map_values(|k: String| k@)),
        display_as(keys@, raw@.map_values(|k: String| k@)),
{
    let ghost texts = raw@.map_values(|k: String| k@);
    let mut keys: Vec<Pubkey> = Vec::new();
    for i in 0..raw.len()
        invariant
            texts == raw@.map_values(|k: String| k@),
            all_pubkeys(texts),
            keys@ == pubkeys(texts).take(i as int),
            forall|j: int| 0 <= j < i ==> pubkey_text(keys@[j]) == #[trigger] texts[j],
    {
        assert(raw@[i as int]@ == texts[i as int]);
        keys.push(read_pubkey(raw[i].as_str()));
        assert(keys@ =~= pubkeys(texts).take(i + 1));
    }
    assert(pubkeys(texts).take(texts.len() as int) =~= pubkeys(texts));
    keys
}

/// Tests a list of parsed accounts.
fn check_accounts(accounts: &Vec<ParsedAccount>) -> (readable: bool)
    ensures
        readable == all_pubkeys(account_texts(accounts@)),
{
    let ghost texts = account_texts(accounts@);
    for i in 0..accounts.len()
        invariant
            texts == account_texts(accounts@),
            forall|j: int| 0 <= j < i ==> parsed_pubkey(#[trigger] texts[j]) is Some,
    {
        assert(accounts@[i as int].pubkey@ == texts[i as int]);
        if parse_pubkey(accounts[i].pubkey.as_str()).is_none() {
            return false;
        }
    }
    true
}

/// Tests a list of raw account keys.
fn check_raw_keys(raw: &Vec<String>) -> (readable: bool)
    ensures
        readable == all_pubkeys(raw@.map_values(|k: String| k@)),
{
    let ghost texts = raw@.map_values(|k: String| k@);
    for i in 0..raw.len()
        invariant
            texts == raw@.map_values(|k: String| k@),
            forall|j: int| 0 <= j < i ==> parsed_pubkey(#[trigger] texts[j]) is Some,
    {
        assert(raw@[i as int]@ == texts[i as int]);
        if parse_pubkey(raw[i].as_str()).is_none() {
            return false;
        }
    }
    true
}

/// Tests a list of signatures for a first one that can be read.
fn check_first_signature(signatures: &Vec<String>) -> (readable: bool)
    ensures
        readable == first_signature_readable(signatures@),
{
    signatures.len() > 0 && parse_signature(signatures[0].as_str()).is_some()
}

/// Whether `hash_from_encoded_transaction` may be asked for the hash of a transaction.
pub fn is_hash_readable(txn: &EncodedTransaction) -> (readable: bool)
    ensures
        readable == hash_readable(*txn),
{
    match txn {
        EncodedTransaction::LegacyBinary(_) => true,
        EncodedTransaction::Binary(_, _) => true,
        EncodedTransaction::Json(d) => check_first_signature(&d.signatures),
        EncodedTransaction::Accounts(a) => check_first_signature(&a.signatures),
    }
}

/// Whether `account_list_from_encoded_transaction` may be asked for the accounts of a
/// transaction.
pub fn is_account_list_readable(txn: &EncodedTransaction) -> (readable: bool)
    ensures
        readable == accounts_readable(*txn),
{
    match txn {
        EncodedTransaction::LegacyBinary(_) => true,
        EncodedTransaction::Binary(_, _) => true,
        EncodedTransaction::Json(d) => match &d.message {
            UiMessage::Parsed(m) => check_accounts(&m.account_keys),
            UiMessage::Raw(m) => check_raw_keys(&m.account_keys),
        },
        EncodedTransaction::Accounts(a) => check_accounts(&a.account_keys),
    }
}

/// The hash of a transaction: its first signature. It is `None` where the transaction
/// is a blob that holds no valid one.
pub fn hash_from_encoded_transaction(txn: &EncodedTransaction) -> (hash: Option<Signature>)
    requires
        hash_readable(*txn),
    ensures
        hash == transaction_hash(*txn),
        txn matches EncodedTransaction::LegacyBinary(a) ==> match decoded_blob(a@, false) {
            Some(t) => hash == Some(t.signatures[0]),
            None => hash is None,
        },
        txn matches EncodedTransaction::Binary(a, b) ==> match decoded_blob(a@, b is Base64) {
            Some(t) => hash == Some(t.signatures[0]),
            None => hash is None,
        },
        forall|signature: Signature| hash == Some(signature) <==> hash_is(*txn, signature),
        listed_signatures(*txn).len() > 0 ==> hash is Some && signature_text(hash->0)
            == listed_signatures(*txn)[0],
{
    proof {
        law_hash_is_first_signature(*txn);
    }
    match txn {
        EncodedTransaction::LegacyBinary(a) => {
            hash_from_decoded_transaction(decode_blob(a.as_str(), None))
        },
        EncodedTransaction::Binary(a, b) => {
            hash_from_decoded_transaction(decode_blob(a.as_str(), Some(*b)))
        },
        EncodedTransaction::Json(d) => parse_signature(d.signatures[0].as_str()),
        EncodedTransaction::Accounts(a) => parse_signature(a.signatures[0].as_str()),
    }
}

/// The accounts of a transaction, in its order. A blob that holds no valid transaction
/// has none. Of a versioned transaction in binary form these are the static ones: what
/// it loads from lookup tables is not in it.
pub fn account_list_from_encoded_transaction(txn: &EncodedTransaction) -> (accounts: Vec<Pubkey>)
    requires
        accounts_readable(*txn),
    ensures
        accounts@ == transaction_accounts(*txn),
        txn matches EncodedTransaction::LegacyBinary(a) ==> match decoded_blob(a@, false) {
            Some(t) => accounts@ == t.account_keys,
            None => accounts@.len() == 0,
        },
        txn matches EncodedTransaction::Binary(a, b) ==> match decoded_blob(a@, b is Base64) {
            Some(t) => accounts@ == t.account_keys,
            None => accounts@.len() == 0,
        },
        accounts@.len() == account_count(*txn),
        forall|i: int| 0 <= i < accounts@.len() ==> account_is(*txn, i, #[trigger] accounts@[i]),
        display_as(accounts@, listed_accounts(*txn)),
        is_blob(*txn) ==> (accounts@.len() > 0 <==> transaction_hash(*txn) is Some),
{
    proof {
        law_accounts_are_read_in_order(*txn);
    }
    match txn {
        EncodedTransaction::LegacyBinary(a) => {
            account_list_from_decoded_transaction(decode_blob(a.as_str(), None))
        },
        EncodedTransaction::Binary(a, b) => {
            account_list_from_decoded_transaction(decode_blob(a.as_str(), Some(*b)))
        },
        EncodedTransaction::Json(d) => match &d.message {
            UiMessage::Parsed(m) => read_accounts(&m.account_keys),
            UiMessage::Raw(m) => read_raw_keys(&m.account_keys),
        },
        EncodedTransaction::Accounts(a) => read_accounts(&a.account_keys),
    }
}

/// The account that pays for a transaction: the first one of its list.
pub fn fee_payer_from_encoded_transaction(txn: &EncodedTransaction) -> (fee_payer: Option<Pubkey>)
    requires
        accounts_readable(*txn),
    ensures
        fee_payer == payer(transaction_accounts(*txn)),
        txn matches EncodedTransaction::LegacyBinary(a) ==> match decoded_blob(a@, false) {
            Some(t) => fee_payer == Some(t.account_keys[0]),
            None => fee_payer is None,
        },
        txn matches EncodedTransaction::Binary(a, b) ==> match decoded_blob(a@, b is Base64) {
            Some(t) => fee_payer == Some(t.account_keys[0]),
            None => fee_payer is None,
        },
        forall|key: Pubkey| fee_payer == Some(key) <==> account_is(*txn, 0, key),
        listed_accounts(*txn).len() > 0 ==> fee_payer is Some && pubkey_text(fee_payer->0)
            == listed_accounts(*txn)[0],
        is_blob(*txn) ==> (fee_payer is Some <==> transaction_hash(*txn) is Some),
{
    proof {
        law_fee_payer_is_first_account(*txn);
    }
    fee_payer_from_account_list(&account_list_from_encoded_transaction(txn))
}

/// A legacy blob is read as the same blob in base 58.
pub proof fn law_legacy_blobs_are_base58(legacy: String, blob: String)
    requires
        legacy@ == blob@,
    ensures
        transaction_hash(EncodedTransaction::LegacyBinary(legacy)) == transaction_hash(
            EncodedTransaction::Binary(blob, TransactionBinaryEncoding::Base58),
        ),
        transaction_accounts(EncodedTransaction::LegacyBinary(legacy)) == transaction_accounts(
            EncodedTransaction::Binary(blob, TransactionBinaryEncoding::Base58),
        ),
{
}

/// Whether a signature is the first one of a transaction: of what a blob decodes to, or
/// of the texts that are listed.
pub open spec fn hash_is(txn: EncodedTransaction, signature: Signature) -> bool {
    match txn {
        EncodedTransaction::LegacyBinary(a) => decoded_blob(a@, false) matches Some(t)
            && t.signatures[0] == signature,
        EncodedTransaction::Binary(a, TransactionBinaryEncoding::Base58) => decoded_blob(
            a@,
            false,
        ) matches Some(t) && t.signatures[0] == signature,
        EncodedTransaction::Binary(a, TransactionBinaryEncoding::Base64) => decoded_blob(
            a@,
            true,
        ) matches Some(t) && t.signatures[0] == signature,
        EncodedTransaction::Json(d) => d.signatures@.len() > 0 && parsed_signature(
            d.signatures@[0]@,
        ) == Some(signature),
        EncodedTransaction::Accounts(a) => a.signatures@.len() > 0 && parsed_signature(
            a.signatures@[0]@,
        ) == Some(signature),
    }
}

/// How many accounts a transaction has. A blob that does not decode has none.
pub open spec fn account_count(txn: EncodedTransaction) -> nat {
    match txn {
        EncodedTransaction::LegacyBinary(a) => match decoded_blob(a@, false) {
            Some(t) => t.account_keys.len(),
            None => 0,
        },
        EncodedTransaction::Binary(a, TransactionBinaryEncoding::Base58) => match decoded_blob(
            a@,
            false,
        ) {
            Some(t) => t.account_keys.len(),
            None => 0,
        },
        EncodedTransaction::Binary(a, TransactionBinaryEncoding::Base64) => match decoded_blob(
            a@,
            true,
        ) {
            Some(t) => t.account_keys.len(),
            None => 0,
        },
        EncodedTransaction::Json(d) => match d.message {
            UiMessage::Parsed(m) => m.account_keys@.len(),
            UiMessage::Raw(m) => m.account_keys@.len(),
        },
        EncodedTransaction::Accounts(a) => a.account_keys@.len(),
    }
}

/// Whether a key is the account at a place of a transaction.
pub open spec fn account_is(txn: EncodedTransaction, at: int, key: Pubkey) -> bool {
    0 <= at < account_count(txn) && match txn {
        EncodedTransaction::LegacyBinary(a) => decoded_blob(a@, false)->0.account_keys[at] == key,
        EncodedTransaction::Binary(a, TransactionBinaryEncoding::Base58) => decoded_blob(
            a@,
            false,
        )->0.account_keys[at] == key,
        EncodedTransaction::Binary(a, TransactionBinaryEncoding::Base64) => decoded_blob(
            a@,
            true,
        )->0.account_keys[at] == key,
        EncodedTransaction::Json(d) => match d.message {
            UiMessage::Parsed(m) => parsed_pubkey(m.account_keys@[at].pubkey@) == Some(key),
            UiMessage::Raw(m) => parsed_pubkey(m.account_keys@[at]@) == Some(key),
        },
        EncodedTransaction::Accounts(a) => parsed_pubkey(a.account_keys@[at].pubkey@) == Some(key),
    }
}

/// A field that is present has its value, one that is null or left out has none.
pub proof fn law_present_fields_have_their_value<T>(value: T)
    ensures
        given(OptionSerializer::Present(value)) == Some(value),
        given(OptionSerializer::<T>::Null) is None,
        given(OptionSerializer::<T>::Skip) is None,
{
}

/// The hash of a transaction is its first signature, whichever way it is encoded.
pub proof fn law_hash_is_first_signature(txn: EncodedTransaction)
    requires
        hash_readable(txn),
    ensures
        forall|signature: Signature|
            transaction_hash(txn) == Some(signature) <==> hash_is(txn, signature),
{
}

/// The accounts of a transaction are all those that it has, each in its place, whichever
/// way it is encoded.
pub proof fn law_accounts_are_read_in_order(txn: EncodedTransaction)
    requires
        accounts_readable(txn),
    ensures
        transaction_accounts(txn).len() == account_count(txn),
        forall|i: int|
            0 <= i < account_count(txn) ==> account_is(txn, i, #[trigger] transaction_accounts(
                txn,
            )[i]),
{
    assert forall|i: int| 0 <= i < account_count(txn) implies account_is(
        txn,
        i,
        #[trigger] transaction_accounts(txn)[i],
    ) by {
        match txn {
            EncodedTransaction::Json(d) => {
                let texts = message_texts(d.message);
                assert(parsed_pubkey(texts[i]) is Some);
            },
            EncodedTransaction::Accounts(a) => {
                let texts = account_texts(a.account_keys@);
                assert(parsed_pubkey(texts[i]) is Some);
            },
            _ => {},
        }
    }
}

/// The fee payer is the first account of a transaction; one without accounts has none.
pub proof fn law_fee_payer_is_first_account(txn: EncodedTransaction)
    requires
        accounts_readable(txn),
    ensures
        forall|key: Pubkey|
            payer(transaction_accounts(txn)) == Some(key) <==> account_is(txn, 0, key),
        payer(transaction_accounts(txn)) is None <==> account_count(txn) == 0,
{
    law_accounts_are_read_in_order(txn);
    if account_count(txn) > 0 {
        assert(account_is(txn, 0, transaction_accounts(txn)[0]));
    }
}

/// Whether the account at a place of a transaction can be read.
pub open spec fn account_given(txn: EncodedTransaction, at: int) -> bool {
    exists|key: Pubkey| account_is(txn, at, key)
}

/// A blob can always be asked for its hash and accounts. A transaction that lists them as
/// texts can be where the first signature, and every account, can be read.
pub proof fn law_listed_transactions_must_be_readable(txn: EncodedTransaction)
    ensures
        txn is LegacyBinary || txn is Binary ==> hash_readable(txn) && accounts_readable(txn),
        txn is Json || txn is Accounts ==> (hash_readable(txn) <==> exists|signature: Signature|
            hash_is(txn, signature)),
        accounts_readable(txn) <==> forall|i: int|
            0 <= i < account_count(txn) ==> #[trigger] account_given(txn, i),
{
    if txn is Json || txn is Accounts {
        if hash_readable(txn) {
            assert(hash_is(txn, transaction_hash(txn)->0));
        }
        let texts = match txn {
            EncodedTransaction::Json(d) => message_texts(d.message),
            EncodedTransaction::Accounts(a) => account_texts(a.account_keys@),
            _ => Seq::empty(),
        };
        if forall|i: int| 0 <= i < account_count(txn) ==> #[trigger] account_given(txn, i) {
            assert forall|i: int| 0 <= i < texts.len() implies parsed_pubkey(
                #[trigger] texts[i],
            ) is Some by {
                assert(account_given(txn, i));
            }
        }
    }
    if accounts_readable(txn) {
        law_accounts_are_read_in_order(txn);
        assert forall|i: int| 0 <= i < account_count(txn) implies #[trigger] account_given(
            txn,
            i,
        ) by {
            assert(account_is(txn, i, transaction_accounts(txn)[i]));
        }
    }
}

/// Of a blob in base 58, legacy or not, the hash is the first signature that it decodes to,
/// the accounts are all the keys that it decodes to, and the first of them pays.
pub proof fn law_base58_blobs_are_read_whole(blob: String, t: DecodedTransactionView)
    requires
        decoded_blob(blob@, false) == Some(t),
    ensures
        transaction_hash(EncodedTransaction::LegacyBinary(blob)) == Some(t.signatures[0]),
        transaction_accounts(EncodedTransaction::LegacyBinary(blob)) == t.account_keys,
        transaction_hash(EncodedTransaction::Binary(blob, TransactionBinaryEncoding::Base58))
            == Some(t.signatures[0]),
        transaction_accounts(EncodedTransaction::Binary(blob, TransactionBinaryEncoding::Base58))
            == t.account_keys,
        t.account_keys.len() > 0 ==> payer(
            transaction_accounts(EncodedTransaction::LegacyBinary(blob)),
        ) == Some(t.account_keys[0]),
{
}

/// Of a blob in base 64 the hash is the first signature that it decodes to, the accounts
/// are all the keys that it decodes to, and the first of them pays.
pub proof fn law_base64_blobs_are_read_whole(blob: String, t: DecodedTransactionView)
    requires
        decoded_blob(blob@, true) == Some(t),
    ensures
        transaction_hash(EncodedTransaction::Binary(blob, TransactionBinaryEncoding::Base64))
            == Some(t.signatures[0]),
        transaction_accounts(EncodedTransaction::Binary(blob, TransactionBinaryEncoding::Base64))
            == t.account_keys,
        t.account_keys.len() > 0 ==> payer(
            transaction_accounts(
                EncodedTransaction::Binary(blob, TransactionBinaryEncoding::Base64),
            ),
        ) == Some(t.account_keys[0]),
{
}

/// A blob that does not decode has neither a hash nor accounts.
pub proof fn law_undecoded_blobs_are_empty(blob: String)
    ensures
        decoded_blob(blob@, false) is None ==> transaction_hash(
            EncodedTransaction::LegacyBinary(blob),
        ) is None && transaction_accounts(EncodedTransaction::LegacyBinary(blob)).len() == 0
            && transaction_hash(
            EncodedTransaction::Binary(blob, TransactionBinaryEncoding::Base58),
        ) is None && transaction_accounts(
            EncodedTransaction::Binary(blob, TransactionBinaryEncoding::Base58),
        ).len() == 0,
        decoded_blob(blob@, true) is None ==> transaction_hash(
            EncodedTransaction::Binary(blob, TransactionBinaryEncoding::Base64),
        ) is None && transaction_accounts(
            EncodedTransaction::Binary(blob, TransactionBinaryEncoding::Base64),
        ).len() == 0,
{
}

/// A transaction with a raw message has one account for each key of the message: the
/// address that the key stands for. Its hash is what its first signature stands for.
pub proof fn law_raw_messages_are_read_whole(signatures: Vec<String>, m: UiRawMessage, at: int)
    requires
        0 <= at < m.account_keys@.len(),
        forall|i: int|
            0 <= i < m.account_keys@.len() ==> parsed_pubkey((#[trigger] m.account_keys@[i])@)
                is Some,
    ensures
        ({
            let txn = EncodedTransaction::Json(
                UiTransaction { signatures, message: UiMessage::Raw(m) },
            );
            &&& accounts_readable(txn)
            &&& transaction_accounts(txn).len() == m.account_keys@.len()
            &&& parsed_pubkey(m.account_keys@[at]@) == Some(transaction_accounts(txn)[at])
            &&& payer(transaction_accounts(txn)) == parsed_pubkey(m.account_keys@[0]@)
            &&& signatures@.len() > 0 ==> transaction_hash(txn) == parsed_signature(
                signatures@[0]@,
            )
        }),
{
    assert(parsed_pubkey(m.account_keys@[0]@) is Some);
    assert(parsed_pubkey(m.account_keys@[at]@) is Some);
}

/// A transaction with a parsed message has one account for each entry of the message: the
/// address that the entry stands for. Its hash is what its first signature stands for.
pub proof fn law_parsed_messages_are_read_whole(
    signatures: Vec<String>,
    m: UiParsedMessage,
    at: int,
)
    requires
        0 <= at < m.account_keys@.len(),
        forall|i: int|
            0 <= i < m.account_keys@.len() ==> parsed_pubkey(
                (#[trigger] m.account_keys@[i]).pubkey@,
            ) is Some,
    ensures
        ({
            let txn = EncodedTransaction::Json(
                UiTransaction { signatures, message: UiMessage::Parsed(m) },
            );
            &&& accounts_readable(txn)
            &&& transaction_accounts(txn).len() == m.account_keys@.len()
            &&& parsed_pubkey(m.account_keys@[at].pubkey@) == Some(transaction_accounts(txn)[at])
            &&& payer(transaction_accounts(txn)) == parsed_pubkey(m.account_keys@[0].pubkey@)
            &&& signatures@.len() > 0 ==> transaction_hash(txn) == parsed_signature(
                signatures@[0]@,
            )
        }),
{
    assert(parsed_pubkey(m.account_keys@[0].pubkey@) is Some);
    assert(parsed_pubkey(m.account_keys@[at].pubkey@) is Some);
}

/// A transaction that is an account list has one account for each entry of the list: the
/// address that the entry stands for. Its hash is what its first signature stands for.
pub proof fn law_account_lists_are_read_whole(a: UiAccountsList, at: int)
    requires
        0 <= at < a.account_keys@.len(),
        forall|i: int|
            0 <= i < a.account_keys@.len() ==> parsed_pubkey(
                (#[trigger] a.account_keys@[i]).pubkey@,
            ) is Some,
    ensures
        accounts_readable(EncodedTransaction::Accounts(a)),
        transaction_accounts(EncodedTransaction::Accounts(a)).len() == a.account_keys@.len(),
        parsed_pubkey(a.account_keys@[at].pubkey@) == Some(
            transaction_accounts(EncodedTransaction::Accounts(a))[at],
        ),
        payer(transaction_accounts(EncodedTransaction::Accounts(a))) == parsed_pubkey(
            a.account_keys@[0].pubkey@,
        ),
        a.signatures@.len() > 0 ==> transaction_hash(EncodedTransaction::Accounts(a))
            == parsed_signature(a.signatures@[0]@),
{
    assert(parsed_pubkey(a.account_keys@[0].pubkey@) is Some);
    assert(parsed_pubkey(a.account_keys@[at].pubkey@) is Some);
}

} // verus!
