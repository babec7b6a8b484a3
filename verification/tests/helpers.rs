use clemens::helpers::{
    account_list_from_decoded_transaction, account_list_from_encoded_transaction,
    fee_payer_from_account_list, fee_payer_from_encoded_transaction, hash_from_decoded_transaction,
    hash_from_encoded_transaction, is_account_list_readable, is_hash_readable,
    option_ser_to_option, DecodedTransaction,
};
use clemens::keys::{Pubkey, Signature};
use clemens::transaction::{
    EncodedTransaction, OptionSerializer, ParsedAccount, TransactionBinaryEncoding, UiAccountsList,
    UiMessage, UiParsedMessage, UiRawMessage, UiTransaction,
};
use solana_sdk::message::{Message, MessageHeader};
use solana_sdk::transaction::Transaction;
use solana_transaction_status::{Encodable, UiTransactionEncoding};

const ZEROS: &str = "11111111111111111111111111111111";
const ONES: &str = "4vJ9JU1bJJE96FWSJKvHsmmFADCg4gpZQff4P3bkLKi";
const TWOS: &str = "8qbHbw2BbbTHBW1sbeqakYXVKRQM8Ne7pLK7m6CVfeR";
const SIGNED_FIVES: &str =
    "6pc4LiB8KHAPvbUbkozrTcPL5zXspYBdATv5raNDyVbhiKjrKokLb9o111kxTD5KkPVd7UBSCcFcnWFkrJ82Hu6";

fn key(byte: u8) -> Pubkey {
    Pubkey { bytes: [byte; 32] }
}

fn signature(byte: u8) -> Signature {
    Signature { bytes: [byte; 64] }
}

fn account(text: &str) -> ParsedAccount {
    ParsedAccount { pubkey: text.to_string() }
}

fn accounts(signatures: &[&str], keys: &[&str]) -> EncodedTransaction {
    EncodedTransaction::Accounts(UiAccountsList {
        signatures: signatures.iter().map(|s| s.to_string()).collect(),
        account_keys: keys.iter().map(|k| account(k)).collect(),
    })
}

fn raw(signatures: &[&str], keys: &[&str]) -> EncodedTransaction {
    EncodedTransaction::Json(UiTransaction {
        signatures: signatures.iter().map(|s| s.to_string()).collect(),
        message: UiMessage::Raw(UiRawMessage {
            account_keys: keys.iter().map(|k| k.to_string()).collect(),
        }),
    })
}

fn parsed(signatures: &[&str], keys: &[&str]) -> EncodedTransaction {
    EncodedTransaction::Json(UiTransaction {
        signatures: signatures.iter().map(|s| s.to_string()).collect(),
        message: UiMessage::Parsed(UiParsedMessage {
            account_keys: keys.iter().map(|k| account(k)).collect(),
        }),
    })
}

/// A transaction of one signer and one more account, serialized.
fn blob(encoding: UiTransactionEncoding, signatures: Vec<Signature>) -> String {
    let transaction = Transaction {
        signatures: signatures
            .iter()
            .map(|s| solana_sdk::signature::Signature::from(s.bytes))
            .collect(),
        message: Message {
            header: MessageHeader {
                num_required_signatures: 1,
                num_readonly_signed_accounts: 0,
                num_readonly_unsigned_accounts: 1,
            },
            account_keys: vec![
                solana_sdk::pubkey::Pubkey::from([1; 32]),
                solana_sdk::pubkey::Pubkey::from([2; 32]),
            ],
            recent_blockhash: Default::default(),
            instructions: Vec::new(),
        },
    };
    match transaction.encode(encoding) {
        solana_transaction_status::EncodedTransaction::LegacyBinary(text) => text,
        solana_transaction_status::EncodedTransaction::Binary(text, _) => text,
        _ => panic!("not a blob"),
    }
}

#[test]
fn a_present_field_has_its_value() {
    assert_eq!(option_ser_to_option(OptionSerializer::Present(7u64)), Some(7));
}

#[test]
fn a_null_or_skipped_field_has_no_value() {
    assert_eq!(option_ser_to_option::<u64>(OptionSerializer::Null), None);
    assert_eq!(option_ser_to_option::<u64>(OptionSerializer::Skip), None);
}

#[test]
fn the_hash_is_the_first_signature() {
    for txn in [
        accounts(&[SIGNED_FIVES, "unread"], &[]),
        raw(&[SIGNED_FIVES, "unread"], &[]),
        parsed(&[SIGNED_FIVES], &[]),
    ] {
        assert!(is_hash_readable(&txn));
        assert_eq!(hash_from_encoded_transaction(&txn), Some(signature(5)));
    }
}

#[test]
fn a_hash_needs_a_readable_signature() {
    assert!(!is_hash_readable(&accounts(&[], &[ONES])));
    assert!(!is_hash_readable(&raw(&["0OIl"], &[])));
    assert!(!is_hash_readable(&parsed(&[ONES], &[])));
    assert!(is_hash_readable(&EncodedTransaction::LegacyBinary("".to_string())));
}

#[test]
fn the_accounts_are_read_in_order() {
    for txn in [
        accounts(&[], &[TWOS, ONES, ZEROS]),
        raw(&[], &[TWOS, ONES, ZEROS]),
        parsed(&[], &[TWOS, ONES, ZEROS]),
    ] {
        assert!(is_account_list_readable(&txn));
        assert_eq!(account_list_from_encoded_transaction(&txn), vec![key(2), key(1), key(0)]);
        assert_eq!(fee_payer_from_encoded_transaction(&txn), Some(key(2)));
    }
}

#[test]
fn a_transaction_without_accounts_has_no_fee_payer() {
    for txn in [accounts(&[], &[]), raw(&[], &[]), parsed(&[], &[])] {
        assert!(is_account_list_readable(&txn));
        assert_eq!(account_list_from_encoded_transaction(&txn), Vec::new());
        assert_eq!(fee_payer_from_encoded_transaction(&txn), None);
    }
}

#[test]
fn an_account_list_needs_addresses() {
    assert!(!is_account_list_readable(&accounts(&[], &[ONES, "l"])));
    assert!(!is_account_list_readable(&raw(&[], &["", ONES])));
    assert!(!is_account_list_readable(&parsed(&[], &[ONES, SIGNED_FIVES])));
    assert!(!is_account_list_readable(&raw(&[], &["111111111111111111111111111111111"])));
}

#[test]
fn blobs_are_decoded() {
    let signatures = vec![signature(5)];
    for txn in [
        EncodedTransaction::LegacyBinary(blob(UiTransactionEncoding::Binary, signatures.clone())),
        EncodedTransaction::Binary(
            blob(UiTransactionEncoding::Base58, signatures.clone()),
            TransactionBinaryEncoding::Base58,
        ),
        EncodedTransaction::Binary(
            blob(UiTransactionEncoding::Base64, signatures.clone()),
            TransactionBinaryEncoding::Base64,
        ),
    ] {
        assert!(is_hash_readable(&txn));
        assert!(is_account_list_readable(&txn));
        assert_eq!(hash_from_encoded_transaction(&txn), Some(signature(5)));
        assert_eq!(account_list_from_encoded_transaction(&txn), vec![key(1), key(2)]);
        assert_eq!(fee_payer_from_encoded_transaction(&txn), Some(key(1)));
    }
}

#[test]
fn a_legacy_blob_is_one_in_base_58() {
    let text = blob(UiTransactionEncoding::Base58, vec![signature(6)]);
    let legacy = EncodedTransaction::LegacyBinary(text.clone());
    let base58 = EncodedTransaction::Binary(text, TransactionBinaryEncoding::Base58);
    assert_eq!(hash_from_encoded_transaction(&legacy), hash_from_encoded_transaction(&base58));
    assert_eq!(
        account_list_from_encoded_transaction(&legacy),
        account_list_from_encoded_transaction(&base58)
    );
}

#[test]
fn blobs_that_do_not_decode_have_neither_hash_nor_accounts() {
    let good = vec![signature(5)];
    for txn in [
        EncodedTransaction::LegacyBinary("0".to_string()),
        EncodedTransaction::LegacyBinary("".to_string()),
        EncodedTransaction::Binary("????".to_string(), TransactionBinaryEncoding::Base64),
        EncodedTransaction::Binary(
            blob(UiTransactionEncoding::Base64, good.clone()),
            TransactionBinaryEncoding::Base58,
        ),
        EncodedTransaction::Binary(
            blob(UiTransactionEncoding::Base64, Vec::new()),
            TransactionBinaryEncoding::Base64,
        ),
        EncodedTransaction::Binary(
            blob(UiTransactionEncoding::Base58, vec![signature(5), signature(6)]),
            TransactionBinaryEncoding::Base58,
        ),
    ] {
        assert_eq!(hash_from_encoded_transaction(&txn), None);
        assert_eq!(account_list_from_encoded_transaction(&txn), Vec::new());
        assert_eq!(fee_payer_from_encoded_transaction(&txn), None);
    }
}

#[test]
fn a_decoded_transaction_gives_hash_and_accounts() {
    let decoded = || {
        Some(DecodedTransaction {
            signatures: vec![signature(3), signature(4)],
            account_keys: vec![key(8), key(9)],
        })
    };
    assert_eq!(hash_from_decoded_transaction(decoded()), Some(signature(3)));
    assert_eq!(account_list_from_decoded_transaction(decoded()), vec![key(8), key(9)]);
    assert_eq!(hash_from_decoded_transaction(None), None);
    assert_eq!(account_list_from_decoded_transaction(None), Vec::new());
}

#[test]
fn the_fee_payer_is_the_first_account() {
    assert_eq!(fee_payer_from_account_list(&vec![key(8), key(9)]), Some(key(8)));
    assert_eq!(fee_payer_from_account_list(&Vec::new()), None);
}

#[test]
fn addresses_are_equal_byte_by_byte() {
    let mut other = key(1);
    assert_eq!(other, key(1));
    other.bytes[31] = 2;
    assert_ne!(other, key(1));
    other = key(1);
    other.bytes[0] = 2;
    assert_ne!(other, key(1));
}
