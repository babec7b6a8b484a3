use clemens::analysis::{is_owned_by, AnalysisError, AnalyzedTransaction, TransactionFacts};
use clemens::balances::Balances;
use clemens::keys::{Pubkey, Signature};
use clemens::tokens::TokenAmounts;
use clemens::transaction::{
    EncodedConfirmedTransactionWithStatusMeta, EncodedTransaction,
    EncodedTransactionWithStatusMeta, OptionSerializer, ParsedAccount, UiAccountsList,
    UiTokenAmount, UiTransactionStatusMeta, UiTransactionTokenBalance,
};

const ZEROS: &str = "11111111111111111111111111111111";
const ONES: &str = "4vJ9JU1bJJE96FWSJKvHsmmFADCg4gpZQff4P3bkLKi";
const TWOS: &str = "8qbHbw2BbbTHBW1sbeqakYXVKRQM8Ne7pLK7m6CVfeR";
const THREES: &str = "CktRuQ2mttgRGkXJtyksdKHjUdc2C4TgDzyB98oEzy8";
const NINES: &str = "cGfHiC6Kgg3FpFZvgwGcswsCRtp4aBP2fzuXRQPizuN";
const SIGNED_FIVES: &str =
    "6pc4LiB8KHAPvbUbkozrTcPL5zXspYBdATv5raNDyVbhiKjrKokLb9o111kxTD5KkPVd7UBSCcFcnWFkrJ82Hu6";

fn balance(owner: &str, mint: &str, amount: &str) -> UiTransactionTokenBalance {
    UiTransactionTokenBalance {
        mint: mint.to_string(),
        ui_token_amount: UiTokenAmount { amount: amount.to_string() },
        owner: OptionSerializer::Present(owner.to_string()),
    }
}

fn listed(entries: &[(&str, &str, &str)]) -> OptionSerializer<Vec<UiTransactionTokenBalance>> {
    OptionSerializer::Present(entries.iter().map(|e| balance(e.0, e.1, e.2)).collect())
}

fn encoded(signatures: &[&str], keys: &[&str]) -> EncodedTransaction {
    EncodedTransaction::Accounts(UiAccountsList {
        signatures: signatures.iter().map(|s| s.to_string()).collect(),
        account_keys: keys.iter().map(|k| ParsedAccount { pubkey: k.to_string() }).collect(),
    })
}

fn meta() -> UiTransactionStatusMeta {
    UiTransactionStatusMeta {
        status: Ok(()),
        fee: 5000,
        pre_balances: vec![1_000_000, 7],
        post_balances: vec![900_000, 8],
        pre_token_balances: listed(&[]),
        post_token_balances: listed(&[]),
    }
}

fn confirmed(
    transaction: EncodedTransaction,
    meta: Option<UiTransactionStatusMeta>,
) -> EncodedConfirmedTransactionWithStatusMeta {
    EncodedConfirmedTransactionWithStatusMeta {
        slot: 250_000_000,
        transaction: EncodedTransactionWithStatusMeta { transaction, meta },
    }
}

fn good(meta: UiTransactionStatusMeta) -> EncodedConfirmedTransactionWithStatusMeta {
    confirmed(encoded(&[SIGNED_FIVES], &[NINES, ONES]), Some(meta))
}

fn error_of(txn: EncodedConfirmedTransactionWithStatusMeta) -> AnalysisError {
    match AnalyzedTransaction::analyze(txn) {
        Some(Err(error)) => error,
        other => panic!("no error: {:?}", other),
    }
}

fn analyzed(txn: EncodedConfirmedTransactionWithStatusMeta) -> AnalyzedTransaction {
    assert!(AnalyzedTransaction::is_analyzable(&txn));
    match AnalyzedTransaction::try_from(txn) {
        Ok(analyzed) => analyzed,
        Err(error) => panic!("{}", error.message()),
    }
}

fn sorted(tokens: &TokenAmounts) -> Vec<(String, u64)> {
    let mut entries: Vec<(String, u64)> =
        tokens.entries().iter().map(|e| (e.0.clone(), e.1)).collect();
    entries.sort();
    entries
}

fn tokens(entries: &[(&str, u64)]) -> Vec<(String, u64)> {
    let mut entries: Vec<(String, u64)> =
        entries.iter().map(|e| (e.0.to_string(), e.1)).collect();
    entries.sort();
    entries
}

#[test]
fn a_swap_is_analyzed() {
    let mut meta = meta();
    meta.pre_token_balances = listed(&[(NINES, ZEROS, "10"), (NINES, ONES, "10"), (NINES, TWOS, "4")]);
    meta.post_token_balances = listed(&[(NINES, ZEROS, "3"), (NINES, ONES, "10"), (NINES, THREES, "6")]);
    let a = analyzed(good(meta));
    assert_eq!(a.txn_hash, SIGNED_FIVES);
    assert_eq!(a.block, 250_000_000);
    assert_eq!(a.fee_payer, NINES);
    assert_eq!(sorted(&a.bought_tokens), tokens(&[(THREES, 6)]));
    assert_eq!(sorted(&a.sold_tokens), tokens(&[(ZEROS, 7), (TWOS, 4)]));
    assert_eq!(a.gas_fee, 5000);
    assert_eq!(a.native_delta, -100_000);
    assert_eq!(a.native_delta_without_gas, -95_000);
    assert!(a.success);
    assert!(a.is_trade());
}

#[test]
fn balances_of_others_and_of_nobody_do_not_count() {
    let mut meta = meta();
    let mut nobodys = balance(ONES, "unread", "unread");
    nobodys.owner = OptionSerializer::Skip;
    let mut nulls = balance(ONES, "unread", "unread");
    nulls.owner = OptionSerializer::Null;
    meta.pre_token_balances = OptionSerializer::Present(vec![
        balance(ONES, "unread", "unread"),
        balance(NINES, ZEROS, "10"),
        nobodys,
        nulls,
    ]);
    meta.post_token_balances = listed(&[(NINES, ZEROS, "11"), (TWOS, ZEROS, "99")]);
    let a = analyzed(good(meta));
    assert_eq!(sorted(&a.bought_tokens), tokens(&[(ZEROS, 1)]));
    assert!(a.sold_tokens.is_empty());
}

#[test]
fn of_several_balances_of_a_token_the_last_one_counts() {
    let mut meta = meta();
    meta.pre_token_balances = listed(&[(NINES, ZEROS, "10"), (NINES, ZEROS, "20")]);
    meta.post_token_balances = listed(&[(NINES, ZEROS, "90"), (NINES, ZEROS, "21")]);
    assert_eq!(sorted(&analyzed(good(meta)).bought_tokens), tokens(&[(ZEROS, 1)]));
}

#[test]
fn exchanged_balances_exchange_bought_and_sold() {
    let before = || listed(&[(NINES, ZEROS, "10"), (NINES, ONES, "1")]);
    let after = || listed(&[(NINES, ZEROS, "4"), (NINES, TWOS, "2")]);
    let mut there = meta();
    there.pre_token_balances = before();
    there.post_token_balances = after();
    let mut back = meta();
    back.pre_token_balances = after();
    back.post_token_balances = before();
    back.pre_balances = vec![900_000];
    back.post_balances = vec![1_000_000];
    let a = analyzed(good(there));
    let b = analyzed(good(back));
    assert_eq!(sorted(&a.bought_tokens), sorted(&b.sold_tokens));
    assert_eq!(sorted(&a.sold_tokens), sorted(&b.bought_tokens));
    assert_eq!(a.native_delta, -b.native_delta);
}

#[test]
fn a_transaction_has_one_analysis() {
    let txn = || {
        let mut meta = meta();
        meta.pre_token_balances = listed(&[(NINES, ZEROS, "10"), (NINES, ONES, "1")]);
        meta.post_token_balances = listed(&[(NINES, ONES, "5"), (NINES, TWOS, "2")]);
        good(meta)
    };
    let a = analyzed(txn());
    let b = analyzed(txn());
    assert_eq!(a.txn_hash, b.txn_hash);
    assert_eq!(a.fee_payer, b.fee_payer);
    assert_eq!(sorted(&a.bought_tokens), sorted(&b.bought_tokens));
    assert_eq!(sorted(&a.sold_tokens), sorted(&b.sold_tokens));
    assert_eq!(a.native_delta, b.native_delta);
    for (mint, _) in a.bought_tokens.entries() {
        assert_eq!(a.sold_tokens.get(mint), None);
    }
}

#[test]
fn a_failed_transaction_is_no_trade() {
    let mut meta = meta();
    meta.status = Err("InsufficientFundsForFee".to_string());
    meta.post_token_balances = listed(&[(NINES, ZEROS, "1")]);
    let a = analyzed(good(meta));
    assert!(!a.success);
    assert!(!a.bought_tokens.is_empty());
    assert!(!a.is_trade());
}

#[test]
fn a_transaction_without_changes_is_no_trade() {
    let mut meta = meta();
    meta.pre_token_balances = listed(&[(NINES, ZEROS, "1")]);
    meta.post_token_balances = listed(&[(NINES, ZEROS, "+01")]);
    let a = analyzed(good(meta));
    assert!(a.success);
    assert!(!a.is_trade());
}

#[test]
fn selling_alone_is_a_trade() {
    let mut meta = meta();
    meta.pre_token_balances = listed(&[(NINES, ZEROS, "1")]);
    assert!(analyzed(good(meta)).is_trade());
}

#[test]
fn native_balances_span_their_whole_range() {
    let mut up = meta();
    up.pre_balances = vec![0];
    up.post_balances = vec![u64::MAX];
    up.fee = u64::MAX;
    let a = analyzed(good(up));
    assert_eq!(a.native_delta, u64::MAX as i128);
    assert_eq!(a.native_delta_without_gas, 2 * (u64::MAX as i128));
    let mut down = meta();
    down.pre_balances = vec![u64::MAX];
    down.post_balances = vec![0];
    down.fee = 0;
    assert_eq!(analyzed(good(down)).native_delta, -(u64::MAX as i128));
}

#[test]
fn missing_metadata_is_an_error() {
    let txn = confirmed(encoded(&[], &["unread"]), None);
    let error = error_of(txn);
    assert_eq!(error, AnalysisError::MissingTransactionMeta);
    assert_eq!(error.message(), "The transaction metadata was not provided by the RPC node.");
}

#[test]
fn a_hash_that_cannot_be_extracted_is_an_error() {
    let txn = confirmed(EncodedTransaction::LegacyBinary("0".to_string()), Some(meta()));
    let error = error_of(txn);
    assert_eq!(error, AnalysisError::UnableToExtractHash);
    assert_eq!(error.message(), "The transaction hash could not be extracted.");
}

#[test]
fn a_missing_fee_payer_is_an_error() {
    let mut meta = meta();
    meta.pre_balances = Vec::new();
    let error = error_of(confirmed(encoded(&[SIGNED_FIVES], &[]), Some(meta)));
    assert_eq!(error, AnalysisError::UnableToIdentifyFeePayer);
    assert_eq!(error.message(), "The fee payer could not be identified.");
}

#[test]
fn missing_token_balances_are_errors() {
    let mut without_pre = meta();
    without_pre.pre_token_balances = OptionSerializer::Skip;
    without_pre.post_token_balances = OptionSerializer::Null;
    let error = error_of(good(without_pre));
    assert_eq!(error, AnalysisError::MissingPreTokenBalancesList);
    assert_eq!(error.message(), "The pre token balances were not provided by the RPC node.");
    let mut without_post = meta();
    without_post.pre_token_balances = listed(&[("unread", "unread", "unread")]);
    without_post.post_token_balances = OptionSerializer::Null;
    let error = error_of(good(without_post));
    assert_eq!(error, AnalysisError::MissingPostTokenBalancesList);
    assert_eq!(error.message(), "The post token balances were not provided by the RPC node.");
}

#[test]
fn what_cannot_be_read_is_not_analyzed() {
    let unreadable = |txn: EncodedConfirmedTransactionWithStatusMeta| {
        assert!(!AnalyzedTransaction::is_analyzable(&txn));
        assert!(AnalyzedTransaction::analyze(txn).is_none());
    };
    unreadable(confirmed(encoded(&[], &[NINES]), Some(meta())));
    unreadable(confirmed(encoded(&["x"], &[NINES]), Some(meta())));
    unreadable(confirmed(encoded(&[SIGNED_FIVES], &[NINES, "x"]), Some(meta())));
    let mut no_pre = meta();
    no_pre.pre_balances = Vec::new();
    unreadable(good(no_pre));
    let mut no_post = meta();
    no_post.post_balances = Vec::new();
    unreadable(good(no_post));
    for entry in [("x", ZEROS, "1"), (NINES, "x", "1"), (NINES, ZEROS, "-1")] {
        let mut pre = meta();
        pre.pre_token_balances = listed(&[(NINES, ONES, "1"), entry]);
        unreadable(good(pre));
        let mut post = meta();
        post.post_token_balances = listed(&[entry]);
        unreadable(good(post));
    }
}

#[test]
fn facts_lead_to_an_analysis() {
    let key = |byte: u8| Pubkey { bytes: [byte; 32] };
    let a = AnalyzedTransaction::from_facts(&TransactionFacts {
        hash: Signature { bytes: [5; 64] },
        slot: 3,
        fee_payer: key(9),
        fee: 10,
        success: false,
        pre_native_balance: 100,
        post_native_balance: 60,
        pre_balances: Balances::from_entries(&vec![(key(1), 5)]),
        post_balances: Balances::from_entries(&vec![(key(1), 9), (key(2), 1)]),
    });
    assert_eq!(a.txn_hash, SIGNED_FIVES);
    assert_eq!(a.block, 3);
    assert_eq!(a.fee_payer, NINES);
    assert_eq!(sorted(&a.bought_tokens), tokens(&[(ONES, 4), (TWOS, 1)]));
    assert!(a.sold_tokens.is_empty());
    assert_eq!(a.gas_fee, 10);
    assert_eq!(a.native_delta, -40);
    assert_eq!(a.native_delta_without_gas, -30);
    assert!(!a.success);
}

#[test]
fn a_balance_is_owned_by_the_owner_it_names() {
    let key = |byte: u8| Pubkey { bytes: [byte; 32] };
    assert!(is_owned_by(Some(key(1)), &key(1)));
    assert!(!is_owned_by(Some(key(2)), &key(1)));
    assert!(!is_owned_by(None, &key(1)));
}
