use clemens::analysis::{AnalysisError, AnalyzedTransaction};
use clemens::pipeline::{select_trades, TransactionPool, BATCH_SIZE};
use clemens::rows::{slot_key, TransactionRow};
use clemens::tokens::TokenAmounts;

fn transaction(block: u64, success: bool, bought: u64, sold: u64) -> AnalyzedTransaction {
    let mut bought_tokens = TokenAmounts::new();
    if bought > 0 {
        bought_tokens.insert("bought".to_string(), bought);
    }
    let mut sold_tokens = TokenAmounts::new();
    if sold > 0 {
        sold_tokens.insert("sold".to_string(), sold);
    }
    AnalyzedTransaction {
        txn_hash: "hash".to_string(),
        block,
        fee_payer: "payer".to_string(),
        bought_tokens,
        sold_tokens,
        gas_fee: 5000,
        native_delta: -6000,
        native_delta_without_gas: -1000,
        success,
    }
}

#[test]
fn the_trades_of_a_block_are_selected_in_order() {
    let selected = select_trades(vec![
        Ok(transaction(1, true, 1, 0)),
        Err(AnalysisError::UnableToExtractHash),
        Ok(transaction(2, false, 1, 1)),
        Ok(transaction(3, true, 0, 1)),
        Ok(transaction(4, true, 0, 0)),
        Ok(transaction(5, true, 1, 1)),
    ]);
    assert_eq!(selected.iter().map(|t| t.block).collect::<Vec<_>>(), vec![1, 3, 5]);
    assert!(select_trades(Vec::new()).is_empty());
}

#[test]
fn the_selection_from_two_rows_is_that_from_both() {
    let left = || vec![Ok(transaction(1, true, 1, 0)), Ok(transaction(2, false, 1, 0))];
    let right = || {
        vec![Err(AnalysisError::MissingTransactionMeta), Ok(transaction(3, true, 0, 2))]
    };
    let blocks = |selected: Vec<AnalyzedTransaction>| {
        selected.iter().map(|t| t.block).collect::<Vec<_>>()
    };
    let mut both = left();
    both.extend(right());
    let mut parts = blocks(select_trades(left()));
    parts.extend(blocks(select_trades(right())));
    assert_eq!(blocks(select_trades(both)), parts);
}

#[test]
fn batches_lose_nothing_and_keep_the_order() {
    let mut pool = TransactionPool::new();
    let mut stored = Vec::new();
    for block in 0..250u64 {
        match pool.push(transaction(block, true, 1, 0)) {
            Some(batch) => {
                assert_eq!(batch.len(), BATCH_SIZE);
                assert_eq!(block % 100, 99);
                stored.extend(batch.into_iter().map(|t| t.block));
            }
            None => assert_ne!(block % 100, 99),
        }
    }
    assert_eq!(stored, (0..200u64).collect::<Vec<_>>());
    assert_eq!(BATCH_SIZE, 100);
}

#[test]
fn a_row_keeps_all_of_a_transaction() {
    let row = TransactionRow::new(transaction(18446744073709551615, true, 3, 4));
    assert_eq!(row.txn_hash, "hash");
    assert_eq!(row.block, "18446744073709551615");
    assert_eq!(row.fee_payer, "payer");
    assert_eq!(row.bought_tokens.entries(), &vec![("bought".to_string(), 3)]);
    assert_eq!(row.sold_tokens.entries(), &vec![("sold".to_string(), 4)]);
    assert_eq!(row.gas_fee, "5000");
    assert_eq!(row.native_delta, "-6000");
    assert_eq!(row.native_delta_without_gas, "-1000");
    assert!(row.success);
}

#[test]
fn slots_have_their_own_keys() {
    assert_eq!(slot_key(0), "0");
    assert_eq!(slot_key(250_000_000), "250000000");
    assert_ne!(slot_key(1), slot_key(10));
}
