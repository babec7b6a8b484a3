//! The rows that the database keeps. Numbers are kept as text there, since its integers
//! are too small for them.
use vstd::prelude::*;

use crate::analysis::AnalyzedTransaction;
use crate::decimal::{
    decimal, i128_to_string, law_numbers_are_told_apart, law_numbers_read_back, parsed_u64,
    signed_decimal, u128_to_string,
};
use crate::tokens::TokenAmounts;

verus! {

/// A row of the table of analyzed transactions.
#[derive(Debug)]
pub struct TransactionRow {
    pub txn_hash: String,
    pub block: String,
    pub fee_payer: String,
    pub bought_tokens: TokenAmounts,
    pub sold_tokens: TokenAmounts,
    pub gas_fee: String,
    pub native_delta: String,
    pub native_delta_without_gas: String,
    pub success: bool,
}

impl TransactionRow {
    /// Whether this is the row of a transaction.
    pub open spec fn of(&self, txn: AnalyzedTransaction) -> bool {
        &&& self.txn_hash@ == txn.txn_hash@
        &&& self.block@ == decimal(txn.block as nat)
        &&& self.fee_payer@ == txn.fee_payer@
        &&& self.bought_tokens == txn.bought_tokens
        &&& self.sold_tokens == txn.sold_tokens
        &&& self.gas_fee@ == decimal(txn.gas_fee as nat)
        &&& self.native_delta@ == signed_decimal(txn.native_delta as int)
        &&& self.native_delta_without_gas@ == signed_decimal(txn.native_delta_without_gas as int)
        &&& self.success == txn.success
    }

    /// Makes the row of a transaction.
    pub fn new(txn: AnalyzedTransaction) -> (row: TransactionRow)
        ensures
            row.of(txn),
            row.txn_hash@ == txn.txn_hash@,
            row.block@ == decimal(txn.block as nat),
            row.fee_payer@ == txn.fee_payer@,
            row.bought_tokens == txn.bought_tokens,
            row.sold_tokens == txn.sold_tokens,
            row.gas_fee@ == decimal(txn.gas_fee as nat),
            row.native_delta@ == signed_decimal(txn.native_delta as int),
            row.native_delta_without_gas@ == signed_decimal(txn.native_delta_without_gas as int),
            row.success == txn.success,
    {
        TransactionRow {
            txn_hash: txn.txn_hash,
            block: u128_to_string(txn.block as u128),
            fee_payer: txn.fee_payer,
            bought_tokens: txn.bought_tokens,
            sold_tokens: txn.sold_tokens,
            gas_fee: u128_to_string(txn.gas_fee as u128),
            native_delta: i128_to_string(txn.native_delta),
            native_delta_without_gas: i128_to_string(txn.native_delta_without_gas),
            success: txn.success,
        }
    }
}

/// Makes the key of a slot in the table of analyzed slots.
pub fn slot_key(slot: u64) -> (key: String)
    ensures
        key@ == decimal(slot as nat),
{
    u128_to_string(slot as u128)
}

/// A row keeps all of a transaction: two transactions with one row do not differ.
pub proof fn law_rows_keep_everything(
    row: TransactionRow,
    a: AnalyzedTransaction,
    b: AnalyzedTransaction,
)
    requires
        row.of(a),
        row.of(b),
    ensures
        a.txn_hash@ == b.txn_hash@,
        a.block == b.block,
        a.fee_payer@ == b.fee_payer@,
        a.bought_tokens == b.bought_tokens,
        a.sold_tokens == b.sold_tokens,
        a.gas_fee == b.gas_fee,
        a.native_delta == b.native_delta,
        a.native_delta_without_gas == b.native_delta_without_gas,
        a.success == b.success,
{
    law_numbers_are_told_apart(a.block as int, b.block as int);
    law_numbers_are_told_apart(a.gas_fee as int, b.gas_fee as int);
    law_numbers_are_told_apart(a.native_delta as int, b.native_delta as int);
    law_numbers_are_told_apart(
        a.native_delta_without_gas as int,
        b.native_delta_without_gas as int,
    );
}

/// Two slots never share a key.
pub proof fn law_slots_have_their_own_keys(a: u64, b: u64)
    requires
        decimal(a as nat) == decimal(b as nat),
    ensures
        a == b,
{
    law_numbers_are_told_apart(a as int, b as int);
}

/// Each column of a row holds the field of its own name, numbers in decimal.
pub proof fn law_columns_hold_their_fields(row: TransactionRow, txn: AnalyzedTransaction)
    requires
        row.of(txn),
    ensures
        row.txn_hash@ == txn.txn_hash@,
        row.block@ == decimal(txn.block as nat),
        row.fee_payer@ == txn.fee_payer@,
        row.bought_tokens@ == txn.bought_tokens@,
        row.sold_tokens@ == txn.sold_tokens@,
        row.gas_fee@ == decimal(txn.gas_fee as nat),
        row.native_delta@ == signed_decimal(txn.native_delta as int),
        row.native_delta_without_gas@ == signed_decimal(txn.native_delta_without_gas as int),
        row.success == txn.success,
{
}

/// The block and the fee of a transaction can be read back from its row.
pub proof fn law_rows_read_back(row: TransactionRow, txn: AnalyzedTransaction)
    requires
        row.of(txn),
    ensures
        parsed_u64(row.block@) == Some(txn.block),
        parsed_u64(row.gas_fee@) == Some(txn.gas_fee),
{
    law_numbers_read_back(txn.block);
    law_numbers_read_back(txn.gas_fee);
}

/// A column changes with its own field only: a transaction that differs in its native
/// change alone has a row that differs in that column alone.
pub proof fn law_columns_do_not_mix(
    row: TransactionRow,
    other: TransactionRow,
    txn: AnalyzedTransaction,
    native_delta: i128,
)
    requires
        row.of(txn),
        other.of(AnalyzedTransaction { native_delta, ..txn }),
    ensures
        other.native_delta_without_gas@ == row.native_delta_without_gas@,
        other.gas_fee@ == row.gas_fee@,
        other.block@ == row.block@,
        other.native_delta@ == row.native_delta@ <==> native_delta == txn.native_delta,
{
    if other.native_delta@ == row.native_delta@ {
        law_numbers_are_told_apart(native_delta as int, txn.native_delta as int);
    }
}

} // verus!
