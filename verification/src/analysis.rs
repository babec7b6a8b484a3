//! What a transaction did to the account that paid for it.
use vstd::prelude::*;

use crate::balances::{gained, law_only_changes_are_reported, token_changes, Balances};
use crate::decimal::{parse_u64, parsed_u64};
use crate::helpers::{
    account_count, account_given, account_is, accounts_readable,
    fee_payer_from_encoded_transaction, given, hash_from_encoded_transaction, hash_is,
    hash_readable, is_account_list_readable, is_blob, is_hash_readable,
    law_fee_payer_is_first_account, law_hash_is_first_signature,
    law_listed_transactions_must_be_readable, listed_accounts, listed_signatures,
    option_ser_to_option, payer, read_pubkey, transaction_accounts, transaction_hash,
};
use crate::keys::{
    parse_pubkey, parsed_pubkey, pubkey_text, pubkey_to_string, signature_text,
    signature_to_string, Pubkey, Signature,
};
use crate::pairs::{lemma_pairs_keys, pairs_map};
use crate::tokens::{by_text, texts_read_back, TokenAmounts};
use crate::transaction::{
    EncodedConfirmedTransactionWithStatusMeta, OptionSerializer, UiTransactionStatusMeta,
    UiTransactionTokenBalance,
};

verus! {

/// What a transaction did to the account that paid for it. The amounts of tokens are
/// in their smallest unit, the others in lamports.
#[derive(Debug)]
pub struct AnalyzedTransaction {
    pub txn_hash: String,
    pub block: u64,
    pub fee_payer: String,
    pub bought_tokens: TokenAmounts,
    pub sold_tokens: TokenAmounts,
    pub gas_fee: u64,
    pub native_delta: i128,
    pub native_delta_without_gas: i128,
    pub success: bool,
}

/// Why a transaction cannot be analyzed.
#[derive(Clone, Copy, Debug, PartialEq, Eq, Structural)]
pub enum AnalysisError {
    UnableToIdentifyFeePayer,
    UnableToExtractHash,
    MissingTransactionMeta,
    MissingPreTokenBalancesList,
    MissingPostTokenBalancesList,
}

impl AnalysisError {
    /// The sentence that tells a reader of the error.
    pub open spec fn sentence(self) -> Seq<char> {
        match self {
            AnalysisError::UnableToIdentifyFeePayer => "The fee payer could not be identified."@,
            AnalysisError::UnableToExtractHash => "The transaction hash could not be extracted."@,
            AnalysisError::MissingTransactionMeta =>
                "The transaction metadata was not provided by the RPC node."@,
            AnalysisError::MissingPreTokenBalancesList =>
                "The pre token balances were not provided by the RPC node."@,
            AnalysisError::MissingPostTokenBalancesList =>
                "The post token balances were not provided by the RPC node."@,
        }
    }

    /// Tells a reader of the error.
    pub fn message(&self) -> (text: String)
        ensures
            text@ == self.sentence(),
            self is UnableToIdentifyFeePayer ==> text@ == "The fee payer could not be identified."@,
            self is UnableToExtractHash ==> text@
                == "The transaction hash could not be extracted."@,
            self is MissingTransactionMeta ==> text@
                == "The transaction metadata was not provided by the RPC node."@,
            self is MissingPreTokenBalancesList ==> text@
                == "The pre token balances were not provided by the RPC node."@,
            self is MissingPostTokenBalancesList ==> text@
                == "The post token balances were not provided by the RPC node."@,
    {
        match self {
            AnalysisError::UnableToIdentifyFeePayer => {
                "The fee payer could not be identified.".to_string()
            },
            AnalysisError::UnableToExtractHash => {
                "The transaction hash could not be extracted.".to_string()
            },
            AnalysisError::MissingTransactionMeta => {
                "The transaction metadata was not provided by the RPC node.".to_string()
            },
            AnalysisError::MissingPreTokenBalancesList => {
                "The pre token balances were not provided by the RPC node.".to_string()
            },
            AnalysisError::MissingPostTokenBalancesList => {
                "The post token balances were not provided by the RPC node.".to_string()
            },
        }
    }
}

/// The owner that a token balance names, `None` where it names none that can be read.
pub open spec fn named_owner(balance: UiTransactionTokenBalance) -> Option<Pubkey> {
    match given(balance.owner) {
        Some(text) => parsed_pubkey(text@),
        None => None,
    }
}

/// Whether a token balance is one of an account of `owner`.
pub open spec fn owned(balance: UiTransactionTokenBalance, owner: Pubkey) -> bool {
    named_owner(balance) == Some(owner)
}

/// The mint and the amount of a token balance.
pub open spec fn holding(balance: UiTransactionTokenBalance) -> (Pubkey, u64) {
    (parsed_pubkey(balance.mint@)->0, parsed_u64(balance.ui_token_amount.amount@)->0)
}

/// Whether a token balance can be read: its owner, where it names one, is an address,
/// and where that is `owner`, its mint is an address and its amount a number.
pub open spec fn balance_readable(balance: UiTransactionTokenBalance, owner: Pubkey) -> bool {
    &&& given(balance.owner) is Some ==> named_owner(balance) is Some
    &&& owned(balance, owner) ==> parsed_pubkey(balance.mint@) is Some && parsed_u64(
        balance.ui_token_amount.amount@,
    ) is Some
}

/// Whether every token balance of a list can be read.
pub open spec fn balances_readable(
    balances: Seq<UiTransactionTokenBalance>,
    owner: Pubkey,
) -> bool {
    forall|i: int| 0 <= i < balances.len() ==> balance_readable(#[trigger] balances[i], owner)
}

/// The mints and amounts of the token balances of `owner`, in their order.
pub open spec fn holdings(
    balances: Seq<UiTransactionTokenBalance>,
    owner: Pubkey,
) -> Seq<(Pubkey, u64)>
    decreases balances.len(),
{
    if balances.len() == 0 {
        Seq::empty()
    } else {
        let before = holdings(balances.drop_last(), owner);
        if owned(balances.last(), owner) {
            before.push(holding(balances.last()))
        } else {
            before
        }
    }
}

/// What `owner` holds of each token, by a list of token balances. Where the list names
/// a token twice, the last amount counts.
pub open spec fn token_holdings(
    balances: Seq<UiTransactionTokenBalance>,
    owner: Pubkey,
) -> Map<Pubkey, u64> {
    pairs_map(holdings(balances, owner))
}

/// Whether the mints of the token balances of `owner` display the texts that they were
/// read from.
pub open spec fn mints_display_as_given(
    balances: Seq<UiTransactionTokenBalance>,
    owner: Pubkey,
) -> bool {
    forall|i: int|
        0 <= i < balances.len() && owned(#[trigger] balances[i], owner) ==> pubkey_text(
            holding(balances[i]).0,
        ) == balances[i].mint@
}

/// Whether a list has a balance at a place, and that balance names `owner`.
pub open spec fn belongs(
    balances: Seq<UiTransactionTokenBalance>,
    at: int,
    owner: Pubkey,
) -> bool {
    0 <= at < balances.len() && (balances[at].owner matches OptionSerializer::Present(text)
        && parsed_pubkey(text@) == Some(owner))
}

/// The owner of a token balance, where it names one.
fn read_owner(balance: &UiTransactionTokenBalance) -> (owner: Option<Pubkey>)
    ensures
        owner == named_owner(*balance),
{
    match &balance.owner {
        OptionSerializer::Present(text) => parse_pubkey(text.as_str()),
        _ => None,
    }
}

/// Whether the owner that was read off a token balance, if any, is `owner`.
pub fn is_owned_by(named: Option<Pubkey>, owner: &Pubkey) -> (is: bool)
    ensures
        is == (named == Some(*owner)),
{
    match named {
        Some(key) => key == *owner,
        None => false,
    }
}

/// Picks the token balances of `owner` out of a list.
pub fn holdings_of(balances: &Vec<UiTransactionTokenBalance>, owner: &Pubkey) -> (entries: Vec<
    (Pubkey, u64),
>)
    requires
        balances_readable(balances@, *owner),
    ensures
        entries@ == holdings(balances@, *owner),
        mints_display_as_given(balances@, *owner),
        forall|i: int| #[trigger]
            belongs(balances@, i, *owner) ==> exists|entry: (Pubkey, u64)| #[trigger]
                entries@.contains(entry) && parsed_pubkey(balances@[i].mint@) == Some(entry.0)
                    && parsed_u64(balances@[i].ui_token_amount.amount@) == Some(entry.1),
        forall|entry: (Pubkey, u64)| #[trigger]
            entries@.contains(entry) ==> exists|i: int| #[trigger]
                belongs(balances@, i, *owner) && parsed_pubkey(balances@[i].mint@) == Some(entry.0)
                    && parsed_u64(balances@[i].ui_token_amount.amount@) == Some(entry.1),
{
    let mut entries: Vec<(Pubkey, u64)> = Vec::new();
    for i in 0..balances.len()
        invariant
            balances_readable(balances@, *owner),
            entries@ == holdings(balances@.take(i as int), *owner),
            forall|j: int|
                0 <= j < i && owned(#[trigger] balances@[j], *owner) ==> pubkey_text(
                    holding(balances@[j]).0,
                ) == balances@[j].mint@,
    {
        let balance = &balances[i];
        assert(balance_readable(balances@[i as int], *owner));
        assert(balances@.take(i + 1).drop_last() =~= balances@.take(i as int));
        if is_owned_by(read_owner(balance), owner) {
            let mint = read_pubkey(balance.mint.as_str());
            let amount: u64 = parse_u64(balance.ui_token_amount.amount.as_str()).unwrap();
            entries.push((mint, amount));
        }
    }
    assert(balances@.take(balances@.len() as int) =~= balances@);
    proof {
        law_holdings_are_the_owners_balances(balances@, *owner);
    }
    entries
}

/// Collects what `owner` holds of each token, by a list of token balances.
fn balances_of(balances: &Vec<UiTransactionTokenBalance>, owner: &Pubkey) -> (held: Balances)
    requires
        balances_readable(balances@, *owner),
    ensures
        held.wf(),
        held@ == token_holdings(balances@, *owner),
        mints_display_as_given(balances@, *owner),
{
    Balances::from_entries(&holdings_of(balances, owner))
}

/// Tests whether every token balance of a list can be read.
fn check_balances(balances: &Vec<UiTransactionTokenBalance>, owner: &Pubkey) -> (readable: bool)
    ensures
        readable == balances_readable(balances@, *owner),
{
    for i in 0..balances.len()
        invariant
            forall|j: int| 0 <= j < i ==> balance_readable(#[trigger] balances@[j], *owner),
    {
        let balance = &balances[i];
        let readable = match &balance.owner {
            OptionSerializer::Present(text) => match parse_pubkey(text.as_str()) {
                Some(key) => key != *owner || (parse_pubkey(balance.mint.as_str()).is_some()
                    && parse_u64(balance.ui_token_amount.amount.as_str()).is_some()),
                None => false,
            },
            _ => true,
        };
        assert(readable == balance_readable(balances@[i as int], *owner));
        if !readable {
            return false;
        }
    }
    true
}

/// Whether a transaction can be analyzed, or refused with an error: what has to be read
/// of it can be read.
pub open spec fn analyzable(txn: EncodedConfirmedTransactionWithStatusMeta) -> bool {
    let encoded = txn.transaction.transaction;
    txn.transaction.meta matches Some(meta) ==> {
        &&& hash_readable(encoded)
        &&& transaction_hash(encoded) is Some ==> {
            &&& accounts_readable(encoded)
            &&& payer(transaction_accounts(encoded)) matches Some(key) ==> {
                &&& meta.pre_balances@.len() > 0
                &&& meta.post_balances@.len() > 0
                &&& given(meta.pre_token_balances) is Some && given(
                    meta.post_token_balances,
                ) is Some ==> {
                    &&& balances_readable(given(meta.pre_token_balances)->0@, key)
                    &&& balances_readable(given(meta.post_token_balances)->0@, key)
                }
            }
        }
    }
}

/// What stands against the analysis of a transaction, `None` where nothing does. Of
/// several reasons the first one counts.
pub open spec fn obstacle(txn: EncodedConfirmedTransactionWithStatusMeta) -> Option<AnalysisError> {
    let encoded = txn.transaction.transaction;
    match txn.transaction.meta {
        None => Some(AnalysisError::MissingTransactionMeta),
        Some(meta) => if transaction_hash(encoded) is None {
            Some(AnalysisError::UnableToExtractHash)
        } else if payer(transaction_accounts(encoded)) is None {
            Some(AnalysisError::UnableToIdentifyFeePayer)
        } else if given(meta.pre_token_balances) is None {
            Some(AnalysisError::MissingPreTokenBalancesList)
        } else if given(meta.post_token_balances) is None {
            Some(AnalysisError::MissingPostTokenBalancesList)
        } else {
            None
        },
    }
}

/// What the analysis reads off a transaction: the balances are those of its fee payer.
#[derive(Debug)]
pub struct TransactionFacts {
    pub hash: Signature,
    pub slot: u64,
    pub fee_payer: Pubkey,
    pub fee: u64,
    pub success: bool,
    pub pre_native_balance: u64,
    pub post_native_balance: u64,
    pub pre_balances: Balances,
    pub post_balances: Balances,
}

/// The contents of `TransactionFacts`.
#[verifier::ext_equal]
pub struct TransactionFactsView {
    pub hash: Signature,
    pub slot: u64,
    pub fee_payer: Pubkey,
    pub fee: u64,
    pub success: bool,
    pub pre_native_balance: u64,
    pub post_native_balance: u64,
    pub pre_balances: Map<Pubkey, u64>,
    pub post_balances: Map<Pubkey, u64>,
}

impl View for TransactionFacts {
    type V = TransactionFactsView;

    open spec fn view(&self) -> TransactionFactsView {
        TransactionFactsView {
            hash: self.hash,
            slot: self.slot,
            fee_payer: self.fee_payer,
            fee: self.fee,
            success: self.success,
            pre_native_balance: self.pre_native_balance,
            post_native_balance: self.post_native_balance,
            pre_balances: self.pre_balances@,
            post_balances: self.post_balances@,
        }
    }
}

impl TransactionFacts {
    /// The balances name no token twice.
    pub open spec fn wf(&self) -> bool {
        self.pre_balances.wf() && self.post_balances.wf()
    }
}

/// The token balances before a transaction.
pub open spec fn balances_before(
    txn: EncodedConfirmedTransactionWithStatusMeta,
) -> Seq<UiTransactionTokenBalance> {
    given(txn.transaction.meta->0.pre_token_balances)->0@
}

/// The token balances after a transaction.
pub open spec fn balances_after(
    txn: EncodedConfirmedTransactionWithStatusMeta,
) -> Seq<UiTransactionTokenBalance> {
    given(txn.transaction.meta->0.post_token_balances)->0@
}

/// What is to be read off a transaction that nothing stands against the analysis of.
pub open spec fn facts_of(txn: EncodedConfirmedTransactionWithStatusMeta) -> TransactionFactsView
    recommends
        analyzable(txn),
        obstacle(txn) is None,
{
    let encoded = txn.transaction.transaction;
    let meta = txn.transaction.meta->0;
    let fee_payer = payer(transaction_accounts(encoded))->0;
    TransactionFactsView {
        hash: transaction_hash(encoded)->0,
        slot: txn.slot,
        fee_payer,
        fee: meta.fee,
        success: meta.status is Ok,
        pre_native_balance: meta.pre_balances@[0],
        post_native_balance: meta.post_balances@[0],
        pre_balances: token_holdings(balances_before(txn), fee_payer),
        post_balances: token_holdings(balances_after(txn), fee_payer),
    }
}

impl TransactionFactsView {
    /// The tokens that the fee payer held more of afterwards, or only afterwards.
    pub open spec fn bought(self) -> Map<Pubkey, u64> {
        gained(self.pre_balances, self.post_balances)
    }

    /// The tokens that the fee payer held less of afterwards, or only before.
    pub open spec fn sold(self) -> Map<Pubkey, u64> {
        gained(self.post_balances, self.pre_balances)
    }
}

/// Whether a result is what the analysis of a transaction has to come to: the error
/// that stands against it, or else what its facts amount to. Where the transaction
/// lists its signatures and accounts as texts, its hash and its fee payer are the first
/// of them as they stand, and the mints of the tokens are named as they were given. A
/// blob that has a hash has a fee payer too.
pub open spec fn is_outcome(
    result: Result<AnalyzedTransaction, AnalysisError>,
    txn: EncodedConfirmedTransactionWithStatusMeta,
) -> bool {
    let signatures = listed_signatures(txn.transaction.transaction);
    let accounts = listed_accounts(txn.transaction.transaction);
    match result {
        Err(error) => {
            &&& obstacle(txn) == Some(error)
            &&& error is UnableToIdentifyFeePayer ==> !is_blob(txn.transaction.transaction)
        },
        Ok(analyzed) => {
            &&& obstacle(txn) is None
            &&& analyzed.wf()
            &&& analyzed.follows_from(facts_of(txn))
            &&& signatures.len() > 0 ==> analyzed.txn_hash@ == signatures[0]
            &&& accounts.len() > 0 ==> analyzed.fee_payer@ == accounts[0]
            &&& mints_display_as_given(balances_before(txn), facts_of(txn).fee_payer)
            &&& mints_display_as_given(balances_after(txn), facts_of(txn).fee_payer)
        },
    }
}

impl AnalyzedTransaction {
    /// No token is named twice among the bought ones, nor among the sold ones.
    pub open spec fn wf(&self) -> bool {
        self.bought_tokens.wf() && self.sold_tokens.wf()
    }

    /// Whether this is what the facts of a transaction amount to.
    pub open spec fn follows_from(&self, facts: TransactionFactsView) -> bool {
        &&& self.txn_hash@ == signature_text(facts.hash)
        &&& self.block == facts.slot
        &&& self.fee_payer@ == pubkey_text(facts.fee_payer)
        &&& self.bought_tokens@ == by_text(facts.bought())
        &&& self.sold_tokens@ == by_text(facts.sold())
        &&& texts_read_back(facts.bought())
        &&& texts_read_back(facts.sold())
        &&& self.gas_fee == facts.fee
        &&& self.native_delta == facts.post_native_balance - facts.pre_native_balance
        &&& self.native_delta_without_gas == self.native_delta + facts.fee
        &&& self.success == facts.success
    }

    /// Works out what the facts of a transaction amount to.
    pub fn from_facts(facts: &TransactionFacts) -> (analyzed: AnalyzedTransaction)
        requires
            facts.wf(),
        ensures
            analyzed.wf(),
            analyzed.follows_from(facts@),
            analyzed.native_delta == facts.post_native_balance - facts.pre_native_balance,
            analyzed.native_delta_without_gas - analyzed.native_delta == facts.fee,
            analyzed.gas_fee == facts.fee,
            analyzed.block == facts.slot,
            analyzed.success == facts.success,
            analyzed.txn_hash@ == signature_text(facts.hash),
            analyzed.fee_payer@ == pubkey_text(facts.fee_payer),
    {
        let native_delta: i128 = facts.post_native_balance as i128
            - facts.pre_native_balance as i128;
        let native_delta_without_gas: i128 = native_delta + facts.fee as i128;
        let changes = token_changes(&facts.pre_balances, &facts.post_balances);
        AnalyzedTransaction {
            txn_hash: signature_to_string(&facts.hash),
            block: facts.slot,
            fee_payer: pubkey_to_string(&facts.fee_payer),
            bought_tokens: TokenAmounts::from_balances(&changes.bought),
            sold_tokens: TokenAmounts::from_balances(&changes.sold),
            gas_fee: facts.fee,
            native_delta,
            native_delta_without_gas,
            success: facts.success,
        }
    }

    /// Analyzes a transaction.
    pub fn try_from(txn: EncodedConfirmedTransactionWithStatusMeta) -> (analyzed: Result<
        AnalyzedTransaction,
        AnalysisError,
    >)
        requires
            analyzable(txn),
        ensures
            is_outcome(analyzed, txn),
            analyzed matches Ok(a) ==> txn.transaction.meta matches Some(m) && a.native_delta
                == m.post_balances@[0] - m.pre_balances@[0] && a.gas_fee == m.fee
                && a.native_delta_without_gas - a.native_delta == m.fee && a.success == (m.status
                is Ok) && a.block == txn.slot,
    {
        let meta = match txn.transaction.meta {
            Some(meta) => meta,
            None => {
                return Err(AnalysisError::MissingTransactionMeta);
            },
        };
        let hash = match hash_from_encoded_transaction(&txn.transaction.transaction) {
            Some(hash) => hash,
            None => {
                return Err(AnalysisError::UnableToExtractHash);
            },
        };
        let fee_payer = match fee_payer_from_encoded_transaction(&txn.transaction.transaction) {
            Some(fee_payer) => fee_payer,
            None => {
                return Err(AnalysisError::UnableToIdentifyFeePayer);
            },
        };
        let pre_native_balance: u64 = meta.pre_balances[0];
        let post_native_balance: u64 = meta.post_balances[0];
        let all_pre_balances = match option_ser_to_option(meta.pre_token_balances) {
            Some(balances) => balances,
            None => {
                return Err(AnalysisError::MissingPreTokenBalancesList);
            },
        };
        let all_post_balances = match option_ser_to_option(meta.post_token_balances) {
            Some(balances) => balances,
            None => {
                return Err(AnalysisError::MissingPostTokenBalancesList);
            },
        };
        let facts = TransactionFacts {
            hash,
            slot: txn.slot,
            fee_payer,
            fee: meta.fee,
            success: meta.status.is_ok(),
            pre_native_balance,
            post_native_balance,
            pre_balances: balances_of(&all_pre_balances, &fee_payer),
            post_balances: balances_of(&all_post_balances, &fee_payer),
        };
        assert(facts@ =~= facts_of(txn));
        Ok(AnalyzedTransaction::from_facts(&facts))
    }

    /// Whether `try_from` may be asked to analyze a transaction.
    pub fn is_analyzable(txn: &EncodedConfirmedTransactionWithStatusMeta) -> (is: bool)
        ensures
            is == analyzable(*txn),
    {
        let encoded = &txn.transaction.transaction;
        let meta = match &txn.transaction.meta {
            Some(meta) => meta,
            None => {
                return true;
            },
        };
        if !is_hash_readable(encoded) {
            return false;
        }
        if hash_from_encoded_transaction(encoded).is_none() {
            return true;
        }
        if !is_account_list_readable(encoded) {
            return false;
        }
        let fee_payer = match fee_payer_from_encoded_transaction(encoded) {
            Some(fee_payer) => fee_payer,
            None => {
                return true;
            },
        };
        if meta.pre_balances.len() == 0 || meta.post_balances.len() == 0 {
            return false;
        }
        match (&meta.pre_token_balances, &meta.post_token_balances) {
            (OptionSerializer::Present(pre), OptionSerializer::Present(post)) => check_balances(
                pre,
                &fee_payer,
            ) && check_balances(post, &fee_payer),
            _ => true,
        }
    }

    /// Analyzes a transaction that comes from outside. It is `None` where something that
    /// has to be read of the transaction cannot be read.
    pub fn analyze(txn: EncodedConfirmedTransactionWithStatusMeta) -> (analyzed: Option<
        Result<AnalyzedTransaction, AnalysisError>,
    >)
        ensures
            analyzed is Some <==> analyzable(txn),
            analyzed matches Some(result) ==> is_outcome(result, txn),
            analyzed matches Some(Ok(a)) ==> txn.transaction.meta matches Some(m) && a.native_delta
                == m.post_balances@[0] - m.pre_balances@[0] && a.gas_fee == m.fee
                && a.native_delta_without_gas - a.native_delta == m.fee && a.success == (m.status
                is Ok) && a.block == txn.slot,
    {
        if AnalyzedTransaction::is_analyzable(&txn) {
            Some(AnalyzedTransaction::try_from(txn))
        } else {
            None
        }
    }

    /// Whether the transaction succeeded and tokens changed hands in it.
    pub open spec fn trades(&self) -> bool {
        self.success && (self.bought_tokens@ != Map::<Seq<char>, u64>::empty()
            || self.sold_tokens@ != Map::<Seq<char>, u64>::empty())
    }

    /// Whether the transaction succeeded and the fee payer bought or sold a token in it.
    pub fn is_trade(&self) -> (is: bool)
        ensures
            is == self.trades(),
            is == (self.success && (self.bought_tokens@ != Map::<Seq<char>, u64>::empty()
                || self.sold_tokens@ != Map::<Seq<char>, u64>::empty())),
    {
        self.success && (!self.bought_tokens.is_empty() || !self.sold_tokens.is_empty())
    }
}

/// A transaction with the balances before and after it exchanged.
pub open spec fn reversed(facts: TransactionFactsView) -> TransactionFactsView {
    TransactionFactsView {
        pre_native_balance: facts.post_native_balance,
        post_native_balance: facts.pre_native_balance,
        pre_balances: facts.post_balances,
        post_balances: facts.pre_balances,
        ..facts
    }
}

/// The facts of a transaction leave no choice in its analysis.
pub proof fn law_facts_determine_the_analysis(
    a: AnalyzedTransaction,
    b: AnalyzedTransaction,
    facts: TransactionFactsView,
)
    requires
        a.follows_from(facts),
        b.follows_from(facts),
    ensures
        a.txn_hash@ == b.txn_hash@,
        a.block == b.block,
        a.fee_payer@ == b.fee_payer@,
        a.bought_tokens@ == b.bought_tokens@,
        a.sold_tokens@ == b.sold_tokens@,
        a.gas_fee == b.gas_fee,
        a.native_delta == b.native_delta,
        a.native_delta_without_gas == b.native_delta_without_gas,
        a.success == b.success,
{
}

/// Where the balances before and after are exchanged, what was bought was sold, what was
/// sold was bought, and what was gained was lost.
pub proof fn law_reversal_exchanges_bought_and_sold(
    a: AnalyzedTransaction,
    b: AnalyzedTransaction,
    facts: TransactionFactsView,
)
    requires
        a.follows_from(facts),
        b.follows_from(reversed(facts)),
    ensures
        b.bought_tokens@ == a.sold_tokens@,
        b.sold_tokens@ == a.bought_tokens@,
        b.native_delta == -a.native_delta,
{
}

/// No token is named both among the bought ones and among the sold ones.
pub proof fn law_no_token_is_bought_and_sold(
    a: AnalyzedTransaction,
    facts: TransactionFactsView,
    mint: Seq<char>,
)
    requires
        a.follows_from(facts),
    ensures
        !(a.bought_tokens@.contains_key(mint) && a.sold_tokens@.contains_key(mint)),
{
}

/// A transaction is a trade exactly where it succeeded and some token was recorded
/// otherwise after it than before it.
pub proof fn law_trades_are_changes(a: AnalyzedTransaction, facts: TransactionFactsView)
    requires
        a.follows_from(facts),
    ensures
        a.trades() <==> facts.success && facts.pre_balances != facts.post_balances,
{
    let none = Map::<Seq<char>, u64>::empty();
    if facts.pre_balances == facts.post_balances {
        assert(a.bought_tokens@ =~= none);
        assert(a.sold_tokens@ =~= none);
    } else {
        if forall|mint: Pubkey| #[trigger]
            facts.pre_balances.get(mint) == facts.post_balances.get(mint) {
            assert forall|mint: Pubkey| #[trigger] facts.pre_balances.contains_key(mint)
                == facts.post_balances.contains_key(mint) by {
                assert(facts.pre_balances.get(mint) == facts.post_balances.get(mint));
            }
            assert forall|mint: Pubkey| #[trigger] facts.pre_balances.contains_key(mint) implies
                facts.pre_balances[mint] == facts.post_balances[mint] by {
                assert(facts.pre_balances.get(mint) == facts.post_balances.get(mint));
            }
            assert(facts.pre_balances =~= facts.post_balances);
        }
        let mint = choose|mint: Pubkey| #[trigger]
            facts.pre_balances.get(mint) != facts.post_balances.get(mint);
        law_only_changes_are_reported(facts.pre_balances, facts.post_balances, mint);
        if facts.bought().contains_key(mint) {
            assert(a.bought_tokens@.contains_key(pubkey_text(mint)));
        } else {
            assert(facts.sold().contains_key(mint));
            assert(a.sold_tokens@.contains_key(pubkey_text(mint)));
        }
    }
}

/// The holdings of a list are those of its parts, one after the other.
proof fn lemma_holdings_of_parts(
    left: Seq<UiTransactionTokenBalance>,
    right: Seq<UiTransactionTokenBalance>,
    owner: Pubkey,
)
    ensures
        holdings(left + right, owner) == holdings(left, owner) + holdings(right, owner),
    decreases right.len(),
{
    if right.len() == 0 {
        assert(left + right =~= left);
    } else {
        lemma_holdings_of_parts(left, right.drop_last(), owner);
        assert((left + right).drop_last() =~= left + right.drop_last());
        assert(holdings(left + right, owner) =~= holdings(left, owner) + holdings(right, owner));
    }
}

/// What others hold does not count.
pub proof fn law_balances_of_others_do_not_count(
    left: Seq<UiTransactionTokenBalance>,
    other: UiTransactionTokenBalance,
    right: Seq<UiTransactionTokenBalance>,
    owner: Pubkey,
)
    requires
        !owned(other, owner),
    ensures
        token_holdings(left.push(other) + right, owner) == token_holdings(left + right, owner),
{
    lemma_holdings_of_parts(left.push(other), right, owner);
    lemma_holdings_of_parts(left, right, owner);
    assert(left.push(other).drop_last() =~= left);
}

/// Of several amounts that a list names of one token the last one counts.
pub proof fn law_last_balance_counts(
    balances: Seq<UiTransactionTokenBalance>,
    last: UiTransactionTokenBalance,
    owner: Pubkey,
)
    requires
        owned(last, owner),
    ensures
        token_holdings(balances.push(last), owner) == token_holdings(balances, owner).insert(
            holding(last).0,
            holding(last).1,
        ),
{
    assert(balances.push(last).drop_last() =~= balances);
    let before = holdings(balances, owner);
    assert(before.push(holding(last)).drop_last() =~= before);
}

/// Whether a list names a token by a text, in a balance of `owner`.
pub open spec fn lists(
    balances: Seq<UiTransactionTokenBalance>,
    owner: Pubkey,
    mint: Seq<char>,
) -> bool {
    exists|i: int|
        0 <= i < balances.len() && owned(#[trigger] balances[i], owner) && balances[i].mint@ == mint
}

/// Every holding comes from a token balance of the owner.
proof fn lemma_holdings_are_listed(balances: Seq<UiTransactionTokenBalance>, owner: Pubkey, at: int)
    requires
        0 <= at < holdings(balances, owner).len(),
    ensures
        exists|i: int|
            0 <= i < balances.len() && owned(#[trigger] balances[i], owner) && holding(balances[i])
                == holdings(balances, owner)[at],
    decreases balances.len(),
{
    if balances.len() > 0 {
        let init = balances.drop_last();
        let before = holdings(init, owner);
        if at < before.len() {
            lemma_holdings_are_listed(init, owner, at);
            let i = choose|i: int|
                0 <= i < init.len() && owned(#[trigger] init[i], owner) && holding(init[i])
                    == before[at];
            assert(balances[i] == init[i]);
        } else {
            assert(owned(balances[balances.len() - 1], owner));
        }
    }
}

/// A token that is held is listed under the text that its mint displays.
proof fn lemma_held_tokens_are_listed(
    balances: Seq<UiTransactionTokenBalance>,
    owner: Pubkey,
    mint: Pubkey,
)
    requires
        mints_display_as_given(balances, owner),
        token_holdings(balances, owner).contains_key(mint),
    ensures
        lists(balances, owner, pubkey_text(mint)),
{
    let held = holdings(balances, owner);
    lemma_pairs_keys(held);
    let at = choose|i: int| 0 <= i < held.len() && (#[trigger] held[i]).0 == mint;
    lemma_holdings_are_listed(balances, owner, at);
}

/// A bought token is named by the text that a balance of the fee payer after the
/// transaction gives for its mint, a sold one by a text from before it.
pub proof fn law_tokens_are_named_as_given(
    a: AnalyzedTransaction,
    txn: EncodedConfirmedTransactionWithStatusMeta,
    mint: Seq<char>,
)
    requires
        is_outcome(Ok(a), txn),
    ensures
        a.bought_tokens@.contains_key(mint) ==> lists(
            balances_after(txn),
            facts_of(txn).fee_payer,
            mint,
        ),
        a.sold_tokens@.contains_key(mint) ==> lists(
            balances_before(txn),
            facts_of(txn).fee_payer,
            mint,
        ),
{
    let facts = facts_of(txn);
    let key = parsed_pubkey(mint)->0;
    if a.bought_tokens@.contains_key(mint) {
        assert(facts.bought().contains_key(key));
        lemma_held_tokens_are_listed(balances_after(txn), facts.fee_payer, key);
    }
    if a.sold_tokens@.contains_key(mint) {
        assert(facts.sold().contains_key(key));
        lemma_held_tokens_are_listed(balances_before(txn), facts.fee_payer, key);
    }
}

/// A transaction is a trade exactly where it succeeded and some token was bought or sold.
pub proof fn law_trades_move_tokens(a: AnalyzedTransaction)
    ensures
        a.trades() <==> a.success && exists|mint: Seq<char>|
            #![trigger a.bought_tokens@.contains_key(mint)]
            #![trigger a.sold_tokens@.contains_key(mint)]
            a.bought_tokens@.contains_key(mint) || a.sold_tokens@.contains_key(mint),
{
    let none = Map::<Seq<char>, u64>::empty();
    if forall|mint: Seq<char>| !a.bought_tokens@.contains_key(mint) {
        assert(a.bought_tokens@ =~= none);
    } else {
        let mint = choose|mint: Seq<char>| a.bought_tokens@.contains_key(mint);
        assert(!none.contains_key(mint));
    }
    if forall|mint: Seq<char>| !a.sold_tokens@.contains_key(mint) {
        assert(a.sold_tokens@ =~= none);
    } else {
        let mint = choose|mint: Seq<char>| a.sold_tokens@.contains_key(mint);
        assert(!none.contains_key(mint));
    }
}

/// Every balance of the owner is among the holdings, with the mint and the amount that its
/// texts stand for, and nothing else is.
pub proof fn law_holdings_are_the_owners_balances(
    balances: Seq<UiTransactionTokenBalance>,
    owner: Pubkey,
)
    requires
        forall|i: int| #[trigger]
            belongs(balances, i, owner) ==> parsed_pubkey(balances[i].mint@) is Some && parsed_u64(
                balances[i].ui_token_amount.amount@,
            ) is Some,
    ensures
        forall|i: int| #[trigger]
            belongs(balances, i, owner) ==> exists|entry: (Pubkey, u64)| #[trigger]
                holdings(balances, owner).contains(entry) && parsed_pubkey(balances[i].mint@)
                    == Some(entry.0) && parsed_u64(balances[i].ui_token_amount.amount@) == Some(
                    entry.1,
                ),
        forall|entry: (Pubkey, u64)| #[trigger]
            holdings(balances, owner).contains(entry) ==> exists|i: int| #[trigger]
                belongs(balances, i, owner) && parsed_pubkey(balances[i].mint@) == Some(entry.0)
                    && parsed_u64(balances[i].ui_token_amount.amount@) == Some(entry.1),
    decreases balances.len(),
{
    let all = holdings(balances, owner);
    if balances.len() > 0 {
        let init = balances.drop_last();
        let before = holdings(init, owner);
        let last = balances.len() - 1;
        assert forall|i: int| #[trigger] belongs(init, i, owner) implies parsed_pubkey(
            init[i].mint@,
        ) is Some && parsed_u64(init[i].ui_token_amount.amount@) is Some by {
            assert(belongs(balances, i, owner));
        }
        law_holdings_are_the_owners_balances(init, owner);
        assert(owned(balances[last], owner) == belongs(balances, last, owner));
        assert forall|i: int| #[trigger] belongs(balances, i, owner) implies exists|
            entry: (Pubkey, u64),
        | #[trigger]
            all.contains(entry) && parsed_pubkey(balances[i].mint@) == Some(entry.0) && parsed_u64(
                balances[i].ui_token_amount.amount@,
            ) == Some(entry.1) by {
            if i < last {
                assert(belongs(init, i, owner));
                let entry = choose|entry: (Pubkey, u64)| #[trigger]
                    before.contains(entry) && parsed_pubkey(init[i].mint@) == Some(entry.0)
                        && parsed_u64(init[i].ui_token_amount.amount@) == Some(entry.1);
                let e = choose|e: int| 0 <= e < before.len() && before[e] == entry;
                assert(all[e] == entry);
                assert(all.contains(entry));
            } else {
                assert(all[before.len() as int] == holding(balances[last]));
                assert(all.contains(holding(balances[last])));
            }
        }
        assert forall|entry: (Pubkey, u64)| #[trigger] all.contains(entry) implies exists|
            i: int,
        | #[trigger]
            belongs(balances, i, owner) && parsed_pubkey(balances[i].mint@) == Some(entry.0)
                && parsed_u64(balances[i].ui_token_amount.amount@) == Some(entry.1) by {
            let e = choose|e: int| 0 <= e < all.len() && all[e] == entry;
            if e < before.len() {
                assert(before[e] == entry);
                assert(before.contains(entry));
                let i = choose|i: int| #[trigger]
                    belongs(init, i, owner) && parsed_pubkey(init[i].mint@) == Some(entry.0)
                        && parsed_u64(init[i].ui_token_amount.amount@) == Some(entry.1);
                assert(belongs(balances, i, owner));
            } else {
                assert(belongs(balances, last, owner));
            }
        }
    }
}

/// A further balance of the owner adds its mint and amount behind the other holdings and
/// counts from then on for its token; one of anybody else adds nothing.
pub proof fn law_one_more_balance(
    balances: Seq<UiTransactionTokenBalance>,
    more: UiTransactionTokenBalance,
    owner: Pubkey,
    named: String,
    mint: Pubkey,
    amount: u64,
)
    requires
        parsed_pubkey(more.mint@) == Some(mint),
        parsed_u64(more.ui_token_amount.amount@) == Some(amount),
    ensures
        holdings(Seq::empty(), owner) == Seq::<(Pubkey, u64)>::empty(),
        more.owner == OptionSerializer::Present(named) && parsed_pubkey(named@) == Some(owner) ==> {
            &&& holdings(balances.push(more), owner) == holdings(balances, owner) + seq![
                (mint, amount),
            ]
            &&& token_holdings(balances.push(more), owner) == token_holdings(
                balances,
                owner,
            ).insert(mint, amount)
        },
        (more.owner == OptionSerializer::Present(named) && parsed_pubkey(named@) != Some(owner))
            || !(more.owner is Present) ==> {
            &&& holdings(balances.push(more), owner) == holdings(balances, owner)
            &&& token_holdings(balances.push(more), owner) == token_holdings(balances, owner)
        },
{
    let before = holdings(balances, owner);
    assert(balances.push(more).drop_last() =~= balances);
    assert(before.push((mint, amount)) =~= before + seq![(mint, amount)]);
    assert((before + seq![(mint, amount)]).drop_last() =~= before);
}

/// A balance of somebody else, or of nobody, must name its owner, if any, by an address;
/// of a balance of the owner the mint must be an address and the amount a number too.
pub proof fn law_what_must_be_readable(balance: UiTransactionTokenBalance, owner: Pubkey)
    ensures
        !(balance.owner is Present) ==> balance_readable(balance, owner),
        balance.owner matches OptionSerializer::Present(text) ==> {
            &&& parsed_pubkey(text@) is None ==> !balance_readable(balance, owner)
            &&& parsed_pubkey(text@) is Some && parsed_pubkey(text@) != Some(owner)
                ==> balance_readable(balance, owner)
            &&& parsed_pubkey(text@) == Some(owner) ==> (balance_readable(balance, owner)
                <==> parsed_pubkey(balance.mint@) is Some && parsed_u64(
                balance.ui_token_amount.amount@,
            ) is Some)
        },
        balances_readable(seq![balance], owner) <==> balance_readable(balance, owner),
{
    assert(seq![balance][0] == balance);
}

/// A list can be read exactly where both of its parts can.
pub proof fn law_lists_are_readable_part_by_part(
    left: Seq<UiTransactionTokenBalance>,
    right: Seq<UiTransactionTokenBalance>,
    owner: Pubkey,
)
    ensures
        balances_readable(left + right, owner) <==> balances_readable(left, owner)
            && balances_readable(right, owner),
{
    let all = left + right;
    if balances_readable(all, owner) {
        assert forall|i: int| 0 <= i < left.len() implies balance_readable(
            #[trigger] left[i],
            owner,
        ) by {
            assert(all[i] == left[i]);
        }
        assert forall|i: int| 0 <= i < right.len() implies balance_readable(
            #[trigger] right[i],
            owner,
        ) by {
            assert(all[left.len() + i] == right[i]);
        }
    }
}

/// The native change is that of the first balances, the change without gas is larger by
/// the fee, and fee, success and slot are those of the transaction.
pub proof fn law_native_change_is_that_of_the_first_account(
    a: AnalyzedTransaction,
    txn: EncodedConfirmedTransactionWithStatusMeta,
    meta: UiTransactionStatusMeta,
)
    requires
        is_outcome(Ok(a), txn),
        txn.transaction.meta == Some(meta),
    ensures
        a.native_delta == meta.post_balances@[0] - meta.pre_balances@[0],
        a.native_delta_without_gas - a.native_delta == meta.fee,
        a.gas_fee == meta.fee,
        a.success <==> meta.status is Ok,
        a.block == txn.slot,
{
}

/// The change without gas is larger than the change by the fee, whichever way the balance
/// went.
pub proof fn law_gas_is_added_back(a: AnalyzedTransaction, facts: TransactionFactsView)
    requires
        a.follows_from(facts),
    ensures
        a.gas_fee == facts.fee,
        a.native_delta == facts.post_native_balance - facts.pre_native_balance,
        a.native_delta_without_gas - a.native_delta == facts.fee,
        a.block == facts.slot,
        a.success == facts.success,
        a.txn_hash@ == signature_text(facts.hash),
        a.fee_payer@ == pubkey_text(facts.fee_payer),
{
}

/// Where only the balance afterwards differs, both changes differ by as much; where only
/// the fee differs, the change stays and the change without gas differs by as much.
pub proof fn law_changes_follow_balance_and_fee(
    a: AnalyzedTransaction,
    b: AnalyzedTransaction,
    c: AnalyzedTransaction,
    facts: TransactionFactsView,
    post_native_balance: u64,
    fee: u64,
)
    requires
        a.follows_from(facts),
        b.follows_from(TransactionFactsView { post_native_balance, ..facts }),
        c.follows_from(TransactionFactsView { fee, ..facts }),
    ensures
        b.native_delta - a.native_delta == post_native_balance - facts.post_native_balance,
        b.native_delta_without_gas - a.native_delta_without_gas == post_native_balance
            - facts.post_native_balance,
        c.native_delta == a.native_delta,
        c.native_delta_without_gas - a.native_delta_without_gas == fee - facts.fee,
{
}

/// Of a token whose text is read back as its address, more afterwards is bought and less
/// afterwards is sold under that text, each with the difference; where nothing is recorded
/// on one side, the whole amount of the other changes hands.
pub proof fn law_changed_balances_are_bought_or_sold(
    a: AnalyzedTransaction,
    facts: TransactionFactsView,
    key: Pubkey,
)
    requires
        a.follows_from(facts),
        parsed_pubkey(pubkey_text(key)) == Some(key),
    ensures
        a.bought_tokens@.get(pubkey_text(key)) == match (
            facts.pre_balances.get(key),
            facts.post_balances.get(key),
        ) {
            (Some(before), Some(after)) => if before < after {
                Some((after - before) as u64)
            } else {
                None
            },
            (None, after) => after,
            (Some(_), None) => None,
        },
        a.sold_tokens@.get(pubkey_text(key)) == match (
            facts.pre_balances.get(key),
            facts.post_balances.get(key),
        ) {
            (Some(before), Some(after)) => if after < before {
                Some((before - after) as u64)
            } else {
                None
            },
            (before, None) => before,
            (None, Some(_)) => None,
        },
{
}

/// Two errors never share a sentence.
pub proof fn law_errors_have_their_own_sentences(a: AnalysisError, b: AnalysisError)
    requires
        a.sentence() == b.sentence(),
    ensures
        a == b,
{
    reveal_strlit("The fee payer could not be identified.");
    reveal_strlit("The transaction hash could not be extracted.");
    reveal_strlit("The transaction metadata was not provided by the RPC node.");
    reveal_strlit("The pre token balances were not provided by the RPC node.");
    reveal_strlit("The post token balances were not provided by the RPC node.");
    let metadata = AnalysisError::MissingTransactionMeta.sentence();
    let post = AnalysisError::MissingPostTokenBalancesList.sentence();
    assert(metadata[4] == 't' && post[4] == 'p');
    match a {
        AnalysisError::UnableToIdentifyFeePayer => assert(a.sentence().len() == 38),
        AnalysisError::UnableToExtractHash => assert(a.sentence().len() == 44),
        AnalysisError::MissingTransactionMeta => assert(a.sentence().len() == 58),
        AnalysisError::MissingPreTokenBalancesList => assert(a.sentence().len() == 57),
        AnalysisError::MissingPostTokenBalancesList => assert(a.sentence().len() == 58),
    }
}

/// The hash is the text of the first signature, the fee payer the text of the first
/// account, whichever way the transaction is encoded.
pub proof fn law_hash_and_fee_payer_come_first(
    a: AnalyzedTransaction,
    txn: EncodedConfirmedTransactionWithStatusMeta,
    signature: Signature,
    key: Pubkey,
)
    requires
        analyzable(txn),
        is_outcome(Ok(a), txn),
    ensures
        hash_is(txn.transaction.transaction, signature) ==> a.txn_hash@ == signature_text(
            signature,
        ),
        account_is(txn.transaction.transaction, 0, key) ==> a.fee_payer@ == pubkey_text(key),
{
    law_hash_is_first_signature(txn.transaction.transaction);
    law_fee_payer_is_first_account(txn.transaction.transaction);
}

/// Whether the balance at a place of a list is one of `owner` in the token that `mint`
/// names.
pub open spec fn names(
    balances: Seq<UiTransactionTokenBalance>,
    at: int,
    owner: Pubkey,
    mint: Seq<char>,
) -> bool {
    belongs(balances, at, owner) && balances[at].mint@ == mint
}

/// Whether a list says of a token that `owner` holds an amount: the last balance that
/// names the token has a text that stands for it. Where there is none, none is said.
pub open spec fn says(
    balances: Seq<UiTransactionTokenBalance>,
    owner: Pubkey,
    mint: Seq<char>,
    amount: Option<u64>,
) -> bool {
    match amount {
        Some(number) => exists|i: int| #[trigger]
            names(balances, i, owner, mint) && parsed_u64(balances[i].ui_token_amount.amount@)
                == Some(number) && forall|j: int| i < j ==> !#[trigger] names(
                balances,
                j,
                owner,
                mint,
            ),
        None => forall|i: int| !#[trigger] names(balances, i, owner, mint),
    }
}

/// What a list says of a token is what is held of it.
proof fn lemma_what_is_said_is_held(
    balances: Seq<UiTransactionTokenBalance>,
    owner: Pubkey,
    key: Pubkey,
    amount: Option<u64>,
)
    requires
        balances_readable(balances, owner),
        mints_display_as_given(balances, owner),
        parsed_pubkey(pubkey_text(key)) == Some(key),
        says(balances, owner, pubkey_text(key), amount),
    ensures
        token_holdings(balances, owner).get(key) == amount,
    decreases balances.len(),
{
    let mint = pubkey_text(key);
    if balances.len() > 0 {
        let init = balances.drop_last();
        let last = balances.len() - 1;
        let before = holdings(init, owner);
        assert(balance_readable(balances[last], owner));
        assert forall|i: int| 0 <= i < init.len() implies balance_readable(
            #[trigger] init[i],
            owner,
        ) by {
            assert(balance_readable(balances[i], owner));
        }
        assert forall|i: int|
            0 <= i < init.len() && owned(#[trigger] init[i], owner) implies pubkey_text(
            holding(init[i]).0,
        ) == init[i].mint@ by {
            assert(owned(balances[i], owner));
        }
        assert(owned(balances[last], owner) == belongs(balances, last, owner));
        if owned(balances[last], owner) {
            assert(pubkey_text(holding(balances[last]).0) == balances[last].mint@);
            assert(before.push(holding(balances[last])).drop_last() =~= before);
        }
        if names(balances, last, owner, mint) {
            let number = amount->0;
            let i = choose|i: int| #[trigger]
                names(balances, i, owner, mint) && parsed_u64(balances[i].ui_token_amount.amount@)
                    == Some(number) && forall|j: int| i < j ==> !#[trigger] names(
                    balances,
                    j,
                    owner,
                    mint,
                );
            assert(i == last);
        } else {
            assert forall|i: int| #[trigger] names(init, i, owner, mint) == names(
                balances,
                i,
                owner,
                mint,
            ) by {}
            match amount {
                Some(number) => {
                    let i = choose|i: int| #[trigger]
                        names(balances, i, owner, mint) && parsed_u64(
                            balances[i].ui_token_amount.amount@,
                        ) == Some(number) && forall|j: int| i < j ==> !#[trigger] names(
                            balances,
                            j,
                            owner,
                            mint,
                        );
                    assert(names(init, i, owner, mint));
                },
                None => {},
            }
            lemma_what_is_said_is_held(init, owner, key, amount);
        }
    }
}

/// A token that the fee payer had less of afterwards, or only before, was sold; one that
/// the fee payer had more of afterwards, or only afterwards, was bought; each with the
/// difference, under the text that names its mint. A token of which as much is said before
/// and afterwards, or nothing, was neither bought nor sold.
pub proof fn law_tokens_bought_and_sold(
    a: AnalyzedTransaction,
    txn: EncodedConfirmedTransactionWithStatusMeta,
    meta: UiTransactionStatusMeta,
    pre: Vec<UiTransactionTokenBalance>,
    post: Vec<UiTransactionTokenBalance>,
    fee_payer: Pubkey,
    mint: Seq<char>,
    before: Option<u64>,
    after: Option<u64>,
)
    requires
        analyzable(txn),
        is_outcome(Ok(a), txn),
        txn.transaction.meta == Some(meta),
        meta.pre_token_balances == OptionSerializer::Present(pre),
        meta.post_token_balances == OptionSerializer::Present(post),
        account_is(txn.transaction.transaction, 0, fee_payer),
        says(pre@, fee_payer, mint, before),
        says(post@, fee_payer, mint, after),
    ensures
        a.sold_tokens@.contains_key(mint) <==> before is Some && (after is Some ==> after->0
            < before->0),
        a.sold_tokens@.contains_key(mint) ==> a.sold_tokens@[mint] == before->0 - (
        match after {
            Some(number) => number as int,
            None => 0,
        }),
        a.bought_tokens@.contains_key(mint) <==> after is Some && (before is Some ==> before->0
            < after->0),
        a.bought_tokens@.contains_key(mint) ==> a.bought_tokens@[mint] == after->0 - (
        match before {
            Some(number) => number as int,
            None => 0,
        }),
{
    law_fee_payer_is_first_account(txn.transaction.transaction);
    let facts = facts_of(txn);
    assert(facts.fee_payer == fee_payer);
    assert(balances_before(txn) == pre@ && balances_after(txn) == post@);
    if before is None && after is None {
        law_tokens_are_named_as_given(a, txn, mint);
        if a.bought_tokens@.contains_key(mint) {
            let i = choose|i: int|
                0 <= i < post@.len() && owned(#[trigger] post@[i], fee_payer) && post@[i].mint@
                    == mint;
            assert(names(post@, i, fee_payer, mint));
        }
        if a.sold_tokens@.contains_key(mint) {
            let i = choose|i: int|
                0 <= i < pre@.len() && owned(#[trigger] pre@[i], fee_payer) && pre@[i].mint@
                    == mint;
            assert(names(pre@, i, fee_payer, mint));
        }
    } else {
        let list = if before is Some {
            pre@
        } else {
            post@
        };
        let i = choose|i: int| #[trigger] names(list, i, fee_payer, mint);
        assert(names(list, i, fee_payer, mint));
        assert(owned(list[i], fee_payer));
        assert(balance_readable(list[i], fee_payer));
        let key = holding(list[i]).0;
        assert(pubkey_text(key) == mint);
        assert(parsed_pubkey(mint) == Some(key));
        lemma_what_is_said_is_held(pre@, fee_payer, key, before);
        lemma_what_is_said_is_held(post@, fee_payer, key, after);
        assert(facts.pre_balances.get(key) == before);
        assert(facts.post_balances.get(key) == after);
    }
}

/// Each error comes exactly where the transaction lacks what it speaks of, and nothing
/// that is asked for earlier: the metadata, a hash, an account, the list of token balances
/// before, the one after.
pub proof fn law_errors_tell_what_is_missing(
    result: Result<AnalyzedTransaction, AnalysisError>,
    txn: EncodedConfirmedTransactionWithStatusMeta,
    meta: UiTransactionStatusMeta,
)
    requires
        analyzable(txn),
        is_outcome(result, txn),
    ensures
        txn.transaction.meta is None <==> (result matches Err(e) && e is MissingTransactionMeta),
        txn.transaction.meta == Some(meta) ==> {
            let encoded = txn.transaction.transaction;
            let hashed = exists|signature: Signature| hash_is(encoded, signature);
            let paid = hashed && account_count(encoded) > 0;
            let listed = paid && meta.pre_token_balances is Present;
            &&& (result matches Err(e) && e is UnableToExtractHash) <==> !hashed
            &&& (result matches Err(e) && e is UnableToIdentifyFeePayer) <==> hashed && !paid
            &&& (result matches Err(e) && e is MissingPreTokenBalancesList) <==> paid && !listed
            &&& (result matches Err(e) && e is MissingPostTokenBalancesList) <==> listed
                && !(meta.post_token_balances is Present)
            &&& result is Ok <==> listed && meta.post_token_balances is Present
        },
{
    let encoded = txn.transaction.transaction;
    if txn.transaction.meta is Some {
        law_hash_is_first_signature(encoded);
        if transaction_hash(encoded) is Some {
            assert(hash_is(encoded, transaction_hash(encoded)->0));
            law_fee_payer_is_first_account(encoded);
        }
    }
}

/// A transaction without metadata can be refused, and so can a blob that does not decode
/// and a transaction without accounts. Any other can be analyzed or refused exactly where
/// its first signature and its accounts can be read, it has native balances before and
/// after, and the token balances that it lists can be read.
pub proof fn law_what_can_be_analyzed(
    txn: EncodedConfirmedTransactionWithStatusMeta,
    meta: UiTransactionStatusMeta,
    fee_payer: Pubkey,
)
    ensures
        txn.transaction.meta is None ==> analyzable(txn),
        txn.transaction.meta == Some(meta) ==> {
            let encoded = txn.transaction.transaction;
            let hashed = exists|signature: Signature| hash_is(encoded, signature);
            let accounts_given = forall|i: int|
                0 <= i < account_count(encoded) ==> #[trigger] account_given(encoded, i);
            &&& !hashed ==> (analyzable(txn) <==> encoded is LegacyBinary || encoded is Binary)
            &&& hashed && !accounts_given ==> !analyzable(txn)
            &&& hashed && account_count(encoded) == 0 ==> analyzable(txn)
            &&& hashed && accounts_given && account_is(encoded, 0, fee_payer) ==> (analyzable(txn)
                <==> {
                &&& meta.pre_balances@.len() > 0
                &&& meta.post_balances@.len() > 0
                &&& meta.pre_token_balances matches OptionSerializer::Present(pre) ==> (
                meta.post_token_balances matches OptionSerializer::Present(post)
                    ==> balances_readable(pre@, fee_payer) && balances_readable(post@, fee_payer))
            })
        },
{
    let encoded = txn.transaction.transaction;
    law_listed_transactions_must_be_readable(encoded);
    if hash_readable(encoded) {
        law_hash_is_first_signature(encoded);
        if transaction_hash(encoded) is Some {
            assert(hash_is(encoded, transaction_hash(encoded)->0));
        }
    }
    if accounts_readable(encoded) {
        law_fee_payer_is_first_account(encoded);
    }
}

} // verus!
