//! From the analyzed transactions of a block to the batches that are stored.
use vstd::prelude::*;

use crate::analysis::{law_trades_move_tokens, AnalysisError, AnalyzedTransaction};

verus! {

/// How many transactions are stored at once.
pub const BATCH_SIZE: usize = 100;

/// The trades among the transactions of a block, in the order of the block.
pub open spec fn trades(
    results: Seq<Result<AnalyzedTransaction, AnalysisError>>,
) -> Seq<AnalyzedTransaction>
    decreases results.len(),
{
    if results.len() == 0 {
        Seq::empty()
    } else {
        let before = trades(results.drop_last());
        match results.last() {
            Ok(analyzed) => if analyzed.trades() {
                before.push(analyzed)
            } else {
                before
            },
            Err(_) => before,
        }
    }
}

/// Keeps the trades among the transactions of a block, in the order of the block. A
/// transaction that could not be analyzed is passed over.
pub fn select_trades(results: Vec<Result<AnalyzedTransaction, AnalysisError>>) -> (selected: Vec<
    AnalyzedTransaction,
>)
    ensures
        selected@ == trades(results@),
{
    let ghost all = results@;
    let mut selected: Vec<AnalyzedTransaction> = Vec::new();
    for result in it: results
        invariant
            it.seq() == all,
            selected@ == trades(all.take(it.index() as int)),
    {
        assert(all.take(it.index() + 1).drop_last() =~= all.take(it.index() as int));
        match result {
            Ok(analyzed) => {
                if analyzed.is_trade() {
                    selected.push(analyzed);
                }
            },
            Err(_) => {},
        }
    }
    assert(all.take(all.len() as int) =~= all);
    selected
}

/// Transactions that wait for a batch to fill up.
#[derive(Debug)]
pub struct TransactionPool {
    transactions: Vec<AnalyzedTransaction>,
}

impl View for TransactionPool {
    type V = Seq<AnalyzedTransaction>;

    closed spec fn view(&self) -> Seq<AnalyzedTransaction> {
        self.transactions@
    }
}

impl TransactionPool {
    /// The batch is not full.
    pub open spec fn wf(&self) -> bool {
        self@.len() < BATCH_SIZE
    }

    /// Nothing waits.
    pub fn new() -> (pool: TransactionPool)
        ensures
            pool.wf(),
            pool@ == Seq::<AnalyzedTransaction>::empty(),
    {
        TransactionPool { transactions: Vec::with_capacity(BATCH_SIZE) }
    }

    /// Adds a transaction. Where the batch is full with it, the batch is handed out and
    /// the pool is empty again.
    pub fn push(&mut self, transaction: AnalyzedTransaction) -> (batch: Option<
        Vec<AnalyzedTransaction>,
    >)
        requires
            old(self).wf(),
        ensures
            final(self).wf(),
            final(self)@ == poured(old(self)@, transaction).1,
            batch is Some == poured(old(self)@, transaction).0 is Some,
            batch matches Some(full) ==> poured(old(self)@, transaction).0 == Some(full@),
            batch is Some <==> old(self)@.len() == 99,
            batch matches Some(full) ==> full@ == old(self)@.push(transaction) && final(self)@.len()
                == 0,
            batch is None ==> final(self)@ == old(self)@.push(transaction),
    {
        self.transactions.push(transaction);
        if self.transactions.len() == BATCH_SIZE {
            let mut batch: Vec<AnalyzedTransaction> = Vec::with_capacity(BATCH_SIZE);
            std::mem::swap(&mut batch, &mut self.transactions);
            Some(batch)
        } else {
            None
        }
    }
}

/// The batch that a transaction fills up, where it does, and what waits afterwards.
pub open spec fn poured(
    pool: Seq<AnalyzedTransaction>,
    transaction: AnalyzedTransaction,
) -> (Option<Seq<AnalyzedTransaction>>, Seq<AnalyzedTransaction>) {
    let all = pool.push(transaction);
    if all.len() == BATCH_SIZE {
        (Some(all), Seq::empty())
    } else {
        (None, all)
    }
}

/// The batches that a row of transactions fills up, one after the other.
pub open spec fn batches(
    pool: Seq<AnalyzedTransaction>,
    incoming: Seq<AnalyzedTransaction>,
) -> Seq<Seq<AnalyzedTransaction>>
    decreases incoming.len(),
{
    if incoming.len() == 0 {
        Seq::empty()
    } else {
        let before = batches(pool, incoming.drop_last());
        match poured(waiting(pool, incoming.drop_last()), incoming.last()).0 {
            Some(full) => before.push(full),
            None => before,
        }
    }
}

/// What waits after a row of transactions.
pub open spec fn waiting(
    pool: Seq<AnalyzedTransaction>,
    incoming: Seq<AnalyzedTransaction>,
) -> Seq<AnalyzedTransaction>
    decreases incoming.len(),
{
    if incoming.len() == 0 {
        pool
    } else {
        poured(waiting(pool, incoming.drop_last()), incoming.last()).1
    }
}

/// The transactions of batches, one batch after the other.
pub open spec fn joined(batches: Seq<Seq<AnalyzedTransaction>>) -> Seq<AnalyzedTransaction>
    decreases batches.len(),
{
    if batches.len() == 0 {
        Seq::empty()
    } else {
        joined(batches.drop_last()) + batches.last()
    }
}

/// The batches and what waits hold every transaction once and in order; every batch is
/// full, and what waits never is.
pub proof fn law_batches_lose_nothing(
    pool: Seq<AnalyzedTransaction>,
    incoming: Seq<AnalyzedTransaction>,
)
    requires
        pool.len() < BATCH_SIZE,
    ensures
        joined(batches(pool, incoming)) + waiting(pool, incoming) == pool + incoming,
        waiting(pool, incoming).len() < BATCH_SIZE,
        forall|i: int|
            0 <= i < batches(pool, incoming).len() ==> (#[trigger] batches(pool, incoming)[i]).len()
                == BATCH_SIZE,
    decreases incoming.len(),
{
    if incoming.len() == 0 {
        assert(joined(batches(pool, incoming)) + waiting(pool, incoming) =~= pool + incoming);
    } else {
        let init = incoming.drop_last();
        law_batches_lose_nothing(pool, init);
        let before = batches(pool, init);
        let wait = waiting(pool, init);
        assert(init.push(incoming.last()) =~= incoming);
        assert((joined(before) + wait).push(incoming.last()) =~= pool + incoming);
        match poured(wait, incoming.last()).0 {
            Some(full) => {
                assert(before.push(full).drop_last() =~= before);
                assert(joined(batches(pool, incoming)) + waiting(pool, incoming) =~= (joined(before)
                    + wait).push(incoming.last()));
            },
            None => {
                assert(joined(batches(pool, incoming)) + waiting(pool, incoming) =~= (joined(before)
                    + wait).push(incoming.last()));
            },
        }
    }
}

/// What is selected are the analyzed transactions that are trades, and nothing else.
pub proof fn law_exactly_the_trades_are_selected(
    results: Seq<Result<AnalyzedTransaction, AnalysisError>>,
    analyzed: AnalyzedTransaction,
)
    ensures
        trades(results).contains(analyzed) <==> analyzed.trades() && results.contains(Ok(analyzed)),
    decreases results.len(),
{
    if results.len() > 0 {
        let init = results.drop_last();
        let wanted: Result<AnalyzedTransaction, AnalysisError> = Ok(analyzed);
        law_exactly_the_trades_are_selected(init, analyzed);
        assert(init.push(results.last()) =~= results);
        assert(results.contains(wanted) <==> init.contains(wanted) || results.last() == wanted) by {
            if results.contains(wanted) {
                let i = choose|i: int| 0 <= i < results.len() && results[i] == wanted;
                if i < init.len() {
                    assert(init[i] == wanted);
                }
            }
            if init.contains(wanted) {
                let i = choose|i: int| 0 <= i < init.len() && init[i] == wanted;
                assert(results[i] == wanted);
            }
            if results.last() == wanted {
                assert(results[results.len() - 1] == wanted);
            }
        }
        let before = trades(init);
        match results.last() {
            Ok(last) => {
                if last.trades() {
                    let after = before.push(last);
                    assert(after.contains(analyzed) <==> before.contains(analyzed) || last
                        == analyzed) by {
                        if after.contains(analyzed) {
                            let i = choose|i: int| 0 <= i < after.len() && after[i] == analyzed;
                            if i < before.len() {
                                assert(before[i] == analyzed);
                            }
                        }
                        if before.contains(analyzed) {
                            let i = choose|i: int| 0 <= i < before.len() && before[i] == analyzed;
                            assert(after[i] == analyzed);
                        }
                        if last == analyzed {
                            assert(after[before.len() as int] == analyzed);
                        }
                    }
                }
            },
            Err(_) => {},
        }
    }
}

/// The selection from a row of transactions is that from its parts, one after the other.
pub proof fn law_selection_keeps_the_order(
    left: Seq<Result<AnalyzedTransaction, AnalysisError>>,
    right: Seq<Result<AnalyzedTransaction, AnalysisError>>,
)
    ensures
        trades(left + right) == trades(left) + trades(right),
    decreases right.len(),
{
    if right.len() == 0 {
        assert(left + right =~= left);
    } else {
        law_selection_keeps_the_order(left, right.drop_last());
        assert((left + right).drop_last() =~= left + right.drop_last());
        assert(trades(left + right) =~= trades(left) + trades(right));
    }
}

/// One transaction is selected, once and as it is, exactly where it was analyzed,
/// succeeded, and a token was bought or sold in it.
pub proof fn law_one_transaction(analyzed: AnalyzedTransaction, error: AnalysisError)
    ensures
        analyzed.success && (exists|mint: Seq<char>|
            #![trigger analyzed.bought_tokens@.contains_key(mint)]
            #![trigger analyzed.sold_tokens@.contains_key(mint)]
            analyzed.bought_tokens@.contains_key(mint) || analyzed.sold_tokens@.contains_key(mint))
            ==> trades(seq![Ok(analyzed)]) == seq![analyzed],
        !analyzed.success || (forall|mint: Seq<char>|
            #![trigger analyzed.bought_tokens@.contains_key(mint)]
            #![trigger analyzed.sold_tokens@.contains_key(mint)]
            !analyzed.bought_tokens@.contains_key(mint) && !analyzed.sold_tokens@.contains_key(
                mint,
            )) ==> trades(seq![Ok(analyzed)]) == Seq::<AnalyzedTransaction>::empty(),
        trades(seq![Err(error)]) == Seq::<AnalyzedTransaction>::empty(),
{
    law_trades_move_tokens(analyzed);
    let ok: Seq<Result<AnalyzedTransaction, AnalysisError>> = seq![Ok(analyzed)];
    let err: Seq<Result<AnalyzedTransaction, AnalysisError>> = seq![Err(error)];
    assert(ok.drop_last() =~= Seq::empty());
    assert(err.drop_last() =~= Seq::empty());
    assert(trades(Seq::empty()) =~= Seq::<AnalyzedTransaction>::empty());
    assert(trades(Seq::empty()).push(analyzed) =~= seq![analyzed]);
}

/// A transaction joins those that wait. The hundredth takes all of them out as one batch,
/// in the order in which they came, and leaves none waiting.
pub proof fn law_the_hundredth_fills_the_batch(
    pool: Seq<AnalyzedTransaction>,
    transaction: AnalyzedTransaction,
)
    ensures
        pool.len() == 99 ==> poured(pool, transaction).0 == Some(pool + seq![transaction])
            && poured(pool, transaction).1.len() == 0,
        pool.len() != 99 ==> poured(pool, transaction).0 is None && poured(pool, transaction).1
            == pool + seq![transaction],
{
    assert(pool.push(transaction) =~= pool + seq![transaction]);
}

} // verus!
