//! What an account holds of each token, and what a transaction changes in it.
use vstd::prelude::*;

use crate::keys::Pubkey;
use crate::pairs::{
    distinct_keys, lemma_pairs_keys, lemma_pairs_update, lemma_pairs_values, pairs_map,
};

verus! {

/// Amounts of tokens, by the address of the token's mint.
#[derive(Debug)]
pub struct Balances {
    entries: Vec<(Pubkey, u64)>,
}

impl View for Balances {
    type V = Map<Pubkey, u64>;

    closed spec fn view(&self) -> Map<Pubkey, u64> {
        pairs_map(self.entries@)
    }
}

impl Balances {
    /// No mint occurs twice.
    pub closed spec fn wf(&self) -> bool {
        distinct_keys(self.entries@)
    }

    /// Holds nothing.
    pub fn new() -> (balances: Balances)
        ensures
            balances.wf(),
            balances@ == Map::<Pubkey, u64>::empty(),
    {
        Balances { entries: Vec::new() }
    }

    /// The recorded amounts with their mints.
    pub fn entries(&self) -> (entries: &Vec<(Pubkey, u64)>)
        ensures
            pairs_map(entries@) == self@,
            self.wf() ==> distinct_keys(entries@),
            self.wf() ==> forall|i: int|
                0 <= i < entries@.len() ==> self@.contains_key((#[trigger] entries@[i]).0)
                    && self@[entries@[i].0] == entries@[i].1,
            forall|mint: Pubkey| #[trigger]
                self@.contains_key(mint) ==> exists|i: int|
                    0 <= i < entries@.len() && (#[trigger] entries@[i]).0 == mint,
    {
        proof {
            lemma_pairs_keys(self.entries@);
            if self.wf() {
                lemma_pairs_values(self.entries@);
            }
        }
        &self.entries
    }

    /// Where a mint stands among the entries.
    fn position(&self, mint: &Pubkey) -> (at: Option<usize>)
        ensures
            at matches Some(i) ==> i < self.entries@.len() && self.entries@[i as int].0 == *mint,
            at is None ==> !self@.contains_key(*mint),
    {
        for i in 0..self.entries.len()
            invariant
                forall|j: int| 0 <= j < i ==> (#[trigger] self.entries@[j]).0 != *mint,
        {
            if self.entries[i].0 == *mint {
                return Some(i);
            }
        }
        proof {
            lemma_pairs_keys(self.entries@);
        }
        None
    }

    /// The amount of a token, `None` where nothing was recorded of it.
    pub fn get(&self, mint: &Pubkey) -> (amount: Option<u64>)
        requires
            self.wf(),
        ensures
            amount == self@.get(*mint),
    {
        proof {
            lemma_pairs_keys(self.entries@);
            lemma_pairs_values(self.entries@);
        }
        match self.position(mint) {
            Some(i) => Some(self.entries[i].1),
            None => None,
        }
    }

    /// Records the amount of a token, in place of one recorded before.
    pub fn insert(&mut self, mint: Pubkey, amount: u64)
        requires
            old(self).wf(),
        ensures
            final(self).wf(),
            final(self)@ == old(self)@.insert(mint, amount),
    {
        match self.position(&mint) {
            Some(i) => {
                proof {
                    lemma_pairs_update(self.entries@, i as int, amount);
                }
                self.entries.set(i, (mint, amount));
            },
            None => {
                proof {
                    lemma_pairs_keys(self.entries@);
                }
                self.entries.push((mint, amount));
                assert(self.entries@.drop_last() =~= old(self).entries@);
            },
        }
    }

    /// Records amounts in their order: of several amounts of one token the last one
    /// counts.
    pub fn from_entries(entries: &Vec<(Pubkey, u64)>) -> (balances: Balances)
        ensures
            balances.wf(),
            balances@ == pairs_map(entries@),
    {
        let mut balances = Balances::new();
        for i in 0..entries.len()
            invariant
                balances.wf(),
                balances@ == pairs_map(entries@.take(i as int)),
        {
            assert(entries@.take(i + 1).drop_last() =~= entries@.take(i as int));
            balances.insert(entries[i].0, entries[i].1);
        }
        assert(entries@.take(entries@.len() as int) =~= entries@);
        balances
    }
}

/// What `to` holds over `from`: the tokens that it holds more of, with the difference,
/// and those that `from` knows nothing of, with all that `to` holds of them.
pub open spec fn gained(from: Map<Pubkey, u64>, to: Map<Pubkey, u64>) -> Map<Pubkey, u64> {
    Map::new(
        |mint: Pubkey| to.contains_key(mint) && (from.contains_key(mint) ==> from[mint] < to[mint]),
        |mint: Pubkey|
            if from.contains_key(mint) {
                (to[mint] - from[mint]) as u64
            } else {
                to[mint]
            },
    )
}

/// The amount that is held of a token, nothing where none was recorded.
pub open spec fn held(balances: Map<Pubkey, u64>, mint: Pubkey) -> int {
    if balances.contains_key(mint) {
        balances[mint] as int
    } else {
        0
    }
}

/// The tokens that an account received and gave away.
#[derive(Debug)]
pub struct TokenChanges {
    pub bought: Balances,
    pub sold: Balances,
}

/// Computes what `to` holds over `from`.
fn gains(from: &Balances, to: &Balances) -> (gain: Balances)
    requires
        from.wf(),
        to.wf(),
    ensures
        gain.wf(),
        gain@ == gained(from@, to@),
{
    let mut gain = Balances::new();
    assert(gain@ =~= gained(from@, pairs_map(to.entries@.take(0))));
    for i in 0..to.entries.len()
        invariant
            from.wf(),
            to.wf(),
            gain.wf(),
            gain@ == gained(from@, pairs_map(to.entries@.take(i as int))),
    {
        let (mint, after) = to.entries[i];
        let ghost seen = to.entries@.take(i as int);
        proof {
            assert(to.entries@.take(i + 1).drop_last() =~= seen);
            lemma_pairs_keys(seen);
            if pairs_map(seen).contains_key(mint) {
                let j = choose|j: int| 0 <= j < seen.len() && (#[trigger] seen[j]).0 == mint;
                assert(to.entries@[j].0 != to.entries@[i as int].0);
            }
        }
        match from.get(&mint) {
            Some(before) => {
                if before < after {
                    gain.insert(mint, after - before);
                }
            },
            None => {
                gain.insert(mint, after);
            },
        }
        assert(gain@ =~= gained(from@, pairs_map(to.entries@.take(i + 1))));
    }
    assert(to.entries@.take(to.entries@.len() as int) =~= to.entries@);
    gain
}

/// Compares what an account held before and after a transaction. A token that it held
/// more of afterwards, or only afterwards, was bought; one that it held less of, or
/// only before, was sold.
pub fn token_changes(pre: &Balances, post: &Balances) -> (changes: TokenChanges)
    requires
        pre.wf(),
        post.wf(),
    ensures
        changes.bought.wf(),
        changes.sold.wf(),
        changes.bought@ == gained(pre@, post@),
        changes.sold@ == gained(post@, pre@),
{
    TokenChanges { bought: gains(pre, post), sold: gains(post, pre) }
}

/// No token is both bought and sold.
pub proof fn law_bought_and_sold_are_disjoint(
    pre: Map<Pubkey, u64>,
    post: Map<Pubkey, u64>,
    mint: Pubkey,
)
    ensures
        !(gained(pre, post).contains_key(mint) && gained(post, pre).contains_key(mint)),
{
}

/// What was held before, with what was bought and without what was sold, is what is
/// held afterwards.
pub proof fn law_changes_account_for_balances(
    pre: Map<Pubkey, u64>,
    post: Map<Pubkey, u64>,
    mint: Pubkey,
)
    ensures
        held(pre, mint) + held(gained(pre, post), mint) - held(gained(post, pre), mint) == held(
            post,
            mint,
        ),
{
}

/// A token is neither bought nor sold exactly where the same was recorded of it before
/// and afterwards.
pub proof fn law_only_changes_are_reported(
    pre: Map<Pubkey, u64>,
    post: Map<Pubkey, u64>,
    mint: Pubkey,
)
    ensures
        !gained(pre, post).contains_key(mint) && !gained(post, pre).contains_key(mint) <==> pre.get(
            mint,
        ) == post.get(mint),
{
}

/// Of a token that both lists name, more afterwards is bought, less afterwards is sold,
/// each with the difference; as much afterwards is neither.
pub proof fn law_differences_are_bought_or_sold(
    pre: Map<Pubkey, u64>,
    post: Map<Pubkey, u64>,
    mint: Pubkey,
)
    requires
        pre.contains_key(mint),
        post.contains_key(mint),
    ensures
        gained(pre, post).contains_key(mint) <==> pre[mint] < post[mint],
        gained(post, pre).contains_key(mint) <==> post[mint] < pre[mint],
        pre[mint] < post[mint] ==> gained(pre, post)[mint] == post[mint] - pre[mint],
        post[mint] < pre[mint] ==> gained(post, pre)[mint] == pre[mint] - post[mint],
{
}

/// A token that only one list names was sold or bought with its whole amount; one that no
/// list names was neither.
pub proof fn law_tokens_of_one_list_change_hands_wholly(
    pre: Map<Pubkey, u64>,
    post: Map<Pubkey, u64>,
    mint: Pubkey,
)
    ensures
        pre.contains_key(mint) && !post.contains_key(mint) ==> gained(post, pre).contains_key(mint)
            && gained(post, pre)[mint] == pre[mint] && !gained(pre, post).contains_key(mint),
        post.contains_key(mint) && !pre.contains_key(mint) ==> gained(pre, post).contains_key(mint)
            && gained(pre, post)[mint] == post[mint] && !gained(post, pre).contains_key(mint),
        !pre.contains_key(mint) && !post.contains_key(mint) ==> !gained(pre, post).contains_key(
            mint,
        ) && !gained(post, pre).contains_key(mint),
{
}

} // verus!
