//! Amounts of tokens by the text of the token's mint address.
use vstd::prelude::*;

use crate::balances::Balances;
use crate::keys::{parsed_pubkey, pubkey_text, pubkey_to_string, Pubkey};
use crate::pairs::{
    distinct_keys, lemma_pairs_keys, lemma_pairs_update, lemma_pairs_values, pairs_map,
};

verus! {

/// Amounts of tokens, by the text of the token's mint address.
#[derive(Debug)]
pub struct TokenAmounts {
    entries: Vec<(String, u64)>,
}

/// The pairs of texts and amounts that a list holds.
pub open spec fn text_pairs(entries: Seq<(String, u64)>) -> Seq<(Seq<char>, u64)> {
    entries.map_values(|e: (String, u64)| (e.0@, e.1))
}

impl View for TokenAmounts {
    type V = Map<Seq<char>, u64>;

    closed spec fn view(&self) -> Map<Seq<char>, u64> {
        pairs_map(text_pairs(self.entries@))
    }
}

impl TokenAmounts {
    /// No text occurs twice.
    pub closed spec fn wf(&self) -> bool {
        distinct_keys(text_pairs(self.entries@))
    }

    /// Holds nothing.
    pub fn new() -> (amounts: TokenAmounts)
        ensures
            amounts.wf(),
            amounts@ == Map::<Seq<char>, u64>::empty(),
    {
        let amounts = TokenAmounts { entries: Vec::new() };
        assert(text_pairs(amounts.entries@).len() == 0);
        amounts
    }

    /// The recorded amounts with their texts.
    pub fn entries(&self) -> (entries: &Vec<(String, u64)>)
        ensures
            pairs_map(text_pairs(entries@)) == self@,
            self.wf() ==> distinct_keys(text_pairs(entries@)),
            self.wf() ==> forall|i: int|
                0 <= i < entries@.len() ==> self@.contains_key((#[trigger] entries@[i]).0@)
                    && self@[entries@[i].0@] == entries@[i].1,
            forall|mint: Seq<char>| #[trigger]
                self@.contains_key(mint) ==> exists|i: int|
                    0 <= i < entries@.len() && (#[trigger] entries@[i]).0@ == mint,
    {
        proof {
            let pairs = text_pairs(self.entries@);
            lemma_pairs_keys(pairs);
            if self.wf() {
                lemma_pairs_values(pairs);
                assert forall|i: int| 0 <= i < self.entries@.len() implies self@.contains_key(
                    (#[trigger] self.entries@[i]).0@,
                ) && self@[self.entries@[i].0@] == self.entries@[i].1 by {
                    assert(pairs[i].0 == self.entries@[i].0@ && pairs[i].1 == self.entries@[i].1);
                }
            }
            assert forall|mint: Seq<char>| #[trigger] self@.contains_key(mint) implies exists|
                i: int,
            |
                0 <= i < self.entries@.len() && (#[trigger] self.entries@[i]).0@ == mint by {
                let i = choose|i: int| 0 <= i < pairs.len() && (#[trigger] pairs[i]).0 == mint;
                assert(self.entries@[i].0@ == mint);
            }
        }
        &self.entries
    }

    /// Whether nothing is recorded.
    pub fn is_empty(&self) -> (empty: bool)
        ensures
            empty == (self@ == Map::<Seq<char>, u64>::empty()),
    {
        proof {
            let pairs = text_pairs(self.entries@);
            lemma_pairs_keys(pairs);
            if pairs.len() > 0 {
                assert(self@.contains_key(pairs[0].0));
            }
        }
        self.entries.len() == 0
    }

    /// Where a text stands among the entries.
    fn position(&self, mint: &String) -> (at: Option<usize>)
        ensures
            at matches Some(i) ==> i < self.entries@.len() && self.entries@[i as int].0@ == mint@,
            at is None ==> !self@.contains_key(mint@),
    {
        let ghost pairs = text_pairs(self.entries@);
        for i in 0..self.entries.len()
            invariant
                pairs == text_pairs(self.entries@),
                forall|j: int| 0 <= j < i ==> (#[trigger] pairs[j]).0 != mint@,
        {
            if self.entries[i].0 == *mint {
                return Some(i);
            }
        }
        proof {
            lemma_pairs_keys(pairs);
        }
        None
    }

    /// The amount of a token, `None` where nothing is recorded of it.
    pub fn get(&self, mint: &String) -> (amount: Option<u64>)
        requires
            self.wf(),
        ensures
            amount == self@.get(mint@),
    {
        proof {
            lemma_pairs_keys(text_pairs(self.entries@));
            lemma_pairs_values(text_pairs(self.entries@));
        }
        match self.position(mint) {
            Some(i) => {
                assert(text_pairs(self.entries@)[i as int].0 == mint@);
                Some(self.entries[i].1)
            },
            None => None,
        }
    }

    /// Records the amount of a token, in place of one recorded before.
    pub fn insert(&mut self, mint: String, amount: u64)
        requires
            old(self).wf(),
        ensures
            final(self).wf(),
            final(self)@ == old(self)@.insert(mint@, amount),
    {
        let ghost before = text_pairs(self.entries@);
        match self.position(&mint) {
            Some(i) => {
                proof {
                    assert(before[i as int].0 == mint@);
                    lemma_pairs_update(before, i as int, amount);
                }
                self.entries.set(i, (mint, amount));
                assert(text_pairs(self.entries@) =~= before.update(i as int, (mint@, amount)));
            },
            None => {
                proof {
                    lemma_pairs_keys(before);
                }
                self.entries.push((mint, amount));
                assert(text_pairs(self.entries@) =~= before.push((mint@, amount)));
                assert(text_pairs(self.entries@).drop_last() =~= before);
            },
        }
    }

    /// Writes out the mint addresses of a list of balances.
    pub fn from_balances(balances: &Balances) -> (amounts: TokenAmounts)
        requires
            balances.wf(),
        ensures
            amounts.wf(),
            amounts@ == by_text(balances@),
            texts_read_back(balances@),
            forall|mint: Pubkey| #[trigger]
                balances@.contains_key(mint) ==> amounts@.contains_key(pubkey_text(mint))
                    && amounts@[pubkey_text(mint)] == balances@[mint],
            forall|text: Seq<char>| #[trigger]
                amounts@.contains_key(text) ==> exists|mint: Pubkey| #[trigger]
                    balances@.contains_key(mint) && pubkey_text(mint) == text,
    {
        let entries = balances.entries();
        let mut amounts = TokenAmounts::new();
        assert(amounts@ =~= by_text(pairs_map(entries@.take(0))));
        for i in 0..entries.len()
            invariant
                distinct_keys(entries@),
                amounts.wf(),
                amounts@ == by_text(pairs_map(entries@.take(i as int))),
                texts_read_back(pairs_map(entries@.take(i as int))),
        {
            let (mint, amount) = entries[i];
            let text = pubkey_to_string(&mint);
            assert(entries@.take(i + 1).drop_last() =~= entries@.take(i as int));
            amounts.insert(text, amount);
            assert(amounts@ =~= by_text(pairs_map(entries@.take(i + 1))));
        }
        assert(entries@.take(entries@.len() as int) =~= entries@);
        assert forall|text: Seq<char>| #[trigger] amounts@.contains_key(text) implies exists|
            mint: Pubkey,
        | #[trigger] balances@.contains_key(mint) && pubkey_text(mint) == text by {
            assert(balances@.contains_key(parsed_pubkey(text)->0));
        }
        amounts
    }
}

/// Amounts by mint address, taken by the text of the address.
pub open spec fn by_text(tokens: Map<Pubkey, u64>) -> Map<Seq<char>, u64> {
    Map::new(
        |text: Seq<char>|
            {
                &&& parsed_pubkey(text) matches Some(mint)
                &&& tokens.contains_key(mint)
                &&& pubkey_text(mint) == text
            },
        |text: Seq<char>| tokens[parsed_pubkey(text)->0],
    )
}

/// Whether the text of each mint address is read back as that address.
pub open spec fn texts_read_back(tokens: Map<Pubkey, u64>) -> bool {
    forall|mint: Pubkey| #[trigger]
        tokens.contains_key(mint) ==> parsed_pubkey(pubkey_text(mint)) == Some(mint)
}

/// A token stands under the text of its mint with its amount, and two tokens never
/// stand under one text.
pub proof fn law_tokens_stand_under_their_texts(
    tokens: Map<Pubkey, u64>,
    mint: Pubkey,
    other: Pubkey,
)
    requires
        texts_read_back(tokens),
        tokens.contains_key(mint),
    ensures
        by_text(tokens).contains_key(pubkey_text(mint)),
        by_text(tokens)[pubkey_text(mint)] == tokens[mint],
        tokens.contains_key(other) && pubkey_text(other) == pubkey_text(mint) ==> other == mint,
{
}

/// Every text stands for a token that it is the text of.
pub proof fn law_texts_stand_for_tokens(tokens: Map<Pubkey, u64>, text: Seq<char>)
    requires
        by_text(tokens).contains_key(text),
    ensures
        exists|mint: Pubkey| #[trigger]
            tokens.contains_key(mint) && pubkey_text(mint) == text && by_text(tokens)[text]
                == tokens[mint],
{
    let mint = parsed_pubkey(text)->0;
    assert(tokens.contains_key(mint));
}

/// The pairs of a list are its texts and amounts as they stand.
pub proof fn law_text_pairs_are_as_they_stand(entries: Seq<(String, u64)>, at: int)
    requires
        0 <= at < entries.len(),
    ensures
        text_pairs(entries).len() == entries.len(),
        text_pairs(entries)[at].0 == entries[at].0@,
        text_pairs(entries)[at].1 == entries[at].1,
{
}

} // verus!
