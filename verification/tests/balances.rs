use clemens::balances::{token_changes, Balances};
use clemens::keys::Pubkey;
use clemens::tokens::TokenAmounts;

fn key(byte: u8) -> Pubkey {
    Pubkey { bytes: [byte; 32] }
}

fn balances(entries: &[(u8, u64)]) -> Balances {
    Balances::from_entries(&entries.iter().map(|e| (key(e.0), e.1)).collect())
}

#[test]
fn a_new_list_of_balances_is_empty() {
    let balances = Balances::new();
    assert_eq!(balances.get(&key(1)), None);
    assert!(balances.entries().is_empty());
}

#[test]
fn a_balance_replaces_an_earlier_one() {
    let mut held = Balances::new();
    held.insert(key(1), 5);
    held.insert(key(2), 6);
    held.insert(key(1), 7);
    assert_eq!(held.get(&key(1)), Some(7));
    assert_eq!(held.get(&key(2)), Some(6));
    assert_eq!(held.get(&key(3)), None);
    assert_eq!(held.entries().len(), 2);
}

#[test]
fn of_several_entries_the_last_one_counts() {
    let held = balances(&[(1, 5), (2, 6), (1, 7), (1, 8)]);
    assert_eq!(held.get(&key(1)), Some(8));
    assert_eq!(held.get(&key(2)), Some(6));
    assert_eq!(held.entries().len(), 2);
}

#[test]
fn changes_are_sorted_into_bought_and_sold() {
    let pre = balances(&[(1, 10), (2, 10), (3, 10), (4, 10)]);
    let post = balances(&[(5, 4), (3, 10), (2, 13), (1, 7)]);
    let changes = token_changes(&pre, &post);
    assert_eq!(changes.bought.get(&key(2)), Some(3));
    assert_eq!(changes.bought.get(&key(5)), Some(4));
    assert_eq!(changes.bought.entries().len(), 2);
    assert_eq!(changes.sold.get(&key(1)), Some(3));
    assert_eq!(changes.sold.get(&key(4)), Some(10));
    assert_eq!(changes.sold.entries().len(), 2);
}

#[test]
fn a_token_that_only_one_list_names_counts_though_its_amount_is_zero() {
    let changes = token_changes(&balances(&[(1, 0)]), &balances(&[(2, 0)]));
    assert_eq!(changes.sold.get(&key(1)), Some(0));
    assert_eq!(changes.bought.get(&key(2)), Some(0));
}

#[test]
fn the_whole_range_of_amounts_is_compared() {
    let changes = token_changes(&balances(&[(1, 0), (2, u64::MAX)]), &balances(&[(1, u64::MAX), (2, 0)]));
    assert_eq!(changes.bought.get(&key(1)), Some(u64::MAX));
    assert_eq!(changes.sold.get(&key(2)), Some(u64::MAX));
}

#[test]
fn unchanged_balances_are_neither_bought_nor_sold() {
    let changes = token_changes(&balances(&[(1, 4), (2, 0)]), &balances(&[(2, 0), (1, 4)]));
    assert!(changes.bought.entries().is_empty());
    assert!(changes.sold.entries().is_empty());
}

#[test]
fn changes_lead_from_the_balances_before_to_those_after() {
    let pre = balances(&[(1, 10), (2, 10), (3, 10), (4, 10)]);
    let post = balances(&[(5, 4), (3, 10), (2, 13), (1, 7)]);
    let changes = token_changes(&pre, &post);
    for byte in 0..7u8 {
        let held = |b: &Balances| b.get(&key(byte)).unwrap_or(0);
        assert_eq!(held(&pre) + held(&changes.bought) - held(&changes.sold), held(&post));
        assert!(changes.bought.get(&key(byte)).is_none() || changes.sold.get(&key(byte)).is_none());
    }
}

#[test]
fn mints_are_written_in_base_58() {
    let amounts = TokenAmounts::from_balances(&balances(&[(0, 3), (1, 4), (2, 5)]));
    assert!(!amounts.is_empty());
    assert_eq!(amounts.entries().len(), 3);
    assert_eq!(amounts.get(&"11111111111111111111111111111111".to_string()), Some(3));
    assert_eq!(amounts.get(&"4vJ9JU1bJJE96FWSJKvHsmmFADCg4gpZQff4P3bkLKi".to_string()), Some(4));
    assert_eq!(amounts.get(&"8qbHbw2BbbTHBW1sbeqakYXVKRQM8Ne7pLK7m6CVfeR".to_string()), Some(5));
    assert_eq!(amounts.get(&"1".to_string()), None);
}

#[test]
fn an_amount_replaces_an_earlier_one() {
    let mut amounts = TokenAmounts::new();
    assert!(amounts.is_empty());
    amounts.insert("a".to_string(), 1);
    amounts.insert("b".to_string(), 2);
    amounts.insert("a".to_string(), 3);
    assert!(!amounts.is_empty());
    assert_eq!(amounts.get(&"a".to_string()), Some(3));
    assert_eq!(amounts.get(&"b".to_string()), Some(2));
    assert_eq!(amounts.entries(), &vec![("a".to_string(), 3), ("b".to_string(), 2)]);
}
