use write_stage::entry::{copy_of, count_transactions, votes_of, Entry, Transaction, Vote};

fn vote(identity: u64) -> Vote {
    Vote { identity, version: identity + 10, last_id: identity + 100 }
}

fn plain(id: u64) -> Transaction {
    Transaction { id, vote: None }
}

fn voting(id: u64, identity: u64) -> Transaction {
    Transaction { id, vote: Some(vote(identity)) }
}

#[test]
fn an_entry_without_transactions_has_no_votes() {
    let entry = Entry { id: 1, transactions: vec![] };
    assert_eq!(entry.votes(), vec![]);
}

#[test]
fn the_votes_of_an_entry_come_in_transaction_order() {
    let entry = Entry {
        id: 1,
        transactions: vec![voting(1, 7), plain(2), voting(3, 5), plain(4), voting(5, 6)],
    };
    assert_eq!(entry.votes(), vec![vote(7), vote(5), vote(6)]);
}

#[test]
fn plain_transactions_carry_no_vote() {
    let entry = Entry { id: 1, transactions: vec![plain(1), plain(2)] };
    assert_eq!(entry.votes(), vec![]);
}

#[test]
fn the_votes_of_a_batch_come_in_entry_order() {
    let batch = vec![
        Entry { id: 1, transactions: vec![voting(1, 3), plain(2)] },
        Entry { id: 2, transactions: vec![] },
        Entry { id: 3, transactions: vec![plain(3), voting(4, 1), voting(5, 2)] },
    ];
    assert_eq!(votes_of(&batch), vec![vote(3), vote(1), vote(2)]);
}

#[test]
fn an_empty_batch_has_no_votes_and_no_transactions() {
    let batch: Vec<Entry> = vec![];
    assert_eq!(votes_of(&batch), vec![]);
    assert_eq!(count_transactions(&batch), 0);
}

#[test]
fn transactions_are_counted_over_all_entries() {
    let batch = vec![
        Entry { id: 1, transactions: vec![voting(1, 3), plain(2)] },
        Entry { id: 2, transactions: vec![] },
        Entry { id: 3, transactions: vec![plain(3), voting(4, 1), voting(5, 2)] },
    ];
    assert_eq!(count_transactions(&batch), 5);
}

#[test]
fn a_copy_of_a_batch_holds_the_same_entries() {
    let batch = vec![
        Entry { id: 1, transactions: vec![voting(1, 3), plain(2)] },
        Entry { id: 2, transactions: vec![] },
    ];
    let copy = copy_of(&batch);
    assert_eq!(copy, batch);
    assert_eq!(copy.len(), 2);
    assert_eq!(copy[0].transactions, vec![voting(1, 3), plain(2)]);
}

#[test]
fn a_cloned_entry_equals_its_source() {
    let entry = Entry { id: 9, transactions: vec![plain(1), voting(2, 4)] };
    let copy = entry.clone();
    assert_eq!(copy, entry);
    assert_eq!(copy.id, 9);
    assert_eq!(copy.transactions.len(), 2);
}
