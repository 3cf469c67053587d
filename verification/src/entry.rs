//! Entries, the transactions and votes they carry, and batches of entries.
//!
//! An entry is an ordered record of transactions; a transaction may embed a
//! vote. Entries travel through the stage in batches, and a batch is never
//! altered on its way: everything here reads a batch and leaves it as it is.

use crate::metrics::{clamp, lemma_clamp_add};
use vstd::prelude::*;

verus! {

/// A vote record, keyed by the identity of the node that submitted it.
#[derive(Clone, Copy, Debug, PartialEq, Eq)]
pub struct Vote {
    pub identity: u64,
    pub version: u64,
    pub last_id: u64,
}

/// A transaction of an entry. A vote transaction carries its vote.
#[derive(Clone, Copy, Debug, PartialEq, Eq)]
pub struct Transaction {
    pub id: u64,
    pub vote: Option<Vote>,
}

/// An ordered record of transactions.
#[derive(Debug, PartialEq, Eq)]
pub struct Entry {
    pub id: u64,
    pub transactions: Vec<Transaction>,
}

/// What an entry is, mathematically: its id and the sequence of its transactions.
pub struct EntryModel {
    pub id: u64,
    pub transactions: Seq<Transaction>,
}

/// An ordered sequence of entries that one upstream emission produced.
pub type Batch = Vec<Entry>;

/// What a batch is, mathematically.
pub type BatchModel = Seq<EntryModel>;

impl View for Entry {
    type V = EntryModel;

    open spec fn view(&self) -> EntryModel {
        EntryModel { id: self.id, transactions: self.transactions@ }
    }
}

impl DeepView for Entry {
    type V = EntryModel;

    open spec fn deep_view(&self) -> EntryModel {
        self@
    }
}

impl Clone for Entry {
    fn clone(&self) -> (copy: Self)
        ensures
            copy@ == self@,
    {
        Entry { id: self.id, transactions: self.transactions.clone() }
    }
}

/// The votes that the transactions of one entry embed, in transaction order.
pub open spec fn entry_votes(entry: EntryModel) -> Seq<Vote> {
    entry.transactions.filter_map(|t: Transaction| t.vote)
}

/// The votes that a batch embeds: those of its entries, in entry order.
pub open spec fn batch_votes(batch: BatchModel) -> Seq<Vote> {
    batch.flat_map(|e: EntryModel| entry_votes(e))
}

/// All transactions of a batch, in order.
pub open spec fn batch_transactions(batch: BatchModel) -> Seq<Transaction> {
    batch.flat_map(|e: EntryModel| e.transactions)
}

impl Entry {
    /// The votes embedded in this entry.
    pub fn votes(&self) -> (votes: Vec<Vote>)
        ensures
            votes@ == entry_votes(self@),
    {
        let mut votes: Vec<Vote> = Vec::new();
        let ghost pick = |t: Transaction| t.vote;
        let mut j: usize = 0;
        while j < self.transactions.len()
            invariant
                j <= self.transactions.len(),
                pick == |t: Transaction| t.vote,
                votes@ == self.transactions@.take(j as int).filter_map(pick),
            decreases self.transactions.len() - j,
        {
            proof {
                self.transactions@.lemma_filter_map_take_succ(pick, j as int);
            }
            match self.transactions[j].vote {
                Some(vote) => {
                    votes.push(vote);
                },
                None => {},
            }
            j += 1;
        }
        assert(self.transactions@.take(j as int) == self.transactions@);
        votes
    }
}

/// The votes embedded in a batch, entry by entry.
pub fn votes_of(batch: &Batch) -> (votes: Vec<Vote>)
    ensures
        votes@ == batch_votes(batch.deep_view()),
{
    let mut votes: Vec<Vote> = Vec::new();
    let ghost entries = batch.deep_view();
    let ghost each = |e: EntryModel| entry_votes(e);
    let mut i: usize = 0;
    while i < batch.len()
        invariant
            i <= batch.len(),
            entries == batch.deep_view(),
            each == |e: EntryModel| entry_votes(e),
            votes@ == entries.take(i as int).flat_map(each),
        decreases batch.len() - i,
    {
        proof {
            entries.lemma_flat_map_take_append(each, i as int);
        }
        let mut found = batch[i].votes();
        votes.append(&mut found);
        i += 1;
    }
    assert(entries.take(i as int) == entries);
    votes
}

/// The number of transactions in a batch, as a counter shows it.
pub fn count_transactions(batch: &Batch) -> (count: u64)
    ensures
        count == clamp(batch_transactions(batch.deep_view()).len()),
{
    let mut count: u64 = 0;
    let ghost entries = batch.deep_view();
    let ghost each = |e: EntryModel| e.transactions;
    let mut i: usize = 0;
    while i < batch.len()
        invariant
            i <= batch.len(),
            entries == batch.deep_view(),
            each == |e: EntryModel| e.transactions,
            count == clamp(entries.take(i as int).flat_map(each).len()),
        decreases batch.len() - i,
    {
        proof {
            entries.lemma_flat_map_take_append(each, i as int);
            lemma_clamp_add(
                entries.take(i as int).flat_map(each).len(),
                batch[i as int].transactions@.len(),
            );
        }
        count = count.saturating_add(batch[i].transactions.len() as u64);
        i += 1;
    }
    assert(entries.take(i as int) == entries);
    count
}

/// A copy of a batch: the same entries in the same order.
pub fn copy_of(batch: &Batch) -> (copy: Batch)
    ensures
        copy.deep_view() == batch.deep_view(),
{
    let copy = batch.clone();
    assert(copy.deep_view() =~= batch.deep_view());
    copy
}

} // verus!
