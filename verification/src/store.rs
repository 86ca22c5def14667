//! The completion record store: one record per (quest, asset) pair, created
//! once and never changed or removed.

use vstd::prelude::*;
use crate::keys::Pubkey;
use crate::state::CompletionRecord;

verus! {

/// Whether `records` has a record for the pair `(quest, asset)`.
pub open spec fn holds(records: Seq<CompletionRecord>, quest: Pubkey, asset: Pubkey) -> bool {
    exists|i: int| 0 <= i < records.len() && (#[trigger] records[i]).is_for(quest, asset)
}

/// No pair `(quest, asset)` has more than one record in `records`.
pub open spec fn unique(records: Seq<CompletionRecord>) -> bool {
    forall|i: int, j: int|
        0 <= i < j < records.len() ==> !(#[trigger] records[i]).is_for(
            (#[trigger] records[j]).quest,
            records[j].asset,
        )
}

/// How many records `records` has for the pair `(quest, asset)`.
pub open spec fn count_for(records: Seq<CompletionRecord>, quest: Pubkey, asset: Pubkey) -> nat
    decreases records.len(),
{
    if records.len() == 0 {
        0
    } else {
        count_for(records.drop_last(), quest, asset) + if records.last().is_for(quest, asset) {
            1nat
        } else {
            0nat
        }
    }
}

/// What an insertion attempt found.
#[derive(Clone, Copy, Debug, PartialEq, Eq, Structural)]
pub enum InsertOutcome {
    /// The pair had no record; one was created.
    Created,
    /// The pair already had a record; nothing was changed.
    AlreadyExists,
}

/// The set of completion records, in order of creation.
#[derive(Debug)]
pub struct CompletionStore {
    records: Vec<CompletionRecord>,
}

impl View for CompletionStore {
    type V = Seq<CompletionRecord>;

    closed spec fn view(&self) -> Seq<CompletionRecord> {
        self.records@
    }
}

impl CompletionStore {
    /// The store's invariant: at most one record per pair.
    pub open spec fn wf(&self) -> bool {
        unique(self@)
    }

    /// A store without records.
    pub fn new() -> (store: CompletionStore)
        ensures
            store@ == Seq::<CompletionRecord>::empty(),
            store.wf(),
    {
        CompletionStore { records: Vec::new() }
    }

    /// Number of records.
    pub fn len(&self) -> (n: usize)
        ensures
            n == self@.len(),
    {
        self.records.len()
    }

    /// The record for the pair `(quest, asset)`, if it exists.
    pub fn get(&self, quest: &Pubkey, asset: &Pubkey) -> (found: Option<CompletionRecord>)
        ensures
            found is Some <==> holds(self@, *quest, *asset),
            found matches Some(record) ==> self@.contains(record) && record.is_for(*quest, *asset),
    {
        let mut i: usize = 0;
        while i < self.records.len()
            invariant
                i <= self.records.len(),
                forall|j: int| 0 <= j < i ==> !(#[trigger] self.records@[j]).is_for(*quest, *asset),
            decreases self.records.len() - i,
        {
            let record = self.records[i];
            if record.quest.same(quest) && record.asset.same(asset) {
                return Some(record);
            }
            i += 1;
        }
        None
    }

    /// Whether the pair `(quest, asset)` has a record.
    pub fn contains(&self, quest: &Pubkey, asset: &Pubkey) -> (yes: bool)
        ensures
            yes == holds(self@, *quest, *asset),
    {
        self.get(quest, asset).is_some()
    }

    /// Creates the record of the pair `(record.quest, record.asset)` unless
    /// the pair already has one. Existing records are never touched.
    pub fn insert_if_absent(&mut self, record: CompletionRecord) -> (outcome: InsertOutcome)
        requires
            old(self).wf(),
        ensures
            final(self).wf(),
            outcome == InsertOutcome::AlreadyExists <==> holds(old(self)@, record.quest, record.asset),
            outcome == InsertOutcome::AlreadyExists ==> final(self)@ == old(self)@,
            outcome == InsertOutcome::Created ==> final(self)@ == old(self)@.push(record),
            holds(final(self)@, record.quest, record.asset),
    {
        if self.contains(&record.quest, &record.asset) {
            return InsertOutcome::AlreadyExists;
        }
        proof {
            lemma_push_absent_keeps_unique(self@, record);
        }
        self.records.push(record);
        InsertOutcome::Created
    }
}

/// Adding a record for a pair that has none keeps every pair at one record
/// at most.
pub proof fn lemma_push_absent_keeps_unique(records: Seq<CompletionRecord>, record: CompletionRecord)
    requires
        unique(records),
        !holds(records, record.quest, record.asset),
    ensures
        unique(records.push(record)),
        holds(records.push(record), record.quest, record.asset),
{
    let after = records.push(record);
    assert forall|i: int, j: int| 0 <= i < j < after.len() implies !(#[trigger] after[i]).is_for(
        (#[trigger] after[j]).quest,
        after[j].asset,
    ) by {
        assert(after[i] == records[i]);
    }
    assert(after[records.len() as int].is_for(record.quest, record.asset));
}

/// In a store that keeps its invariant, a pair has exactly one record if
/// it has any.
pub proof fn lemma_unique_counts(records: Seq<CompletionRecord>, quest: Pubkey, asset: Pubkey)
    requires
        unique(records),
    ensures
        count_for(records, quest, asset) == if holds(records, quest, asset) {
            1nat
        } else {
            0nat
        },
    decreases records.len(),
{
    if records.len() > 0 {
        let shorter = records.drop_last();
        assert forall|i: int, j: int| 0 <= i < j < shorter.len() implies !(#[trigger] shorter[i]).is_for(
            (#[trigger] shorter[j]).quest,
            shorter[j].asset,
        ) by {
            assert(shorter[i] == records[i]);
        }
        lemma_unique_counts(shorter, quest, asset);
        if !records.last().is_for(quest, asset) && holds(records, quest, asset) {
            let i = choose|i: int| 0 <= i < records.len() && (#[trigger] records[i]).is_for(quest, asset);
            assert(shorter[i].is_for(quest, asset));
        }
    }
}

} // verus!
