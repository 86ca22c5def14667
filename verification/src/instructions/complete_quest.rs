//! Quest completion: the reward lands together with the completion record
//! or not at all.

use vstd::prelude::*;
use crate::authority::{AuthorityRegistry, Operation};
use crate::error::AeternaError;
use crate::keys::Pubkey;
use crate::mirror::{build_completion_update, completion_update, entries, Trait};
use crate::oracle::{decoded_owner, key_bytes, owner_is, read_asset_owner};
use crate::stage::Stage;
use crate::state::{CompletionRecord, Event, Quest, SoulStats};
use crate::store::{
    count_for, holds, lemma_push_absent_keeps_unique, lemma_unique_counts, unique, CompletionStore,
    InsertOutcome,
};

verus! {

/// A rewarded completion.
#[derive(Clone, Debug, PartialEq, Eq)]
pub struct Completion {
    /// The asset's experience after the reward.
    pub xp_total: u64,
    /// The record that was created.
    pub record: CompletionRecord,
    /// The attribute update to send to the mirror.
    pub mirror: Vec<Trait>,
}

/// Whether a claim is rewarded, and if not, why. The checks, in order: the
/// event is active; the caller is the event's organizer; the asset's owner
/// is readable and is the claimed recipient; the asset has left the
/// Dormant stage; the pair of quest and asset has no record yet.
pub open spec fn verdict(
    caller: Pubkey,
    event: Event,
    quest_key: Pubkey,
    owner: Option<Seq<u8>>,
    recipient: Pubkey,
    stats: SoulStats,
    records: Seq<CompletionRecord>,
) -> Result<(), AeternaError> {
    if !event.active {
        Err(AeternaError::EventInactive)
    } else if caller != event.authority {
        Err(AeternaError::Unauthorized)
    } else if owner != Some(recipient@) {
        Err(AeternaError::OwnershipMismatch)
    } else if stats.current_stage == Stage::Dormant {
        Err(AeternaError::NotActivated)
    } else if holds(records, quest_key, stats.asset) {
        Err(AeternaError::DuplicateCompletion)
    } else {
        Ok(())
    }
}

/// The record a rewarded claim creates.
pub open spec fn record_of(quest_key: Pubkey, asset: Pubkey, now: i64, bump: u8) -> CompletionRecord {
    CompletionRecord { quest: quest_key, asset, completed_at: now, bump }
}

/// The ledger after a claim that was answered `answer`: rewarded where the
/// claim was accepted, untouched where it was refused.
pub open spec fn ledger_after(
    answer: Result<(), AeternaError>,
    stats: SoulStats,
    xp_reward: u64,
) -> SoulStats {
    if answer is Ok {
        stats.rewarded(xp_reward)
    } else {
        stats
    }
}

/// The records after a claim that was answered `answer`: `record` added where
/// the claim was accepted, nothing changed where it was refused.
pub open spec fn records_after(
    answer: Result<(), AeternaError>,
    records: Seq<CompletionRecord>,
    record: CompletionRecord,
) -> Seq<CompletionRecord> {
    if answer is Ok {
        records.push(record)
    } else {
        records
    }
}

/// Settles a claim that the asset of `soul_stats` completed `quest`, given
/// the oracle's answer `owner` for that asset. A rewarded claim creates
/// the record of the pair and adds the quest's reward to the ledger; a
/// rejected claim changes neither the store nor the ledger.
pub fn settle(
    registry: &AuthorityRegistry,
    caller: &Pubkey,
    event: &Event,
    quest_key: &Pubkey,
    quest: &Quest,
    owner: Option<Pubkey>,
    recipient: &Pubkey,
    soul_stats: &mut SoulStats,
    store: &mut CompletionStore,
    now: i64,
    bump: u8,
) -> (result: Result<Completion, AeternaError>)
    requires
        old(store).wf(),
    ensures
        final(store).wf(),
        ({
            let answer = verdict(
                *caller,
                *event,
                *quest_key,
                key_bytes(owner),
                *recipient,
                *old(soul_stats),
                old(store)@,
            );
            let record = record_of(*quest_key, old(soul_stats).asset, now, bump);
            &&& result is Ok <==> answer is Ok
            &&& result matches Err(reason) ==> answer == Err::<(), AeternaError>(reason)
            &&& *final(soul_stats) == ledger_after(answer, *old(soul_stats), quest.xp_reward)
            &&& final(store)@ == records_after(answer, old(store)@, record)
            &&& result matches Ok(done) ==> {
                &&& done.xp_total == final(soul_stats).xp
                &&& done.record == record
                &&& entries(done.mirror@) == completion_update(
                    final(soul_stats).xp,
                    final(soul_stats).current_stage,
                    quest.name@,
                    final(soul_stats).quests_completed,
                )
            }
        }),
{
    if !event.active {
        return Err(AeternaError::EventInactive);
    }
    let operation = Operation::QuestCompletion { authority: event.authority };
    match registry.authorize(caller, &operation) {
        Ok(()) => {},
        Err(reason) => {
            return Err(reason);
        },
    }
    if !owner_is(&owner, recipient) {
        return Err(AeternaError::OwnershipMismatch);
    }
    if soul_stats.current_stage.as_u8() < 1 {
        return Err(AeternaError::NotActivated);
    }
    let record = CompletionRecord {
        quest: *quest_key,
        asset: soul_stats.asset,
        completed_at: now,
        bump,
    };
    match store.insert_if_absent(record) {
        InsertOutcome::AlreadyExists => {
            return Err(AeternaError::DuplicateCompletion);
        },
        InsertOutcome::Created => {},
    }
    soul_stats.xp = soul_stats.xp.saturating_add(quest.xp_reward);
    soul_stats.quests_completed = soul_stats.quests_completed.saturating_add(1);
    let mirror = build_completion_update(
        soul_stats.xp,
        soul_stats.current_stage,
        &quest.name,
        soul_stats.quests_completed,
    );
    Ok(Completion { xp_total: soul_stats.xp, record, mirror })
}

/// Settles a claim that the asset of `soul_stats` completed `quest`; the
/// asset's owner is read from the raw account bytes `asset_data`. Bytes
/// that cannot be decoded reject the claim like a wrong owner does.
pub fn handler(
    registry: &AuthorityRegistry,
    caller: &Pubkey,
    event: &Event,
    quest_key: &Pubkey,
    quest: &Quest,
    asset_data: &[u8],
    recipient: &Pubkey,
    soul_stats: &mut SoulStats,
    store: &mut CompletionStore,
    now: i64,
    bump: u8,
) -> (result: Result<Completion, AeternaError>)
    requires
        old(store).wf(),
    ensures
        final(store).wf(),
        ({
            let answer = verdict(
                *caller,
                *event,
                *quest_key,
                decoded_owner(asset_data@),
                *recipient,
                *old(soul_stats),
                old(store)@,
            );
            let record = record_of(*quest_key, old(soul_stats).asset, now, bump);
            &&& result is Ok <==> answer is Ok
            &&& result matches Err(reason) ==> answer == Err::<(), AeternaError>(reason)
            &&& *final(soul_stats) == ledger_after(answer, *old(soul_stats), quest.xp_reward)
            &&& final(store)@ == records_after(answer, old(store)@, record)
            &&& result matches Ok(done) ==> {
                &&& done.xp_total == final(soul_stats).xp
                &&& done.record == record
                &&& entries(done.mirror@) == completion_update(
                    final(soul_stats).xp,
                    final(soul_stats).current_stage,
                    quest.name@,
                    final(soul_stats).quests_completed,
                )
            }
        }),
{
    let owner = read_asset_owner(asset_data);
    settle(registry, caller, event, quest_key, quest, owner, recipient, soul_stats, store, now, bump)
}

/// A reward lands once. After a claim is rewarded, the pair of quest and
/// asset has exactly one record, and the same claim made again, at any
/// later time, is refused as a duplicate.
pub proof fn lemma_rewarded_once(
    caller: Pubkey,
    event: Event,
    quest_key: Pubkey,
    owner: Option<Seq<u8>>,
    recipient: Pubkey,
    stats: SoulStats,
    records: Seq<CompletionRecord>,
    xp_reward: u64,
    now: i64,
    bump: u8,
)
    requires
        unique(records),
        verdict(caller, event, quest_key, owner, recipient, stats, records) is Ok,
    ensures
        unique(records.push(record_of(quest_key, stats.asset, now, bump))),
        count_for(records.push(record_of(quest_key, stats.asset, now, bump)), quest_key, stats.asset)
            == 1,
        verdict(
            caller,
            event,
            quest_key,
            owner,
            recipient,
            stats.rewarded(xp_reward),
            records.push(record_of(quest_key, stats.asset, now, bump)),
        ) == Err::<(), AeternaError>(AeternaError::DuplicateCompletion),
{
    let record = record_of(quest_key, stats.asset, now, bump);
    lemma_push_absent_keeps_unique(records, record);
    lemma_unique_counts(records.push(record), quest_key, stats.asset);
}

/// Making the same claim twice is making it once. If the first claim is
/// rewarded, the second is refused as a duplicate; if the first is
/// refused, the second is refused for the same reason. Either way the
/// second claim, made at whatever time, changes neither the ledger nor
/// the records.
pub proof fn lemma_repeated_claim_changes_nothing(
    caller: Pubkey,
    event: Event,
    quest_key: Pubkey,
    owner: Option<Seq<u8>>,
    recipient: Pubkey,
    stats: SoulStats,
    records: Seq<CompletionRecord>,
    xp_reward: u64,
    first_time: i64,
    second_time: i64,
    bump: u8,
)
    requires
        unique(records),
    ensures
        ({
            let first = verdict(caller, event, quest_key, owner, recipient, stats, records);
            let stats_then = ledger_after(first, stats, xp_reward);
            let records_then = records_after(
                first,
                records,
                record_of(quest_key, stats.asset, first_time, bump),
            );
            let second = verdict(
                caller,
                event,
                quest_key,
                owner,
                recipient,
                stats_then,
                records_then,
            );
            &&& unique(records_then)
            &&& first is Ok ==> second == Err::<(), AeternaError>(AeternaError::DuplicateCompletion)
            &&& first is Err ==> second == first
            &&& ledger_after(second, stats_then, xp_reward) == stats_then
            &&& records_after(
                second,
                records_then,
                record_of(quest_key, stats.asset, second_time, bump),
            ) == records_then
        }),
{
    if verdict(caller, event, quest_key, owner, recipient, stats, records) is Ok {
        lemma_rewarded_once(
            caller,
            event,
            quest_key,
            owner,
            recipient,
            stats,
            records,
            xp_reward,
            first_time,
            bump,
        );
    }
}

/// A pair that has a record is never rewarded again, whoever asks and
/// whatever else holds.
pub proof fn lemma_recorded_pair_is_refused(
    caller: Pubkey,
    event: Event,
    quest_key: Pubkey,
    owner: Option<Seq<u8>>,
    recipient: Pubkey,
    stats: SoulStats,
    records: Seq<CompletionRecord>,
)
    requires
        holds(records, quest_key, stats.asset),
    ensures
        verdict(caller, event, quest_key, owner, recipient, stats, records) is Err,
{
}

/// A Dormant asset earns nothing through quests: its claim is always
/// refused, and where event, caller and owner are all in order the reason
/// is that the asset is not activated.
pub proof fn lemma_dormant_is_refused(
    caller: Pubkey,
    event: Event,
    quest_key: Pubkey,
    owner: Option<Seq<u8>>,
    recipient: Pubkey,
    stats: SoulStats,
    records: Seq<CompletionRecord>,
)
    requires
        stats.current_stage == Stage::Dormant,
    ensures
        verdict(caller, event, quest_key, owner, recipient, stats, records) is Err,
        event.active && caller == event.authority && owner == Some(recipient@) ==> verdict(
            caller,
            event,
            quest_key,
            owner,
            recipient,
            stats,
            records,
        ) == Err::<(), AeternaError>(AeternaError::NotActivated),
{
}

/// A claim against an inactive event is refused for that reason, however
/// valid it is otherwise.
pub proof fn lemma_inactive_event_is_refused(
    caller: Pubkey,
    event: Event,
    quest_key: Pubkey,
    owner: Option<Seq<u8>>,
    recipient: Pubkey,
    stats: SoulStats,
    records: Seq<CompletionRecord>,
)
    requires
        !event.active,
    ensures
        verdict(caller, event, quest_key, owner, recipient, stats, records) == Err::<
            (),
            AeternaError,
        >(AeternaError::EventInactive),
{
}

} // verus!
