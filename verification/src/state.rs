//! The records the ledger keeps: the per-asset stat ledger, the catalog
//! entries it reads, completion records and wallet links.

use vstd::prelude::*;
use crate::keys::Pubkey;
use crate::stage::Stage;

verus! {

/// `a + b`, held at the largest 64-bit value instead of wrapping.
pub open spec fn capped_sum_u64(a: u64, b: u64) -> u64 {
    if a + b > u64::MAX {
        u64::MAX
    } else {
        (a + b) as u64
    }
}

/// `a + b`, held at the largest 32-bit value instead of wrapping.
pub open spec fn capped_sum_u32(a: u32, b: u32) -> u32 {
    if a + b > u32::MAX {
        u32::MAX
    } else {
        (a + b) as u32
    }
}

/// The progression ledger of one asset.
#[derive(Clone, Copy, Debug, PartialEq, Eq)]
pub struct SoulStats {
    /// The asset this ledger belongs to.
    pub asset: Pubkey,
    /// Total accumulated experience.
    pub xp: u64,
    /// Number of quests completed.
    pub quests_completed: u32,
    /// Cumulative trading volume, an auxiliary counter.
    pub trading_volume: u64,
    /// Current evolution stage.
    pub current_stage: Stage,
    /// Address bump of the record.
    pub bump: u8,
}

impl SoulStats {
    /// Stored size in bytes: tag, asset, xp, quest count, volume, stage, bump.
    pub const SIZE: usize = 8 + 32 + 8 + 4 + 8 + 1 + 1;

    /// Experience required to reach the Active stage.
    pub const THRESHOLD_ACTIVE: u64 = 100;

    /// Experience required to reach the Ascended stage.
    pub const THRESHOLD_ASCENDED: u64 = 1000;

    /// The ledger of an asset that has done nothing yet.
    pub open spec fn fresh(asset: Pubkey, bump: u8) -> SoulStats {
        SoulStats {
            asset,
            xp: 0,
            quests_completed: 0,
            trading_volume: 0,
            current_stage: Stage::Dormant,
            bump,
        }
    }

    /// This ledger after one quest reward: the reward is added to the
    /// experience and one quest is counted, both capped.
    pub open spec fn rewarded(self, reward: u64) -> SoulStats {
        SoulStats {
            xp: capped_sum_u64(self.xp, reward),
            quests_completed: capped_sum_u32(self.quests_completed, 1),
            ..self
        }
    }

    /// This ledger after a direct grant: experience rises by `xp_amount`,
    /// and volume and quest count by their deltas where given, all capped.
    pub open spec fn granted(
        self,
        xp_amount: u64,
        add_trading_volume: Option<u64>,
        quests_completed: Option<u32>,
    ) -> SoulStats {
        SoulStats {
            xp: capped_sum_u64(self.xp, xp_amount),
            trading_volume: match add_trading_volume {
                Some(volume) => capped_sum_u64(self.trading_volume, volume),
                None => self.trading_volume,
            },
            quests_completed: match quests_completed {
                Some(quests) => capped_sum_u32(self.quests_completed, quests),
                None => self.quests_completed,
            },
            ..self
        }
    }

    /// This ledger moved to `stage`, all counters kept.
    pub open spec fn at_stage(self, stage: Stage) -> SoulStats {
        SoulStats { current_stage: stage, ..self }
    }

    /// Creates the ledger of a newly initialized asset: no experience, no
    /// quests, no volume, stage Dormant.
    pub fn new(asset: Pubkey, bump: u8) -> (stats: SoulStats)
        ensures
            stats == SoulStats::fresh(asset, bump),
    {
        SoulStats {
            asset,
            xp: 0,
            quests_completed: 0,
            trading_volume: 0,
            current_stage: Stage::Dormant,
            bump,
        }
    }
}

/// An event run by an organizer.
#[derive(Clone, Debug, PartialEq, Eq)]
pub struct Event {
    /// The organizer that created and controls the event.
    pub authority: Pubkey,
    /// Name of the event; its identity key.
    pub name: String,
    /// Whether the event is open for interaction.
    pub active: bool,
    /// Address bump of the record.
    pub bump: u8,
}

impl Event {
    /// Stored size in bytes: tag, authority, length-prefixed name of up to
    /// 64 bytes, active flag, bump.
    pub const SIZE: usize = 8 + 32 + (4 + 64) + 1 + 1;

    /// Creates an event owned by `authority`. A new event is active.
    pub fn new(authority: Pubkey, name: String, bump: u8) -> (event: Event)
        ensures
            event.authority == authority,
            event.name == name,
            event.active,
            event.bump == bump,
    {
        Event { authority, name, active: true, bump }
    }
}

/// A quest offered at an event.
#[derive(Clone, Debug, PartialEq, Eq)]
pub struct Quest {
    /// The event this quest belongs to.
    pub event: Pubkey,
    /// Name of the quest; with the event, its identity key.
    pub name: String,
    /// Experience granted for completing the quest.
    pub xp_reward: u64,
    /// Address bump of the record.
    pub bump: u8,
}

impl Quest {
    /// Stored size in bytes: tag, event, length-prefixed name of up to 64
    /// bytes, reward, bump.
    pub const SIZE: usize = 8 + 32 + (4 + 64) + 8 + 1;

    /// Creates a quest of the event with key `event`.
    pub fn new(event: Pubkey, name: String, xp_reward: u64, bump: u8) -> (quest: Quest)
        ensures
            quest.event == event,
            quest.name == name,
            quest.xp_reward == xp_reward,
            quest.bump == bump,
    {
        Quest { event, name, xp_reward, bump }
    }

    /// Whether this quest belongs to the event with key `event_key`.
    pub fn belongs_to(&self, event_key: &Pubkey) -> (yes: bool)
        ensures
            yes == (self.event == *event_key),
    {
        self.event.same(event_key)
    }
}

/// The permanent fact that an asset completed a quest.
#[derive(Clone, Copy, Debug, PartialEq, Eq)]
pub struct CompletionRecord {
    /// The quest that was completed.
    pub quest: Pubkey,
    /// The asset that completed it.
    pub asset: Pubkey,
    /// Time of completion, in Unix seconds.
    pub completed_at: i64,
    /// Address bump of the record.
    pub bump: u8,
}

impl CompletionRecord {
    /// Stored size in bytes: tag, quest, asset, time, bump.
    pub const SIZE: usize = 8 + 32 + 32 + 8 + 1;

    /// Whether this record is the one for the pair `(quest, asset)`.
    pub open spec fn is_for(self, quest: Pubkey, asset: Pubkey) -> bool {
        self.quest == quest && self.asset == asset
    }
}

/// The link from an asset to the spending wallet registered for it.
#[derive(Clone, Copy, Debug, PartialEq, Eq)]
pub struct PulseLink {
    /// The asset the wallet is linked to.
    pub asset: Pubkey,
    /// The linked wallet.
    pub pulse_wallet: Pubkey,
    /// Address bump of the record.
    pub bump: u8,
}

impl PulseLink {
    /// Stored size in bytes: tag, asset, wallet, bump.
    pub const SIZE: usize = 8 + 32 + 32 + 1;
}

} // verus!
