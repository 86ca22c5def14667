//! Histories of a ledger: what holds of an asset's ledger after any
//! sequence of operations, in any order.

use vstd::prelude::*;
use crate::authority::AuthorityRegistry;
use crate::instructions::evolve::evolved;
use crate::instructions::grant_xp::{after_grant, GrantXpArgs};
use crate::keys::Pubkey;
use crate::state::SoulStats;

verus! {

/// One operation on a ledger.
pub enum Action {
    /// A request to evolve to the stage numbered `requested`.
    Evolve { requested: u8 },
    /// A direct grant asked for by `caller`.
    Grant { caller: Pubkey, args: GrantXpArgs },
    /// A quest claim that was rewarded with `xp_reward`.
    Reward { xp_reward: u64 },
    /// Any request that was rejected.
    Rejected,
}

/// The ledger after one operation.
pub open spec fn step(registry: AuthorityRegistry, stats: SoulStats, action: Action) -> SoulStats {
    match action {
        Action::Evolve { requested } => evolved(stats, requested),
        Action::Grant { caller, args } => after_grant(registry, caller, stats, args),
        Action::Reward { xp_reward } => stats.rewarded(xp_reward),
        Action::Rejected => stats,
    }
}

/// The ledger after a sequence of operations, first to last.
pub open spec fn run(registry: AuthorityRegistry, stats: SoulStats, actions: Seq<Action>) -> SoulStats
    decreases actions.len(),
{
    if actions.len() == 0 {
        stats
    } else {
        step(registry, run(registry, stats, actions.drop_last()), actions.last())
    }
}

/// `later` is a ledger of the same asset in which no counter and no stage
/// is lower than in `earlier`.
pub open spec fn no_lower(earlier: SoulStats, later: SoulStats) -> bool {
    &&& later.asset == earlier.asset
    &&& later.xp >= earlier.xp
    &&& later.quests_completed >= earlier.quests_completed
    &&& later.trading_volume >= earlier.trading_volume
    &&& later.current_stage.rank() >= earlier.current_stage.rank()
}

/// The ledger's experience has reached the threshold of its stage.
pub open spec fn stage_earned(stats: SoulStats) -> bool {
    stats.xp >= stats.current_stage.required_xp()
}

/// No operation lowers a counter or the stage, and none makes the stage
/// outrun the experience.
pub proof fn lemma_step_no_lower(registry: AuthorityRegistry, stats: SoulStats, action: Action)
    ensures
        no_lower(stats, step(registry, stats, action)),
        stage_earned(stats) ==> stage_earned(step(registry, stats, action)),
        step(registry, stats, action).current_stage != stats.current_stage ==> stage_earned(
            step(registry, stats, action),
        ),
{
}

/// Over any sequence of operations, the ledgers observed in time order
/// never show a lower stage, less experience or fewer quests than an
/// earlier one: for `i <= j`, the ledger after the first `j` operations is
/// no lower than the one after the first `i`.
pub proof fn lemma_run_no_lower(
    registry: AuthorityRegistry,
    stats: SoulStats,
    actions: Seq<Action>,
    i: int,
    j: int,
)
    requires
        0 <= i <= j <= actions.len(),
    ensures
        no_lower(run(registry, stats, actions.take(i)), run(registry, stats, actions.take(j))),
    decreases j - i,
{
    if i < j {
        lemma_run_no_lower(registry, stats, actions, i, j - 1);
        assert(actions.take(j).drop_last() =~= actions.take(j - 1));
        lemma_step_no_lower(registry, run(registry, stats, actions.take(j - 1)), actions.take(j).last());
    }
}

/// A ledger that starts with its stage earned keeps it earned through any
/// sequence of operations; a newly created ledger starts so.
pub proof fn lemma_run_keeps_stage_earned(
    registry: AuthorityRegistry,
    stats: SoulStats,
    actions: Seq<Action>,
)
    requires
        stage_earned(stats),
    ensures
        stage_earned(run(registry, stats, actions)),
    decreases actions.len(),
{
    if actions.len() > 0 {
        lemma_run_keeps_stage_earned(registry, stats, actions.drop_last());
        lemma_step_no_lower(registry, run(registry, stats, actions.drop_last()), actions.last());
    }
}

} // verus!
