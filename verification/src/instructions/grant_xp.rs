//! Direct grants of experience by the backend service.

use vstd::prelude::*;
use crate::authority::{AuthorityRegistry, Operation};
use crate::error::AeternaError;
use crate::keys::Pubkey;
use crate::state::{capped_sum_u64, SoulStats};

verus! {

/// What a direct grant adds.
#[derive(Clone, Copy, Debug, PartialEq, Eq)]
pub struct GrantXpArgs {
    /// Experience to add.
    pub xp_amount: u64,
    /// Trading volume to add, if any.
    pub add_trading_volume: Option<u64>,
    /// Quests to count, if any.
    pub quests_completed: Option<u32>,
}

/// The ledger after `caller` asks for the grant `args`: the grant applied
/// where the caller is the backend service, the ledger as it was otherwise.
pub open spec fn after_grant(
    registry: AuthorityRegistry,
    caller: Pubkey,
    stats: SoulStats,
    args: GrantXpArgs,
) -> SoulStats {
    if registry.permits(caller, Operation::DirectGrant) {
        stats.granted(args.xp_amount, args.add_trading_volume, args.quests_completed)
    } else {
        stats
    }
}

/// Adds experience, and volume and quest count where given, to the ledger
/// and returns the new experience total. Only the backend service may do
/// this; the stage plays no part and does not change. Sums stop at the
/// counter's largest value.
pub fn handler(
    registry: &AuthorityRegistry,
    caller: &Pubkey,
    soul_stats: &mut SoulStats,
    args: &GrantXpArgs,
) -> (result: Result<u64, AeternaError>)
    ensures
        result is Ok <==> registry.permits(*caller, Operation::DirectGrant),
        result is Err ==> result == Err::<u64, AeternaError>(AeternaError::Unauthorized),
        result matches Ok(total) ==> total == final(soul_stats).xp,
        *final(soul_stats) == after_grant(*registry, *caller, *old(soul_stats), *args),
        final(soul_stats).xp >= old(soul_stats).xp,
        final(soul_stats).quests_completed >= old(soul_stats).quests_completed,
        final(soul_stats).current_stage == old(soul_stats).current_stage,
{
    match registry.authorize(caller, &Operation::DirectGrant) {
        Ok(()) => {},
        Err(e) => {
            return Err(e);
        },
    }
    soul_stats.xp = soul_stats.xp.saturating_add(args.xp_amount);
    if let Some(volume) = args.add_trading_volume {
        soul_stats.trading_volume = soul_stats.trading_volume.saturating_add(volume);
    }
    if let Some(quests) = args.quests_completed {
        soul_stats.quests_completed = soul_stats.quests_completed.saturating_add(quests);
    }
    Ok(soul_stats.xp)
}

/// A grant never lowers the experience and never wraps it: the new total
/// is the exact sum where that fits the counter, and the counter's largest
/// value where it does not. A caller other than the backend service
/// changes nothing.
pub proof fn lemma_grant_is_capped_sum(
    registry: AuthorityRegistry,
    caller: Pubkey,
    stats: SoulStats,
    args: GrantXpArgs,
)
    ensures
        after_grant(registry, caller, stats, args).xp >= stats.xp,
        registry.permits(caller, Operation::DirectGrant) ==> after_grant(
            registry,
            caller,
            stats,
            args,
        ).xp == if stats.xp + args.xp_amount <= u64::MAX {
            stats.xp + args.xp_amount
        } else {
            u64::MAX as int
        },
        !registry.permits(caller, Operation::DirectGrant) ==> after_grant(
            registry,
            caller,
            stats,
            args,
        ) == stats,
{
}

/// The sum of `amounts`.
pub open spec fn total(amounts: Seq<u64>) -> nat
    decreases amounts.len(),
{
    if amounts.len() == 0 {
        0
    } else {
        total(amounts.drop_last()) + amounts.last() as nat
    }
}

/// The experience after granting each of `amounts` in turn, starting
/// from `xp`.
pub open spec fn xp_after_grants(xp: u64, amounts: Seq<u64>) -> u64
    decreases amounts.len(),
{
    if amounts.len() == 0 {
        xp
    } else {
        capped_sum_u64(xp_after_grants(xp, amounts.drop_last()), amounts.last())
    }
}

/// However many grants are made, the experience is the exact sum of the
/// start and all amounts where that fits the counter, and the counter's
/// largest value from then on: it never wraps and never falls.
pub proof fn lemma_grants_add_up_capped(xp: u64, amounts: Seq<u64>)
    ensures
        xp_after_grants(xp, amounts) == if xp + total(amounts) <= u64::MAX {
            xp + total(amounts)
        } else {
            u64::MAX as int
        },
        xp_after_grants(xp, amounts) >= xp,
    decreases amounts.len(),
{
    if amounts.len() > 0 {
        lemma_grants_add_up_capped(xp, amounts.drop_last());
    }
}

} // verus!
