//! Evolution of an asset to a higher stage.

use vstd::prelude::*;
use crate::error::AeternaError;
use crate::mirror::{build_evolution_update, entries, evolution_update, Trait};
use crate::stage::{evaluate, gate, Stage};
use crate::state::SoulStats;

verus! {

/// A request to evolve.
#[derive(Clone, Debug, PartialEq, Eq)]
pub struct EvolveArgs {
    /// A new metadata address for the asset, if it is to change.
    pub new_uri: Option<String>,
    /// The stage asked for: 1 for Active, 2 for Ascended.
    pub new_stage: u8,
    /// Attributes the caller wants mirrored along with the stage.
    pub attributes: Vec<Trait>,
}

/// An accepted evolution.
#[derive(Clone, Debug, PartialEq, Eq)]
pub struct Evolution {
    /// The stage the asset is in now.
    pub stage: Stage,
    /// The attribute update to send to the mirror.
    pub mirror: Vec<Trait>,
}

/// The ledger after a request for stage number `requested`: moved to that
/// stage where the evolution rule accepts, as it was where it rejects.
pub open spec fn evolved(stats: SoulStats, requested: u8) -> SoulStats {
    match gate(stats.current_stage, requested, stats.xp) {
        Ok(stage) => stats.at_stage(stage),
        Err(_) => stats,
    }
}

/// Applies the evolution rule to the ledger's stage and experience. Where
/// it accepts, the ledger moves to the requested stage and the mirror
/// update is returned; where it rejects, the rule's reason is returned
/// and the ledger is as before.
pub fn handler(soul_stats: &mut SoulStats, args: &EvolveArgs) -> (result: Result<
    Evolution,
    AeternaError,
>)
    ensures
        result matches Ok(evolution) ==> gate(
            old(soul_stats).current_stage,
            args.new_stage,
            old(soul_stats).xp,
        ) == Ok::<Stage, AeternaError>(evolution.stage) && entries(evolution.mirror@)
            == evolution_update(entries(args.attributes@), evolution.stage, old(soul_stats).xp),
        result matches Err(reason) ==> gate(
            old(soul_stats).current_stage,
            args.new_stage,
            old(soul_stats).xp,
        ) == Err::<Stage, AeternaError>(reason),
        *final(soul_stats) == evolved(*old(soul_stats), args.new_stage),
        final(soul_stats).current_stage.rank() >= old(soul_stats).current_stage.rank(),
        final(soul_stats).current_stage != old(soul_stats).current_stage ==> final(soul_stats).xp
            >= final(soul_stats).current_stage.required_xp(),
{
    match evaluate(soul_stats.current_stage, args.new_stage, soul_stats.xp) {
        Ok(stage) => {
            soul_stats.current_stage = stage;
            let mirror = build_evolution_update(&args.attributes, stage, soul_stats.xp);
            Ok(Evolution { stage, mirror })
        },
        Err(reason) => Err(reason),
    }
}

} // verus!
