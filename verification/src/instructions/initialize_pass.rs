//! Initialization of a pass: the asset's ledger starts here.

use vstd::prelude::*;
use vstd::string::*;
use crate::error::AeternaError;
use crate::keys::Pubkey;
use crate::mirror::{build_initial_update, entries, initial_update, Trait};
use crate::state::{Event, SoulStats};

verus! {

/// Secondary-sale royalties of a pass, in basis points.
pub const ROYALTY_BASIS_POINTS: u16 = 500;

/// Share of the royalties that goes to the authority, in percent.
pub const CREATOR_PERCENTAGE: u8 = 100;

/// What a holder presents to initialize a pass.
#[derive(Clone, Debug, PartialEq, Eq)]
pub struct InitArgs {
    /// Metadata address of the new asset.
    pub uri: String,
    /// The invite code.
    pub invite_code: String,
}

/// A newly initialized pass.
#[derive(Clone, Debug, PartialEq, Eq)]
pub struct Initialization {
    /// The asset's ledger.
    pub soul_stats: SoulStats,
    /// The attributes the asset is minted with.
    pub attributes: Vec<Trait>,
}

/// The invite code that is accepted.
pub open spec fn accepted_invite_code() -> Seq<char> {
    "AETERNA_GENESIS"@
}

/// The name every pass is minted under.
pub fn pass_name() -> (name: String)
    ensures
        name@ == "AETERNA Pass"@,
{
    String::from_str("AETERNA Pass")
}

/// Starts the ledger of `asset` for a pass of `event`. The event must be
/// active and the invite code the accepted one. The ledger starts without
/// experience at stage Dormant.
pub fn handler(args: &InitArgs, event: &Event, asset: &Pubkey, bump: u8) -> (result: Result<
    Initialization,
    AeternaError,
>)
    ensures
        result == Err::<Initialization, AeternaError>(AeternaError::EventInactive)
            <==> !event.active,
        result == Err::<Initialization, AeternaError>(AeternaError::InvalidInviteCode) <==> (
        event.active && args.invite_code@ != accepted_invite_code()),
        result is Ok <==> (event.active && args.invite_code@ == accepted_invite_code()),
        result matches Ok(pass) ==> pass.soul_stats == SoulStats::fresh(*asset, bump) && entries(
            pass.attributes@,
        ) == initial_update(),
{
    if !event.active {
        return Err(AeternaError::EventInactive);
    }
    if args.invite_code != String::from_str("AETERNA_GENESIS") {
        return Err(AeternaError::InvalidInviteCode);
    }
    Ok(Initialization { soul_stats: SoulStats::new(*asset, bump), attributes: build_initial_update() })
}

} // verus!
