//! Linking a spending wallet to an asset.

use vstd::prelude::*;
use crate::error::AeternaError;
use crate::keys::Pubkey;
use crate::oracle::{decoded_owner, key_bytes, read_asset_owner};
use crate::state::PulseLink;

verus! {

/// The wallet to link.
#[derive(Clone, Copy, Debug, PartialEq, Eq)]
pub struct PulseArgs {
    pub pulse_wallet: Pubkey,
}

/// Whether `caller` may link a wallet to an asset whose owner the oracle
/// reports as `owner`: an unreadable asset is an ownership failure, an
/// asset owned by someone else is not the caller's to link.
pub open spec fn link_verdict(caller: Pubkey, owner: Option<Seq<u8>>) -> Result<(), AeternaError> {
    match owner {
        None => Err(AeternaError::OwnershipMismatch),
        Some(bytes) => if bytes == caller@ {
            Ok(())
        } else {
            Err(AeternaError::Unauthorized)
        },
    }
}

/// Links `args.pulse_wallet` to `asset` on behalf of `caller`, given the
/// oracle's answer `owner` for the asset.
pub fn link(caller: &Pubkey, asset: &Pubkey, owner: Option<Pubkey>, args: &PulseArgs, bump: u8) -> (result:
    Result<PulseLink, AeternaError>)
    ensures
        result is Ok <==> link_verdict(*caller, key_bytes(owner)) is Ok,
        result matches Err(reason) ==> link_verdict(*caller, key_bytes(owner)) == Err::<
            (),
            AeternaError,
        >(reason),
        result matches Ok(made) ==> made == (PulseLink {
            asset: *asset,
            pulse_wallet: args.pulse_wallet,
            bump,
        }),
{
    match owner {
        None => Err(AeternaError::OwnershipMismatch),
        Some(key) => {
            if key.same(caller) {
                Ok(PulseLink { asset: *asset, pulse_wallet: args.pulse_wallet, bump })
            } else {
                Err(AeternaError::Unauthorized)
            }
        },
    }
}

/// Links `args.pulse_wallet` to `asset` on behalf of `caller`; the asset's
/// owner is read from the raw account bytes `asset_data`.
pub fn handler(caller: &Pubkey, asset: &Pubkey, asset_data: &[u8], args: &PulseArgs, bump: u8) -> (result:
    Result<PulseLink, AeternaError>)
    ensures
        result is Ok <==> link_verdict(*caller, decoded_owner(asset_data@)) is Ok,
        result matches Err(reason) ==> link_verdict(*caller, decoded_owner(asset_data@)) == Err::<
            (),
            AeternaError,
        >(reason),
        result matches Ok(made) ==> made == (PulseLink {
            asset: *asset,
            pulse_wallet: args.pulse_wallet,
            bump,
        }),
{
    let owner = read_asset_owner(asset_data);
    link(caller, asset, owner, args, bump)
}

} // verus!
